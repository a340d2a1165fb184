use informix_rust::codes::is_success;
use informix_rust::connection::Connection;
use informix_rust::connection::Statement;
use informix_rust::describe::column_count_outcome;
use informix_rust::describe::column_from_describe;
use informix_rust::describe::DescribeBuilder;
use informix_rust::errors::InformixError;
use informix_rust::fetch::classify_fetch;
use informix_rust::fetch::ColumnStep;
use informix_rust::fetch::FetchStart;
use informix_rust::fetch::RowAssembler;
use informix_rust::handles::SendPtr;
use informix_rust::params::SqlParam;
use informix_rust::query::QueryMachine;
use informix_rust::query::QueryStep;

#[test]
fn success_codes() {
    assert!(is_success(0));
    assert!(is_success(1));
    assert!(!is_success(100));
    assert!(!is_success(-1));
    assert!(!is_success(2));
}

#[test]
fn fetch_classification() {
    assert_eq!(classify_fetch(100), FetchStart::End);
    assert_eq!(classify_fetch(0), FetchStart::Row);
    assert_eq!(classify_fetch(1), FetchStart::Row);
    assert_eq!(classify_fetch(-1), FetchStart::Failed);
    assert_eq!(classify_fetch(2), FetchStart::Failed);
}

#[test]
fn fetch_on_empty_result_set_terminal() {
    // the terminal no-data answer stays terminal: asking again gets the
    // same classification, never an error or a row
    for _ in 0..5 {
        assert_eq!(classify_fetch(100), FetchStart::End);
    }
    let mut machine = QueryMachine::start(Vec::new());
    assert!(matches!(machine.on_prepared(Ok(())), QueryStep::DoExecute));
    assert!(matches!(machine.on_executed(0, String::new()), QueryStep::DoFetch));
    assert!(matches!(machine.on_rows_end(), QueryStep::Done));
    let result = machine.into_result().unwrap();
    assert!(result.is_none());
}

#[test]
fn row_assembly_with_null_and_text() {
    let mut row = RowAssembler::new();
    assert_eq!(row.ordinal(), 1);
    let mut buffer = b"first".to_vec();
    buffer.push(0);
    assert_eq!(row.apply(0, 5, &buffer), ColumnStep::Continue);
    assert_eq!(row.ordinal(), 2);
    assert_eq!(row.apply(0, -1, &vec![0]), ColumnStep::Continue);
    assert_eq!(row.apply(100, 0, &vec![]), ColumnStep::Finished);
    assert!(row.is_complete());
    let cols = row.into_row();
    assert_eq!(cols, vec![String::from("first"), String::from("NULL")]);
}

#[test]
fn row_assembly_end_of_columns_heuristic() {
    let mut row = RowAssembler::new();
    let mut buffer = b"v".to_vec();
    buffer.push(0);
    assert_eq!(row.apply(0, 1, &buffer), ColumnStep::Continue);
    assert_eq!(row.apply(-1, 0, &vec![]), ColumnStep::Diagnose);
    let verdict = row.resolve_diagnostic("SQLSTATE = HY000, Native Error = -11103, Message = x");
    assert!(verdict.is_none());
    assert!(row.is_complete());
    assert_eq!(row.into_row(), vec![String::from("v")]);
}

#[test]
fn row_assembly_genuine_error() {
    let mut row = RowAssembler::new();
    assert_eq!(row.apply(-1, 0, &vec![]), ColumnStep::Diagnose);
    match row.resolve_diagnostic("SQLSTATE = 08003, Native Error = -400, Message = boom") {
        Some(InformixError::DataFetchError(m)) => {
            assert_eq!(
                m,
                "GetData failed for column 1: SQLSTATE = 08003, Native Error = -400, Message = boom"
            );
        }
        _ => panic!("a diagnostic without the end-of-columns mark is an error"),
    }
}

#[test]
fn query_zero_rows_is_none() {
    let params = vec![SqlParam::Integer(1)];
    let mut machine = QueryMachine::start(params);
    let step = machine.on_prepared(Ok(()));
    match step {
        QueryStep::DoBind(req) => assert_eq!(req.ordinal, 1),
        _ => panic!("first bind expected"),
    }
    assert!(matches!(machine.on_bound(0), QueryStep::DoExecute));
    assert!(matches!(machine.on_executed(1, String::new()), QueryStep::DoFetch));
    assert!(matches!(machine.on_rows_end(), QueryStep::Done));
    assert!(machine.into_result().unwrap().is_none());
}

#[test]
fn query_rows_are_kept_in_order() {
    let mut machine = QueryMachine::start(Vec::new());
    assert!(matches!(machine.on_prepared(Ok(())), QueryStep::DoExecute));
    assert!(matches!(machine.on_executed(0, String::new()), QueryStep::DoFetch));
    let first = vec![String::from("1"), String::from("a")];
    let second = vec![String::from("2"), String::from("b")];
    assert!(matches!(machine.on_row(first.clone()), QueryStep::DoFetch));
    assert!(matches!(machine.on_row(second.clone()), QueryStep::DoFetch));
    assert!(matches!(machine.on_rows_end(), QueryStep::Done));
    let rows = machine.into_result().unwrap().unwrap();
    assert_eq!(rows.len(), 2);
    assert_eq!(rows[0], first);
    assert_eq!(rows[1], second);
}

#[test]
fn query_binds_every_parameter_in_caller_order() {
    let params = vec![
        SqlParam::Integer(7),
        SqlParam::Str(String::from("x")),
        SqlParam::Integer(9),
    ];
    let mut machine = QueryMachine::start(params);
    let mut ordinals = Vec::new();
    let mut step = machine.on_prepared(Ok(()));
    loop {
        match step {
            QueryStep::DoBind(req) => {
                ordinals.push(req.ordinal);
                step = machine.on_bound(0);
            }
            QueryStep::DoExecute => break,
            _ => panic!("only binds and the execute are expected here"),
        }
    }
    assert_eq!(ordinals, vec![1, 2, 3]);
}

#[test]
fn query_bind_failure_decides() {
    let params = vec![SqlParam::Integer(7)];
    let mut machine = QueryMachine::start(params);
    assert!(matches!(machine.on_prepared(Ok(())), QueryStep::DoBind(_)));
    assert!(matches!(machine.on_bound(-1), QueryStep::Done));
    match machine.into_result() {
        Err(InformixError::ParameterBindingError(m)) => {
            assert_eq!(m, "Failed to bind i32 parameter: -1");
        }
        _ => panic!("the failing bind's error must come out"),
    }
}

#[test]
fn query_execute_failure_decides() {
    let mut machine = QueryMachine::start(Vec::new());
    assert!(matches!(machine.on_prepared(Ok(())), QueryStep::DoExecute));
    let diag = String::from("SQLSTATE = 42000, Native Error = -201, Message = syntax");
    assert!(matches!(machine.on_executed(-1, diag.clone()), QueryStep::Done));
    match machine.into_result() {
        Err(InformixError::SQLExecutionError(m)) => assert_eq!(m, diag),
        _ => panic!("the execute error must come out"),
    }
}

#[test]
fn query_prepare_failure_decides() {
    let mut machine = QueryMachine::start(Vec::new());
    let e = InformixError::PrepareStatementError(String::from("Failed to prepare SQL: -1"));
    assert!(matches!(machine.on_prepared(Err(e)), QueryStep::Done));
    match machine.into_result() {
        Err(InformixError::PrepareStatementError(m)) => {
            assert_eq!(m, "Failed to prepare SQL: -1");
        }
        _ => panic!("the prepare error must come out"),
    }
}

#[test]
fn query_fetch_failure_decides() {
    let mut machine = QueryMachine::start(Vec::new());
    machine.on_prepared(Ok(()));
    machine.on_executed(0, String::new());
    machine.on_row(vec![String::from("1")]);
    let e = Statement::fetch_failure(String::from("boom"));
    assert!(matches!(machine.on_fetch_failed(e), QueryStep::Done));
    match machine.into_result() {
        Err(InformixError::DataFetchError(m)) => assert_eq!(m, "boom"),
        _ => panic!("the fetch error must come out"),
    }
}

#[test]
fn connection_allocation_outcomes() {
    assert!(Connection::check_env_alloc(0).is_ok());
    assert!(matches!(
        Connection::check_env_alloc(-1),
        Err(InformixError::HandleAllocationError(-1))
    ));
    let conn = Connection::from_conn_alloc(0, SendPtr::new(0x1000)).unwrap();
    assert!(!conn.is_connected());
    assert_eq!(conn.handle.as_ptr(), 0x1000);
    assert!(matches!(
        Connection::from_conn_alloc(5, SendPtr::new(0)),
        Err(InformixError::HandleAllocationError(5))
    ));
}

#[test]
fn connect_rejects_double_connect() {
    let mut conn = Connection::from_conn_alloc(0, SendPtr::new(1)).unwrap();
    let bytes = conn.begin_connect_with_string("SERVER=s;UID=u;PWD=p").unwrap();
    assert_eq!(bytes, b"SERVER=s;UID=u;PWD=p");
    conn.finish_connect(0, "").unwrap();
    assert!(conn.is_connected());
    match conn.begin_connect_with_string("SERVER=s") {
        Err(InformixError::ConnectionError(m)) => assert_eq!(m, "Already connected"),
        _ => panic!("a second connect must be rejected"),
    }
}

#[test]
fn connect_rejects_nul_and_reports_failure() {
    let conn = Connection::from_conn_alloc(0, SendPtr::new(1)).unwrap();
    match conn.begin_connect_with_string("SERVER=\0") {
        Err(InformixError::ConnectionError(m)) => {
            assert_eq!(m, "Invalid connection string: text holds a NUL byte");
        }
        _ => panic!("NUL must be rejected"),
    }
    let mut conn = conn;
    match conn.finish_connect(-1, "SQLSTATE = 08001, Native Error = -908, Message = down") {
        Err(InformixError::ConnectionError(m)) => {
            assert_eq!(
                m,
                "Failed to connect: result = -1, SQLSTATE = 08001, Native Error = -908, Message = down"
            );
        }
        _ => panic!("a failing connect must be reported"),
    }
    assert!(!conn.is_connected());
}

#[test]
fn simple_connect_fields_and_outcome() {
    let mut conn = Connection::from_conn_alloc(0, SendPtr::new(1)).unwrap();
    let (s, u, p) = conn.begin_connect("srv", "usr", "pwd").unwrap();
    assert_eq!(s, b"srv");
    assert_eq!(u, b"usr");
    assert_eq!(p, b"pwd");
    assert!(conn.begin_connect("s\0rv", "u", "p").is_err());
    conn.finish_simple_connect(0, String::new()).unwrap();
    assert!(conn.is_connected());
}

#[test]
fn prepare_flow() {
    let conn = Connection::from_conn_alloc(0, SendPtr::new(1)).unwrap();
    let sql = "SELECT * FROM t WHERE id = ?";
    assert_eq!(conn.begin_prepare(sql).unwrap(), sql.as_bytes());
    match conn.begin_prepare("SELECT \0") {
        Err(InformixError::PrepareStatementError(m)) => {
            assert_eq!(m, "Invalid SQL string: text holds a NUL byte");
        }
        _ => panic!("NUL must be rejected"),
    }
    assert!(Connection::check_stmt_alloc(0).is_ok());
    assert!(matches!(
        Connection::check_stmt_alloc(2),
        Err(InformixError::HandleAllocationError(2))
    ));
    let stmt = Connection::finish_prepare(0, SendPtr::new(7), sql).unwrap();
    assert_eq!(stmt.handle.as_ptr(), 7);
    assert_eq!(stmt.query, sql);
    match Connection::finish_prepare(-1, SendPtr::new(7), sql) {
        Err(InformixError::PrepareStatementError(m)) => {
            assert_eq!(m, "Failed to prepare SQL: -1");
        }
        _ => panic!("a failing prepare must be reported"),
    }
}

#[test]
fn execute_direct_flow() {
    let conn = Connection::from_conn_alloc(0, SendPtr::new(1)).unwrap();
    assert_eq!(conn.begin_execute_direct("DELETE FROM t").unwrap(), b"DELETE FROM t");
    let stmt = Connection::finish_execute_direct(0, SendPtr::new(9), "DELETE FROM t").unwrap();
    assert_eq!(stmt.handle.as_ptr(), 9);
    match Connection::finish_execute_direct(3, SendPtr::new(9), "DELETE FROM t") {
        Err(InformixError::SQLExecutionError(m)) => {
            assert_eq!(m, "Failed to execute SQL: 3");
        }
        _ => panic!("a failing direct execute must be reported"),
    }
}

#[test]
fn statement_execute_outcome() {
    let stmt = Statement::new(SendPtr::new(5), "SELECT 1");
    assert!(stmt.execute_outcome(0, String::new()).is_ok());
    assert!(stmt.execute_outcome(1, String::new()).is_ok());
    match stmt.execute_outcome(-1, String::from("diag")) {
        Err(InformixError::SQLExecutionError(m)) => assert_eq!(m, "diag"),
        _ => panic!("a failing execute must be reported"),
    }
}

#[test]
fn describe_count_outcome() {
    assert_eq!(column_count_outcome(0, 3).unwrap(), 3);
    assert_eq!(column_count_outcome(1, 0).unwrap(), 0);
    assert_eq!(column_count_outcome(0, -2).unwrap(), 0);
    match column_count_outcome(-1, 3) {
        Err(InformixError::DescribeColumnsError(m)) => {
            assert_eq!(m, "Failed to get column count");
        }
        _ => panic!("a failing count query must be reported"),
    }
}

#[test]
fn describe_column_outcome() {
    let mut name = b"id".to_vec();
    name.push(0);
    let col = column_from_describe(1, 0, &name, 4, 10, 0, 1).unwrap();
    assert_eq!(col.name, "id");
    assert_eq!(col.data_type, 4);
    assert_eq!(col.column_size, 10);
    assert_eq!(col.decimal_digits, 0);
    assert!(col.nullable);
    let col = column_from_describe(2, 1, &name, 12, 64, 2, 0).unwrap();
    assert!(!col.nullable);
    match column_from_describe(3, -1, &name, 4, 10, 0, 1) {
        Err(InformixError::DescribeColumnsError(m)) => {
            assert_eq!(m, "Failed to describe column 3");
        }
        _ => panic!("a failing describe must be reported"),
    }
}

#[test]
fn describe_returns_exactly_count_entries() {
    let names: [&[u8]; 3] = [b"id\0", b"name\0", b"born\0"];
    let mut builder = DescribeBuilder::new(3);
    let mut seen_ordinals = Vec::new();
    while !builder.is_done() {
        let ordinal = builder.next_ordinal();
        seen_ordinals.push(ordinal);
        let buf = names[(ordinal - 1) as usize].to_vec();
        let col = column_from_describe(ordinal, 0, &buf, 12, 32, 0, 0).unwrap();
        builder.add(col);
    }
    let cols = builder.finish();
    assert_eq!(seen_ordinals, vec![1, 2, 3]);
    assert_eq!(cols.len(), 3);
    assert_eq!(cols[0].name, "id");
    assert_eq!(cols[1].name, "name");
    assert_eq!(cols[2].name, "born");
    assert!(cols.iter().all(|c| !c.name.is_empty()));
}
