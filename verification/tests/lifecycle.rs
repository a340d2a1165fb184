use informix_rust::codes::HandleLevel;
use informix_rust::connection::Connection;
use informix_rust::handles::HandleRegistry;
use informix_rust::handles::SendPtr;
use informix_rust::params::SqlParam;
use informix_rust::pool::ConnectionPool;
use informix_rust::pool::PoolDispatcher;
use informix_rust::pool::QueryRequest;

#[test]
fn send_ptr_round_trip() {
    let p = SendPtr::new(0xdeadbeef);
    assert_eq!(p.as_ptr(), 0xdeadbeef);
    let q = p;
    assert_eq!(q.as_ptr(), p.as_ptr());
}

#[test]
fn teardown_statement_before_connection() {
    let mut reg = HandleRegistry::new();
    let env = reg.allocate(HandleLevel::Environment, None);
    let conn = reg.allocate(HandleLevel::Connection, Some(env));
    let stmt = reg.allocate(HandleLevel::Statement, Some(conn));
    reg.release(stmt);
    assert!(!reg.is_live(stmt));
    assert!(reg.is_live(conn));
    assert!(reg.is_live(env));
    reg.release(conn);
    reg.release(env);
    assert!(!reg.is_live(conn));
    assert!(!reg.is_live(env));
}

#[test]
fn teardown_connection_before_statement() {
    // a connection torn down while its statement still lives: the
    // environment and the statement slots stay untouched, and each handle
    // is still released exactly once
    let mut reg = HandleRegistry::new();
    let env = reg.allocate(HandleLevel::Environment, None);
    let conn = reg.allocate(HandleLevel::Connection, Some(env));
    let stmt = reg.allocate(HandleLevel::Statement, Some(conn));
    reg.release(conn);
    assert!(!reg.is_live(conn));
    assert!(reg.is_live(stmt));
    assert!(reg.is_live(env));
    reg.release(stmt);
    assert!(reg.is_live(env));
    reg.release(env);
    assert!(!reg.is_live(env));
}

#[test]
fn teardown_two_statements_varied_order() {
    let mut reg = HandleRegistry::new();
    let env = reg.allocate(HandleLevel::Environment, None);
    let conn = reg.allocate(HandleLevel::Connection, Some(env));
    let s1 = reg.allocate(HandleLevel::Statement, Some(conn));
    let s2 = reg.allocate(HandleLevel::Statement, Some(conn));
    reg.release(s2);
    reg.release(conn);
    reg.release(s1);
    reg.release(env);
    assert!(!reg.is_live(s1));
    assert!(!reg.is_live(s2));
    assert!(!reg.is_live(conn));
    assert!(!reg.is_live(env));
}

#[test]
fn pool_checkout_and_return() {
    let a = Connection::from_conn_alloc(0, SendPtr::new(1)).unwrap();
    let b = Connection::from_conn_alloc(0, SendPtr::new(2)).unwrap();
    let mut pool = ConnectionPool::new(vec![a, b]);
    let taken = pool.get_connection().unwrap();
    assert_eq!(taken.handle.as_ptr(), 2);
    let taken2 = pool.get_connection().unwrap();
    assert_eq!(taken2.handle.as_ptr(), 1);
    assert!(pool.get_connection().is_none());
    pool.free_connection(taken2);
    let back = pool.get_connection().unwrap();
    assert_eq!(back.handle.as_ptr(), 1);
}

fn request(text: &str) -> QueryRequest {
    QueryRequest { sql: String::from(text), params: vec![SqlParam::Integer(1)] }
}

#[test]
fn dispatcher_round_robin() {
    let mut pool = PoolDispatcher::new(3);
    let mut routed = Vec::new();
    for n in 0..7 {
        routed.push(pool.route(request(&format!("q{}", n))));
    }
    assert_eq!(routed, vec![0, 1, 2, 0, 1, 2, 0]);
}

#[test]
fn slot_answers_in_send_order() {
    // six concurrent requests over two slots: each slot answers the
    // requests routed to it in exactly the order they were sent
    let mut pool = PoolDispatcher::new(2);
    for n in 0..6 {
        pool.route(request(&format!("q{}", n)));
    }
    let slot0: Vec<String> = {
        let slot = &mut pool.slots[0];
        let mut served = Vec::new();
        while let Some(req) = slot.take_next() {
            served.push(req.sql.clone());
        }
        served
    };
    let slot1: Vec<String> = {
        let slot = &mut pool.slots[1];
        let mut served = Vec::new();
        while let Some(req) = slot.take_next() {
            served.push(req.sql.clone());
        }
        served
    };
    assert_eq!(slot0, vec!["q0", "q2", "q4"]);
    assert_eq!(slot1, vec!["q1", "q3", "q5"]);
}

#[test]
fn single_slot_pool_serializes_everything() {
    let mut pool = PoolDispatcher::new(1);
    for n in 0..4 {
        let idx = pool.route(request(&format!("q{}", n)));
        assert_eq!(idx, 0);
    }
    let slot = &mut pool.slots[0];
    let mut served = Vec::new();
    while let Some(req) = slot.take_next() {
        served.push(req.sql.clone());
    }
    assert_eq!(served, vec!["q0", "q1", "q2", "q3"]);
}
