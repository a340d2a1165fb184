//! A handle-safe client layer for a call-based native database interface.
//!
//! The native driver exposes an environment / connection / statement handle
//! hierarchy, positional parameter binding, column-by-column result
//! retrieval, and out-of-band diagnostic records.  This crate holds the
//! decision logic of a safe layer over that interface: classification of
//! native return codes, marshalling of typed parameters into the native
//! binding protocol, the result-fetch protocol, diagnostic formatting, a
//! model of handle lifecycles, and the dispatch rules of a connection pool.
//! The blocking native calls themselves are performed by an unverified
//! shell, which feeds each call's outcome back into the functions here.

pub mod codes;
pub mod connection;
pub mod date;
pub mod describe;
pub mod diag;
pub mod errors;
pub mod fetch;
pub mod handles;
pub mod params;
pub mod pool;
pub mod query;
pub mod render;
