//! A managed wrapper around a database connection's transaction lifecycle.
//!
//! The wrapper opens a transaction when it is constructed, tracks the nested
//! transaction depth through a driver-agnostic [`Connection`](connection::Connection)
//! capability, keeps an ordered stack of caller-registered rollback hooks,
//! and is consumed by exactly one terminal operation. A dedicated
//! best-effort path finalizes an abandoned wrapper — every hook run, the
//! open levels force-drained past failing steps — so a scope guard around
//! the library needs nothing beyond one call to it.

pub mod connection;
pub mod errors;
pub mod hooks;
pub mod policy;
pub mod port;
pub mod shared;
pub mod testkit;
pub mod wrapper;
