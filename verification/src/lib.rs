//! A single-row table function for an embedding analytical database: given one
//! text parameter it yields one row that greets the parameter and reports the
//! version of the embedded Python interpreter.
//!
//! The crate holds the lifecycle of such a function (bind, init, scan, free)
//! as plain values with contracts; the host's handles stay with the caller.

pub mod bridge;
pub mod cstr;
pub mod greeting;
pub mod laws;
pub mod vtab;
