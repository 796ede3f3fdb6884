//! Change-data-capture engine over a MySQL or MariaDB row-based binary log.
//!
//! The engine's decisions are verified here; the network client, the
//! connection pool and the host bindings drive them from outside.

pub mod decimal;
pub mod text;
pub mod checkpoint;
pub mod binary_json;
pub mod value;
pub mod row;
pub mod events;
pub mod error;
pub mod server;
pub mod driver;
pub mod laws;
pub mod connection;
