//! System and network facts for a desktop diagnostics tool: classful subnet
//! inference, the plain-text report, and the queries that gather each fact.

pub mod error;
pub mod facts;
pub mod host;
pub mod report;
pub mod subnet;
pub mod text;
