//! MCP (Model Context Protocol) implementation.

pub mod json;
pub mod protocol;
pub mod server;
pub mod transport;
