//! Kubernetes MCP server library: the protocol decisions, resource models,
//! parsers and formatters of a Model Context Protocol server for Kubernetes.

pub mod error;
pub mod format;
pub mod k8s;
pub mod mcp;
pub mod text;
pub mod tools;

pub use error::Error;
