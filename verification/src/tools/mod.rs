//! MCP tools: the registry, argument helpers, tool definitions and the
//! decisions tools make around their Kubernetes calls.

pub mod operations;
pub mod api_resources;
pub mod context;
pub mod definitions;
pub mod registry;
pub mod top;
pub mod version;

pub use registry::{error_result, text_result, ToolRegistry};
