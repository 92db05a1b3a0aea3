//! MCP protocol types: JSON-RPC 2.0 messages and the Model Context Protocol
//! requests, results and capabilities.

use crate::mcp::json::JsonValue;
use crate::text::{concat2, owned};
use vstd::prelude::*;

verus! {

// ============================================================================
// JSON-RPC 2.0 Types
// ============================================================================

/// A JSON-RPC request or notification.
#[derive(Debug)]
pub struct JsonRpcRequest {
    pub jsonrpc: String,
    pub id: Option<RequestId>,
    pub method: String,
    pub params: Option<JsonValue>,
}

/// A successful JSON-RPC response.
#[derive(Debug)]
pub struct JsonRpcResponse {
    pub jsonrpc: String,
    pub id: Option<RequestId>,
    pub result: JsonValue,
}

/// A JSON-RPC error response.
#[derive(Debug)]
pub struct JsonRpcError {
    pub jsonrpc: String,
    pub id: Option<RequestId>,
    pub error: JsonRpcErrorBody,
}

/// The error object of a JSON-RPC error response.
#[derive(Debug)]
pub struct JsonRpcErrorBody {
    pub code: i32,
    pub message: String,
    pub data: Option<JsonValue>,
}

/// A request identifier: a number or a string.
#[derive(Debug, Clone, PartialEq, Eq, Hash)]
pub enum RequestId {
    Number(i64),
    String(String),
}

// ============================================================================
// MCP Protocol Types
// ============================================================================

/// Parameters of the initialize request.
#[derive(Debug)]
pub struct InitializeParams {
    pub protocol_version: String,
    pub capabilities: ClientCapabilities,
    pub client_info: Option<Implementation>,
}

/// Result of the initialize request.
#[derive(Debug)]
pub struct InitializeResult {
    pub protocol_version: String,
    pub capabilities: ServerCapabilities,
    pub server_info: Implementation,
    pub instructions: Option<String>,
}

/// Capabilities a client announces.
#[derive(Debug)]
pub struct ClientCapabilities {
    pub experimental: Option<Vec<(String, JsonValue)>>,
    pub roots: Option<RootsCapability>,
    pub sampling: Option<()>,
}

/// The client's roots capability.
#[derive(Debug, Clone, Copy)]
pub struct RootsCapability {
    pub list_changed: Option<bool>,
}

/// Capabilities the server announces.
#[derive(Debug)]
pub struct ServerCapabilities {
    pub experimental: Option<Vec<(String, JsonValue)>>,
    pub logging: Option<()>,
    pub prompts: Option<PromptsCapability>,
    pub resources: Option<ResourcesCapability>,
    pub tools: Option<ToolsCapability>,
}

/// The server's prompts capability.
#[derive(Debug, Clone, Copy)]
pub struct PromptsCapability {
    pub list_changed: Option<bool>,
}

/// The server's resources capability.
#[derive(Debug, Clone, Copy)]
pub struct ResourcesCapability {
    pub subscribe: Option<bool>,
    pub list_changed: Option<bool>,
}

/// The server's tools capability.
#[derive(Debug, Clone, Copy)]
pub struct ToolsCapability {
    pub list_changed: Option<bool>,
}

/// Name and version of a client or server implementation.
#[derive(Debug, Clone)]
pub struct Implementation {
    pub name: String,
    pub version: String,
}

impl Implementation {
    /// A copy of this name and version.
    pub fn duplicate(&self) -> (r: Self)
        ensures
            r == *self,
    {
        Implementation { name: self.name.clone(), version: self.version.clone() }
    }
}

impl Default for ClientCapabilities {
    fn default() -> (r: Self)
        ensures
            r.experimental is None && r.roots is None && r.sampling is None,
    {
        ClientCapabilities { experimental: None, roots: None, sampling: None }
    }
}

impl Default for RootsCapability {
    fn default() -> (r: Self)
        ensures
            r.list_changed is None,
    {
        RootsCapability { list_changed: None }
    }
}

impl Default for ServerCapabilities {
    fn default() -> (r: Self)
        ensures
            r.experimental is None && r.logging is None && r.prompts is None && r.resources is None
                && r.tools is None,
    {
        ServerCapabilities { experimental: None, logging: None, prompts: None, resources: None, tools: None }
    }
}

impl Default for PromptsCapability {
    fn default() -> (r: Self)
        ensures
            r.list_changed is None,
    {
        PromptsCapability { list_changed: None }
    }
}

impl Default for ResourcesCapability {
    fn default() -> (r: Self)
        ensures
            r.subscribe is None && r.list_changed is None,
    {
        ResourcesCapability { subscribe: None, list_changed: None }
    }
}

impl Default for ToolsCapability {
    fn default() -> (r: Self)
        ensures
            r.list_changed is None,
    {
        ToolsCapability { list_changed: None }
    }
}

// ============================================================================
// Tools Types
// ============================================================================

/// A tool the server offers.
#[derive(Debug)]
pub struct Tool {
    pub name: String,
    pub description: String,
    pub input_schema: ToolInputSchema,
}

/// The JSON schema of a tool's input: an object with named properties.
#[derive(Debug)]
pub struct ToolInputSchema {
    pub type_: String,
    pub properties: Option<Vec<(String, PropertySchema)>>,
    pub required: Option<Vec<String>>,
}

/// The JSON schema of one property.
#[derive(Debug)]
pub struct PropertySchema {
    pub type_: Option<String>,
    pub description: Option<String>,
    pub items: Option<Box<PropertySchema>>,
    pub enum_: Option<Vec<String>>,
    pub default: Option<JsonValue>,
    pub ref_: Option<String>,
}

impl ToolInputSchema {
    /// An object schema with no properties and nothing required.
    pub fn object() -> (r: Self)
        ensures
            r.type_@ == "object"@,
            r.properties is None,
            r.required is None,
    {
        ToolInputSchema { type_: owned("object"), properties: None, required: None }
    }

    /// This schema with the given properties.
    pub fn with_properties(self, properties: Vec<(String, PropertySchema)>) -> (r: Self)
        ensures
            r.type_ == self.type_,
            r.properties == Some(properties),
            r.required == self.required,
    {
        ToolInputSchema { type_: self.type_, properties: Some(properties), required: self.required }
    }

    /// This schema with the given required property names.
    pub fn with_required(self, required: Vec<String>) -> (r: Self)
        ensures
            r.type_ == self.type_,
            r.properties == self.properties,
            r.required == Some(required),
    {
        ToolInputSchema { type_: self.type_, properties: self.properties, required: Some(required) }
    }
}

/// A property schema of the given type and nothing else.
pub open spec fn plain_property(kind_name: Seq<char>, p: PropertySchema) -> bool {
    &&& p.type_ matches Some(t) && t@ == kind_name
    &&& p.description is None
    &&& p.items is None
    &&& p.enum_ is None
    &&& p.default is None
    &&& p.ref_ is None
}

impl PropertySchema {
    fn of_type(kind_name: &str) -> (r: Self)
        ensures
            plain_property(kind_name@, r),
    {
        PropertySchema {
            type_: Some(owned(kind_name)),
            description: None,
            items: None,
            enum_: None,
            default: None,
            ref_: None,
        }
    }

    /// A string property.
    pub fn string() -> (r: Self)
        ensures
            plain_property("string"@, r),
    {
        Self::of_type("string")
    }

    /// An integer property.
    pub fn integer() -> (r: Self)
        ensures
            plain_property("integer"@, r),
    {
        Self::of_type("integer")
    }

    /// A boolean property.
    pub fn boolean() -> (r: Self)
        ensures
            plain_property("boolean"@, r),
    {
        Self::of_type("boolean")
    }

    /// An array property whose items follow `items`.
    pub fn array(items: PropertySchema) -> (r: Self)
        ensures
            r.type_ matches Some(t) && t@ == "array"@,
            r.description is None,
            r.items == Some(Box::new(items)),
            r.enum_ is None,
            r.default is None,
            r.ref_ is None,
    {
        PropertySchema {
            type_: Some(owned("array")),
            description: None,
            items: Some(Box::new(items)),
            enum_: None,
            default: None,
            ref_: None,
        }
    }

    /// An object property.
    pub fn object() -> (r: Self)
        ensures
            plain_property("object"@, r),
    {
        Self::of_type("object")
    }

    /// This property with a description.
    pub fn description(self, desc: &str) -> (r: Self)
        ensures
            r.type_ == self.type_,
            r.description matches Some(d) && d@ == desc@,
            r.items == self.items,
            r.enum_ == self.enum_,
            r.default == self.default,
            r.ref_ == self.ref_,
    {
        PropertySchema {
            type_: self.type_,
            description: Some(owned(desc)),
            items: self.items,
            enum_: self.enum_,
            default: self.default,
            ref_: self.ref_,
        }
    }

    /// This property restricted to the given values.
    pub fn enum_values(self, values: Vec<String>) -> (r: Self)
        ensures
            r.type_ == self.type_,
            r.description == self.description,
            r.items == self.items,
            r.enum_ == Some(values),
            r.default == self.default,
            r.ref_ == self.ref_,
    {
        PropertySchema {
            type_: self.type_,
            description: self.description,
            items: self.items,
            enum_: Some(values),
            default: self.default,
            ref_: self.ref_,
        }
    }

    /// This property with a default value.
    pub fn default(self, value: JsonValue) -> (r: Self)
        ensures
            r.type_ == self.type_,
            r.description == self.description,
            r.items == self.items,
            r.enum_ == self.enum_,
            r.default == Some(value),
            r.ref_ == self.ref_,
    {
        PropertySchema {
            type_: self.type_,
            description: self.description,
            items: self.items,
            enum_: self.enum_,
            default: Some(value),
            ref_: self.ref_,
        }
    }
}

/// Result of the tools/list request.
#[derive(Debug)]
pub struct ListToolsResult {
    pub tools: Vec<Tool>,
    pub next_cursor: Option<String>,
}

/// Parameters of the tools/call request.
#[derive(Debug)]
pub struct CallToolParams {
    pub name: String,
    pub arguments: Option<Vec<(String, JsonValue)>>,
}

/// Result of a tool call.
#[derive(Debug, Clone)]
pub struct CallToolResult {
    pub content: Vec<Content>,
    pub is_error: Option<bool>,
}

/// A piece of content in a tool result.
#[derive(Debug, Clone)]
pub enum Content {
    Text { text: String },
    Image { data: String, mime_type: String },
    Resource { resource: ResourceContents },
}

/// The contents of a resource.
#[derive(Debug, Clone)]
pub struct ResourceContents {
    pub uri: String,
    pub mime_type: Option<String>,
    pub text: Option<String>,
    pub blob: Option<String>,
}

/// Whether a result holds exactly one text content with the given text.
pub open spec fn single_text(content: Seq<Content>, text: Seq<char>) -> bool {
    &&& content.len() == 1
    &&& content[0] matches Content::Text { text: t } && t@ == text
}

impl Content {
    /// A text content.
    pub fn text(text: &str) -> (r: Self)
        ensures
            r matches Content::Text { text: t } && t@ == text@,
    {
        Content::Text { text: owned(text) }
    }

    /// An error result holding one text content.
    pub fn error(text: &str) -> (r: CallToolResult)
        ensures
            single_text(r.content@, text@),
            r.is_error == Some(true),
    {
        let mut content: Vec<Content> = Vec::new();
        content.push(Content::text(text));
        CallToolResult { content, is_error: Some(true) }
    }
}

impl CallToolResult {
    /// A successful result with the given content.
    pub fn success(content: Vec<Content>) -> (r: Self)
        ensures
            r.content == content,
            r.is_error == Some(false),
    {
        CallToolResult { content, is_error: Some(false) }
    }

    /// A successful result holding one text content.
    pub fn text(text: &str) -> (r: Self)
        ensures
            single_text(r.content@, text@),
            r.is_error == Some(false),
    {
        let mut content: Vec<Content> = Vec::new();
        content.push(Content::text(text));
        Self::success(content)
    }

    /// An error result holding one text content.
    pub fn error(text: &str) -> (r: Self)
        ensures
            single_text(r.content@, text@),
            r.is_error == Some(true),
    {
        let mut content: Vec<Content> = Vec::new();
        content.push(Content::text(text));
        CallToolResult { content, is_error: Some(true) }
    }
}

// ============================================================================
// Resources Types
// ============================================================================

/// A resource the server offers.
#[derive(Debug, Clone)]
pub struct Resource {
    pub uri: String,
    pub name: String,
    pub description: Option<String>,
    pub mime_type: Option<String>,
}

/// Result of the resources/list request.
#[derive(Debug, Clone)]
pub struct ListResourcesResult {
    pub resources: Vec<Resource>,
    pub next_cursor: Option<String>,
}

/// Parameters of the resources/read request.
#[derive(Debug, Clone)]
pub struct ReadResourceParams {
    pub uri: String,
}

/// Result of the resources/read request.
#[derive(Debug, Clone)]
pub struct ReadResourceResult {
    pub contents: Vec<ResourceContents>,
}

// ============================================================================
// Logging Types
// ============================================================================

/// Log levels, from least to most severe.
#[derive(Debug, Clone, Copy)]
pub enum LoggingLevel {
    Debug,
    Info,
    Notice,
    Warning,
    Error,
    Critical,
    Alert,
    Emergency,
}

/// Parameters of the logging/setLevel request.
#[derive(Debug, Clone, Copy)]
pub struct SetLevelParams {
    pub level: LoggingLevel,
}

// ============================================================================
// Ping
// ============================================================================

/// Parameters of the ping request.
#[derive(Debug, Clone, Copy)]
pub struct PingParams {}

impl Default for PingParams {
    fn default() -> (r: Self) {
        PingParams {  }
    }
}

// ============================================================================
// Helper implementations
// ============================================================================

impl Default for JsonRpcRequest {
    fn default() -> (r: Self)
        ensures
            r.jsonrpc@ == "2.0"@,
            r.id is None,
            r.method@ == Seq::<char>::empty(),
            r.params is None,
    {
        JsonRpcRequest { jsonrpc: owned("2.0"), id: None, method: String::new(), params: None }
    }
}

impl JsonRpcResponse {
    /// A "2.0" response to the request `id` with the given result.
    pub fn new(id: Option<RequestId>, result: JsonValue) -> (r: Self)
        ensures
            r.jsonrpc@ == "2.0"@,
            r.id == id,
            r.result == result,
    {
        JsonRpcResponse { jsonrpc: owned("2.0"), id, result }
    }
}

impl JsonRpcError {
    /// A "2.0" error response to the request `id`.
    pub fn new(id: Option<RequestId>, code: i32, message: String, data: Option<JsonValue>) -> (r: Self)
        ensures
            r.jsonrpc@ == "2.0"@,
            r.id == id,
            r.error.code == code,
            r.error.message == message,
            r.error.data == data,
    {
        JsonRpcError { jsonrpc: owned("2.0"), id, error: JsonRpcErrorBody { code, message, data } }
    }

    /// A method-not-found error (code -32601) naming the method.
    pub fn method_not_found(id: Option<RequestId>, method: &str) -> (r: Self)
        ensures
            r.jsonrpc@ == "2.0"@,
            r.id == id,
            r.error.code == -32601,
            r.error.message@ == "Method not found: "@ + method@,
            r.error.data is None,
    {
        Self::new(id, -32601, concat2("Method not found: ", method), None)
    }

    /// An invalid-params error (code -32602).
    pub fn invalid_params(id: Option<RequestId>, message: &str) -> (r: Self)
        ensures
            r.jsonrpc@ == "2.0"@,
            r.id == id,
            r.error.code == -32602,
            r.error.message@ == message@,
            r.error.data is None,
    {
        Self::new(id, -32602, owned(message), None)
    }

    /// An internal error (code -32603).
    pub fn internal_error(id: Option<RequestId>, message: &str) -> (r: Self)
        ensures
            r.jsonrpc@ == "2.0"@,
            r.id == id,
            r.error.code == -32603,
            r.error.message@ == message@,
            r.error.data is None,
    {
        Self::new(id, -32603, owned(message), None)
    }
}

impl Tool {
    /// A tool with the given name, description and input schema.
    pub fn new(name: &str, description: &str, input_schema: ToolInputSchema) -> (r: Self)
        ensures
            r.name@ == name@,
            r.description@ == description@,
            r.input_schema == input_schema,
    {
        Tool { name: owned(name), description: owned(description), input_schema }
    }
}

} // verus!
