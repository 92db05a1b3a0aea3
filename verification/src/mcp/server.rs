//! MCP server: the decisions the server makes for each JSON-RPC request.
//!
//! Reading and writing messages, parsing request parameters and running
//! tools happen around these decisions: `handle_request` answers what it can
//! answer by itself and names the step that needs outside work.

use crate::error::{error_code, error_message, read_only_message, Error};
use crate::mcp::json::{find_member, member, JsonValue};
use crate::tools::registry::ToolRegistry;
use crate::mcp::protocol::{
    single_text, CallToolResult, Implementation, InitializeResult, JsonRpcError, JsonRpcRequest,
    JsonRpcResponse, RequestId, ResourcesCapability, ServerCapabilities, ToolsCapability,
};
use crate::text::{concat2, owned, signed_decimal, str_eq};
use vstd::prelude::*;

verus! {

/// The protocol version the server speaks.
pub open spec fn protocol_version() -> Seq<char> {
    "2024-11-05"@
}

/// A reply to send: a response or an error response.
#[derive(Debug)]
pub enum JsonRpcMessage {
    Response(JsonRpcResponse),
    Error(JsonRpcError),
}

/// What handling a request leads to.
#[derive(Debug)]
pub enum RequestStep {
    /// Nothing is sent back: the request was a notification.
    Silent,
    /// The reply is ready.
    Reply(JsonRpcMessage),
    /// Initialize: the parameters are read, then `initialize_result` is sent.
    Initialize { id: Option<RequestId>, params: Option<JsonValue> },
    /// tools/list: the registered tools' definitions are sent.
    ListTools { id: Option<RequestId> },
    /// tools/call naming a write tool while mutations are not allowed: the
    /// refusal is sent and no tool runs.
    RefuseTool { id: Option<RequestId>, result: CallToolResult },
    /// tools/call that may run: the parameters are read, and the tool's
    /// result or error is sent.
    CallTool { id: Option<RequestId>, params: JsonValue },
    /// logging/setLevel: the parameters are read and an empty object is sent.
    SetLevel { id: Option<RequestId>, params: JsonValue },
}

/// Whether a value is the empty JSON object.
pub open spec fn is_empty_object(v: JsonValue) -> bool {
    v matches JsonValue::Object(m) && m@.len() == 0
}

/// Whether a value is an object with one member `key` holding an empty array.
pub open spec fn is_empty_list_object(v: JsonValue, key: Seq<char>) -> bool {
    v matches JsonValue::Object(m) && m@.len() == 1 && m@[0].0@ == key && (m@[0].1 matches JsonValue::Array(a)
        && a@.len() == 0)
}

/// Whether a reply is the success response to `id` with a result that `p` accepts.
pub open spec fn is_response(m: JsonRpcMessage, id: Option<RequestId>, p: spec_fn(JsonValue) -> bool) -> bool {
    m matches JsonRpcMessage::Response(r) && r.jsonrpc@ == "2.0"@ && r.id == id && p(r.result)
}

/// Whether a reply is the error response to `id` that reports `e`: its code
/// and its message.
pub open spec fn is_error_reply(m: JsonRpcMessage, id: Option<RequestId>, e: Error) -> bool {
    m matches JsonRpcMessage::Error(r) && r.jsonrpc@ == "2.0"@ && r.id == id && r.error.code == error_code(e)
        && r.error.message@ == error_message(e) && r.error.data is None
}

/// Whether a reply is the error response to `id` for a JSON-RPC error with
/// the given code and message: the code, and the error's display text.
pub open spec fn is_jsonrpc_error_reply(m: JsonRpcMessage, id: Option<RequestId>, code: i32, text: Seq<char>) -> bool {
    m matches JsonRpcMessage::Error(r) && r.jsonrpc@ == "2.0"@ && r.id == id && r.error.code == code
        && r.error.message@ == "JSON-RPC error: code="@ + signed_decimal(code as int) + ", message="@ + text
        && r.error.data is None
}

/// The tool a tools/call request names: its parameters are an object with a
/// string `name`, and `arguments` is absent, null or an object.
pub open spec fn requested_tool(params: JsonValue) -> Option<Seq<char>> {
    match params {
        JsonValue::Object(m) => match member(m@, "name"@) {
            Some(JsonValue::String(n)) => match member(m@, "arguments"@) {
                None => Some(n@),
                Some(JsonValue::Null) => Some(n@),
                Some(JsonValue::Object(_)) => Some(n@),
                _ => None,
            },
            _ => None,
        },
        _ => None,
    }
}

/// The name of the tool a tools/call request asks for, when its parameters
/// are well formed.
pub fn requested_tool_name(params: &JsonValue) -> (r: Option<&str>)
    ensures
        match r {
            Some(n) => requested_tool(*params) == Some(n@),
            None => requested_tool(*params) is None,
        },
{
    match params {
        JsonValue::Object(m) => match find_member(m, "name") {
            Some(JsonValue::String(n)) => match find_member(m, "arguments") {
                None => Some(n.as_str()),
                Some(JsonValue::Null) => Some(n.as_str()),
                Some(JsonValue::Object(_)) => Some(n.as_str()),
                _ => None,
            },
            _ => None,
        },
        _ => None,
    }
}

/// Whether a step is the refusal of a write tool to the request `id`.
pub open spec fn is_refusal(step: RequestStep, id: Option<RequestId>) -> bool {
    step matches RequestStep::RefuseTool { id: i, result } && i == id && single_text(
        result.content@,
        read_only_message(),
    ) && result.is_error == Some(true)
}

/// The instructions the server gives: whether read-only mode is on.
pub open spec fn instructions_text(read_write: bool) -> Seq<char> {
    "Kubernetes MCP Server - Read-only mode: "@ + (if read_write { "disabled"@ } else { "enabled"@ })
        + ". Use tools to interact with your Kubernetes cluster."@
}

/// MCP server state: its identity, whether mutations are allowed, and
/// whether the client has announced that it is initialized.
pub struct McpServer {
    server_info: Implementation,
    read_write: bool,
    initialized: bool,
}

/// The reply for a handled request: the result, or the error with its code
/// and message.
pub fn respond(id: Option<RequestId>, result: Result<JsonValue, Error>) -> (r: JsonRpcMessage)
    ensures
        match result {
            Ok(v) => r matches JsonRpcMessage::Response(resp) && resp.jsonrpc@ == "2.0"@ && resp.id == id
                && resp.result == v,
            Err(e) => is_error_reply(r, id, e),
        },
{
    match result {
        Ok(v) => JsonRpcMessage::Response(JsonRpcResponse::new(id, v)),
        Err(e) => {
            let code = e.json_rpc_code();
            let message = e.message();
            JsonRpcMessage::Error(JsonRpcError::new(id, code, message, None))
        },
    }
}

/// The reply to a message that is not valid JSON-RPC: a parse error (code
/// -32700) with no id.
pub fn parse_error_reply(detail: &str) -> (r: JsonRpcMessage)
    ensures
        r matches JsonRpcMessage::Error(e) && e.id is None && e.error.code == -32700 && e.error.message@
            == "Parse error: "@ + detail@ && e.error.data is None,
{
    JsonRpcMessage::Error(JsonRpcError::new(None, -32700, concat2("Parse error: ", detail), None))
}

fn empty_object() -> (r: JsonValue)
    ensures
        is_empty_object(r),
{
    JsonValue::Object(Vec::new())
}

fn empty_list_object(key: &str) -> (r: JsonValue)
    ensures
        is_empty_list_object(r, key@),
{
    let mut members: Vec<(String, JsonValue)> = Vec::new();
    members.push((owned(key), JsonValue::Array(Vec::new())));
    JsonValue::Object(members)
}

impl McpServer {
    /// Whether mutations are allowed.
    pub closed spec fn allows_writes(&self) -> bool {
        self.read_write
    }

    /// Whether the client has announced that it is initialized.
    pub closed spec fn is_initialized_spec(&self) -> bool {
        self.initialized
    }

    /// The server's name and version.
    pub closed spec fn info(&self) -> Implementation {
        self.server_info
    }

    /// A server named "k8s-mcp" at this package's version, not yet initialized.
    pub fn new(read_write: bool) -> (r: Self)
        ensures
            r.allows_writes() == read_write,
            !r.is_initialized_spec(),
            r.info().name@ == "k8s-mcp"@,
            r.info().version@ == "0.7.0"@,
    {
        McpServer {
            server_info: Implementation { name: owned("k8s-mcp"), version: owned("0.7.0") },
            read_write,
            initialized: false,
        }
    }

    /// Whether mutations are allowed.
    pub fn read_write(&self) -> (r: bool)
        ensures
            r == self.allows_writes(),
    {
        self.read_write
    }

    /// Whether the client has announced that it is initialized.
    pub fn is_initialized(&self) -> (r: bool)
        ensures
            r == self.is_initialized_spec(),
    {
        self.initialized
    }

    /// The server's name and version.
    pub fn server_info(&self) -> (r: &Implementation)
        ensures
            *r == self.info(),
    {
        &self.server_info
    }

    /// Handles one request: the notification `notifications/initialized`
    /// marks the client initialized and is not answered; ping, resources/list,
    /// prompts/list and unknown methods are answered at once; tools/call and
    /// logging/setLevel without parameters get an invalid-params error; a
    /// tools/call naming a write tool of `registry` while mutations are not
    /// allowed is refused before any tool runs; the other methods name the
    /// step that completes them. Every answer carries
    /// the request's id.
    pub fn handle_request<H>(&mut self, request: JsonRpcRequest, registry: &ToolRegistry<H>) -> (r: RequestStep)
        ensures
            final(self).allows_writes() == old(self).allows_writes(),
            final(self).info() == old(self).info(),
            final(self).is_initialized_spec() == (old(self).is_initialized_spec() || request.method@
                == "notifications/initialized"@),
            match method_kind(request.method@) {
                MethodKind::Initialize => r == (RequestStep::Initialize { id: request.id, params: request.params }),
                MethodKind::Initialized => r is Silent,
                MethodKind::Ping => r matches RequestStep::Reply(m) && is_response(
                    m,
                    request.id,
                    |v: JsonValue| is_empty_object(v),
                ),
                MethodKind::ToolsList => r == (RequestStep::ListTools { id: request.id }),
                MethodKind::ToolsCall => match request.params {
                    Some(p) => match requested_tool(p) {
                        Some(n) if registry.view().write_tools.contains(n) && !old(self).allows_writes() => is_refusal(
                            r,
                            request.id,
                        ),
                        _ => r == (RequestStep::CallTool { id: request.id, params: p }),
                    },
                    None => r matches RequestStep::Reply(m) && is_jsonrpc_error_reply(
                        m,
                        request.id,
                        -32602i32,
                        "Missing params"@,
                    ),
                },
                MethodKind::ResourcesList => r matches RequestStep::Reply(m) && is_response(
                    m,
                    request.id,
                    |v: JsonValue| is_empty_list_object(v, "resources"@),
                ),
                MethodKind::ResourcesRead => r matches RequestStep::Reply(m) && is_jsonrpc_error_reply(
                    m,
                    request.id,
                    -32601i32,
                    "Method not found: "@ + "resources/read"@,
                ),
                MethodKind::PromptsList => r matches RequestStep::Reply(m) && is_response(
                    m,
                    request.id,
                    |v: JsonValue| is_empty_list_object(v, "prompts"@),
                ),
                MethodKind::SetLevel => match request.params {
                    Some(p) => r == (RequestStep::SetLevel { id: request.id, params: p }),
                    None => r matches RequestStep::Reply(m) && is_jsonrpc_error_reply(
                        m,
                        request.id,
                        -32602i32,
                        "Missing params"@,
                    ),
                },
                MethodKind::Unknown => r matches RequestStep::Reply(m) && is_jsonrpc_error_reply(
                    m,
                    request.id,
                    -32601i32,
                    "Method not found: "@ + request.method@,
                ),
            },
    {
        let method = request.method.as_str();
        let notification = str_eq(method, "notifications/initialized");
        self.initialized = self.initialized || notification;
        if str_eq(method, "initialize") {
            RequestStep::Initialize { id: request.id, params: request.params }
        } else if notification {
            RequestStep::Silent
        } else if str_eq(method, "ping") {
            RequestStep::Reply(respond(request.id, Ok(empty_object())))
        } else if str_eq(method, "tools/list") {
            RequestStep::ListTools { id: request.id }
        } else if str_eq(method, "tools/call") {
            match request.params {
                Some(p) => {
                    let refusal = match requested_tool_name(&p) {
                        Some(n) => self.decide_tool_call(registry.is_write_tool(n)),
                        None => None,
                    };
                    match refusal {
                        Some(result) => RequestStep::RefuseTool { id: request.id, result },
                        None => RequestStep::CallTool { id: request.id, params: p },
                    }
                },
                None => {
                    let e = Error::json_rpc_invalid_params(owned("Missing params"));
                    RequestStep::Reply(respond(request.id, Err(e)))
                },
            }
        } else if str_eq(method, "resources/list") {
            RequestStep::Reply(respond(request.id, Ok(empty_list_object("resources"))))
        } else if str_eq(method, "resources/read") {
            let e = Error::json_rpc_method_not_found("resources/read");
            RequestStep::Reply(respond(request.id, Err(e)))
        } else if str_eq(method, "prompts/list") {
            RequestStep::Reply(respond(request.id, Ok(empty_list_object("prompts"))))
        } else if str_eq(method, "logging/setLevel") {
            match request.params {
                Some(p) => RequestStep::SetLevel { id: request.id, params: p },
                None => {
                    let e = Error::json_rpc_invalid_params(owned("Missing params"));
                    RequestStep::Reply(respond(request.id, Err(e)))
                },
            }
        } else {
            let e = Error::json_rpc_method_not_found(method);
            RequestStep::Reply(respond(request.id, Err(e)))
        }
    }

    /// The result of the initialize request: the protocol version, the tools,
    /// resources and logging capabilities, the server's identity, and
    /// instructions that say whether read-only mode is on.
    pub fn initialize_result(&self) -> (r: InitializeResult)
        ensures
            r.protocol_version@ == protocol_version(),
            r.capabilities.tools matches Some(t) && t.list_changed == Some(false),
            r.capabilities.resources matches Some(c) && c.subscribe == Some(false) && c.list_changed == Some(
                false,
            ),
            r.capabilities.logging == Some(()),
            r.capabilities.prompts is None,
            r.capabilities.experimental is None,
            r.server_info == self.info(),
            r.instructions matches Some(t) && t@ == instructions_text(self.allows_writes()),
    {
        let mode = if self.read_write {
            "disabled"
        } else {
            "enabled"
        };
        let head = concat2("Kubernetes MCP Server - Read-only mode: ", mode);
        let text = concat2(head.as_str(), ". Use tools to interact with your Kubernetes cluster.");
        InitializeResult {
            protocol_version: owned("2024-11-05"),
            capabilities: ServerCapabilities {
                experimental: None,
                logging: Some(()),
                prompts: None,
                resources: Some(ResourcesCapability { subscribe: Some(false), list_changed: Some(false) }),
                tools: Some(ToolsCapability { list_changed: Some(false) }),
            },
            server_info: self.server_info.duplicate(),
            instructions: Some(text),
        }
    }

    /// Whether a tool call goes ahead: a write tool in read-only mode is
    /// refused with an error result and is not run.
    pub fn decide_tool_call(&self, is_write_tool: bool) -> (r: Option<CallToolResult>)
        ensures
            r is Some <==> (is_write_tool && !self.allows_writes()),
            r matches Some(res) ==> single_text(res.content@, read_only_message()) && res.is_error == Some(true),
    {
        if is_write_tool && !self.read_write {
            Some(CallToolResult::error(
                "Operation not permitted in read-only mode. Start with --read-write to enable mutations.",
            ))
        } else {
            None
        }
    }
}

/// The methods the server knows.
#[derive(Debug, Clone, Copy, PartialEq, Eq)]
pub enum MethodKind {
    Initialize,
    Initialized,
    Ping,
    ToolsList,
    ToolsCall,
    ResourcesList,
    ResourcesRead,
    PromptsList,
    SetLevel,
    Unknown,
}

/// Which method a request names.
pub open spec fn method_kind(m: Seq<char>) -> MethodKind {
    if m == "initialize"@ {
        MethodKind::Initialize
    } else if m == "notifications/initialized"@ {
        MethodKind::Initialized
    } else if m == "ping"@ {
        MethodKind::Ping
    } else if m == "tools/list"@ {
        MethodKind::ToolsList
    } else if m == "tools/call"@ {
        MethodKind::ToolsCall
    } else if m == "resources/list"@ {
        MethodKind::ResourcesList
    } else if m == "resources/read"@ {
        MethodKind::ResourcesRead
    } else if m == "prompts/list"@ {
        MethodKind::PromptsList
    } else if m == "logging/setLevel"@ {
        MethodKind::SetLevel
    } else {
        MethodKind::Unknown
    }
}

} // verus!
