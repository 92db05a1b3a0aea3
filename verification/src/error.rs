//! Error types for the Kubernetes MCP server.

use crate::mcp::json::JsonValue;
use crate::text::{chars_of, decimal, owned, push_all, signed_decimal, string_from_chars, u64_to_string, i64_to_string, concat2};
use vstd::prelude::*;

verus! {

/// Main error type for the server: MCP protocol errors, JSON-RPC errors with
/// standard codes, Kubernetes API errors, configuration and I/O errors.
/// Errors raised by serializers, the Kubernetes client or I/O carry their
/// display text.
#[derive(Debug)]
pub enum Error {
    /// MCP protocol errors
    Protocol(String),
    /// JSON-RPC errors
    JsonRpc { code: i32, message: String, data: Option<JsonValue> },
    /// JSON serialization/deserialization errors
    Json(String),
    /// YAML serialization/deserialization errors
    Yaml(String),
    /// Kubernetes client errors
    Kubernetes(String),
    /// Kubernetes API error with status
    KubernetesApi { status_code: u16, message: String },
    /// Configuration errors
    Config(String),
    /// Tool execution errors
    Tool(String),
    /// Read-only mode violation
    ReadOnlyMode,
    /// Resource not found
    ResourceNotFound { kind: String, name: String, namespace: Option<String> },
    /// Invalid parameter errors
    InvalidParameter(String),
    /// IO errors
    Io(String),
    /// Watch stream errors
    Watch(String),
    /// Exec errors
    Exec(String),
    /// Port forward errors
    PortForward(String),
    /// Metrics not available
    MetricsUnavailable(String),
    /// Timeout errors
    Timeout(String),
    /// No Kubernetes context configured
    NoContext,
    /// No Kubernetes cluster connection
    NoClusterConnection,
    /// Kubernetes version mismatch
    VersionMismatch {
        /// Current cluster version
        current: String,
        /// Required minimum version
        required: String,
    },
    /// Feature not available in current Kubernetes version
    FeatureNotAvailable {
        /// Feature name
        feature: String,
        /// Required major version
        required_major: u32,
        /// Required minor version
        required_minor: u32,
        /// Current major version
        current_major: u32,
        /// Current minor version
        current_minor: u32,
    },
    /// Resource scope mismatch
    ResourceScopeMismatch {
        /// Resource kind
        kind: String,
        /// Expected scope
        expected_scope: String,
        /// Actual scope provided
        actual_scope: String,
    },
}

/// The JSON-RPC code an error is reported with: its own code for a JSON-RPC
/// error, the internal-error code otherwise.
pub open spec fn error_code(e: Error) -> i32 {
    match e {
        Error::JsonRpc { code, .. } => code,
        _ => -32603i32,
    }
}

/// The Debug text of an optional string, as `{:?}` renders it.
pub uninterp spec fn debug_option_text(s: Option<Seq<char>>) -> Seq<char>;

/// Whether every character of `s` is printable ASCII other than `"` and `\`,
/// so that the Debug text of a string quotes it without escapes.
pub open spec fn plain_printable(s: Seq<char>) -> bool {
    forall|i: int| 0 <= i < s.len() ==> ' ' <= #[trigger] s[i] && s[i] <= '~' && s[i] != '"' && s[i] != '\\'
}

/// The message an error displays.
pub open spec fn error_message(e: Error) -> Seq<char> {
    match e {
        Error::Protocol(m) => "MCP protocol error: "@ + m@,
        Error::JsonRpc { code, message, .. } => "JSON-RPC error: code="@ + signed_decimal(
            code as int,
        ) + ", message="@ + message@,
        Error::Json(m) => "JSON error: "@ + m@,
        Error::Yaml(m) => "YAML error: "@ + m@,
        Error::Kubernetes(m) => "Kubernetes error: "@ + m@,
        Error::KubernetesApi { message, .. } => "Kubernetes API error: "@ + message@,
        Error::Config(m) => "Configuration error: "@ + m@,
        Error::Tool(m) => "Tool error: "@ + m@,
        Error::ReadOnlyMode => read_only_message(),
        Error::ResourceNotFound { kind, name, namespace } => "Resource not found: "@ + kind@
            + "/"@ + name@ + " in namespace "@ + debug_option_text(
            match namespace {
                Some(n) => Some(n@),
                None => None,
            },
        ),
        Error::InvalidParameter(m) => "Invalid parameter: "@ + m@,
        Error::Io(m) => "IO error: "@ + m@,
        Error::Watch(m) => "Watch error: "@ + m@,
        Error::Exec(m) => "Exec error: "@ + m@,
        Error::PortForward(m) => "Port forward error: "@ + m@,
        Error::MetricsUnavailable(m) => "Metrics not available: "@ + m@,
        Error::Timeout(m) => "Timeout: "@ + m@,
        Error::NoContext => no_context_message(),
        Error::NoClusterConnection => no_cluster_message(),
        Error::VersionMismatch { current, required } => "Kubernetes version mismatch: server is "@
            + current@ + ", but feature requires "@ + required@,
        Error::FeatureNotAvailable {
            feature,
            required_major,
            required_minor,
            current_major,
            current_minor,
        } => "Feature '"@ + feature@ + "' requires Kubernetes v"@ + decimal(required_major as nat)
            + "."@ + decimal(required_minor as nat) + "+, cluster is v"@ + decimal(
            current_major as nat,
        ) + "."@ + decimal(current_minor as nat),
        Error::ResourceScopeMismatch { kind, expected_scope, actual_scope } =>
            "Resource scope mismatch: "@ + kind@ + " is "@ + expected_scope@ + ", but "@
            + actual_scope@ + " scope was requested"@,
    }
}

pub open spec fn read_only_message() -> Seq<char> {
    "Operation not permitted in read-only mode. Start with --read-write to enable mutations."@
}

pub open spec fn no_context_message() -> Seq<char> {
    "No Kubernetes context is currently active. Use 'kubectl config use-context <context>' to set one, or specify a context via --context or K8S_CONTEXT environment variable."@
}

pub open spec fn no_cluster_message() -> Seq<char> {
    "No Kubernetes cluster connection available. Ensure a context is active and the cluster is reachable."@
}

/// `format!("{:?}", s)` of an optional string: `None`, or `Some("…")` with
/// the string quoted, which needs no escape when it is plain printable ASCII.
#[verifier::external_body]
pub(crate) fn debug_option(s: &Option<String>) -> (r: String)
    ensures
        r@ == debug_option_text(
            match s {
                Some(n) => Some(n@),
                None => None,
            },
        ),
        s is None ==> r@ == "None"@,
        match s {
            Some(n) => plain_printable(n@) ==> r@ == "Some(\""@ + n@ + "\")"@,
            None => true,
        },
{
    format!("{:?}", s)
}

impl Error {
    /// A JSON-RPC invalid-request error (code -32600).
    pub fn json_rpc_invalid_request(message: String) -> (r: Error)
        ensures
            r == (Error::JsonRpc { code: -32600i32, message, data: None }),
    {
        Error::JsonRpc { code: -32600, message, data: None }
    }

    /// A JSON-RPC method-not-found error (code -32601) naming the method.
    pub fn json_rpc_method_not_found(method: &str) -> (r: Error)
        ensures
            r matches Error::JsonRpc { code, message, data } && code == -32601 && data is None
                && message@ == "Method not found: "@ + method@,
    {
        Error::JsonRpc { code: -32601, message: concat2("Method not found: ", method), data: None }
    }

    /// A JSON-RPC invalid-params error (code -32602).
    pub fn json_rpc_invalid_params(message: String) -> (r: Error)
        ensures
            r == (Error::JsonRpc { code: -32602i32, message, data: None }),
    {
        Error::JsonRpc { code: -32602, message, data: None }
    }

    /// A JSON-RPC internal error (code -32603).
    pub fn json_rpc_internal(message: String) -> (r: Error)
        ensures
            r == (Error::JsonRpc { code: -32603i32, message, data: None }),
    {
        Error::JsonRpc { code: -32603, message, data: None }
    }

    /// The JSON-RPC error code: its own for a JSON-RPC error, -32603 otherwise.
    pub fn json_rpc_code(&self) -> (r: i32)
        ensures
            r == error_code(*self),
    {
        match self {
            Error::JsonRpc { code, .. } => *code,
            _ => -32603i32,
        }
    }

    /// Whether this error is reported as a JSON-RPC error.
    pub fn is_json_rpc_error(&self) -> (r: bool)
        ensures
            r == (*self is JsonRpc),
    {
        match self {
            Error::JsonRpc { .. } => true,
            _ => false,
        }
    }

    /// The message this error displays.
    pub fn message(&self) -> (r: String)
        ensures
            r@ == error_message(*self),
    {
        match self {
            Error::Protocol(m) => concat2("MCP protocol error: ", m.as_str()),
            Error::JsonRpc { code, message, .. } => {
                let c = i64_to_string(*code as i64);
                let mut v = chars_of("JSON-RPC error: code=");
                push_all(&mut v, c.as_str());
                push_all(&mut v, ", message=");
                push_all(&mut v, message.as_str());
                string_from_chars(v.as_slice())
            },
            Error::Json(m) => concat2("JSON error: ", m.as_str()),
            Error::Yaml(m) => concat2("YAML error: ", m.as_str()),
            Error::Kubernetes(m) => concat2("Kubernetes error: ", m.as_str()),
            Error::KubernetesApi { message, .. } => concat2("Kubernetes API error: ", message.as_str()),
            Error::Config(m) => concat2("Configuration error: ", m.as_str()),
            Error::Tool(m) => concat2("Tool error: ", m.as_str()),
            Error::ReadOnlyMode => owned(
                "Operation not permitted in read-only mode. Start with --read-write to enable mutations.",
            ),
            Error::ResourceNotFound { kind, name, namespace } => {
                let ns = debug_option(namespace);
                let mut v = chars_of("Resource not found: ");
                push_all(&mut v, kind.as_str());
                push_all(&mut v, "/");
                push_all(&mut v, name.as_str());
                push_all(&mut v, " in namespace ");
                push_all(&mut v, ns.as_str());
                string_from_chars(v.as_slice())
            },
            Error::InvalidParameter(m) => concat2("Invalid parameter: ", m.as_str()),
            Error::Io(m) => concat2("IO error: ", m.as_str()),
            Error::Watch(m) => concat2("Watch error: ", m.as_str()),
            Error::Exec(m) => concat2("Exec error: ", m.as_str()),
            Error::PortForward(m) => concat2("Port forward error: ", m.as_str()),
            Error::MetricsUnavailable(m) => concat2("Metrics not available: ", m.as_str()),
            Error::Timeout(m) => concat2("Timeout: ", m.as_str()),
            Error::NoContext => owned(
                "No Kubernetes context is currently active. Use 'kubectl config use-context <context>' to set one, or specify a context via --context or K8S_CONTEXT environment variable.",
            ),
            Error::NoClusterConnection => owned(
                "No Kubernetes cluster connection available. Ensure a context is active and the cluster is reachable.",
            ),
            Error::VersionMismatch { current, required } => {
                let mut v = chars_of("Kubernetes version mismatch: server is ");
                push_all(&mut v, current.as_str());
                push_all(&mut v, ", but feature requires ");
                push_all(&mut v, required.as_str());
                string_from_chars(v.as_slice())
            },
            Error::FeatureNotAvailable {
                feature,
                required_major,
                required_minor,
                current_major,
                current_minor,
            } => {
                let a = u64_to_string(*required_major as u64);
                let b = u64_to_string(*required_minor as u64);
                let c = u64_to_string(*current_major as u64);
                let d = u64_to_string(*current_minor as u64);
                let mut v = chars_of("Feature '");
                push_all(&mut v, feature.as_str());
                push_all(&mut v, "' requires Kubernetes v");
                push_all(&mut v, a.as_str());
                push_all(&mut v, ".");
                push_all(&mut v, b.as_str());
                push_all(&mut v, "+, cluster is v");
                push_all(&mut v, c.as_str());
                push_all(&mut v, ".");
                push_all(&mut v, d.as_str());
                string_from_chars(v.as_slice())
            },
            Error::ResourceScopeMismatch { kind, expected_scope, actual_scope } => {
                let mut v = chars_of("Resource scope mismatch: ");
                push_all(&mut v, kind.as_str());
                push_all(&mut v, " is ");
                push_all(&mut v, expected_scope.as_str());
                push_all(&mut v, ", but ");
                push_all(&mut v, actual_scope.as_str());
                push_all(&mut v, " scope was requested");
                string_from_chars(v.as_slice())
            },
        }
    }
}

} // verus!
