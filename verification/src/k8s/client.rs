//! Kubernetes client connection state: what the client knows after trying
//! to connect, and the answers it gives from that state.

use crate::error::{debug_option, debug_option_text, Error};
use crate::k8s::config::{has_current_context, KubeconfigContexts};
use crate::k8s::version::K8sVersion;
use crate::text::{concat2, owned};
use vstd::prelude::*;

verus! {

/// The state of a client's connection; `C` is the connected API client.
#[derive(Debug, Clone)]
pub enum ClientState<C> {
    /// Connected to a cluster.
    Connected {
        client: C,
        default_namespace: String,
        current_context: Option<String>,
        version: Option<K8sVersion>,
    },
    /// No current context is set.
    NoContext,
    /// The connection could not be made.
    ConnectionFailed { error: String },
}

/// What trying to connect reports for a state reached: success when
/// connected, the no-context error without a context, the no-connection
/// error otherwise.
pub open spec fn connect_outcome<C>(state: Option<ClientState<C>>) -> Result<(), Error> {
    match state {
        Some(ClientState::Connected { .. }) => Ok(()),
        Some(ClientState::NoContext) => Err(Error::NoContext),
        _ => Err(Error::NoClusterConnection),
    }
}

/// The result of trying to connect, from the state reached.
pub fn connect_result<C>(state: &Option<ClientState<C>>) -> (r: Result<(), Error>)
    ensures
        r == connect_outcome(*state),
{
    match state {
        Some(ClientState::Connected { .. }) => Ok(()),
        Some(ClientState::NoContext) => Err(Error::NoContext),
        _ => Err(Error::NoClusterConnection),
    }
}

/// Whether the state is connected.
pub fn is_connected<C>(state: &Option<ClientState<C>>) -> (r: bool)
    ensures
        r == (*state matches Some(ClientState::Connected { .. })),
{
    match state {
        Some(ClientState::Connected { .. }) => true,
        _ => false,
    }
}

/// The connected client, or the error that says why there is none.
pub fn client_of<C>(state: &Option<ClientState<C>>) -> (r: Result<&C, Error>)
    ensures
        match *state {
            Some(ClientState::Connected { client, .. }) => r == Ok::<&C, Error>(&client),
            Some(ClientState::NoContext) => r == Err::<&C, Error>(Error::NoContext),
            _ => r == Err::<&C, Error>(Error::NoClusterConnection),
        },
{
    match state {
        Some(ClientState::Connected { client, .. }) => Ok(client),
        Some(ClientState::NoContext) => Err(Error::NoContext),
        _ => Err(Error::NoClusterConnection),
    }
}

/// The text describing a connection state.
pub open spec fn status_text<C>(state: Option<ClientState<C>>) -> Seq<char> {
    match state {
        Some(ClientState::Connected { current_context, version, .. }) => "Connected to context: "@ + debug_option_text(
            match current_context {
                Some(c) => Some(c@),
                None => None,
            },
        ) + match version {
            Some(v) => " (Kubernetes "@ + v.git_version@ + ")"@,
            None => Seq::empty(),
        },
        Some(ClientState::NoContext) =>
            "No Kubernetes context is active. Use 'kubectl config use-context <context>' to set one."@,
        Some(ClientState::ConnectionFailed { error }) => "Connection failed: "@ + error@,
        None => "Not initialized"@,
    }
}

/// A description of the connection state.
pub fn connection_status<C>(state: &Option<ClientState<C>>) -> (r: String)
    ensures
        r@ == status_text(*state),
{
    match state {
        Some(ClientState::Connected { current_context, version, .. }) => {
            let head = concat2("Connected to context: ", debug_option(current_context).as_str());
            match version {
                Some(v) => {
                    let open = concat2(" (Kubernetes ", v.to_display_string().as_str());
                    let tail = concat2(open.as_str(), ")");
                    concat2(head.as_str(), tail.as_str())
                },
                None => {
                    proof {
                        reveal_strlit("");
                    }
                    concat2(head.as_str(), "")
                },
            }
        },
        Some(ClientState::NoContext) => owned(
            "No Kubernetes context is active. Use 'kubectl config use-context <context>' to set one.",
        ),
        Some(ClientState::ConnectionFailed { error }) => concat2("Connection failed: ", error.as_str()),
        None => owned("Not initialized"),
    }
}

/// The detected version of the connected cluster.
pub fn kubernetes_version<C>(state: &Option<ClientState<C>>) -> (r: Option<K8sVersion>)
    ensures
        match *state {
            Some(ClientState::Connected { version, .. }) => r == version,
            _ => r is None,
        },
{
    match state {
        Some(ClientState::Connected { version, .. }) => match version {
            Some(v) => Some(v.duplicate()),
            None => None,
        },
        _ => None,
    }
}

/// The context of the connection.
pub fn current_context<C>(state: &Option<ClientState<C>>) -> (r: Option<String>)
    ensures
        match *state {
            Some(ClientState::Connected { current_context, .. }) => r == current_context,
            _ => r is None,
        },
{
    match state {
        Some(ClientState::Connected { current_context, .. }) => current_context.clone(),
        _ => None,
    }
}

/// The namespace used when none is given: the connection's default
/// namespace, "default" without a connection.
pub open spec fn default_namespace_text<C>(state: Option<ClientState<C>>) -> Seq<char> {
    match state {
        Some(ClientState::Connected { default_namespace, .. }) => default_namespace@,
        _ => "default"@,
    }
}

/// The namespace used when none is given.
pub fn default_namespace<C>(state: &Option<ClientState<C>>) -> (r: String)
    ensures
        r@ == default_namespace_text(*state),
{
    match state {
        Some(ClientState::Connected { default_namespace, .. }) => default_namespace.clone(),
        _ => owned("default"),
    }
}

/// The namespace a request uses: the given one, else the default.
pub fn resolve_namespace(namespace: Option<&str>, default: &str) -> (r: String)
    ensures
        r@ == match namespace {
            Some(ns) => ns@,
            None => default@,
        },
{
    match namespace {
        Some(ns) => owned(ns),
        None => owned(default),
    }
}

/// The namespace of a client running inside a cluster: the pod's namespace,
/// else the `KUBERNETES_NAMESPACE` setting, else "default".
pub fn in_cluster_namespace(pod_namespace: Option<String>, kubernetes_namespace: Option<String>) -> (r: String)
    ensures
        r@ == match pod_namespace {
            Some(ns) => ns@,
            None => match kubernetes_namespace {
                Some(ns) => ns@,
                None => "default"@,
            },
        },
{
    match pod_namespace {
        Some(ns) => ns,
        None => match kubernetes_namespace {
            Some(ns) => ns,
            None => owned("default"),
        },
    }
}

} // verus!

verus! {

/// Without a current context an attempt to connect through the kubeconfig
/// reaches the no-context state: trying to connect reports the no-context
/// error and leaves the client unconnected, so the next attempt starts from
/// an unconnected state again and, the kubeconfig unchanged, ends the same
/// way.
pub proof fn law_no_context_attempts_agree<C>(k: KubeconfigContexts)
    requires
        !has_current_context(k),
    ensures
        connect_outcome(Some(ClientState::<C>::NoContext)) == Err::<(), Error>(Error::NoContext),
        !(Some(ClientState::<C>::NoContext) matches Some(ClientState::Connected { .. })),
        default_namespace_text(Some(ClientState::<C>::NoContext)) == "default"@,
{
}

} // verus!
