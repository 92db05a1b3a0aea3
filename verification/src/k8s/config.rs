//! Kubernetes configuration: where the kubeconfig is, which context to use,
//! and what the kubeconfig's contexts say.

use crate::text::{owned, str_eq};
use vstd::prelude::*;

verus! {

/// Kubernetes client configuration.
#[derive(Debug, Clone)]
pub struct K8sConfig {
    /// Path to kubeconfig file (uses default if None)
    pub kubeconfig_path: Option<String>,
    /// Context to use (uses current context if None)
    pub context: Option<String>,
    /// Cluster URL override
    pub cluster_url: Option<String>,
}

/// Which kubeconfig entries to use: a context, cluster and user override.
#[derive(Debug, Clone)]
pub struct KubeConfigOptions {
    pub context: Option<String>,
    pub cluster: Option<String>,
    pub user: Option<String>,
}

impl Default for K8sConfig {
    fn default() -> (r: Self)
        ensures
            r.kubeconfig_path is None && r.context is None && r.cluster_url is None,
    {
        K8sConfig { kubeconfig_path: None, context: None, cluster_url: None }
    }
}

impl K8sConfig {
    /// A configuration with every setting left to its default.
    pub fn new() -> (r: Self)
        ensures
            r.kubeconfig_path is None && r.context is None && r.cluster_url is None,
    {
        K8sConfig { kubeconfig_path: None, context: None, cluster_url: None }
    }

    /// This configuration reading the kubeconfig at `path`.
    pub fn with_kubeconfig(self, path: &str) -> (r: Self)
        ensures
            r.kubeconfig_path matches Some(p) && p@ == path@,
            r.context == self.context,
            r.cluster_url == self.cluster_url,
    {
        K8sConfig { kubeconfig_path: Some(owned(path)), context: self.context, cluster_url: self.cluster_url }
    }

    /// This configuration using the context `context`.
    pub fn with_context(self, context: &str) -> (r: Self)
        ensures
            r.kubeconfig_path == self.kubeconfig_path,
            r.context matches Some(c) && c@ == context@,
            r.cluster_url == self.cluster_url,
    {
        K8sConfig { kubeconfig_path: self.kubeconfig_path, context: Some(owned(context)), cluster_url: self.cluster_url }
    }

    /// This configuration talking to the cluster at `url`.
    pub fn with_cluster_url(self, url: &str) -> (r: Self)
        ensures
            r.kubeconfig_path == self.kubeconfig_path,
            r.context == self.context,
            r.cluster_url matches Some(u) && u@ == url@,
    {
        K8sConfig { kubeconfig_path: self.kubeconfig_path, context: self.context, cluster_url: Some(owned(url)) }
    }

    /// The kubeconfig options this configuration selects: its context, and
    /// no cluster or user override.
    pub fn kubeconfig_options(&self) -> (r: KubeConfigOptions)
        ensures
            r.context == self.context,
            r.cluster is None,
            r.user is None,
    {
        KubeConfigOptions { context: self.context.clone(), cluster: None, user: None }
    }
}

/// What a kubeconfig context entry associates: a cluster, a user and a
/// default namespace.
#[derive(Debug, Clone)]
pub struct ContextEntry {
    pub cluster: String,
    pub user: Option<String>,
    pub namespace: Option<String>,
}

/// A named context of a kubeconfig.
#[derive(Debug, Clone)]
pub struct NamedContextEntry {
    pub name: String,
    pub context: Option<ContextEntry>,
}

/// What the server reads of a kubeconfig: its current context and its
/// contexts in file order.
#[derive(Debug, Clone)]
pub struct KubeconfigContexts {
    pub current_context: Option<String>,
    pub contexts: Vec<NamedContextEntry>,
}

/// Information about a Kubernetes context.
#[derive(Debug, Clone)]
pub struct ContextInfo {
    /// Context name
    pub name: String,
    /// Cluster name
    pub cluster: Option<String>,
    /// User name
    pub user: Option<String>,
    /// Default namespace
    pub namespace: Option<String>,
    /// Whether this is the current context
    pub is_current: Option<bool>,
}

/// The information listed for one context.
pub open spec fn context_info_of(c: NamedContextEntry, current: Option<String>) -> (Seq<char>, Option<Seq<char>>, Option<Seq<char>>, Option<Seq<char>>, bool) {
    (
        c.name@,
        match c.context {
            Some(cx) => Some(cx.cluster@),
            None => None,
        },
        match c.context {
            Some(cx) => match cx.user {
                Some(u) => Some(u@),
                None => None,
            },
            None => None,
        },
        match c.context {
            Some(cx) => match cx.namespace {
                Some(n) => Some(n@),
                None => None,
            },
            None => None,
        },
        match current {
            Some(cur) => cur@ == c.name@,
            None => false,
        },
    )
}

/// The plain content of a listed context.
pub open spec fn info_view(i: ContextInfo) -> (Seq<char>, Option<Seq<char>>, Option<Seq<char>>, Option<Seq<char>>, bool) {
    (
        i.name@,
        match i.cluster {
            Some(s) => Some(s@),
            None => None,
        },
        match i.user {
            Some(s) => Some(s@),
            None => None,
        },
        match i.namespace {
            Some(s) => Some(s@),
            None => None,
        },
        i.is_current == Some(true),
    )
}

fn describe_context(c: &NamedContextEntry, current: &Option<String>) -> (r: ContextInfo)
    ensures
        info_view(r) == context_info_of(*c, *current),
        r.is_current is Some,
{
    let is_current = match current {
        Some(cur) => str_eq(cur.as_str(), c.name.as_str()),
        None => false,
    };
    match &c.context {
        Some(cx) => ContextInfo {
            name: c.name.clone(),
            cluster: Some(cx.cluster.clone()),
            user: cx.user.clone(),
            namespace: cx.namespace.clone(),
            is_current: Some(is_current),
        },
        None => ContextInfo { name: c.name.clone(), cluster: None, user: None, namespace: None, is_current: Some(is_current) },
    }
}

/// The contexts of a kubeconfig, in order, each marked current or not.
pub fn list_contexts(kubeconfig: &KubeconfigContexts) -> (r: Vec<ContextInfo>)
    ensures
        r@.len() == kubeconfig.contexts@.len(),
        forall|i: int| 0 <= i < r@.len() ==> #[trigger] info_view(r@[i]) == context_info_of(
            kubeconfig.contexts@[i],
            kubeconfig.current_context,
        ) && r@[i].is_current is Some,
{
    let mut r: Vec<ContextInfo> = Vec::new();
    let mut i: usize = 0;
    while i < kubeconfig.contexts.len()
        invariant
            i <= kubeconfig.contexts@.len(),
            r@.len() == i,
            forall|j: int| 0 <= j < i ==> #[trigger] info_view(r@[j]) == context_info_of(
                kubeconfig.contexts@[j],
                kubeconfig.current_context,
            ) && r@[j].is_current is Some,
        decreases kubeconfig.contexts@.len() - i,
    {
        r.push(describe_context(&kubeconfig.contexts[i], &kubeconfig.current_context));
        i = i + 1;
    }
    r
}

/// Whether a kubeconfig names a current context: one that is present and
/// not empty.
pub open spec fn has_current_context(k: KubeconfigContexts) -> bool {
    k.current_context matches Some(c) && c@.len() > 0
}

/// The first context named `name`.
pub open spec fn context_named(cs: Seq<NamedContextEntry>, name: Seq<char>) -> Option<NamedContextEntry>
    decreases cs.len(),
{
    if cs.len() == 0 {
        None
    } else if cs[0].name@ == name {
        Some(cs[0])
    } else {
        context_named(cs.drop_first(), name)
    }
}

/// The default namespace of the current context: the namespace of the
/// first context named like the current one, else "default".
pub open spec fn default_namespace_for(k: KubeconfigContexts) -> Seq<char> {
    match k.current_context {
        Some(cur) => match context_named(k.contexts@, cur@) {
            Some(c) => match c.context {
                Some(cx) => match cx.namespace {
                    Some(n) => n@,
                    None => "default"@,
                },
                None => "default"@,
            },
            None => "default"@,
        },
        None => "default"@,
    }
}

proof fn lemma_context_named_at(cs: Seq<NamedContextEntry>, name: Seq<char>, i: int)
    requires
        0 <= i < cs.len(),
        cs[i].name@ == name,
        forall|j: int| 0 <= j < i ==> (#[trigger] cs[j]).name@ != name,
    ensures
        context_named(cs, name) == Some(cs[i]),
    decreases i,
{
    if i > 0 {
        assert forall|j: int| 0 <= j < i - 1 implies (#[trigger] cs.drop_first()[j]).name@ != name by {
            assert(cs.drop_first()[j] == cs[j + 1]);
        }
        lemma_context_named_at(cs.drop_first(), name, i - 1);
    }
}

proof fn lemma_context_named_none(cs: Seq<NamedContextEntry>, name: Seq<char>)
    requires
        forall|j: int| 0 <= j < cs.len() ==> (#[trigger] cs[j]).name@ != name,
    ensures
        context_named(cs, name) is None,
    decreases cs.len(),
{
    if cs.len() > 0 {
        assert forall|j: int| 0 <= j < cs.len() - 1 implies (#[trigger] cs.drop_first()[j]).name@ != name by {
            assert(cs.drop_first()[j] == cs[j + 1]);
        }
        lemma_context_named_none(cs.drop_first(), name);
    }
}

/// The default namespace is the namespace of the first context entry named
/// like the current context, when that entry sets one; it is "default" when
/// the entry sets none or no entry carries that name.
pub proof fn law_default_namespace_of_current_context(k: KubeconfigContexts, i: int)
    requires
        k.current_context is Some,
    ensures
        ({
            let cur = k.current_context->0@;
            let cs = k.contexts@;
            &&& (0 <= i < cs.len() && cs[i].name@ == cur && (forall|j: int| 0 <= j < i ==> (#[trigger] cs[j]).name@ != cur))
                ==> default_namespace_for(k) == match cs[i].context {
                Some(cx) => match cx.namespace {
                    Some(n) => n@,
                    None => "default"@,
                },
                None => "default"@,
            }
            &&& (forall|j: int| 0 <= j < cs.len() ==> (#[trigger] cs[j]).name@ != cur) ==> default_namespace_for(k)
                == "default"@
        }),
{
    let cur = k.current_context->0@;
    let cs = k.contexts@;
    if 0 <= i < cs.len() && cs[i].name@ == cur && (forall|j: int| 0 <= j < i ==> (#[trigger] cs[j]).name@ != cur) {
        lemma_context_named_at(cs, cur, i);
    }
    if forall|j: int| 0 <= j < cs.len() ==> (#[trigger] cs[j]).name@ != cur {
        lemma_context_named_none(cs, cur);
    }
}

/// The default namespace a connection through this kubeconfig uses: the
/// current context's namespace, else "default"; `None` when no current
/// context is set.
pub fn kubeconfig_default_namespace(kubeconfig: &KubeconfigContexts) -> (r: Option<String>)
    ensures
        match r {
            Some(ns) => has_current_context(*kubeconfig) && ns@ == default_namespace_for(*kubeconfig),
            None => !has_current_context(*kubeconfig),
        },
{
    let cur = match &kubeconfig.current_context {
        Some(c) => c,
        None => return None,
    };
    if cur.as_str().is_empty() {
        return None;
    }
    let cs = &kubeconfig.contexts;
    let mut i: usize = 0;
    assert(cs@.skip(0) =~= cs@);
    while i < cs.len()
        invariant
            i <= cs@.len(),
            kubeconfig.current_context == Some(*cur),
            cur@.len() > 0,
            *cs == kubeconfig.contexts,
            context_named(cs@, cur@) == context_named(cs@.skip(i as int), cur@),
        decreases cs@.len() - i,
    {
        let ghost rest = cs@.skip(i as int);
        assert(rest[0] == cs@[i as int]);
        assert(rest.drop_first() =~= cs@.skip(i + 1));
        if str_eq(cs[i].name.as_str(), cur.as_str()) {
            assert(context_named(rest, cur@) == Some(cs@[i as int]));
            let ns = match &cs[i].context {
                Some(cx) => match &cx.namespace {
                    Some(n) => n.clone(),
                    None => owned("default"),
                },
                None => owned("default"),
            };
            return Some(ns);
        }
        i = i + 1;
    }
    assert(cs@.skip(cs@.len() as int) =~= Seq::<NamedContextEntry>::empty());
    Some(owned("default"))
}

} // verus!
