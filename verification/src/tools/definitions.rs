//! The tools the server offers: their definitions (names, descriptions and
//! input schemas) and whether they change the cluster.

use crate::mcp::json::JsonValue;
use crate::mcp::protocol::{PropertySchema, Tool, ToolInputSchema};
use crate::k8s::config::K8sConfig;
use crate::text::{owned, strings_view};
use vstd::prelude::*;

verus! {

/// Whether a schema entry is the property `key` of type `kind` with the
/// description `desc`, the allowed values `values` (if any), and the default
/// text `default_text` or default flag `default_flag` (if any).
pub open spec fn prop_matches(
    entry: (String, PropertySchema),
    key: Seq<char>,
    kind: Seq<char>,
    desc: Seq<char>,
    values: Option<Seq<Seq<char>>>,
    default_text: Option<Seq<char>>,
    default_flag: Option<bool>,
) -> bool {
    &&& entry.0@ == key
    &&& entry.1.type_ matches Some(t) && t@ == kind
    &&& entry.1.description matches Some(d) && d@ == desc
    &&& entry.1.items is None
    &&& entry.1.ref_ is None
    &&& match values {
        Some(vs) => entry.1.enum_ matches Some(e) && strings_view(e@) == vs,
        None => entry.1.enum_ is None,
    }
    &&& match default_text {
        Some(t) => entry.1.default matches Some(JsonValue::String(s)) && s@ == t,
        None => match default_flag {
            Some(b) => entry.1.default == Some(JsonValue::Bool(b)),
            None => entry.1.default is None,
        },
    }
}

fn string_list(items: &[&str]) -> (r: Vec<String>)
    ensures
        strings_view(r@) == items@.map_values(|s: &str| s@),
{
    let mut r: Vec<String> = Vec::new();
    let mut i: usize = 0;
    while i < items.len()
        invariant
            i <= items@.len(),
            strings_view(r@) == items@.subrange(0, i as int).map_values(|s: &str| s@),
        decreases items@.len() - i,
    {
        let ghost prev = r@;
        let t = owned(items[i]);
        r.push(t);
        assert(strings_view(r@) =~= strings_view(prev).push(t@));
        assert(items@.subrange(0, i + 1).map_values(|s: &str| s@) =~= items@.subrange(0, i as int).map_values(
            |s: &str| s@,
        ).push(items@[i as int]@));
        i = i + 1;
    }
    assert(items@.subrange(0, items@.len() as int) =~= items@);
    r
}

fn property(key: &str, schema: PropertySchema) -> (r: (String, PropertySchema))
    ensures
        r.0@ == key@,
        r.1 == schema,
{
    (owned(key), schema)
}

/// The definition of the `resources_get` tool.
pub open spec fn is_resources_get_tool(t: Tool) -> bool {
    &&& t.name@ == "resources_get"@
    &&& t.description@ == "Get a Kubernetes resource by name. Returns the full resource definition."@
    &&& t.input_schema.type_@ == "object"@
    &&& t.input_schema.properties matches Some(ps) && ps@.len() == 4
        && prop_matches(ps@[0], "apiVersion"@, "string"@, "API version (e.g., 'v1' for core, 'apps/v1' for apps)"@, Some(seq!["v1"@, "apps/v1"@, "batch/v1"@, "networking.k8s.io/v1"@]), None, None)
        && prop_matches(ps@[1], "kind"@, "string"@, "Resource kind (e.g., 'Pod', 'Deployment', 'Service')"@, Some(seq!["Pod"@, "Deployment"@, "Service"@, "ConfigMap"@, "Secret"@, "Namespace"@, "Node"@, "Ingress"@, "StatefulSet"@, "DaemonSet"@, "Job"@, "CronJob"@, "ReplicaSet"@, "PersistentVolumeClaim"@, "PersistentVolume"@]), None, None)
        && prop_matches(ps@[2], "name"@, "string"@, "Resource name"@, None, None, None)
        && prop_matches(ps@[3], "namespace"@, "string"@, "Namespace (optional, uses default if not specified)"@, None, None, None)
    &&& t.input_schema.required matches Some(rq) && strings_view(rq@) == seq!["apiVersion"@, "kind"@, "name"@]
}

/// The `resources_get` tool: its name, description and input schema.
pub fn resources_get_definition() -> (r: Tool)
    ensures
        is_resources_get_tool(r),
{
    let schema = ToolInputSchema::object();
    let mut props: Vec<(String, PropertySchema)> = Vec::new();
    let values0: [&str; 4] = ["v1", "apps/v1", "batch/v1", "networking.k8s.io/v1"];
    let list0 = string_list(&values0);
    assert(strings_view(list0@) =~= seq!["v1"@, "apps/v1"@, "batch/v1"@, "networking.k8s.io/v1"@]);
    props.push(property("apiVersion", PropertySchema::string().description("API version (e.g., 'v1' for core, 'apps/v1' for apps)").enum_values(list0)));
    let values1: [&str; 15] = ["Pod", "Deployment", "Service", "ConfigMap", "Secret", "Namespace", "Node", "Ingress", "StatefulSet", "DaemonSet", "Job", "CronJob", "ReplicaSet", "PersistentVolumeClaim", "PersistentVolume"];
    let list1 = string_list(&values1);
    assert(strings_view(list1@) =~= seq!["Pod"@, "Deployment"@, "Service"@, "ConfigMap"@, "Secret"@, "Namespace"@, "Node"@, "Ingress"@, "StatefulSet"@, "DaemonSet"@, "Job"@, "CronJob"@, "ReplicaSet"@, "PersistentVolumeClaim"@, "PersistentVolume"@]);
    props.push(property("kind", PropertySchema::string().description("Resource kind (e.g., 'Pod', 'Deployment', 'Service')").enum_values(list1)));
    props.push(property("name", PropertySchema::string().description("Resource name")));
    props.push(property("namespace", PropertySchema::string().description("Namespace (optional, uses default if not specified)")));
    let schema = schema.with_properties(props);
    let required: [&str; 3] = ["apiVersion", "kind", "name"];
    let req_list = string_list(&required);
    assert(strings_view(req_list@) =~= seq!["apiVersion"@, "kind"@, "name"@]);
    let schema = schema.with_required(req_list);
    Tool::new("resources_get", "Get a Kubernetes resource by name. Returns the full resource definition.", schema)
}

/// The `resources_get` tool.
pub struct GetResourceTool<C, D> {
    pub client: C,
    pub discovery: D,
}

impl<C, D> GetResourceTool<C, D> {
    /// The tool working through the given handles.
    pub fn new(client: C, discovery: D) -> (r: Self)
        ensures
            r.client == client && r.discovery == discovery,
    {
        GetResourceTool { client, discovery }
    }

    /// The tool's definition.
    pub fn definition(&self) -> (r: Tool)
        ensures
            is_resources_get_tool(r),
    {
        resources_get_definition()
    }

    /// Whether the tool changes the cluster.
    pub fn is_write_tool(&self) -> (r: bool)
        ensures
            r == false,
    {
        false
    }
}

/// The definition of the `pods_get` tool.
pub open spec fn is_pods_get_tool(t: Tool) -> bool {
    &&& t.name@ == "pods_get"@
    &&& t.description@ == "Get a Kubernetes Pod by name"@
    &&& t.input_schema.type_@ == "object"@
    &&& t.input_schema.properties matches Some(ps) && ps@.len() == 2
        && prop_matches(ps@[0], "name"@, "string"@, "Pod name"@, None, None, None)
        && prop_matches(ps@[1], "namespace"@, "string"@, "Namespace (optional)"@, None, None, None)
    &&& t.input_schema.required matches Some(rq) && strings_view(rq@) == seq!["name"@]
}

/// The `pods_get` tool: its name, description and input schema.
pub fn pods_get_definition() -> (r: Tool)
    ensures
        is_pods_get_tool(r),
{
    let schema = ToolInputSchema::object();
    let mut props: Vec<(String, PropertySchema)> = Vec::new();
    props.push(property("name", PropertySchema::string().description("Pod name")));
    props.push(property("namespace", PropertySchema::string().description("Namespace (optional)")));
    let schema = schema.with_properties(props);
    let required: [&str; 1] = ["name"];
    let req_list = string_list(&required);
    assert(strings_view(req_list@) =~= seq!["name"@]);
    let schema = schema.with_required(req_list);
    Tool::new("pods_get", "Get a Kubernetes Pod by name", schema)
}

/// The `pods_get` tool.
pub struct PodsGetTool<C> {
    pub client: C,
}

impl<C> PodsGetTool<C> {
    /// The tool working through the given handles.
    pub fn new(client: C) -> (r: Self)
        ensures
            r.client == client,
    {
        PodsGetTool { client }
    }

    /// The tool's definition.
    pub fn definition(&self) -> (r: Tool)
        ensures
            is_pods_get_tool(r),
    {
        pods_get_definition()
    }

    /// Whether the tool changes the cluster.
    pub fn is_write_tool(&self) -> (r: bool)
        ensures
            r == false,
    {
        false
    }
}

/// The definition of the `deployments_get` tool.
pub open spec fn is_deployments_get_tool(t: Tool) -> bool {
    &&& t.name@ == "deployments_get"@
    &&& t.description@ == "Get a Kubernetes Deployment by name"@
    &&& t.input_schema.type_@ == "object"@
    &&& t.input_schema.properties matches Some(ps) && ps@.len() == 2
        && prop_matches(ps@[0], "name"@, "string"@, "Deployment name"@, None, None, None)
        && prop_matches(ps@[1], "namespace"@, "string"@, "Namespace (optional)"@, None, None, None)
    &&& t.input_schema.required matches Some(rq) && strings_view(rq@) == seq!["name"@]
}

/// The `deployments_get` tool: its name, description and input schema.
pub fn deployments_get_definition() -> (r: Tool)
    ensures
        is_deployments_get_tool(r),
{
    let schema = ToolInputSchema::object();
    let mut props: Vec<(String, PropertySchema)> = Vec::new();
    props.push(property("name", PropertySchema::string().description("Deployment name")));
    props.push(property("namespace", PropertySchema::string().description("Namespace (optional)")));
    let schema = schema.with_properties(props);
    let required: [&str; 1] = ["name"];
    let req_list = string_list(&required);
    assert(strings_view(req_list@) =~= seq!["name"@]);
    let schema = schema.with_required(req_list);
    Tool::new("deployments_get", "Get a Kubernetes Deployment by name", schema)
}

/// The `deployments_get` tool.
pub struct DeploymentsGetTool<C> {
    pub client: C,
}

impl<C> DeploymentsGetTool<C> {
    /// The tool working through the given handles.
    pub fn new(client: C) -> (r: Self)
        ensures
            r.client == client,
    {
        DeploymentsGetTool { client }
    }

    /// The tool's definition.
    pub fn definition(&self) -> (r: Tool)
        ensures
            is_deployments_get_tool(r),
    {
        deployments_get_definition()
    }

    /// Whether the tool changes the cluster.
    pub fn is_write_tool(&self) -> (r: bool)
        ensures
            r == false,
    {
        false
    }
}

/// The definition of the `services_get` tool.
pub open spec fn is_services_get_tool(t: Tool) -> bool {
    &&& t.name@ == "services_get"@
    &&& t.description@ == "Get a Kubernetes Service by name"@
    &&& t.input_schema.type_@ == "object"@
    &&& t.input_schema.properties matches Some(ps) && ps@.len() == 2
        && prop_matches(ps@[0], "name"@, "string"@, "Service name"@, None, None, None)
        && prop_matches(ps@[1], "namespace"@, "string"@, "Namespace (optional)"@, None, None, None)
    &&& t.input_schema.required matches Some(rq) && strings_view(rq@) == seq!["name"@]
}

/// The `services_get` tool: its name, description and input schema.
pub fn services_get_definition() -> (r: Tool)
    ensures
        is_services_get_tool(r),
{
    let schema = ToolInputSchema::object();
    let mut props: Vec<(String, PropertySchema)> = Vec::new();
    props.push(property("name", PropertySchema::string().description("Service name")));
    props.push(property("namespace", PropertySchema::string().description("Namespace (optional)")));
    let schema = schema.with_properties(props);
    let required: [&str; 1] = ["name"];
    let req_list = string_list(&required);
    assert(strings_view(req_list@) =~= seq!["name"@]);
    let schema = schema.with_required(req_list);
    Tool::new("services_get", "Get a Kubernetes Service by name", schema)
}

/// The `services_get` tool.
pub struct ServicesGetTool<C> {
    pub client: C,
}

impl<C> ServicesGetTool<C> {
    /// The tool working through the given handles.
    pub fn new(client: C) -> (r: Self)
        ensures
            r.client == client,
    {
        ServicesGetTool { client }
    }

    /// The tool's definition.
    pub fn definition(&self) -> (r: Tool)
        ensures
            is_services_get_tool(r),
    {
        services_get_definition()
    }

    /// Whether the tool changes the cluster.
    pub fn is_write_tool(&self) -> (r: bool)
        ensures
            r == false,
    {
        false
    }
}

/// The definition of the `nodes_get` tool.
pub open spec fn is_nodes_get_tool(t: Tool) -> bool {
    &&& t.name@ == "nodes_get"@
    &&& t.description@ == "Get a Kubernetes Node by name"@
    &&& t.input_schema.type_@ == "object"@
    &&& t.input_schema.properties matches Some(ps) && ps@.len() == 1
        && prop_matches(ps@[0], "name"@, "string"@, "Node name"@, None, None, None)
    &&& t.input_schema.required matches Some(rq) && strings_view(rq@) == seq!["name"@]
}

/// The `nodes_get` tool: its name, description and input schema.
pub fn nodes_get_definition() -> (r: Tool)
    ensures
        is_nodes_get_tool(r),
{
    let schema = ToolInputSchema::object();
    let mut props: Vec<(String, PropertySchema)> = Vec::new();
    props.push(property("name", PropertySchema::string().description("Node name")));
    let schema = schema.with_properties(props);
    let required: [&str; 1] = ["name"];
    let req_list = string_list(&required);
    assert(strings_view(req_list@) =~= seq!["name"@]);
    let schema = schema.with_required(req_list);
    Tool::new("nodes_get", "Get a Kubernetes Node by name", schema)
}

/// The `nodes_get` tool.
pub struct NodesGetTool<C> {
    pub client: C,
}

impl<C> NodesGetTool<C> {
    /// The tool working through the given handles.
    pub fn new(client: C) -> (r: Self)
        ensures
            r.client == client,
    {
        NodesGetTool { client }
    }

    /// The tool's definition.
    pub fn definition(&self) -> (r: Tool)
        ensures
            is_nodes_get_tool(r),
    {
        nodes_get_definition()
    }

    /// Whether the tool changes the cluster.
    pub fn is_write_tool(&self) -> (r: bool)
        ensures
            r == false,
    {
        false
    }
}

/// The definition of the `namespaces_get` tool.
pub open spec fn is_namespaces_get_tool(t: Tool) -> bool {
    &&& t.name@ == "namespaces_get"@
    &&& t.description@ == "Get a Kubernetes Namespace by name"@
    &&& t.input_schema.type_@ == "object"@
    &&& t.input_schema.properties matches Some(ps) && ps@.len() == 1
        && prop_matches(ps@[0], "name"@, "string"@, "Namespace name"@, None, None, None)
    &&& t.input_schema.required matches Some(rq) && strings_view(rq@) == seq!["name"@]
}

/// The `namespaces_get` tool: its name, description and input schema.
pub fn namespaces_get_definition() -> (r: Tool)
    ensures
        is_namespaces_get_tool(r),
{
    let schema = ToolInputSchema::object();
    let mut props: Vec<(String, PropertySchema)> = Vec::new();
    props.push(property("name", PropertySchema::string().description("Namespace name")));
    let schema = schema.with_properties(props);
    let required: [&str; 1] = ["name"];
    let req_list = string_list(&required);
    assert(strings_view(req_list@) =~= seq!["name"@]);
    let schema = schema.with_required(req_list);
    Tool::new("namespaces_get", "Get a Kubernetes Namespace by name", schema)
}

/// The `namespaces_get` tool.
pub struct NamespacesGetTool<C> {
    pub client: C,
}

impl<C> NamespacesGetTool<C> {
    /// The tool working through the given handles.
    pub fn new(client: C) -> (r: Self)
        ensures
            r.client == client,
    {
        NamespacesGetTool { client }
    }

    /// The tool's definition.
    pub fn definition(&self) -> (r: Tool)
        ensures
            is_namespaces_get_tool(r),
    {
        namespaces_get_definition()
    }

    /// Whether the tool changes the cluster.
    pub fn is_write_tool(&self) -> (r: bool)
        ensures
            r == false,
    {
        false
    }
}

/// The definition of the `resources_list` tool.
pub open spec fn is_resources_list_tool(t: Tool) -> bool {
    &&& t.name@ == "resources_list"@
    &&& t.description@ == "List Kubernetes resources with optional selectors"@
    &&& t.input_schema.type_@ == "object"@
    &&& t.input_schema.properties matches Some(ps) && ps@.len() == 7
        && prop_matches(ps@[0], "apiVersion"@, "string"@, "API version (e.g., 'v1', 'apps/v1')"@, Some(seq!["v1"@, "apps/v1"@, "batch/v1"@, "networking.k8s.io/v1"@]), Some("v1"@), None)
        && prop_matches(ps@[1], "kind"@, "string"@, "Resource kind (e.g., 'Pod', 'Deployment')"@, Some(seq!["Pod"@, "Deployment"@, "Service"@, "ConfigMap"@, "Secret"@, "Namespace"@, "Node"@, "Ingress"@, "StatefulSet"@, "DaemonSet"@, "Job"@, "CronJob"@, "ReplicaSet"@, "PersistentVolumeClaim"@]), Some("Pod"@), None)
        && prop_matches(ps@[2], "namespace"@, "string"@, "Namespace (optional, lists from all namespaces if not specified)"@, None, None, None)
        && prop_matches(ps@[3], "labelSelector"@, "string"@, "Label selector (e.g., 'app=myapp,tier=frontend')"@, None, None, None)
        && prop_matches(ps@[4], "fieldSelector"@, "string"@, "Field selector (e.g., 'status.phase=Running')"@, None, None, None)
        && prop_matches(ps@[5], "limit"@, "integer"@, "Maximum number of results"@, None, None, None)
        && prop_matches(ps@[6], "output"@, "string"@, "Output format"@, Some(seq!["table"@, "json"@, "yaml"@]), Some("table"@), None)
    &&& t.input_schema.required is None
}

/// The `resources_list` tool: its name, description and input schema.
pub fn resources_list_definition() -> (r: Tool)
    ensures
        is_resources_list_tool(r),
{
    let schema = ToolInputSchema::object();
    let mut props: Vec<(String, PropertySchema)> = Vec::new();
    let values0: [&str; 4] = ["v1", "apps/v1", "batch/v1", "networking.k8s.io/v1"];
    let list0 = string_list(&values0);
    assert(strings_view(list0@) =~= seq!["v1"@, "apps/v1"@, "batch/v1"@, "networking.k8s.io/v1"@]);
    props.push(property("apiVersion", PropertySchema::string().description("API version (e.g., 'v1', 'apps/v1')").enum_values(list0).default(JsonValue::String(owned("v1")))));
    let values1: [&str; 14] = ["Pod", "Deployment", "Service", "ConfigMap", "Secret", "Namespace", "Node", "Ingress", "StatefulSet", "DaemonSet", "Job", "CronJob", "ReplicaSet", "PersistentVolumeClaim"];
    let list1 = string_list(&values1);
    assert(strings_view(list1@) =~= seq!["Pod"@, "Deployment"@, "Service"@, "ConfigMap"@, "Secret"@, "Namespace"@, "Node"@, "Ingress"@, "StatefulSet"@, "DaemonSet"@, "Job"@, "CronJob"@, "ReplicaSet"@, "PersistentVolumeClaim"@]);
    props.push(property("kind", PropertySchema::string().description("Resource kind (e.g., 'Pod', 'Deployment')").enum_values(list1).default(JsonValue::String(owned("Pod")))));
    props.push(property("namespace", PropertySchema::string().description("Namespace (optional, lists from all namespaces if not specified)")));
    props.push(property("labelSelector", PropertySchema::string().description("Label selector (e.g., 'app=myapp,tier=frontend')")));
    props.push(property("fieldSelector", PropertySchema::string().description("Field selector (e.g., 'status.phase=Running')")));
    props.push(property("limit", PropertySchema::integer().description("Maximum number of results")));
    let values6: [&str; 3] = ["table", "json", "yaml"];
    let list6 = string_list(&values6);
    assert(strings_view(list6@) =~= seq!["table"@, "json"@, "yaml"@]);
    props.push(property("output", PropertySchema::string().description("Output format").enum_values(list6).default(JsonValue::String(owned("table")))));
    let schema = schema.with_properties(props);
    Tool::new("resources_list", "List Kubernetes resources with optional selectors", schema)
}

/// The `resources_list` tool.
pub struct ListResourcesTool<C, D> {
    pub client: C,
    pub discovery: D,
}

impl<C, D> ListResourcesTool<C, D> {
    /// The tool working through the given handles.
    pub fn new(client: C, discovery: D) -> (r: Self)
        ensures
            r.client == client && r.discovery == discovery,
    {
        ListResourcesTool { client, discovery }
    }

    /// The tool's definition.
    pub fn definition(&self) -> (r: Tool)
        ensures
            is_resources_list_tool(r),
    {
        resources_list_definition()
    }

    /// Whether the tool changes the cluster.
    pub fn is_write_tool(&self) -> (r: bool)
        ensures
            r == false,
    {
        false
    }
}

/// The definition of the `pods_list` tool.
pub open spec fn is_pods_list_tool(t: Tool) -> bool {
    &&& t.name@ == "pods_list"@
    &&& t.description@ == "List Kubernetes Pods"@
    &&& t.input_schema.type_@ == "object"@
    &&& t.input_schema.properties matches Some(ps) && ps@.len() == 5
        && prop_matches(ps@[0], "namespace"@, "string"@, "Namespace (optional)"@, None, None, None)
        && prop_matches(ps@[1], "labelSelector"@, "string"@, "Label selector"@, None, None, None)
        && prop_matches(ps@[2], "fieldSelector"@, "string"@, "Field selector (e.g., 'status.phase=Running')"@, None, None, None)
        && prop_matches(ps@[3], "all_namespaces"@, "boolean"@, "List pods from all namespaces"@, None, None, Some(false))
        && prop_matches(ps@[4], "output"@, "string"@, "Output format"@, Some(seq!["table"@, "json"@, "yaml"@]), Some("table"@), None)
    &&& t.input_schema.required is None
}

/// The `pods_list` tool: its name, description and input schema.
pub fn pods_list_definition() -> (r: Tool)
    ensures
        is_pods_list_tool(r),
{
    let schema = ToolInputSchema::object();
    let mut props: Vec<(String, PropertySchema)> = Vec::new();
    props.push(property("namespace", PropertySchema::string().description("Namespace (optional)")));
    props.push(property("labelSelector", PropertySchema::string().description("Label selector")));
    props.push(property("fieldSelector", PropertySchema::string().description("Field selector (e.g., 'status.phase=Running')")));
    props.push(property("all_namespaces", PropertySchema::boolean().description("List pods from all namespaces").default(JsonValue::Bool(false))));
    let values4: [&str; 3] = ["table", "json", "yaml"];
    let list4 = string_list(&values4);
    assert(strings_view(list4@) =~= seq!["table"@, "json"@, "yaml"@]);
    props.push(property("output", PropertySchema::string().description("Output format").enum_values(list4).default(JsonValue::String(owned("table")))));
    let schema = schema.with_properties(props);
    Tool::new("pods_list", "List Kubernetes Pods", schema)
}

/// The `pods_list` tool.
pub struct PodsListTool<C> {
    pub client: C,
}

impl<C> PodsListTool<C> {
    /// The tool working through the given handles.
    pub fn new(client: C) -> (r: Self)
        ensures
            r.client == client,
    {
        PodsListTool { client }
    }

    /// The tool's definition.
    pub fn definition(&self) -> (r: Tool)
        ensures
            is_pods_list_tool(r),
    {
        pods_list_definition()
    }

    /// Whether the tool changes the cluster.
    pub fn is_write_tool(&self) -> (r: bool)
        ensures
            r == false,
    {
        false
    }
}

/// The definition of the `deployments_list` tool.
pub open spec fn is_deployments_list_tool(t: Tool) -> bool {
    &&& t.name@ == "deployments_list"@
    &&& t.description@ == "List Kubernetes Deployments"@
    &&& t.input_schema.type_@ == "object"@
    &&& t.input_schema.properties matches Some(ps) && ps@.len() == 3
        && prop_matches(ps@[0], "namespace"@, "string"@, "Namespace (optional)"@, None, None, None)
        && prop_matches(ps@[1], "labelSelector"@, "string"@, "Label selector"@, None, None, None)
        && prop_matches(ps@[2], "output"@, "string"@, "Output format"@, Some(seq!["table"@, "json"@, "yaml"@]), Some("table"@), None)
    &&& t.input_schema.required is None
}

/// The `deployments_list` tool: its name, description and input schema.
pub fn deployments_list_definition() -> (r: Tool)
    ensures
        is_deployments_list_tool(r),
{
    let schema = ToolInputSchema::object();
    let mut props: Vec<(String, PropertySchema)> = Vec::new();
    props.push(property("namespace", PropertySchema::string().description("Namespace (optional)")));
    props.push(property("labelSelector", PropertySchema::string().description("Label selector")));
    let values2: [&str; 3] = ["table", "json", "yaml"];
    let list2 = string_list(&values2);
    assert(strings_view(list2@) =~= seq!["table"@, "json"@, "yaml"@]);
    props.push(property("output", PropertySchema::string().description("Output format").enum_values(list2).default(JsonValue::String(owned("table")))));
    let schema = schema.with_properties(props);
    Tool::new("deployments_list", "List Kubernetes Deployments", schema)
}

/// The `deployments_list` tool.
pub struct DeploymentsListTool<C> {
    pub client: C,
}

impl<C> DeploymentsListTool<C> {
    /// The tool working through the given handles.
    pub fn new(client: C) -> (r: Self)
        ensures
            r.client == client,
    {
        DeploymentsListTool { client }
    }

    /// The tool's definition.
    pub fn definition(&self) -> (r: Tool)
        ensures
            is_deployments_list_tool(r),
    {
        deployments_list_definition()
    }

    /// Whether the tool changes the cluster.
    pub fn is_write_tool(&self) -> (r: bool)
        ensures
            r == false,
    {
        false
    }
}

/// The definition of the `services_list` tool.
pub open spec fn is_services_list_tool(t: Tool) -> bool {
    &&& t.name@ == "services_list"@
    &&& t.description@ == "List Kubernetes Services"@
    &&& t.input_schema.type_@ == "object"@
    &&& t.input_schema.properties matches Some(ps) && ps@.len() == 3
        && prop_matches(ps@[0], "namespace"@, "string"@, "Namespace (optional)"@, None, None, None)
        && prop_matches(ps@[1], "labelSelector"@, "string"@, "Label selector"@, None, None, None)
        && prop_matches(ps@[2], "output"@, "string"@, "Output format"@, Some(seq!["table"@, "json"@, "yaml"@]), Some("table"@), None)
    &&& t.input_schema.required is None
}

/// The `services_list` tool: its name, description and input schema.
pub fn services_list_definition() -> (r: Tool)
    ensures
        is_services_list_tool(r),
{
    let schema = ToolInputSchema::object();
    let mut props: Vec<(String, PropertySchema)> = Vec::new();
    props.push(property("namespace", PropertySchema::string().description("Namespace (optional)")));
    props.push(property("labelSelector", PropertySchema::string().description("Label selector")));
    let values2: [&str; 3] = ["table", "json", "yaml"];
    let list2 = string_list(&values2);
    assert(strings_view(list2@) =~= seq!["table"@, "json"@, "yaml"@]);
    props.push(property("output", PropertySchema::string().description("Output format").enum_values(list2).default(JsonValue::String(owned("table")))));
    let schema = schema.with_properties(props);
    Tool::new("services_list", "List Kubernetes Services", schema)
}

/// The `services_list` tool.
pub struct ServicesListTool<C> {
    pub client: C,
}

impl<C> ServicesListTool<C> {
    /// The tool working through the given handles.
    pub fn new(client: C) -> (r: Self)
        ensures
            r.client == client,
    {
        ServicesListTool { client }
    }

    /// The tool's definition.
    pub fn definition(&self) -> (r: Tool)
        ensures
            is_services_list_tool(r),
    {
        services_list_definition()
    }

    /// Whether the tool changes the cluster.
    pub fn is_write_tool(&self) -> (r: bool)
        ensures
            r == false,
    {
        false
    }
}

/// The definition of the `nodes_list` tool.
pub open spec fn is_nodes_list_tool(t: Tool) -> bool {
    &&& t.name@ == "nodes_list"@
    &&& t.description@ == "List Kubernetes Nodes"@
    &&& t.input_schema.type_@ == "object"@
    &&& t.input_schema.properties matches Some(ps) && ps@.len() == 2
        && prop_matches(ps@[0], "labelSelector"@, "string"@, "Label selector"@, None, None, None)
        && prop_matches(ps@[1], "output"@, "string"@, "Output format"@, Some(seq!["table"@, "json"@, "yaml"@]), Some("table"@), None)
    &&& t.input_schema.required is None
}

/// The `nodes_list` tool: its name, description and input schema.
pub fn nodes_list_definition() -> (r: Tool)
    ensures
        is_nodes_list_tool(r),
{
    let schema = ToolInputSchema::object();
    let mut props: Vec<(String, PropertySchema)> = Vec::new();
    props.push(property("labelSelector", PropertySchema::string().description("Label selector")));
    let values1: [&str; 3] = ["table", "json", "yaml"];
    let list1 = string_list(&values1);
    assert(strings_view(list1@) =~= seq!["table"@, "json"@, "yaml"@]);
    props.push(property("output", PropertySchema::string().description("Output format").enum_values(list1).default(JsonValue::String(owned("table")))));
    let schema = schema.with_properties(props);
    Tool::new("nodes_list", "List Kubernetes Nodes", schema)
}

/// The `nodes_list` tool.
pub struct NodesListTool<C> {
    pub client: C,
}

impl<C> NodesListTool<C> {
    /// The tool working through the given handles.
    pub fn new(client: C) -> (r: Self)
        ensures
            r.client == client,
    {
        NodesListTool { client }
    }

    /// The tool's definition.
    pub fn definition(&self) -> (r: Tool)
        ensures
            is_nodes_list_tool(r),
    {
        nodes_list_definition()
    }

    /// Whether the tool changes the cluster.
    pub fn is_write_tool(&self) -> (r: bool)
        ensures
            r == false,
    {
        false
    }
}

/// The definition of the `namespaces_list` tool.
pub open spec fn is_namespaces_list_tool(t: Tool) -> bool {
    &&& t.name@ == "namespaces_list"@
    &&& t.description@ == "List Kubernetes Namespaces"@
    &&& t.input_schema.type_@ == "object"@
    &&& t.input_schema.properties matches Some(ps) && ps@.len() == 1
        && prop_matches(ps@[0], "output"@, "string"@, "Output format"@, Some(seq!["table"@, "json"@, "yaml"@]), Some("table"@), None)
    &&& t.input_schema.required is None
}

/// The `namespaces_list` tool: its name, description and input schema.
pub fn namespaces_list_definition() -> (r: Tool)
    ensures
        is_namespaces_list_tool(r),
{
    let schema = ToolInputSchema::object();
    let mut props: Vec<(String, PropertySchema)> = Vec::new();
    let values0: [&str; 3] = ["table", "json", "yaml"];
    let list0 = string_list(&values0);
    assert(strings_view(list0@) =~= seq!["table"@, "json"@, "yaml"@]);
    props.push(property("output", PropertySchema::string().description("Output format").enum_values(list0).default(JsonValue::String(owned("table")))));
    let schema = schema.with_properties(props);
    Tool::new("namespaces_list", "List Kubernetes Namespaces", schema)
}

/// The `namespaces_list` tool.
pub struct NamespacesListTool<C> {
    pub client: C,
}

impl<C> NamespacesListTool<C> {
    /// The tool working through the given handles.
    pub fn new(client: C) -> (r: Self)
        ensures
            r.client == client,
    {
        NamespacesListTool { client }
    }

    /// The tool's definition.
    pub fn definition(&self) -> (r: Tool)
        ensures
            is_namespaces_list_tool(r),
    {
        namespaces_list_definition()
    }

    /// Whether the tool changes the cluster.
    pub fn is_write_tool(&self) -> (r: bool)
        ensures
            r == false,
    {
        false
    }
}

/// The definition of the `resources_delete` tool.
pub open spec fn is_resources_delete_tool(t: Tool) -> bool {
    &&& t.name@ == "resources_delete"@
    &&& t.description@ == "Delete a Kubernetes resource by name"@
    &&& t.input_schema.type_@ == "object"@
    &&& t.input_schema.properties matches Some(ps) && ps@.len() == 6
        && prop_matches(ps@[0], "apiVersion"@, "string"@, "API version (e.g., 'v1' for core, 'apps/v1' for apps)"@, Some(seq!["v1"@, "apps/v1"@, "batch/v1"@, "networking.k8s.io/v1"@]), None, None)
        && prop_matches(ps@[1], "kind"@, "string"@, "Resource kind (e.g., 'Pod', 'Deployment')"@, Some(seq!["Pod"@, "Deployment"@, "Service"@, "ConfigMap"@, "Secret"@, "Namespace"@, "Ingress"@, "StatefulSet"@, "DaemonSet"@, "ReplicaSet"@, "Job"@, "CronJob"@, "PersistentVolumeClaim"@]), None, None)
        && prop_matches(ps@[2], "name"@, "string"@, "Resource name"@, None, None, None)
        && prop_matches(ps@[3], "namespace"@, "string"@, "Namespace (optional)"@, None, None, None)
        && prop_matches(ps@[4], "gracePeriodSeconds"@, "integer"@, "Grace period in seconds before deletion"@, None, None, None)
        && prop_matches(ps@[5], "force"@, "boolean"@, "Force immediate deletion (sets grace period to 0)"@, None, None, Some(false))
    &&& t.input_schema.required matches Some(rq) && strings_view(rq@) == seq!["apiVersion"@, "kind"@, "name"@]
}

/// The `resources_delete` tool: its name, description and input schema.
pub fn resources_delete_definition() -> (r: Tool)
    ensures
        is_resources_delete_tool(r),
{
    let schema = ToolInputSchema::object();
    let mut props: Vec<(String, PropertySchema)> = Vec::new();
    let values0: [&str; 4] = ["v1", "apps/v1", "batch/v1", "networking.k8s.io/v1"];
    let list0 = string_list(&values0);
    assert(strings_view(list0@) =~= seq!["v1"@, "apps/v1"@, "batch/v1"@, "networking.k8s.io/v1"@]);
    props.push(property("apiVersion", PropertySchema::string().description("API version (e.g., 'v1' for core, 'apps/v1' for apps)").enum_values(list0)));
    let values1: [&str; 13] = ["Pod", "Deployment", "Service", "ConfigMap", "Secret", "Namespace", "Ingress", "StatefulSet", "DaemonSet", "ReplicaSet", "Job", "CronJob", "PersistentVolumeClaim"];
    let list1 = string_list(&values1);
    assert(strings_view(list1@) =~= seq!["Pod"@, "Deployment"@, "Service"@, "ConfigMap"@, "Secret"@, "Namespace"@, "Ingress"@, "StatefulSet"@, "DaemonSet"@, "ReplicaSet"@, "Job"@, "CronJob"@, "PersistentVolumeClaim"@]);
    props.push(property("kind", PropertySchema::string().description("Resource kind (e.g., 'Pod', 'Deployment')").enum_values(list1)));
    props.push(property("name", PropertySchema::string().description("Resource name")));
    props.push(property("namespace", PropertySchema::string().description("Namespace (optional)")));
    props.push(property("gracePeriodSeconds", PropertySchema::integer().description("Grace period in seconds before deletion")));
    props.push(property("force", PropertySchema::boolean().description("Force immediate deletion (sets grace period to 0)").default(JsonValue::Bool(false))));
    let schema = schema.with_properties(props);
    let required: [&str; 3] = ["apiVersion", "kind", "name"];
    let req_list = string_list(&required);
    assert(strings_view(req_list@) =~= seq!["apiVersion"@, "kind"@, "name"@]);
    let schema = schema.with_required(req_list);
    Tool::new("resources_delete", "Delete a Kubernetes resource by name", schema)
}

/// The `resources_delete` tool.
pub struct DeleteResourceTool<C, D> {
    pub client: C,
    pub discovery: D,
}

impl<C, D> DeleteResourceTool<C, D> {
    /// The tool working through the given handles.
    pub fn new(client: C, discovery: D) -> (r: Self)
        ensures
            r.client == client && r.discovery == discovery,
    {
        DeleteResourceTool { client, discovery }
    }

    /// The tool's definition.
    pub fn definition(&self) -> (r: Tool)
        ensures
            is_resources_delete_tool(r),
    {
        resources_delete_definition()
    }

    /// Whether the tool changes the cluster.
    pub fn is_write_tool(&self) -> (r: bool)
        ensures
            r == true,
    {
        true
    }
}

/// The definition of the `pods_delete` tool.
pub open spec fn is_pods_delete_tool(t: Tool) -> bool {
    &&& t.name@ == "pods_delete"@
    &&& t.description@ == "Delete a Kubernetes Pod"@
    &&& t.input_schema.type_@ == "object"@
    &&& t.input_schema.properties matches Some(ps) && ps@.len() == 4
        && prop_matches(ps@[0], "name"@, "string"@, "Pod name"@, None, None, None)
        && prop_matches(ps@[1], "namespace"@, "string"@, "Namespace (optional)"@, None, None, None)
        && prop_matches(ps@[2], "gracePeriodSeconds"@, "integer"@, "Grace period in seconds"@, None, None, None)
        && prop_matches(ps@[3], "force"@, "boolean"@, "Force immediate deletion"@, None, None, Some(false))
    &&& t.input_schema.required matches Some(rq) && strings_view(rq@) == seq!["name"@]
}

/// The `pods_delete` tool: its name, description and input schema.
pub fn pods_delete_definition() -> (r: Tool)
    ensures
        is_pods_delete_tool(r),
{
    let schema = ToolInputSchema::object();
    let mut props: Vec<(String, PropertySchema)> = Vec::new();
    props.push(property("name", PropertySchema::string().description("Pod name")));
    props.push(property("namespace", PropertySchema::string().description("Namespace (optional)")));
    props.push(property("gracePeriodSeconds", PropertySchema::integer().description("Grace period in seconds")));
    props.push(property("force", PropertySchema::boolean().description("Force immediate deletion").default(JsonValue::Bool(false))));
    let schema = schema.with_properties(props);
    let required: [&str; 1] = ["name"];
    let req_list = string_list(&required);
    assert(strings_view(req_list@) =~= seq!["name"@]);
    let schema = schema.with_required(req_list);
    Tool::new("pods_delete", "Delete a Kubernetes Pod", schema)
}

/// The `pods_delete` tool.
pub struct PodsDeleteTool<C> {
    pub client: C,
}

impl<C> PodsDeleteTool<C> {
    /// The tool working through the given handles.
    pub fn new(client: C) -> (r: Self)
        ensures
            r.client == client,
    {
        PodsDeleteTool { client }
    }

    /// The tool's definition.
    pub fn definition(&self) -> (r: Tool)
        ensures
            is_pods_delete_tool(r),
    {
        pods_delete_definition()
    }

    /// Whether the tool changes the cluster.
    pub fn is_write_tool(&self) -> (r: bool)
        ensures
            r == true,
    {
        true
    }
}

/// The definition of the `deployments_delete` tool.
pub open spec fn is_deployments_delete_tool(t: Tool) -> bool {
    &&& t.name@ == "deployments_delete"@
    &&& t.description@ == "Delete a Kubernetes Deployment"@
    &&& t.input_schema.type_@ == "object"@
    &&& t.input_schema.properties matches Some(ps) && ps@.len() == 4
        && prop_matches(ps@[0], "name"@, "string"@, "Deployment name"@, None, None, None)
        && prop_matches(ps@[1], "namespace"@, "string"@, "Namespace (optional)"@, None, None, None)
        && prop_matches(ps@[2], "gracePeriodSeconds"@, "integer"@, "Grace period in seconds"@, None, None, None)
        && prop_matches(ps@[3], "force"@, "boolean"@, "Force immediate deletion"@, None, None, Some(false))
    &&& t.input_schema.required matches Some(rq) && strings_view(rq@) == seq!["name"@]
}

/// The `deployments_delete` tool: its name, description and input schema.
pub fn deployments_delete_definition() -> (r: Tool)
    ensures
        is_deployments_delete_tool(r),
{
    let schema = ToolInputSchema::object();
    let mut props: Vec<(String, PropertySchema)> = Vec::new();
    props.push(property("name", PropertySchema::string().description("Deployment name")));
    props.push(property("namespace", PropertySchema::string().description("Namespace (optional)")));
    props.push(property("gracePeriodSeconds", PropertySchema::integer().description("Grace period in seconds")));
    props.push(property("force", PropertySchema::boolean().description("Force immediate deletion").default(JsonValue::Bool(false))));
    let schema = schema.with_properties(props);
    let required: [&str; 1] = ["name"];
    let req_list = string_list(&required);
    assert(strings_view(req_list@) =~= seq!["name"@]);
    let schema = schema.with_required(req_list);
    Tool::new("deployments_delete", "Delete a Kubernetes Deployment", schema)
}

/// The `deployments_delete` tool.
pub struct DeploymentsDeleteTool<C> {
    pub client: C,
}

impl<C> DeploymentsDeleteTool<C> {
    /// The tool working through the given handles.
    pub fn new(client: C) -> (r: Self)
        ensures
            r.client == client,
    {
        DeploymentsDeleteTool { client }
    }

    /// The tool's definition.
    pub fn definition(&self) -> (r: Tool)
        ensures
            is_deployments_delete_tool(r),
    {
        deployments_delete_definition()
    }

    /// Whether the tool changes the cluster.
    pub fn is_write_tool(&self) -> (r: bool)
        ensures
            r == true,
    {
        true
    }
}

/// The definition of the `namespaces_delete` tool.
pub open spec fn is_namespaces_delete_tool(t: Tool) -> bool {
    &&& t.name@ == "namespaces_delete"@
    &&& t.description@ == "Delete a Kubernetes Namespace"@
    &&& t.input_schema.type_@ == "object"@
    &&& t.input_schema.properties matches Some(ps) && ps@.len() == 3
        && prop_matches(ps@[0], "name"@, "string"@, "Namespace name"@, None, None, None)
        && prop_matches(ps@[1], "gracePeriodSeconds"@, "integer"@, "Grace period in seconds"@, None, None, None)
        && prop_matches(ps@[2], "force"@, "boolean"@, "Force immediate deletion"@, None, None, Some(false))
    &&& t.input_schema.required matches Some(rq) && strings_view(rq@) == seq!["name"@]
}

/// The `namespaces_delete` tool: its name, description and input schema.
pub fn namespaces_delete_definition() -> (r: Tool)
    ensures
        is_namespaces_delete_tool(r),
{
    let schema = ToolInputSchema::object();
    let mut props: Vec<(String, PropertySchema)> = Vec::new();
    props.push(property("name", PropertySchema::string().description("Namespace name")));
    props.push(property("gracePeriodSeconds", PropertySchema::integer().description("Grace period in seconds")));
    props.push(property("force", PropertySchema::boolean().description("Force immediate deletion").default(JsonValue::Bool(false))));
    let schema = schema.with_properties(props);
    let required: [&str; 1] = ["name"];
    let req_list = string_list(&required);
    assert(strings_view(req_list@) =~= seq!["name"@]);
    let schema = schema.with_required(req_list);
    Tool::new("namespaces_delete", "Delete a Kubernetes Namespace", schema)
}

/// The `namespaces_delete` tool.
pub struct NamespacesDeleteTool<C> {
    pub client: C,
}

impl<C> NamespacesDeleteTool<C> {
    /// The tool working through the given handles.
    pub fn new(client: C) -> (r: Self)
        ensures
            r.client == client,
    {
        NamespacesDeleteTool { client }
    }

    /// The tool's definition.
    pub fn definition(&self) -> (r: Tool)
        ensures
            is_namespaces_delete_tool(r),
    {
        namespaces_delete_definition()
    }

    /// Whether the tool changes the cluster.
    pub fn is_write_tool(&self) -> (r: bool)
        ensures
            r == true,
    {
        true
    }
}

/// The definition of the `pods_log` tool.
pub open spec fn is_pods_log_tool(t: Tool) -> bool {
    &&& t.name@ == "pods_log"@
    &&& t.description@ == "Get logs from a Kubernetes Pod"@
    &&& t.input_schema.type_@ == "object"@
    &&& t.input_schema.properties matches Some(ps) && ps@.len() == 6
        && prop_matches(ps@[0], "name"@, "string"@, "Pod name"@, None, None, None)
        && prop_matches(ps@[1], "namespace"@, "string"@, "Namespace (optional)"@, None, None, None)
        && prop_matches(ps@[2], "container"@, "string"@, "Container name (optional, for multi-container pods)"@, None, None, None)
        && prop_matches(ps@[3], "tailLines"@, "integer"@, "Number of lines to show from the end of the logs"@, None, None, None)
        && prop_matches(ps@[4], "sinceSeconds"@, "integer"@, "Show logs since this many seconds ago"@, None, None, None)
        && prop_matches(ps@[5], "previous"@, "boolean"@, "Show previous terminated container logs"@, None, None, Some(false))
    &&& t.input_schema.required matches Some(rq) && strings_view(rq@) == seq!["name"@]
}

/// The `pods_log` tool: its name, description and input schema.
pub fn pods_log_definition() -> (r: Tool)
    ensures
        is_pods_log_tool(r),
{
    let schema = ToolInputSchema::object();
    let mut props: Vec<(String, PropertySchema)> = Vec::new();
    props.push(property("name", PropertySchema::string().description("Pod name")));
    props.push(property("namespace", PropertySchema::string().description("Namespace (optional)")));
    props.push(property("container", PropertySchema::string().description("Container name (optional, for multi-container pods)")));
    props.push(property("tailLines", PropertySchema::integer().description("Number of lines to show from the end of the logs")));
    props.push(property("sinceSeconds", PropertySchema::integer().description("Show logs since this many seconds ago")));
    props.push(property("previous", PropertySchema::boolean().description("Show previous terminated container logs").default(JsonValue::Bool(false))));
    let schema = schema.with_properties(props);
    let required: [&str; 1] = ["name"];
    let req_list = string_list(&required);
    assert(strings_view(req_list@) =~= seq!["name"@]);
    let schema = schema.with_required(req_list);
    Tool::new("pods_log", "Get logs from a Kubernetes Pod", schema)
}

/// The `pods_log` tool.
pub struct PodsLogsTool<C> {
    pub client: C,
}

impl<C> PodsLogsTool<C> {
    /// The tool working through the given handles.
    pub fn new(client: C) -> (r: Self)
        ensures
            r.client == client,
    {
        PodsLogsTool { client }
    }

    /// The tool's definition.
    pub fn definition(&self) -> (r: Tool)
        ensures
            is_pods_log_tool(r),
    {
        pods_log_definition()
    }

    /// Whether the tool changes the cluster.
    pub fn is_write_tool(&self) -> (r: bool)
        ensures
            r == false,
    {
        false
    }
}

/// The definition of the `events_list` tool.
pub open spec fn is_events_list_tool(t: Tool) -> bool {
    &&& t.name@ == "events_list"@
    &&& t.description@ == "List Kubernetes events"@
    &&& t.input_schema.type_@ == "object"@
    &&& t.input_schema.properties matches Some(ps) && ps@.len() == 3
        && prop_matches(ps@[0], "namespace"@, "string"@, "Namespace (optional, lists from all namespaces if not specified)"@, None, None, None)
        && prop_matches(ps@[1], "fieldSelector"@, "string"@, "Field selector (e.g., 'involvedObject.name=my-pod')"@, None, None, None)
        && prop_matches(ps@[2], "output"@, "string"@, "Output format"@, Some(seq!["table"@, "json"@, "yaml"@]), Some("table"@), None)
    &&& t.input_schema.required is None
}

/// The `events_list` tool: its name, description and input schema.
pub fn events_list_definition() -> (r: Tool)
    ensures
        is_events_list_tool(r),
{
    let schema = ToolInputSchema::object();
    let mut props: Vec<(String, PropertySchema)> = Vec::new();
    props.push(property("namespace", PropertySchema::string().description("Namespace (optional, lists from all namespaces if not specified)")));
    props.push(property("fieldSelector", PropertySchema::string().description("Field selector (e.g., 'involvedObject.name=my-pod')")));
    let values2: [&str; 3] = ["table", "json", "yaml"];
    let list2 = string_list(&values2);
    assert(strings_view(list2@) =~= seq!["table"@, "json"@, "yaml"@]);
    props.push(property("output", PropertySchema::string().description("Output format").enum_values(list2).default(JsonValue::String(owned("table")))));
    let schema = schema.with_properties(props);
    Tool::new("events_list", "List Kubernetes events", schema)
}

/// The `events_list` tool.
pub struct EventsListTool<C> {
    pub client: C,
}

impl<C> EventsListTool<C> {
    /// The tool working through the given handles.
    pub fn new(client: C) -> (r: Self)
        ensures
            r.client == client,
    {
        EventsListTool { client }
    }

    /// The tool's definition.
    pub fn definition(&self) -> (r: Tool)
        ensures
            is_events_list_tool(r),
    {
        events_list_definition()
    }

    /// Whether the tool changes the cluster.
    pub fn is_write_tool(&self) -> (r: bool)
        ensures
            r == false,
    {
        false
    }
}

/// The definition of the `top_nodes` tool.
pub open spec fn is_top_nodes_tool(t: Tool) -> bool {
    &&& t.name@ == "top_nodes"@
    &&& t.description@ == "Show resource usage (CPU/Memory) for nodes"@
    &&& t.input_schema.type_@ == "object"@
    &&& t.input_schema.properties matches Some(ps) && ps@.len() == 1
        && prop_matches(ps@[0], "labelSelector"@, "string"@, "Label selector"@, None, None, None)
    &&& t.input_schema.required is None
}

/// The `top_nodes` tool: its name, description and input schema.
pub fn top_nodes_definition() -> (r: Tool)
    ensures
        is_top_nodes_tool(r),
{
    let schema = ToolInputSchema::object();
    let mut props: Vec<(String, PropertySchema)> = Vec::new();
    props.push(property("labelSelector", PropertySchema::string().description("Label selector")));
    let schema = schema.with_properties(props);
    Tool::new("top_nodes", "Show resource usage (CPU/Memory) for nodes", schema)
}

/// The `top_nodes` tool.
pub struct TopNodesTool<C> {
    pub client: C,
}

impl<C> TopNodesTool<C> {
    /// The tool working through the given handles.
    pub fn new(client: C) -> (r: Self)
        ensures
            r.client == client,
    {
        TopNodesTool { client }
    }

    /// The tool's definition.
    pub fn definition(&self) -> (r: Tool)
        ensures
            is_top_nodes_tool(r),
    {
        top_nodes_definition()
    }

    /// Whether the tool changes the cluster.
    pub fn is_write_tool(&self) -> (r: bool)
        ensures
            r == false,
    {
        false
    }
}

/// The definition of the `top_pods` tool.
pub open spec fn is_top_pods_tool(t: Tool) -> bool {
    &&& t.name@ == "top_pods"@
    &&& t.description@ == "Show resource usage (CPU/Memory) for pods"@
    &&& t.input_schema.type_@ == "object"@
    &&& t.input_schema.properties matches Some(ps) && ps@.len() == 2
        && prop_matches(ps@[0], "namespace"@, "string"@, "Namespace (optional)"@, None, None, None)
        && prop_matches(ps@[1], "labelSelector"@, "string"@, "Label selector"@, None, None, None)
    &&& t.input_schema.required is None
}

/// The `top_pods` tool: its name, description and input schema.
pub fn top_pods_definition() -> (r: Tool)
    ensures
        is_top_pods_tool(r),
{
    let schema = ToolInputSchema::object();
    let mut props: Vec<(String, PropertySchema)> = Vec::new();
    props.push(property("namespace", PropertySchema::string().description("Namespace (optional)")));
    props.push(property("labelSelector", PropertySchema::string().description("Label selector")));
    let schema = schema.with_properties(props);
    Tool::new("top_pods", "Show resource usage (CPU/Memory) for pods", schema)
}

/// The `top_pods` tool.
pub struct TopPodsTool<C> {
    pub client: C,
}

impl<C> TopPodsTool<C> {
    /// The tool working through the given handles.
    pub fn new(client: C) -> (r: Self)
        ensures
            r.client == client,
    {
        TopPodsTool { client }
    }

    /// The tool's definition.
    pub fn definition(&self) -> (r: Tool)
        ensures
            is_top_pods_tool(r),
    {
        top_pods_definition()
    }

    /// Whether the tool changes the cluster.
    pub fn is_write_tool(&self) -> (r: bool)
        ensures
            r == false,
    {
        false
    }
}

/// The definition of the `contexts_list` tool.
pub open spec fn is_contexts_list_tool(t: Tool) -> bool {
    &&& t.name@ == "contexts_list"@
    &&& t.description@ == "List all contexts in the kubeconfig"@
    &&& t.input_schema.type_@ == "object"@
    &&& t.input_schema.properties is None
    &&& t.input_schema.required is None
}

/// The `contexts_list` tool: its name, description and input schema.
pub fn contexts_list_definition() -> (r: Tool)
    ensures
        is_contexts_list_tool(r),
{
    let schema = ToolInputSchema::object();
    Tool::new("contexts_list", "List all contexts in the kubeconfig", schema)
}

/// The `contexts_list` tool.
pub struct ContextsListTool {
    pub config: K8sConfig,
}

impl ContextsListTool {
    /// The tool working through the given handles.
    pub fn new(config: K8sConfig) -> (r: Self)
        ensures
            r.config == config,
    {
        ContextsListTool { config }
    }

    /// The tool's definition.
    pub fn definition(&self) -> (r: Tool)
        ensures
            is_contexts_list_tool(r),
    {
        contexts_list_definition()
    }

    /// Whether the tool changes the cluster.
    pub fn is_write_tool(&self) -> (r: bool)
        ensures
            r == false,
    {
        false
    }
}

/// The definition of the `context_current` tool.
pub open spec fn is_context_current_tool(t: Tool) -> bool {
    &&& t.name@ == "context_current"@
    &&& t.description@ == "Get the current Kubernetes context and default namespace"@
    &&& t.input_schema.type_@ == "object"@
    &&& t.input_schema.properties is None
    &&& t.input_schema.required is None
}

/// The `context_current` tool: its name, description and input schema.
pub fn context_current_definition() -> (r: Tool)
    ensures
        is_context_current_tool(r),
{
    let schema = ToolInputSchema::object();
    Tool::new("context_current", "Get the current Kubernetes context and default namespace", schema)
}

/// The `context_current` tool.
pub struct ContextCurrentTool<C> {
    pub client: C,
    pub config: K8sConfig,
}

impl<C> ContextCurrentTool<C> {
    /// The tool working through the given handles.
    pub fn new(client: C, config: K8sConfig) -> (r: Self)
        ensures
            r.client == client && r.config == config,
    {
        ContextCurrentTool { client, config }
    }

    /// The tool's definition.
    pub fn definition(&self) -> (r: Tool)
        ensures
            is_context_current_tool(r),
    {
        context_current_definition()
    }

    /// Whether the tool changes the cluster.
    pub fn is_write_tool(&self) -> (r: bool)
        ensures
            r == false,
    {
        false
    }
}

/// The definition of the `configuration_view` tool.
pub open spec fn is_configuration_view_tool(t: Tool) -> bool {
    &&& t.name@ == "configuration_view"@
    &&& t.description@ == "Get the current Kubernetes configuration content as a kubeconfig YAML"@
    &&& t.input_schema.type_@ == "object"@
    &&& t.input_schema.properties matches Some(ps) && ps@.len() == 1
        && prop_matches(ps@[0], "minified"@, "boolean"@, "Return a minified version of the configuration. If set to true, keeps only the current-context and the relevant pieces of the configuration for that context."@, None, None, Some(true))
    &&& t.input_schema.required is None
}

/// The `configuration_view` tool: its name, description and input schema.
pub fn configuration_view_definition() -> (r: Tool)
    ensures
        is_configuration_view_tool(r),
{
    let schema = ToolInputSchema::object();
    let mut props: Vec<(String, PropertySchema)> = Vec::new();
    props.push(property("minified", PropertySchema::boolean().description("Return a minified version of the configuration. If set to true, keeps only the current-context and the relevant pieces of the configuration for that context.").default(JsonValue::Bool(true))));
    let schema = schema.with_properties(props);
    Tool::new("configuration_view", "Get the current Kubernetes configuration content as a kubeconfig YAML", schema)
}

/// The `configuration_view` tool.
pub struct ConfigurationViewTool {
    pub config: K8sConfig,
}

impl ConfigurationViewTool {
    /// The tool working through the given handles.
    pub fn new(config: K8sConfig) -> (r: Self)
        ensures
            r.config == config,
    {
        ConfigurationViewTool { config }
    }

    /// The tool's definition.
    pub fn definition(&self) -> (r: Tool)
        ensures
            is_configuration_view_tool(r),
    {
        configuration_view_definition()
    }

    /// Whether the tool changes the cluster.
    pub fn is_write_tool(&self) -> (r: bool)
        ensures
            r == false,
    {
        false
    }
}

/// The definition of the `api_resources_list` tool.
pub open spec fn is_api_resources_list_tool(t: Tool) -> bool {
    &&& t.name@ == "api_resources_list"@
    &&& t.description@ == "List the API resources available in the cluster"@
    &&& t.input_schema.type_@ == "object"@
    &&& t.input_schema.properties matches Some(ps) && ps@.len() == 2
        && prop_matches(ps@[0], "apiGroup"@, "string"@, "Filter by API group (optional)"@, None, None, None)
        && prop_matches(ps@[1], "output"@, "string"@, "Output format"@, Some(seq!["table"@, "json"@, "yaml"@]), Some("table"@), None)
    &&& t.input_schema.required is None
}

/// The `api_resources_list` tool: its name, description and input schema.
pub fn api_resources_list_definition() -> (r: Tool)
    ensures
        is_api_resources_list_tool(r),
{
    let schema = ToolInputSchema::object();
    let mut props: Vec<(String, PropertySchema)> = Vec::new();
    props.push(property("apiGroup", PropertySchema::string().description("Filter by API group (optional)")));
    let values1: [&str; 3] = ["table", "json", "yaml"];
    let list1 = string_list(&values1);
    assert(strings_view(list1@) =~= seq!["table"@, "json"@, "yaml"@]);
    props.push(property("output", PropertySchema::string().description("Output format").enum_values(list1).default(JsonValue::String(owned("table")))));
    let schema = schema.with_properties(props);
    Tool::new("api_resources_list", "List the API resources available in the cluster", schema)
}

/// The `api_resources_list` tool.
pub struct ApiResourcesListTool<C, D> {
    pub client: C,
    pub discovery: D,
}

impl<C, D> ApiResourcesListTool<C, D> {
    /// The tool working through the given handles.
    pub fn new(client: C, discovery: D) -> (r: Self)
        ensures
            r.client == client && r.discovery == discovery,
    {
        ApiResourcesListTool { client, discovery }
    }

    /// The tool's definition.
    pub fn definition(&self) -> (r: Tool)
        ensures
            is_api_resources_list_tool(r),
    {
        api_resources_list_definition()
    }

    /// Whether the tool changes the cluster.
    pub fn is_write_tool(&self) -> (r: bool)
        ensures
            r == false,
    {
        false
    }
}

/// The definition of the `api_versions` tool.
pub open spec fn is_api_versions_tool(t: Tool) -> bool {
    &&& t.name@ == "api_versions"@
    &&& t.description@ == "List the API versions available in the cluster"@
    &&& t.input_schema.type_@ == "object"@
    &&& t.input_schema.properties is None
    &&& t.input_schema.required is None
}

/// The `api_versions` tool: its name, description and input schema.
pub fn api_versions_definition() -> (r: Tool)
    ensures
        is_api_versions_tool(r),
{
    let schema = ToolInputSchema::object();
    Tool::new("api_versions", "List the API versions available in the cluster", schema)
}

/// The `api_versions` tool.
pub struct ApiVersionsTool<C, D> {
    pub client: C,
    pub discovery: D,
}

impl<C, D> ApiVersionsTool<C, D> {
    /// The tool working through the given handles.
    pub fn new(client: C, discovery: D) -> (r: Self)
        ensures
            r.client == client && r.discovery == discovery,
    {
        ApiVersionsTool { client, discovery }
    }

    /// The tool's definition.
    pub fn definition(&self) -> (r: Tool)
        ensures
            is_api_versions_tool(r),
    {
        api_versions_definition()
    }

    /// Whether the tool changes the cluster.
    pub fn is_write_tool(&self) -> (r: bool)
        ensures
            r == false,
    {
        false
    }
}

/// The definition of the `kubernetes_version` tool.
pub open spec fn is_kubernetes_version_tool(t: Tool) -> bool {
    &&& t.name@ == "kubernetes_version"@
    &&& t.description@ == "Get the Kubernetes cluster version information"@
    &&& t.input_schema.type_@ == "object"@
    &&& t.input_schema.properties is None
    &&& t.input_schema.required is None
}

/// The `kubernetes_version` tool: its name, description and input schema.
pub fn kubernetes_version_definition() -> (r: Tool)
    ensures
        is_kubernetes_version_tool(r),
{
    let schema = ToolInputSchema::object();
    Tool::new("kubernetes_version", "Get the Kubernetes cluster version information", schema)
}

/// The `kubernetes_version` tool.
pub struct KubernetesVersionTool<C> {
    pub client: C,
}

impl<C> KubernetesVersionTool<C> {
    /// The tool working through the given handles.
    pub fn new(client: C) -> (r: Self)
        ensures
            r.client == client,
    {
        KubernetesVersionTool { client }
    }

    /// The tool's definition.
    pub fn definition(&self) -> (r: Tool)
        ensures
            is_kubernetes_version_tool(r),
    {
        kubernetes_version_definition()
    }

    /// Whether the tool changes the cluster.
    pub fn is_write_tool(&self) -> (r: bool)
        ensures
            r == false,
    {
        false
    }
}

} // verus!
