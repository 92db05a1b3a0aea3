//! Tool registry and helpers for reading tool arguments.

use crate::error::Error;
use crate::mcp::json::{find_member, json_bool, json_i64, json_str, member, JsonValue};
use crate::mcp::protocol::CallToolResult;
use crate::text::{concat2, owned, str_eq};
use vstd::prelude::*;

verus! {

/// The registered tools: each name with its handler, and the names
/// registered as write tools.
pub struct RegistryView<H> {
    pub tools: Seq<(Seq<char>, H)>,
    pub write_tools: Seq<Seq<char>>,
}

/// Position of the tool named `name`.
pub open spec fn tool_position<H>(tools: Seq<(Seq<char>, H)>, name: Seq<char>) -> Option<int>
    decreases tools.len(),
{
    if tools.len() == 0 {
        None
    } else if tools.last().0 == name {
        Some(tools.len() - 1)
    } else {
        tool_position(tools.drop_last(), name)
    }
}

/// The handler registered under `name`.
pub open spec fn tool_handler<H>(v: RegistryView<H>, name: Seq<char>) -> Option<H> {
    match tool_position(v.tools, name) {
        Some(i) => Some(v.tools[i].1),
        None => None,
    }
}

/// No two registered tools share a name.
pub open spec fn names_distinct<H>(tools: Seq<(Seq<char>, H)>) -> bool {
    forall|i: int, j: int| 0 <= i < j < tools.len() ==> tools[i].0 != tools[j].0
}

/// The registry after registering `handler` under `name`: a tool of the same
/// name is replaced, a new name is added, and a write tool's name is
/// appended to the write tools.
pub open spec fn registered<H>(v: RegistryView<H>, name: Seq<char>, is_write: bool, handler: H) -> RegistryView<H> {
    RegistryView {
        tools: match tool_position(v.tools, name) {
            Some(i) => v.tools.update(i, (name, handler)),
            None => v.tools.push((name, handler)),
        },
        write_tools: if is_write {
            v.write_tools.push(name)
        } else {
            v.write_tools
        },
    }
}

proof fn lemma_tool_position<H>(tools: Seq<(Seq<char>, H)>, name: Seq<char>)
    ensures
        match tool_position(tools, name) {
            Some(i) => 0 <= i < tools.len() && tools[i].0 == name,
            None => forall|j: int| 0 <= j < tools.len() ==> tools[j].0 != name,
        },
    decreases tools.len(),
{
    if tools.len() > 0 && tools.last().0 != name {
        let rest = tools.drop_last();
        lemma_tool_position(rest, name);
        assert forall|j: int| 0 <= j < rest.len() implies rest[j] == tools[j] by {}
        if let Some(i) = tool_position(rest, name) {
            assert(rest[i] == tools[i]);
        } else {
            assert forall|j: int| 0 <= j < tools.len() implies tools[j].0 != name by {
                if j < rest.len() {
                    assert(rest[j] == tools[j]);
                }
            }
        }
    }
}

/// Registry of MCP tools: handlers by name and the names of write tools.
pub struct ToolRegistry<H> {
    tools: Vec<(String, H)>,
    write_tools: Vec<String>,
}

impl<H> ToolRegistry<H> {
    /// The registered tools and write-tool names.
    pub closed spec fn view(&self) -> RegistryView<H> {
        RegistryView {
            tools: self.tools@.map_values(|e: (String, H)| (e.0@, e.1)),
            write_tools: self.write_tools@.map_values(|s: String| s@),
        }
    }

    /// No two registered tools share a name.
    pub open spec fn wf(&self) -> bool {
        names_distinct(self.view().tools)
    }

    /// An empty registry.
    pub fn new() -> (r: Self)
        ensures
            r.wf(),
            r.view().tools.len() == 0,
            r.view().write_tools.len() == 0,
    {
        ToolRegistry { tools: Vec::new(), write_tools: Vec::new() }
    }

    fn position(&self, name: &str) -> (r: Option<usize>)
        ensures
            match r {
                Some(i) => tool_position(self.view().tools, name@) == Some(i as int) && i < self.tools@.len(),
                None => tool_position(self.view().tools, name@) is None,
            },
    {
        let ghost v = self.view().tools;
        assert(v.subrange(0, v.len() as int) =~= v);
        proof {
            lemma_tool_position(v, name@);
        }
        let mut i = self.tools.len();
        while i > 0
            invariant
                i <= self.tools@.len(),
                v == self.view().tools,
                v.len() == self.tools@.len(),
                tool_position(v, name@) == tool_position(v.subrange(0, i as int), name@),
            decreases i,
        {
            let ghost w = v.subrange(0, i as int);
            assert(w.last() == v[i - 1]);
            assert(w.drop_last() =~= v.subrange(0, i - 1));
            assert(v[i - 1].0 == self.tools@[i - 1].0@);
            if str_eq(self.tools[i - 1].0.as_str(), name) {
                return Some(i - 1);
            }
            i = i - 1;
        }
        None
    }

    /// Registers `handler` under `name`, replacing a tool of the same name; a
    /// write tool's name is also recorded among the write tools.
    pub fn register(&mut self, name: String, is_write: bool, handler: H)
        requires
            old(self).wf(),
        ensures
            final(self).wf(),
            final(self).view() == registered(old(self).view(), name@, is_write, handler),
    {
        proof {
            law_register(self.view(), name@, is_write, handler);
        }
        let ghost before = self.view();
        let ghost n = name@;
        if is_write {
            self.write_tools.push(name.clone());
            assert(self.view().write_tools =~= before.write_tools.push(n));
        }
        match self.position(name.as_str()) {
            Some(i) => {
                self.tools.set(i, (name, handler));
                assert(self.view().tools =~= before.tools.update(i as int, (n, handler)));
            },
            None => {
                self.tools.push((name, handler));
                assert(self.view().tools =~= before.tools.push((n, handler)));
            },
        }
    }

    /// The handler registered under `name`.
    pub fn get(&self, name: &str) -> (r: Option<&H>)
        ensures
            match r {
                Some(h) => tool_handler(self.view(), name@) == Some(*h),
                None => tool_handler(self.view(), name@) is None,
            },
    {
        proof {
            lemma_tool_position(self.view().tools, name@);
        }
        match self.position(name) {
            Some(i) => {
                assert(self.view().tools[i as int].1 == self.tools@[i as int].1);
                Some(&self.tools[i].1)
            },
            None => None,
        }
    }

    /// The handler registered under `name`, or a tool error naming the
    /// unknown tool.
    pub fn lookup(&self, name: &str) -> (r: Result<&H, Error>)
        ensures
            match r {
                Ok(h) => tool_handler(self.view(), name@) == Some(*h),
                Err(e) => tool_handler(self.view(), name@) is None && (e matches Error::Tool(m) && m@
                    == "Unknown tool: "@ + name@),
            },
    {
        match self.get(name) {
            Some(h) => Ok(h),
            None => Err(Error::Tool(concat2("Unknown tool: ", name))),
        }
    }

    /// The handlers of all registered tools.
    pub fn handlers(&self) -> (r: Vec<&H>)
        ensures
            r@.len() == self.view().tools.len(),
            forall|i: int| 0 <= i < r@.len() ==> *r@[i] == self.view().tools[i].1,
    {
        let mut r: Vec<&H> = Vec::new();
        let mut i: usize = 0;
        while i < self.tools.len()
            invariant
                i <= self.tools@.len(),
                r@.len() == i,
                forall|j: int| 0 <= j < i ==> *r@[j] == self.tools@[j].1,
            decreases self.tools@.len() - i,
        {
            r.push(&self.tools[i].1);
            i = i + 1;
        }
        r
    }

    /// Whether `name` was registered as a write tool.
    pub fn is_write_tool(&self, name: &str) -> (r: bool)
        ensures
            r == self.view().write_tools.contains(name@),
    {
        let mut i: usize = 0;
        while i < self.write_tools.len()
            invariant
                i <= self.write_tools@.len(),
                forall|j: int| 0 <= j < i ==> self.write_tools@[j]@ != name@,
            decreases self.write_tools@.len() - i,
        {
            if str_eq(self.write_tools[i].as_str(), name) {
                assert(self.view().write_tools[i as int] == name@);
                return true;
            }
            i = i + 1;
        }
        assert forall|j: int| 0 <= j < self.view().write_tools.len() implies self.view().write_tools[j] != name@ by {
            assert(self.view().write_tools[j] == self.write_tools@[j]@);
        }
        false
    }

    /// The number of registered tools.
    pub fn len(&self) -> (r: usize)
        ensures
            r == self.view().tools.len(),
    {
        self.tools.len()
    }

    /// Whether no tool is registered.
    pub fn is_empty(&self) -> (r: bool)
        ensures
            r == (self.view().tools.len() == 0),
    {
        self.tools.len() == 0
    }
}

impl<H> Default for ToolRegistry<H> {
    fn default() -> (r: Self)
        ensures
            r.wf(),
            r.view().tools.len() == 0,
            r.view().write_tools.len() == 0,
    {
        Self::new()
    }
}

/// Registering keeps tool names distinct, and afterwards the name leads to
/// the new handler, is a write tool exactly when it was one before or the new
/// handler is, and the number of tools grows by one exactly for a new name.
pub proof fn law_register<H>(v: RegistryView<H>, name: Seq<char>, is_write: bool, handler: H)
    requires
        names_distinct(v.tools),
    ensures
        names_distinct(registered(v, name, is_write, handler).tools),
        tool_handler(registered(v, name, is_write, handler), name) == Some(handler),
        registered(v, name, is_write, handler).write_tools.contains(name) == (v.write_tools.contains(name)
            || is_write),
        registered(v, name, is_write, handler).tools.len() == v.tools.len() + if tool_position(v.tools, name) is Some {
            0int
        } else {
            1int
        },
{
    let r = registered(v, name, is_write, handler);
    lemma_tool_position(v.tools, name);
    lemma_tool_position(r.tools, name);
    if is_write {
        assert(r.write_tools.last() == name);
        assert forall|x: Seq<char>| #[trigger] v.write_tools.contains(x) implies r.write_tools.contains(x) by {
            let k = choose|k: int| 0 <= k < v.write_tools.len() && v.write_tools[k] == x;
            assert(r.write_tools[k] == x);
        }
        assert(r.write_tools.contains(name));
    }
    match tool_position(v.tools, name) {
        Some(i) => {
            assert(r.tools[i].0 == name);
            if let Some(p) = tool_position(r.tools, name) {
                assert(p == i);
            }
        },
        None => {
            let last = r.tools.len() - 1;
            assert(r.tools[last].0 == name);
            assert(r.tools.last().0 == name);
        },
    }
}

/// Registering leaves every other name's handler as it was.
pub proof fn law_register_other<H>(v: RegistryView<H>, name: Seq<char>, is_write: bool, handler: H, other: Seq<char>)
    requires
        names_distinct(v.tools),
        other != name,
    ensures
        tool_handler(registered(v, name, is_write, handler), other) == tool_handler(v, other),
{
    let r = registered(v, name, is_write, handler);
    lemma_tool_position(v.tools, name);
    lemma_tool_position(v.tools, other);
    lemma_tool_position(r.tools, other);
    match tool_position(v.tools, other) {
        Some(i) => {
            assert(r.tools[i] == v.tools[i]);
            if let Some(p) = tool_position(r.tools, other) {
                if p != i {
                    assert(r.tools[p] == v.tools[p]);
                }
            }
        },
        None => {
            if let Some(p) = tool_position(r.tools, other) {
                if p < v.tools.len() {
                    assert(r.tools[p] == v.tools[p]);
                }
            }
        },
    }
}

/// Whether the write flags agree with the handlers, `writes` telling whether
/// a handler changes the cluster: a name is a write tool exactly when it is
/// registered and its handler writes.
pub open spec fn flags_agree<H>(v: RegistryView<H>, writes: spec_fn(H) -> bool) -> bool {
    forall|n: Seq<char>|
        #![trigger v.write_tools.contains(n)]
        #![trigger tool_handler(v, n)]
        v.write_tools.contains(n) <==> (tool_handler(v, n) matches Some(h) && writes(h))
}

/// In the empty registry no name is a write tool and none is registered, so
/// the write flags agree with the handlers.
pub proof fn law_empty_flags_agree<H>(writes: spec_fn(H) -> bool)
    ensures
        flags_agree(RegistryView::<H> { tools: Seq::empty(), write_tools: Seq::empty() }, writes),
{
    let v = RegistryView::<H> { tools: Seq::empty(), write_tools: Seq::empty() };
    assert forall|n: Seq<char>| v.write_tools.contains(n) <==> (tool_handler(v, n) matches Some(h) && writes(h)) by {
        assert(tool_position(v.tools, n) is None);
    }
}

/// Registering a handler with its own write flag keeps the write flags in
/// agreement with the handlers, so that a name is a write tool exactly when
/// the handler that would run for it writes, unless a write tool is replaced
/// by one that does not write: its name stays among the write tools.
pub proof fn law_register_keeps_flags<H>(
    v: RegistryView<H>,
    name: Seq<char>,
    is_write: bool,
    handler: H,
    writes: spec_fn(H) -> bool,
)
    requires
        names_distinct(v.tools),
        flags_agree(v, writes),
        is_write == writes(handler),
        v.write_tools.contains(name) ==> is_write,
    ensures
        flags_agree(registered(v, name, is_write, handler), writes),
{
    let r = registered(v, name, is_write, handler);
    law_register(v, name, is_write, handler);
    assert forall|n: Seq<char>| r.write_tools.contains(n) <==> (tool_handler(r, n) matches Some(h) && writes(h)) by {
        if n != name {
            law_register_other(v, name, is_write, handler, n);
            if is_write {
                if r.write_tools.contains(n) {
                    let k = choose|k: int| 0 <= k < r.write_tools.len() && r.write_tools[k] == n;
                    assert(k < v.write_tools.len());
                    assert(v.write_tools[k] == n);
                }
                if v.write_tools.contains(n) {
                    let k = choose|k: int| 0 <= k < v.write_tools.len() && v.write_tools[k] == n;
                    assert(r.write_tools[k] == n);
                }
            }
        }
    }
}

// ---------------------------------------------------------------------------
// Arguments
// ---------------------------------------------------------------------------

/// The text of a string argument.
pub open spec fn string_arg(args: Seq<(String, JsonValue)>, name: Seq<char>) -> Option<Seq<char>> {
    match member(args, name) {
        Some(v) => json_str(v),
        None => None,
    }
}

/// The value of an integer argument that fits in `i64`.
pub open spec fn integer_arg(args: Seq<(String, JsonValue)>, name: Seq<char>) -> Option<i64> {
    match member(args, name) {
        Some(v) => json_i64(v),
        None => None,
    }
}

/// The value of a boolean argument.
pub open spec fn boolean_arg(args: Seq<(String, JsonValue)>, name: Seq<char>) -> Option<bool> {
    match member(args, name) {
        Some(v) => json_bool(v),
        None => None,
    }
}

/// The error for a missing required parameter.
pub open spec fn missing_parameter(e: Error, name: Seq<char>) -> bool {
    e matches Error::JsonRpc { code, message, data } && code == -32602 && data is None && message@
        == "Missing required parameter: "@ + name
}

/// A required string argument; an invalid-params error when it is absent or
/// not a string.
pub fn get_string_arg(args: &Vec<(String, JsonValue)>, name: &str) -> (r: Result<String, Error>)
    ensures
        match string_arg(args@, name@) {
            Some(s) => r matches Ok(v) && v@ == s,
            None => r matches Err(e) && missing_parameter(e, name@),
        },
{
    match get_optional_string_arg(args, name) {
        Some(s) => Ok(s),
        None => Err(Error::json_rpc_invalid_params(concat2("Missing required parameter: ", name))),
    }
}

/// An optional string argument.
pub fn get_optional_string_arg(args: &Vec<(String, JsonValue)>, name: &str) -> (r: Option<String>)
    ensures
        match string_arg(args@, name@) {
            Some(s) => r matches Some(v) && v@ == s,
            None => r is None,
        },
{
    match find_member(args, name) {
        Some(v) => match v.as_str() {
            Some(s) => Some(owned(s)),
            None => None,
        },
        None => None,
    }
}

/// A required integer argument; an invalid-params error when it is absent
/// or not an integer that fits in `i64`.
pub fn get_integer_arg(args: &Vec<(String, JsonValue)>, name: &str) -> (r: Result<i64, Error>)
    ensures
        match integer_arg(args@, name@) {
            Some(n) => r == Ok::<i64, Error>(n),
            None => r matches Err(e) && missing_parameter(e, name@),
        },
{
    match get_optional_integer_arg(args, name) {
        Some(n) => Ok(n),
        None => Err(Error::json_rpc_invalid_params(concat2("Missing required parameter: ", name))),
    }
}

/// An optional integer argument.
pub fn get_optional_integer_arg(args: &Vec<(String, JsonValue)>, name: &str) -> (r: Option<i64>)
    ensures
        r == integer_arg(args@, name@),
{
    match find_member(args, name) {
        Some(v) => v.as_i64(),
        None => None,
    }
}

/// A boolean argument, or `default` when it is absent or not a boolean.
pub fn get_boolean_arg(args: &Vec<(String, JsonValue)>, name: &str, default: bool) -> (r: bool)
    ensures
        r == match boolean_arg(args@, name@) {
            Some(b) => b,
            None => default,
        },
{
    match find_member(args, name) {
        Some(v) => match v.as_bool() {
            Some(b) => b,
            None => default,
        },
        None => default,
    }
}

/// A successful tool result holding one text.
pub fn text_result(text: &str) -> (r: CallToolResult)
    ensures
        crate::mcp::protocol::single_text(r.content@, text@),
        r.is_error == Some(false),
{
    CallToolResult::text(text)
}

/// An error tool result holding one text.
pub fn error_result(text: &str) -> (r: CallToolResult)
    ensures
        crate::mcp::protocol::single_text(r.content@, text@),
        r.is_error == Some(true),
{
    CallToolResult::error(text)
}

} // verus!
