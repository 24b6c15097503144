//! The tool router: which connection serves which tool, the merged tool
//! catalog, the live connections, and the system-prompt fragments that the
//! connections contributed.

use vstd::prelude::*;
use crate::llm::{Function, Tool};
use crate::mcp::{is_error_text_result, McpTool, McpToolCallResponse};
use crate::table::{
    distinct_keys, find_key, keys, lemma_find_key, lemma_find_key_prefix, lemma_upsert_distinct,
    lemma_upsert_value, upsert, value_of,
};
use crate::text::{concat, concat3, join, joined};

verus! {

/// The base system prompt where none is configured.
pub const DEFAULT_SYSTEM_PROMPT: &'static str =
    "You are a helpful AI assistant. Please respond to the user's request accurately and concisely.";

/// The base system prompt: the configured one, else the default.
pub open spec fn base_prompt(configured: Option<String>) -> Seq<char> {
    match configured {
        Some(p) => p@,
        None => DEFAULT_SYSTEM_PROMPT@,
    }
}

/// One route: a tool name and the connection that serves it.
#[derive(Debug, Clone)]
pub struct ToolRoute {
    pub tool: String,
    pub connection: String,
}

/// What to do with a tool call.
#[derive(Debug, Clone)]
pub enum Dispatch {
    /// Invoke the tool on this connection.
    Call { connection: String },
    /// Hand this result back without invoking anything.
    Reply(McpToolCallResponse),
}

pub open spec fn route_entries(v: Seq<ToolRoute>) -> Seq<(Seq<char>, Seq<char>)> {
    v.map_values(|r: ToolRoute| (r.tool@, r.connection@))
}

pub open spec fn catalog_entries(v: Seq<Tool>) -> Seq<(Seq<char>, Tool)> {
    v.map_values(|t: Tool| (t.function.name@, t))
}

pub open spec fn string_views(v: Seq<String>) -> Seq<Seq<char>> {
    v.map_values(|s: String| s@)
}

/// The route table after registering `names` for connection `c`, one after
/// another.
pub open spec fn with_routes(
    t: Seq<(Seq<char>, Seq<char>)>,
    names: Seq<Seq<char>>,
    c: Seq<char>,
) -> Seq<(Seq<char>, Seq<char>)>
    decreases names.len(),
{
    if names.len() == 0 {
        t
    } else {
        upsert(with_routes(t, names.drop_last(), c), names.last(), c)
    }
}

/// The catalog entry that a listed tool becomes.
pub open spec fn descriptor_of(tool: McpTool, d: Tool) -> bool {
    &&& d.tool_type@ == "function"@
    &&& d.function.name == tool.name
    &&& d.function.description == tool.description
    &&& d.function.parameters == tool.input_schema
}

/// The text of the result for a tool that no route names.
pub open spec fn unrouted_text(tool: Seq<char>, available: Seq<Seq<char>>) -> Seq<char> {
    "Error: no client mapping for tool '"@ + tool + "'; available: "@ + joined(available, ", "@)
}

/// The text of the result for a tool whose connection is gone.
pub open spec fn disconnected_text(connection: Seq<char>, tool: Seq<char>) -> Seq<char> {
    "Error: Client '"@ + connection + "' for tool '"@ + tool + "' is no longer available"@
}

/// The text of the result for a tool call that the transport failed.
pub open spec fn failed_call_text(reason: Seq<char>) -> Seq<char> {
    "Error: Tool execution failed: "@ + reason
}

/// What the router decides for a call of `tool`, given its route table and
/// live connections: the connection to call, or the error text to reply.
pub open spec fn dispatch_spec(
    table: Seq<(Seq<char>, Seq<char>)>,
    live: Seq<Seq<char>>,
    tool: Seq<char>,
) -> Result<Seq<char>, Seq<char>> {
    match value_of(table, tool) {
        None => Err(unrouted_text(tool, keys(table))),
        Some(c) => if live.contains(c) {
            Ok(c)
        } else {
            Err(disconnected_text(c, tool))
        },
    }
}

/// The last tool of `tools` named `n`.
pub open spec fn last_named(tools: Seq<McpTool>, n: Seq<char>) -> Option<McpTool>
    decreases tools.len(),
{
    if tools.len() == 0 {
        None
    } else if tools.last().name@ == n {
        Some(tools.last())
    } else {
        last_named(tools.drop_last(), n)
    }
}

pub open spec fn tool_names(tools: Seq<McpTool>) -> Seq<Seq<char>> {
    tools.map_values(|t: McpTool| t.name@)
}

/// After registering `names` for `c`, each of them routes to `c` and every
/// other name routes where it did.
pub proof fn lemma_with_routes_value(
    t: Seq<(Seq<char>, Seq<char>)>,
    names: Seq<Seq<char>>,
    c: Seq<char>,
    n: Seq<char>,
)
    ensures
        value_of(with_routes(t, names, c), n) == if names.contains(n) {
            Some(c)
        } else {
            value_of(t, n)
        },
    decreases names.len(),
{
    if names.len() > 0 {
        let prev = with_routes(t, names.drop_last(), c);
        lemma_with_routes_value(t, names.drop_last(), c, n);
        lemma_upsert_value(prev, names.last(), c, n);
        if n != names.last() {
            if names.contains(n) {
                let k = choose|k: int| 0 <= k < names.len() && names[k] == n;
                assert(names.drop_last()[k] == n);
            }
            if names.drop_last().contains(n) {
                let k = choose|k: int| 0 <= k < names.len() - 1 && names.drop_last()[k] == n;
                assert(names[k] == n);
            }
        } else {
            assert(names[names.len() - 1] == n);
        }
    }
}

/// Registering names keeps the route table's names distinct.
pub proof fn lemma_with_routes_distinct(
    t: Seq<(Seq<char>, Seq<char>)>,
    names: Seq<Seq<char>>,
    c: Seq<char>,
)
    requires
        distinct_keys(t),
    ensures
        distinct_keys(with_routes(t, names, c)),
    decreases names.len(),
{
    if names.len() > 0 {
        lemma_with_routes_distinct(t, names.drop_last(), c);
        lemma_upsert_distinct(with_routes(t, names.drop_last(), c), names.last(), c);
    }
}

/// Registering the same tool name from two connections, one after the
/// other, leaves exactly one route of that name, and it points at the
/// connection registered last.
pub proof fn lemma_last_registration_wins(
    t: Seq<(Seq<char>, Seq<char>)>,
    first_names: Seq<Seq<char>>,
    first: Seq<char>,
    second_names: Seq<Seq<char>>,
    second: Seq<char>,
    n: Seq<char>,
)
    requires
        distinct_keys(t),
        first_names.contains(n),
        second_names.contains(n),
    ensures
        value_of(with_routes(with_routes(t, first_names, first), second_names, second), n) == Some(
            second,
        ),
        exists|i: int|
            0 <= i < with_routes(with_routes(t, first_names, first), second_names, second).len()
                && #[trigger] with_routes(with_routes(t, first_names, first), second_names, second)[i]
                == (n, second),
        forall|i: int, j: int|
            0 <= i < with_routes(with_routes(t, first_names, first), second_names, second).len()
                && 0 <= j < with_routes(with_routes(t, first_names, first), second_names, second).len()
                && (#[trigger] with_routes(with_routes(t, first_names, first), second_names, second)[i]).0 == n
                && (#[trigger] with_routes(with_routes(t, first_names, first), second_names, second)[j]).0 == n
                ==> i == j,
{
    let t1 = with_routes(t, first_names, first);
    let t2 = with_routes(t1, second_names, second);
    lemma_with_routes_distinct(t, first_names, first);
    lemma_with_routes_distinct(t1, second_names, second);
    lemma_with_routes_value(t1, second_names, second, n);
    lemma_find_key(t2, n);
    let i = find_key(t2, n).unwrap();
    assert(t2[i] == (n, second));
}

/// What `resolve` may return for `tool` against route table `t`.
pub open spec fn resolves_to(t: Seq<(Seq<char>, Seq<char>)>, tool: Seq<char>, r: Option<String>) -> bool {
    match value_of(t, tool) {
        Some(c) => r is Some && r.unwrap()@ == c,
        None => r is None,
    }
}

/// Two resolutions of one name against one route table give the same
/// connection.
pub proof fn lemma_resolve_repeatable(
    t: Seq<(Seq<char>, Seq<char>)>,
    tool: Seq<char>,
    r1: Option<String>,
    r2: Option<String>,
)
    requires
        resolves_to(t, tool, r1),
        resolves_to(t, tool, r2),
    ensures
        r1 is Some <==> r2 is Some,
        r1 is Some ==> r1.unwrap()@ == r2.unwrap()@,
{
}

pub struct ToolRouter {
    routes: Vec<ToolRoute>,
    catalog: Vec<Tool>,
    connections: Vec<String>,
    prompts: Vec<String>,
}

impl ToolRouter {
    /// The routes, as (tool, connection) in registration order.
    pub closed spec fn route_table(&self) -> Seq<(Seq<char>, Seq<char>)> {
        route_entries(self.routes@)
    }

    /// The tool catalog, keyed by tool name.
    pub closed spec fn catalog(&self) -> Seq<(Seq<char>, Tool)> {
        catalog_entries(self.catalog@)
    }

    /// The connections that are still live.
    pub closed spec fn live(&self) -> Seq<Seq<char>> {
        string_views(self.connections@)
    }

    /// The system-prompt fragments, in discovery order.
    pub closed spec fn fragments(&self) -> Seq<Seq<char>> {
        string_views(self.prompts@)
    }

    /// Tool names are unique in the route table and in the catalog.
    pub open spec fn wf(&self) -> bool {
        distinct_keys(self.route_table()) && distinct_keys(self.catalog())
    }

    pub fn new() -> (r: Self)
        ensures
            r.wf(),
            r.route_table() == Seq::<(Seq<char>, Seq<char>)>::empty(),
            r.catalog() == Seq::<(Seq<char>, Tool)>::empty(),
            r.live() == Seq::<Seq<char>>::empty(),
            r.fragments() == Seq::<Seq<char>>::empty(),
    {
        let r = ToolRouter {
            routes: Vec::new(),
            catalog: Vec::new(),
            connections: Vec::new(),
            prompts: Vec::new(),
        };
        assert(r.route_table() =~= Seq::<(Seq<char>, Seq<char>)>::empty());
        assert(r.catalog() =~= Seq::<(Seq<char>, Tool)>::empty());
        assert(r.live() =~= Seq::<Seq<char>>::empty());
        assert(r.fragments() =~= Seq::<Seq<char>>::empty());
        r
    }

    fn route_position(&self, tool: &String) -> (r: Option<usize>)
        ensures
            match find_key(self.route_table(), tool@) {
                Some(i) => r is Some && r.unwrap() as int == i,
                None => r is None,
            },
    {
        let ghost t = self.route_table();
        let mut i: usize = self.routes.len();
        while i > 0
            invariant
                i <= self.routes@.len(),
                t == self.route_table(),
                t.len() == self.routes@.len(),
                forall|j: int| i <= j < t.len() ==> #[trigger] t[j].0 != tool@,
            decreases i,
        {
            if self.routes[i - 1].tool == *tool {
                proof {
                    lemma_find_key_prefix(t, tool@, i as int);
                    assert(t.subrange(0, i as int).last() == t[i - 1]);
                }
                return Some(i - 1);
            }
            i = i - 1;
        }
        proof {
            lemma_find_key_prefix(t, tool@, 0);
        }
        None
    }

    fn catalog_position(&self, tool: &String) -> (r: Option<usize>)
        ensures
            match find_key(self.catalog(), tool@) {
                Some(i) => r is Some && r.unwrap() as int == i,
                None => r is None,
            },
    {
        let ghost t = self.catalog();
        let mut i: usize = self.catalog.len();
        while i > 0
            invariant
                i <= self.catalog@.len(),
                t == self.catalog(),
                t.len() == self.catalog@.len(),
                forall|j: int| i <= j < t.len() ==> #[trigger] t[j].0 != tool@,
            decreases i,
        {
            if self.catalog[i - 1].function.name == *tool {
                proof {
                    lemma_find_key_prefix(t, tool@, i as int);
                    assert(t.subrange(0, i as int).last() == t[i - 1]);
                }
                return Some(i - 1);
            }
            i = i - 1;
        }
        proof {
            lemma_find_key_prefix(t, tool@, 0);
        }
        None
    }

    /// Routes `tool` to `connection`, replacing any route of the same name.
    pub fn add_route(&mut self, tool: String, connection: String)
        requires
            old(self).wf(),
        ensures
            final(self).wf(),
            final(self).route_table() == upsert(old(self).route_table(), tool@, connection@),
            final(self).catalog() == old(self).catalog(),
            final(self).live() == old(self).live(),
            final(self).fragments() == old(self).fragments(),
    {
        let ghost t = self.route_table();
        proof {
            lemma_upsert_distinct(t, tool@, connection@);
            lemma_find_key(t, tool@);
        }
        match self.route_position(&tool) {
            Some(i) => {
                self.routes.set(i, ToolRoute { tool, connection });
            },
            None => {
                self.routes.push(ToolRoute { tool, connection });
            },
        }
        assert(self.route_table() =~= upsert(t, tool@, connection@));
    }

    /// Puts `tool` in the catalog, replacing any entry of the same name.
    pub fn add_tool(&mut self, tool: Tool)
        requires
            old(self).wf(),
        ensures
            final(self).wf(),
            final(self).catalog() == upsert(old(self).catalog(), tool.function.name@, tool),
            final(self).route_table() == old(self).route_table(),
            final(self).live() == old(self).live(),
            final(self).fragments() == old(self).fragments(),
    {
        let ghost t = self.catalog();
        let ghost name = tool.function.name@;
        proof {
            lemma_upsert_distinct(t, name, tool);
            lemma_find_key(t, name);
        }
        match self.catalog_position(&tool.function.name) {
            Some(i) => {
                self.catalog.set(i, tool);
            },
            None => {
                self.catalog.push(tool);
            },
        }
        assert(self.catalog() =~= upsert(t, name, tool));
    }

    /// Whether `connection` is live.
    pub fn is_live(&self, connection: &String) -> (r: bool)
        ensures
            r == self.live().contains(connection@),
    {
        let ghost l = self.live();
        let mut i: usize = 0;
        while i < self.connections.len()
            invariant
                0 <= i <= self.connections@.len(),
                l == self.live(),
                l.len() == self.connections@.len(),
                forall|j: int| 0 <= j < i ==> l[j] != connection@,
            decreases self.connections@.len() - i,
        {
            assert(l[i as int] == self.connections@[i as int]@);
            if self.connections[i] == *connection {
                return true;
            }
            i = i + 1;
        }
        false
    }

    /// Records `connection` as live.
    pub fn add_connection(&mut self, connection: String)
        requires
            old(self).wf(),
        ensures
            final(self).wf(),
            final(self).live() == (if old(self).live().contains(connection@) {
                old(self).live()
            } else {
                old(self).live().push(connection@)
            }),
            final(self).route_table() == old(self).route_table(),
            final(self).catalog() == old(self).catalog(),
            final(self).fragments() == old(self).fragments(),
    {
        let ghost l = self.live();
        if !self.is_live(&connection) {
            self.connections.push(connection);
            assert(self.live() =~= l.push(connection@));
        }
    }

    /// Marks `connection` as gone; routes to it are kept and from now on
    /// answer with an error. Returns whether it was live.
    pub fn remove_connection(&mut self, connection: &str) -> (r: bool)
        requires
            old(self).wf(),
        ensures
            final(self).wf(),
            r == old(self).live().contains(connection@),
            !final(self).live().contains(connection@),
            forall|c: Seq<char>|
                c != connection@ ==> (#[trigger] final(self).live().contains(c)
                    == old(self).live().contains(c)),
            final(self).route_table() == old(self).route_table(),
            final(self).catalog() == old(self).catalog(),
            final(self).fragments() == old(self).fragments(),
    {
        let ghost l = self.live();
        let key = String::from_str(connection);
        let mut kept: Vec<String> = Vec::new();
        let mut found = false;
        let mut i: usize = 0;
        while i < self.connections.len()
            invariant
                0 <= i <= self.connections@.len(),
                l == string_views(self.connections@),
                key@ == connection@,
                found == exists|j: int| 0 <= j < i && l[j] == connection@,
                forall|c: Seq<char>|
                    #[trigger] string_views(kept@).contains(c) <==> (c != connection@ && exists|
                        j: int,
                    |
                        0 <= j < i && l[j] == c),
            decreases self.connections@.len() - i,
        {
            let ghost old_kept = kept@;
            let ghost before = string_views(kept@);
            assert(l[i as int] == self.connections@[i as int]@);
            if self.connections[i] == key {
                found = true;
            } else {
                kept.push(self.connections[i].clone());
            }
            proof {
                let after = string_views(kept@);
                assert forall|c: Seq<char>| #[trigger] after.contains(c) <==> (c
                    != connection@ && exists|j: int| 0 <= j < i + 1 && l[j] == c) by {
                    if after.contains(c) {
                        let k = choose|k: int| 0 <= k < after.len() && after[k] == c;
                        if k < before.len() {
                            assert(kept@[k] == old_kept[k]);
                            assert(before[k] == c);
                            assert(before.contains(c));
                        } else {
                            assert(l[i as int] == c);
                        }
                    }
                    if c != connection@ && exists|j: int| 0 <= j < i + 1 && l[j] == c {
                        let j = choose|j: int| 0 <= j < i + 1 && l[j] == c;
                        if j < i {
                            assert(before.contains(c));
                            let k = choose|k: int| 0 <= k < before.len() && before[k] == c;
                            assert(kept@[k] == old_kept[k]);
                            assert(after[k] == c);
                        } else {
                            assert(after[after.len() - 1] == c);
                        }
                    }
                }
            }
            i = i + 1;
        }
        self.connections = kept;
        found
    }

    /// Appends system-prompt fragments in the order given.
    pub fn add_prompts(&mut self, prompts: Vec<String>)
        requires
            old(self).wf(),
        ensures
            final(self).wf(),
            final(self).fragments() == old(self).fragments() + string_views(prompts@),
            final(self).route_table() == old(self).route_table(),
            final(self).catalog() == old(self).catalog(),
            final(self).live() == old(self).live(),
    {
        let ghost f = self.fragments();
        let mut prompts = prompts;
        let ghost p = string_views(prompts@);
        self.prompts.append(&mut prompts);
        assert(self.fragments() =~= f + p);
    }

    /// Registers the tools that `connection` lists: each routes to
    /// `connection` (a name already routed elsewhere is taken over) and
    /// enters the catalog, replacing an entry of the same name.
    pub fn register_tools(&mut self, connection: &String, tools: Vec<McpTool>)
        requires
            old(self).wf(),
        ensures
            final(self).wf(),
            final(self).route_table() == with_routes(
                old(self).route_table(),
                tool_names(tools@),
                connection@,
            ),
            forall|n: Seq<char>|
                match last_named(tools@, n) {
                    Some(t) => #[trigger] value_of(final(self).catalog(), n) is Some
                        && descriptor_of(t, value_of(final(self).catalog(), n).unwrap()),
                    None => value_of(final(self).catalog(), n) == value_of(
                        old(self).catalog(),
                        n,
                    ),
                },
            final(self).live() == old(self).live(),
            final(self).fragments() == old(self).fragments(),
    {
        let ghost all = tools@;
        let ghost t0 = self.route_table();
        let ghost c0 = self.catalog();
        let mut rest = tools;
        let ghost mut i: int = 0;
        while rest.len() > 0
            invariant
                self.wf(),
                0 <= i <= all.len(),
                rest@ == all.subrange(i, all.len() as int),
                self.route_table() == with_routes(
                    t0,
                    tool_names(all.subrange(0, i)),
                    connection@,
                ),
                forall|n: Seq<char>|
                    match last_named(all.subrange(0, i), n) {
                        Some(t) => #[trigger] value_of(self.catalog(), n) is Some
                            && descriptor_of(t, value_of(self.catalog(), n).unwrap()),
                        None => value_of(self.catalog(), n) == value_of(c0, n),
                    },
                self.live() == old(self).live(),
                self.fragments() == old(self).fragments(),
            decreases rest@.len(),
        {
            let tool = rest.remove(0);
            let ghost before = self.catalog();
            let ghost prefix = all.subrange(0, i);
            let ghost next = all.subrange(0, i + 1);
            assert(tool == all[i]);
            assert(next.drop_last() =~= prefix);
            assert(tool_names(next).drop_last() =~= tool_names(prefix));
            let ghost name = tool.name@;
            self.add_route(tool.name.clone(), connection.clone());
            let descriptor = Tool {
                tool_type: String::from_str("function"),
                function: Function {
                    name: tool.name,
                    description: tool.description,
                    parameters: tool.input_schema,
                },
            };
            proof {
                reveal_strlit("function");
            }
            self.add_tool(descriptor);
            proof {
                assert forall|n: Seq<char>|
                    match last_named(next, n) {
                        Some(t) => #[trigger] value_of(self.catalog(), n) is Some && descriptor_of(
                            t,
                            value_of(self.catalog(), n).unwrap(),
                        ),
                        None => value_of(self.catalog(), n) == value_of(c0, n),
                    } by {
                    lemma_upsert_value(before, name, descriptor, n);
                }
            }
            proof {
                i = i + 1;
            }
        }
        assert(all.subrange(0, all.len() as int) =~= all);
    }

    /// Registers a connection that completed discovery: its tools, its
    /// system-prompt fragments (appended in the order given), and the
    /// connection itself as live.
    pub fn register_connection(&mut self, connection: String, tools: Vec<McpTool>, prompts: Vec<String>)
        requires
            old(self).wf(),
        ensures
            final(self).wf(),
            final(self).route_table() == with_routes(
                old(self).route_table(),
                tool_names(tools@),
                connection@,
            ),
            forall|n: Seq<char>|
                match last_named(tools@, n) {
                    Some(t) => #[trigger] value_of(final(self).catalog(), n) is Some
                        && descriptor_of(t, value_of(final(self).catalog(), n).unwrap()),
                    None => value_of(final(self).catalog(), n) == value_of(
                        old(self).catalog(),
                        n,
                    ),
                },
            final(self).live().contains(connection@),
            forall|c: Seq<char>|
                c != connection@ ==> (#[trigger] final(self).live().contains(c)
                    == old(self).live().contains(c)),
            final(self).fragments() == old(self).fragments() + string_views(prompts@),
    {
        self.register_tools(&connection, tools);
        self.add_prompts(prompts);
        let ghost l = self.live();
        self.add_connection(connection);
        proof {
            if !l.contains(connection@) {
                assert(self.live()[l.len() as int] == connection@);
                assert forall|c: Seq<char>| c != connection@ implies (#[trigger] self.live().contains(c)
                    == l.contains(c)) by {
                    if self.live().contains(c) {
                        let k = choose|k: int| 0 <= k < self.live().len() && self.live()[k] == c;
                        assert(l[k] == c);
                    }
                    if l.contains(c) {
                        let k = choose|k: int| 0 <= k < l.len() && l[k] == c;
                        assert(self.live()[k] == c);
                    }
                }
            }
        }
    }

    /// The connection that serves `tool`, if any. It depends on the route
    /// table and the name alone.
    pub fn resolve(&self, tool: &str) -> (r: Option<String>)
        ensures
            resolves_to(self.route_table(), tool@, r),
    {
        let key = String::from_str(tool);
        proof {
            lemma_find_key(self.route_table(), tool@);
        }
        match self.route_position(&key) {
            Some(i) => {
                assert(key@ == tool@);
                assert(find_key(self.route_table(), tool@) == Some(i as int));
                assert(self.route_table()[i as int] == (
                    self.routes@[i as int].tool@,
                    self.routes@[i as int].connection@,
                ));
                Some(self.routes[i].connection.clone())
            },
            None => None,
        }
    }

    /// The routed tool names, in registration order.
    pub fn tool_names(&self) -> (r: Vec<String>)
        ensures
            string_views(r@) == keys(self.route_table()),
    {
        let mut r: Vec<String> = Vec::new();
        let mut i: usize = 0;
        while i < self.routes.len()
            invariant
                0 <= i <= self.routes@.len(),
                string_views(r@) == keys(self.route_table()).subrange(0, i as int),
            decreases self.routes@.len() - i,
        {
            let ghost prev = r@;
            r.push(self.routes[i].tool.clone());
            proof {
                assert(self.route_table()[i as int].0 == self.routes@[i as int].tool@);
                assert(string_views(r@) =~= string_views(prev).push(self.routes@[i as int].tool@));
                assert(string_views(r@) =~= keys(self.route_table()).subrange(0, i as int + 1));
            }
            i = i + 1;
        }
        assert(keys(self.route_table()).subrange(0, i as int) =~= keys(self.route_table()));
        r
    }

    /// What to do with a call of `tool`: call the connection that serves it,
    /// or, where no route names it or its connection is gone, reply with an
    /// error result that says so. Never fails.
    pub fn dispatch(&self, tool: &str) -> (r: Dispatch)
        ensures
            match dispatch_spec(self.route_table(), self.live(), tool@) {
                Ok(c) => r is Call && r->connection@ == c,
                Err(text) => r is Reply && is_error_text_result(r->Reply_0, text),
            },
    {
        proof {
            reveal_strlit("Error: no client mapping for tool '");
            reveal_strlit("'; available: ");
            reveal_strlit(", ");
            reveal_strlit("Error: Client '");
            reveal_strlit("' for tool '");
            reveal_strlit("' is no longer available");
        }
        match self.resolve(tool) {
            None => {
                let names = self.tool_names();
                let listed = join(&names, ", ");
                let mut text = concat3("Error: no client mapping for tool '", tool, "'; available: ");
                text.append(listed.as_str());
                Dispatch::Reply(McpToolCallResponse::error_text(text))
            },
            Some(c) => {
                if self.is_live(&c) {
                    Dispatch::Call { connection: c }
                } else {
                    let mut text = concat3("Error: Client '", c.as_str(), "' for tool '");
                    text.append(tool);
                    text.append("' is no longer available");
                    Dispatch::Reply(McpToolCallResponse::error_text(text))
                }
            },
        }
    }

    /// The error result for a tool call that the transport failed with
    /// `reason`.
    pub fn failed_call(reason: &str) -> (r: McpToolCallResponse)
        ensures
            is_error_text_result(r, failed_call_text(reason@)),
    {
        proof {
            reveal_strlit("Error: Tool execution failed: ");
        }
        McpToolCallResponse::error_text(concat("Error: Tool execution failed: ", reason))
    }

    /// The tool catalog offered to the language model.
    pub fn available_tools(&self) -> (r: &Vec<Tool>)
        ensures
            catalog_entries(r@) == self.catalog(),
    {
        &self.catalog
    }

    /// The routes, in registration order.
    pub fn routes(&self) -> (r: &Vec<ToolRoute>)
        ensures
            route_entries(r@) == self.route_table(),
    {
        &self.routes
    }

    /// The effective system prompt: `base`, then each discovered fragment in
    /// discovery order, separated by blank lines.
    pub fn system_prompt(&self, base: &str) -> (r: String)
        ensures
            r@ == joined(seq![base@] + self.fragments(), "\n\n"@),
    {
        let mut parts: Vec<String> = Vec::new();
        parts.push(String::from_str(base));
        let mut i: usize = 0;
        while i < self.prompts.len()
            invariant
                0 <= i <= self.prompts@.len(),
                string_views(parts@) == seq![base@] + self.fragments().subrange(0, i as int),
            decreases self.prompts@.len() - i,
        {
            let ghost prev = parts@;
            parts.push(self.prompts[i].clone());
            proof {
                assert(self.fragments()[i as int] == self.prompts@[i as int]@);
                assert(string_views(parts@) =~= string_views(prev).push(self.prompts@[i as int]@));
                assert(string_views(parts@) =~= seq![base@] + self.fragments().subrange(
                    0,
                    i as int + 1,
                ));
            }
            i = i + 1;
        }
        assert(self.fragments().subrange(0, i as int) =~= self.fragments());
        proof {
            reveal_strlit("\n\n");
        }
        join(&parts, "\n\n")
    }

    /// The effective system prompt for a configured base prompt, or the
    /// default one where none is configured (see `system_prompt`).
    pub fn prompt_for(&self, configured: &Option<String>) -> (r: String)
        ensures
            r@ == joined(seq![base_prompt(*configured)] + self.fragments(), "\n\n"@),
    {
        match configured {
            Some(p) => self.system_prompt(p.as_str()),
            None => self.system_prompt(DEFAULT_SYSTEM_PROMPT),
        }
    }
}

} // verus!
