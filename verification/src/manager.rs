//! The registry: the servers that are connected, each with its connection,
//! the tools it listed last and the health the last sweep found.

use vstd::prelude::*;
use crate::config::McpServerConfig;
use crate::connection::{
    call_tool_post, handshake_outcome, initialized, list_tools_post, listing_outcome, listing_view,
    notify_post, probe_post, shut_down, unit_view, ConnectionView, McpConnection,
};
use crate::error::{McpError, McpErrorView};
use crate::json::{Json, JsonDoc};
use crate::protocol::{empty_object_doc, outcome_view, tool_views};
use crate::transport::{transport_refusal, McpTransport};
use crate::types::{ServerHealth, ServerInfoView, ToolSchema, ToolSchemaView};

verus! {

/// One server of the registry, as mathematics.
pub struct EntryView {
    pub id: Seq<char>,
    pub connection: ConnectionView,
    /// The tools that the server listed last.
    pub tools: Seq<ToolSchemaView>,
    pub health: ServerHealth,
}

impl EntryView {
    /// The server with another connection.
    pub open spec fn with_connection(self, connection: ConnectionView) -> EntryView {
        EntryView { connection, ..self }
    }
}

/// No two servers of the table have the same id.
pub open spec fn distinct_ids(table: Seq<EntryView>) -> bool {
    forall|i: int, j: int| 0 <= i < j < table.len() ==> (#[trigger] table[i]).id != (#[trigger] table[j]).id
}

/// Whether `i` is where the server `id` stands in the table.
pub open spec fn stands_at(table: Seq<EntryView>, id: Seq<char>, i: int) -> bool {
    0 <= i < table.len() && table[i].id == id
}

/// Where the server `id` stands in the table, if it is there.
pub open spec fn position(table: Seq<EntryView>, id: Seq<char>) -> Option<int> {
    if exists|i: int| stands_at(table, id, i) {
        Some(choose|i: int| stands_at(table, id, i))
    } else {
        None
    }
}

/// The connection map: each server's connection by its id.
pub open spec fn connections(table: Seq<EntryView>) -> Map<Seq<char>, ConnectionView> {
    Map::new(
        |id: Seq<char>| position(table, id) is Some,
        |id: Seq<char>| table[position(table, id)->0].connection,
    )
}

/// The tool cache: each server's last listing by its id.
pub open spec fn tool_cache(table: Seq<EntryView>) -> Map<Seq<char>, Seq<ToolSchemaView>> {
    Map::new(
        |id: Seq<char>| position(table, id) is Some,
        |id: Seq<char>| table[position(table, id)->0].tools,
    )
}

/// The health map: each server's health by its id.
pub open spec fn health_map(table: Seq<EntryView>) -> Map<Seq<char>, ServerHealth> {
    Map::new(
        |id: Seq<char>| position(table, id) is Some,
        |id: Seq<char>| table[position(table, id)->0].health,
    )
}

/// The table with `entry` in it: in the place of the server with its id, or
/// behind the others where there was none.
pub open spec fn with_server(table: Seq<EntryView>, entry: EntryView) -> Seq<EntryView> {
    match position(table, entry.id) {
        Some(i) => table.update(i, entry),
        None => table.push(entry),
    }
}

/// The table without the server `id`.
pub open spec fn without_server(table: Seq<EntryView>, id: Seq<char>) -> Seq<EntryView> {
    match position(table, id) {
        Some(i) => table.remove(i),
        None => table,
    }
}

/// The ids of the table, in order.
pub open spec fn table_ids(table: Seq<EntryView>) -> Seq<Seq<char>> {
    table.map_values(|entry: EntryView| entry.id)
}

/// The tools of all servers, server by server in the order of the table.
pub open spec fn all_tools(table: Seq<EntryView>) -> Seq<ToolSchemaView>
    decreases table.len(),
{
    if table.len() == 0 {
        Seq::empty()
    } else {
        all_tools(table.drop_last()) + table.last().tools
    }
}

/// The first tool of a list that is named `name`.
pub open spec fn first_named(tools: Seq<ToolSchemaView>, name: Seq<char>) -> Option<ToolSchemaView>
    decreases tools.len(),
{
    if tools.len() == 0 {
        None
    } else if tools[0].name == name {
        Some(tools[0])
    } else {
        first_named(tools.drop_first(), name)
    }
}

/// The first server of the table that has a tool named `name`, with the first
/// such tool of its list.
pub open spec fn found_tool(table: Seq<EntryView>, name: Seq<char>) -> Option<(Seq<char>, ToolSchemaView)>
    decreases table.len(),
{
    if table.len() == 0 {
        None
    } else {
        match first_named(table[0].tools, name) {
            Some(tool) => Some((table[0].id, tool)),
            None => found_tool(table.drop_first(), name),
        }
    }
}

/// The table is as before but for the connection of the server at `i`.
pub open spec fn same_but_connection(pre: Seq<EntryView>, post: Seq<EntryView>, i: int) -> bool {
    &&& 0 <= i < pre.len()
    &&& post == pre.update(i, pre[i].with_connection(post[i].connection))
}

/// The connection of a server that was just connected: made for `config`,
/// taken through a handshake in which the transport opened, answered the
/// `initialize` request with `answer` and took the notification, and then
/// asked for its tools, to which the transport answered `listed`.
pub open spec fn connected(
    config: McpServerConfig,
    answer: Result<JsonDoc, McpErrorView>,
    listed: Result<JsonDoc, McpErrorView>,
) -> ConnectionView {
    initialized(ConnectionView::fresh(config), None, answer, None).0.requested(
        "tools/list"@,
        empty_object_doc(),
        listed,
    )
}

/// What `connect` owes. On success the table holds the server under the id
/// of `config`, ready, healthy and with the tools that it listed; a server
/// that stood there under that id is replaced. On failure the table is as
/// before. A transport that cannot be opened fails with its refusal.
pub open spec fn connect_post(
    pre: Seq<EntryView>,
    config: McpServerConfig,
    post: Seq<EntryView>,
    r: Result<(), McpErrorView>,
) -> bool {
    &&& transport_refusal(config.transport) matches Some(refusal) ==> r == Err::<(), McpErrorView>(
        refusal,
    )
    &&& match r {
        Ok(_) => exists|
            entry: EntryView,
            answer: Result<JsonDoc, McpErrorView>,
            listed: Result<JsonDoc, McpErrorView>,
        |
            #![trigger with_server(pre, entry), connected(config, answer, listed)]
            {
                &&& post == with_server(pre, entry)
                &&& entry.id == config.id@
                &&& entry.health is Healthy
                &&& handshake_outcome(answer) is Ok
                &&& entry.connection == connected(config, answer, listed)
                &&& listing_outcome(listed) == Ok::<Seq<ToolSchemaView>, McpErrorView>(entry.tools)
            },
        Err(_) => post == pre,
    }
}

/// What `call_tool` owes: an unknown server is reported and nothing changes;
/// a known one is called, and nothing but its connection changes.
pub open spec fn routed_call_post(
    pre: Seq<EntryView>,
    id: Seq<char>,
    name: Seq<char>,
    arguments: JsonDoc,
    post: Seq<EntryView>,
    r: Result<JsonDoc, McpErrorView>,
) -> bool {
    match position(pre, id) {
        None => post == pre && r == Err::<JsonDoc, McpErrorView>(McpErrorView::ServerNotFound(id)),
        Some(i) => same_but_connection(pre, post, i) && call_tool_post(
            pre[i].connection,
            name,
            arguments,
            post[i].connection,
            r,
        ),
    }
}

/// What `refresh_tools` owes: an unknown server is reported and nothing
/// changes; a known one is asked for its tools, and a listing that succeeds
/// takes the place of the cached one as a whole.
pub open spec fn refresh_post(
    pre: Seq<EntryView>,
    id: Seq<char>,
    post: Seq<EntryView>,
    r: Result<Seq<ToolSchemaView>, McpErrorView>,
) -> bool {
    match position(pre, id) {
        None => post == pre && r == Err::<Seq<ToolSchemaView>, McpErrorView>(
            McpErrorView::ServerNotFound(id),
        ),
        Some(i) => {
            &&& list_tools_post(pre[i].connection, post[i].connection, r)
            &&& post == pre.update(
                i,
                EntryView {
                    connection: post[i].connection,
                    tools: match r {
                        Ok(tools) => tools,
                        Err(_) => pre[i].tools,
                    },
                    ..pre[i]
                },
            )
        },
    }
}

/// What a broadcast of the sandbox state owes: every server was told, or
/// refused where it is not ready, and nothing but its connection changed.
/// `outcomes` gives what came of it, server by server.
pub open spec fn told(
    pre: Seq<EntryView>,
    enabled: bool,
    policy: Seq<char>,
    post: Seq<EntryView>,
    outcomes: Seq<Result<(), McpErrorView>>,
) -> bool {
    &&& post.len() == pre.len()
    &&& outcomes.len() == pre.len()
    &&& forall|i: int|
        0 <= i < pre.len() ==> {
            &&& (#[trigger] post[i]) == pre[i].with_connection(post[i].connection)
            &&& notify_post(pre[i].connection, enabled, policy, post[i].connection, outcomes[i])
        }
}

/// What `health_check` owes: every server was probed, and nothing but its
/// connection and its health changed.
pub open spec fn swept(pre: Seq<EntryView>, post: Seq<EntryView>) -> bool {
    &&& post.len() == pre.len()
    &&& forall|i: int|
        0 <= i < pre.len() ==> {
            &&& (#[trigger] post[i]).id == pre[i].id
            &&& post[i].tools == pre[i].tools
            &&& probe_post(pre[i].connection, post[i].connection, post[i].health)
        }
}

/// The three maps have the same ids.
pub proof fn lemma_maps_agree(table: Seq<EntryView>)
    ensures
        tool_cache(table).dom() == connections(table).dom(),
        health_map(table).dom() == connections(table).dom(),
{
}

/// A server that is put in the place of one with the same id keeps the ids
/// distinct.
pub proof fn lemma_update_keeps_ids(table: Seq<EntryView>, i: int, entry: EntryView)
    requires
        distinct_ids(table),
        0 <= i < table.len(),
        entry.id == table[i].id,
    ensures
        distinct_ids(table.update(i, entry)),
{
}

/// Putting a server in keeps the ids distinct.
pub proof fn lemma_with_server_distinct(table: Seq<EntryView>, entry: EntryView)
    requires
        distinct_ids(table),
    ensures
        distinct_ids(with_server(table, entry)),
{
    if position(table, entry.id) is None {
        assert forall|i: int| 0 <= i < table.len() implies (#[trigger] table[i]).id != entry.id by {
            assert(!stands_at(table, entry.id, i));
        }
    }
}

/// Taking a server out keeps the ids distinct, and the server is gone from
/// the table: a server id stands for at most one server at any time.
pub proof fn lemma_without_server(table: Seq<EntryView>, id: Seq<char>)
    requires
        distinct_ids(table),
    ensures
        distinct_ids(without_server(table, id)),
        position(without_server(table, id), id) is None,
{
    let post = without_server(table, id);
    assert forall|i: int| !stands_at(post, id, i) by {
        if let Some(p) = position(table, id) {
            if 0 <= i < post.len() {
                assert(post[i] == table[if i < p { i } else { i + 1 }]);
            }
        }
    }
}

/// A server that was connected and then disconnected is in none of the three
/// maps.
pub proof fn lemma_connect_then_disconnect(table: Seq<EntryView>, entry: EntryView)
    requires
        distinct_ids(table),
    ensures
        !connections(without_server(with_server(table, entry), entry.id)).dom().contains(entry.id),
        !tool_cache(without_server(with_server(table, entry), entry.id)).dom().contains(entry.id),
        !health_map(without_server(with_server(table, entry), entry.id)).dom().contains(entry.id),
{
    lemma_with_server_distinct(table, entry);
}

/// Disconnecting a server that is not in the table changes nothing, so a
/// second disconnect is the same as the first.
pub proof fn lemma_disconnect_twice(table: Seq<EntryView>, id: Seq<char>)
    requires
        distinct_ids(table),
    ensures
        position(table, id) is None ==> without_server(table, id) == table,
        without_server(without_server(table, id), id) == without_server(table, id),
{
}

/// The server that `found_tool` names is in the connection map, and the tool
/// is one of those cached for it, with the name that was asked for.
pub proof fn lemma_found_tool_is_connected(table: Seq<EntryView>, name: Seq<char>)
    requires
        distinct_ids(table),
    ensures
        found_tool(table, name) matches Some((id, tool)) ==> {
            &&& connections(table).dom().contains(id)
            &&& tool_cache(table)[id].contains(tool)
            &&& tool.name == name
        },
    decreases table.len(),
{
    if table.len() > 0 {
        if first_named(table[0].tools, name) is Some {
            lemma_first_named(table[0].tools, name);
            assert(stands_at(table, table[0].id, 0));
        } else {
            let rest = table.drop_first();
            assert(distinct_ids(rest)) by {
                assert forall|i: int, j: int| 0 <= i < j < rest.len() implies (#[trigger] rest[i]).id
                    != (#[trigger] rest[j]).id by {
                    assert(rest[i] == table[i + 1] && rest[j] == table[j + 1]);
                }
            }
            lemma_found_tool_is_connected(rest, name);
            if let Some((id, tool)) = found_tool(rest, name) {
                let p = position(rest, id)->0;
                assert(stands_at(table, id, p + 1));
            }
        }
    }
}

/// What `first_named` gives is in the list and has the name.
pub proof fn lemma_first_named(tools: Seq<ToolSchemaView>, name: Seq<char>)
    ensures
        first_named(tools, name) matches Some(tool) ==> tools.contains(tool) && tool.name == name,
        first_named(tools, name) is None ==> forall|k: int|
            0 <= k < tools.len() ==> (#[trigger] tools[k]).name != name,
    decreases tools.len(),
{
    if tools.len() > 0 && tools[0].name != name {
        let rest = tools.drop_first();
        lemma_first_named(rest, name);
        if let Some(tool) = first_named(rest, name) {
            let k = choose|k: int| 0 <= k < rest.len() && rest[k] == tool;
            assert(tools[k + 1] == tool);
        } else {
            assert forall|k: int| 0 <= k < tools.len() implies (#[trigger] tools[k]).name != name by {
                if k > 0 {
                    assert(rest[k - 1] == tools[k]);
                }
            }
        }
    }
}

/// One server of the registry.
struct ServerEntry<T: McpTransport> {
    id: String,
    connection: McpConnection<T>,
    tools: Vec<ToolSchema>,
    health: ServerHealth,
}

impl<T: McpTransport> View for ServerEntry<T> {
    type V = EntryView;

    closed spec fn view(&self) -> EntryView {
        EntryView {
            id: self.id@,
            connection: self.connection@,
            tools: tool_views(self.tools@),
            health: self.health,
        }
    }
}

/// The registry of connected servers.
pub struct McpManager<T: McpTransport> {
    entries: Vec<ServerEntry<T>>,
    /// The connections that were taken out, as they were shut down.
    retired: Ghost<Seq<ConnectionView>>,
}

impl<T: McpTransport> View for McpManager<T> {
    type V = Seq<EntryView>;

    closed spec fn view(&self) -> Seq<EntryView> {
        self.entries@.map_values(|entry: ServerEntry<T>| entry@)
    }
}

impl<T: McpTransport> Default for McpManager<T> {
    fn default() -> (manager: Self)
        ensures
            manager.wf(),
            manager@ == Seq::<EntryView>::empty(),
            manager.retired() == Seq::<ConnectionView>::empty(),
    {
        McpManager::new()
    }
}

/// A copy of a list of tools.
fn clone_tools(tools: &Vec<ToolSchema>) -> (copy: Vec<ToolSchema>)
    ensures
        tool_views(copy@) == tool_views(tools@),
{
    let mut copy: Vec<ToolSchema> = Vec::new();
    let mut i: usize = 0;
    while i < tools.len()
        invariant
            i <= tools.len(),
            copy.len() == i,
            forall|k: int| 0 <= k < i ==> (#[trigger] copy[k])@ == tools[k]@,
        decreases tools.len() - i,
    {
        copy.push(tools[i].clone());
        i = i + 1;
    }
    copy
}

impl<T: McpTransport> McpManager<T> {
    /// A server id stands for at most one server of the registry.
    pub open spec fn wf(&self) -> bool {
        distinct_ids(self@)
    }

    /// The connections that `disconnect` took out of the registry, each as
    /// it was after its shutdown, in the order in which they were taken out.
    pub closed spec fn retired(&self) -> Seq<ConnectionView> {
        self.retired@
    }

    /// A registry without servers.
    pub fn new() -> (manager: Self)
        ensures
            manager.wf(),
            manager@ == Seq::<EntryView>::empty(),
            manager.retired() == Seq::<ConnectionView>::empty(),
    {
        McpManager { entries: Vec::new(), retired: Ghost(Seq::empty()) }
    }

    /// Where the server `id` stands.
    fn find(&self, id: &str) -> (r: Option<usize>)
        requires
            self.wf(),
        ensures
            match r {
                Some(i) => stands_at(self@, id@, i as int) && position(self@, id@) == Some(i as int),
                None => position(self@, id@) is None,
            },
    {
        let wanted = id.to_owned();
        let mut i: usize = 0;
        while i < self.entries.len()
            invariant
                i <= self.entries.len(),
                self@.len() == self.entries.len(),
                wanted@ == id@,
                distinct_ids(self@),
                forall|k: int| 0 <= k < i ==> !stands_at(self@, id@, k),
            decreases self.entries.len() - i,
        {
            if self.entries[i].id == wanted {
                proof {
                    assert(stands_at(self@, id@, i as int));
                }
                return Some(i);
            }
            i = i + 1;
        }
        None
    }

    /// Connects to the server of `config`, asks for its tools, and puts it
    /// into the registry.
    pub fn connect(&mut self, config: McpServerConfig) -> (r: Result<(), McpError>)
        requires
            old(self).wf(),
        ensures
            final(self).wf(),
            final(self).retired() == old(self).retired(),
            connect_post(old(self)@, config, final(self)@, unit_view(r)),
            r is Ok ==> {
                &&& connections(final(self)@).dom().contains(config.id@)
                &&& tool_cache(final(self)@).dom().contains(config.id@)
                &&& health_map(final(self)@).dom().contains(config.id@)
                &&& connections(final(self)@)[config.id@].state is Ready
                &&& health_map(final(self)@)[config.id@] is Healthy
            },
    {
        let id = config.id.clone();
        let mut connection = match McpConnection::<T>::new(config) {
            Ok(connection) => connection,
            Err(e) => {
                return Err(e);
            },
        };
        let shaken = connection.initialize();
        let ghost greeted = connection@;
        let ghost outcome = outcome_view(shaken);
        match shaken {
            Ok(_) => {},
            Err(e) => {
                return Err(e);
            },
        }
        let tools = match connection.list_tools() {
            Ok(tools) => tools,
            Err(e) => {
                return Err(e);
            },
        };
        let entry = ServerEntry { id, connection, tools, health: ServerHealth::Healthy };
        let ghost added = entry@;
        proof {
            let (opened, answer, ack) = choose|
                opened: Option<McpErrorView>,
                answer: Result<JsonDoc, McpErrorView>,
                ack: Option<McpErrorView>,
            | #[trigger] initialized(ConnectionView::fresh(config), opened, answer, ack) == (greeted, outcome);
            assert(added.connection == connected(config, answer, added.connection.last_reply()));
            lemma_with_server_distinct(self@, added);
        }
        match self.find(entry.id.as_str()) {
            Some(i) => {
                self.entries.set(i, entry);
                proof {
                    assert(self@ =~= with_server(old(self)@, added));
                    assert(stands_at(self@, added.id, i as int));
                }
            },
            None => {
                self.entries.push(entry);
                proof {
                    assert(self@ =~= with_server(old(self)@, added));
                    assert(stands_at(self@, added.id, self@.len() - 1));
                }
            },
        }
        Ok(())
    }

    /// Takes the server `id` out of the registry and shuts its connection
    /// down. It never fails: a server that is not there is left alone, and a
    /// transport that does not close is let go. The connection that was
    /// taken out is recorded as it was after its shutdown.
    pub fn disconnect(&mut self, server_id: &str) -> (r: Result<(), McpError>)
        requires
            old(self).wf(),
        ensures
            final(self).wf(),
            r is Ok,
            final(self)@ == without_server(old(self)@, server_id@),
            !connections(final(self)@).dom().contains(server_id@),
            !tool_cache(final(self)@).dom().contains(server_id@),
            !health_map(final(self)@).dom().contains(server_id@),
            match position(old(self)@, server_id@) {
                Some(i) => {
                    &&& final(self).retired() == old(self).retired().push(final(self).retired().last())
                    &&& shut_down(old(self)@[i].connection, final(self).retired().last())
                },
                None => final(self).retired() == old(self).retired(),
            },
    {
        match self.find(server_id) {
            Some(i) => {
                let entry = self.entries.remove(i);
                proof {
                    assert(self@ =~= without_server(old(self)@, server_id@));
                }
                let mut connection = entry.connection;
                let _ = connection.shutdown();
                self.retired = Ghost(self.retired@.push(connection@));
            },
            None => {},
        }
        Ok(())
    }

    /// The connection of the server `id`.
    pub fn get_connection(&self, server_id: &str) -> (r: Option<&McpConnection<T>>)
        requires
            self.wf(),
        ensures
            match r {
                Some(connection) => connections(self@).dom().contains(server_id@) && connection@
                    == connections(self@)[server_id@],
                None => !connections(self@).dom().contains(server_id@),
            },
    {
        match self.find(server_id) {
            Some(i) => Some(&self.entries[i].connection),
            None => None,
        }
    }

    /// The connection of the server `id`, to use or to shut down. Whatever is
    /// done to it, the server keeps its place, its tools and its health.
    pub fn get_connection_mut(&mut self, server_id: &str) -> (r: Option<&mut McpConnection<T>>)
        requires
            old(self).wf(),
        ensures
            final(self).wf(),
            final(self).retired() == old(self).retired(),
            match r {
                Some(connection) => position(old(self)@, server_id@) matches Some(i) && connection@
                    == old(self)@[i].connection && final(self)@ == old(self)@.update(
                    i,
                    old(self)@[i].with_connection(final(connection)@),
                ),
                None => position(old(self)@, server_id@) is None && final(self)@ == old(self)@,
            },
    {
        match self.find(server_id) {
            Some(i) => {
                proof {
                    let table = self@;
                    assert forall|connection: ConnectionView|
                        distinct_ids(
                            #[trigger] table.update(
                                i as int,
                                table[i as int].with_connection(connection),
                            ),
                        ) by {
                        lemma_update_keeps_ids(
                            table,
                            i as int,
                            table[i as int].with_connection(connection),
                        );
                    }
                }
                let ghost table = self@;
                let connection = &mut self.entries[i].connection;
                proof {
                    assert(after_borrow(*self)@ =~= table.update(
                        i as int,
                        table[i as int].with_connection(final(connection)@),
                    ));
                }
                Some(connection)
            },
            None => None,
        }
    }

    /// The ids of the servers, in the order of the table.
    pub fn server_ids(&self) -> (ids: Vec<String>)
        requires
            self.wf(),
        ensures
            ids.len() == self@.len(),
            ids@.map_values(|id: String| id@) == table_ids(self@),
    {
        let mut ids: Vec<String> = Vec::new();
        let mut i: usize = 0;
        while i < self.entries.len()
            invariant
                i <= self.entries.len(),
                self@.len() == self.entries.len(),
                ids.len() == i,
                forall|k: int| 0 <= k < i ==> (#[trigger] ids[k])@ == self@[k].id,
            decreases self.entries.len() - i,
        {
            ids.push(self.entries[i].id.clone());
            i = i + 1;
        }
        ids
    }

    /// The tools of all servers.
    pub fn list_tools(&self) -> (tools: Vec<ToolSchema>)
        requires
            self.wf(),
        ensures
            tool_views(tools@) == all_tools(self@),
    {
        let mut tools: Vec<ToolSchema> = Vec::new();
        let mut i: usize = 0;
        while i < self.entries.len()
            invariant
                i <= self.entries.len(),
                self@.len() == self.entries.len(),
                tool_views(tools@) == all_tools(self@.take(i as int)),
            decreases self.entries.len() - i,
        {
            let listed = &self.entries[i].tools;
            let ghost before = tools@;
            let mut k: usize = 0;
            while k < listed.len()
                invariant
                    k <= listed.len(),
                    tool_views(tools@) == tool_views(before) + tool_views(listed@).take(k as int),
                decreases listed.len() - k,
            {
                let ghost sofar = tools@;
                tools.push(listed[k].clone());
                proof {
                    assert(tool_views(tools@) =~= tool_views(sofar).push(listed[k as int]@));
                    assert(tool_views(listed@).take(k as int + 1) =~= tool_views(listed@).take(
                        k as int,
                    ).push(listed[k as int]@));
                }
                k = k + 1;
            }
            proof {
                let upto = self@.take(i as int + 1);
                assert(upto.drop_last() =~= self@.take(i as int));
            }
            i = i + 1;
        }
        proof {
            assert(self@.take(self.entries.len() as int) =~= self@);
        }
        tools
    }

    /// The tools that the server `id` listed last, and none where the
    /// server is not in the registry.
    pub fn list_server_tools(&self, server_id: &str) -> (tools: Vec<ToolSchema>)
        requires
            self.wf(),
        ensures
            tool_views(tools@) == if tool_cache(self@).dom().contains(server_id@) {
                tool_cache(self@)[server_id@]
            } else {
                Seq::<ToolSchemaView>::empty()
            },
    {
        match self.find(server_id) {
            Some(i) => clone_tools(&self.entries[i].tools),
            None => Vec::new(),
        }
    }

    /// The first server that has a tool named `name`, with that tool. The
    /// server is one of the connection map.
    pub fn find_tool(&self, name: &str) -> (r: Option<(String, ToolSchema)>)
        requires
            self.wf(),
        ensures
            match r {
                Some((id, tool)) => found_tool(self@, name@) == Some((id@, tool@))
                    && connections(self@).dom().contains(id@) && tool@.name == name@,
                None => found_tool(self@, name@) is None,
            },
    {
        proof {
            lemma_found_tool_is_connected(self@, name@);
            assert(self@.skip(0) =~= self@);
        }
        let wanted = name.to_owned();
        let mut i: usize = 0;
        while i < self.entries.len()
            invariant
                i <= self.entries.len(),
                wanted@ == name@,
                self@.len() == self.entries.len(),
                found_tool(self@, name@) == found_tool(self@.skip(i as int), name@),
                found_tool(self@, name@) matches Some((id, tool)) ==> connections(self@).dom().contains(id)
                    && tool.name == name@,
            decreases self.entries.len() - i,
        {
            let listed = &self.entries[i].tools;
            let ghost views = tool_views(listed@);
            let mut k: usize = 0;
            proof {
                assert(views.skip(0) =~= views);
            }
            while k < listed.len()
                invariant
                    k <= listed.len(),
                    wanted@ == name@,
                    i < self.entries.len(),
                    self@.len() == self.entries.len(),
                    *listed == self.entries[i as int].tools,
                    views == tool_views(listed@),
                    self@[i as int].tools == views,
                    self@.skip(i as int).len() > 0,
                    self@.skip(i as int)[0] == self@[i as int],
                    found_tool(self@, name@) == found_tool(self@.skip(i as int), name@),
                    found_tool(self@, name@) matches Some((id, tool)) ==> connections(self@).dom().contains(id)
                        && tool.name == name@,
                    first_named(views, name@) == first_named(views.skip(k as int), name@),
                decreases listed.len() - k,
            {
                proof {
                    assert(views.skip(k as int).drop_first() =~= views.skip(k as int + 1));
                }
                if listed[k].name == wanted {
                    return Some((self.entries[i].id.clone(), listed[k].clone()));
                }
                k = k + 1;
            }
            proof {
                assert(self@.skip(i as int).drop_first() =~= self@.skip(i as int + 1));
            }
            i = i + 1;
        }
        None
    }

    /// Calls the tool `tool_name` of the server `server_id`.
    pub fn call_tool(&mut self, server_id: &str, tool_name: &str, arguments: Json) -> (r: Result<
        Json,
        McpError,
    >)
        requires
            old(self).wf(),
        ensures
            final(self).wf(),
            final(self).retired() == old(self).retired(),
            routed_call_post(old(self)@, server_id@, tool_name@, arguments@, final(self)@, outcome_view(r)),
    {
        match self.find(server_id) {
            Some(i) => {
                let r = self.entries[i].connection.call_tool(tool_name, arguments);
                proof {
                    assert(self@ =~= old(self)@.update(
                        i as int,
                        old(self)@[i as int].with_connection(self@[i as int].connection),
                    ));
                }
                r
            },
            None => Err(McpError::ServerNotFound(server_id.to_owned())),
        }
    }

    /// The health that the last sweep found for the server `id`.
    pub fn server_health(&self, server_id: &str) -> (r: Option<ServerHealth>)
        requires
            self.wf(),
        ensures
            r == if health_map(self@).dom().contains(server_id@) {
                Some(health_map(self@)[server_id@])
            } else {
                None
            },
    {
        match self.find(server_id) {
            Some(i) => Some(self.entries[i].health),
            None => None,
        }
    }

    /// Asks the server `id` for its tools again and caches what it lists.
    pub fn refresh_tools(&mut self, server_id: &str) -> (r: Result<Vec<ToolSchema>, McpError>)
        requires
            old(self).wf(),
        ensures
            final(self).wf(),
            final(self).retired() == old(self).retired(),
            refresh_post(old(self)@, server_id@, final(self)@, listing_view(r)),
    {
        match self.find(server_id) {
            Some(i) => {
                match self.entries[i].connection.list_tools() {
                    Ok(tools) => {
                        let copy = clone_tools(&tools);
                        self.entries[i].tools = tools;
                        proof {
                            assert(self@ =~= old(self)@.update(
                                i as int,
                                EntryView {
                                    connection: self@[i as int].connection,
                                    tools: tool_views(copy@),
                                    ..old(self)@[i as int]
                                },
                            ));
                        }
                        Ok(copy)
                    },
                    Err(e) => {
                        proof {
                            assert(self@ =~= old(self)@.update(
                                i as int,
                                old(self)@[i as int].with_connection(self@[i as int].connection),
                            ));
                        }
                        Err(e)
                    },
                }
            },
            None => Err(McpError::ServerNotFound(server_id.to_owned())),
        }
    }

    /// Tells every server whether the sandbox is on, and returns what came of
    /// it server by server, in the order of the table. A server that cannot
    /// be told does not keep the others from being told.
    pub fn broadcast_sandbox_state(&mut self, enabled: bool, policy: &str) -> (outcomes: Vec<
        (String, Result<(), McpError>),
    >)
        requires
            old(self).wf(),
        ensures
            final(self).wf(),
            final(self).retired() == old(self).retired(),
            told(
                old(self)@,
                enabled,
                policy@,
                final(self)@,
                outcomes@.map_values(|o: (String, Result<(), McpError>)| unit_view(o.1)),
            ),
            forall|i: int| 0 <= i < outcomes.len() ==> (#[trigger] outcomes[i]).0@ == old(self)@[i].id,
    {
        let mut outcomes: Vec<(String, Result<(), McpError>)> = Vec::new();
        let mut i: usize = 0;
        while i < self.entries.len()
            invariant
                i <= self.entries.len(),
                self@.len() == self.entries.len(),
                self@.len() == old(self)@.len(),
                self.retired() == old(self).retired(),
                outcomes.len() == i,
                forall|k: int|
                    0 <= k < self@.len() ==> (#[trigger] self@[k]) == old(self)@[k].with_connection(
                        self@[k].connection,
                    ),
                forall|k: int| i <= k < self@.len() ==> (#[trigger] self@[k]) == old(self)@[k],
                forall|k: int|
                    0 <= k < i ==> (#[trigger] outcomes[k]).0@ == old(self)@[k].id && notify_post(
                        old(self)@[k].connection,
                        enabled,
                        policy@,
                        self@[k].connection,
                        unit_view(outcomes[k].1),
                    ),
            decreases self.entries.len() - i,
        {
            let ghost before = self.entries@;
            let ghost table = self@;
            let id = self.entries[i].id.clone();
            let outcome = self.entries[i].connection.notify_sandbox_state(enabled, policy);
            outcomes.push((id, outcome));
            proof {
                assert forall|k: int| 0 <= k < self@.len() implies {
                    &&& (#[trigger] self@[k]) == old(self)@[k].with_connection(self@[k].connection)
                    &&& k != i ==> self@[k] == table[k]
                } by {
                    assert(table[k] == before[k]@);
                }
                assert(table[i as int] == old(self)@[i as int]);
            }
            i = i + 1;
        }
        outcomes
    }

    /// Tells every server whether the sandbox is on. A server that cannot be
    /// told is passed over; nothing is reported.
    pub fn notify_sandbox_state(&mut self, enabled: bool, policy: &str)
        requires
            old(self).wf(),
        ensures
            final(self).wf(),
            final(self).retired() == old(self).retired(),
            exists|outcomes: Seq<Result<(), McpErrorView>>|
                told(old(self)@, enabled, policy@, final(self)@, outcomes),
    {
        let _ = self.broadcast_sandbox_state(enabled, policy);
    }

    /// Probes every server and records how it fares.
    pub fn health_check(&mut self)
        requires
            old(self).wf(),
        ensures
            final(self).wf(),
            final(self).retired() == old(self).retired(),
            swept(old(self)@, final(self)@),
    {
        let mut i: usize = 0;
        while i < self.entries.len()
            invariant
                i <= self.entries.len(),
                self@.len() == self.entries.len(),
                self@.len() == old(self)@.len(),
                self.retired() == old(self).retired(),
                forall|k: int|
                    0 <= k < self@.len() ==> (#[trigger] self@[k]).id == old(self)@[k].id && self@[k].tools
                        == old(self)@[k].tools,
                forall|k: int|
                    0 <= k < i ==> probe_post(
                        old(self)@[k].connection,
                        (#[trigger] self@[k]).connection,
                        self@[k].health,
                    ),
                forall|k: int| i <= k < self@.len() ==> (#[trigger] self@[k]) == old(self)@[k],
            decreases self.entries.len() - i,
        {
            let ghost before = self.entries@;
            let ghost table = self@;
            let health = self.entries[i].connection.probe_health();
            self.entries[i].health = health;
            proof {
                assert forall|k: int| 0 <= k < self@.len() implies {
                    &&& (#[trigger] self@[k]).id == old(self)@[k].id
                    &&& self@[k].tools == old(self)@[k].tools
                    &&& k != i ==> self@[k] == table[k]
                } by {
                    assert(table[k] == before[k]@);
                }
                assert(table[i as int] == old(self)@[i as int]);
            }
            i = i + 1;
        }
    }
}

} // verus!
