//! One connection to one server: the handshake, and the exchange of requests
//! and notifications once it is ready.
//!
//! Nothing can be said of what a transport does. What a connection asks of
//! its transport, and what the transport returned each time, is kept in a
//! log that exists for the proofs only; every result is stated over it.

use vstd::prelude::*;
use crate::config::McpServerConfig;
use crate::error::{McpError, McpErrorView};
use crate::json::{Json, JsonDoc};
use crate::protocol::{
    empty_object, empty_object_doc, handshake_meaning, initialize_params, initialize_params_doc,
    listing_meaning, notification_doc, notification_envelope, outcome_view, read_handshake,
    read_listing, read_reply, read_tool_call, reply_meaning, request_doc, request_envelope,
    sandbox_state_params, sandbox_state_params_doc, tool_call_meaning, tool_call_params,
    tool_call_params_doc, tool_views,
};
use crate::transport::{create_transport, launch_of, transport_refusal, Launch, McpTransport};
use crate::types::{ServerHealth, ServerInfo, ServerInfoView, ToolSchema, ToolSchemaView};

verus! {

/// Where a connection stands in its life. It moves forward only.
#[derive(Debug, Clone, Copy, PartialEq, Eq, Structural)]
pub enum ConnectionState {
    /// Made, with no transport yet.
    Created,
    /// The transport is open and the handshake has not succeeded.
    Initializing,
    /// The handshake has succeeded.
    Ready,
    /// Shut down, for good.
    ShutDown,
}

/// The state together with the transport that it owns.
enum Link<T> {
    Created,
    Initializing(T),
    Ready(T),
    ShutDown,
}

/// A connection to one server. It owns its transport, numbers its requests,
/// and keeps what the server said of itself in the handshake.
pub struct McpConnection<T: McpTransport> {
    config: McpServerConfig,
    link: Link<T>,
    server_info: Option<ServerInfo>,
    request_id: u64,
    /// What passed between the connection and its transport.
    log: Ghost<Seq<TransportEvent>>,
}

/// One thing that a connection asked of its transport, with what the
/// transport returned.
pub enum TransportEvent {
    /// The transport was asked to open with `launch`; `failure` is why it
    /// did not.
    Opened { launch: Launch, failure: Option<McpErrorView> },
    /// A request was handed over; `answer` is the reply, or the failure.
    Request { frame: JsonDoc, answer: Result<JsonDoc, McpErrorView> },
    /// A notification was handed over; `failure` is why it was not taken.
    Notification { frame: JsonDoc, failure: Option<McpErrorView> },
    /// The transport was closed; `failure` is why it did not close.
    Closed { failure: Option<McpErrorView> },
}

/// What is known of a connection, without its transport.
pub struct ConnectionView {
    pub config: McpServerConfig,
    pub state: ConnectionState,
    /// What the server said of itself, once a handshake has succeeded.
    pub info: Option<ServerInfoView>,
    /// The number that the next request gets.
    pub next_request_id: u64,
    /// What the connection asked of its transport and what the transport
    /// returned, in order.
    pub log: Seq<TransportEvent>,
}

impl ConnectionView {
    /// A connection as it is made for `config`.
    pub open spec fn fresh(config: McpServerConfig) -> ConnectionView {
        ConnectionView {
            config,
            state: ConnectionState::Created,
            info: None,
            next_request_id: 0,
            log: Seq::empty(),
        }
    }

    /// Whether the connection holds a transport in this state.
    pub open spec fn linked(self) -> bool {
        self.state is Initializing || self.state is Ready
    }

    /// The connection after one more request was numbered.
    pub open spec fn numbered(self) -> ConnectionView {
        ConnectionView { next_request_id: self.next_request_id.wrapping_add(1), ..self }
    }

    /// The connection after `event`.
    pub open spec fn logged(self, event: TransportEvent) -> ConnectionView {
        ConnectionView { log: self.log.push(event), ..self }
    }

    /// The connection after the request `method` with `params` was numbered
    /// and handed to the transport, which returned `answer`.
    pub open spec fn requested(
        self,
        method: Seq<char>,
        params: JsonDoc,
        answer: Result<JsonDoc, McpErrorView>,
    ) -> ConnectionView {
        self.logged(
            TransportEvent::Request {
                frame: request_doc(self.next_request_id, method, params),
                answer,
            },
        ).numbered()
    }

    /// The connection after the notification `method` with `params` was
    /// handed to the transport, which took it or failed with `failure`.
    pub open spec fn notified(
        self,
        method: Seq<char>,
        params: JsonDoc,
        failure: Option<McpErrorView>,
    ) -> ConnectionView {
        self.logged(TransportEvent::Notification { frame: notification_doc(method, params), failure })
    }

    /// The connection in another state.
    pub open spec fn moved(self, state: ConnectionState) -> ConnectionView {
        ConnectionView { state, ..self }
    }

    /// The connection with the server's description recorded.
    pub open spec fn informed(self, info: ServerInfoView) -> ConnectionView {
        ConnectionView { info: Some(info), ..self }
    }

    /// What the transport returned for the request that was handed over
    /// last.
    pub open spec fn last_reply(self) -> Result<JsonDoc, McpErrorView> {
        self.log.last()->Request_answer
    }

    /// Why the transport did not close, where closing it was the last thing
    /// asked of it and it failed.
    pub open spec fn last_close(self) -> Option<McpErrorView> {
        self.log.last()->Closed_failure
    }

    /// How often the transport was closed.
    pub open spec fn closes(self) -> nat {
        closes_in(self.log)
    }
}

/// How many of the events of a log are the closing of the transport.
pub open spec fn closes_in(log: Seq<TransportEvent>) -> nat
    decreases log.len(),
{
    if log.len() == 0 {
        0
    } else {
        closes_in(log.drop_last()) + if log.last() is Closed {
            1nat
        } else {
            0nat
        }
    }
}

/// What an exchange with the transport came to: the reply's meaning, or the
/// transport's own failure.
pub open spec fn exchange_meaning(exchange: Result<JsonDoc, McpErrorView>) -> Result<JsonDoc, McpErrorView> {
    match exchange {
        Ok(reply) => reply_meaning(reply),
        Err(e) => Err(e),
    }
}

/// What `initialize` makes of the answer to its request.
pub open spec fn handshake_outcome(exchange: Result<JsonDoc, McpErrorView>) -> Result<ServerInfoView, McpErrorView> {
    match exchange_meaning(exchange) {
        Ok(result) => handshake_meaning(result),
        Err(e) => Err(e),
    }
}

/// What `tools/list` returns for an exchange.
pub open spec fn listing_outcome(exchange: Result<JsonDoc, McpErrorView>) -> Result<Seq<ToolSchemaView>, McpErrorView> {
    match exchange_meaning(exchange) {
        Ok(result) => Ok(listing_meaning(result)),
        Err(e) => Err(e),
    }
}

/// What `tools/call` returns for an exchange.
pub open spec fn tool_call_outcome(exchange: Result<JsonDoc, McpErrorView>) -> Result<JsonDoc, McpErrorView> {
    match exchange_meaning(exchange) {
        Ok(result) => tool_call_meaning(result),
        Err(e) => Err(e),
    }
}

/// What `ping` returns for an exchange: the reply's result is dropped.
pub open spec fn ping_outcome(exchange: Result<JsonDoc, McpErrorView>) -> Result<(), McpErrorView> {
    match exchange_meaning(exchange) {
        Ok(_) => Ok(()),
        Err(e) => Err(e),
    }
}

/// The failure in a result, by its view.
pub open spec fn failure_in<T>(r: Result<T, McpError>) -> Option<McpErrorView> {
    match r {
        Ok(_) => None,
        Err(e) => Some(e@),
    }
}

/// The failure in a result.
pub open spec fn failure_of(r: Result<(), McpErrorView>) -> Option<McpErrorView> {
    match r {
        Ok(_) => None,
        Err(e) => Some(e),
    }
}

/// A list of tools or a failure, both by their views.
pub open spec fn listing_view(r: Result<Vec<ToolSchema>, McpError>) -> Result<Seq<ToolSchemaView>, McpErrorView> {
    match r {
        Ok(tools) => Ok(tool_views(tools@)),
        Err(e) => Err(e@),
    }
}

/// Nothing or a failure, the failure by its view.
pub open spec fn unit_view(r: Result<(), McpError>) -> Result<(), McpErrorView> {
    match r {
        Ok(_) => Ok(()),
        Err(e) => Err(e@),
    }
}

/// What `list_tools` owes. In `Ready` the `tools/list` request is handed to
/// the transport, and the result is what the transport's answer to it comes
/// to. In any other state the request is numbered and refused.
pub open spec fn list_tools_post(
    pre: ConnectionView,
    post: ConnectionView,
    r: Result<Seq<ToolSchemaView>, McpErrorView>,
) -> bool {
    if pre.state is Ready {
        &&& post == pre.requested("tools/list"@, empty_object_doc(), post.last_reply())
        &&& r == listing_outcome(post.last_reply())
    } else {
        &&& post == pre.numbered()
        &&& r == Err::<Seq<ToolSchemaView>, McpErrorView>(McpErrorView::NotConnected)
    }
}

/// What `call_tool` owes, in the same way, for the `tools/call` request with
/// the tool's name and arguments.
pub open spec fn call_tool_post(
    pre: ConnectionView,
    name: Seq<char>,
    arguments: JsonDoc,
    post: ConnectionView,
    r: Result<JsonDoc, McpErrorView>,
) -> bool {
    if pre.state is Ready {
        &&& post == pre.requested(
            "tools/call"@,
            tool_call_params_doc(name, arguments),
            post.last_reply(),
        )
        &&& r == tool_call_outcome(post.last_reply())
    } else {
        &&& post == pre.numbered()
        &&& r == Err::<JsonDoc, McpErrorView>(McpErrorView::NotConnected)
    }
}

/// What `ping` owes, in the same way, for the `ping` request.
pub open spec fn ping_post(pre: ConnectionView, post: ConnectionView, r: Result<(), McpErrorView>) -> bool {
    if pre.state is Ready {
        &&& post == pre.requested("ping"@, empty_object_doc(), post.last_reply())
        &&& r == ping_outcome(post.last_reply())
    } else {
        &&& post == pre.numbered()
        &&& r == Err::<(), McpErrorView>(McpErrorView::NotConnected)
    }
}

/// What `notify_sandbox_state` owes. In `Ready` the notification is handed to
/// the transport, and the result is a failure exactly where the transport
/// failed, with its failure. In any other state the notification is refused
/// and the connection stays as it is.
pub open spec fn notify_post(
    pre: ConnectionView,
    enabled: bool,
    policy: Seq<char>,
    post: ConnectionView,
    r: Result<(), McpErrorView>,
) -> bool {
    if pre.state is Ready {
        post == pre.notified(
            "notifications/sandbox_state"@,
            sandbox_state_params_doc(enabled, policy),
            failure_of(r),
        )
    } else {
        &&& post == pre
        &&& r == Err::<(), McpErrorView>(McpErrorView::NotConnected)
    }
}

/// What a handshake comes to on a connection in `Created` whose kind of
/// transport can be opened: the connection afterwards and the result, for
/// the failure of the transport to open, if it failed (`opened`), for what it
/// returned for the `initialize` request (`answer`), and for its failure to
/// take the notification that follows, if it failed (`ack`).
///
/// The transport is asked to open with the command, the arguments and the
/// environment of the configuration. A transport that does not open leaves
/// the connection in `Created`. Once it is open the request is handed over;
/// an answer that does not hold the server's description leaves the
/// connection in `Initializing`, with the failure as the result. An answer
/// that holds it makes the connection `Ready` with that description, and the
/// notification is handed over; where the transport fails on that, the
/// failure is the result and the connection stays `Ready`.
pub open spec fn initialized(
    pre: ConnectionView,
    opened: Option<McpErrorView>,
    answer: Result<JsonDoc, McpErrorView>,
    ack: Option<McpErrorView>,
) -> (ConnectionView, Result<ServerInfoView, McpErrorView>) {
    let tried = pre.logged(
        TransportEvent::Opened { launch: launch_of(pre.config)->0, failure: opened },
    );
    match opened {
        Some(e) => (tried, Err(e)),
        None => {
            let greeted = tried.requested("initialize"@, initialize_params_doc(), answer);
            match handshake_outcome(answer) {
                Err(e) => (greeted.moved(ConnectionState::Initializing), Err(e)),
                Ok(info) => (
                    greeted.moved(ConnectionState::Ready).informed(info).notified(
                        "notifications/initialized"@,
                        empty_object_doc(),
                        ack,
                    ),
                    match ack {
                        None => Ok(info),
                        Some(e) => Err(e),
                    },
                ),
            }
        },
    }
}

/// What `initialize` owes. Only a connection in `Created` is initialized: any
/// other is refused and stays as it is. A kind of transport that cannot be
/// opened is refused and nothing is asked of a transport. Otherwise the
/// connection and the result are what `initialized` says for what the
/// transport returned, which the log holds.
pub open spec fn initialize_post(
    pre: ConnectionView,
    post: ConnectionView,
    r: Result<ServerInfoView, McpErrorView>,
) -> bool {
    if pre.state is Created {
        match transport_refusal(pre.config.transport) {
            Some(refusal) => post == pre && r == Err::<ServerInfoView, McpErrorView>(refusal),
            None => exists|
                opened: Option<McpErrorView>,
                answer: Result<JsonDoc, McpErrorView>,
                ack: Option<McpErrorView>,
            | #[trigger] initialized(pre, opened, answer, ack) == (post, r),
        }
    } else {
        &&& post == pre
        &&& r == Err::<ServerInfoView, McpErrorView>(McpErrorView::NotConnected)
    }
}

/// A shutdown took the connection from `pre` to `post`: a connection that
/// holds a transport closes it, once; a connection that holds none asks
/// nothing of a transport. Either way the connection is shut down.
pub open spec fn shut_down(pre: ConnectionView, post: ConnectionView) -> bool {
    if pre.linked() {
        post == pre.moved(ConnectionState::ShutDown).logged(
            TransportEvent::Closed { failure: post.last_close() },
        )
    } else {
        post == pre.moved(ConnectionState::ShutDown)
    }
}

/// What `shutdown` owes: the connection is shut down, and the result is a
/// failure exactly where a transport was held and failed to close, with its
/// failure.
pub open spec fn shutdown_post(pre: ConnectionView, post: ConnectionView, r: Result<(), McpErrorView>) -> bool {
    &&& shut_down(pre, post)
    &&& failure_of(r) == if pre.linked() {
        post.last_close()
    } else {
        None
    }
}

/// How a server fares after a probe: a connection that is not ready is
/// `Disconnected` and is not pinged; a ready one is `Healthy` where the ping
/// succeeded and `Unhealthy` where it failed.
pub open spec fn health_of_probe(ready: bool, ping: Result<(), McpErrorView>) -> ServerHealth {
    if !ready {
        ServerHealth::Disconnected
    } else if ping is Ok {
        ServerHealth::Healthy
    } else {
        ServerHealth::Unhealthy
    }
}

/// What `probe_health` owes: a ready connection is pinged, and its health is
/// what that ping came to; any other is left alone and is `Disconnected`.
pub open spec fn probe_post(pre: ConnectionView, post: ConnectionView, health: ServerHealth) -> bool {
    if pre.state is Ready {
        &&& post == pre.requested("ping"@, empty_object_doc(), post.last_reply())
        &&& health == health_of_probe(true, ping_outcome(post.last_reply()))
    } else {
        &&& post == pre
        &&& health is Disconnected
    }
}

/// How far a state is along the life of a connection.
pub open spec fn state_rank(state: ConnectionState) -> int {
    match state {
        ConnectionState::Created => 0,
        ConnectionState::Initializing => 1,
        ConnectionState::Ready => 2,
        ConnectionState::ShutDown => 3,
    }
}

/// One operation on a connection took it from `pre` to `post`, whatever it
/// was called with and whatever it returned.
pub open spec fn connection_step(pre: ConnectionView, post: ConnectionView) -> bool {
    ||| exists|r: Result<ServerInfoView, McpErrorView>| initialize_post(pre, post, r)
    ||| exists|r: Result<Seq<ToolSchemaView>, McpErrorView>| list_tools_post(pre, post, r)
    ||| exists|name: Seq<char>, arguments: JsonDoc, r: Result<JsonDoc, McpErrorView>|
        call_tool_post(pre, name, arguments, post, r)
    ||| exists|r: Result<(), McpErrorView>| ping_post(pre, post, r)
    ||| exists|enabled: bool, policy: Seq<char>, r: Result<(), McpErrorView>|
        notify_post(pre, enabled, policy, post, r)
    ||| exists|r: Result<(), McpErrorView>| shutdown_post(pre, post, r)
    ||| exists|health: ServerHealth| probe_post(pre, post, health)
}

/// Whether `log` begins with `before`.
pub open spec fn begins_with(log: Seq<TransportEvent>, before: Seq<TransportEvent>) -> bool {
    before.len() <= log.len() && log.subrange(0, before.len() as int) == before
}

/// A connection moves forward only: no operation takes it back to an earlier
/// state, a connection that is shut down stays shut down, only a handshake
/// on a connection in `Created` makes it `Ready`, the configuration stays,
/// what the server said of itself is never forgotten, nothing is taken out
/// of the log, and a connection that is shut down asks nothing more of a
/// transport.
pub proof fn lemma_connection_moves_forward(pre: ConnectionView, post: ConnectionView)
    requires
        connection_step(pre, post),
    ensures
        state_rank(pre.state) <= state_rank(post.state),
        pre.state is ShutDown ==> post.state is ShutDown,
        post.state is Ready && pre.state !is Ready ==> pre.state is Created,
        post.config == pre.config,
        pre.info is Some ==> post.info is Some,
        begins_with(post.log, pre.log),
        pre.state is ShutDown ==> post.log == pre.log,
{
    // what was in the log before is the beginning of what is in it now
    let n = pre.log.len() as int;
    assert(pre.log.subrange(0, n) =~= pre.log);
    assert forall|a: TransportEvent| #[trigger] pre.log.push(a).subrange(0, n) == pre.log by {}
    assert forall|a: TransportEvent, b: TransportEvent| #[trigger]
        pre.log.push(a).push(b).subrange(0, n) == pre.log by {}
    assert forall|a: TransportEvent, b: TransportEvent, c: TransportEvent| #[trigger]
        pre.log.push(a).push(b).push(c).subrange(0, n) == pre.log by {}
}

/// A shutdown closes the transport exactly once where one is held, and not
/// at all where none is held.
pub proof fn lemma_shutdown_closes_once(pre: ConnectionView, post: ConnectionView, r: Result<(), McpErrorView>)
    requires
        shutdown_post(pre, post, r),
    ensures
        post.state is ShutDown,
        !post.linked(),
        pre.linked() ==> post.closes() == pre.closes() + 1 && post.last_close() == failure_of(r),
        !pre.linked() ==> post.closes() == pre.closes(),
{
    if pre.linked() {
        assert(post.log.drop_last() =~= pre.log);
    }
}

/// The health that a probe found: see `health_of_probe`.
pub fn health_after(ready: bool, ping: &Result<(), McpError>) -> (health: ServerHealth)
    ensures
        health == health_of_probe(ready, unit_view(*ping)),
{
    if !ready {
        ServerHealth::Disconnected
    } else {
        match ping {
            Ok(_) => ServerHealth::Healthy,
            Err(_) => ServerHealth::Unhealthy,
        }
    }
}

impl<T: McpTransport> View for McpConnection<T> {
    type V = ConnectionView;

    closed spec fn view(&self) -> ConnectionView {
        ConnectionView {
            config: self.config,
            state: match self.link {
                Link::Created => ConnectionState::Created,
                Link::Initializing(_) => ConnectionState::Initializing,
                Link::Ready(_) => ConnectionState::Ready,
                Link::ShutDown => ConnectionState::ShutDown,
            },
            info: match self.server_info {
                Some(info) => Some(info@),
                None => None,
            },
            next_request_id: self.request_id,
            log: self.log@,
        }
    }
}

impl<T: McpTransport> McpConnection<T> {
    /// Whether the connection holds a transport.
    pub closed spec fn holds_transport(&self) -> bool {
        self.link is Initializing || self.link is Ready
    }

    /// A connection holds a transport exactly from the opening of the
    /// transport to the shutdown: not before, and not after.
    pub proof fn lemma_transport_held(&self)
        ensures
            self.holds_transport() <==> self@.linked(),
    {
    }

    /// A connection for `config`, not yet connected. It always succeeds.
    pub fn new(config: McpServerConfig) -> (r: Result<Self, McpError>)
        ensures
            r matches Ok(connection) && connection@ == ConnectionView::fresh(config),
    {
        Ok(
            McpConnection {
                config,
                link: Link::Created,
                server_info: None,
                request_id: 0,
                log: Ghost(Seq::empty()),
            },
        )
    }

    /// Numbers the request `method` with `params`: the envelope carries the
    /// number that was next, and the next request gets the number after it.
    pub fn next_request(&mut self, method: &str, params: Json) -> (request: Json)
        ensures
            request@ == request_doc(old(self)@.next_request_id, method@, params@),
            final(self)@ == old(self)@.numbered(),
    {
        let id = self.request_id;
        self.request_id = id.wrapping_add(1);
        request_envelope(id, method, params)
    }

    /// Numbers a request, hands it to the transport where there is one, and
    /// reads the reply.
    fn send_request(&mut self, method: &str, params: Json) -> (r: Result<Json, McpError>)
        ensures
            if old(self)@.linked() {
                &&& final(self)@ == old(self)@.requested(method@, params@, final(self)@.last_reply())
                &&& outcome_view(r) == exchange_meaning(final(self)@.last_reply())
            } else {
                &&& final(self)@ == old(self)@.numbered()
                &&& outcome_view(r) == Err::<JsonDoc, McpErrorView>(McpErrorView::NotConnected)
            },
    {
        let request = self.next_request(method, params);
        let ghost frame = request@;
        let sent = match &mut self.link {
            Link::Initializing(transport) => Some(transport.send_request(request)),
            Link::Ready(transport) => Some(transport.send_request(request)),
            _ => None,
        };
        match sent {
            Some(exchange) => {
                self.log = Ghost(
                    self.log@.push(TransportEvent::Request { frame, answer: outcome_view(exchange) }),
                );
                match exchange {
                    Ok(reply) => read_reply(&reply),
                    Err(e) => Err(e),
                }
            },
            None => Err(McpError::NotConnected),
        }
    }

    /// Hands a notification to the transport where there is one.
    fn send_notification(&mut self, method: &str, params: Json) -> (r: Result<(), McpError>)
        ensures
            if old(self)@.linked() {
                final(self)@ == old(self)@.notified(method@, params@, failure_in(r))
            } else {
                &&& final(self)@ == old(self)@
                &&& unit_view(r) == Err::<(), McpErrorView>(McpErrorView::NotConnected)
            },
    {
        let notification = notification_envelope(method, params);
        let ghost frame = notification@;
        let sent = match &mut self.link {
            Link::Initializing(transport) => Some(transport.send_notification(notification)),
            Link::Ready(transport) => Some(transport.send_notification(notification)),
            _ => None,
        };
        match sent {
            Some(outcome) => {
                self.log = Ghost(
                    self.log@.push(TransportEvent::Notification { frame, failure: failure_in(outcome) }),
                );
                outcome
            },
            None => Err(McpError::NotConnected),
        }
    }

    /// Opens the transport and runs the handshake.
    pub fn initialize(&mut self) -> (r: Result<ServerInfo, McpError>)
        ensures
            initialize_post(old(self)@, final(self)@, outcome_view(r)),
    {
        match &self.link {
            Link::Created => {},
            _ => {
                return Err(McpError::NotConnected);
            },
        }
        let opening = create_transport::<T>(&self.config);
        let ghost asked = transport_refusal(self.config.transport) is None;
        let ghost opened = failure_in(opening);
        self.log = Ghost(
            if asked {
                self.log@.push(
                    TransportEvent::Opened { launch: launch_of(self.config)->0, failure: opened },
                )
            } else {
                self.log@
            },
        );
        let transport = match opening {
            Ok(transport) => transport,
            Err(e) => {
                proof {
                    assert(asked ==> initialized(old(self)@, opened, Err(e@), None) == (
                        self@,
                        Err::<ServerInfoView, McpErrorView>(e@),
                    ));
                }
                return Err(e);
            },
        };
        self.link = Link::Initializing(transport);
        let sent = self.send_request("initialize", initialize_params());
        let ghost answer = self@.last_reply();
        let result = match sent {
            Ok(result) => result,
            Err(e) => {
                proof {
                    assert(initialized(old(self)@, opened, answer, None) == (
                        self@,
                        Err::<ServerInfoView, McpErrorView>(e@),
                    ));
                }
                return Err(e);
            },
        };
        let info = match read_handshake(&result) {
            Ok(info) => info,
            Err(e) => {
                proof {
                    assert(initialized(old(self)@, opened, answer, None) == (
                        self@,
                        Err::<ServerInfoView, McpErrorView>(e@),
                    ));
                }
                return Err(e);
            },
        };
        self.server_info = Some(info.clone());
        let mut link = Link::ShutDown;
        std::mem::swap(&mut self.link, &mut link);
        match link {
            Link::Initializing(transport) => {
                self.link = Link::Ready(transport);
            },
            other => {
                self.link = other;
            },
        }
        let told = self.send_notification("notifications/initialized", empty_object());
        let r = match told {
            Ok(_) => Ok(info),
            Err(e) => Err(e),
        };
        proof {
            assert(initialized(old(self)@, opened, answer, failure_in(told)) == (self@, outcome_view(r)));
        }
        r
    }

    /// Asks the server for its tools.
    pub fn list_tools(&mut self) -> (r: Result<Vec<ToolSchema>, McpError>)
        ensures
            list_tools_post(old(self)@, final(self)@, listing_view(r)),
    {
        if !self.is_connected() {
            // a request is numbered before it is refused
            self.request_id = self.request_id.wrapping_add(1);
            return Err(McpError::NotConnected);
        }
        match self.send_request("tools/list", empty_object()) {
            Ok(result) => Ok(read_listing(&result)),
            Err(e) => Err(e),
        }
    }

    /// Calls the tool `name` with `arguments`.
    pub fn call_tool(&mut self, name: &str, arguments: Json) -> (r: Result<Json, McpError>)
        ensures
            call_tool_post(old(self)@, name@, arguments@, final(self)@, outcome_view(r)),
    {
        if !self.is_connected() {
            // a request is numbered before it is refused
            self.request_id = self.request_id.wrapping_add(1);
            return Err(McpError::NotConnected);
        }
        match self.send_request("tools/call", tool_call_params(name, arguments)) {
            Ok(result) => read_tool_call(&result),
            Err(e) => Err(e),
        }
    }

    /// Tells the server whether the sandbox is on, and under which policy.
    pub fn notify_sandbox_state(&mut self, enabled: bool, policy: &str) -> (r: Result<(), McpError>)
        ensures
            notify_post(old(self)@, enabled, policy@, final(self)@, unit_view(r)),
    {
        if !self.is_connected() {
            return Err(McpError::NotConnected);
        }
        self.send_notification("notifications/sandbox_state", sandbox_state_params(enabled, policy))
    }

    /// Asks the server whether it is alive.
    pub fn ping(&mut self) -> (r: Result<(), McpError>)
        ensures
            ping_post(old(self)@, final(self)@, unit_view(r)),
    {
        if !self.is_connected() {
            // a request is numbered before it is refused
            self.request_id = self.request_id.wrapping_add(1);
            return Err(McpError::NotConnected);
        }
        match self.send_request("ping", empty_object()) {
            Ok(_) => Ok(()),
            Err(e) => Err(e),
        }
    }

    /// Probes the server for the health sweep.
    pub fn probe_health(&mut self) -> (health: ServerHealth)
        ensures
            probe_post(old(self)@, final(self)@, health),
    {
        if self.is_connected() {
            let pinged = self.ping();
            health_after(true, &pinged)
        } else {
            ServerHealth::Disconnected
        }
    }

    /// Whether the connection is ready.
    pub fn is_connected(&self) -> (r: bool)
        ensures
            r == (self@.state is Ready),
    {
        match &self.link {
            Link::Ready(_) => true,
            _ => false,
        }
    }

    /// What the server said of itself, once a handshake has succeeded.
    pub fn server_info(&self) -> (r: Option<ServerInfo>)
        ensures
            match r {
                Some(info) => self@.info == Some(info@),
                None => self@.info is None,
            },
    {
        match &self.server_info {
            Some(info) => Some(info.clone()),
            None => None,
        }
    }

    /// The configuration that the connection was made for.
    pub fn config(&self) -> (r: &McpServerConfig)
        ensures
            *r == self@.config,
    {
        &self.config
    }

    /// Shuts the connection down and closes its transport.
    pub fn shutdown(&mut self) -> (r: Result<(), McpError>)
        ensures
            shutdown_post(old(self)@, final(self)@, unit_view(r)),
    {
        let mut link = Link::ShutDown;
        std::mem::swap(&mut self.link, &mut link);
        let closed = match link {
            Link::Initializing(transport) => Some(transport.close()),
            Link::Ready(transport) => Some(transport.close()),
            _ => None,
        };
        match closed {
            Some(outcome) => {
                self.log = Ghost(
                    self.log@.push(TransportEvent::Closed { failure: failure_in(outcome) }),
                );
                outcome
            },
            None => Ok(()),
        }
    }
}

} // verus!
