//! The state of a runner, and the elementary steps on it.

use crate::actor::{ActorLifecycleEvent, ActorLifecycleEventView};
use crate::config::{RunnerConfig, RunnerConfigView};
use crate::duplicate::Duplicate;
use crate::error::{outcome, RunnerError, RunnerErrorView};
use crate::names::{NameModel, NameTable};
use crate::protocol::{
    ActorCheckpoint, ActorCheckpointView, Event, EventView, EventWrapper, EventWrapperView, MessageId, MessageIdView,
    ToServer, ToServerTunnelMessageKind, ToServerTunnelMessageKindView, ToServerView,
};
use crate::runtime::{
    ActorRuntimeState, ActorRuntimeStateView, PendingHttpRequest, PendingHttpRequestView, SenderState,
    WebSocketRuntimeState, WebSocketRuntimeStateView,
};
use crate::sequence::{next_index, wrapping_add_u16};
use crate::tunnel::{TunnelMap, TunnelRequestKey, TunnelRequestKeyView};
use std::collections::HashSet;
use vstd::prelude::*;

verus! {

/// The state of a runner.
///
/// Messages to the engine are queued in `outbox`, news for subscribers in `lifecycle`; whoever
/// drives the runner takes them from there.
pub struct RunnerInner {
    pub config: RunnerConfig,
    pub runner_id: Option<String>,
    pub shutdown: bool,
    pub started: bool,
    pub sender: SenderState,
    pub outbox: Vec<ToServer>,
    pub lifecycle: Vec<ActorLifecycleEvent>,
    pub actors: NameTable<ActorRuntimeState>,
    pub next_kv_request_id: u32,
    pub pending_kv_requests: HashSet<u32>,
    pub pending_http_requests: TunnelMap<PendingHttpRequest>,
    pub tunnel_message_indices: TunnelMap<u16>,
    pub websockets: TunnelMap<WebSocketRuntimeState>,
}

/// The contents of a [`RunnerInner`].
#[verifier::ext_equal]
pub struct RunnerModel {
    pub config: RunnerConfigView,
    pub runner_id: Option<Seq<char>>,
    pub shutdown: bool,
    pub started: bool,
    pub sender: SenderState,
    pub outbox: Seq<ToServerView>,
    pub lifecycle: Seq<ActorLifecycleEventView>,
    pub actors: NameModel<ActorRuntimeStateView>,
    pub next_kv_request_id: u32,
    pub pending_kv_requests: Set<u32>,
    pub pending_http_requests: Map<u64, PendingHttpRequestView>,
    pub tunnel_message_indices: Map<u64, u16>,
    pub websockets: Map<u64, WebSocketRuntimeStateView>,
}

impl View for RunnerInner {
    type V = RunnerModel;

    open spec fn view(&self) -> RunnerModel {
        RunnerModel {
            config: self.config.deep_view(),
            runner_id: self.runner_id.deep_view(),
            shutdown: self.shutdown,
            started: self.started,
            sender: self.sender,
            outbox: self.outbox.deep_view(),
            lifecycle: self.lifecycle.deep_view(),
            actors: self.actors.deep_view(),
            next_kv_request_id: self.next_kv_request_id,
            pending_kv_requests: self.pending_kv_requests@,
            pending_http_requests: self.pending_http_requests.deep_view(),
            tunnel_message_indices: self.tunnel_message_indices.deep_view(),
            websockets: self.websockets.deep_view(),
        }
    }
}

/// What sending gives, by the state of the way to the engine.
pub open spec fn send_outcome(sender: SenderState) -> Result<(), RunnerErrorView> {
    match sender {
        SenderState::Absent => Err(RunnerErrorView::SenderUnavailable),
        SenderState::Open => Ok(()),
        SenderState::Closed => Err(RunnerErrorView::SenderClosed),
    }
}

impl RunnerModel {
    /// A runner that was never started.
    pub open spec fn fresh(config: RunnerConfigView) -> Self {
        RunnerModel {
            config: config,
            runner_id: None,
            shutdown: false,
            started: false,
            sender: SenderState::Absent,
            outbox: Seq::empty(),
            lifecycle: Seq::empty(),
            actors: NameModel::empty(),
            next_kv_request_id: 0,
            pending_kv_requests: Set::empty(),
            pending_http_requests: Map::empty(),
            tunnel_message_indices: Map::empty(),
            websockets: Map::empty(),
        }
    }

    /// With a message queued, where the way to the engine is open.
    pub open spec fn sent(self, message: ToServerView) -> Self {
        if self.sender == SenderState::Open {
            RunnerModel { outbox: self.outbox.push(message), ..self }
        } else {
            self
        }
    }

    /// What sending gives.
    pub open spec fn send_outcome(self) -> Result<(), RunnerErrorView> {
        send_outcome(self.sender)
    }

    /// The number that the next message through a tunnel gets.
    pub open spec fn tunnel_index(self, key: TunnelRequestKeyView) -> u16 {
        if self.tunnel_message_indices.contains_key(key.code()) {
            self.tunnel_message_indices[key.code()]
        } else {
            0
        }
    }

    /// With the number of the next message through a tunnel set.
    pub open spec fn with_tunnel_index(self, key: TunnelRequestKeyView, index: u16) -> Self {
        RunnerModel { tunnel_message_indices: self.tunnel_message_indices.insert(key.code(), index), ..self }
    }

    /// With a tunnel known: the first message that arrives through it sets the number of the
    /// first message that leaves.
    pub open spec fn with_tunnel_known(self, key: TunnelRequestKeyView, incoming: u16) -> Self {
        if self.tunnel_message_indices.contains_key(key.code()) {
            self
        } else {
            self.with_tunnel_index(key, incoming)
        }
    }

    /// With a message sent through a tunnel. The message takes the next number of the tunnel,
    /// whether or not it can be queued.
    pub open spec fn tunnel_sent(self, key: TunnelRequestKeyView, kind: ToServerTunnelMessageKindView) -> Self {
        self.with_tunnel_index(key, next_index(self.tunnel_index(key))).sent(
            ToServerView::TunnelMessage {
                message_id: MessageIdView {
                    gateway_id: key.gateway_id,
                    request_id: key.request_id,
                    message_index: self.tunnel_index(key),
                },
                message_kind: kind,
            },
        )
    }

    /// With a WebSocket closed towards the engine.
    pub open spec fn close_sent(self, key: TunnelRequestKeyView, code: u16, reason: Seq<char>) -> Self {
        self.tunnel_sent(
            key,
            ToServerTunnelMessageKindView::WebSocketClose { code: Some(code), reason: Some(reason), hibernate: false },
        )
    }

    /// Whether an event of an actor can be numbered: the numbers have not run out.
    pub open spec fn can_emit(self, actor_id: Seq<char>) -> bool {
        self.actors.has(actor_id) ==> self.actors.at(actor_id).next_event_idx < i64::MAX
    }

    /// The event that an actor emits next.
    pub open spec fn next_event(self, actor_id: Seq<char>, generation: u32, event: EventView) -> EventWrapperView {
        EventWrapperView {
            checkpoint: ActorCheckpointView {
                actor_id: actor_id,
                generation: generation,
                index: self.actors.at(actor_id).next_event_idx,
            },
            inner: event,
        }
    }

    /// With an event emitted: numbered, kept until it is acknowledged, and sent.
    pub open spec fn emitted(self, actor_id: Seq<char>, generation: u32, event: EventView) -> Self {
        if self.actors.has(actor_id) {
            let actor = self.actors.at(actor_id);
            let wrapper = self.next_event(actor_id, generation, event);
            RunnerModel {
                actors: self.actors.insert(
                    actor_id,
                    ActorRuntimeStateView {
                        next_event_idx: (actor.next_event_idx + 1) as i64,
                        event_history: actor.event_history.push(wrapper),
                        ..actor
                    },
                ),
                ..self
            }.sent(ToServerView::Events(seq![wrapper]))
        } else {
            self
        }
    }

    /// What emitting an event gives.
    pub open spec fn emit_outcome(self, actor_id: Seq<char>) -> Result<(), RunnerErrorView> {
        if self.actors.has(actor_id) {
            self.send_outcome()
        } else {
            Err(RunnerErrorView::ActorNotFound { actor_id: actor_id })
        }
    }

    /// Without the WebSockets of an actor.
    pub open spec fn without_websockets_of(self, actor_id: Seq<char>) -> Self {
        RunnerModel { websockets: websockets_without(self.websockets, actor_id), ..self }
    }

    /// Without a WebSocket.
    pub open spec fn without_websocket(self, key: TunnelRequestKeyView) -> Self {
        RunnerModel { websockets: self.websockets.remove(key.code()), ..self }
    }

    /// With a WebSocket.
    pub open spec fn with_websocket(self, key: TunnelRequestKeyView, state: WebSocketRuntimeStateView) -> Self {
        RunnerModel { websockets: self.websockets.insert(key.code(), state), ..self }
    }

    /// Without an actor.
    pub open spec fn without_actor(self, actor_id: Seq<char>) -> Self {
        RunnerModel { actors: self.actors.remove(actor_id), ..self }
    }

    /// With news for subscribers.
    pub open spec fn announced(self, event: ActorLifecycleEventView) -> Self {
        RunnerModel { lifecycle: self.lifecycle.push(event), ..self }
    }
}

/// The unacknowledged events of an actor carry the actor's id and ascending numbers, all of them
/// below the next one.
pub open spec fn history_in_order(actor_id: Seq<char>, actor: ActorRuntimeStateView) -> bool {
    let history = actor.event_history;
    &&& 0 <= actor.next_event_idx
    &&& forall|i: int|
        0 <= i < history.len() ==> {
            &&& (#[trigger] history[i]).checkpoint.actor_id == actor_id
            &&& 0 <= history[i].checkpoint.index < actor.next_event_idx
        }
    &&& forall|i: int, j: int|
        0 <= i < j < history.len() ==> (#[trigger] history[i]).checkpoint.index < (
        #[trigger] history[j]).checkpoint.index
}

/// [`history_in_order`] for every actor.
pub open spec fn histories_in_order(actors: NameModel<ActorRuntimeStateView>) -> bool {
    forall|actor_id: Seq<char>| #[trigger]
        actors.has(actor_id) ==> history_in_order(actor_id, actors.at(actor_id))
}

pub(crate) proof fn lemma_emission_keeps_order(model: RunnerModel, actor_id: Seq<char>, generation: u32, event: EventView)
    requires
        histories_in_order(model.actors),
        model.can_emit(actor_id),
    ensures
        histories_in_order(model.emitted(actor_id, generation, event).actors),
{
    if model.actors.has(actor_id) {
        let after = model.emitted(actor_id, generation, event);
        assert(model.actors.has(actor_id));
        assert(history_in_order(actor_id, after.actors.at(actor_id)));
        assert forall|other: Seq<char>| #[trigger] after.actors.has(other) implies history_in_order(
            other,
            after.actors.at(other),
        ) by {
            if other != actor_id {
                assert(model.actors.has(other));
            }
        }
    }
}

/// The WebSockets that do not belong to an actor.
pub open spec fn websockets_without(websockets: Map<u64, WebSocketRuntimeStateView>, actor_id: Seq<char>) -> Map<
    u64,
    WebSocketRuntimeStateView,
> {
    Map::new(
        |code: u64| websockets.contains_key(code) && websockets[code].actor_id != actor_id,
        |code: u64| websockets[code],
    )
}

impl RunnerInner {
    /// Well-formed: no name stands in a table twice, and the unacknowledged events of every actor
    /// are numbered in order.
    pub open spec fn wf(&self) -> bool {
        &&& self.config.wf()
        &&& self.actors.wf()
        &&& histories_in_order(self@.actors)
    }

    /// A runner that was never started.
    pub fn new(config: RunnerConfig) -> (runner: Self)
        requires
            config.wf(),
        ensures
            runner.wf(),
            runner@ == RunnerModel::fresh(config.deep_view()),
    {
        broadcast use vstd::std_specs::hash::group_hash_axioms;

        let runner = RunnerInner {
            config,
            runner_id: None,
            shutdown: false,
            started: false,
            sender: SenderState::Absent,
            outbox: Vec::new(),
            lifecycle: Vec::new(),
            actors: NameTable::new(),
            next_kv_request_id: 0,
            pending_kv_requests: HashSet::new(),
            pending_http_requests: TunnelMap::new(),
            tunnel_message_indices: TunnelMap::new(),
            websockets: TunnelMap::new(),
        };
        assert(runner@ =~= RunnerModel::fresh(config.deep_view()));
        runner
    }

    /// Queues a message to the engine.
    pub fn send_to_server(&mut self, message: ToServer) -> (sent: Result<(), RunnerError>)
        requires
            old(self).wf(),
        ensures
            final(self).wf(),
            final(self)@ == old(self)@.sent(message.deep_view()),
            outcome(sent) == old(self)@.send_outcome(),
    {
        match self.sender {
            SenderState::Absent => Err(RunnerError::SenderUnavailable),
            SenderState::Closed => Err(RunnerError::SenderClosed),
            SenderState::Open => {
                self.outbox.push(message);
                assert(self.outbox.deep_view() =~= old(self).outbox.deep_view().push(message.deep_view()));
                Ok(())
            },
        }
    }

    /// Takes note of a tunnel when a message arrives through it.
    pub fn ensure_tunnel_index(&mut self, key: TunnelRequestKey, incoming_index: u16)
        requires
            old(self).wf(),
        ensures
            final(self).wf(),
            final(self)@ == old(self)@.with_tunnel_known(key.deep_view(), incoming_index),
    {
        if self.tunnel_message_indices.get(&key).is_none() {
            self.tunnel_message_indices.insert(key, incoming_index);
        }
    }

    /// Sets the number that the next message through a tunnel gets.
    pub fn set_tunnel_index(&mut self, key: TunnelRequestKey, next: u16)
        requires
            old(self).wf(),
        ensures
            final(self).wf(),
            final(self)@ == old(self)@.with_tunnel_index(key.deep_view(), next),
    {
        self.tunnel_message_indices.insert(key, next);
    }

    /// Sends a message through a tunnel.
    pub fn send_tunnel_message(&mut self, key: TunnelRequestKey, message_kind: ToServerTunnelMessageKind) -> (sent:
        Result<(), RunnerError>)
        requires
            old(self).wf(),
        ensures
            final(self).wf(),
            final(self)@ == old(self)@.tunnel_sent(key.deep_view(), message_kind.deep_view()),
            outcome(sent) == old(self)@.send_outcome(),
    {
        let message_index: u16 = match self.tunnel_message_indices.get(&key) {
            Some(index) => *index,
            None => 0,
        };
        self.tunnel_message_indices.insert(key, wrapping_add_u16(message_index, 1));
        self.send_to_server(
            ToServer::TunnelMessage {
                message_id: MessageId { gateway_id: key.gateway_id, request_id: key.request_id, message_index },
                message_kind,
            },
        )
    }

    /// Closes a WebSocket towards the engine.
    pub(crate) fn send_close(&mut self, key: TunnelRequestKey, code: u16, reason: &str) -> (sent: Result<
        (),
        RunnerError,
    >)
        requires
            old(self).wf(),
        ensures
            final(self).wf(),
            final(self)@ == old(self)@.close_sent(key.deep_view(), code, reason@),
            outcome(sent) == old(self)@.send_outcome(),
    {
        self.send_tunnel_message(
            key,
            ToServerTunnelMessageKind::WebSocketClose {
                code: Some(code),
                reason: Some(reason.to_owned()),
                hibernate: false,
            },
        )
    }

    /// Emits an event of an actor.
    pub fn emit_event(&mut self, actor_id: &str, generation: u32, event: Event) -> (emitted: Result<(), RunnerError>)
        requires
            old(self).wf(),
            old(self)@.can_emit(actor_id@),
        ensures
            final(self).wf(),
            final(self)@ == old(self)@.emitted(actor_id@, generation, event.deep_view()),
            outcome(emitted) == old(self)@.emit_outcome(actor_id@),
    {
        let ghost before = self@;
        let wrapper = match self.actors.get_mut(actor_id) {
            None => {
                return Err(RunnerError::ActorNotFound { actor_id: actor_id.to_owned() });
            },
            Some(actor) => {
                let index: i64 = actor.next_event_idx;
                actor.next_event_idx = index + 1;
                let wrapper = EventWrapper {
                    checkpoint: ActorCheckpoint { actor_id: actor_id.to_owned(), generation, index },
                    inner: event,
                };
                let ghost history = actor.event_history.deep_view();
                actor.event_history.push(wrapper.duplicate());
                assert(actor.event_history.deep_view() =~= history.push(wrapper.deep_view()));
                wrapper
            },
        };
        let mut events: Vec<EventWrapper> = Vec::new();
        events.push(wrapper);
        proof {
            let event = events@[0].inner.deep_view();
            assert(events.deep_view() =~= seq![before.next_event(actor_id@, generation, event)]);
            lemma_emission_keeps_order(before, actor_id@, generation, event);
        }
        self.send_to_server(ToServer::Events(events))
    }

    /// Whether an event of an actor can be numbered.
    pub fn can_emit(&self, actor_id: &str) -> (possible: bool)
        requires
            self.wf(),
        ensures
            possible == self@.can_emit(actor_id@),
    {
        match self.actors.get(actor_id) {
            Some(actor) => actor.next_event_idx < i64::MAX,
            None => true,
        }
    }

    /// Forgets the WebSockets of an actor.
    pub fn remove_actor_websockets(&mut self, actor_id: &str)
        requires
            old(self).wf(),
        ensures
            final(self).wf(),
            final(self)@ == old(self)@.without_websockets_of(actor_id@),
    {
        let codes = self.websockets.codes();
        let wanted = actor_id.to_owned();
        let ghost before = self.websockets.deep_view();
        let ghost whole = *self;
        let mut at: usize = 0;
        while at < codes.len()
            invariant
                at <= codes.len(),
                wanted@ == actor_id@,
                self.wf(),
                self@ == (RunnerModel { websockets: self.websockets.deep_view(), ..whole@ }),
                before == whole@.websockets,
                forall|code: u64| codes@.contains(code) <==> #[trigger] before.contains_key(code),
                forall|code: u64|
                    #[trigger] self.websockets.deep_view().contains_key(code) <==> before.contains_key(code) && (
                    before[code].actor_id != actor_id@ || !codes@.take(at as int).contains(code)),
                forall|code: u64|
                    #[trigger] self.websockets.deep_view().contains_key(code)
                        ==> self.websockets.deep_view()[code] == before[code],
            decreases codes.len() - at,
        {
            let code: u64 = codes[at];
            let ghost earlier = self.websockets.deep_view();
            let belongs = match self.websockets.get_code(code) {
                Some(state) => state.actor_id == wanted,
                None => false,
            };
            if belongs {
                self.websockets.remove_code(code);
            }
            proof {
                assert(codes@.contains(codes@[at as int]));
                assert(codes@.take(at + 1) =~= codes@.take(at as int).push(code));
                assert forall|other: u64| #[trigger] codes@.take(at + 1).contains(other) <==> other == code || codes@.take(
                    at as int,
                ).contains(other) by {
                    if codes@.take(at as int).contains(other) {
                        let i = codes@.take(at as int).index_of(other);
                        assert(codes@.take(at + 1)[i] == other);
                    }
                    if other == code {
                        assert(codes@.take(at + 1)[at as int] == other);
                    }
                }
                assert(before.contains_key(code));
            }
            at = at + 1;
        }
        assert(codes@.take(codes.len() as int) =~= codes@);
        assert(self.websockets.deep_view() =~= websockets_without(before, actor_id@));
    }
}

} // verus!
