//! What holds of several operations taken together, and of single ones field by field.

pub mod acknowledging;
pub mod actors;
pub mod answering;
pub mod arriving;
pub mod configuring;
pub mod connecting;
pub mod contents;
pub mod sending;
pub mod serving;
pub mod sockets;
pub mod store;
pub mod writing;

use crate::actions::{IncomingActionView, RestoreStepView, WebSocketOpenStepView};
use crate::actor::{names_are_distinct, HibernatingWebSocketMetadataView, WebSocketContextView};
use crate::connection::RunEventView;
use crate::error::RunnerErrorView;
use crate::protocol::{
    EventView, EventWrapperView, KvRequestDataView, KvResponseDataView, MessageIdView, RequestStartView, ToClientView,
    ToServerTunnelMessageKindView, ToServerView, WebSocketOpenView,
};
use crate::requests::{pending_request, HttpResponseView};
use crate::restore::{is_connected, meta_for, meta_key, request_key, RestoreView};
use crate::runtime::{PendingHttpRequestView, SenderState};
use crate::sequence::next_index;
use crate::state::{histories_in_order, RunnerModel};
use crate::tunnel::{lemma_codes_are_distinct, TunnelRequestKeyView};
use crate::websocket::{is_expected, is_repeated, opened_websocket};
use vstd::prelude::*;

verus! {

// Tunnels
// ---------------------------------------------------------------------------------------------
impl RunnerModel {
    /// With several messages sent through a tunnel.
    pub open spec fn all_tunnel_sent(self, key: TunnelRequestKeyView, kinds: Seq<ToServerTunnelMessageKindView>) -> Self
        decreases kinds.len(),
    {
        if kinds.len() == 0 {
            self
        } else {
            self.all_tunnel_sent(key, kinds.drop_last()).tunnel_sent(key, kinds.last())
        }
    }

    /// The numbers of those messages that are handed on when several arrive on a WebSocket.
    pub open spec fn all_delivered(self, key: TunnelRequestKeyView, indices: Seq<u16>) -> Seq<u16>
        decreases indices.len(),
    {
        if indices.len() == 0 {
            Seq::empty()
        } else {
            let later = self.message_received(key, indices[0]).all_delivered(key, indices.skip(1));
            if self.is_delivered(key, indices[0]) {
                seq![indices[0]] + later
            } else {
                later
            }
        }
    }

    /// After several parts of the body of a request have arrived, none of them the last.
    pub open spec fn chunks_received(self, key: TunnelRequestKeyView, chunks: Seq<Seq<u8>>) -> Self
        decreases chunks.len(),
    {
        if chunks.len() == 0 {
            self
        } else {
            self.chunks_received(key, chunks.drop_last()).chunk_received(key, chunks.last(), false)
        }
    }
}

/// The number that lies some steps ahead of a number.
pub open spec fn index_ahead(index: u16, steps: int) -> u16 {
    ((index + steps) % 65536) as u16
}

/// A message as it leaves through a tunnel.
pub open spec fn numbered_message(
    key: TunnelRequestKeyView,
    message_index: u16,
    kind: ToServerTunnelMessageKindView,
) -> ToServerView {
    ToServerView::TunnelMessage {
        message_id: MessageIdView {
            gateway_id: key.gateway_id,
            request_id: key.request_id,
            message_index: message_index,
        },
        message_kind: kind,
    }
}

/// The messages that leave through a tunnel are numbered consecutively, from the number that the
/// tunnel is at and around after the highest one.
pub proof fn law_tunnel_messages_are_numbered_consecutively(
    model: RunnerModel,
    key: TunnelRequestKeyView,
    kinds: Seq<ToServerTunnelMessageKindView>,
)
    requires
        model.sender == SenderState::Open,
    ensures
        ({
            let after = model.all_tunnel_sent(key, kinds);
            let start = model.tunnel_index(key);
            &&& after.sender == SenderState::Open
            &&& after.tunnel_index(key) == index_ahead(start, kinds.len() as int)
            &&& after.outbox == model.outbox + Seq::new(
                kinds.len(),
                |i: int| numbered_message(key, index_ahead(start, i), kinds[i]),
            )
        }),
    decreases kinds.len(),
{
    let start = model.tunnel_index(key);
    if kinds.len() == 0 {
        assert(model.outbox =~= model.outbox + Seq::new(
            0,
            |i: int| numbered_message(key, index_ahead(start, i), kinds[i]),
        ));
    } else {
        let earlier = kinds.drop_last();
        law_tunnel_messages_are_numbered_consecutively(model, key, earlier);
        let before = model.all_tunnel_sent(key, earlier);
        let after = model.all_tunnel_sent(key, kinds);
        assert(after.outbox =~= before.outbox.push(
            numbered_message(key, index_ahead(start, earlier.len() as int), kinds.last()),
        ));
        assert(after.outbox =~= model.outbox + Seq::new(
            kinds.len(),
            |i: int| numbered_message(key, index_ahead(start, i), kinds[i]),
        ));
    }
}

/// A message that cannot be queued still takes its number.
pub proof fn law_unsent_tunnel_message_takes_a_number(
    model: RunnerModel,
    key: TunnelRequestKeyView,
    kind: ToServerTunnelMessageKindView,
)
    requires
        model.sender != SenderState::Open,
    ensures
        model.tunnel_sent(key, kind).outbox == model.outbox,
        model.tunnel_sent(key, kind).tunnel_index(key) == next_index(model.tunnel_index(key)),
{
}

/// The first message that arrives through a tunnel sets the number of the first that leaves; later
/// ones do not.
pub proof fn law_first_message_sets_the_numbering(
    model: RunnerModel,
    key: TunnelRequestKeyView,
    first: u16,
    later: u16,
)
    requires
        !model.tunnel_message_indices.contains_key(key.code()),
    ensures
        model.with_tunnel_known(key, first).tunnel_index(key) == first,
        model.with_tunnel_known(key, first).with_tunnel_known(key, later) == model.with_tunnel_known(key, first),
{
}

/// What happens in one tunnel leaves every other tunnel alone.
pub proof fn law_tunnels_do_not_interfere(
    model: RunnerModel,
    key: TunnelRequestKeyView,
    other: TunnelRequestKeyView,
    kind: ToServerTunnelMessageKindView,
    message_index: u16,
    chunk: Seq<u8>,
    finish: bool,
)
    requires
        key.gateway_id.len() == 4,
        key.request_id.len() == 4,
        other.gateway_id.len() == 4,
        other.request_id.len() == 4,
        key != other,
    ensures
        model.tunnel_sent(key, kind).tunnel_index(other) == model.tunnel_index(other),
        model.message_received(key, message_index).tunnel_index(other) == model.tunnel_index(other),
        model.message_received(key, message_index).closing_context(other) == model.closing_context(other),
        model.without_websocket(key).closing_context(other) == model.closing_context(other),
        forall|more: Seq<u8>, last: bool| #[trigger]
            model.chunk_received(key, chunk, finish).request_at_end(other, more, last) == model.request_at_end(
                other,
                more,
                last,
            ),
{
    if key.code() == other.code() {
        lemma_codes_are_distinct(key, other);
    }
}

// WebSockets
// ---------------------------------------------------------------------------------------------
proof fn lemma_nothing_is_delivered_without_a_websocket(model: RunnerModel, key: TunnelRequestKeyView, indices: Seq<u16>)
    requires
        !model.websockets.contains_key(key.code()),
    ensures
        model.all_delivered(key, indices).len() == 0,
    decreases indices.len(),
{
    if indices.len() > 0 {
        lemma_nothing_is_delivered_without_a_websocket(model, key, indices.skip(1));
    }
}

/// On a WebSocket that can hibernate the messages that are handed on are numbered consecutively,
/// from the one after the last that was seen. This holds whatever arrives, in whatever order: what
/// comes again is dropped, and a gap ends the WebSocket.
pub proof fn law_delivered_messages_are_consecutive(model: RunnerModel, key: TunnelRequestKeyView, indices: Seq<u16>)
    requires
        model.websockets.contains_key(key.code()),
        model.websockets[key.code()].is_hibernatable,
    ensures
        ({
            let delivered = model.all_delivered(key, indices);
            let seen = model.websockets[key.code()].server_message_index;
            forall|i: int| 0 <= i < delivered.len() ==> #[trigger] delivered[i] == index_ahead(seen, i + 1)
        }),
    decreases indices.len(),
{
    if indices.len() > 0 {
        let state = model.websockets[key.code()];
        let seen = state.server_message_index;
        let first = indices[0];
        let after = model.message_received(key, first);
        let delivered = model.all_delivered(key, indices);
        let later = after.all_delivered(key, indices.skip(1));
        if is_repeated(state, first) {
            law_delivered_messages_are_consecutive(after, key, indices.skip(1));
        } else if !is_expected(state, first) {
            lemma_nothing_is_delivered_without_a_websocket(after, key, indices.skip(1));
        } else {
            law_delivered_messages_are_consecutive(after, key, indices.skip(1));
            assert forall|i: int| 0 <= i < delivered.len() implies #[trigger] delivered[i] == index_ahead(
                seen,
                i + 1,
            ) by {
                if i > 0 {
                    assert(delivered[i] == later[i - 1]);
                    assert(later[i - 1] == index_ahead(first, i));
                }
            }
        }
    }
}

/// A message that was handed on is not handed on when it arrives again.
pub proof fn law_message_is_delivered_once(model: RunnerModel, key: TunnelRequestKeyView, message_index: u16)
    requires
        model.is_delivered(key, message_index),
        model.websockets[key.code()].is_hibernatable,
    ensures
        ({
            let after = model.message_received(key, message_index);
            !after.is_delivered(key, message_index) && after.message_received(key, message_index) == after
        }),
{
}

/// A message that comes too early is not handed on and ends the WebSocket, and the engine is told
/// where it can be.
pub proof fn law_gap_ends_the_websocket(model: RunnerModel, key: TunnelRequestKeyView, message_index: u16)
    requires
        model.websockets.contains_key(key.code()),
        !is_repeated(model.websockets[key.code()], message_index),
        !is_expected(model.websockets[key.code()], message_index),
    ensures
        !model.is_delivered(key, message_index),
        !model.message_received(key, message_index).websockets.contains_key(key.code()),
        model.sender == SenderState::Open ==> model.message_received(key, message_index).outbox == model.outbox.push(
            numbered_message(
                key,
                model.tunnel_index(key),
                ToServerTunnelMessageKindView::WebSocketClose {
                    code: Some(1008),
                    reason: Some("ws.message_index_skip"@),
                    hibernate: false,
                },
            ),
        ),
{
}

/// On a WebSocket that cannot hibernate every message is handed on, and nothing is counted.
pub proof fn law_plain_websocket_takes_every_message(model: RunnerModel, key: TunnelRequestKeyView, message_index: u16)
    requires
        model.websockets.contains_key(key.code()),
        !model.websockets[key.code()].is_hibernatable,
    ensures
        model.is_delivered(key, message_index),
        model.message_received(key, message_index) == model,
{
}

/// A WebSocket that was accepted is there, and its opening is confirmed, exactly if its open
/// callback succeeded; else it is gone and is closed towards the engine.
pub proof fn law_websocket_is_opened_or_closed(
    model: RunnerModel,
    key: TunnelRequestKeyView,
    context: WebSocketContextView,
    can_hibernate: bool,
    callback: Result<(), Seq<char>>,
)
    requires
        model.sender == SenderState::Open,
    ensures
        ({
            let after = model.with_websocket(key, opened_websocket(context, can_hibernate)).open_finished(
                key,
                can_hibernate,
                callback,
            );
            &&& after.websockets.contains_key(key.code()) <==> callback is Ok
            &&& after.outbox == model.outbox.push(
                numbered_message(
                    key,
                    model.tunnel_index(key),
                    if callback is Ok {
                        ToServerTunnelMessageKindView::WebSocketOpen { can_hibernate: can_hibernate }
                    } else {
                        ToServerTunnelMessageKindView::WebSocketClose {
                            code: Some(1011),
                            reason: Some("ws.open_error"@),
                            hibernate: false,
                        }
                    },
                ),
            )
        }),
{
}

// Requests
// ---------------------------------------------------------------------------------------------
/// Bytes that arrived in parts, put together.
pub open spec fn put_together(chunks: Seq<Seq<u8>>) -> Seq<u8>
    decreases chunks.len(),
{
    if chunks.len() == 0 {
        Seq::empty()
    } else {
        put_together(chunks.drop_last()) + chunks.last()
    }
}

proof fn lemma_streamed_so_far(
    model: RunnerModel,
    key: TunnelRequestKeyView,
    start: RequestStartView,
    chunks: Seq<Seq<u8>>,
)
    requires
        start.stream,
    ensures
        ({
            let after = model.request_started(key, start).chunks_received(key, chunks);
            let request = pending_request(start);
            &&& after.pending_http_requests.contains_key(key.code())
            &&& after.pending_http_requests[key.code()] == (PendingHttpRequestView {
                body: request.body + put_together(chunks),
                ..request
            })
        }),
    decreases chunks.len(),
{
    let request = pending_request(start);
    if chunks.len() == 0 {
        assert(request.body + put_together(chunks) =~= request.body);
    } else {
        lemma_streamed_so_far(model, key, start, chunks.drop_last());
        assert(request.body + put_together(chunks.drop_last()) + chunks.last() =~= request.body + put_together(chunks));
    }
}

/// A request whose body arrives in parts is handled once the last part is there, with the parts put
/// together in the order in which they came; before that it is not handled, and after that it is no
/// longer kept.
pub proof fn law_streamed_body_is_put_together(
    model: RunnerModel,
    key: TunnelRequestKeyView,
    start: RequestStartView,
    chunks: Seq<Seq<u8>>,
    last: Seq<u8>,
)
    requires
        start.stream,
    ensures
        ({
            let before = model.request_started(key, start).chunks_received(key, chunks);
            let request = pending_request(start);
            &&& model.request_at_once(start) is None
            &&& before.request_at_end(key, last, false) is None
            &&& before.request_at_end(key, last, true) == Some(
                PendingHttpRequestView { body: request.body + put_together(chunks) + last, ..request },
            )
            &&& !before.chunk_received(key, last, true).pending_http_requests.contains_key(key.code())
        }),
{
    lemma_streamed_so_far(model, key, start, chunks);
}

/// A request that is given up is not handled, whatever still arrives of it.
pub proof fn law_aborted_request_is_dropped(model: RunnerModel, key: TunnelRequestKeyView, chunk: Seq<u8>, finish: bool)
    ensures
        model.without_pending_request(key).request_at_end(key, chunk, finish) is None,
        model.without_pending_request(key).chunk_received(key, chunk, finish) == model.without_pending_request(key),
{
}

/// The numbered message with which a request is answered.
pub open spec fn is_answer(message: ToServerView, key: TunnelRequestKeyView, message_index: u16) -> bool {
    match message {
        ToServerView::TunnelMessage { message_id, message_kind } => {
            &&& message == numbered_message(key, message_index, message_kind)
            &&& message_kind is ResponseStart
        },
        _ => false,
    }
}

/// A request is answered with one response through its tunnel, be it by the actor or, where the
/// actor is not known or fails, by the runner.
pub proof fn law_request_is_answered_once(
    model: RunnerModel,
    key: TunnelRequestKeyView,
    request: PendingHttpRequestView,
    response: Option<HttpResponseView>,
)
    requires
        model.sender == SenderState::Open,
    ensures
        ({
            let after = model.request_answered(key, response);
            &&& after.outbox.len() == model.outbox.len() + 1
            &&& after.outbox.drop_last() == model.outbox
            &&& is_answer(after.outbox.last(), key, model.tunnel_index(key))
        }),
        model.wait(request.actor_id) is Absent ==> {
            let after = model.request_taken(key, request);
            &&& after.outbox.len() == model.outbox.len() + 1
            &&& after.outbox.drop_last() == model.outbox
            &&& is_answer(after.outbox.last(), key, model.tunnel_index(key))
        },
        !(model.wait(request.actor_id) is Absent) ==> model.request_taken(key, request) == model,
{
    assert(model.request_answered(key, response).outbox.drop_last() =~= model.outbox);
    if model.wait(request.actor_id) is Absent {
        assert(model.request_taken(key, request).outbox.drop_last() =~= model.outbox);
    }
}

// Headers
// ---------------------------------------------------------------------------------------------
impl RunnerModel {
    /// No request and no WebSocket that the runner keeps has a header twice.
    pub open spec fn headers_are_distinct(self) -> bool {
        &&& forall|code: u64| #[trigger]
            self.pending_http_requests.contains_key(code) ==> names_are_distinct(
                self.pending_http_requests[code].headers,
            )
        &&& forall|code: u64| #[trigger]
            self.websockets.contains_key(code) ==> names_are_distinct(self.websockets[code].headers)
    }
}

/// Whether what a message leads to has no header twice.
pub open spec fn action_is_valid(action: IncomingActionView) -> bool {
    match action {
        IncomingActionView::ProcessRequest { request, .. } => names_are_distinct(request.headers),
        IncomingActionView::OpenWebSocket { open, .. } => open.valid(),
        IncomingActionView::DeliverMessage { delivery, .. } => delivery.context.valid(),
        IncomingActionView::CloseWebSocket { context, .. } => context.valid(),
        _ => true,
    }
}

/// Where no message gives a header twice, the runner keeps none twice and hands none on twice.
pub proof fn law_headers_stay_distinct(model: RunnerModel, message: ToClientView)
    requires
        model.headers_are_distinct(),
        message.valid(),
    ensures
        model.received(message).headers_are_distinct(),
        action_is_valid(model.incoming_action(message)),
{
}

/// A WebSocket that is opened or brought back has no header twice where the request or the metadata
/// has none twice, and one that goes leaves the others as they are.
pub proof fn law_headers_of_websockets_stay_distinct(
    model: RunnerModel,
    key: TunnelRequestKeyView,
    open: WebSocketOpenView,
    can_hibernate: bool,
    restore: RestoreView,
    meta: HibernatingWebSocketMetadataView,
)
    requires
        model.headers_are_distinct(),
        open.valid(),
        meta.valid(),
    ensures
        model.websocket_requested(key, open).headers_are_distinct(),
        model.open_step(key, open) matches WebSocketOpenStepView::Asking(context) ==> {
            &&& context.valid()
            &&& model.with_websocket(key, opened_websocket(context, can_hibernate)).headers_are_distinct()
        },
        model.brought_back(restore, meta).headers_are_distinct(),
        restore.open_step(meta) matches RestoreStepView::Open(context) && context.valid(),
        restore.close_step(meta) matches RestoreStepView::Close { context, .. } && context.valid(),
        model.without_websocket(key).headers_are_distinct(),
        model.forgotten(open.actor_id).headers_are_distinct(),
{
}

// Events
// ---------------------------------------------------------------------------------------------
/// An event stays pending from when it is emitted, whether or not it could be sent, and what was
/// pending before stays so.
pub proof fn law_emitted_event_is_pending(
    model: RunnerModel,
    actor_id: Seq<char>,
    generation: u32,
    event: EventView,
    earlier: EventWrapperView,
)
    requires
        model.actors.valid(),
        histories_in_order(model.actors),
        model.can_emit(actor_id),
        model.actors.has(actor_id),
    ensures
        model.emitted(actor_id, generation, event).pending_events().contains(
            model.next_event(actor_id, generation, event),
        ),
        model.pending_events().contains(earlier) ==> model.emitted(
            actor_id,
            generation,
            event,
        ).pending_events().contains(earlier),
{
    let after = model.emitted(actor_id, generation, event);
    let next = model.next_event(actor_id, generation, event);
    crate::state::lemma_emission_keeps_order(model, actor_id, generation, event);
    assert(after.actors.valid()) by {
        assert forall|name: Seq<char>| #[trigger] after.actors.map.contains_key(name) <==> after.actors.order.contains(
            name,
        ) by {
            assert(model.actors.map.contains_key(name) <==> model.actors.order.contains(name));
        }
    }
    let history = model.actors.at(actor_id).event_history;
    assert(history.push(next)[history.len() as int] == next);
    crate::events::lemma_pending_event(after.actors, next);
    crate::events::lemma_pending_event(model.actors, earlier);
    crate::events::lemma_pending_event(after.actors, earlier);
    if model.pending_events().contains(earlier) && earlier.checkpoint.actor_id == actor_id {
        assert(history.push(next)[history.index_of(earlier)] == earlier);
    }
}

/// When the engine greets a runner, the pending events are sent in one message, if there are any,
/// and nothing else is.
pub proof fn law_pending_events_are_resent_on_greeting(model: RunnerModel, runner_id: Seq<char>)
    requires
        model.sender == SenderState::Open,
    ensures
        ({
            let after = model.received(ToClientView::Init { runner_id: runner_id });
            &&& after.runner_id == Some(runner_id)
            &&& after.actors == model.actors
            &&& model.pending_events().len() == 0 ==> after.outbox == model.outbox
            &&& model.pending_events().len() > 0 ==> after.outbox == model.outbox.push(
                ToServerView::Events(model.pending_events()),
            )
        }),
{
    let named = model.with_runner_id(runner_id);
    assert(named.actors == model.actors);
    assert(named.pending_events() == model.pending_events());
}

// The key-value store
// ---------------------------------------------------------------------------------------------
/// A reply of the store reaches the request whose number it carries, once.
pub proof fn law_reply_reaches_its_request_once(
    model: RunnerModel,
    actor_id: Seq<char>,
    request: KvRequestDataView,
    reply: KvResponseDataView,
)
    requires
        model.sender == SenderState::Open,
    ensures
        ({
            let request_id = model.next_kv_request_id;
            let waiting = model.kv_requested(actor_id, request);
            let message = ToClientView::KvResponse { request_id: request_id, data: reply };
            &&& model.kv_request_outcome() == Ok::<u32, RunnerErrorView>(request_id)
            &&& waiting.outbox == model.outbox.push(
                ToServerView::KvRequest { actor_id: actor_id, request_id: request_id, data: request },
            )
            &&& waiting.incoming_action(message) == (IncomingActionView::KvReply {
                request_id: request_id,
                data: reply,
            })
            &&& waiting.received(message).incoming_action(message) == IncomingActionView::Nothing
        }),
{
}

impl RunnerModel {
    /// With several requests to the store sent.
    pub open spec fn all_kv_requested(self, requests: Seq<(Seq<char>, KvRequestDataView)>) -> Self
        decreases requests.len(),
    {
        if requests.len() == 0 {
            self
        } else {
            self.all_kv_requested(requests.drop_last()).kv_requested(requests.last().0, requests.last().1)
        }
    }
}

/// Requests to the store are numbered consecutively, around after the highest number, so that fewer
/// than four billion of them in a row have different numbers.
pub proof fn law_store_requests_are_numbered_consecutively(
    model: RunnerModel,
    requests: Seq<(Seq<char>, KvRequestDataView)>,
)
    ensures
        model.all_kv_requested(requests).next_kv_request_id == (model.next_kv_request_id + requests.len())
            % 4294967296,
        0 < requests.len() < 4294967296 ==> model.all_kv_requested(requests).next_kv_request_id
            != model.next_kv_request_id,
    decreases requests.len(),
{
    if requests.len() > 0 {
        law_store_requests_are_numbered_consecutively(model, requests.drop_last());
    }
}

// Running
// ---------------------------------------------------------------------------------------------
/// A runner that is shut down neither connects nor waits to connect again; it only tells of a
/// disconnect that has just happened.
pub proof fn law_shut_down_runner_stops(model: RunnerModel, delay_ms: u64, event: RunEventView)
    requires
        model.shutdown,
    ensures
        model.run_action(delay_ms, event) is Stop || event is Disconnected && model.run_action(
            delay_ms,
            event,
        ) is NotifyDisconnected,
{
}

// Restoring
// ---------------------------------------------------------------------------------------------
/// The WebSockets of an actor are restored at most once.
pub proof fn law_restoring_begins_once(
    model: RunnerModel,
    actor_id: Seq<char>,
    meta_entries: Seq<HibernatingWebSocketMetadataView>,
    again: Seq<HibernatingWebSocketMetadataView>,
)
    requires
        model.restore_begun(actor_id, meta_entries) is Ok,
    ensures
        model.with_restore_begun(actor_id).restore_begun(actor_id, again) == Err::<RestoreView, RunnerErrorView>(
            RunnerErrorView::AlreadyRestored { actor_id: actor_id },
        ),
{
}

/// The callbacks of a whole restoring in which every callback succeeds, and the runner after it.
pub open spec fn restore_run(model: RunnerModel, restore: RestoreView) -> (Seq<RestoreStepView>, RunnerModel)
    decreases restore.left(),
    when restore.valid()
    via restore_run_ends
{
    let (advanced, reached, step) = model.restore_advanced(restore);
    match step {
        RestoreStepView::Open(_) => {
            let (steps, after) = restore_run(advanced, reached.past_request());
            (seq![step] + steps, after)
        },
        RestoreStepView::Close { .. } => {
            let key = meta_key(reached.meta_entries[reached.stale_at as int]);
            let (steps, after) = restore_run(advanced.restore_closed(key, true), reached.past_meta());
            (seq![step] + steps, after)
        },
        RestoreStepView::Finished => (Seq::empty(), advanced),
        RestoreStepView::Failed(_) => (seq![step], advanced),
    }
}

#[via_fn]
proof fn restore_run_ends(model: RunnerModel, restore: RestoreView) {
    lemma_restore_advanced(model, restore);
}

proof fn lemma_restore_advanced(model: RunnerModel, restore: RestoreView)
    requires
        restore.valid(),
    ensures
        ({
            let (after, reached, step) = model.restore_advanced(restore);
            &&& reached.valid()
            &&& reached.left() <= restore.left()
            &&& step is Open ==> reached.at < reached.connected.len()
            &&& step is Close ==> reached.stale_at < reached.meta_entries.len()
        }),
    decreases restore.left(),
{
    if restore.at < restore.connected.len() {
        let key = request_key(restore.connected[restore.at as int]);
        if meta_for(restore.meta_entries, key) is None && model.send_outcome() is Ok {
            lemma_restore_advanced(model.unknown_closed(key), restore.past_request());
        }
    } else if restore.stale_at < restore.meta_entries.len() {
        if is_connected(restore.connected, meta_key(restore.meta_entries[restore.stale_at as int])) {
            lemma_restore_advanced(model, restore.past_meta());
        }
    }
}

/// The open callbacks for the connected requests that are left: one for each that has metadata.
pub open spec fn open_steps(restore: RestoreView) -> Seq<RestoreStepView>
    decreases restore.connected.len() - restore.at,
    when restore.valid()
{
    if restore.at >= restore.connected.len() {
        Seq::empty()
    } else {
        let later = open_steps(restore.past_request());
        match meta_for(restore.meta_entries, request_key(restore.connected[restore.at as int])) {
            Some(meta) => seq![restore.open_step(meta)] + later,
            None => later,
        }
    }
}

/// The close callbacks for the metadata entries that are left: one for each that is not connected.
pub open spec fn close_steps(restore: RestoreView) -> Seq<RestoreStepView>
    decreases restore.meta_entries.len() - restore.stale_at,
    when restore.valid()
{
    if restore.stale_at >= restore.meta_entries.len() {
        Seq::empty()
    } else {
        let meta = restore.meta_entries[restore.stale_at as int];
        let later = close_steps(restore.past_meta());
        if is_connected(restore.connected, meta_key(meta)) {
            later
        } else {
            seq![restore.close_step(meta)] + later
        }
    }
}

proof fn lemma_close_steps_past_request(restore: RestoreView)
    requires
        restore.valid(),
        restore.at < restore.connected.len(),
    ensures
        close_steps(restore.past_request()) == close_steps(restore),
    decreases restore.meta_entries.len() - restore.stale_at,
{
    if restore.stale_at < restore.meta_entries.len() {
        lemma_close_steps_past_request(restore.past_meta());
        assert(restore.past_meta().past_request() == restore.past_request().past_meta());
    }
}

/// Restoring opens, in order, every connected request that has metadata, and then closes, in order,
/// every metadata entry that is not connected. No other callback is asked for. This is the whole
/// run where the engine can be reached and every callback succeeds.
pub proof fn law_restoring_asks_for_every_callback(model: RunnerModel, restore: RestoreView)
    requires
        restore.valid(),
        model.sender == SenderState::Open,
    ensures
        restore_run(model, restore).0 == open_steps(restore) + close_steps(restore),
    decreases restore.left(),
{
    if restore.at < restore.connected.len() {
        let key = request_key(restore.connected[restore.at as int]);
        lemma_close_steps_past_request(restore);
        match meta_for(restore.meta_entries, key) {
            Some(meta) => {
                law_restoring_asks_for_every_callback(model.brought_back(restore, meta), restore.past_request());
                assert(seq![restore.open_step(meta)] + (open_steps(restore.past_request()) + close_steps(restore))
                    =~= open_steps(restore) + close_steps(restore));
            },
            None => {
                law_restoring_asks_for_every_callback(model.unknown_closed(key), restore.past_request());
                assert(model.restore_advanced(restore) == model.unknown_closed(key).restore_advanced(
                    restore.past_request(),
                ));
            },
        }
    } else if restore.stale_at < restore.meta_entries.len() {
        let meta = restore.meta_entries[restore.stale_at as int];
        assert(open_steps(restore) =~= Seq::empty());
        assert(open_steps(restore.past_meta()) =~= Seq::empty());
        if is_connected(restore.connected, meta_key(meta)) {
            law_restoring_asks_for_every_callback(model, restore.past_meta());
            assert(model.restore_advanced(restore) == model.restore_advanced(restore.past_meta()));
        } else {
            law_restoring_asks_for_every_callback(model.restore_closed(meta_key(meta), true), restore.past_meta());
            assert(seq![restore.close_step(meta)] + (open_steps(restore.past_meta()) + close_steps(restore.past_meta()))
                =~= open_steps(restore) + close_steps(restore));
        }
    } else {
        assert(open_steps(restore) + close_steps(restore) =~= Seq::empty());
    }
}

/// Every id in a restoring has four bytes.
pub open spec fn has_whole_ids(restore: RestoreView) -> bool {
    &&& forall|i: int|
        0 <= i < restore.connected.len() ==> (#[trigger] restore.connected[i]).gateway_id.len() == 4
            && restore.connected[i].request_id.len() == 4
    &&& forall|j: int|
        0 <= j < restore.meta_entries.len() ==> (#[trigger] restore.meta_entries[j]).gateway_id.len() == 4
            && restore.meta_entries[j].request_id.len() == 4
}

/// What is known of a connected request.
pub open spec fn known_meta(restore: RestoreView, i: int) -> Option<HibernatingWebSocketMetadataView> {
    meta_for(restore.meta_entries, request_key(restore.connected[i]))
}

/// The number under which the tunnel of a connected request is filed.
pub open spec fn connected_code(restore: RestoreView, i: int) -> u64 {
    request_key(restore.connected[i]).code()
}

/// The number under which the tunnel of a metadata entry is filed.
pub open spec fn meta_code(restore: RestoreView, j: int) -> u64 {
    meta_key(restore.meta_entries[j]).code()
}

/// Whether restoring leaves alone what is filed under a number.
pub open spec fn is_left_alone(restore: RestoreView, code: u64) -> bool {
    &&& forall|i: int|
        restore.at <= i < restore.connected.len() && (#[trigger] known_meta(restore, i)) is Some ==> connected_code(
            restore,
            i,
        ) != code
    &&& forall|j: int|
        restore.stale_at <= j < restore.meta_entries.len() && #[trigger] is_stale(restore, j) ==> meta_code(restore, j)
            != code
}

/// Whether a metadata entry is about a tunnel that is not connected.
pub open spec fn is_stale(restore: RestoreView, j: int) -> bool {
    !is_connected(restore.connected, meta_key(restore.meta_entries[j]))
}

proof fn lemma_meta_for_key(entries: Seq<HibernatingWebSocketMetadataView>, key: TunnelRequestKeyView)
    ensures
        meta_for(entries, key) is Some ==> meta_key(meta_for(entries, key)->0) == key,
    decreases entries.len(),
{
    if entries.len() > 0 {
        lemma_meta_for_key(entries.skip(1), key);
    }
}

/// After restoring, every connected request that has metadata has its WebSocket back, no metadata
/// entry that is not connected has one, and all other WebSockets are as they were. This is so where
/// the engine can be reached and every callback succeeds.
pub proof fn law_restored_websockets(model: RunnerModel, restore: RestoreView)
    requires
        restore.valid(),
        has_whole_ids(restore),
        model.sender == SenderState::Open,
    ensures
        ({
            let after = restore_run(model, restore).1.websockets;
            &&& forall|i: int|
                restore.at <= i < restore.connected.len() && (#[trigger] known_meta(restore, i)) is Some ==> {
                    &&& after.contains_key(connected_code(restore, i))
                    &&& after[connected_code(restore, i)] == restore.restored(known_meta(restore, i)->0)
                }
            &&& forall|j: int|
                restore.stale_at <= j < restore.meta_entries.len() && #[trigger] is_stale(restore, j)
                    ==> !after.contains_key(meta_code(restore, j))
            &&& forall|code: u64| #[trigger]
                is_left_alone(restore, code) ==> {
                    &&& after.contains_key(code) == model.websockets.contains_key(code)
                    &&& after.contains_key(code) ==> after[code] == model.websockets[code]
                }
        }),
    decreases restore.left(),
{
    let after = restore_run(model, restore).1.websockets;
    if restore.at < restore.connected.len() {
        let at = restore.at as int;
        let next = restore.past_request();
        let key = request_key(restore.connected[at]);
        assert forall|i: int|
            #![trigger known_meta(restore, i)]
            #![trigger known_meta(next, i)]
            known_meta(next, i) == known_meta(restore, i) && connected_code(next, i) == connected_code(restore, i) by {}
        assert forall|j: int|
            #![trigger is_stale(restore, j)]
            #![trigger is_stale(next, j)]
            is_stale(next, j) == is_stale(restore, j) && meta_code(next, j) == meta_code(restore, j) by {}
        match meta_for(restore.meta_entries, key) {
            Some(meta) => {
                let advanced = model.brought_back(restore, meta);
                lemma_meta_for_key(restore.meta_entries, key);
                law_restored_websockets(advanced, next);
                assert(after == restore_run(advanced, next).1.websockets);
                assert(known_meta(restore, at) == Some(meta));
                let code = connected_code(restore, at);
                assert(after.contains_key(code) && after[code] == restore.restored(meta)) by {
                    if exists|i: int|
                        next.at <= i < next.connected.len() && (#[trigger] known_meta(next, i)) is Some
                            && connected_code(next, i) == code {
                        let i = choose|i: int|
                            next.at <= i < next.connected.len() && (#[trigger] known_meta(next, i)) is Some
                                && connected_code(next, i) == code;
                        lemma_codes_are_distinct(request_key(restore.connected[i]), key);
                        assert(known_meta(next, i) == Some(meta));
                    } else {
                        assert forall|j: int|
                            next.stale_at <= j < next.meta_entries.len() && #[trigger] is_stale(next, j) implies meta_code(
                            next,
                            j,
                        ) != code by {
                            if meta_code(next, j) == code {
                                lemma_codes_are_distinct(meta_key(restore.meta_entries[j]), key);
                                assert(request_key(restore.connected[at]) == key);
                                assert(is_connected(restore.connected, key));
                            }
                        }
                        assert(is_left_alone(next, code));
                        assert(advanced.websockets.contains_key(code));
                        assert(after.contains_key(code) == advanced.websockets.contains_key(code));
                    }
                }
                assert forall|code: u64| #[trigger] is_left_alone(restore, code) implies {
                    &&& after.contains_key(code) == model.websockets.contains_key(code)
                    &&& after.contains_key(code) ==> after[code] == model.websockets[code]
                } by {
                    assert(is_left_alone(next, code));
                    assert(connected_code(restore, at) != code);
                    assert(advanced.websockets.contains_key(code) == model.websockets.contains_key(code));
                }
            },
            None => {
                let advanced = model.unknown_closed(key);
                law_restored_websockets(advanced, next);
                assert(model.restore_advanced(restore) == advanced.restore_advanced(next));
                assert(after == restore_run(advanced, next).1.websockets);
                assert(known_meta(restore, at) is None);
                assert forall|code: u64| #[trigger] is_left_alone(restore, code) implies is_left_alone(next, code) by {}
            },
        }
    } else if restore.stale_at < restore.meta_entries.len() {
        let at = restore.stale_at as int;
        let next = restore.past_meta();
        let meta = restore.meta_entries[at];
        assert forall|j: int|
            #![trigger is_stale(restore, j)]
            #![trigger is_stale(next, j)]
            is_stale(next, j) == is_stale(restore, j) && meta_code(next, j) == meta_code(restore, j) by {}
        if is_connected(restore.connected, meta_key(meta)) {
            law_restored_websockets(model, next);
            assert(model.restore_advanced(restore) == model.restore_advanced(next));
            assert(after == restore_run(model, next).1.websockets);
            assert(!is_stale(restore, at));
            assert forall|code: u64| #[trigger] is_left_alone(restore, code) implies is_left_alone(next, code) by {}
        } else {
            let advanced = model.restore_closed(meta_key(meta), true);
            law_restored_websockets(advanced, next);
            assert(after == restore_run(advanced, next).1.websockets);
            assert(is_stale(restore, at));
            let code = meta_code(restore, at);
            assert(!after.contains_key(code)) by {
                if exists|j: int|
                    next.stale_at <= j < next.meta_entries.len() && #[trigger] is_stale(next, j) && meta_code(next, j)
                        == code {
                    let j = choose|j: int|
                        next.stale_at <= j < next.meta_entries.len() && #[trigger] is_stale(next, j) && meta_code(
                            next,
                            j,
                        ) == code;
                    assert(is_stale(next, j));
                } else {
                    assert(is_left_alone(next, code));
                    assert(!advanced.websockets.contains_key(code));
                    assert(after.contains_key(code) == advanced.websockets.contains_key(code));
                }
            }
            assert forall|code: u64| #[trigger] is_left_alone(restore, code) implies {
                &&& after.contains_key(code) == model.websockets.contains_key(code)
                &&& after.contains_key(code) ==> after[code] == model.websockets[code]
            } by {
                assert(is_left_alone(next, code));
                assert(meta_code(restore, at) != code);
                assert(advanced.websockets.contains_key(code) == model.websockets.contains_key(code));
            }
        }
    }
}

} // verus!
