//! What leaves a runner, field by field.

use crate::actor::ActorLifecycleEventView;
use crate::config::RunnerConfigView;
use crate::error::RunnerErrorView;
use crate::protocol::{
    ActorCheckpointView, EventView, EventWrapperView, MessageIdView, ToServerTunnelMessageKindView, ToServerView,
};
use crate::runtime::{ActorRuntimeStateView, SenderState};
use crate::sequence::precedes;
use crate::state::RunnerModel;
use crate::tunnel::TunnelRequestKeyView;
use vstd::prelude::*;

verus! {

/// The queue of a runner once it was asked to send a message: with the message at its end, if the
/// way to the engine is open.
pub open spec fn queue_with(model: RunnerModel, message: ToServerView) -> Seq<ToServerView> {
    if model.sender == SenderState::Open {
        model.outbox + seq![message]
    } else {
        model.outbox
    }
}

/// Whether a runner can send, and why not.
pub open spec fn sending(model: RunnerModel) -> Result<(), RunnerErrorView> {
    if model.sender == SenderState::Open {
        Ok(())
    } else if model.sender == SenderState::Closed {
        Err(RunnerErrorView::SenderClosed)
    } else {
        Err(RunnerErrorView::SenderUnavailable)
    }
}

/// The number that a tunnel is at.
pub open spec fn number_of(model: RunnerModel, key: TunnelRequestKeyView) -> int {
    if model.tunnel_message_indices.dom().contains(key.code()) {
        model.tunnel_message_indices[key.code()] as int
    } else {
        0
    }
}

/// A runner once it was asked to send something through a tunnel: the message carries the ids of
/// the tunnel and its number, the number goes up by one, and nothing else changes.
pub open spec fn after_tunnel_message(
    model: RunnerModel,
    key: TunnelRequestKeyView,
    kind: ToServerTunnelMessageKindView,
) -> RunnerModel {
    RunnerModel {
        outbox: queue_with(
            model,
            ToServerView::TunnelMessage {
                message_id: MessageIdView {
                    gateway_id: key.gateway_id,
                    request_id: key.request_id,
                    message_index: number_of(model, key) as u16,
                },
                message_kind: kind,
            },
        ),
        tunnel_message_indices: model.tunnel_message_indices.insert(
            key.code(),
            ((number_of(model, key) + 1) % 65536) as u16,
        ),
        ..model
    }
}

/// A runner once it was asked to close a WebSocket for a reason.
pub open spec fn after_close(model: RunnerModel, key: TunnelRequestKeyView, code: u16, reason: Seq<char>) -> RunnerModel {
    after_tunnel_message(
        model,
        key,
        ToServerTunnelMessageKindView::WebSocketClose { code: Some(code), reason: Some(reason), hibernate: false },
    )
}

/// A runner once an actor emitted an event: the event carries the actor's id, the generation and
/// the next number of the actor, it is kept at the end of the actor's history, and it is sent.
pub open spec fn after_event(
    model: RunnerModel,
    actor_id: Seq<char>,
    generation: u32,
    event: EventView,
) -> RunnerModel {
    let actor = model.actors.map[actor_id];
    let wrapper = EventWrapperView {
        checkpoint: ActorCheckpointView { actor_id: actor_id, generation: generation, index: actor.next_event_idx },
        inner: event,
    };
    let actors = model.actors;
    RunnerModel {
        actors: crate::names::NameModel {
            order: actors.order,
            map: actors.map.insert(
                actor_id,
                ActorRuntimeStateView {
                    next_event_idx: (actor.next_event_idx + 1) as i64,
                    event_history: actor.event_history + seq![wrapper],
                    ..actor
                },
            ),
        },
        outbox: queue_with(model, ToServerView::Events(seq![wrapper])),
        ..model
    }
}

/// A message is queued behind all others where the way to the engine is open; else nothing changes,
/// and the error says whether there is no way or a closed one.
pub proof fn law_message_is_queued_last(model: RunnerModel, message: ToServerView)
    ensures
        model.sent(message) == (RunnerModel { outbox: queue_with(model, message), ..model }),
        model.send_outcome() == sending(model),
        crate::state::send_outcome(model.sender) == sending(model),
        model.send_outcome() is Ok <==> model.sender == SenderState::Open,
{
    assert(model.outbox.push(message) =~= model.outbox + seq![message]);
}

/// A message through a tunnel carries the ids of the tunnel and the tunnel's number, whatever its
/// kind, and moves the number on by one.
pub proof fn law_tunnel_message_is_numbered(
    model: RunnerModel,
    key: TunnelRequestKeyView,
    kind: ToServerTunnelMessageKindView,
    code: u16,
    reason: Seq<char>,
)
    ensures
        model.tunnel_index(key) as int == number_of(model, key),
        model.tunnel_sent(key, kind) == after_tunnel_message(model, key, kind),
        model.close_sent(key, code, reason) == after_close(model, key, code, reason),
{
    law_message_is_queued_last(model, ToServerView::Stopping);
    let close = ToServerTunnelMessageKindView::WebSocketClose {
        code: Some(code),
        reason: Some(reason),
        hibernate: false,
    };
    assert(model.tunnel_sent(key, kind) =~= after_tunnel_message(model, key, kind));
    assert(model.tunnel_sent(key, close) =~= after_tunnel_message(model, key, close));
}

/// Setting the number of a tunnel sets that number and no other; taking note of a tunnel sets it
/// only where the tunnel has none.
pub proof fn law_tunnel_number_is_set(model: RunnerModel, key: TunnelRequestKeyView, index: u16)
    ensures
        model.with_tunnel_index(key, index) == (RunnerModel {
            tunnel_message_indices: model.tunnel_message_indices.insert(key.code(), index),
            ..model
        }),
        model.tunnel_message_indices.dom().contains(key.code()) ==> model.with_tunnel_known(key, index) == model,
        !model.tunnel_message_indices.dom().contains(key.code()) ==> model.with_tunnel_known(key, index) == (
        RunnerModel { tunnel_message_indices: model.tunnel_message_indices.insert(key.code(), index), ..model }),
{
}

/// An event of a known actor is numbered, kept and sent; one of an unknown actor changes nothing and
/// says so.
pub proof fn law_event_is_kept_and_sent(model: RunnerModel, actor_id: Seq<char>, generation: u32, event: EventView)
    ensures
        model.actors.map.dom().contains(actor_id) ==> {
            &&& model.emitted(actor_id, generation, event) == after_event(model, actor_id, generation, event)
            &&& model.emit_outcome(actor_id) == sending(model)
            &&& model.can_emit(actor_id) <==> model.actors.map[actor_id].next_event_idx < 0x7fff_ffff_ffff_ffff
        },
        !model.actors.map.dom().contains(actor_id) ==> {
            &&& model.emitted(actor_id, generation, event) == model
            &&& model.emit_outcome(actor_id) == Err::<(), RunnerErrorView>(
                RunnerErrorView::ActorNotFound { actor_id: actor_id },
            )
            &&& model.can_emit(actor_id)
        },
{
    if model.actors.map.dom().contains(actor_id) {
        assert(model.emitted(actor_id, generation, event) =~= after_event(model, actor_id, generation, event)) by {
            let history = model.actors.map[actor_id].event_history;
            let wrapper = model.next_event(actor_id, generation, event);
            assert(history.push(wrapper) =~= history + seq![wrapper]);
            assert(model.outbox.push(ToServerView::Events(seq![wrapper])) =~= model.outbox + seq![
                ToServerView::Events(seq![wrapper]),
            ]);
        }
    }
}

/// A WebSocket that is filed or taken out changes what stands under its tunnel and nothing else, and
/// news for subscribers come last.
pub proof fn law_filing_touches_one_place(
    model: RunnerModel,
    key: TunnelRequestKeyView,
    state: crate::runtime::WebSocketRuntimeStateView,
    event: ActorLifecycleEventView,
    actor_id: Seq<char>,
)
    ensures
        model.with_websocket(key, state) == (RunnerModel {
            websockets: model.websockets.insert(key.code(), state),
            ..model
        }),
        model.without_websocket(key) == (RunnerModel { websockets: model.websockets.remove(key.code()), ..model }),
        model.announced(event) == (RunnerModel { lifecycle: model.lifecycle + seq![event], ..model }),
        model.without_websockets_of(actor_id) == (RunnerModel {
            websockets: model.without_websockets_of(actor_id).websockets,
            ..model
        }),
        forall|code: u64| #[trigger]
            model.without_websockets_of(actor_id).websockets.dom().contains(code)
                <==> model.websockets.dom().contains(code) && model.websockets[code].actor_id != actor_id,
        forall|code: u64| #[trigger]
            model.without_websockets_of(actor_id).websockets.dom().contains(code) ==> model.without_websockets_of(
                actor_id,
            ).websockets[code] == model.websockets[code],
        model.without_actor(actor_id) == (RunnerModel { actors: model.without_actor(actor_id).actors, ..model }),
        model.without_actor(actor_id).actors.map == model.actors.map.remove(actor_id),
{
    assert(model.lifecycle.push(event) =~= model.lifecycle + seq![event]);
}

/// A new runner holds its configuration and nothing else: it is neither started nor shut down, has
/// no id, no way to the engine, nothing queued, no actors, no requests, no tunnels and no WebSockets.
pub proof fn law_new_runner_holds_nothing(config: RunnerConfigView)
    ensures
        ({
            let model = RunnerModel::fresh(config);
            &&& model.config == config
            &&& model.runner_id is None
            &&& !model.shutdown
            &&& !model.started
            &&& model.sender == SenderState::Absent
            &&& model.outbox.len() == 0
            &&& model.lifecycle.len() == 0
            &&& model.actors.order.len() == 0
            &&& forall|actor_id: Seq<char>| !#[trigger] model.actors.map.dom().contains(actor_id)
            &&& model.next_kv_request_id == 0
            &&& forall|id: u32| !#[trigger] model.pending_kv_requests.contains(id)
            &&& forall|code: u64| !#[trigger] model.pending_http_requests.dom().contains(code)
            &&& forall|code: u64| !#[trigger] model.tunnel_message_indices.dom().contains(code)
            &&& forall|code: u64| !#[trigger] model.websockets.dom().contains(code)
        }),
{
}

/// Of two indices the first comes before the second exactly if the second lies one to 32766 steps
/// ahead of it.
pub proof fn law_order_of_indices(a: u16, steps: int)
    requires
        0 <= steps < 65536,
    ensures
        precedes(a, ((a + steps) % 65536) as u16) <==> 1 <= steps <= 32766,
        crate::sequence::next_index(a) == ((a + 1) % 65536) as u16,
        crate::sequence::forward_distance(a, ((a + steps) % 65536) as u16) == steps,
{
}

} // verus!
