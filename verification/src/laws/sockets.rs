//! What becomes of WebSockets, field by field.

use super::sending::{
    after_close, after_tunnel_message, law_message_is_queued_last, law_tunnel_message_is_numbered, sending,
};
use crate::actions::{RestoreStepView, WebSocketOpenStepView};
use crate::actor::{HibernatingWebSocketMetadataView, WebSocketContextView};
use crate::error::RunnerErrorView;
use crate::protocol::{
    ActorCheckpointView, CommandStartActorView, ToServerTunnelMessageKindView, ToServerView, WebSocketOpenView,
};
use crate::restore::{is_connected, meta_for, meta_key, request_key, RestoreView};
use crate::runtime::{ActorRuntimeStateView, WebSocketRuntimeStateView};
use crate::state::RunnerModel;
use crate::tunnel::TunnelRequestKeyView;
use crate::websocket::{opened_websocket, websocket_context};
use vstd::prelude::*;

verus! {

// Opening
// ---------------------------------------------------------------------------------------------
/// A request to open a WebSocket for an actor that is up leads to the question whether it can
/// hibernate, asked about exactly what the request and the actor say. For an actor that is not up it
/// waits. For an unknown actor it is closed. Nothing else changes.
pub proof fn law_websocket_request(model: RunnerModel, key: TunnelRequestKeyView, open: WebSocketOpenView)
    ensures
        ({
            let actor = model.actors.map[open.actor_id];
            let known = model.actors.map.dom().contains(open.actor_id);
            &&& known && actor.started ==> {
                &&& model.websocket_requested(key, open) == model
                &&& model.open_step(key, open) == WebSocketOpenStepView::Asking(
                    WebSocketContextView {
                        actor_id: open.actor_id,
                        generation: actor.generation,
                        actor_name: actor.config.name,
                        gateway_id: key.gateway_id,
                        request_id: key.request_id,
                        path: open.path,
                        headers: open.headers,
                        is_hibernatable: false,
                        is_restoring_hibernatable: false,
                    },
                )
            }
            &&& known && !actor.started ==> {
                &&& model.websocket_requested(key, open) == model
                &&& model.open_step(key, open) == (WebSocketOpenStepView::Waiting {
                    start_notify: actor.start_notify,
                })
            }
            &&& !known ==> {
                &&& model.websocket_requested(key, open) == after_close(
                    model,
                    key,
                    1011,
                    "runner.actor_not_found"@,
                )
                &&& model.open_step(key, open) == (WebSocketOpenStepView::Rejected { sent: sending(model) })
            }
        }),
{
    let kind = ToServerTunnelMessageKindView::WebSocketOpen { can_hibernate: false };
    law_tunnel_message_is_numbered(model, key, kind, 1011, "runner.actor_not_found"@);
    law_message_is_queued_last(model, ToServerView::Stopping);
}

/// A WebSocket that is accepted is filed under its tunnel with what the callback is told of it, with
/// whether it can hibernate, and with no message counted.
pub proof fn law_accepted_websocket(
    model: RunnerModel,
    key: TunnelRequestKeyView,
    context: WebSocketContextView,
    can_hibernate: bool,
)
    ensures
        ({
            let after = model.with_websocket(key, opened_websocket(context, can_hibernate));
            &&& after == (RunnerModel { websockets: after.websockets, ..model })
            &&& after.websockets == model.websockets.insert(
                key.code(),
                WebSocketRuntimeStateView {
                    actor_id: context.actor_id,
                    generation: context.generation,
                    actor_name: context.actor_name,
                    path: context.path,
                    headers: context.headers,
                    is_hibernatable: can_hibernate,
                    is_restoring_hibernatable: false,
                    server_message_index: 0,
                },
            )
        }),
{
}

/// After the open callback the engine is told that the WebSocket is open and whether it can
/// hibernate; a failed callback takes the WebSocket away, tells the engine that it is closed, and is
/// itself the error, unless the engine cannot be told.
pub proof fn law_open_callback(
    model: RunnerModel,
    key: TunnelRequestKeyView,
    can_hibernate: bool,
    message: Seq<char>,
)
    ensures
        model.open_finished(key, can_hibernate, Ok(())) == after_tunnel_message(
            model,
            key,
            ToServerTunnelMessageKindView::WebSocketOpen { can_hibernate: can_hibernate },
        ),
        model.open_outcome(Ok(())) == sending(model),
        model.open_finished(key, can_hibernate, Err(message)) == after_close(
            RunnerModel { websockets: model.websockets.remove(key.code()), ..model },
            key,
            1011,
            "ws.open_error"@,
        ),
        model.open_outcome(Err(message)) == if sending(model) is Ok {
            Err(RunnerErrorView::WebSocketCallbackFailed { message: message })
        } else {
            sending(model)
        },
{
    let kind = ToServerTunnelMessageKindView::WebSocketOpen { can_hibernate: can_hibernate };
    let without = RunnerModel { websockets: model.websockets.remove(key.code()), ..model };
    law_tunnel_message_is_numbered(model, key, kind, 1011, "ws.open_error"@);
    law_tunnel_message_is_numbered(without, key, kind, 1011, "ws.open_error"@);
    law_message_is_queued_last(model, ToServerView::Stopping);
}

// Messages
// ---------------------------------------------------------------------------------------------
/// How many steps lie from one index forward to another.
pub open spec fn steps(from: u16, to: u16) -> int {
    (to as int - from as int + 65536) % 65536
}

/// What is handed on of a message is what arrived: its data, whether it is binary and its index,
/// together with everything that the runner keeps of the WebSocket.
pub proof fn law_message_is_handed_on_as_it_came(
    model: RunnerModel,
    key: TunnelRequestKeyView,
    message_index: u16,
    data: Seq<u8>,
    binary: bool,
)
    ensures
        model.delivery(key, message_index, data, binary) matches Some(delivery) ==> {
            let state = model.websockets[key.code()];
            &&& model.websockets.dom().contains(key.code())
            &&& delivery.message.data == data
            &&& delivery.message.binary == binary
            &&& delivery.message.message_index == message_index
            &&& delivery.context.actor_id == state.actor_id
            &&& delivery.context.generation == state.generation
            &&& delivery.context.actor_name == state.actor_name
            &&& delivery.context.gateway_id == key.gateway_id
            &&& delivery.context.request_id == key.request_id
            &&& delivery.context.path == state.path
            &&& delivery.context.headers == state.headers
            &&& delivery.context.is_hibernatable == state.is_hibernatable
            &&& delivery.context.is_restoring_hibernatable == state.is_restoring_hibernatable
        },
{
}

/// On a WebSocket that cannot hibernate every message is handed on and nothing changes. On one that
/// can, the message one step ahead of the last is handed on and becomes the last; one that lies up to
/// 32766 steps behind, or is the last itself, is dropped; any other ends the WebSocket and is not
/// handed on. A message without a WebSocket is dropped.
pub proof fn law_message_is_taken_in_turn(
    model: RunnerModel,
    key: TunnelRequestKeyView,
    message_index: u16,
    data: Seq<u8>,
    binary: bool,
)
    ensures
        ({
            let code = key.code();
            let there = model.websockets.dom().contains(code);
            let state = model.websockets[code];
            let last = state.server_message_index;
            let after = model.message_received(key, message_index);
            let handed_on = model.delivery(key, message_index, data, binary) is Some;
            &&& !there ==> after == model && !handed_on
            &&& there && !state.is_hibernatable ==> after == model && handed_on
            &&& there && state.is_hibernatable && steps(last, message_index) == 1 ==> {
                &&& handed_on
                &&& after == (RunnerModel {
                    websockets: model.websockets.insert(
                        code,
                        WebSocketRuntimeStateView { server_message_index: message_index, ..state },
                    ),
                    ..model
                })
            }
            &&& there && state.is_hibernatable && steps(message_index, last) <= 32766 ==> {
                &&& !handed_on
                &&& after == model
            }
            &&& there && state.is_hibernatable && steps(last, message_index) != 1 && steps(message_index, last) > 32766
                ==> {
                &&& !handed_on
                &&& after == (RunnerModel {
                    websockets: model.websockets.remove(code),
                    ..after_close(model, key, 1008, "ws.message_index_skip"@)
                })
            }
        }),
{
    let kind = ToServerTunnelMessageKindView::WebSocketOpen { can_hibernate: false };
    law_tunnel_message_is_numbered(model, key, kind, 1008, "ws.message_index_skip"@);
}

/// A message callback that succeeded changes nothing; one that failed takes the WebSocket away and
/// closes it towards the engine.
pub proof fn law_message_callback(model: RunnerModel, key: TunnelRequestKeyView)
    ensures
        model.message_finished(key, true) == model,
        model.message_outcome(true) == Ok::<(), RunnerErrorView>(()),
        model.message_finished(key, false) == after_close(
            RunnerModel { websockets: model.websockets.remove(key.code()), ..model },
            key,
            1011,
            "ws.message_error"@,
        ),
        model.message_outcome(false) == sending(model),
{
    let kind = ToServerTunnelMessageKindView::WebSocketOpen { can_hibernate: false };
    let without = RunnerModel { websockets: model.websockets.remove(key.code()), ..model };
    law_tunnel_message_is_numbered(without, key, kind, 1011, "ws.message_error"@);
    law_message_is_queued_last(model, ToServerView::Stopping);
}

/// The close callback is told everything that the runner kept of a WebSocket; where it kept nothing,
/// there is no callback.
pub proof fn law_close_callback_is_told(model: RunnerModel, key: TunnelRequestKeyView, state: WebSocketRuntimeStateView)
    ensures
        model.websockets.dom().contains(key.code()) && model.websockets[key.code()] == state ==> model.closing_context(
            key,
        ) == Some(
            WebSocketContextView {
                actor_id: state.actor_id,
                generation: state.generation,
                actor_name: state.actor_name,
                gateway_id: key.gateway_id,
                request_id: key.request_id,
                path: state.path,
                headers: state.headers,
                is_hibernatable: state.is_hibernatable,
                is_restoring_hibernatable: state.is_restoring_hibernatable,
            },
        ),
        !model.websockets.dom().contains(key.code()) ==> model.closing_context(key) is None,
        websocket_context(key, state) == (WebSocketContextView {
            actor_id: state.actor_id,
            generation: state.generation,
            actor_name: state.actor_name,
            gateway_id: key.gateway_id,
            request_id: key.request_id,
            path: state.path,
            headers: state.headers,
            is_hibernatable: state.is_hibernatable,
            is_restoring_hibernatable: state.is_restoring_hibernatable,
        }),
{
}

// Restoring
// ---------------------------------------------------------------------------------------------
/// Restoring can begin for every known actor whose WebSockets were not restored before, whether or
/// not the actor is up. It covers exactly the requests that the actor hibernated with, all the
/// metadata that is given, and the actor's own id, generation and name.
pub proof fn law_restoring_can_begin(
    model: RunnerModel,
    actor_id: Seq<char>,
    meta_entries: Seq<HibernatingWebSocketMetadataView>,
)
    ensures
        ({
            let known = model.actors.map.dom().contains(actor_id);
            let actor = model.actors.map[actor_id];
            let begun = model.restore_begun(actor_id, meta_entries);
            &&& known && !actor.hibernation_restored ==> {
                &&& begun is Ok
                &&& begun->Ok_0.actor_id == actor_id
                &&& begun->Ok_0.generation == actor.generation
                &&& begun->Ok_0.actor_name == actor.config.name
                &&& begun->Ok_0.connected == actor.hibernating_requests
                &&& begun->Ok_0.meta_entries == meta_entries
                &&& begun->Ok_0.at == 0
                &&& begun->Ok_0.stale_at == 0
            }
            &&& known && actor.hibernation_restored ==> begun == Err::<RestoreView, RunnerErrorView>(
                RunnerErrorView::AlreadyRestored { actor_id: actor_id },
            )
            &&& !known ==> begun == Err::<RestoreView, RunnerErrorView>(
                RunnerErrorView::ActorNotFound { actor_id: actor_id },
            )
            &&& !known ==> model.with_restore_begun(actor_id) == model
            &&& known ==> model.with_restore_begun(actor_id) == (RunnerModel {
                actors: crate::names::NameModel {
                    order: model.actors.order,
                    map: model.actors.map.insert(
                        actor_id,
                        ActorRuntimeStateView { hibernation_restored: true, ..actor },
                    ),
                },
                ..model
            })
        }),
{
}

/// Right after the command to start an actor, and also once its start callback succeeded, restoring
/// begins and covers exactly the hibernating requests of the command.
pub proof fn law_restoring_can_begin_from_the_start(
    model: RunnerModel,
    checkpoint: ActorCheckpointView,
    start: CommandStartActorView,
    start_notify: u64,
    meta_entries: Seq<HibernatingWebSocketMetadataView>,
)
    ensures
        ({
            let starting = model.starting(checkpoint, start, start_notify);
            let up = starting.start_finished(checkpoint.actor_id, checkpoint.generation, Ok(()));
            let early = starting.restore_begun(checkpoint.actor_id, meta_entries);
            let late = up.restore_begun(checkpoint.actor_id, meta_entries);
            &&& early is Ok
            &&& early->Ok_0.connected == start.hibernating_requests
            &&& early->Ok_0.meta_entries == meta_entries
            &&& early->Ok_0.generation == checkpoint.generation
            &&& early->Ok_0.actor_name == start.config.name
            &&& late == early
        }),
{
}

/// Whether metadata is about a request: it has the same two ids.
pub open spec fn is_about(meta: HibernatingWebSocketMetadataView, gateway_id: Seq<u8>, request_id: Seq<u8>) -> bool {
    meta.gateway_id == gateway_id && meta.request_id == request_id
}

proof fn lemma_meta_for(
    entries: Seq<HibernatingWebSocketMetadataView>,
    key: TunnelRequestKeyView,
    place: int,
)
    ensures
        (forall|i: int|
            0 <= i < entries.len() ==> !is_about(#[trigger] entries[i], key.gateway_id, key.request_id)) ==> meta_for(
            entries,
            key,
        ) is None,
        0 <= place < entries.len() && is_about(entries[place], key.gateway_id, key.request_id) && (forall|i: int|
            0 <= i < place ==> !is_about(#[trigger] entries[i], key.gateway_id, key.request_id)) ==> meta_for(entries, key)
            == Some(entries[place]),
    decreases entries.len(),
{
    if entries.len() > 0 {
        let rest = entries.skip(1);
        lemma_meta_for(rest, key, place - 1);
        assert(is_about(entries[0], key.gateway_id, key.request_id) <==> meta_key(entries[0]) == key);
        assert forall|i: int| 0 <= i < rest.len() implies #[trigger] rest[i] == entries[i + 1] by {}
    }
}

/// The WebSocket that metadata brings back, as it is filed.
pub open spec fn filed_from(restore: RestoreView, meta: HibernatingWebSocketMetadataView) -> WebSocketRuntimeStateView {
    WebSocketRuntimeStateView {
        actor_id: restore.actor_id,
        generation: restore.generation,
        actor_name: restore.actor_name,
        path: meta.path,
        headers: meta.headers,
        is_hibernatable: true,
        is_restoring_hibernatable: true,
        server_message_index: meta.server_message_index,
    }
}

/// What the callbacks are told of a WebSocket that metadata is about.
pub open spec fn told_from(restore: RestoreView, meta: HibernatingWebSocketMetadataView) -> WebSocketContextView {
    WebSocketContextView {
        actor_id: restore.actor_id,
        generation: restore.generation,
        actor_name: restore.actor_name,
        gateway_id: meta.gateway_id,
        request_id: meta.request_id,
        path: meta.path,
        headers: meta.headers,
        is_hibernatable: true,
        is_restoring_hibernatable: true,
    }
}

/// A connected request is brought back from the first metadata about it: the WebSocket is filed, the
/// tunnel goes on with the number in the metadata, and the open callback is told. Nothing else
/// changes.
pub proof fn law_connected_request_is_brought_back(model: RunnerModel, restore: RestoreView, place: int)
    requires
        restore.valid(),
        restore.at < restore.connected.len(),
        0 <= place < restore.meta_entries.len(),
        ({
            let request = restore.connected[restore.at as int];
            &&& is_about(restore.meta_entries[place], request.gateway_id, request.request_id)
            &&& forall|i: int|
                0 <= i < place ==> !is_about(
                    #[trigger] restore.meta_entries[i],
                    request.gateway_id,
                    request.request_id,
                )
        }),
    ensures
        ({
            let meta = restore.meta_entries[place];
            let code = TunnelRequestKeyView { gateway_id: meta.gateway_id, request_id: meta.request_id }.code();
            model.restore_advanced(restore) == (
                RunnerModel {
                    websockets: model.websockets.insert(code, filed_from(restore, meta)),
                    tunnel_message_indices: model.tunnel_message_indices.insert(code, meta.client_message_index),
                    ..model
                },
                restore,
                RestoreStepView::Open(told_from(restore, meta)),
            )
        }),
{
    let request = restore.connected[restore.at as int];
    lemma_meta_for(restore.meta_entries, request_key(request), place);
}

/// A connected request that no metadata is about is closed, and the restoring goes on with the next
/// one; where the engine cannot be told, it ends there.
pub proof fn law_unknown_request_is_closed(model: RunnerModel, restore: RestoreView)
    requires
        restore.valid(),
        restore.at < restore.connected.len(),
        forall|i: int|
            0 <= i < restore.meta_entries.len() ==> !is_about(
                #[trigger] restore.meta_entries[i],
                restore.connected[restore.at as int].gateway_id,
                restore.connected[restore.at as int].request_id,
            ),
    ensures
        ({
            let request = restore.connected[restore.at as int];
            let key = TunnelRequestKeyView { gateway_id: request.gateway_id, request_id: request.request_id };
            let closed = after_close(model, key, 1000, "ws.meta_not_found_during_restore"@);
            model.restore_advanced(restore) == if sending(model) is Ok {
                closed.restore_advanced(RestoreView { at: (restore.at + 1) as usize, ..restore })
            } else {
                (closed, restore, RestoreStepView::Failed(sending(model)->Err_0))
            }
        }),
{
    let request = restore.connected[restore.at as int];
    let key = TunnelRequestKeyView { gateway_id: request.gateway_id, request_id: request.request_id };
    let kind = ToServerTunnelMessageKindView::WebSocketOpen { can_hibernate: false };
    lemma_meta_for(restore.meta_entries, request_key(request), 0);
    law_tunnel_message_is_numbered(model, key, kind, 1000, "ws.meta_not_found_during_restore"@);
    law_message_is_queued_last(model, ToServerView::Stopping);
}

/// Once the connected requests are done, the metadata entries are taken in turn: one about a request
/// that is connected is passed over, one about any other leads to the close callback. After the last
/// one the restoring is finished.
pub proof fn law_stale_metadata_is_closed(model: RunnerModel, restore: RestoreView)
    requires
        restore.valid(),
        restore.at == restore.connected.len(),
    ensures
        restore.stale_at < restore.meta_entries.len() ==> {
            let meta = restore.meta_entries[restore.stale_at as int];
            let connected = exists|i: int|
                0 <= i < restore.connected.len() && (#[trigger] restore.connected[i]).gateway_id == meta.gateway_id
                    && restore.connected[i].request_id == meta.request_id;
            model.restore_advanced(restore) == if connected {
                model.restore_advanced(RestoreView { stale_at: (restore.stale_at + 1) as usize, ..restore })
            } else {
                (
                    model,
                    restore,
                    RestoreStepView::Close {
                        context: told_from(restore, meta),
                        code: 1000,
                        reason: "ws.stale_metadata"@,
                    },
                )
            }
        },
        restore.stale_at == restore.meta_entries.len() ==> model.restore_advanced(restore) == (
            model,
            restore,
            RestoreStepView::Finished,
        ),
{
    if restore.stale_at < restore.meta_entries.len() {
        let meta = restore.meta_entries[restore.stale_at as int];
        let key = meta_key(meta);
        assert forall|i: int| 0 <= i < restore.connected.len() implies (request_key(#[trigger] restore.connected[i])
            == key <==> restore.connected[i].gateway_id == meta.gateway_id && restore.connected[i].request_id
            == meta.request_id) by {}
        if is_connected(restore.connected, key) {
            let i = choose|i: int| 0 <= i < restore.connected.len() && request_key(#[trigger] restore.connected[i]) == key;
            assert(restore.connected[i].gateway_id == meta.gateway_id);
        }
    }
}

/// A request that was left open and metadata run through the tunnel of their two ids.
pub proof fn law_tunnels_of_restoring(
    request: crate::actor::HibernatingRequestView,
    meta: HibernatingWebSocketMetadataView,
)
    ensures
        request_key(request).gateway_id == request.gateway_id,
        request_key(request).request_id == request.request_id,
        meta_key(meta).gateway_id == meta.gateway_id,
        meta_key(meta).request_id == meta.request_id,
{
}

/// The callbacks of restoring: a failed open callback takes that WebSocket away and closes it, a
/// successful close callback takes away the WebSocket it was about, and the others change nothing.
pub proof fn law_restore_callbacks(model: RunnerModel, key: TunnelRequestKeyView, restore: RestoreView)
    ensures
        model.restore_opened(key, true) == model,
        model.restore_open_outcome(true) == Ok::<(), RunnerErrorView>(()),
        model.restore_opened(key, false) == after_close(
            RunnerModel { websockets: model.websockets.remove(key.code()), ..model },
            key,
            1011,
            "ws.restore_error"@,
        ),
        model.restore_open_outcome(false) == sending(model),
        model.restore_closed(key, true) == (RunnerModel { websockets: model.websockets.remove(key.code()), ..model }),
        model.restore_closed(key, false) == model,
        restore.past_request() == (RestoreView { at: (restore.at + 1) as usize, ..restore }),
        restore.past_meta() == (RestoreView { stale_at: (restore.stale_at + 1) as usize, ..restore }),
{
    let kind = ToServerTunnelMessageKindView::WebSocketOpen { can_hibernate: false };
    let without = RunnerModel { websockets: model.websockets.remove(key.code()), ..model };
    law_tunnel_message_is_numbered(without, key, kind, 1011, "ws.restore_error"@);
    law_message_is_queued_last(model, ToServerView::Stopping);
}

} // verus!
