//! What a message of the engine leads to, kind by kind.

use super::sending::{law_message_is_queued_last, law_tunnel_number_is_set, queue_with, sending};
use super::sockets::{law_close_callback_is_told, law_message_is_handed_on_as_it_came, law_message_is_taken_in_turn};
use crate::actions::IncomingActionView;
use crate::protocol::{
    ActorCheckpointView, CommandWrapperView, MessageIdView, ToClientTunnelMessageKindView, ToClientView, ToServerView,
    WebSocketOpenView,
};
use crate::state::RunnerModel;
use crate::tunnel::TunnelRequestKeyView;
use vstd::prelude::*;

verus! {

/// The tunnel of a message, by its two ids.
pub open spec fn tunnel_of(message_id: MessageIdView) -> TunnelRequestKeyView {
    TunnelRequestKeyView { gateway_id: message_id.gateway_id, request_id: message_id.request_id }
}

/// A runner once a message arrived through a tunnel: a tunnel without a number takes that of the
/// message, and nothing else changes.
pub open spec fn noticed(model: RunnerModel, message_id: MessageIdView) -> RunnerModel {
    let code = tunnel_of(message_id).code();
    RunnerModel {
        tunnel_message_indices: if model.tunnel_message_indices.dom().contains(code) {
            model.tunnel_message_indices
        } else {
            model.tunnel_message_indices.insert(code, message_id.message_index)
        },
        ..model
    }
}

/// The greeting of the engine gives the runner its id, whatever id it had, and makes it send again
/// what is pending.
pub proof fn law_greeting_of_the_engine(model: RunnerModel, runner_id: Seq<char>)
    ensures
        ({
            let message = ToClientView::Init { runner_id: runner_id };
            let pending = model.pending_events();
            &&& model.received(message) == (RunnerModel {
                runner_id: Some(runner_id),
                outbox: if pending.len() == 0 {
                    model.outbox
                } else {
                    queue_with(model, ToServerView::Events(pending))
                },
                ..model
            })
            &&& model.incoming_action(message) == (IncomingActionView::Connected {
                resent: if pending.len() == 0 {
                    Ok(())
                } else {
                    sending(model)
                },
            })
        }),
{
    let named = RunnerModel { runner_id: Some(runner_id), ..model };
    assert(named.pending_events() == model.pending_events());
    law_message_is_queued_last(named, ToServerView::Events(model.pending_events()));
    law_message_is_queued_last(model, ToServerView::Stopping);
}

/// Commands are handed on, all of them and in their order, and change nothing by themselves.
pub proof fn law_commands_are_handed_on(model: RunnerModel, commands: Seq<CommandWrapperView>)
    ensures
        model.received(ToClientView::Commands(commands)) == model,
        model.incoming_action(ToClientView::Commands(commands)) == IncomingActionView::Commands(commands),
{
}

/// An acknowledgement changes nothing but the actors, and leads to nothing.
pub proof fn law_acknowledgement_leads_to_nothing(model: RunnerModel, checkpoints: Seq<ActorCheckpointView>)
    ensures
        ({
            let message = ToClientView::AckEvents { last_event_checkpoints: checkpoints };
            let after = model.received(message);
            &&& model.incoming_action(message) == IncomingActionView::Nothing
            &&& after == model.events_acknowledged(checkpoints)
            &&& after == (RunnerModel { actors: after.actors, ..model })
        }),
{
}

/// A ping is answered with the time that it carries.
pub proof fn law_ping_is_answered(model: RunnerModel, ts: i64)
    ensures
        model.received(ToClientView::Ping { ts: ts }) == (RunnerModel {
            outbox: queue_with(model, ToServerView::Pong { ts: ts }),
            ..model
        }),
        model.incoming_action(ToClientView::Ping { ts: ts }) == (IncomingActionView::Ponged { sent: sending(model) }),
{
    law_message_is_queued_last(model, ToServerView::Pong { ts: ts });
}

/// A request to open a WebSocket is handed on with its tunnel and all that it says.
pub proof fn law_opening_is_handed_on(model: RunnerModel, message_id: MessageIdView, open: WebSocketOpenView)
    ensures
        ({
            let message = ToClientView::TunnelMessage {
                message_id: message_id,
                message_kind: ToClientTunnelMessageKindView::WebSocketOpen(open),
            };
            &&& model.received(message) == noticed(model, message_id)
            &&& model.incoming_action(message) == (IncomingActionView::OpenWebSocket {
                key: tunnel_of(message_id),
                open: open,
            })
        }),
{
    law_tunnel_number_is_set(model, tunnel_of(message_id), message_id.message_index);
}

/// Whenever a message of a WebSocket is handed on, its data, whether it is binary and its index are
/// those of the message that arrived, and its tunnel too. On a WebSocket that cannot hibernate every
/// message is handed on.
pub proof fn law_websocket_message_is_handed_on(
    model: RunnerModel,
    message_id: MessageIdView,
    data: Seq<u8>,
    binary: bool,
)
    ensures
        ({
            let message = ToClientView::TunnelMessage {
                message_id: message_id,
                message_kind: ToClientTunnelMessageKindView::WebSocketMessage { data: data, binary: binary },
            };
            let key = tunnel_of(message_id);
            let action = model.incoming_action(message);
            &&& action is DeliverMessage || action is Nothing
            &&& action is DeliverMessage ==> {
                &&& action->DeliverMessage_key == key
                &&& action->DeliverMessage_delivery.message.data == data
                &&& action->DeliverMessage_delivery.message.binary == binary
                &&& action->DeliverMessage_delivery.message.message_index == message_id.message_index
                &&& action->DeliverMessage_delivery.context.gateway_id == message_id.gateway_id
                &&& action->DeliverMessage_delivery.context.request_id == message_id.request_id
                &&& model.websockets.dom().contains(key.code())
            }
            &&& model.websockets.dom().contains(key.code()) && !model.websockets[key.code()].is_hibernatable ==> {
                &&& action is DeliverMessage
                &&& model.received(message) == noticed(model, message_id)
            }
            &&& !model.websockets.dom().contains(key.code()) ==> {
                &&& action is Nothing
                &&& model.received(message) == noticed(model, message_id)
            }
            &&& model.received(message) == noticed(model, message_id).message_received(key, message_id.message_index)
        }),
{
    let key = tunnel_of(message_id);
    law_tunnel_number_is_set(model, key, message_id.message_index);
    law_message_is_handed_on_as_it_came(model, key, message_id.message_index, data, binary);
    law_message_is_taken_in_turn(model, key, message_id.message_index, data, binary);
    law_message_is_taken_in_turn(noticed(model, message_id), key, message_id.message_index, data, binary);
}

/// A close takes the WebSocket away and leads to the close callback, with the code and the reason of
/// the message and everything that the runner kept; where there is no WebSocket it leads to nothing.
pub proof fn law_websocket_close_is_handed_on(
    model: RunnerModel,
    message_id: MessageIdView,
    code: Option<u16>,
    reason: Option<Seq<char>>,
)
    ensures
        ({
            let message = ToClientView::TunnelMessage {
                message_id: message_id,
                message_kind: ToClientTunnelMessageKindView::WebSocketClose { code: code, reason: reason },
            };
            let place = tunnel_of(message_id).code();
            let state = model.websockets[place];
            let action = model.incoming_action(message);
            &&& model.received(message) == (RunnerModel {
                websockets: model.websockets.remove(place),
                ..noticed(model, message_id)
            })
            &&& model.websockets.dom().contains(place) ==> {
                &&& action is CloseWebSocket
                &&& action->CloseWebSocket_code == code
                &&& action->CloseWebSocket_reason == reason
                &&& action->CloseWebSocket_context.actor_id == state.actor_id
                &&& action->CloseWebSocket_context.generation == state.generation
                &&& action->CloseWebSocket_context.actor_name == state.actor_name
                &&& action->CloseWebSocket_context.gateway_id == message_id.gateway_id
                &&& action->CloseWebSocket_context.request_id == message_id.request_id
                &&& action->CloseWebSocket_context.path == state.path
                &&& action->CloseWebSocket_context.headers == state.headers
                &&& action->CloseWebSocket_context.is_hibernatable == state.is_hibernatable
                &&& action->CloseWebSocket_context.is_restoring_hibernatable == state.is_restoring_hibernatable
            }
            &&& !model.websockets.dom().contains(place) ==> action is Nothing
        }),
{
    let key = tunnel_of(message_id);
    law_tunnel_number_is_set(model, key, message_id.message_index);
    law_close_callback_is_told(model, key, model.websockets[key.code()]);
}

/// What arrives of an HTTP request changes what is filed of requests, and beside that only the number
/// of a tunnel that had none.
pub proof fn law_request_messages_touch_requests_only(
    model: RunnerModel,
    message_id: MessageIdView,
    kind: ToClientTunnelMessageKindView,
)
    requires
        kind is RequestStart || kind is RequestChunk || kind is RequestAbort,
    ensures
        ({
            let after = model.received(ToClientView::TunnelMessage { message_id: message_id, message_kind: kind });
            after == (RunnerModel {
                pending_http_requests: after.pending_http_requests,
                ..noticed(model, message_id)
            })
        }),
{
    law_tunnel_number_is_set(model, tunnel_of(message_id), message_id.message_index);
}

/// A message through a tunnel is treated as the message that carries it.
pub proof fn law_tunnel_messages_are_messages(
    model: RunnerModel,
    message_id: MessageIdView,
    kind: ToClientTunnelMessageKindView,
)
    ensures
        ({
            let message = ToClientView::TunnelMessage { message_id: message_id, message_kind: kind };
            &&& model.tunnel_received(message_id, kind) == model.received(message)
            &&& model.tunnel_action(message_id, kind) == model.incoming_action(message)
        }),
{
}

} // verus!
