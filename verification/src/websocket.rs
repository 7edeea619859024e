//! WebSockets that run through a tunnel.

use crate::actions::{
    ActorWait, ActorWaitView, WebSocketDelivery, WebSocketDeliveryView, WebSocketOpenStep, WebSocketOpenStepView,
};
use crate::actor::{WebSocketContext, WebSocketContextView, WebSocketMessage, WebSocketMessageView};
use crate::commands::callback_view;
use crate::duplicate::Duplicate;
use crate::error::{outcome, RunnerError, RunnerErrorView};
use crate::protocol::{ToServerTunnelMessageKind, ToServerTunnelMessageKindView, WebSocketOpen, WebSocketOpenView};
use crate::runtime::{WebSocketRuntimeState, WebSocketRuntimeStateView};
use crate::sequence::{next_index, precedes, wrapping_add_u16, wrapping_lte_u16};
use crate::state::{RunnerInner, RunnerModel};
use crate::tunnel::{TunnelRequestKey, TunnelRequestKeyView};
use vstd::prelude::*;

verus! {

/// What the callbacks are told of a WebSocket.
pub open spec fn websocket_context(key: TunnelRequestKeyView, state: WebSocketRuntimeStateView) -> WebSocketContextView {
    WebSocketContextView {
        actor_id: state.actor_id,
        generation: state.generation,
        actor_name: state.actor_name,
        gateway_id: key.gateway_id,
        request_id: key.request_id,
        path: state.path,
        headers: state.headers,
        is_hibernatable: state.is_hibernatable,
        is_restoring_hibernatable: state.is_restoring_hibernatable,
    }
}

/// A WebSocket as it is when it has just been opened.
pub open spec fn opened_websocket(context: WebSocketContextView, can_hibernate: bool) -> WebSocketRuntimeStateView {
    WebSocketRuntimeStateView {
        actor_id: context.actor_id,
        generation: context.generation,
        actor_name: context.actor_name,
        path: context.path,
        headers: context.headers,
        is_hibernatable: can_hibernate,
        is_restoring_hibernatable: false,
        server_message_index: 0,
    }
}

/// Whether a message on a WebSocket has been seen before. Only a WebSocket that can hibernate
/// keeps count.
pub open spec fn is_repeated(state: WebSocketRuntimeStateView, message_index: u16) -> bool {
    state.is_hibernatable && (message_index == state.server_message_index || precedes(
        message_index,
        state.server_message_index,
    ))
}

/// Whether a message on a WebSocket is the one that has to come next. On a WebSocket that does not
/// keep count any message is.
pub open spec fn is_expected(state: WebSocketRuntimeStateView, message_index: u16) -> bool {
    !state.is_hibernatable || message_index == next_index(state.server_message_index)
}

impl RunnerModel {
    /// With a WebSocket refused because its actor is not known.
    pub open spec fn websocket_refused(self, key: TunnelRequestKeyView) -> Self {
        self.close_sent(key, 1011, "runner.actor_not_found"@)
    }

    /// After a request to open a WebSocket.
    pub open spec fn websocket_requested(self, key: TunnelRequestKeyView, open: WebSocketOpenView) -> Self {
        if self.wait(open.actor_id) is Absent {
            self.websocket_refused(key)
        } else {
            self
        }
    }

    /// How a request to open a WebSocket goes on.
    pub open spec fn open_step(self, key: TunnelRequestKeyView, open: WebSocketOpenView) -> WebSocketOpenStepView {
        match self.wait(open.actor_id) {
            ActorWaitView::Absent => WebSocketOpenStepView::Rejected { sent: self.send_outcome() },
            ActorWaitView::Waiting { start_notify } => WebSocketOpenStepView::Waiting { start_notify: start_notify },
            ActorWaitView::Up { generation, config } => WebSocketOpenStepView::Asking(
                WebSocketContextView {
                    actor_id: open.actor_id,
                    generation: generation,
                    actor_name: config.name,
                    gateway_id: key.gateway_id,
                    request_id: key.request_id,
                    path: open.path,
                    headers: open.headers,
                    is_hibernatable: false,
                    is_restoring_hibernatable: false,
                },
            ),
        }
    }

    /// After the open callback of a WebSocket. `callback` is what went wrong in it, if anything.
    pub open spec fn open_finished(
        self,
        key: TunnelRequestKeyView,
        can_hibernate: bool,
        callback: Result<(), Seq<char>>,
    ) -> Self {
        match callback {
            Ok(_) => self.tunnel_sent(key, ToServerTunnelMessageKindView::WebSocketOpen { can_hibernate: can_hibernate }),
            Err(_) => self.without_websocket(key).close_sent(key, 1011, "ws.open_error"@),
        }
    }

    /// What opening a WebSocket gives.
    pub open spec fn open_outcome(self, callback: Result<(), Seq<char>>) -> Result<(), RunnerErrorView> {
        match (self.send_outcome(), callback) {
            (Err(error), _) => Err(error),
            (Ok(_), Ok(_)) => Ok(()),
            (Ok(_), Err(message)) => Err(RunnerErrorView::WebSocketCallbackFailed { message: message }),
        }
    }

    /// After a message has arrived on a WebSocket. One that was seen before changes nothing; one
    /// that comes too early closes the WebSocket.
    pub open spec fn message_received(self, key: TunnelRequestKeyView, message_index: u16) -> Self {
        if !self.websockets.contains_key(key.code()) {
            self
        } else {
            let state = self.websockets[key.code()];
            if is_repeated(state, message_index) {
                self
            } else if !is_expected(state, message_index) {
                self.close_sent(key, 1008, "ws.message_index_skip"@).without_websocket(key)
            } else if state.is_hibernatable {
                self.with_websocket(key, WebSocketRuntimeStateView { server_message_index: message_index, ..state })
            } else {
                self
            }
        }
    }

    /// Whether a message that arrives on a WebSocket is handed on.
    pub open spec fn is_delivered(self, key: TunnelRequestKeyView, message_index: u16) -> bool {
        self.websockets.contains_key(key.code()) && {
            let state = self.websockets[key.code()];
            !is_repeated(state, message_index) && is_expected(state, message_index)
        }
    }

    /// What is handed on of a message that arrives on a WebSocket.
    pub open spec fn delivery(
        self,
        key: TunnelRequestKeyView,
        message_index: u16,
        data: Seq<u8>,
        binary: bool,
    ) -> Option<WebSocketDeliveryView> {
        if self.is_delivered(key, message_index) {
            Some(
                WebSocketDeliveryView {
                    context: websocket_context(key, self.websockets[key.code()]),
                    message: WebSocketMessageView { data: data, binary: binary, message_index: message_index },
                },
            )
        } else {
            None
        }
    }

    /// After the message callback of a WebSocket. A failed one closes the WebSocket.
    pub open spec fn message_finished(self, key: TunnelRequestKeyView, callback_succeeded: bool) -> Self {
        if callback_succeeded {
            self
        } else {
            self.without_websocket(key).close_sent(key, 1011, "ws.message_error"@)
        }
    }

    /// What handing on a message gives.
    pub open spec fn message_outcome(self, callback_succeeded: bool) -> Result<(), RunnerErrorView> {
        if callback_succeeded {
            Ok(())
        } else {
            self.send_outcome()
        }
    }

    /// What the close callback is told of a WebSocket, if there is one.
    pub open spec fn closing_context(self, key: TunnelRequestKeyView) -> Option<WebSocketContextView> {
        if self.websockets.contains_key(key.code()) {
            Some(websocket_context(key, self.websockets[key.code()]))
        } else {
            None
        }
    }
}

/// What the callbacks are told of a WebSocket.
pub fn websocket_context_from_state(key: TunnelRequestKey, state: &WebSocketRuntimeState) -> (context: WebSocketContext)
    ensures
        context.deep_view() == websocket_context(key.deep_view(), state.deep_view()),
{
    WebSocketContext {
        actor_id: state.actor_id.clone(),
        generation: state.generation,
        actor_name: state.actor_name.clone(),
        gateway_id: key.gateway_id,
        request_id: key.request_id,
        path: state.path.clone(),
        headers: state.headers.duplicate(),
        is_hibernatable: state.is_hibernatable,
        is_restoring_hibernatable: state.is_restoring_hibernatable,
    }
}

/// What a failed close callback gives.
pub fn websocket_close_outcome(callback_succeeded: bool) -> (closed: Result<(), RunnerError>)
    ensures
        outcome(closed) == if callback_succeeded {
            Ok(())
        } else {
            Err(RunnerErrorView::WebSocketCloseCallbackFailed)
        },
{
    if callback_succeeded {
        Ok(())
    } else {
        Err(RunnerError::WebSocketCloseCallbackFailed)
    }
}

impl RunnerInner {
    /// Starts to open a WebSocket.
    pub fn handle_websocket_open(&mut self, key: TunnelRequestKey, open: &WebSocketOpen) -> (step: WebSocketOpenStep)
        requires
            old(self).wf(),
        ensures
            final(self).wf(),
            final(self)@ == old(self)@.websocket_requested(key.deep_view(), open.deep_view()),
            step.deep_view() == old(self)@.open_step(key.deep_view(), open.deep_view()),
    {
        match self.wait_for_actor_started(open.actor_id.as_str()) {
            ActorWait::Absent => {
                let sent = self.send_close(key, 1011, "runner.actor_not_found");
                WebSocketOpenStep::Rejected { sent }
            },
            ActorWait::Waiting { start_notify } => WebSocketOpenStep::Waiting { start_notify },
            ActorWait::Up { generation, config } => WebSocketOpenStep::Asking(
                WebSocketContext {
                    actor_id: open.actor_id.clone(),
                    generation,
                    actor_name: config.name,
                    gateway_id: key.gateway_id,
                    request_id: key.request_id,
                    path: open.path.clone(),
                    headers: open.headers.duplicate(),
                    is_hibernatable: false,
                    is_restoring_hibernatable: false,
                },
            ),
        }
    }

    /// Takes note of a WebSocket once it is known whether it can hibernate. Gives what its open
    /// callback is told.
    pub fn accept_websocket(&mut self, key: TunnelRequestKey, context: WebSocketContext, can_hibernate: bool) -> (told:
        WebSocketContext)
        requires
            old(self).wf(),
        ensures
            final(self).wf(),
            final(self)@ == old(self)@.with_websocket(
                key.deep_view(),
                opened_websocket(context.deep_view(), can_hibernate),
            ),
            told.deep_view() == (WebSocketContextView { is_hibernatable: can_hibernate, ..context.deep_view() }),
    {
        self.websockets.insert(
            key,
            WebSocketRuntimeState {
                actor_id: context.actor_id.clone(),
                generation: context.generation,
                actor_name: context.actor_name.clone(),
                path: context.path.clone(),
                headers: context.headers.duplicate(),
                is_hibernatable: can_hibernate,
                is_restoring_hibernatable: false,
                server_message_index: 0,
            },
        );
        WebSocketContext { is_hibernatable: can_hibernate, ..context }
    }

    /// Goes on after the open callback of a WebSocket.
    pub fn finish_websocket_open(&mut self, key: TunnelRequestKey, can_hibernate: bool, callback: Result<
        (),
        String,
    >) -> (opened: Result<(), RunnerError>)
        requires
            old(self).wf(),
        ensures
            final(self).wf(),
            final(self)@ == old(self)@.open_finished(key.deep_view(), can_hibernate, callback_view(callback)),
            outcome(opened) == old(self)@.open_outcome(callback_view(callback)),
    {
        match callback {
            Ok(_) => self.send_tunnel_message(key, ToServerTunnelMessageKind::WebSocketOpen { can_hibernate }),
            Err(message) => {
                self.websockets.remove(&key);
                match self.send_close(key, 1011, "ws.open_error") {
                    Err(error) => Err(error),
                    Ok(_) => Err(RunnerError::WebSocketCallbackFailed { message }),
                }
            },
        }
    }

    /// Receives a message on a WebSocket. Gives what is to be handed on, if anything.
    pub fn handle_websocket_message(
        &mut self,
        key: TunnelRequestKey,
        message_index: u16,
        data: Vec<u8>,
        binary: bool,
    ) -> (delivery: Option<WebSocketDelivery>)
        requires
            old(self).wf(),
        ensures
            final(self).wf(),
            final(self)@ == old(self)@.message_received(key.deep_view(), message_index),
            delivery.deep_view() == old(self)@.delivery(key.deep_view(), message_index, data.deep_view(), binary),
    {
        let state = match self.websockets.remove(&key) {
            None => {
                assert(self@ =~= old(self)@);
                return None;
            },
            Some(state) => state,
        };
        let ghost before = old(self)@.websockets;
        assert(before.remove(key.spec_code()).insert(key.spec_code(), state.deep_view()) =~= before);
        let context = websocket_context_from_state(key, &state);
        if state.is_hibernatable {
            if wrapping_lte_u16(message_index, state.server_message_index) {
                self.websockets.insert(key, state);
                return None;
            }
            if message_index != wrapping_add_u16(state.server_message_index, 1) {
                self.websockets.insert(key, state);
                let _ = self.send_close(key, 1008, "ws.message_index_skip");
                self.websockets.remove(&key);
                return None;
            }
            let counted = WebSocketRuntimeState { server_message_index: message_index, ..state };
            self.websockets.insert(key, counted);
            assert(self@.websockets =~= before.insert(key.spec_code(), counted.deep_view()));
        } else {
            self.websockets.insert(key, state);
        }
        Some(WebSocketDelivery { context, message: WebSocketMessage { data, binary, message_index } })
    }

    /// Goes on after the message callback of a WebSocket.
    pub fn finish_websocket_message(&mut self, key: TunnelRequestKey, callback_succeeded: bool) -> (handled: Result<
        (),
        RunnerError,
    >)
        requires
            old(self).wf(),
        ensures
            final(self).wf(),
            final(self)@ == old(self)@.message_finished(key.deep_view(), callback_succeeded),
            outcome(handled) == old(self)@.message_outcome(callback_succeeded),
    {
        if callback_succeeded {
            return Ok(());
        }
        self.websockets.remove(&key);
        self.send_close(key, 1011, "ws.message_error")
    }

    /// Forgets a WebSocket that was closed. Gives what its close callback is told, if it was there.
    pub fn handle_websocket_close(&mut self, key: TunnelRequestKey) -> (context: Option<WebSocketContext>)
        requires
            old(self).wf(),
        ensures
            final(self).wf(),
            final(self)@ == old(self)@.without_websocket(key.deep_view()),
            context.deep_view() == old(self)@.closing_context(key.deep_view()),
    {
        match self.websockets.remove(&key) {
            None => None,
            Some(state) => Some(websocket_context_from_state(key, &state)),
        }
    }

    /// Acknowledges a message on a WebSocket that can hibernate.
    pub fn send_hibernatable_websocket_message_ack(
        &mut self,
        gateway_id: [u8; 4],
        request_id: [u8; 4],
        index: u16,
    ) -> (sent: Result<(), RunnerError>)
        requires
            old(self).wf(),
        ensures
            final(self).wf(),
            final(self)@ == old(self)@.tunnel_sent(
                TunnelRequestKeyView { gateway_id: gateway_id@, request_id: request_id@ },
                ToServerTunnelMessageKindView::WebSocketMessageAck { index: index },
            ),
            outcome(sent) == old(self)@.send_outcome(),
    {
        self.send_tunnel_message(
            TunnelRequestKey { gateway_id, request_id },
            ToServerTunnelMessageKind::WebSocketMessageAck { index },
        )
    }

    /// Sends a message on a WebSocket.
    pub fn send_websocket_message(
        &mut self,
        gateway_id: [u8; 4],
        request_id: [u8; 4],
        data: Vec<u8>,
        binary: bool,
    ) -> (sent: Result<(), RunnerError>)
        requires
            old(self).wf(),
        ensures
            final(self).wf(),
            final(self)@ == old(self)@.tunnel_sent(
                TunnelRequestKeyView { gateway_id: gateway_id@, request_id: request_id@ },
                ToServerTunnelMessageKindView::WebSocketMessage { data: data.deep_view(), binary: binary },
            ),
            outcome(sent) == old(self)@.send_outcome(),
    {
        self.send_tunnel_message(
            TunnelRequestKey { gateway_id, request_id },
            ToServerTunnelMessageKind::WebSocketMessage { data, binary },
        )
    }

    /// Closes a WebSocket.
    pub fn close_websocket(
        &mut self,
        gateway_id: [u8; 4],
        request_id: [u8; 4],
        code: Option<u16>,
        reason: Option<String>,
        hibernate: bool,
    ) -> (sent: Result<(), RunnerError>)
        requires
            old(self).wf(),
        ensures
            final(self).wf(),
            final(self)@ == old(self)@.tunnel_sent(
                TunnelRequestKeyView { gateway_id: gateway_id@, request_id: request_id@ },
                ToServerTunnelMessageKindView::WebSocketClose {
                    code: code,
                    reason: reason.deep_view(),
                    hibernate: hibernate,
                },
            ),
            outcome(sent) == old(self)@.send_outcome(),
    {
        self.send_tunnel_message(
            TunnelRequestKey { gateway_id, request_id },
            ToServerTunnelMessageKind::WebSocketClose { code, reason, hibernate },
        )
    }
}

} // verus!
