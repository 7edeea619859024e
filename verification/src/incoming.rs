//! Messages of the engine.

use crate::actions::{IncomingAction, IncomingActionView};
use crate::protocol::{
    MessageId, MessageIdView, ToClient, ToClientTunnelMessageKind, ToClientTunnelMessageKindView, ToClientView, ToServer,
    ToServerView,
};
use crate::state::{RunnerInner, RunnerModel};
use crate::tunnel::{TunnelRequestKey, TunnelRequestKeyView};
use vstd::prelude::*;

verus! {

/// The tunnel that a message runs through.
pub open spec fn message_key(message_id: MessageIdView) -> TunnelRequestKeyView {
    TunnelRequestKeyView { gateway_id: message_id.gateway_id, request_id: message_id.request_id }
}

impl RunnerModel {
    /// With the id that the engine gave the runner.
    pub open spec fn with_runner_id(self, runner_id: Seq<char>) -> Self {
        RunnerModel { runner_id: Some(runner_id), ..self }
    }

    /// After a message of the engine has arrived.
    pub open spec fn received(self, message: ToClientView) -> Self {
        match message {
            ToClientView::Init { runner_id } => self.with_runner_id(runner_id).resent(),
            ToClientView::Commands(_) => self,
            ToClientView::AckEvents { last_event_checkpoints } => self.events_acknowledged(last_event_checkpoints),
            ToClientView::KvResponse { request_id, .. } => self.kv_responded(request_id),
            ToClientView::TunnelMessage { message_id, message_kind } => self.tunnel_received(message_id, message_kind),
            ToClientView::Ping { ts } => self.sent(ToServerView::Pong { ts: ts }),
        }
    }

    /// What a message of the engine leads to.
    pub open spec fn incoming_action(self, message: ToClientView) -> IncomingActionView {
        match message {
            ToClientView::Init { .. } => IncomingActionView::Connected { resent: self.resend_outcome() },
            ToClientView::Commands(commands) => IncomingActionView::Commands(commands),
            ToClientView::AckEvents { .. } => IncomingActionView::Nothing,
            ToClientView::KvResponse { request_id, data } => if self.pending_kv_requests.contains(request_id) {
                IncomingActionView::KvReply { request_id: request_id, data: data }
            } else {
                IncomingActionView::Nothing
            },
            ToClientView::TunnelMessage { message_id, message_kind } => self.tunnel_action(message_id, message_kind),
            ToClientView::Ping { .. } => IncomingActionView::Ponged { sent: self.send_outcome() },
        }
    }

    /// After a message has arrived through a tunnel.
    pub open spec fn tunnel_received(self, message_id: MessageIdView, kind: ToClientTunnelMessageKindView) -> Self {
        let key = message_key(message_id);
        let known = self.with_tunnel_known(key, message_id.message_index);
        match kind {
            ToClientTunnelMessageKindView::RequestStart(start) => known.request_started(key, start),
            ToClientTunnelMessageKindView::RequestChunk { body, finish } => known.chunk_received(key, body, finish),
            ToClientTunnelMessageKindView::RequestAbort => known.without_pending_request(key),
            ToClientTunnelMessageKindView::WebSocketOpen(_) => known,
            ToClientTunnelMessageKindView::WebSocketMessage { .. } => known.message_received(
                key,
                message_id.message_index,
            ),
            ToClientTunnelMessageKindView::WebSocketClose { .. } => known.without_websocket(key),
        }
    }

    /// What a message through a tunnel leads to.
    pub open spec fn tunnel_action(
        self,
        message_id: MessageIdView,
        kind: ToClientTunnelMessageKindView,
    ) -> IncomingActionView {
        let key = message_key(message_id);
        match kind {
            ToClientTunnelMessageKindView::RequestStart(start) => match self.request_at_once(start) {
                Some(request) => IncomingActionView::ProcessRequest { key: key, request: request },
                None => IncomingActionView::Nothing,
            },
            ToClientTunnelMessageKindView::RequestChunk { body, finish } => match self.request_at_end(
                key,
                body,
                finish,
            ) {
                Some(request) => IncomingActionView::ProcessRequest { key: key, request: request },
                None => IncomingActionView::Nothing,
            },
            ToClientTunnelMessageKindView::RequestAbort => IncomingActionView::Nothing,
            ToClientTunnelMessageKindView::WebSocketOpen(open) => IncomingActionView::OpenWebSocket {
                key: key,
                open: open,
            },
            ToClientTunnelMessageKindView::WebSocketMessage { data, binary } => match self.delivery(
                key,
                message_id.message_index,
                data,
                binary,
            ) {
                Some(delivery) => IncomingActionView::DeliverMessage { key: key, delivery: delivery },
                None => IncomingActionView::Nothing,
            },
            ToClientTunnelMessageKindView::WebSocketClose { code, reason } => match self.closing_context(key) {
                Some(context) => IncomingActionView::CloseWebSocket { context: context, code: code, reason: reason },
                None => IncomingActionView::Nothing,
            },
        }
    }
}

impl RunnerInner {
    /// Reacts to a message of the engine.
    pub fn handle_incoming_message(&mut self, message: ToClient) -> (action: IncomingAction)
        requires
            old(self).wf(),
        ensures
            final(self).wf(),
            final(self)@ == old(self)@.received(message.deep_view()),
            action.deep_view() == old(self)@.incoming_action(message.deep_view()),
    {
        match message {
            ToClient::Init { runner_id } => {
                self.runner_id = Some(runner_id);
                let resent = self.resend_unacknowledged_events();
                IncomingAction::Connected { resent }
            },
            ToClient::Commands(commands) => IncomingAction::Commands(commands),
            ToClient::AckEvents { last_event_checkpoints } => {
                self.handle_ack_events(&last_event_checkpoints);
                IncomingAction::Nothing
            },
            ToClient::KvResponse { request_id, data } => match self.handle_kv_response(request_id, data) {
                Some(data) => IncomingAction::KvReply { request_id, data },
                None => IncomingAction::Nothing,
            },
            ToClient::TunnelMessage { message_id, message_kind } => self.handle_tunnel_message(message_id, message_kind),
            ToClient::Ping { ts } => {
                let sent = self.send_to_server(ToServer::Pong { ts });
                IncomingAction::Ponged { sent }
            },
        }
    }

    /// Reacts to a message that arrives through a tunnel.
    pub fn handle_tunnel_message(&mut self, message_id: MessageId, message_kind: ToClientTunnelMessageKind) -> (action:
        IncomingAction)
        requires
            old(self).wf(),
        ensures
            final(self).wf(),
            final(self)@ == old(self)@.tunnel_received(message_id.deep_view(), message_kind.deep_view()),
            action.deep_view() == old(self)@.tunnel_action(message_id.deep_view(), message_kind.deep_view()),
    {
        let message_index: u16 = message_id.message_index;
        let key = TunnelRequestKey { gateway_id: message_id.gateway_id, request_id: message_id.request_id };
        self.ensure_tunnel_index(key, message_index);
        match message_kind {
            ToClientTunnelMessageKind::RequestStart(start) => match self.handle_request_start(key, start) {
                Some(request) => IncomingAction::ProcessRequest { key, request },
                None => IncomingAction::Nothing,
            },
            ToClientTunnelMessageKind::RequestChunk { body, finish } => match self.handle_request_chunk(
                key,
                body,
                finish,
            ) {
                Some(request) => IncomingAction::ProcessRequest { key, request },
                None => IncomingAction::Nothing,
            },
            ToClientTunnelMessageKind::RequestAbort => {
                self.handle_request_abort(key);
                IncomingAction::Nothing
            },
            ToClientTunnelMessageKind::WebSocketOpen(open) => IncomingAction::OpenWebSocket { key, open },
            ToClientTunnelMessageKind::WebSocketMessage { data, binary } => match self.handle_websocket_message(
                key,
                message_index,
                data,
                binary,
            ) {
                Some(delivery) => IncomingAction::DeliverMessage { key, delivery },
                None => IncomingAction::Nothing,
            },
            ToClientTunnelMessageKind::WebSocketClose { code, reason } => match self.handle_websocket_close(key) {
                Some(context) => IncomingAction::CloseWebSocket { context, code, reason },
                None => IncomingAction::Nothing,
            },
        }
    }
}

} // verus!
