//! What the contents of values say of them.

use crate::actions::{
    ActorStartEnd, ActorStartEndView, ActorWait, ActorWaitView, CommandAction, CommandActionView, IncomingAction,
    IncomingActionView, RestoreStep, RestoreStepView, WebSocketDelivery, WebSocketOpenStep, WebSocketOpenStepView,
};
use crate::actor::{
    ActorConfig, ActorContext, ActorLifecycleEvent, ActorLifecycleEventView, HibernatingRequest,
    HibernatingWebSocketMetadata, HttpContext, WebSocketContext, WebSocketMessage, names_are_distinct,
};
use crate::commands::callback_view;
use crate::config::{PrepopulateActorName, RunnerConfig};
use crate::connection::{
    ConnectedStep, ConnectedStepView, ConnectionAction, ConnectionActionView, ConnectionEvent, ConnectionEventView,
    RunAction, RunActionView, RunEvent, RunEventView,
};
use crate::duplicate::lemma_bytes_deep_view;
use crate::error::{RunnerError, RunnerErrorView, outcome};
use crate::external::{header_pairs, json_text};
use crate::kv::{KvReply, KvReplyView};
use crate::protocol::{
    ActorCheckpoint, ActorState, ActorStateView, Command, CommandStartActor, CommandView, CommandWrapper, Event,
    EventView, EventWrapper, KvListQuery, KvListQueryView, KvRequestData, KvRequestDataView, KvResponseData,
    KvResponseDataView, MessageId, RequestStart, ServerlessInit, ToClient, ToClientTunnelMessageKind,
    ToClientTunnelMessageKindView, ToClientView, ToServer, ToServerTunnelMessageKind, ToServerTunnelMessageKindView,
    ToServerView, WebSocketOpen,
};
use crate::requests::{HttpRequest, HttpResponse, HttpStep, HttpStepView};
use crate::restore::Restore;
use crate::runtime::{ActorRuntimeState, PendingHttpRequest, WebSocketRuntimeState};
use crate::serverless::{ServerlessConfig, UpsertAction, UpsertActionView, UpsertState, UpsertStateView};
use crate::state::RunnerInner;
use crate::tunnel::TunnelRequestKey;
use vstd::prelude::*;

verus! {

/// The contents of an [`ActorCheckpoint`] are all that it holds.
pub proof fn law_contents_of_actor_checkpoint(value: ActorCheckpoint)
    ensures
        value.deep_view().actor_id == value.actor_id@,
        value.deep_view().generation == value.generation,
        value.deep_view().index == value.index,
{
}

/// The contents of an [`ActorState`] are all that it holds.
pub proof fn law_contents_of_actor_state(value: ActorState)
    ensures
        value matches ActorState::Running ==> value.deep_view() == ActorStateView::Running,
        value matches ActorState::Stopped { code, message } ==> value.deep_view() == (ActorStateView::Stopped {
            code: code,
            message: message.deep_view(),
        }),
{
}

/// The contents of an [`Event`] are all that it holds.
pub proof fn law_contents_of_event(value: Event)
    ensures
        value matches Event::Intent(held) ==> value.deep_view() == EventView::Intent(held),
        value matches Event::StateUpdate(held) ==> value.deep_view() == EventView::StateUpdate(held.deep_view()),
        value matches Event::SetAlarm(held) ==> value.deep_view() == EventView::SetAlarm(held),
{
}

/// The contents of an [`EventWrapper`] are all that it holds.
pub proof fn law_contents_of_event_wrapper(value: EventWrapper)
    ensures
        value.deep_view().checkpoint == value.checkpoint.deep_view(),
        value.deep_view().inner == value.inner.deep_view(),
{
}

/// The contents of a [`KvListQuery`] are all that it holds.
pub proof fn law_contents_of_kv_list_query(value: KvListQuery)
    ensures
        value matches KvListQuery::All ==> value.deep_view() == KvListQueryView::All,
        value matches KvListQuery::Prefix { key } ==> value.deep_view() == (KvListQueryView::Prefix { key: key@ }),
        value matches KvListQuery::Range { start, end, exclusive } ==> value.deep_view() == (KvListQueryView::Range {
            start: start@,
            end: end@,
            exclusive: exclusive,
        }),
{
    broadcast use lemma_bytes_deep_view;

}

/// The contents of a [`KvRequestData`] are all that it holds.
pub proof fn law_contents_of_kv_request_data(value: KvRequestData)
    ensures
        value matches KvRequestData::Get { keys } ==> value.deep_view() == (KvRequestDataView::Get {
            keys: keys.deep_view(),
        }),
        value matches KvRequestData::List { query, reverse, limit } ==> value.deep_view() == (KvRequestDataView::List {
            query: query.deep_view(),
            reverse: reverse,
            limit: limit,
        }),
        value matches KvRequestData::Put { keys, values } ==> value.deep_view() == (KvRequestDataView::Put {
            keys: keys.deep_view(),
            values: values.deep_view(),
        }),
        value matches KvRequestData::Delete { keys } ==> value.deep_view() == (KvRequestDataView::Delete {
            keys: keys.deep_view(),
        }),
        value matches KvRequestData::Drop ==> value.deep_view() == KvRequestDataView::Drop,
{
    broadcast use lemma_bytes_deep_view;

}

/// The contents of a [`KvResponseData`] are all that it holds.
pub proof fn law_contents_of_kv_response_data(value: KvResponseData)
    ensures
        value matches KvResponseData::Error { message } ==> value.deep_view() == (KvResponseDataView::Error {
            message: message@,
        }),
        value matches KvResponseData::Get { keys, values } ==> value.deep_view() == (KvResponseDataView::Get {
            keys: keys.deep_view(),
            values: values.deep_view(),
        }),
        value matches KvResponseData::List { keys, values } ==> value.deep_view() == (KvResponseDataView::List {
            keys: keys.deep_view(),
            values: values.deep_view(),
        }),
        value matches KvResponseData::Put ==> value.deep_view() == KvResponseDataView::Put,
        value matches KvResponseData::Delete ==> value.deep_view() == KvResponseDataView::Delete,
        value matches KvResponseData::Drop ==> value.deep_view() == KvResponseDataView::Drop,
{
    broadcast use lemma_bytes_deep_view;

}

/// The contents of a [`MessageId`] are all that it holds.
pub proof fn law_contents_of_message_id(value: MessageId)
    ensures
        value.deep_view().gateway_id == value.gateway_id@,
        value.deep_view().request_id == value.request_id@,
        value.deep_view().message_index == value.message_index,
{
}

/// The contents of a [`ToServerTunnelMessageKind`] are all that it holds.
pub proof fn law_contents_of_to_server_tunnel_message_kind(value: ToServerTunnelMessageKind)
    ensures
        value matches ToServerTunnelMessageKind::ResponseStart { status, headers, body, stream } ==> value.deep_view()
            == (ToServerTunnelMessageKindView::ResponseStart {
            status: status,
            headers: headers.deep_view(),
            body: body.deep_view(),
            stream: stream,
        }),
        value matches ToServerTunnelMessageKind::WebSocketOpen { can_hibernate } ==> value.deep_view()
            == (ToServerTunnelMessageKindView::WebSocketOpen {
            can_hibernate: can_hibernate,
        }),
        value matches ToServerTunnelMessageKind::WebSocketMessage { data, binary } ==> value.deep_view()
            == (ToServerTunnelMessageKindView::WebSocketMessage {
            data: data@,
            binary: binary,
        }),
        value matches ToServerTunnelMessageKind::WebSocketMessageAck { index } ==> value.deep_view()
            == (ToServerTunnelMessageKindView::WebSocketMessageAck {
            index: index,
        }),
        value matches ToServerTunnelMessageKind::WebSocketClose { code, reason, hibernate } ==> value.deep_view()
            == (ToServerTunnelMessageKindView::WebSocketClose {
            code: code,
            reason: reason.deep_view(),
            hibernate: hibernate,
        }),
{
    broadcast use lemma_bytes_deep_view;

}

/// The contents of a [`ToServer`] are all that it holds.
pub proof fn law_contents_of_to_server(value: ToServer)
    ensures
        value matches ToServer::Init { name, version, total_slots, prepopulate_actor_names, metadata } ==> value.deep_view()
            == (ToServerView::Init {
            name: name@,
            version: version,
            total_slots: total_slots,
            prepopulate_actor_names: prepopulate_actor_names.deep_view(),
            metadata: metadata.deep_view(),
        }),
        value matches ToServer::Events(held) ==> value.deep_view() == ToServerView::Events(held.deep_view()),
        value matches ToServer::AckCommands { last_command_checkpoints } ==> value.deep_view()
            == (ToServerView::AckCommands {
            last_command_checkpoints: last_command_checkpoints.deep_view(),
        }),
        value matches ToServer::Stopping ==> value.deep_view() == ToServerView::Stopping,
        value matches ToServer::KvRequest { actor_id, request_id, data } ==> value.deep_view()
            == (ToServerView::KvRequest {
            actor_id: actor_id@,
            request_id: request_id,
            data: data.deep_view(),
        }),
        value matches ToServer::TunnelMessage { message_id, message_kind } ==> value.deep_view()
            == (ToServerView::TunnelMessage {
            message_id: message_id.deep_view(),
            message_kind: message_kind.deep_view(),
        }),
        value matches ToServer::Pong { ts } ==> value.deep_view() == (ToServerView::Pong { ts: ts }),
{
}

/// The contents of a [`RequestStart`] are all that it holds.
pub proof fn law_contents_of_request_start(value: RequestStart)
    ensures
        value.deep_view().actor_id == value.actor_id@,
        value.deep_view().method == value.method@,
        value.deep_view().path == value.path@,
        value.deep_view().headers == value.headers.deep_view(),
        value.deep_view().body == value.body.deep_view(),
        value.deep_view().stream == value.stream,
{
    broadcast use lemma_bytes_deep_view;

}

/// The contents of a [`WebSocketOpen`] are all that it holds.
pub proof fn law_contents_of_websocket_open(value: WebSocketOpen)
    ensures
        value.deep_view().actor_id == value.actor_id@,
        value.deep_view().path == value.path@,
        value.deep_view().headers == value.headers.deep_view(),
{
}

/// The contents of a [`ToClientTunnelMessageKind`] are all that it holds.
pub proof fn law_contents_of_to_client_tunnel_message_kind(value: ToClientTunnelMessageKind)
    ensures
        value matches ToClientTunnelMessageKind::RequestStart(held) ==> value.deep_view()
            == ToClientTunnelMessageKindView::RequestStart(held.deep_view()),
        value matches ToClientTunnelMessageKind::RequestChunk { body, finish } ==> value.deep_view()
            == (ToClientTunnelMessageKindView::RequestChunk {
            body: body@,
            finish: finish,
        }),
        value matches ToClientTunnelMessageKind::RequestAbort ==> value.deep_view()
            == ToClientTunnelMessageKindView::RequestAbort,
        value matches ToClientTunnelMessageKind::WebSocketOpen(held) ==> value.deep_view()
            == ToClientTunnelMessageKindView::WebSocketOpen(held.deep_view()),
        value matches ToClientTunnelMessageKind::WebSocketMessage { data, binary } ==> value.deep_view()
            == (ToClientTunnelMessageKindView::WebSocketMessage {
            data: data@,
            binary: binary,
        }),
        value matches ToClientTunnelMessageKind::WebSocketClose { code, reason } ==> value.deep_view()
            == (ToClientTunnelMessageKindView::WebSocketClose {
            code: code,
            reason: reason.deep_view(),
        }),
{
    broadcast use lemma_bytes_deep_view;

}

/// The contents of a [`CommandStartActor`] are all that it holds.
pub proof fn law_contents_of_command_start_actor(value: CommandStartActor)
    ensures
        value.deep_view().config == value.config.deep_view(),
        value.deep_view().hibernating_requests == value.hibernating_requests.deep_view(),
{
}

/// The contents of a [`Command`] are all that it holds.
pub proof fn law_contents_of_command(value: Command)
    ensures
        value matches Command::StartActor(held) ==> value.deep_view() == CommandView::StartActor(held.deep_view()),
        value matches Command::StopActor ==> value.deep_view() == CommandView::StopActor,
{
}

/// The contents of a [`CommandWrapper`] are all that it holds.
pub proof fn law_contents_of_command_wrapper(value: CommandWrapper)
    ensures
        value.deep_view().checkpoint == value.checkpoint.deep_view(),
        value.deep_view().inner == value.inner.deep_view(),
{
}

/// The contents of a [`ToClient`] are all that it holds.
pub proof fn law_contents_of_to_client(value: ToClient)
    ensures
        value matches ToClient::Init { runner_id } ==> value.deep_view() == (ToClientView::Init {
            runner_id: runner_id@,
        }),
        value matches ToClient::Commands(held) ==> value.deep_view() == ToClientView::Commands(held.deep_view()),
        value matches ToClient::AckEvents { last_event_checkpoints } ==> value.deep_view() == (ToClientView::AckEvents {
            last_event_checkpoints: last_event_checkpoints.deep_view(),
        }),
        value matches ToClient::KvResponse { request_id, data } ==> value.deep_view() == (ToClientView::KvResponse {
            request_id: request_id,
            data: data.deep_view(),
        }),
        value matches ToClient::TunnelMessage { message_id, message_kind } ==> value.deep_view()
            == (ToClientView::TunnelMessage {
            message_id: message_id.deep_view(),
            message_kind: message_kind.deep_view(),
        }),
        value matches ToClient::Ping { ts } ==> value.deep_view() == (ToClientView::Ping { ts: ts }),
{
}

/// The contents of a [`ServerlessInit`] are all that it holds.
pub proof fn law_contents_of_serverless_init(value: ServerlessInit)
    ensures
        value.deep_view().runner_id == value.runner_id@,
        value.deep_view().runner_protocol_version == value.runner_protocol_version,
{
}

/// The contents of an [`ActorConfig`] are all that it holds.
pub proof fn law_contents_of_actor_config(value: ActorConfig)
    ensures
        value.deep_view().name == value.name@,
        value.deep_view().key == value.key.deep_view(),
        value.deep_view().create_ts == value.create_ts,
        value.deep_view().input == value.input.deep_view(),
{
    broadcast use lemma_bytes_deep_view;

}

/// The contents of a [`HibernatingRequest`] are all that it holds.
pub proof fn law_contents_of_hibernating_request(value: HibernatingRequest)
    ensures
        value.deep_view().gateway_id == value.gateway_id@,
        value.deep_view().request_id == value.request_id@,
{
}

/// The contents of an [`ActorContext`] are all that it holds.
pub proof fn law_contents_of_actor_context(value: ActorContext)
    ensures
        value.deep_view().actor_id == value.actor_id@,
        value.deep_view().generation == value.generation,
        value.deep_view().actor_name == value.actor_name@,
        value.deep_view().config == value.config.deep_view(),
        value.deep_view().hibernating_requests == value.hibernating_requests.deep_view(),
{
}

/// The contents of a [`HttpContext`] are all that it holds.
pub proof fn law_contents_of_http_context(value: HttpContext)
    ensures
        value.deep_view().actor_id == value.actor_id@,
        value.deep_view().generation == value.generation,
        value.deep_view().actor_name == value.actor_name@,
        value.deep_view().gateway_id == value.gateway_id@,
        value.deep_view().request_id == value.request_id@,
{
}

/// The contents of a [`WebSocketContext`] are all that it holds.
pub proof fn law_contents_of_websocket_context(value: WebSocketContext)
    ensures
        value.deep_view().actor_id == value.actor_id@,
        value.deep_view().generation == value.generation,
        value.deep_view().actor_name == value.actor_name@,
        value.deep_view().gateway_id == value.gateway_id@,
        value.deep_view().request_id == value.request_id@,
        value.deep_view().path == value.path@,
        value.deep_view().headers == value.headers.deep_view(),
        value.deep_view().is_hibernatable == value.is_hibernatable,
        value.deep_view().is_restoring_hibernatable == value.is_restoring_hibernatable,
{
}

/// The contents of a [`HibernatingWebSocketMetadata`] are all that it holds.
pub proof fn law_contents_of_hibernating_websocket_metadata(value: HibernatingWebSocketMetadata)
    ensures
        value.deep_view().gateway_id == value.gateway_id@,
        value.deep_view().request_id == value.request_id@,
        value.deep_view().client_message_index == value.client_message_index,
        value.deep_view().server_message_index == value.server_message_index,
        value.deep_view().path == value.path@,
        value.deep_view().headers == value.headers.deep_view(),
{
}

/// The contents of a [`WebSocketMessage`] are all that it holds.
pub proof fn law_contents_of_websocket_message(value: WebSocketMessage)
    ensures
        value.deep_view().data == value.data@,
        value.deep_view().binary == value.binary,
        value.deep_view().message_index == value.message_index,
{
    broadcast use lemma_bytes_deep_view;

}

/// The contents of an [`ActorLifecycleEvent`] are all that it holds.
pub proof fn law_contents_of_actor_lifecycle_event(value: ActorLifecycleEvent)
    ensures
        value matches ActorLifecycleEvent::Started { actor_id, generation } ==> value.deep_view()
            == (ActorLifecycleEventView::Started {
            actor_id: actor_id@,
            generation: generation,
        }),
        value matches ActorLifecycleEvent::Stopped { actor_id, generation } ==> value.deep_view()
            == (ActorLifecycleEventView::Stopped {
            actor_id: actor_id@,
            generation: generation,
        }),
{
}

/// The contents of an [`ActorRuntimeState`] are all that it holds.
pub proof fn law_contents_of_actor_runtime_state(value: ActorRuntimeState)
    ensures
        value.deep_view().generation == value.generation,
        value.deep_view().config == value.config.deep_view(),
        value.deep_view().started == value.started,
        value.deep_view().start_notify == value.start_notify,
        value.deep_view().last_command_idx == value.last_command_idx,
        value.deep_view().next_event_idx == value.next_event_idx,
        value.deep_view().event_history == value.event_history.deep_view(),
        value.deep_view().hibernating_requests == value.hibernating_requests.deep_view(),
        value.deep_view().hibernation_restored == value.hibernation_restored,
{
}

/// The contents of a [`PendingHttpRequest`] are all that it holds.
pub proof fn law_contents_of_pending_http_request(value: PendingHttpRequest)
    ensures
        value.deep_view().actor_id == value.actor_id@,
        value.deep_view().method == value.method@,
        value.deep_view().path == value.path@,
        value.deep_view().headers == value.headers.deep_view(),
        value.deep_view().body == value.body@,
{
    broadcast use lemma_bytes_deep_view;

}

/// The contents of a [`WebSocketRuntimeState`] are all that it holds.
pub proof fn law_contents_of_websocket_runtime_state(value: WebSocketRuntimeState)
    ensures
        value.deep_view().actor_id == value.actor_id@,
        value.deep_view().generation == value.generation,
        value.deep_view().actor_name == value.actor_name@,
        value.deep_view().path == value.path@,
        value.deep_view().headers == value.headers.deep_view(),
        value.deep_view().is_hibernatable == value.is_hibernatable,
        value.deep_view().is_restoring_hibernatable == value.is_restoring_hibernatable,
        value.deep_view().server_message_index == value.server_message_index,
{
}

/// The contents of an [`ActorWait`] are all that it holds.
pub proof fn law_contents_of_actor_wait(value: ActorWait)
    ensures
        value matches ActorWait::Absent ==> value.deep_view() == ActorWaitView::Absent,
        value matches ActorWait::Waiting { start_notify } ==> value.deep_view() == (ActorWaitView::Waiting {
            start_notify: start_notify,
        }),
        value matches ActorWait::Up { generation, config } ==> value.deep_view() == (ActorWaitView::Up {
            generation: generation,
            config: config.deep_view(),
        }),
{
}

/// The contents of an [`ActorStartEnd`] are all that it holds.
pub proof fn law_contents_of_actor_start_end(value: ActorStartEnd)
    ensures
        value matches ActorStartEnd::Running { start_notify, reported } ==> value.deep_view()
            == (ActorStartEndView::Running {
            start_notify: start_notify,
            reported: outcome(reported),
        }),
        value matches ActorStartEnd::Unmarked(held) ==> value.deep_view()
            == ActorStartEndView::Unmarked(held.deep_view()),
        value matches ActorStartEnd::Abandoned ==> value.deep_view() == ActorStartEndView::Abandoned,
{
}

/// The contents of a [`CommandAction`] are all that it holds.
pub proof fn law_contents_of_command_action(value: CommandAction)
    ensures
        value matches CommandAction::Start(held) ==> value.deep_view() == CommandActionView::Start(held.deep_view()),
        value matches CommandAction::Stop(held) ==> value.deep_view() == CommandActionView::Stop(held.deep_view()),
{
}

/// The contents of a [`WebSocketOpenStep`] are all that it holds.
pub proof fn law_contents_of_websocket_open_step(value: WebSocketOpenStep)
    ensures
        value matches WebSocketOpenStep::Waiting { start_notify } ==> value.deep_view()
            == (WebSocketOpenStepView::Waiting {
            start_notify: start_notify,
        }),
        value matches WebSocketOpenStep::Rejected { sent } ==> value.deep_view() == (WebSocketOpenStepView::Rejected {
            sent: outcome(sent),
        }),
        value matches WebSocketOpenStep::Asking(held) ==> value.deep_view()
            == WebSocketOpenStepView::Asking(held.deep_view()),
{
}

/// The contents of a [`WebSocketDelivery`] are all that it holds.
pub proof fn law_contents_of_websocket_delivery(value: WebSocketDelivery)
    ensures
        value.deep_view().context == value.context.deep_view(),
        value.deep_view().message == value.message.deep_view(),
{
}

/// The contents of a [`RestoreStep`] are all that it holds.
pub proof fn law_contents_of_restore_step(value: RestoreStep)
    ensures
        value matches RestoreStep::Open(held) ==> value.deep_view() == RestoreStepView::Open(held.deep_view()),
        value matches RestoreStep::Close { context, code, reason } ==> value.deep_view() == (RestoreStepView::Close {
            context: context.deep_view(),
            code: code,
            reason: reason@,
        }),
        value matches RestoreStep::Finished ==> value.deep_view() == RestoreStepView::Finished,
        value matches RestoreStep::Failed(held) ==> value.deep_view() == RestoreStepView::Failed(held.deep_view()),
{
}

/// The contents of an [`IncomingAction`] are all that it holds.
pub proof fn law_contents_of_incoming_action(value: IncomingAction)
    ensures
        value matches IncomingAction::Connected { resent } ==> value.deep_view() == (IncomingActionView::Connected {
            resent: outcome(resent),
        }),
        value matches IncomingAction::Commands(held) ==> value.deep_view()
            == IncomingActionView::Commands(held.deep_view()),
        value matches IncomingAction::KvReply { request_id, data } ==> value.deep_view()
            == (IncomingActionView::KvReply {
            request_id: request_id,
            data: data.deep_view(),
        }),
        value matches IncomingAction::ProcessRequest { key, request } ==> value.deep_view()
            == (IncomingActionView::ProcessRequest {
            key: key.deep_view(),
            request: request.deep_view(),
        }),
        value matches IncomingAction::OpenWebSocket { key, open } ==> value.deep_view()
            == (IncomingActionView::OpenWebSocket {
            key: key.deep_view(),
            open: open.deep_view(),
        }),
        value matches IncomingAction::DeliverMessage { key, delivery } ==> value.deep_view()
            == (IncomingActionView::DeliverMessage {
            key: key.deep_view(),
            delivery: delivery.deep_view(),
        }),
        value matches IncomingAction::CloseWebSocket { context, code, reason } ==> value.deep_view()
            == (IncomingActionView::CloseWebSocket {
            context: context.deep_view(),
            code: code,
            reason: reason.deep_view(),
        }),
        value matches IncomingAction::Ponged { sent } ==> value.deep_view() == (IncomingActionView::Ponged {
            sent: outcome(sent),
        }),
        value matches IncomingAction::Nothing ==> value.deep_view() == IncomingActionView::Nothing,
{
}

/// The contents of a [`KvReply`] are all that it holds.
pub proof fn law_contents_of_kv_reply(value: KvReply)
    ensures
        value matches KvReply::Response(held) ==> value.deep_view() == KvReplyView::Response(held.deep_view()),
        value matches KvReply::TimedOut ==> value.deep_view() == KvReplyView::TimedOut,
        value matches KvReply::ChannelClosed ==> value.deep_view() == KvReplyView::ChannelClosed,
{
}

/// The contents of a [`HttpRequest`] are all that it holds.
pub proof fn law_contents_of_http_request(value: HttpRequest)
    ensures
        value.deep_view().method == value.method@,
        value.deep_view().uri == value.uri@,
        value.deep_view().headers == header_pairs(value.headers),
        value.deep_view().body == value.body@,
{
    broadcast use lemma_bytes_deep_view;

}

/// The contents of a [`HttpResponse`] are all that it holds.
pub proof fn law_contents_of_http_response(value: HttpResponse)
    ensures
        value.deep_view().status == value.status,
        value.deep_view().headers == header_pairs(value.headers),
        value.deep_view().body == value.body@,
{
    broadcast use lemma_bytes_deep_view;

}

/// The contents of a [`HttpStep`] are all that it holds.
pub proof fn law_contents_of_http_step(value: HttpStep)
    ensures
        value matches HttpStep::Waiting { start_notify } ==> value.deep_view() == (HttpStepView::Waiting {
            start_notify: start_notify,
        }),
        value matches HttpStep::Rejected { sent } ==> value.deep_view() == (HttpStepView::Rejected {
            sent: outcome(sent),
        }),
        value matches HttpStep::Invalid(held) ==> value.deep_view() == HttpStepView::Invalid(held.deep_view()),
        value matches HttpStep::Fetch { context, request } ==> value.deep_view() == (HttpStepView::Fetch {
            context: context.deep_view(),
            request: request.deep_view(),
        }),
{
}

/// The contents of a [`Restore`] are all that it holds.
pub proof fn law_contents_of_restore(value: Restore)
    ensures
        value.deep_view().actor_id == value.actor_id@,
        value.deep_view().generation == value.generation,
        value.deep_view().actor_name == value.actor_name@,
        value.deep_view().connected == value.connected.deep_view(),
        value.deep_view().meta_entries == value.meta_entries.deep_view(),
        value.deep_view().at == value.at,
        value.deep_view().stale_at == value.stale_at,
{
}

/// The contents of a [`RunEvent`] are all that it holds.
pub proof fn law_contents_of_run_event(value: RunEvent)
    ensures
        value matches RunEvent::Begun ==> value.deep_view() == RunEventView::Begun,
        value matches RunEvent::Disconnected { code, reason } ==> value.deep_view() == (RunEventView::Disconnected {
            code: code,
            reason: reason@,
        }),
        value matches RunEvent::ConnectionEnded ==> value.deep_view() == RunEventView::ConnectionEnded,
        value matches RunEvent::DisconnectNotified ==> value.deep_view() == RunEventView::DisconnectNotified,
        value matches RunEvent::Slept ==> value.deep_view() == RunEventView::Slept,
{
}

/// The contents of a [`RunAction`] are all that it holds.
pub proof fn law_contents_of_run_action(value: RunAction)
    ensures
        value matches RunAction::Connect ==> value.deep_view() == RunActionView::Connect,
        value matches RunAction::NotifyDisconnected { code, reason } ==> value.deep_view()
            == (RunActionView::NotifyDisconnected {
            code: code,
            reason: reason@,
        }),
        value matches RunAction::Sleep { millis } ==> value.deep_view() == (RunActionView::Sleep { millis: millis }),
        value matches RunAction::Stop ==> value.deep_view() == RunActionView::Stop,
{
}

/// The contents of a [`ConnectionEvent`] are all that it holds.
pub proof fn law_contents_of_connection_event(value: ConnectionEvent)
    ensures
        value matches ConnectionEvent::ShutdownRequested ==> value.deep_view()
            == ConnectionEventView::ShutdownRequested,
        value matches ConnectionEvent::AcknowledgementDue ==> value.deep_view()
            == ConnectionEventView::AcknowledgementDue,
        value matches ConnectionEvent::Closed { frame } ==> value.deep_view() == (ConnectionEventView::Closed {
            frame: frame.deep_view(),
        }),
        value matches ConnectionEvent::Ended ==> value.deep_view() == ConnectionEventView::Ended,
{
}

/// The contents of a [`ConnectionAction`] are all that it holds.
pub proof fn law_contents_of_connection_action(value: ConnectionAction)
    ensures
        value matches ConnectionAction::Continue { acknowledged } ==> value.deep_view()
            == (ConnectionActionView::Continue {
            acknowledged: outcome(acknowledged),
        }),
        value matches ConnectionAction::Finish { disconnect } ==> value.deep_view() == (ConnectionActionView::Finish {
            disconnect: disconnect.deep_view(),
        }),
{
}

/// The contents of a [`ConnectedStep`] are all that it holds.
pub proof fn law_contents_of_connected_step(value: ConnectedStep)
    ensures
        value matches ConnectedStep::CallBack ==> value.deep_view() == ConnectedStepView::CallBack,
        value matches ConnectedStep::Fail(held) ==> value.deep_view() == ConnectedStepView::Fail(held.deep_view()),
{
}

/// The contents of a [`RunnerConfig`] are all that it holds.
pub proof fn law_contents_of_runner_config(value: RunnerConfig)
    ensures
        value.deep_view().endpoint == value.endpoint@,
        value.deep_view().token == value.token@,
        value.deep_view().namespace == value.namespace@,
        value.deep_view().runner_name == value.runner_name@,
        value.deep_view().runner_key == value.runner_key@,
        value.deep_view().version == value.version,
        value.deep_view().total_slots == value.total_slots,
        value.deep_view().pegboard_endpoint == value.pegboard_endpoint.deep_view(),
        value.deep_view().prepopulate_actor_names == value.prepopulate_actor_names.deep_view(),
        value.metadata is Some ==> value.deep_view().metadata == Some(json_text(value.metadata->0)),
        value.metadata is None ==> value.deep_view().metadata is None,
{
}

/// The contents of a [`ServerlessConfig`] are all that it holds.
pub proof fn law_contents_of_serverless_config(value: ServerlessConfig)
    ensures
        value.deep_view().runner == value.runner.deep_view(),
        value.deep_view().max_runners == value.max_runners,
        value.deep_view().slots_per_runner == value.slots_per_runner,
        value.deep_view().request_lifespan == value.request_lifespan,
{
}

/// The contents of an [`UpsertState`] are all that it holds.
pub proof fn law_contents_of_upsert_state(value: UpsertState)
    ensures
        value matches UpsertState::First ==> value.deep_view() == UpsertStateView::First,
        value matches UpsertState::Refused { status, body } ==> value.deep_view() == (UpsertStateView::Refused {
            status: status@,
            body: body@,
        }),
        value matches UpsertState::Retried ==> value.deep_view() == UpsertStateView::Retried,
{
}

/// The contents of an [`UpsertAction`] are all that it holds.
pub proof fn law_contents_of_upsert_action(value: UpsertAction)
    ensures
        value matches UpsertAction::Put { datacenter_name } ==> value.deep_view() == (UpsertActionView::Put {
            datacenter_name: datacenter_name@,
        }),
        value matches UpsertAction::List ==> value.deep_view() == UpsertActionView::List,
        value matches UpsertAction::Done ==> value.deep_view() == UpsertActionView::Done,
        value matches UpsertAction::Fail(held) ==> value.deep_view() == UpsertActionView::Fail(held.deep_view()),
{
}

/// The contents of a [`RunnerError`] are all that it holds.
pub proof fn law_contents_of_runner_error(value: RunnerError)
    ensures
        value matches RunnerError::EndpointRequired ==> value.deep_view() == RunnerErrorView::EndpointRequired,
        value matches RunnerError::NamespaceRequired ==> value.deep_view() == RunnerErrorView::NamespaceRequired,
        value matches RunnerError::RunnerAppRequired ==> value.deep_view() == RunnerErrorView::RunnerAppRequired,
        value matches RunnerError::ServerlessAppRequired ==> value.deep_view()
            == RunnerErrorView::ServerlessAppRequired,
        value matches RunnerError::AlreadyStarted ==> value.deep_view() == RunnerErrorView::AlreadyStarted,
        value matches RunnerError::ActorNotFound { actor_id } ==> value.deep_view() == (RunnerErrorView::ActorNotFound {
            actor_id: actor_id@,
        }),
        value matches RunnerError::GenerationMismatch ==> value.deep_view() == RunnerErrorView::GenerationMismatch,
        value matches RunnerError::GenerationExpected { expected, got } ==> value.deep_view()
            == (RunnerErrorView::GenerationExpected {
            expected: expected,
            got: got,
        }),
        value matches RunnerError::AlreadyRestored { actor_id } ==> value.deep_view()
            == (RunnerErrorView::AlreadyRestored {
            actor_id: actor_id@,
        }),
        value matches RunnerError::SenderUnavailable ==> value.deep_view() == RunnerErrorView::SenderUnavailable,
        value matches RunnerError::SenderClosed ==> value.deep_view() == RunnerErrorView::SenderClosed,
        value matches RunnerError::InvalidProtocolHeader ==> value.deep_view()
            == RunnerErrorView::InvalidProtocolHeader,
        value matches RunnerError::InvalidMethod ==> value.deep_view() == RunnerErrorView::InvalidMethod,
        value matches RunnerError::InvalidUri ==> value.deep_view() == RunnerErrorView::InvalidUri,
        value matches RunnerError::InvalidHeader { message } ==> value.deep_view() == (RunnerErrorView::InvalidHeader {
            message: message@,
        }),
        value matches RunnerError::KvFailed { operation, message } ==> value.deep_view() == (RunnerErrorView::KvFailed {
            operation: operation,
            message: message@,
        }),
        value matches RunnerError::UnexpectedKvResponse { operation, response } ==> value.deep_view()
            == (RunnerErrorView::UnexpectedKvResponse {
            operation: operation,
            response: response.deep_view(),
        }),
        value matches RunnerError::KvTimedOut ==> value.deep_view() == RunnerErrorView::KvTimedOut,
        value matches RunnerError::KvChannelClosed ==> value.deep_view() == RunnerErrorView::KvChannelClosed,
        value matches RunnerError::KvValueLength { length } ==> value.deep_view() == (RunnerErrorView::KvValueLength {
            length: length,
        }),
        value matches RunnerError::ActorStopCallbackFailed ==> value.deep_view()
            == RunnerErrorView::ActorStopCallbackFailed,
        value matches RunnerError::WebSocketCallbackFailed { message } ==> value.deep_view()
            == (RunnerErrorView::WebSocketCallbackFailed {
            message: message@,
        }),
        value matches RunnerError::WebSocketCloseCallbackFailed ==> value.deep_view()
            == RunnerErrorView::WebSocketCloseCallbackFailed,
        value matches RunnerError::StaleWebSocketCloseCallbackFailed ==> value.deep_view()
            == RunnerErrorView::StaleWebSocketCloseCallbackFailed,
        value matches RunnerError::ConnectedCallbackFailed ==> value.deep_view()
            == RunnerErrorView::ConnectedCallbackFailed,
        value matches RunnerError::ShutdownCallbackFailed ==> value.deep_view()
            == RunnerErrorView::ShutdownCallbackFailed,
        value matches RunnerError::ActorNotRegistered { actor_name } ==> value.deep_view()
            == (RunnerErrorView::ActorNotRegistered {
            actor_name: actor_name@,
        }),
        value matches RunnerError::InitPacketUnavailable ==> value.deep_view()
            == RunnerErrorView::InitPacketUnavailable,
        value matches RunnerError::DatacentersUndecodable ==> value.deep_view()
            == RunnerErrorView::DatacentersUndecodable,
        value matches RunnerError::UpsertFailed { status, body } ==> value.deep_view()
            == (RunnerErrorView::UpsertFailed {
            status: status@,
            body: body@,
        }),
{
}

/// The contents of a [`TunnelRequestKey`] are all that it holds.
pub proof fn law_contents_of_tunnel_request_key(value: TunnelRequestKey)
    ensures
        value.deep_view().gateway_id == value.gateway_id@,
        value.deep_view().request_id == value.request_id@,
{
}

/// The contents of a [`PrepopulateActorName`] are its metadata.
pub proof fn law_contents_of_prepopulate_actor_name(value: PrepopulateActorName)
    ensures
        value.deep_view() == json_text(value.metadata),
{
}

/// The contents of a [`RunnerInner`] are all that it holds.
pub proof fn law_contents_of_runner_inner(value: RunnerInner)
    ensures
        value@.config == value.config.deep_view(),
        value@.runner_id == value.runner_id.deep_view(),
        value@.shutdown == value.shutdown,
        value@.started == value.started,
        value@.sender == value.sender,
        value@.outbox == value.outbox.deep_view(),
        value@.lifecycle == value.lifecycle.deep_view(),
        value@.actors == value.actors.deep_view(),
        value@.next_kv_request_id == value.next_kv_request_id,
        value@.pending_kv_requests == value.pending_kv_requests@,
        value@.pending_http_requests == value.pending_http_requests.deep_view(),
        value@.tunnel_message_indices == value.tunnel_message_indices.deep_view(),
        value@.websockets == value.websockets.deep_view(),
{
}

/// The outcome of an operation is its result or its error, and so is that of a callback.
pub proof fn law_outcomes<T: DeepView>(value: T, error: RunnerError, message: String)
    ensures
        outcome(Ok(value)) == Ok::<T::V, RunnerErrorView>(value.deep_view()),
        outcome(Err::<T, RunnerError>(error)) == Err::<T::V, RunnerErrorView>(error.deep_view()),
        callback_view(Ok(())) == Ok::<(), Seq<char>>(()),
        callback_view(Err(message)) == Err::<(), Seq<char>>(message@),
{
}

/// Names are distinct exactly if no two places hold the same one.
pub proof fn law_distinct_names(pairs: Seq<(Seq<char>, Seq<char>)>)
    ensures
        names_are_distinct(pairs) <==> forall|i: int, j: int|
            0 <= i < pairs.len() && 0 <= j < pairs.len() && (#[trigger] pairs[i]).0 == (#[trigger] pairs[j]).0
                ==> i == j,
{
    if names_are_distinct(pairs) {
        assert forall|i: int, j: int|
            0 <= i < pairs.len() && 0 <= j < pairs.len() && (#[trigger] pairs[i]).0 == (
            #[trigger] pairs[j]).0 implies i == j by {}
    }
}

} // verus!
