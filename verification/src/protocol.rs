//! The messages that the runner and the engine exchange.

use crate::actor::{
    names_are_distinct, ActorConfig, ActorConfigView, Headers, HibernatingRequest, HibernatingRequestView,
};
use crate::duplicate::Duplicate;
use vstd::prelude::*;

verus! {

/// A place in the stream of commands or events of an actor.
#[derive(Clone, Debug, PartialEq, Eq)]
pub struct ActorCheckpoint {
    pub actor_id: String,
    pub generation: u32,
    pub index: i64,
}

/// The contents of a [`ActorCheckpoint`].
#[verifier::ext_equal]
pub struct ActorCheckpointView {
    pub actor_id: Seq<char>,
    pub generation: u32,
    pub index: i64,
}

impl DeepView for ActorCheckpoint {
    type V = ActorCheckpointView;

    open spec fn deep_view(&self) -> ActorCheckpointView {
        ActorCheckpointView {
            actor_id: self.actor_id.deep_view(),
            generation: self.generation,
            index: self.index,
        }
    }
}

impl Duplicate for ActorCheckpoint {
    fn duplicate(&self) -> (copy: Self) {
        ActorCheckpoint {
            actor_id: self.actor_id.duplicate(),
            generation: self.generation,
            index: self.index,
        }
    }
}

/// What an actor asks for.
#[derive(Clone, Copy, Debug, PartialEq, Eq, Structural)]
pub enum ActorIntent {
    Sleep,
    Stop,
}

/// How an actor stopped.
#[derive(Clone, Copy, Debug, PartialEq, Eq, Structural)]
pub enum StopCode {
    Success,
    Error,
}

/// The state of an actor as reported to the engine.
#[derive(Clone, Debug, PartialEq, Eq)]
pub enum ActorState {
    Running,
    Stopped { code: StopCode, message: Option<String> },
}

/// The contents of a [`ActorState`].
#[verifier::ext_equal]
pub enum ActorStateView {
    Running,
    Stopped { code: StopCode, message: Option<Seq<char>> },
}

impl DeepView for ActorState {
    type V = ActorStateView;

    open spec fn deep_view(&self) -> ActorStateView {
        match self {
            ActorState::Running => ActorStateView::Running,
            ActorState::Stopped { code, message } => ActorStateView::Stopped {
                code: *code,
                message: message.deep_view(),
            },
        }
    }
}

impl Duplicate for ActorState {
    fn duplicate(&self) -> (copy: Self) {
        match self {
            ActorState::Running => ActorState::Running,
            ActorState::Stopped { code, message } => ActorState::Stopped {
                code: *code,
                message: message.duplicate(),
            },
        }
    }
}

/// Something that happened to an actor.
#[derive(Clone, Debug, PartialEq, Eq)]
pub enum Event {
    Intent(ActorIntent),
    StateUpdate(ActorState),
    SetAlarm(Option<i64>),
}

/// The contents of a [`Event`].
#[verifier::ext_equal]
pub enum EventView {
    Intent(ActorIntent),
    StateUpdate(ActorStateView),
    SetAlarm(Option<i64>),
}

impl DeepView for Event {
    type V = EventView;

    open spec fn deep_view(&self) -> EventView {
        match self {
            Event::Intent(value) => EventView::Intent(*value),
            Event::StateUpdate(value) => EventView::StateUpdate(value.deep_view()),
            Event::SetAlarm(value) => EventView::SetAlarm(value.deep_view()),
        }
    }
}

impl Duplicate for Event {
    fn duplicate(&self) -> (copy: Self) {
        match self {
            Event::Intent(value) => Event::Intent(*value),
            Event::StateUpdate(value) => Event::StateUpdate(value.duplicate()),
            Event::SetAlarm(value) => Event::SetAlarm(*value),
        }
    }
}

/// An event and its place in the stream of its actor.
#[derive(Clone, Debug, PartialEq, Eq)]
pub struct EventWrapper {
    pub checkpoint: ActorCheckpoint,
    pub inner: Event,
}

/// The contents of a [`EventWrapper`].
#[verifier::ext_equal]
pub struct EventWrapperView {
    pub checkpoint: ActorCheckpointView,
    pub inner: EventView,
}

impl DeepView for EventWrapper {
    type V = EventWrapperView;

    open spec fn deep_view(&self) -> EventWrapperView {
        EventWrapperView {
            checkpoint: self.checkpoint.deep_view(),
            inner: self.inner.deep_view(),
        }
    }
}

impl Duplicate for EventWrapper {
    fn duplicate(&self) -> (copy: Self) {
        EventWrapper {
            checkpoint: self.checkpoint.duplicate(),
            inner: self.inner.duplicate(),
        }
    }
}

/// Which entries a listing asks for.
#[derive(Clone, Debug, PartialEq, Eq)]
pub enum KvListQuery {
    All,
    Prefix { key: Vec<u8> },
    Range { start: Vec<u8>, end: Vec<u8>, exclusive: bool },
}

/// The contents of a [`KvListQuery`].
#[verifier::ext_equal]
pub enum KvListQueryView {
    All,
    Prefix { key: Seq<u8> },
    Range { start: Seq<u8>, end: Seq<u8>, exclusive: bool },
}

impl DeepView for KvListQuery {
    type V = KvListQueryView;

    open spec fn deep_view(&self) -> KvListQueryView {
        match self {
            KvListQuery::All => KvListQueryView::All,
            KvListQuery::Prefix { key } => KvListQueryView::Prefix {
                key: key.deep_view(),
            },
            KvListQuery::Range { start, end, exclusive } => KvListQueryView::Range {
                start: start.deep_view(),
                end: end.deep_view(),
                exclusive: *exclusive,
            },
        }
    }
}

/// A request to the key-value store of an actor.
#[derive(Clone, Debug, PartialEq, Eq)]
pub enum KvRequestData {
    Get { keys: Vec<Vec<u8>> },
    List { query: KvListQuery, reverse: Option<bool>, limit: Option<u64> },
    Put { keys: Vec<Vec<u8>>, values: Vec<Vec<u8>> },
    Delete { keys: Vec<Vec<u8>> },
    Drop,
}

/// The contents of a [`KvRequestData`].
#[verifier::ext_equal]
pub enum KvRequestDataView {
    Get { keys: Seq<Seq<u8>> },
    List { query: KvListQueryView, reverse: Option<bool>, limit: Option<u64> },
    Put { keys: Seq<Seq<u8>>, values: Seq<Seq<u8>> },
    Delete { keys: Seq<Seq<u8>> },
    Drop,
}

impl DeepView for KvRequestData {
    type V = KvRequestDataView;

    open spec fn deep_view(&self) -> KvRequestDataView {
        match self {
            KvRequestData::Get { keys } => KvRequestDataView::Get {
                keys: keys.deep_view(),
            },
            KvRequestData::List { query, reverse, limit } => KvRequestDataView::List {
                query: query.deep_view(),
                reverse: reverse.deep_view(),
                limit: limit.deep_view(),
            },
            KvRequestData::Put { keys, values } => KvRequestDataView::Put {
                keys: keys.deep_view(),
                values: values.deep_view(),
            },
            KvRequestData::Delete { keys } => KvRequestDataView::Delete {
                keys: keys.deep_view(),
            },
            KvRequestData::Drop => KvRequestDataView::Drop,
        }
    }
}

/// A reply of the key-value store.
#[derive(Clone, Debug, PartialEq, Eq)]
pub enum KvResponseData {
    Error { message: String },
    Get { keys: Vec<Vec<u8>>, values: Vec<Vec<u8>> },
    List { keys: Vec<Vec<u8>>, values: Vec<Vec<u8>> },
    Put,
    Delete,
    Drop,
}

/// The contents of a [`KvResponseData`].
#[verifier::ext_equal]
pub enum KvResponseDataView {
    Error { message: Seq<char> },
    Get { keys: Seq<Seq<u8>>, values: Seq<Seq<u8>> },
    List { keys: Seq<Seq<u8>>, values: Seq<Seq<u8>> },
    Put,
    Delete,
    Drop,
}

impl DeepView for KvResponseData {
    type V = KvResponseDataView;

    open spec fn deep_view(&self) -> KvResponseDataView {
        match self {
            KvResponseData::Error { message } => KvResponseDataView::Error {
                message: message.deep_view(),
            },
            KvResponseData::Get { keys, values } => KvResponseDataView::Get {
                keys: keys.deep_view(),
                values: values.deep_view(),
            },
            KvResponseData::List { keys, values } => KvResponseDataView::List {
                keys: keys.deep_view(),
                values: values.deep_view(),
            },
            KvResponseData::Put => KvResponseDataView::Put,
            KvResponseData::Delete => KvResponseDataView::Delete,
            KvResponseData::Drop => KvResponseDataView::Drop,
        }
    }
}

/// Names a message within a tunnel.
#[derive(Clone, Debug, PartialEq, Eq)]
pub struct MessageId {
    pub gateway_id: [u8; 4],
    pub request_id: [u8; 4],
    pub message_index: u16,
}

/// The contents of a [`MessageId`].
#[verifier::ext_equal]
pub struct MessageIdView {
    pub gateway_id: Seq<u8>,
    pub request_id: Seq<u8>,
    pub message_index: u16,
}

impl DeepView for MessageId {
    type V = MessageIdView;

    open spec fn deep_view(&self) -> MessageIdView {
        MessageIdView {
            gateway_id: self.gateway_id@,
            request_id: self.request_id@,
            message_index: self.message_index,
        }
    }
}

/// What the runner sends through a tunnel.
#[derive(Clone, Debug, PartialEq, Eq)]
pub enum ToServerTunnelMessageKind {
    ResponseStart { status: u16, headers: Headers, body: Option<Vec<u8>>, stream: bool },
    WebSocketOpen { can_hibernate: bool },
    WebSocketMessage { data: Vec<u8>, binary: bool },
    WebSocketMessageAck { index: u16 },
    WebSocketClose { code: Option<u16>, reason: Option<String>, hibernate: bool },
}

/// The contents of a [`ToServerTunnelMessageKind`].
#[verifier::ext_equal]
pub enum ToServerTunnelMessageKindView {
    ResponseStart { status: u16, headers: Seq<(Seq<char>, Seq<char>)>, body: Option<Seq<u8>>, stream: bool },
    WebSocketOpen { can_hibernate: bool },
    WebSocketMessage { data: Seq<u8>, binary: bool },
    WebSocketMessageAck { index: u16 },
    WebSocketClose { code: Option<u16>, reason: Option<Seq<char>>, hibernate: bool },
}

impl DeepView for ToServerTunnelMessageKind {
    type V = ToServerTunnelMessageKindView;

    open spec fn deep_view(&self) -> ToServerTunnelMessageKindView {
        match self {
            ToServerTunnelMessageKind::ResponseStart { status, headers, body, stream } => ToServerTunnelMessageKindView::ResponseStart {
                status: *status,
                headers: headers.deep_view(),
                body: body.deep_view(),
                stream: *stream,
            },
            ToServerTunnelMessageKind::WebSocketOpen { can_hibernate } => ToServerTunnelMessageKindView::WebSocketOpen {
                can_hibernate: *can_hibernate,
            },
            ToServerTunnelMessageKind::WebSocketMessage { data, binary } => ToServerTunnelMessageKindView::WebSocketMessage {
                data: data.deep_view(),
                binary: *binary,
            },
            ToServerTunnelMessageKind::WebSocketMessageAck { index } => ToServerTunnelMessageKindView::WebSocketMessageAck {
                index: *index,
            },
            ToServerTunnelMessageKind::WebSocketClose { code, reason, hibernate } => ToServerTunnelMessageKindView::WebSocketClose {
                code: code.deep_view(),
                reason: reason.deep_view(),
                hibernate: *hibernate,
            },
        }
    }
}

/// A message from the runner to the engine.
#[derive(Clone, Debug, PartialEq, Eq)]
pub enum ToServer {
    Init {
        name: String,
        version: u32,
        total_slots: u32,
        prepopulate_actor_names: Option<Vec<(String, String)>>,
        metadata: Option<String>,
    },
    Events(Vec<EventWrapper>),
    AckCommands { last_command_checkpoints: Vec<ActorCheckpoint> },
    Stopping,
    KvRequest { actor_id: String, request_id: u32, data: KvRequestData },
    TunnelMessage { message_id: MessageId, message_kind: ToServerTunnelMessageKind },
    Pong { ts: i64 },
}

/// The contents of a [`ToServer`].
#[verifier::ext_equal]
pub enum ToServerView {
    Init {
        name: Seq<char>,
        version: u32,
        total_slots: u32,
        prepopulate_actor_names: Option<Seq<(Seq<char>, Seq<char>)>>,
        metadata: Option<Seq<char>>,
    },
    Events(Seq<EventWrapperView>),
    AckCommands { last_command_checkpoints: Seq<ActorCheckpointView> },
    Stopping,
    KvRequest { actor_id: Seq<char>, request_id: u32, data: KvRequestDataView },
    TunnelMessage { message_id: MessageIdView, message_kind: ToServerTunnelMessageKindView },
    Pong { ts: i64 },
}

impl DeepView for ToServer {
    type V = ToServerView;

    open spec fn deep_view(&self) -> ToServerView {
        match self {
            ToServer::Init { name, version, total_slots, prepopulate_actor_names, metadata } => ToServerView::Init {
                name: name.deep_view(),
                version: *version,
                total_slots: *total_slots,
                prepopulate_actor_names: prepopulate_actor_names.deep_view(),
                metadata: metadata.deep_view(),
            },
            ToServer::Events(value) => ToServerView::Events(value.deep_view()),
            ToServer::AckCommands { last_command_checkpoints } => ToServerView::AckCommands {
                last_command_checkpoints: last_command_checkpoints.deep_view(),
            },
            ToServer::Stopping => ToServerView::Stopping,
            ToServer::KvRequest { actor_id, request_id, data } => ToServerView::KvRequest {
                actor_id: actor_id.deep_view(),
                request_id: *request_id,
                data: data.deep_view(),
            },
            ToServer::TunnelMessage { message_id, message_kind } => ToServerView::TunnelMessage {
                message_id: message_id.deep_view(),
                message_kind: message_kind.deep_view(),
            },
            ToServer::Pong { ts } => ToServerView::Pong {
                ts: *ts,
            },
        }
    }
}

/// The head of an HTTP request, with the part of its body that came along.
#[derive(Clone, Debug, PartialEq, Eq)]
pub struct RequestStart {
    pub actor_id: String,
    pub method: String,
    pub path: String,
    pub headers: Headers,
    pub body: Option<Vec<u8>>,
    pub stream: bool,
}

/// The contents of a [`RequestStart`].
#[verifier::ext_equal]
pub struct RequestStartView {
    pub actor_id: Seq<char>,
    pub method: Seq<char>,
    pub path: Seq<char>,
    pub headers: Seq<(Seq<char>, Seq<char>)>,
    pub body: Option<Seq<u8>>,
    pub stream: bool,
}

impl DeepView for RequestStart {
    type V = RequestStartView;

    open spec fn deep_view(&self) -> RequestStartView {
        RequestStartView {
            actor_id: self.actor_id.deep_view(),
            method: self.method.deep_view(),
            path: self.path.deep_view(),
            headers: self.headers.deep_view(),
            body: self.body.deep_view(),
            stream: self.stream,
        }
    }
}

/// A request to open a WebSocket.
#[derive(Clone, Debug, PartialEq, Eq)]
pub struct WebSocketOpen {
    pub actor_id: String,
    pub path: String,
    pub headers: Headers,
}

/// The contents of a [`WebSocketOpen`].
#[verifier::ext_equal]
pub struct WebSocketOpenView {
    pub actor_id: Seq<char>,
    pub path: Seq<char>,
    pub headers: Seq<(Seq<char>, Seq<char>)>,
}

impl DeepView for WebSocketOpen {
    type V = WebSocketOpenView;

    open spec fn deep_view(&self) -> WebSocketOpenView {
        WebSocketOpenView {
            actor_id: self.actor_id.deep_view(),
            path: self.path.deep_view(),
            headers: self.headers.deep_view(),
        }
    }
}

/// What arrives through a tunnel.
#[derive(Clone, Debug, PartialEq, Eq)]
pub enum ToClientTunnelMessageKind {
    RequestStart(RequestStart),
    RequestChunk { body: Vec<u8>, finish: bool },
    RequestAbort,
    WebSocketOpen(WebSocketOpen),
    WebSocketMessage { data: Vec<u8>, binary: bool },
    WebSocketClose { code: Option<u16>, reason: Option<String> },
}

/// The contents of a [`ToClientTunnelMessageKind`].
#[verifier::ext_equal]
pub enum ToClientTunnelMessageKindView {
    RequestStart(RequestStartView),
    RequestChunk { body: Seq<u8>, finish: bool },
    RequestAbort,
    WebSocketOpen(WebSocketOpenView),
    WebSocketMessage { data: Seq<u8>, binary: bool },
    WebSocketClose { code: Option<u16>, reason: Option<Seq<char>> },
}

impl DeepView for ToClientTunnelMessageKind {
    type V = ToClientTunnelMessageKindView;

    open spec fn deep_view(&self) -> ToClientTunnelMessageKindView {
        match self {
            ToClientTunnelMessageKind::RequestStart(value) => ToClientTunnelMessageKindView::RequestStart(value.deep_view()),
            ToClientTunnelMessageKind::RequestChunk { body, finish } => ToClientTunnelMessageKindView::RequestChunk {
                body: body.deep_view(),
                finish: *finish,
            },
            ToClientTunnelMessageKind::RequestAbort => ToClientTunnelMessageKindView::RequestAbort,
            ToClientTunnelMessageKind::WebSocketOpen(value) => ToClientTunnelMessageKindView::WebSocketOpen(value.deep_view()),
            ToClientTunnelMessageKind::WebSocketMessage { data, binary } => ToClientTunnelMessageKindView::WebSocketMessage {
                data: data.deep_view(),
                binary: *binary,
            },
            ToClientTunnelMessageKind::WebSocketClose { code, reason } => ToClientTunnelMessageKindView::WebSocketClose {
                code: code.deep_view(),
                reason: reason.deep_view(),
            },
        }
    }
}

/// What an actor is to be started with.
#[derive(Clone, Debug, PartialEq, Eq)]
pub struct CommandStartActor {
    pub config: ActorConfig,
    pub hibernating_requests: Vec<HibernatingRequest>,
}

/// The contents of a [`CommandStartActor`].
#[verifier::ext_equal]
pub struct CommandStartActorView {
    pub config: ActorConfigView,
    pub hibernating_requests: Seq<HibernatingRequestView>,
}

impl DeepView for CommandStartActor {
    type V = CommandStartActorView;

    open spec fn deep_view(&self) -> CommandStartActorView {
        CommandStartActorView {
            config: self.config.deep_view(),
            hibernating_requests: self.hibernating_requests.deep_view(),
        }
    }
}

/// A command of the engine.
#[derive(Clone, Debug, PartialEq, Eq)]
pub enum Command {
    StartActor(CommandStartActor),
    StopActor,
}

/// The contents of a [`Command`].
#[verifier::ext_equal]
pub enum CommandView {
    StartActor(CommandStartActorView),
    StopActor,
}

impl DeepView for Command {
    type V = CommandView;

    open spec fn deep_view(&self) -> CommandView {
        match self {
            Command::StartActor(value) => CommandView::StartActor(value.deep_view()),
            Command::StopActor => CommandView::StopActor,
        }
    }
}

/// A command and its place in the stream of its actor.
#[derive(Clone, Debug, PartialEq, Eq)]
pub struct CommandWrapper {
    pub checkpoint: ActorCheckpoint,
    pub inner: Command,
}

/// The contents of a [`CommandWrapper`].
#[verifier::ext_equal]
pub struct CommandWrapperView {
    pub checkpoint: ActorCheckpointView,
    pub inner: CommandView,
}

impl DeepView for CommandWrapper {
    type V = CommandWrapperView;

    open spec fn deep_view(&self) -> CommandWrapperView {
        CommandWrapperView {
            checkpoint: self.checkpoint.deep_view(),
            inner: self.inner.deep_view(),
        }
    }
}

/// A message from the engine to the runner.
#[derive(Clone, Debug, PartialEq, Eq)]
pub enum ToClient {
    Init { runner_id: String },
    Commands(Vec<CommandWrapper>),
    AckEvents { last_event_checkpoints: Vec<ActorCheckpoint> },
    KvResponse { request_id: u32, data: KvResponseData },
    TunnelMessage { message_id: MessageId, message_kind: ToClientTunnelMessageKind },
    Ping { ts: i64 },
}

/// The contents of a [`ToClient`].
#[verifier::ext_equal]
pub enum ToClientView {
    Init { runner_id: Seq<char> },
    Commands(Seq<CommandWrapperView>),
    AckEvents { last_event_checkpoints: Seq<ActorCheckpointView> },
    KvResponse { request_id: u32, data: KvResponseDataView },
    TunnelMessage { message_id: MessageIdView, message_kind: ToClientTunnelMessageKindView },
    Ping { ts: i64 },
}

impl DeepView for ToClient {
    type V = ToClientView;

    open spec fn deep_view(&self) -> ToClientView {
        match self {
            ToClient::Init { runner_id } => ToClientView::Init {
                runner_id: runner_id.deep_view(),
            },
            ToClient::Commands(value) => ToClientView::Commands(value.deep_view()),
            ToClient::AckEvents { last_event_checkpoints } => ToClientView::AckEvents {
                last_event_checkpoints: last_event_checkpoints.deep_view(),
            },
            ToClient::KvResponse { request_id, data } => ToClientView::KvResponse {
                request_id: *request_id,
                data: data.deep_view(),
            },
            ToClient::TunnelMessage { message_id, message_kind } => ToClientView::TunnelMessage {
                message_id: message_id.deep_view(),
                message_kind: message_kind.deep_view(),
            },
            ToClient::Ping { ts } => ToClientView::Ping {
                ts: *ts,
            },
        }
    }
}

/// The greeting of a serverless runner.
#[derive(Clone, Debug, PartialEq, Eq)]
pub struct ServerlessInit {
    pub runner_id: String,
    pub runner_protocol_version: u16,
}

/// The contents of a [`ServerlessInit`].
#[verifier::ext_equal]
pub struct ServerlessInitView {
    pub runner_id: Seq<char>,
    pub runner_protocol_version: u16,
}

impl DeepView for ServerlessInit {
    type V = ServerlessInitView;

    open spec fn deep_view(&self) -> ServerlessInitView {
        ServerlessInitView {
            runner_id: self.runner_id.deep_view(),
            runner_protocol_version: self.runner_protocol_version,
        }
    }
}

impl RequestStartView {
    /// No header is given twice.
    pub open spec fn valid(self) -> bool {
        names_are_distinct(self.headers)
    }
}

impl WebSocketOpenView {
    /// No header is given twice.
    pub open spec fn valid(self) -> bool {
        names_are_distinct(self.headers)
    }
}

impl ToClientView {
    /// No header is given twice in what the message holds.
    pub open spec fn valid(self) -> bool {
        match self {
            ToClientView::TunnelMessage { message_kind: ToClientTunnelMessageKindView::RequestStart(start), .. } => {
                start.valid()
            },
            ToClientView::TunnelMessage { message_kind: ToClientTunnelMessageKindView::WebSocketOpen(open), .. } => {
                open.valid()
            },
            _ => true,
        }
    }
}

} // verus!
