//! What the runner asks of whoever drives it.

use crate::actor::{
    ActorConfig, ActorConfigView, ActorContext, ActorContextView, WebSocketContext, WebSocketContextView,
    WebSocketMessage, WebSocketMessageView,
};
use crate::error::{outcome, RunnerError, RunnerErrorView};
use crate::protocol::{
    CommandWrapper, CommandWrapperView, KvResponseData, KvResponseDataView, WebSocketOpen, WebSocketOpenView,
};
use crate::runtime::{PendingHttpRequest, PendingHttpRequestView};
use crate::tunnel::{TunnelRequestKey, TunnelRequestKeyView};
use vstd::prelude::*;

verus! {

/// Whether an actor is up.
/// `Waiting` means that it is known and not up yet; `start_notify` names what to wait for.
#[derive(Debug, PartialEq, Eq)]
pub enum ActorWait {
    Absent,
    Waiting { start_notify: u64 },
    Up { generation: u32, config: ActorConfig },
}

/// The contents of a [`ActorWait`].
#[verifier::ext_equal]
pub enum ActorWaitView {
    Absent,
    Waiting { start_notify: u64 },
    Up { generation: u32, config: ActorConfigView },
}

impl DeepView for ActorWait {
    type V = ActorWaitView;

    open spec fn deep_view(&self) -> ActorWaitView {
        match self {
            ActorWait::Absent => ActorWaitView::Absent,
            ActorWait::Waiting { start_notify } => ActorWaitView::Waiting {
                start_notify: *start_notify,
            },
            ActorWait::Up { generation, config } => ActorWaitView::Up {
                generation: *generation,
                config: config.deep_view(),
            },
        }
    }
}

/// How the start of an actor ended.
/// `Running`: the actor is up, and those who wait for `start_notify` are to be woken. `Unmarked`: the
/// actor that was started is no longer there. `Abandoned`: its callback failed, and it was forgotten.
#[derive(Debug, PartialEq, Eq)]
pub enum ActorStartEnd {
    Running { start_notify: u64, reported: Result<(), RunnerError> },
    Unmarked(RunnerError),
    Abandoned,
}

/// The contents of a [`ActorStartEnd`].
#[verifier::ext_equal]
pub enum ActorStartEndView {
    Running { start_notify: u64, reported: Result<(), RunnerErrorView> },
    Unmarked(RunnerErrorView),
    Abandoned,
}

impl DeepView for ActorStartEnd {
    type V = ActorStartEndView;

    open spec fn deep_view(&self) -> ActorStartEndView {
        match self {
            ActorStartEnd::Running { start_notify, reported } => ActorStartEndView::Running {
                start_notify: *start_notify,
                reported: outcome(*reported),
            },
            ActorStartEnd::Unmarked(value) => ActorStartEndView::Unmarked(value.deep_view()),
            ActorStartEnd::Abandoned => ActorStartEndView::Abandoned,
        }
    }
}

/// What a command of the engine leads to.
/// `Start`: run the start callback on the side, then [`finish_actor_start`]. `Stop`: run the stop
/// callback, then [`finish_commanded_stop`].
/// 
/// [`finish_actor_start`]: crate::RunnerInner::finish_actor_start
/// [`finish_commanded_stop`]: crate::RunnerInner::finish_commanded_stop
#[derive(Debug, PartialEq, Eq)]
pub enum CommandAction {
    Start(ActorContext),
    Stop(ActorContext),
}

/// The contents of a [`CommandAction`].
#[verifier::ext_equal]
pub enum CommandActionView {
    Start(ActorContextView),
    Stop(ActorContextView),
}

impl DeepView for CommandAction {
    type V = CommandActionView;

    open spec fn deep_view(&self) -> CommandActionView {
        match self {
            CommandAction::Start(value) => CommandActionView::Start(value.deep_view()),
            CommandAction::Stop(value) => CommandActionView::Stop(value.deep_view()),
        }
    }
}

/// How the opening of a WebSocket goes on.
/// `Waiting`: wait for the actor, then try again. `Rejected`: there is no such actor, and the WebSocket
/// was closed. `Asking`: ask whether the WebSocket can hibernate, then [`accept_websocket`].
/// 
/// [`accept_websocket`]: crate::RunnerInner::accept_websocket
#[derive(Debug, PartialEq, Eq)]
pub enum WebSocketOpenStep {
    Waiting { start_notify: u64 },
    Rejected { sent: Result<(), RunnerError> },
    Asking(WebSocketContext),
}

/// The contents of a [`WebSocketOpenStep`].
#[verifier::ext_equal]
pub enum WebSocketOpenStepView {
    Waiting { start_notify: u64 },
    Rejected { sent: Result<(), RunnerErrorView> },
    Asking(WebSocketContextView),
}

impl DeepView for WebSocketOpenStep {
    type V = WebSocketOpenStepView;

    open spec fn deep_view(&self) -> WebSocketOpenStepView {
        match self {
            WebSocketOpenStep::Waiting { start_notify } => WebSocketOpenStepView::Waiting {
                start_notify: *start_notify,
            },
            WebSocketOpenStep::Rejected { sent } => WebSocketOpenStepView::Rejected {
                sent: outcome(*sent),
            },
            WebSocketOpenStep::Asking(value) => WebSocketOpenStepView::Asking(value.deep_view()),
        }
    }
}

/// A message that is to be handed to the callback of a WebSocket.
#[derive(Debug, PartialEq, Eq)]
pub struct WebSocketDelivery {
    pub context: WebSocketContext,
    pub message: WebSocketMessage,
}

/// The contents of a [`WebSocketDelivery`].
#[verifier::ext_equal]
pub struct WebSocketDeliveryView {
    pub context: WebSocketContextView,
    pub message: WebSocketMessageView,
}

impl DeepView for WebSocketDelivery {
    type V = WebSocketDeliveryView;

    open spec fn deep_view(&self) -> WebSocketDeliveryView {
        WebSocketDeliveryView {
            context: self.context.deep_view(),
            message: self.message.deep_view(),
        }
    }
}

/// How the restoring of hibernating WebSockets goes on.
/// `Open` and `Close` ask for a callback.
#[derive(Debug, PartialEq, Eq)]
pub enum RestoreStep {
    Open(WebSocketContext),
    Close { context: WebSocketContext, code: u16, reason: String },
    Finished,
    Failed(RunnerError),
}

/// The contents of a [`RestoreStep`].
#[verifier::ext_equal]
pub enum RestoreStepView {
    Open(WebSocketContextView),
    Close { context: WebSocketContextView, code: u16, reason: Seq<char> },
    Finished,
    Failed(RunnerErrorView),
}

impl DeepView for RestoreStep {
    type V = RestoreStepView;

    open spec fn deep_view(&self) -> RestoreStepView {
        match self {
            RestoreStep::Open(value) => RestoreStepView::Open(value.deep_view()),
            RestoreStep::Close { context, code, reason } => RestoreStepView::Close {
                context: context.deep_view(),
                code: *code,
                reason: reason.deep_view(),
            },
            RestoreStep::Finished => RestoreStepView::Finished,
            RestoreStep::Failed(value) => RestoreStepView::Failed(value.deep_view()),
        }
    }
}

/// What a message of the engine leads to.
#[derive(Debug, PartialEq, Eq)]
pub enum IncomingAction {
    Connected { resent: Result<(), RunnerError> },
    Commands(Vec<CommandWrapper>),
    KvReply { request_id: u32, data: KvResponseData },
    ProcessRequest { key: TunnelRequestKey, request: PendingHttpRequest },
    OpenWebSocket { key: TunnelRequestKey, open: WebSocketOpen },
    DeliverMessage { key: TunnelRequestKey, delivery: WebSocketDelivery },
    CloseWebSocket { context: WebSocketContext, code: Option<u16>, reason: Option<String> },
    Ponged { sent: Result<(), RunnerError> },
    Nothing,
}

/// The contents of a [`IncomingAction`].
#[verifier::ext_equal]
pub enum IncomingActionView {
    Connected { resent: Result<(), RunnerErrorView> },
    Commands(Seq<CommandWrapperView>),
    KvReply { request_id: u32, data: KvResponseDataView },
    ProcessRequest { key: TunnelRequestKeyView, request: PendingHttpRequestView },
    OpenWebSocket { key: TunnelRequestKeyView, open: WebSocketOpenView },
    DeliverMessage { key: TunnelRequestKeyView, delivery: WebSocketDeliveryView },
    CloseWebSocket { context: WebSocketContextView, code: Option<u16>, reason: Option<Seq<char>> },
    Ponged { sent: Result<(), RunnerErrorView> },
    Nothing,
}

impl DeepView for IncomingAction {
    type V = IncomingActionView;

    open spec fn deep_view(&self) -> IncomingActionView {
        match self {
            IncomingAction::Connected { resent } => IncomingActionView::Connected {
                resent: outcome(*resent),
            },
            IncomingAction::Commands(value) => IncomingActionView::Commands(value.deep_view()),
            IncomingAction::KvReply { request_id, data } => IncomingActionView::KvReply {
                request_id: *request_id,
                data: data.deep_view(),
            },
            IncomingAction::ProcessRequest { key, request } => IncomingActionView::ProcessRequest {
                key: key.deep_view(),
                request: request.deep_view(),
            },
            IncomingAction::OpenWebSocket { key, open } => IncomingActionView::OpenWebSocket {
                key: key.deep_view(),
                open: open.deep_view(),
            },
            IncomingAction::DeliverMessage { key, delivery } => IncomingActionView::DeliverMessage {
                key: key.deep_view(),
                delivery: delivery.deep_view(),
            },
            IncomingAction::CloseWebSocket { context, code, reason } => IncomingActionView::CloseWebSocket {
                context: context.deep_view(),
                code: code.deep_view(),
                reason: reason.deep_view(),
            },
            IncomingAction::Ponged { sent } => IncomingActionView::Ponged {
                sent: outcome(*sent),
            },
            IncomingAction::Nothing => IncomingActionView::Nothing,
        }
    }
}

} // verus!
