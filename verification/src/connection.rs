//! The connection to the engine: when it is made, kept and made again.

use crate::config::init_message;
use crate::error::{outcome, RunnerError, RunnerErrorView};
use crate::external::{base64_text, encode_base64};
use crate::protocol::{ServerlessInit, ServerlessInitView, ToServer, ToServerView};
use crate::runtime::SenderState;
use crate::state::{RunnerInner, RunnerModel};
use vstd::arithmetic::power2::pow2;
use vstd::prelude::*;

verus! {

/// How many seconds pass between two acknowledgements of commands.
pub const COMMAND_ACK_INTERVAL_SECS: u64 = 300;

/// How many milliseconds pass before the first attempt to connect again.
pub const RECONNECT_INITIAL_DELAY_MS: u64 = 1000;

/// How many milliseconds pass at most before an attempt to connect again.
pub const RECONNECT_MAX_DELAY_MS: u64 = 30000;

/// The delay that follows a delay: twice as long, up to the longest.
pub open spec fn next_delay(delay: int) -> int {
    if 2 * delay < RECONNECT_MAX_DELAY_MS {
        2 * delay
    } else {
        RECONNECT_MAX_DELAY_MS as int
    }
}

/// The delay that follows a delay.
pub fn next_reconnect_delay(delay_ms: u64) -> (next: u64)
    ensures
        next == next_delay(delay_ms as int),
{
    if delay_ms < RECONNECT_MAX_DELAY_MS / 2 {
        2 * delay_ms
    } else {
        RECONNECT_MAX_DELAY_MS
    }
}

/// The delay before an attempt to connect again, counted from zero.
pub open spec fn reconnect_delay(attempt: nat) -> int
    decreases attempt,
{
    if attempt == 0 {
        RECONNECT_INITIAL_DELAY_MS as int
    } else {
        next_delay(reconnect_delay((attempt - 1) as nat))
    }
}

/// The delays double from one second up to thirty seconds and stay there.
pub proof fn law_reconnect_delays_double(attempt: nat)
    ensures
        reconnect_delay(attempt) == if 1000 * pow2(attempt) < 30000 {
            1000 * pow2(attempt) as int
        } else {
            30000
        },
    decreases attempt,
{
    if attempt == 0 {
        vstd::arithmetic::power2::lemma2_to64();
    } else {
        law_reconnect_delays_double((attempt - 1) as nat);
        vstd::arithmetic::power2::lemma_pow2_unfold(attempt);
        assert(pow2(attempt) == 2 * pow2((attempt - 1) as nat));
    }
}

/// What happened while the runner runs.
pub enum RunEvent {
    Begun,
    Disconnected { code: u16, reason: String },
    ConnectionEnded,
    DisconnectNotified,
    Slept,
}

/// What the runner does next while it runs.
pub enum RunAction {
    Connect,
    NotifyDisconnected { code: u16, reason: String },
    Sleep { millis: u64 },
    Stop,
}

/// The contents of a [`RunEvent`].
#[verifier::ext_equal]
pub enum RunEventView {
    Begun,
    Disconnected { code: u16, reason: Seq<char> },
    ConnectionEnded,
    DisconnectNotified,
    Slept,
}

/// The contents of a [`RunAction`].
#[verifier::ext_equal]
pub enum RunActionView {
    Connect,
    NotifyDisconnected { code: u16, reason: Seq<char> },
    Sleep { millis: u64 },
    Stop,
}

impl DeepView for RunEvent {
    type V = RunEventView;

    open spec fn deep_view(&self) -> RunEventView {
        match self {
            RunEvent::Begun => RunEventView::Begun,
            RunEvent::Disconnected { code, reason } => RunEventView::Disconnected { code: *code, reason: reason@ },
            RunEvent::ConnectionEnded => RunEventView::ConnectionEnded,
            RunEvent::DisconnectNotified => RunEventView::DisconnectNotified,
            RunEvent::Slept => RunEventView::Slept,
        }
    }
}

impl DeepView for RunAction {
    type V = RunActionView;

    open spec fn deep_view(&self) -> RunActionView {
        match self {
            RunAction::Connect => RunActionView::Connect,
            RunAction::NotifyDisconnected { code, reason } => RunActionView::NotifyDisconnected {
                code: *code,
                reason: reason@,
            },
            RunAction::Sleep { millis } => RunActionView::Sleep { millis: *millis },
            RunAction::Stop => RunActionView::Stop,
        }
    }
}

/// What happened on a connection.
pub enum ConnectionEvent {
    ShutdownRequested,
    AcknowledgementDue,
    Closed { frame: Option<(u16, String)> },
    Ended,
}

/// The contents of a [`ConnectionEvent`].
#[verifier::ext_equal]
pub enum ConnectionEventView {
    ShutdownRequested,
    AcknowledgementDue,
    Closed { frame: Option<(u16, Seq<char>)> },
    Ended,
}

impl DeepView for ConnectionEvent {
    type V = ConnectionEventView;

    open spec fn deep_view(&self) -> ConnectionEventView {
        match self {
            ConnectionEvent::ShutdownRequested => ConnectionEventView::ShutdownRequested,
            ConnectionEvent::AcknowledgementDue => ConnectionEventView::AcknowledgementDue,
            ConnectionEvent::Closed { frame } => ConnectionEventView::Closed { frame: frame.deep_view() },
            ConnectionEvent::Ended => ConnectionEventView::Ended,
        }
    }
}

/// What becomes of a connection.
/// `Continue`: it goes on; `acknowledged` is what came of acknowledging commands. `Finish`: it is
/// over, and the reason is to be told where there is one.
pub enum ConnectionAction {
    Continue { acknowledged: Result<(), RunnerError> },
    Finish { disconnect: Option<(u16, String)> },
}

/// The contents of a [`ConnectionAction`].
#[verifier::ext_equal]
pub enum ConnectionActionView {
    Continue { acknowledged: Result<(), RunnerErrorView> },
    Finish { disconnect: Option<(u16, Seq<char>)> },
}

impl DeepView for ConnectionAction {
    type V = ConnectionActionView;

    open spec fn deep_view(&self) -> ConnectionActionView {
        match self {
            ConnectionAction::Continue { acknowledged } => ConnectionActionView::Continue {
                acknowledged: outcome(*acknowledged),
            },
            ConnectionAction::Finish { disconnect } => ConnectionActionView::Finish {
                disconnect: disconnect.deep_view(),
            },
        }
    }
}

impl RunnerModel {
    /// What the runner does next while it runs. It connects, tells of a disconnect that has a
    /// reason, and sleeps before it connects again, until it is shut down.
    pub open spec fn run_action(self, delay_ms: u64, event: RunEventView) -> RunActionView {
        match event {
            RunEventView::Begun | RunEventView::Slept => if self.shutdown {
                RunActionView::Stop
            } else {
                RunActionView::Connect
            },
            RunEventView::Disconnected { code, reason } => RunActionView::NotifyDisconnected {
                code: code,
                reason: reason,
            },
            RunEventView::ConnectionEnded | RunEventView::DisconnectNotified => if self.shutdown {
                RunActionView::Stop
            } else {
                RunActionView::Sleep { millis: delay_ms }
            },
        }
    }

    /// With a connection: messages can be queued, and the first one is the greeting.
    pub open spec fn connected(self) -> Self {
        RunnerModel { sender: SenderState::Open, ..self }.sent(init_message(self.config))
    }

    /// Without a connection.
    pub open spec fn disconnected(self) -> Self {
        RunnerModel { sender: SenderState::Absent, ..self }
    }

    /// After something happened on a connection.
    pub open spec fn connection_stepped(self, event: ConnectionEventView) -> Self {
        match event {
            ConnectionEventView::ShutdownRequested => self.sent(ToServerView::Stopping).disconnected(),
            ConnectionEventView::AcknowledgementDue => self.commands_acknowledged(),
            ConnectionEventView::Closed { .. } | ConnectionEventView::Ended => self.disconnected(),
        }
    }

    /// What becomes of a connection.
    pub open spec fn connection_action(self, event: ConnectionEventView) -> ConnectionActionView {
        match event {
            ConnectionEventView::ShutdownRequested => ConnectionActionView::Finish { disconnect: None },
            ConnectionEventView::AcknowledgementDue => ConnectionActionView::Continue {
                acknowledged: self.send_outcome(),
            },
            ConnectionEventView::Closed { frame } => ConnectionActionView::Finish {
                disconnect: match frame {
                    Some(reason) => Some(reason),
                    None => Some((1000u16, ""@)),
                },
            },
            ConnectionEventView::Ended => ConnectionActionView::Finish {
                disconnect: Some((1006u16, "connection closed"@)),
            },
        }
    }

    /// With the runner started.
    pub open spec fn started(self) -> Self {
        if self.started {
            self
        } else {
            RunnerModel { started: true, shutdown: false, ..self }
        }
    }
}

impl RunnerInner {
    /// What the runner does next while it runs. `delay_ms` is the delay before it connects again.
    pub fn run_next(&self, delay_ms: &mut u64, event: RunEvent) -> (action: RunAction)
        ensures
            action.deep_view() == self@.run_action(*old(delay_ms), event.deep_view()),
            *final(delay_ms) == if action is Sleep {
                next_delay(*old(delay_ms) as int)
            } else {
                *old(delay_ms) as int
            },
    {
        match event {
            RunEvent::Begun | RunEvent::Slept => if self.shutdown {
                RunAction::Stop
            } else {
                RunAction::Connect
            },
            RunEvent::Disconnected { code, reason } => RunAction::NotifyDisconnected { code, reason },
            RunEvent::ConnectionEnded | RunEvent::DisconnectNotified => if self.shutdown {
                RunAction::Stop
            } else {
                let millis: u64 = *delay_ms;
                *delay_ms = next_reconnect_delay(millis);
                RunAction::Sleep { millis }
            },
        }
    }

    /// Starts to use a connection.
    pub fn open_connection(&mut self)
        requires
            old(self).wf(),
        ensures
            final(self).wf(),
            final(self)@ == old(self)@.connected(),
    {
        self.sender = SenderState::Open;
        let greeting = self.config.build_init_message();
        let _ = self.send_to_server(greeting);
    }

    /// Reacts to something that happened on the connection.
    pub fn handle_connection_event(&mut self, event: ConnectionEvent) -> (action: ConnectionAction)
        requires
            old(self).wf(),
        ensures
            final(self).wf(),
            final(self)@ == old(self)@.connection_stepped(event.deep_view()),
            action.deep_view() == old(self)@.connection_action(event.deep_view()),
    {
        match event {
            ConnectionEvent::ShutdownRequested => {
                let _ = self.send_to_server(ToServer::Stopping);
                self.sender = SenderState::Absent;
                ConnectionAction::Finish { disconnect: None }
            },
            ConnectionEvent::AcknowledgementDue => {
                let acknowledged = self.send_command_acknowledgement();
                ConnectionAction::Continue { acknowledged }
            },
            ConnectionEvent::Closed { frame } => {
                self.sender = SenderState::Absent;
                match frame {
                    Some((code, reason)) => ConnectionAction::Finish { disconnect: Some((code, reason)) },
                    None => ConnectionAction::Finish { disconnect: Some((1000, "".to_owned())) },
                }
            },
            ConnectionEvent::Ended => {
                self.sender = SenderState::Absent;
                ConnectionAction::Finish { disconnect: Some((1006, "connection closed".to_owned())) }
            },
        }
    }

    /// Starts the runner, once.
    pub fn start(&mut self) -> (started: Result<(), RunnerError>)
        requires
            old(self).wf(),
        ensures
            final(self).wf(),
            final(self)@ == old(self)@.started(),
            outcome(started) == if old(self)@.started {
                Err(RunnerErrorView::AlreadyStarted)
            } else {
                Ok(())
            },
    {
        if self.started {
            return Err(RunnerError::AlreadyStarted);
        }
        self.started = true;
        self.shutdown = false;
        Ok(())
    }

    /// Asks the runner to stop.
    pub fn request_shutdown(&mut self)
        requires
            old(self).wf(),
        ensures
            final(self).wf(),
            final(self)@ == (RunnerModel { shutdown: true, ..old(self)@ }),
    {
        self.shutdown = true;
    }

    /// The name of the runner.
    pub fn name(&self) -> (name: &str)
        ensures
            name@ == self@.config.runner_name,
    {
        self.config.runner_name.as_str()
    }

    /// The id that the engine gave the runner, once it has.
    pub fn runner_id(&self) -> (runner_id: Option<String>)
        ensures
            runner_id.deep_view() == self@.runner_id,
    {
        match &self.runner_id {
            Some(runner_id) => Some(runner_id.clone()),
            None => None,
        }
    }

    /// What a serverless runner greets with: its id and the version of the protocol; nothing before
    /// the engine gave the runner an id.
    pub fn serverless_init(&self, protocol_version: u16) -> (init: Option<ServerlessInit>)
        ensures
            init.deep_view() == match self@.runner_id {
                Some(runner_id) => Some(
                    ServerlessInitView { runner_id: runner_id, runner_protocol_version: protocol_version },
                ),
                None => None,
            },
    {
        match &self.runner_id {
            Some(runner_id) => Some(
                ServerlessInit { runner_id: runner_id.clone(), runner_protocol_version: protocol_version },
            ),
            None => None,
        }
    }

    /// The packet with which a serverless runner greets; none before the engine gave the runner an
    /// id. `payload` is what [`RunnerInner::serverless_init`] gives, in its wire form.
    pub fn get_serverless_init_packet(&self, payload: &Vec<u8>) -> (packet: Option<String>)
        ensures
            packet.deep_view() == if self@.runner_id is Some {
                Some(base64_text(payload@))
            } else {
                None
            },
    {
        if self.runner_id.is_none() {
            return None;
        }
        Some(encode_base64(payload))
    }
}

/// What follows once the pending events were to be sent again.
/// `CallBack`: run the callback on connecting, then [`connected_outcome`]. `Fail`: they could not be
/// sent, and there is no callback.
#[derive(Debug, PartialEq, Eq)]
pub enum ConnectedStep {
    CallBack,
    Fail(RunnerError),
}

/// The contents of a [`ConnectedStep`].
#[verifier::ext_equal]
pub enum ConnectedStepView {
    CallBack,
    Fail(RunnerErrorView),
}

impl DeepView for ConnectedStep {
    type V = ConnectedStepView;

    open spec fn deep_view(&self) -> ConnectedStepView {
        match self {
            ConnectedStep::CallBack => ConnectedStepView::CallBack,
            ConnectedStep::Fail(error) => ConnectedStepView::Fail(error.deep_view()),
        }
    }
}

/// What follows once the pending events were to be sent again.
pub open spec fn step_after_resend(resent: Result<(), RunnerErrorView>) -> ConnectedStepView {
    match resent {
        Ok(_) => ConnectedStepView::CallBack,
        Err(error) => ConnectedStepView::Fail(error),
    }
}

/// What follows once the pending events were to be sent again.
pub fn connected_step(resent: Result<(), RunnerError>) -> (step: ConnectedStep)
    ensures
        step.deep_view() == step_after_resend(outcome(resent)),
{
    match resent {
        Ok(_) => ConnectedStep::CallBack,
        Err(error) => ConnectedStep::Fail(error),
    }
}

/// What a failed callback on connecting gives.
pub fn connected_outcome(callback_succeeded: bool) -> (connected: Result<(), RunnerError>)
    ensures
        outcome(connected) == if callback_succeeded {
            Ok(())
        } else {
            Err(RunnerErrorView::ConnectedCallbackFailed)
        },
{
    if callback_succeeded {
        Ok(())
    } else {
        Err(RunnerError::ConnectedCallbackFailed)
    }
}

/// What a failed callback on shutting down gives.
pub fn shutdown_outcome(callback_succeeded: bool) -> (shut_down: Result<(), RunnerError>)
    ensures
        outcome(shut_down) == if callback_succeeded {
            Ok(())
        } else {
            Err(RunnerErrorView::ShutdownCallbackFailed)
        },
{
    if callback_succeeded {
        Ok(())
    } else {
        Err(RunnerError::ShutdownCallbackFailed)
    }
}

} // verus!
