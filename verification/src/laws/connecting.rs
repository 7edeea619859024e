//! How a runner runs and connects, event by event.

use super::sending::{law_message_is_queued_last, queue_with, sending};
use crate::config::{greeting, init_message, RunnerConfigView};
use crate::connection::{
    next_delay, reconnect_delay, step_after_resend, ConnectedStepView, ConnectionActionView, ConnectionEventView,
    RunActionView, RunEventView, COMMAND_ACK_INTERVAL_SECS, RECONNECT_INITIAL_DELAY_MS, RECONNECT_MAX_DELAY_MS,
};
use crate::error::RunnerErrorView;
use crate::protocol::ToServerView;
use crate::runtime::SenderState;
use crate::state::RunnerModel;
use vstd::prelude::*;

verus! {

/// What a runner does next: it connects when it begins and after each sleep, tells of a disconnect
/// with the code and the reason that it had, and sleeps for the current delay once a connection is
/// over. Shut down, it neither connects nor sleeps.
pub proof fn law_what_is_done_next(model: RunnerModel, delay_ms: u64, code: u16, reason: Seq<char>)
    ensures
        model.run_action(delay_ms, RunEventView::Disconnected { code: code, reason: reason }) == (
        RunActionView::NotifyDisconnected { code: code, reason: reason }),
        !model.shutdown ==> {
            &&& model.run_action(delay_ms, RunEventView::Begun) == RunActionView::Connect
            &&& model.run_action(delay_ms, RunEventView::Slept) == RunActionView::Connect
            &&& model.run_action(delay_ms, RunEventView::ConnectionEnded) == (RunActionView::Sleep { millis: delay_ms })
            &&& model.run_action(delay_ms, RunEventView::DisconnectNotified) == (RunActionView::Sleep {
                millis: delay_ms,
            })
        },
        model.shutdown ==> {
            &&& model.run_action(delay_ms, RunEventView::Begun) == RunActionView::Stop
            &&& model.run_action(delay_ms, RunEventView::Slept) == RunActionView::Stop
            &&& model.run_action(delay_ms, RunEventView::ConnectionEnded) == RunActionView::Stop
            &&& model.run_action(delay_ms, RunEventView::DisconnectNotified) == RunActionView::Stop
        },
{
}

/// A delay is followed by one twice as long, but never by one longer than thirty seconds; the first
/// is one second. Five minutes pass between two acknowledgements of commands.
pub proof fn law_delays_grow(delay: int, attempt: nat)
    ensures
        0 <= delay <= 15000 ==> next_delay(delay) == delay + delay,
        delay > 15000 ==> next_delay(delay) == 30000,
        reconnect_delay(0) == 1000,
        COMMAND_ACK_INTERVAL_SECS == 300,
        RECONNECT_INITIAL_DELAY_MS == 1000,
        RECONNECT_MAX_DELAY_MS == 30000,
        reconnect_delay(attempt + 1) == next_delay(reconnect_delay(attempt)),
{
}

/// With a connection the way to the engine is open, whatever it was, and the greeting is queued
/// behind what is queued already. Nothing else changes.
pub proof fn law_connection_begins_with_the_greeting(model: RunnerModel)
    ensures
        model.connected() == (RunnerModel {
            sender: SenderState::Open,
            outbox: model.outbox + seq![
                ToServerView::Init {
                    name: model.config.runner_name,
                    version: model.config.version,
                    total_slots: model.config.total_slots,
                    prepopulate_actor_names: if model.config.prepopulate_actor_names.order.len() == 0 {
                        None
                    } else {
                        Some(model.config.prepopulate_actor_names.listed())
                    },
                    metadata: model.config.metadata,
                },
            ],
            ..model
        }),
        init_message(model.config) == (ToServerView::Init {
            name: model.config.runner_name,
            version: model.config.version,
            total_slots: model.config.total_slots,
            prepopulate_actor_names: if model.config.prepopulate_actor_names.order.len() == 0 {
                None
            } else {
                Some(model.config.prepopulate_actor_names.listed())
            },
            metadata: model.config.metadata,
        }),
{
    let open = RunnerModel { sender: SenderState::Open, ..model };
    law_message_is_queued_last(open, init_message(model.config));
    assert(model.connected() =~= (RunnerModel { outbox: queue_with(open, init_message(model.config)), ..open }));
}

/// The greeting carries the runner's name, version and number of slots, and the names and metadata
/// that it is made with; no names at all are left out.
pub proof fn law_greeting_is_complete(
    config: RunnerConfigView,
    names: Seq<(Seq<char>, Seq<char>)>,
    metadata: Option<Seq<char>>,
)
    ensures
        greeting(config, names, metadata) is Init,
        greeting(config, names, metadata)->Init_name == config.runner_name,
        greeting(config, names, metadata)->Init_version == config.version,
        greeting(config, names, metadata)->Init_total_slots == config.total_slots,
        greeting(config, names, metadata)->Init_metadata == metadata,
        names.len() > 0 ==> greeting(config, names, metadata)->Init_prepopulate_actor_names == Some(names),
        names.len() == 0 ==> greeting(config, names, metadata)->Init_prepopulate_actor_names is None,
{
}

/// A shutdown is announced to the engine before the connection is given up, and nothing is told of
/// a reason. A connection that is closed or ends is given up: the reason that is told is the one it
/// was closed with, or a plain one where it came without. An acknowledgement that is due is sent,
/// and the connection goes on.
pub proof fn law_what_becomes_of_a_connection(model: RunnerModel, code: u16, reason: Seq<char>)
    ensures
        model.connection_stepped(ConnectionEventView::ShutdownRequested) == (RunnerModel {
            sender: SenderState::Absent,
            outbox: queue_with(model, ToServerView::Stopping),
            ..model
        }),
        model.connection_action(ConnectionEventView::ShutdownRequested) == (ConnectionActionView::Finish {
            disconnect: None,
        }),
        model.connection_stepped(ConnectionEventView::AcknowledgementDue) == model.commands_acknowledged(),
        model.connection_action(ConnectionEventView::AcknowledgementDue) == (ConnectionActionView::Continue {
            acknowledged: sending(model),
        }),
        model.connection_stepped(ConnectionEventView::Closed { frame: Some((code, reason)) }) == (RunnerModel {
            sender: SenderState::Absent,
            ..model
        }),
        model.connection_action(ConnectionEventView::Closed { frame: Some((code, reason)) }) == (
        ConnectionActionView::Finish { disconnect: Some((code, reason)) }),
        model.connection_stepped(ConnectionEventView::Closed { frame: None }) == (RunnerModel {
            sender: SenderState::Absent,
            ..model
        }),
        model.connection_action(ConnectionEventView::Closed { frame: None }) == (ConnectionActionView::Finish {
            disconnect: Some((1000, ""@)),
        }),
        model.connection_stepped(ConnectionEventView::Ended) == (RunnerModel { sender: SenderState::Absent, ..model }),
        model.connection_action(ConnectionEventView::Ended) == (ConnectionActionView::Finish {
            disconnect: Some((1006, "connection closed"@)),
        }),
        model.disconnected() == (RunnerModel { sender: SenderState::Absent, ..model }),
{
    law_message_is_queued_last(model, ToServerView::Stopping);
}

/// A runner that was not started is then started and not shut down, and keeps all else; one that was
/// started stays as it is.
pub proof fn law_starting(model: RunnerModel)
    ensures
        model.started ==> model.started() == model,
        !model.started ==> model.started() == (RunnerModel { started: true, shutdown: false, ..model }),
{
}

/// The callback on connecting runs exactly where the pending events could be sent again; else the
/// error stands.
pub proof fn law_connected_callback(error: RunnerErrorView)
    ensures
        step_after_resend(Ok(())) == ConnectedStepView::CallBack,
        step_after_resend(Err(error)) == ConnectedStepView::Fail(error),
{
}

} // verus!
