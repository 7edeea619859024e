//! What commands do to actors, field by field.

use super::sending::{after_event, law_event_is_kept_and_sent, law_message_is_queued_last, sending};
use crate::actions::{ActorStartEndView, ActorWaitView, CommandActionView};
use crate::actor::{ActorContextView, ActorLifecycleEventView};
use crate::error::RunnerErrorView;
use crate::protocol::{
    ActorCheckpointView, ActorStateView, CommandStartActorView, CommandView, CommandWrapperView, EventView, StopCode,
};
use crate::runtime::ActorRuntimeStateView;
use crate::state::RunnerModel;
use vstd::prelude::*;

verus! {

/// A command to start an actor makes the runner know it, with the generation and the number of the
/// command and everything that the command says of the actor; it is not up, has emitted nothing and
/// restored nothing. Its start callback is told the same. No other actor changes.
pub proof fn law_start_command_is_carried_out(
    model: RunnerModel,
    checkpoint: ActorCheckpointView,
    start: CommandStartActorView,
    start_notify: u64,
)
    ensures
        ({
            let command = CommandWrapperView { checkpoint: checkpoint, inner: CommandView::StartActor(start) };
            let after = model.commanded(command, start_notify);
            let actor = after.actors.map[checkpoint.actor_id];
            &&& after == model.starting(checkpoint, start, start_notify)
            &&& after == (RunnerModel { actors: after.actors, ..model })
            &&& after.actors.map.dom() == model.actors.map.dom().insert(checkpoint.actor_id)
            &&& forall|other: Seq<char>|
                other != checkpoint.actor_id ==> #[trigger] after.actors.map[other] == model.actors.map[other]
            &&& actor.generation == checkpoint.generation
            &&& actor.config.name == start.config.name
            &&& actor.config.key == start.config.key
            &&& actor.config.create_ts == start.config.create_ts
            &&& actor.config.input == start.config.input
            &&& !actor.started
            &&& actor.start_notify == start_notify
            &&& actor.last_command_idx == checkpoint.index
            &&& actor.next_event_idx == 0
            &&& actor.event_history.len() == 0
            &&& actor.hibernating_requests == start.hibernating_requests
            &&& !actor.hibernation_restored
            &&& model.command_action(command) == Ok::<CommandActionView, RunnerErrorView>(
                CommandActionView::Start(
                    ActorContextView {
                        actor_id: checkpoint.actor_id,
                        generation: checkpoint.generation,
                        actor_name: start.config.name,
                        config: start.config,
                        hibernating_requests: start.hibernating_requests,
                    },
                ),
            )
            &&& crate::commands::actor_context(checkpoint, start.config, start.hibernating_requests) == (
            ActorContextView {
                actor_id: checkpoint.actor_id,
                generation: checkpoint.generation,
                actor_name: start.config.name,
                config: start.config,
                hibernating_requests: start.hibernating_requests,
            })
        }),
{
}

/// A command to stop a known actor changes nothing yet; its stop callback is told the id and the
/// generation of the command and what the runner knows of the actor, whether or not it is up and
/// whatever its own generation. A command to stop an unknown actor fails.
pub proof fn law_stop_command_looks_the_actor_up(model: RunnerModel, checkpoint: ActorCheckpointView, start_notify: u64)
    ensures
        ({
            let command = CommandWrapperView { checkpoint: checkpoint, inner: CommandView::StopActor };
            let actor = model.actors.map[checkpoint.actor_id];
            let context = ActorContextView {
                actor_id: checkpoint.actor_id,
                generation: checkpoint.generation,
                actor_name: actor.config.name,
                config: actor.config,
                hibernating_requests: actor.hibernating_requests,
            };
            &&& model.commanded(command, start_notify) == model
            &&& model.actors.map.dom().contains(checkpoint.actor_id) ==> {
                &&& model.command_action(command) == Ok::<CommandActionView, RunnerErrorView>(
                    CommandActionView::Stop(context),
                )
                &&& model.stop_context(checkpoint) == Ok::<ActorContextView, RunnerErrorView>(context)
            }
            &&& !model.actors.map.dom().contains(checkpoint.actor_id) ==> {
                &&& model.command_action(command) == Err::<CommandActionView, RunnerErrorView>(
                    RunnerErrorView::ActorNotFound { actor_id: checkpoint.actor_id },
                )
                &&& model.stop_context(checkpoint) == Err::<ActorContextView, RunnerErrorView>(
                    RunnerErrorView::ActorNotFound { actor_id: checkpoint.actor_id },
                )
            }
        }),
{
}

/// Whoever asks for an actor is told its generation and configuration where it is up, what to wait
/// for where it is known and not up, and else that it is not there.
pub proof fn law_waiting_for_an_actor(model: RunnerModel, actor_id: Seq<char>)
    ensures
        ({
            let actor = model.actors.map[actor_id];
            model.wait(actor_id) == if !model.actors.map.dom().contains(actor_id) {
                ActorWaitView::Absent
            } else if actor.started {
                ActorWaitView::Up { generation: actor.generation, config: actor.config }
            } else {
                ActorWaitView::Waiting { start_notify: actor.start_notify }
            }
        }),
{
}

/// An actor is marked as up where it is known in the generation given; nothing else of it changes,
/// and no other actor does.
pub proof fn law_marking_an_actor(model: RunnerModel, actor_id: Seq<char>, generation: u32)
    ensures
        ({
            let known = model.actors.map.dom().contains(actor_id);
            let actor = model.actors.map[actor_id];
            let after = model.marked(actor_id, generation);
            &&& known && actor.generation == generation ==> {
                &&& model.mark_outcome(actor_id, generation) == Ok::<u64, RunnerErrorView>(actor.start_notify)
                &&& after == (RunnerModel { actors: after.actors, ..model })
                &&& after.actors.order == model.actors.order
                &&& after.actors.map == model.actors.map.insert(
                    actor_id,
                    ActorRuntimeStateView { started: true, ..actor },
                )
            }
            &&& known && actor.generation != generation ==> {
                &&& model.mark_outcome(actor_id, generation) == Err::<u64, RunnerErrorView>(
                    RunnerErrorView::GenerationMismatch,
                )
                &&& after == model
            }
            &&& !known ==> {
                &&& model.mark_outcome(actor_id, generation) == Err::<u64, RunnerErrorView>(
                    RunnerErrorView::ActorNotFound { actor_id: actor_id },
                )
                &&& after == model
            }
        }),
{
}

/// A start callback that succeeded for the actor that is there: the actor is up, its running is
/// emitted as its next event, and subscribers are told, whether or not the event could be sent.
pub proof fn law_successful_start(model: RunnerModel, actor_id: Seq<char>, generation: u32)
    requires
        model.actors.map.dom().contains(actor_id),
        model.actors.map[actor_id].generation == generation,
    ensures
        ({
            let actor = model.actors.map[actor_id];
            let up = RunnerModel {
                actors: crate::names::NameModel {
                    order: model.actors.order,
                    map: model.actors.map.insert(actor_id, ActorRuntimeStateView { started: true, ..actor }),
                },
                ..model
            };
            let reported = after_event(up, actor_id, generation, EventView::StateUpdate(ActorStateView::Running));
            &&& model.start_finished(actor_id, generation, Ok(())) == (RunnerModel {
                lifecycle: model.lifecycle + seq![
                    ActorLifecycleEventView::Started { actor_id: actor_id, generation: generation },
                ],
                ..reported
            })
            &&& model.start_end(actor_id, generation, Ok(())) == (ActorStartEndView::Running {
                start_notify: actor.start_notify,
                reported: sending(model),
            })
        }),
{
    let actor = model.actors.map[actor_id];
    let up = RunnerModel {
        actors: crate::names::NameModel {
            order: model.actors.order,
            map: model.actors.map.insert(actor_id, ActorRuntimeStateView { started: true, ..actor }),
        },
        ..model
    };
    law_marking_an_actor(model, actor_id, generation);
    assert(model.marked(actor_id, generation) =~= up);
    law_event_is_kept_and_sent(up, actor_id, generation, EventView::StateUpdate(ActorStateView::Running));
    let event = ActorLifecycleEventView::Started { actor_id: actor_id, generation: generation };
    assert(model.lifecycle.push(event) =~= model.lifecycle + seq![event]);
    law_message_is_queued_last(model, crate::protocol::ToServerView::Stopping);
}

/// A start callback that succeeded for an actor that is gone or was replaced changes nothing.
pub proof fn law_late_start(model: RunnerModel, actor_id: Seq<char>, generation: u32)
    requires
        !model.actors.map.dom().contains(actor_id) || model.actors.map[actor_id].generation != generation,
    ensures
        model.start_finished(actor_id, generation, Ok(())) == model,
        model.start_end(actor_id, generation, Ok(())) == ActorStartEndView::Unmarked(
            if model.actors.map.dom().contains(actor_id) {
                RunnerErrorView::GenerationMismatch
            } else {
                RunnerErrorView::ActorNotFound { actor_id: actor_id }
            },
        ),
{
}

/// A start callback that failed: where the actor is known, its stop is emitted with the text of the
/// failure; in any case the actor and its WebSockets are gone, and nothing else changes.
pub proof fn law_failed_start(model: RunnerModel, actor_id: Seq<char>, generation: u32, message: Seq<char>)
    ensures
        ({
            let stopped = EventView::StateUpdate(
                ActorStateView::Stopped { code: StopCode::Error, message: Some(message) },
            );
            let reported = if model.actors.map.dom().contains(actor_id) {
                after_event(model, actor_id, generation, stopped)
            } else {
                model
            };
            let after = model.start_finished(actor_id, generation, Err(message));
            &&& after == (RunnerModel {
                actors: after.actors,
                websockets: after.websockets,
                outbox: reported.outbox,
                ..model
            })
            &&& after.actors.map == model.actors.map.remove(actor_id)
            &&& forall|code: u64| #[trigger]
                after.websockets.dom().contains(code) <==> model.websockets.dom().contains(code)
                    && model.websockets[code].actor_id != actor_id
            &&& forall|code: u64| #[trigger]
                after.websockets.dom().contains(code) ==> after.websockets[code] == model.websockets[code]
            &&& model.start_end(actor_id, generation, Err(message)) == ActorStartEndView::Abandoned
        }),
{
    let stopped = EventView::StateUpdate(ActorStateView::Stopped { code: StopCode::Error, message: Some(message) });
    law_event_is_kept_and_sent(model, actor_id, generation, stopped);
    let after = model.start_finished(actor_id, generation, Err(message));
    assert(after.actors.map =~= model.actors.map.remove(actor_id));
}

/// A stop whose callback succeeded and that can be reported: the stop is emitted without a message,
/// the actor and its WebSockets are gone, and subscribers are told.
pub proof fn law_successful_stop(model: RunnerModel, actor_id: Seq<char>, generation: u32)
    requires
        model.actors.map.dom().contains(actor_id),
        sending(model) is Ok,
    ensures
        ({
            let reported = after_event(
                model,
                actor_id,
                generation,
                EventView::StateUpdate(ActorStateView::Stopped { code: StopCode::Success, message: None }),
            );
            let after = model.stop_finished(actor_id, generation, true);
            &&& model.stop_outcome(actor_id, true) == Ok::<(), RunnerErrorView>(())
            &&& after == (RunnerModel {
                actors: after.actors,
                websockets: after.websockets,
                outbox: reported.outbox,
                lifecycle: model.lifecycle + seq![
                    ActorLifecycleEventView::Stopped { actor_id: actor_id, generation: generation },
                ],
                ..model
            })
            &&& after.actors.map == model.actors.map.remove(actor_id)
            &&& forall|code: u64| #[trigger]
                after.websockets.dom().contains(code) <==> model.websockets.dom().contains(code)
                    && model.websockets[code].actor_id != actor_id
            &&& forall|code: u64| #[trigger]
                after.websockets.dom().contains(code) ==> after.websockets[code] == model.websockets[code]
        }),
{
    let stopped = EventView::StateUpdate(ActorStateView::Stopped { code: StopCode::Success, message: None });
    law_event_is_kept_and_sent(model, actor_id, generation, stopped);
    let after = model.stop_finished(actor_id, generation, true);
    let event = ActorLifecycleEventView::Stopped { actor_id: actor_id, generation: generation };
    assert(model.lifecycle.push(event) =~= model.lifecycle + seq![event]);
    assert(after.actors.map =~= model.actors.map.remove(actor_id));
}

/// A stop that fails keeps the actor, its WebSockets and the silence towards subscribers: where the
/// callback failed nothing changes; where the stop could not be sent it is kept as an event; where
/// the actor is not known the error says so.
pub proof fn law_failed_stop(model: RunnerModel, actor_id: Seq<char>, generation: u32)
    ensures
        model.stop_finished(actor_id, generation, false) == model,
        model.stop_outcome(actor_id, false) == Err::<(), RunnerErrorView>(RunnerErrorView::ActorStopCallbackFailed),
        !model.actors.map.dom().contains(actor_id) ==> {
            &&& model.stop_finished(actor_id, generation, true) == model
            &&& model.stop_outcome(actor_id, true) == Err::<(), RunnerErrorView>(
                RunnerErrorView::ActorNotFound { actor_id: actor_id },
            )
        },
        model.actors.map.dom().contains(actor_id) && sending(model) is Err ==> {
            &&& model.stop_finished(actor_id, generation, true) == after_event(
                model,
                actor_id,
                generation,
                EventView::StateUpdate(ActorStateView::Stopped { code: StopCode::Success, message: None }),
            )
            &&& model.stop_outcome(actor_id, true) == sending(model)
        },
{
    let stopped = EventView::StateUpdate(ActorStateView::Stopped { code: StopCode::Success, message: None });
    law_event_is_kept_and_sent(model, actor_id, generation, stopped);
}

} // verus!
