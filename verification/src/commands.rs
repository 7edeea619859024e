//! Commands of the engine: actors that start and stop.

use crate::actions::{ActorStartEnd, ActorStartEndView, ActorWait, ActorWaitView, CommandAction, CommandActionView};
use crate::actor::{
    ActorConfigView, ActorContext, ActorContextView, ActorLifecycleEvent, ActorLifecycleEventView,
    HibernatingRequestView,
};
use crate::duplicate::Duplicate;
use crate::error::{outcome, RunnerError, RunnerErrorView};
use crate::names::NameModel;
use crate::protocol::{
    ActorCheckpoint, ActorCheckpointView, ActorState, ActorStateView, Command, CommandStartActor,
    CommandStartActorView, CommandView, CommandWrapper, CommandWrapperView, EventView, StopCode,
};
use crate::runtime::{ActorRuntimeState, ActorRuntimeStateView};
use crate::state::{histories_in_order, history_in_order, RunnerInner, RunnerModel};
use vstd::prelude::*;

verus! {

/// An actor as it is when the command to start it arrives.
pub open spec fn starting_actor(
    checkpoint: ActorCheckpointView,
    start: CommandStartActorView,
    start_notify: u64,
) -> ActorRuntimeStateView {
    ActorRuntimeStateView {
        generation: checkpoint.generation,
        config: start.config,
        started: false,
        start_notify: start_notify,
        last_command_idx: checkpoint.index,
        next_event_idx: 0,
        event_history: Seq::empty(),
        hibernating_requests: start.hibernating_requests,
        hibernation_restored: false,
    }
}

/// What the callbacks are told of an actor.
pub open spec fn actor_context(
    checkpoint: ActorCheckpointView,
    config: ActorConfigView,
    hibernating_requests: Seq<HibernatingRequestView>,
) -> ActorContextView {
    ActorContextView {
        actor_id: checkpoint.actor_id,
        generation: checkpoint.generation,
        actor_name: config.name,
        config: config,
        hibernating_requests: hibernating_requests,
    }
}

impl RunnerModel {
    /// With an actor that is being started, in place of one of the same id.
    pub open spec fn starting(
        self,
        checkpoint: ActorCheckpointView,
        start: CommandStartActorView,
        start_notify: u64,
    ) -> Self {
        RunnerModel {
            actors: self.actors.insert(checkpoint.actor_id, starting_actor(checkpoint, start, start_notify)),
            ..self
        }
    }

    /// What the stop callback is told; an error where the actor is not known.
    pub open spec fn stop_context(self, checkpoint: ActorCheckpointView) -> Result<ActorContextView, RunnerErrorView> {
        if self.actors.has(checkpoint.actor_id) {
            let actor = self.actors.at(checkpoint.actor_id);
            Ok(actor_context(checkpoint, actor.config, actor.hibernating_requests))
        } else {
            Err(RunnerErrorView::ActorNotFound { actor_id: checkpoint.actor_id })
        }
    }

    /// Why an actor cannot be marked as up, if it cannot.
    pub open spec fn mark_outcome(self, actor_id: Seq<char>, generation: u32) -> Result<u64, RunnerErrorView> {
        if !self.actors.has(actor_id) {
            Err(RunnerErrorView::ActorNotFound { actor_id: actor_id })
        } else if self.actors.at(actor_id).generation != generation {
            Err(RunnerErrorView::GenerationMismatch)
        } else {
            Ok(self.actors.at(actor_id).start_notify)
        }
    }

    /// With an actor marked as up, where it is there in the generation given.
    pub open spec fn marked(self, actor_id: Seq<char>, generation: u32) -> Self {
        if self.mark_outcome(actor_id, generation) is Ok {
            RunnerModel {
                actors: self.actors.insert(
                    actor_id,
                    ActorRuntimeStateView { started: true, ..self.actors.at(actor_id) },
                ),
                ..self
            }
        } else {
            self
        }
    }

    /// Whether an actor is up.
    pub open spec fn wait(self, actor_id: Seq<char>) -> ActorWaitView {
        if !self.actors.has(actor_id) {
            ActorWaitView::Absent
        } else {
            let actor = self.actors.at(actor_id);
            if actor.started {
                ActorWaitView::Up { generation: actor.generation, config: actor.config }
            } else {
                ActorWaitView::Waiting { start_notify: actor.start_notify }
            }
        }
    }

    /// Without an actor and its WebSockets.
    pub open spec fn forgotten(self, actor_id: Seq<char>) -> Self {
        self.without_websockets_of(actor_id).without_actor(actor_id)
    }

    /// After the start callback of an actor. `callback` is what went wrong in it, if anything.
    pub open spec fn start_finished(self, actor_id: Seq<char>, generation: u32, callback: Result<(), Seq<char>>) -> Self {
        match callback {
            Ok(_) => if self.mark_outcome(actor_id, generation) is Ok {
                self.marked(actor_id, generation).emitted(
                    actor_id,
                    generation,
                    EventView::StateUpdate(ActorStateView::Running),
                ).announced(ActorLifecycleEventView::Started { actor_id: actor_id, generation: generation })
            } else {
                self
            },
            Err(message) => self.emitted(
                actor_id,
                generation,
                EventView::StateUpdate(ActorStateView::Stopped { code: StopCode::Error, message: Some(message) }),
            ).forgotten(actor_id),
        }
    }

    /// How the start of an actor ended.
    pub open spec fn start_end(
        self,
        actor_id: Seq<char>,
        generation: u32,
        callback: Result<(), Seq<char>>,
    ) -> ActorStartEndView {
        match callback {
            Ok(_) => match self.mark_outcome(actor_id, generation) {
                Ok(start_notify) => ActorStartEndView::Running {
                    start_notify: start_notify,
                    reported: self.send_outcome(),
                },
                Err(error) => ActorStartEndView::Unmarked(error),
            },
            Err(_) => ActorStartEndView::Abandoned,
        }
    }

    /// With the stop of an actor reported.
    pub open spec fn stop_reported(self, actor_id: Seq<char>, generation: u32) -> Self {
        self.emitted(
            actor_id,
            generation,
            EventView::StateUpdate(ActorStateView::Stopped { code: StopCode::Success, message: None }),
        )
    }

    /// After the stop callback of an actor. The actor is forgotten once its stop could be reported.
    pub open spec fn stop_finished(self, actor_id: Seq<char>, generation: u32, callback_succeeded: bool) -> Self {
        if !callback_succeeded {
            self
        } else if self.emit_outcome(actor_id) is Err {
            self.stop_reported(actor_id, generation)
        } else {
            self.stop_reported(actor_id, generation).forgotten(actor_id).announced(
                ActorLifecycleEventView::Stopped { actor_id: actor_id, generation: generation },
            )
        }
    }

    /// What the stop of an actor gives.
    pub open spec fn stop_outcome(self, actor_id: Seq<char>, callback_succeeded: bool) -> Result<(), RunnerErrorView> {
        if callback_succeeded {
            self.emit_outcome(actor_id)
        } else {
            Err(RunnerErrorView::ActorStopCallbackFailed)
        }
    }

    /// After a command has arrived.
    pub open spec fn commanded(self, command: CommandWrapperView, start_notify: u64) -> Self {
        match command.inner {
            CommandView::StartActor(start) => self.starting(command.checkpoint, start, start_notify),
            CommandView::StopActor => self,
        }
    }

    /// What a command leads to.
    pub open spec fn command_action(self, command: CommandWrapperView) -> Result<CommandActionView, RunnerErrorView> {
        match command.inner {
            CommandView::StartActor(start) => Ok(
                CommandActionView::Start(actor_context(command.checkpoint, start.config, start.hibernating_requests)),
            ),
            CommandView::StopActor => match self.stop_context(command.checkpoint) {
                Ok(context) => Ok(CommandActionView::Stop(context)),
                Err(error) => Err(error),
            },
        }
    }
}

/// The contents of what went wrong in a callback, if anything.
pub open spec fn callback_view(callback: Result<(), String>) -> Result<(), Seq<char>> {
    match callback {
        Ok(_) => Ok(()),
        Err(message) => Err(message@),
    }
}

impl RunnerInner {
    /// Takes up the next of several commands; none where there is no more. After a command that
    /// fails the others are dropped.
    pub fn handle_commands(&mut self, commands: &mut Vec<CommandWrapper>, start_notify: u64) -> (action: Option<
        Result<CommandAction, RunnerError>,
    >)
        requires
            old(self).wf(),
        ensures
            final(self).wf(),
            action is None == (old(commands)@.len() == 0),
            action is None ==> final(self)@ == old(self)@ && final(commands)@ == old(commands)@,
            action is Some ==> {
                &&& final(commands)@ == if action->0 is Ok {
                    old(commands)@.skip(1)
                } else {
                    Seq::empty()
                }
                &&& final(self)@ == old(self)@.commanded(old(commands)@[0].deep_view(), start_notify)
                &&& outcome(action->0) == old(self)@.command_action(old(commands)@[0].deep_view())
            },
    {
        if commands.len() == 0 {
            return None;
        }
        let command = commands.remove(0);
        assert(commands@ =~= old(commands)@.skip(1));
        let action = self.handle_command(command, start_notify);
        if action.is_err() {
            commands.clear();
        }
        Some(action)
    }

    /// Goes on after the stop callback of an actor that one of several commands stops. Where the stop
    /// fails, the commands that are left are dropped.
    pub fn finish_commanded_stop(
        &mut self,
        commands: &mut Vec<CommandWrapper>,
        actor_id: &str,
        generation: u32,
        callback_succeeded: bool,
    ) -> (stopped: Result<(), RunnerError>)
        requires
            old(self).wf(),
            old(self)@.can_emit(actor_id@),
        ensures
            final(self).wf(),
            final(self)@ == old(self)@.stop_finished(actor_id@, generation, callback_succeeded),
            outcome(stopped) == old(self)@.stop_outcome(actor_id@, callback_succeeded),
            final(commands)@ == if stopped is Ok {
                old(commands)@
            } else {
                Seq::empty()
            },
    {
        let stopped = self.finish_actor_stop(actor_id, generation, callback_succeeded);
        if stopped.is_err() {
            commands.clear();
        }
        stopped
    }

    /// Handles one command. `start_notify` names what those will wait for who want an actor that
    /// the command starts.
    pub fn handle_command(&mut self, command: CommandWrapper, start_notify: u64) -> (action: Result<
        CommandAction,
        RunnerError,
    >)
        requires
            old(self).wf(),
        ensures
            final(self).wf(),
            final(self)@ == old(self)@.commanded(command.deep_view(), start_notify),
            outcome(action) == old(self)@.command_action(command.deep_view()),
    {
        let CommandWrapper { checkpoint, inner } = command;
        match inner {
            Command::StartActor(start) => {
                let context = self.handle_command_start_actor(checkpoint, start, start_notify);
                Ok(CommandAction::Start(context))
            },
            Command::StopActor => match self.handle_command_stop_actor(&checkpoint) {
                Ok(context) => Ok(CommandAction::Stop(context)),
                Err(error) => Err(error),
            },
        }
    }

    /// Takes note of an actor that is to be started. Gives what its start callback is told.
    pub fn handle_command_start_actor(
        &mut self,
        checkpoint: ActorCheckpoint,
        start: CommandStartActor,
        start_notify: u64,
    ) -> (context: ActorContext)
        requires
            old(self).wf(),
        ensures
            final(self).wf(),
            final(self)@ == old(self)@.starting(checkpoint.deep_view(), start.deep_view(), start_notify),
            context.deep_view() == actor_context(
                checkpoint.deep_view(),
                start.config.deep_view(),
                start.hibernating_requests.deep_view(),
            ),
    {
        let context = ActorContext {
            actor_id: checkpoint.actor_id.clone(),
            generation: checkpoint.generation,
            actor_name: start.config.name.clone(),
            config: start.config.duplicate(),
            hibernating_requests: start.hibernating_requests.duplicate(),
        };
        let state = ActorRuntimeState {
            generation: checkpoint.generation,
            config: start.config,
            started: false,
            start_notify,
            last_command_idx: checkpoint.index,
            next_event_idx: 0,
            event_history: Vec::new(),
            hibernating_requests: start.hibernating_requests,
            hibernation_restored: false,
        };
        assert(state.deep_view() =~= starting_actor(checkpoint.deep_view(), start.deep_view(), start_notify));
        let ghost before = self@.actors;
        self.actors.insert(checkpoint.actor_id, state);
        proof {
            lemma_insertion_keeps_order(before, checkpoint.actor_id@, state.deep_view());
        }
        context
    }

    /// Looks up an actor that is to be stopped. Gives what its stop callback is told.
    pub fn handle_command_stop_actor(&self, checkpoint: &ActorCheckpoint) -> (context: Result<
        ActorContext,
        RunnerError,
    >)
        requires
            self.wf(),
        ensures
            outcome(context) == self@.stop_context(checkpoint.deep_view()),
    {
        match self.actors.get(checkpoint.actor_id.as_str()) {
            None => Err(RunnerError::ActorNotFound { actor_id: checkpoint.actor_id.clone() }),
            Some(actor) => Ok(
                ActorContext {
                    actor_id: checkpoint.actor_id.clone(),
                    generation: checkpoint.generation,
                    actor_name: actor.config.name.clone(),
                    config: actor.config.duplicate(),
                    hibernating_requests: actor.hibernating_requests.duplicate(),
                },
            ),
        }
    }

    /// Marks an actor as up. Gives the name of what those wait for who want it.
    pub fn mark_actor_started(&mut self, actor_id: &str, generation: u32) -> (marked: Result<u64, RunnerError>)
        requires
            old(self).wf(),
        ensures
            final(self).wf(),
            final(self)@ == old(self)@.marked(actor_id@, generation),
            outcome(marked) == old(self)@.mark_outcome(actor_id@, generation),
    {
        let ghost before = self@;
        let actual: u32 = match self.actors.get(actor_id) {
            None => {
                return Err(RunnerError::ActorNotFound { actor_id: actor_id.to_owned() });
            },
            Some(actor) => actor.generation,
        };
        if actual != generation {
            return Err(RunnerError::GenerationMismatch);
        }
        let start_notify: u64 = match self.actors.get_mut(actor_id) {
            None => {
                return Err(RunnerError::ActorNotFound { actor_id: actor_id.to_owned() });
            },
            Some(actor) => {
                actor.started = true;
                actor.start_notify
            },
        };
        proof {
            assert(before.actors.has(actor_id@));
            lemma_insertion_keeps_order(before.actors, actor_id@, self@.actors.at(actor_id@));
        }
        Ok(start_notify)
    }

    /// Whether an actor is up.
    pub fn wait_for_actor_started(&self, actor_id: &str) -> (wait: ActorWait)
        requires
            self.wf(),
        ensures
            wait.deep_view() == self@.wait(actor_id@),
    {
        match self.actors.get(actor_id) {
            None => ActorWait::Absent,
            Some(actor) => if actor.started {
                ActorWait::Up { generation: actor.generation, config: actor.config.duplicate() }
            } else {
                ActorWait::Waiting { start_notify: actor.start_notify }
            },
        }
    }

    fn forget_actor(&mut self, actor_id: &str)
        requires
            old(self).wf(),
        ensures
            final(self).wf(),
            final(self)@ == old(self)@.forgotten(actor_id@),
    {
        self.remove_actor_websockets(actor_id);
        let ghost before = self@.actors;
        self.actors.remove(actor_id);
        proof {
            assert forall|other: Seq<char>| #[trigger] self@.actors.has(other) implies history_in_order(
                other,
                self@.actors.at(other),
            ) by {
                assert(before.has(other));
            }
        }
    }

    /// Goes on after the start callback of an actor. `callback` is what went wrong in it, if
    /// anything.
    pub fn finish_actor_start(&mut self, actor_id: &str, generation: u32, callback: Result<(), String>) -> (end:
        ActorStartEnd)
        requires
            old(self).wf(),
            old(self)@.can_emit(actor_id@),
        ensures
            final(self).wf(),
            final(self)@ == old(self)@.start_finished(actor_id@, generation, callback_view(callback)),
            end.deep_view() == old(self)@.start_end(actor_id@, generation, callback_view(callback)),
    {
        match callback {
            Ok(_) => match self.mark_actor_started(actor_id, generation) {
                Err(error) => ActorStartEnd::Unmarked(error),
                Ok(start_notify) => {
                    let reported = self.send_actor_state_update(actor_id, generation, ActorState::Running);
                    let ghost before = self@;
                    self.lifecycle.push(ActorLifecycleEvent::Started { actor_id: actor_id.to_owned(), generation });
                    assert(self@ =~= before.announced(
                        ActorLifecycleEventView::Started { actor_id: actor_id@, generation: generation },
                    ));
                    ActorStartEnd::Running { start_notify, reported }
                },
            },
            Err(message) => {
                let _ = self.send_actor_state_update(
                    actor_id,
                    generation,
                    ActorState::Stopped { code: StopCode::Error, message: Some(message) },
                );
                self.forget_actor(actor_id);
                ActorStartEnd::Abandoned
            },
        }
    }

    /// Goes on after the stop callback of an actor.
    pub fn finish_actor_stop(&mut self, actor_id: &str, generation: u32, callback_succeeded: bool) -> (stopped: Result<
        (),
        RunnerError,
    >)
        requires
            old(self).wf(),
            old(self)@.can_emit(actor_id@),
        ensures
            final(self).wf(),
            final(self)@ == old(self)@.stop_finished(actor_id@, generation, callback_succeeded),
            outcome(stopped) == old(self)@.stop_outcome(actor_id@, callback_succeeded),
    {
        if !callback_succeeded {
            return Err(RunnerError::ActorStopCallbackFailed);
        }
        match self.send_actor_state_update(
            actor_id,
            generation,
            ActorState::Stopped { code: StopCode::Success, message: None },
        ) {
            Err(error) => Err(error),
            Ok(_) => {
                self.forget_actor(actor_id);
                let ghost before = self@;
                self.lifecycle.push(ActorLifecycleEvent::Stopped { actor_id: actor_id.to_owned(), generation });
                assert(self@ =~= before.announced(
                    ActorLifecycleEventView::Stopped { actor_id: actor_id@, generation: generation },
                ));
                Ok(())
            },
        }
    }
}

proof fn lemma_insertion_keeps_order(
    actors: NameModel<ActorRuntimeStateView>,
    actor_id: Seq<char>,
    actor: ActorRuntimeStateView,
)
    requires
        histories_in_order(actors),
        history_in_order(actor_id, actor),
    ensures
        histories_in_order(actors.insert(actor_id, actor)),
{
    let after = actors.insert(actor_id, actor);
    assert forall|other: Seq<char>| #[trigger] after.has(other) implies history_in_order(other, after.at(other)) by {
        if other != actor_id {
            assert(actors.has(other));
        }
    }
}

/// An actor whose stop could be reported is gone, and so are its WebSockets; other actors and
/// WebSockets are as they were, and subscribers are told.
pub proof fn law_stopped_actor_is_gone(model: RunnerModel, actor_id: Seq<char>, generation: u32)
    requires
        model.actors.has(actor_id),
        model.send_outcome() is Ok,
    ensures
        ({
            let after = model.stop_finished(actor_id, generation, true);
            &&& model.stop_outcome(actor_id, true) is Ok
            &&& !after.actors.has(actor_id)
            &&& after.wait(actor_id) == ActorWaitView::Absent
            &&& forall|code: u64| #[trigger]
                after.websockets.contains_key(code) <==> model.websockets.contains_key(code)
                    && model.websockets[code].actor_id != actor_id
            &&& forall|code: u64| #[trigger]
                after.websockets.contains_key(code) ==> after.websockets[code] == model.websockets[code]
            &&& forall|other: Seq<char>|
                other != actor_id ==> (#[trigger] after.actors.has(other) <==> model.actors.has(other))
            &&& forall|other: Seq<char>|
                other != actor_id && #[trigger] after.actors.has(other) ==> after.actors.at(other) == model.actors.at(
                    other,
                )
            &&& after.lifecycle == model.lifecycle.push(
                ActorLifecycleEventView::Stopped { actor_id: actor_id, generation: generation },
            )
        }),
{
}

/// An actor whose start callback failed is forgotten with its WebSockets, whether or not the
/// failure could be reported, and subscribers are told nothing.
pub proof fn law_failed_start_leaves_nothing(model: RunnerModel, actor_id: Seq<char>, generation: u32, message: Seq<char>)
    ensures
        ({
            let after = model.start_finished(actor_id, generation, Err(message));
            &&& !after.actors.has(actor_id)
            &&& forall|code: u64| #[trigger]
                after.websockets.contains_key(code) ==> after.websockets[code].actor_id != actor_id
            &&& after.lifecycle == model.lifecycle
        }),
{
}

/// An actor is up after its start callback succeeded, unless another generation has taken its
/// place or it is gone; then nothing changes.
pub proof fn law_started_actor_is_up(
    model: RunnerModel,
    checkpoint: ActorCheckpointView,
    start: CommandStartActorView,
    start_notify: u64,
)
    ensures
        ({
            let starting = model.starting(checkpoint, start, start_notify);
            let up = starting.start_finished(checkpoint.actor_id, checkpoint.generation, Ok(()));
            &&& starting.wait(checkpoint.actor_id) == (ActorWaitView::Waiting { start_notify: start_notify })
            &&& up.wait(checkpoint.actor_id) == (ActorWaitView::Up {
                generation: checkpoint.generation,
                config: start.config,
            })
            &&& up.lifecycle == model.lifecycle.push(
                ActorLifecycleEventView::Started {
                    actor_id: checkpoint.actor_id,
                    generation: checkpoint.generation,
                },
            )
        }),
        forall|generation: u32|
            generation != checkpoint.generation ==> #[trigger] model.starting(
                checkpoint,
                start,
                start_notify,
            ).start_finished(checkpoint.actor_id, generation, Ok(())) == model.starting(
                checkpoint,
                start,
                start_notify,
            ),
{
}

} // verus!
