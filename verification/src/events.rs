//! Events that actors emit, their acknowledgement, and the acknowledgement of commands.

use crate::duplicate::Duplicate;
use crate::error::{outcome, RunnerError, RunnerErrorView};
use crate::names::NameModel;
use crate::protocol::{
    ActorCheckpoint, ActorCheckpointView, ActorIntent, ActorState, Event, EventView, EventWrapper, EventWrapperView,
    ToServer, ToServerView,
};
use crate::runtime::ActorRuntimeStateView;
use crate::state::{histories_in_order, history_in_order, RunnerInner, RunnerModel};
use vstd::prelude::*;

verus! {

/// The first checkpoint for an actor.
pub open spec fn first_for(checkpoints: Seq<ActorCheckpointView>, actor_id: Seq<char>) -> Option<ActorCheckpointView>
    decreases checkpoints.len(),
{
    if checkpoints.len() == 0 {
        None
    } else if checkpoints[0].actor_id == actor_id {
        Some(checkpoints[0])
    } else {
        first_for(checkpoints.skip(1), actor_id)
    }
}

/// Whether an event is acknowledged by a checkpoint: it is of the same generation and not numbered
/// higher.
pub open spec fn is_acknowledged(event: EventWrapperView, checkpoint: ActorCheckpointView) -> bool {
    event.checkpoint.generation == checkpoint.generation && event.checkpoint.index <= checkpoint.index
}

/// The events that a checkpoint does not acknowledge.
pub open spec fn unacknowledged(events: Seq<EventWrapperView>, checkpoint: ActorCheckpointView) -> Seq<
    EventWrapperView,
> {
    events.filter(|event: EventWrapperView| !is_acknowledged(event, checkpoint))
}

/// An actor without the events that its checkpoint acknowledges.
pub open spec fn acknowledged_actor(
    actor_id: Seq<char>,
    actor: ActorRuntimeStateView,
    checkpoints: Seq<ActorCheckpointView>,
) -> ActorRuntimeStateView {
    match first_for(checkpoints, actor_id) {
        Some(checkpoint) => ActorRuntimeStateView {
            event_history: unacknowledged(actor.event_history, checkpoint),
            ..actor
        },
        None => actor,
    }
}

/// Every actor without the events that its checkpoint acknowledges.
pub open spec fn acknowledged_actors(
    actors: NameModel<ActorRuntimeStateView>,
    checkpoints: Seq<ActorCheckpointView>,
) -> NameModel<ActorRuntimeStateView> {
    actors.map_entries(
        |actor_id: Seq<char>, actor: ActorRuntimeStateView| acknowledged_actor(actor_id, actor, checkpoints),
    )
}

/// The unacknowledged events of some actors, actor by actor.
pub open spec fn pending_events(actors: NameModel<ActorRuntimeStateView>, names: Seq<Seq<char>>) -> Seq<
    EventWrapperView,
>
    decreases names.len(),
{
    if names.len() == 0 {
        Seq::empty()
    } else {
        pending_events(actors, names.drop_last()) + actors.at(names.last()).event_history
    }
}

/// The last command of each of some actors, for those that have had one.
pub open spec fn command_checkpoints(actors: NameModel<ActorRuntimeStateView>, names: Seq<Seq<char>>) -> Seq<
    ActorCheckpointView,
>
    decreases names.len(),
{
    if names.len() == 0 {
        Seq::empty()
    } else {
        let earlier = command_checkpoints(actors, names.drop_last());
        let actor = actors.at(names.last());
        if actor.last_command_idx >= 0 {
            earlier.push(
                ActorCheckpointView {
                    actor_id: names.last(),
                    generation: actor.generation,
                    index: actor.last_command_idx,
                },
            )
        } else {
            earlier
        }
    }
}

impl RunnerModel {
    /// The generation that a request about an actor speaks of. Where one is given, it must be the
    /// actor's own.
    pub open spec fn resolved_generation(self, actor_id: Seq<char>, generation: Option<u32>) -> Result<
        u32,
        RunnerErrorView,
    > {
        if !self.actors.has(actor_id) {
            Err(RunnerErrorView::ActorNotFound { actor_id: actor_id })
        } else {
            match generation {
                Some(given) => if given == self.actors.at(actor_id).generation {
                    Ok(given)
                } else {
                    Err(
                        RunnerErrorView::GenerationExpected {
                            expected: self.actors.at(actor_id).generation,
                            got: given,
                        },
                    )
                },
                None => Ok(self.actors.at(actor_id).generation),
            }
        }
    }

    /// With an event emitted for a generation that has to be resolved first.
    pub open spec fn requested(self, actor_id: Seq<char>, generation: Option<u32>, event: EventView) -> Self {
        match self.resolved_generation(actor_id, generation) {
            Ok(resolved) => self.emitted(actor_id, resolved, event),
            Err(_) => self,
        }
    }

    /// What [`RunnerModel::requested`] gives.
    pub open spec fn request_outcome(self, actor_id: Seq<char>, generation: Option<u32>) -> Result<
        (),
        RunnerErrorView,
    > {
        match self.resolved_generation(actor_id, generation) {
            Ok(_) => self.send_outcome(),
            Err(error) => Err(error),
        }
    }

    /// The events that are resent after a reconnect.
    pub open spec fn pending_events(self) -> Seq<EventWrapperView> {
        pending_events(self.actors, self.actors.order)
    }

    /// With the unacknowledged events sent again, if there are any.
    pub open spec fn resent(self) -> Self {
        if self.pending_events().len() == 0 {
            self
        } else {
            self.sent(ToServerView::Events(self.pending_events()))
        }
    }

    /// What resending gives.
    pub open spec fn resend_outcome(self) -> Result<(), RunnerErrorView> {
        if self.pending_events().len() == 0 {
            Ok(())
        } else {
            self.send_outcome()
        }
    }

    /// With events acknowledged.
    pub open spec fn events_acknowledged(self, checkpoints: Seq<ActorCheckpointView>) -> Self {
        RunnerModel { actors: acknowledged_actors(self.actors, checkpoints), ..self }
    }

    /// With the commands of every actor acknowledged.
    pub open spec fn commands_acknowledged(self) -> Self {
        self.sent(
            ToServerView::AckCommands {
                last_command_checkpoints: command_checkpoints(self.actors, self.actors.order),
            },
        )
    }
}

impl RunnerInner {
    /// The generation that a request about an actor speaks of.
    pub fn resolve_actor_generation(&self, actor_id: &str, generation: Option<u32>) -> (resolved: Result<
        u32,
        RunnerError,
    >)
        requires
            self.wf(),
        ensures
            outcome(resolved) == self@.resolved_generation(actor_id@, generation),
    {
        match self.actors.get(actor_id) {
            None => Err(RunnerError::ActorNotFound { actor_id: actor_id.to_owned() }),
            Some(actor) => {
                let resolved: u32 = match generation {
                    Some(given) => given,
                    None => actor.generation,
                };
                if resolved != actor.generation {
                    Err(RunnerError::GenerationExpected { expected: actor.generation, got: resolved })
                } else {
                    Ok(resolved)
                }
            },
        }
    }

    fn request_event(&mut self, actor_id: &str, generation: Option<u32>, event: Event) -> (sent: Result<
        (),
        RunnerError,
    >)
        requires
            old(self).wf(),
            old(self)@.can_emit(actor_id@),
        ensures
            final(self).wf(),
            final(self)@ == old(self)@.requested(actor_id@, generation, event.deep_view()),
            outcome(sent) == old(self)@.request_outcome(actor_id@, generation),
    {
        match self.resolve_actor_generation(actor_id, generation) {
            Ok(resolved) => self.emit_event(actor_id, resolved, event),
            Err(error) => Err(error),
        }
    }

    /// Tells the engine what an actor wants.
    pub fn send_actor_intent(&mut self, actor_id: &str, generation: Option<u32>, intent: ActorIntent) -> (sent: Result<
        (),
        RunnerError,
    >)
        requires
            old(self).wf(),
            old(self)@.can_emit(actor_id@),
        ensures
            final(self).wf(),
            final(self)@ == old(self)@.requested(actor_id@, generation, EventView::Intent(intent)),
            outcome(sent) == old(self)@.request_outcome(actor_id@, generation),
    {
        self.request_event(actor_id, generation, Event::Intent(intent))
    }

    /// Asks for an actor to be put to sleep.
    pub fn sleep_actor(&mut self, actor_id: &str, generation: Option<u32>) -> (sent: Result<(), RunnerError>)
        requires
            old(self).wf(),
            old(self)@.can_emit(actor_id@),
        ensures
            final(self).wf(),
            final(self)@ == old(self)@.requested(actor_id@, generation, EventView::Intent(ActorIntent::Sleep)),
            outcome(sent) == old(self)@.request_outcome(actor_id@, generation),
    {
        self.send_actor_intent(actor_id, generation, ActorIntent::Sleep)
    }

    /// Asks for an actor to be stopped.
    pub fn stop_actor(&mut self, actor_id: &str, generation: Option<u32>) -> (sent: Result<(), RunnerError>)
        requires
            old(self).wf(),
            old(self)@.can_emit(actor_id@),
        ensures
            final(self).wf(),
            final(self)@ == old(self)@.requested(actor_id@, generation, EventView::Intent(ActorIntent::Stop)),
            outcome(sent) == old(self)@.request_outcome(actor_id@, generation),
    {
        self.send_actor_intent(actor_id, generation, ActorIntent::Stop)
    }

    /// Sets or clears the alarm of an actor.
    pub fn set_alarm(&mut self, actor_id: &str, alarm_ts: Option<i64>, generation: Option<u32>) -> (sent: Result<
        (),
        RunnerError,
    >)
        requires
            old(self).wf(),
            old(self)@.can_emit(actor_id@),
        ensures
            final(self).wf(),
            final(self)@ == old(self)@.requested(actor_id@, generation, EventView::SetAlarm(alarm_ts)),
            outcome(sent) == old(self)@.request_outcome(actor_id@, generation),
    {
        self.send_alarm_event(actor_id, generation, alarm_ts)
    }

    /// Clears the alarm of an actor.
    pub fn clear_alarm(&mut self, actor_id: &str, generation: Option<u32>) -> (sent: Result<(), RunnerError>)
        requires
            old(self).wf(),
            old(self)@.can_emit(actor_id@),
        ensures
            final(self).wf(),
            final(self)@ == old(self)@.requested(actor_id@, generation, EventView::SetAlarm(None)),
            outcome(sent) == old(self)@.request_outcome(actor_id@, generation),
    {
        self.set_alarm(actor_id, None, generation)
    }

    /// Tells the engine of an actor's alarm.
    pub fn send_alarm_event(&mut self, actor_id: &str, generation: Option<u32>, alarm_ts: Option<i64>) -> (sent: Result<
        (),
        RunnerError,
    >)
        requires
            old(self).wf(),
            old(self)@.can_emit(actor_id@),
        ensures
            final(self).wf(),
            final(self)@ == old(self)@.requested(actor_id@, generation, EventView::SetAlarm(alarm_ts)),
            outcome(sent) == old(self)@.request_outcome(actor_id@, generation),
    {
        self.request_event(actor_id, generation, Event::SetAlarm(alarm_ts))
    }

    /// Tells the engine of an actor's state.
    pub fn send_actor_state_update(&mut self, actor_id: &str, generation: u32, state: ActorState) -> (sent: Result<
        (),
        RunnerError,
    >)
        requires
            old(self).wf(),
            old(self)@.can_emit(actor_id@),
        ensures
            final(self).wf(),
            final(self)@ == old(self)@.emitted(actor_id@, generation, EventView::StateUpdate(state.deep_view())),
            outcome(sent) == old(self)@.emit_outcome(actor_id@),
    {
        self.emit_event(actor_id, generation, Event::StateUpdate(state))
    }

    /// Acknowledges the last command of every actor.
    pub fn send_command_acknowledgement(&mut self) -> (sent: Result<(), RunnerError>)
        requires
            old(self).wf(),
        ensures
            final(self).wf(),
            final(self)@ == old(self)@.commands_acknowledged(),
            outcome(sent) == old(self)@.send_outcome(),
    {
        let mut checkpoints: Vec<ActorCheckpoint> = Vec::new();
        let count: usize = self.actors.len();
        let mut at: usize = 0;
        let ghost order = self@.actors.order;
        assert(checkpoints.deep_view() =~= command_checkpoints(self@.actors, order.take(0)));
        while at < count
            invariant
                *self == *old(self),
                self.wf(),
                at <= count,
                count == order.len(),
                order == self@.actors.order,
                checkpoints.deep_view() == command_checkpoints(self@.actors, order.take(at as int)),
            decreases count - at,
        {
            let actor = self.actors.value_at(at);
            let ghost earlier = checkpoints.deep_view();
            proof {
                assert(order.take(at + 1).drop_last() =~= order.take(at as int));
                assert(order.take(at + 1).last() == order[at as int]);
            }
            if actor.last_command_idx >= 0 {
                let checkpoint = ActorCheckpoint {
                    actor_id: self.actors.name_at(at).clone(),
                    generation: actor.generation,
                    index: actor.last_command_idx,
                };
                checkpoints.push(checkpoint);
                assert(checkpoints.deep_view() =~= earlier.push(checkpoint.deep_view()));
            }
            at = at + 1;
        }
        assert(order.take(count as int) =~= order);
        self.send_to_server(ToServer::AckCommands { last_command_checkpoints: checkpoints })
    }

    /// Sends again the events that the engine has not acknowledged.
    pub fn resend_unacknowledged_events(&mut self) -> (sent: Result<(), RunnerError>)
        requires
            old(self).wf(),
        ensures
            final(self).wf(),
            final(self)@ == old(self)@.resent(),
            outcome(sent) == old(self)@.resend_outcome(),
    {
        let mut events: Vec<EventWrapper> = Vec::new();
        let count: usize = self.actors.len();
        let mut at: usize = 0;
        let ghost order = self@.actors.order;
        assert(events.deep_view() =~= pending_events(self@.actors, order.take(0)));
        while at < count
            invariant
                *self == *old(self),
                self.wf(),
                at <= count,
                count == order.len(),
                order == self@.actors.order,
                events.deep_view() == pending_events(self@.actors, order.take(at as int)),
            decreases count - at,
        {
            let history = &self.actors.value_at(at).event_history;
            proof {
                assert(order.take(at + 1).drop_last() =~= order.take(at as int));
                assert(order.take(at + 1).last() == order[at as int]);
            }
            append_events(&mut events, history);
            at = at + 1;
        }
        assert(order.take(count as int) =~= order);
        if events.len() == 0 {
            return Ok(());
        }
        self.send_to_server(ToServer::Events(events))
    }

    /// Forgets the events that the engine has acknowledged.
    pub fn handle_ack_events(&mut self, last_event_checkpoints: &Vec<ActorCheckpoint>)
        requires
            old(self).wf(),
        ensures
            final(self).wf(),
            final(self)@ == old(self)@.events_acknowledged(last_event_checkpoints.deep_view()),
    {
        let count: usize = self.actors.len();
        let mut at: usize = 0;
        let ghost before = self@;
        let ghost order = before.actors.order;
        let ghost checkpoints = last_event_checkpoints.deep_view();
        let ghost after = acknowledged_actors(before.actors, checkpoints);
        proof {
            self.actors.lemma_valid();
        }
        while at < count
            invariant
                at <= count,
                count == order.len(),
                order == before.actors.order,
                before.actors.valid(),
                checkpoints == last_event_checkpoints.deep_view(),
                after == acknowledged_actors(before.actors, checkpoints),
                self.config.wf(),
                self.actors.wf(),
                self@ == (RunnerModel { actors: self@.actors, ..before }),
                self@.actors.order == order,
                forall|name: Seq<char>| #[trigger] self@.actors.has(name) <==> before.actors.has(name),
                forall|i: int|
                    0 <= i < count ==> self@.actors.at(#[trigger] order[i]) == if i < at {
                        after.at(order[i])
                    } else {
                        before.actors.at(order[i])
                    },
            decreases count - at,
        {
            let ghost name = order[at as int];
            let ghost earlier = self@.actors;
            assert(order.contains(name));
            assert(before.actors.has(name));
            let checkpoint = find_checkpoint(last_event_checkpoints, self.actors.name_at(at));
            if let Some(checkpoint) = checkpoint {
                let actor = self.actors.value_mut_at(at);
                let kept = keep_unacknowledged(&actor.event_history, checkpoint);
                actor.event_history = kept;
            }
            proof {
                assert(self@.actors == earlier || self@.actors == earlier.insert(name, self@.actors.at(name)));
                assert forall|other: Seq<char>| #[trigger] self@.actors.has(other) <==> before.actors.has(other) by {
                    assert(earlier.has(other) <==> before.actors.has(other));
                    assert(earlier.has(name) <==> before.actors.has(name));
                }
                assert forall|i: int| 0 <= i < count implies self@.actors.at(#[trigger] order[i]) == if i < at + 1 {
                    after.at(order[i])
                } else {
                    before.actors.at(order[i])
                } by {
                    if i == at {
                        assert(after.at(name) == acknowledged_actor(name, before.actors.at(name), checkpoints));
                    } else {
                        assert(order[i] != name);
                    }
                }
            }
            at = at + 1;
        }
        proof {
            assert forall|name: Seq<char>| self@.actors.map.dom().contains(name) implies self@.actors.map[name]
                == after.map[name] by {
                assert(self@.actors.has(name));
                assert(before.actors.has(name));
                assert(order.contains(name));
                let i = order.index_of(name);
                assert(self@.actors.at(order[i]) == after.at(order[i]));
            }
            assert forall|name: Seq<char>| self@.actors.map.dom().contains(name) <==> after.map.dom().contains(name) by {
                assert(self@.actors.has(name) <==> before.actors.has(name));
            }
            assert(self@.actors.map =~= after.map);
            lemma_acknowledgement_keeps_order(before.actors, checkpoints);
        }
    }

    /// Whether an actor is known, and of the given generation where one is given.
    pub fn has_actor(&self, actor_id: &str, generation: Option<u32>) -> (known: bool)
        requires
            self.wf(),
        ensures
            known == (self@.actors.has(actor_id@) && (generation is Some ==> generation->0 == self@.actors.at(
                actor_id@,
            ).generation)),
    {
        match self.actors.get(actor_id) {
            Some(actor) => match generation {
                Some(given) => given == actor.generation,
                None => true,
            },
            None => false,
        }
    }

    /// The ids of the actors that are known.
    pub fn get_actor_ids(&self) -> (ids: Vec<String>)
        requires
            self.wf(),
        ensures
            ids.deep_view() == self@.actors.order,
            forall|actor_id: Seq<char>| #[trigger] ids.deep_view().contains(actor_id) <==> self@.actors.has(actor_id),
            ids.deep_view().no_duplicates(),
    {
        let mut ids: Vec<String> = Vec::new();
        let count: usize = self.actors.len();
        let mut at: usize = 0;
        while at < count
            invariant
                self.wf(),
                at <= count,
                count == self@.actors.order.len(),
                ids.len() == at,
                forall|i: int| 0 <= i < at ==> (#[trigger] ids@[i])@ == self@.actors.order[i],
            decreases count - at,
        {
            ids.push(self.actors.name_at(at).clone());
            at = at + 1;
        }
        assert(ids.deep_view() =~= self@.actors.order);
        proof {
            self.actors.lemma_valid();
        }
        ids
    }
}

/// Adds copies of some events at the end of others.
fn append_events(events: &mut Vec<EventWrapper>, more: &Vec<EventWrapper>)
    ensures
        final(events).deep_view() == old(events).deep_view() + more.deep_view(),
{
    let mut at: usize = 0;
    let ghost before = events.deep_view();
    while at < more.len()
        invariant
            at <= more.len(),
            events.deep_view() == before + more.deep_view().take(at as int),
        decreases more.len() - at,
    {
        let ghost earlier = events.deep_view();
        let event = more[at].duplicate();
        events.push(event);
        proof {
            assert(events.deep_view() =~= earlier.push(event.deep_view()));
            assert(more.deep_view().take(at + 1) =~= more.deep_view().take(at as int).push(event.deep_view()));
            assert(events.deep_view() =~= before + more.deep_view().take(at + 1));
        }
        at = at + 1;
    }
    assert(more.deep_view().take(more.len() as int) =~= more.deep_view());
}

/// The first checkpoint for an actor.
fn find_checkpoint<'a>(checkpoints: &'a Vec<ActorCheckpoint>, actor_id: &String) -> (found: Option<&'a ActorCheckpoint>)
    ensures
        found is Some == first_for(checkpoints.deep_view(), actor_id@) is Some,
        found is Some ==> first_for(checkpoints.deep_view(), actor_id@) == Some(found->0.deep_view()),
{
    let mut at: usize = 0;
    assert(checkpoints.deep_view().skip(0) =~= checkpoints.deep_view());
    while at < checkpoints.len()
        invariant
            at <= checkpoints.len(),
            first_for(checkpoints.deep_view(), actor_id@) == first_for(
                checkpoints.deep_view().skip(at as int),
                actor_id@,
            ),
        decreases checkpoints.len() - at,
    {
        assert(checkpoints.deep_view().skip(at as int)[0] == checkpoints@[at as int].deep_view());
        if checkpoints[at].actor_id == *actor_id {
            return Some(&checkpoints[at]);
        }
        assert(checkpoints.deep_view().skip(at as int).skip(1) =~= checkpoints.deep_view().skip(at + 1));
        at = at + 1;
    }
    None
}

/// Copies of the events that a checkpoint does not acknowledge.
fn keep_unacknowledged(events: &Vec<EventWrapper>, checkpoint: &ActorCheckpoint) -> (kept: Vec<EventWrapper>)
    ensures
        kept.deep_view() == unacknowledged(events.deep_view(), checkpoint.deep_view()),
{
    let mut kept: Vec<EventWrapper> = Vec::new();
    let mut at: usize = 0;
    proof {
        reveal(Seq::filter);
        assert(kept.deep_view() =~= unacknowledged(events.deep_view().take(0), checkpoint.deep_view()));
    }
    while at < events.len()
        invariant
            at <= events.len(),
            kept.deep_view() == unacknowledged(events.deep_view().take(at as int), checkpoint.deep_view()),
        decreases events.len() - at,
    {
        let event = &events[at];
        let ghost earlier = kept.deep_view();
        if event.checkpoint.generation != checkpoint.generation || event.checkpoint.index > checkpoint.index {
            kept.push(event.duplicate());
            assert(kept.deep_view() =~= earlier.push(event.deep_view()));
        }
        proof {
            lemma_unacknowledged_push(events.deep_view().take(at as int), event.deep_view(), checkpoint.deep_view());
            assert(events.deep_view().take(at + 1) =~= events.deep_view().take(at as int).push(event.deep_view()));
        }
        at = at + 1;
    }
    assert(events.deep_view().take(events.len() as int) =~= events.deep_view());
    kept
}

proof fn lemma_unacknowledged_push(
    events: Seq<EventWrapperView>,
    event: EventWrapperView,
    checkpoint: ActorCheckpointView,
)
    ensures
        unacknowledged(events.push(event), checkpoint) == if is_acknowledged(event, checkpoint) {
            unacknowledged(events, checkpoint)
        } else {
            unacknowledged(events, checkpoint).push(event)
        },
{
    reveal(Seq::filter);
    assert(events.push(event).drop_last() =~= events);
}

pub(crate) proof fn lemma_unacknowledged_in_order(
    actor_id: Seq<char>,
    events: Seq<EventWrapperView>,
    bound: int,
    checkpoint: ActorCheckpointView,
)
    requires
        forall|i: int|
            0 <= i < events.len() ==> {
                &&& (#[trigger] events[i]).checkpoint.actor_id == actor_id
                &&& 0 <= events[i].checkpoint.index < bound
            },
        forall|i: int, j: int|
            0 <= i < j < events.len() ==> (#[trigger] events[i]).checkpoint.index < (
            #[trigger] events[j]).checkpoint.index,
    ensures
        ({
            let kept = unacknowledged(events, checkpoint);
            &&& forall|i: int|
                0 <= i < kept.len() ==> {
                    &&& (#[trigger] kept[i]).checkpoint.actor_id == actor_id
                    &&& 0 <= kept[i].checkpoint.index < bound
                    &&& events.contains(kept[i])
                    &&& !is_acknowledged(kept[i], checkpoint)
                }
            &&& forall|i: int, j: int|
                0 <= i < j < kept.len() ==> (#[trigger] kept[i]).checkpoint.index < (
                #[trigger] kept[j]).checkpoint.index
        }),
    decreases events.len(),
{
    if events.len() == 0 {
        reveal(Seq::filter);
    } else {
        let earlier = events.drop_last();
        let last = events.last();
        assert(events =~= earlier.push(last));
        lemma_unacknowledged_in_order(actor_id, earlier, last.checkpoint.index as int, checkpoint);
        lemma_unacknowledged_push(earlier, last, checkpoint);
        let kept = unacknowledged(events, checkpoint);
        let kept_earlier = unacknowledged(earlier, checkpoint);
        assert forall|i: int| 0 <= i < kept.len() implies events.contains(#[trigger] kept[i]) by {
            if i < kept_earlier.len() {
                assert(kept[i] == kept_earlier[i]);
                let at = earlier.index_of(kept[i]);
                assert(events[at] == kept[i]);
            } else {
                assert(events[events.len() - 1] == kept[i]);
            }
        }
    }
}

proof fn lemma_acknowledgement_keeps_order(
    actors: NameModel<ActorRuntimeStateView>,
    checkpoints: Seq<ActorCheckpointView>,
)
    requires
        histories_in_order(actors),
    ensures
        histories_in_order(acknowledged_actors(actors, checkpoints)),
{
    let after = acknowledged_actors(actors, checkpoints);
    assert forall|actor_id: Seq<char>| #[trigger] after.has(actor_id) implies history_in_order(
        actor_id,
        after.at(actor_id),
    ) by {
        assert(actors.has(actor_id));
        let actor = actors.at(actor_id);
        if let Some(checkpoint) = first_for(checkpoints, actor_id) {
            lemma_unacknowledged_in_order(actor_id, actor.event_history, actor.next_event_idx as int, checkpoint);
        }
    }
}

/// After a reconnect exactly those events are sent again that the engine has not acknowledged:
/// an event of an actor is pending after an acknowledgement if and only if it was pending before
/// and the actor's checkpoint, where there is one, does not cover it.
pub proof fn law_only_unacknowledged_events_are_resent(
    model: RunnerModel,
    checkpoints: Seq<ActorCheckpointView>,
    event: EventWrapperView,
)
    requires
        model.actors.valid(),
        histories_in_order(model.actors),
    ensures
        model.events_acknowledged(checkpoints).pending_events().contains(event) <==> {
            &&& model.pending_events().contains(event)
            &&& match first_for(checkpoints, event.checkpoint.actor_id) {
                Some(checkpoint) => !is_acknowledged(event, checkpoint),
                None => true,
            }
        },
{
    let after = model.events_acknowledged(checkpoints);
    let actor_id = event.checkpoint.actor_id;
    lemma_acknowledgement_keeps_order(model.actors, checkpoints);
    lemma_pending_event(model.actors, event);
    assert(after.actors.valid()) by {
        assert forall|name: Seq<char>| #[trigger] after.actors.map.contains_key(name) <==> after.actors.order.contains(
            name,
        ) by {
            assert(model.actors.map.contains_key(name) <==> model.actors.order.contains(name));
        }
    }
    lemma_pending_event(after.actors, event);
    assert(after.actors.has(actor_id) <==> model.actors.has(actor_id));
    if model.actors.has(actor_id) {
        let history = model.actors.at(actor_id).event_history;
        if let Some(checkpoint) = first_for(checkpoints, actor_id) {
            lemma_unacknowledged_contains(history, event, checkpoint);
        }
    }
}

pub(crate) proof fn lemma_unacknowledged_contains(
    events: Seq<EventWrapperView>,
    event: EventWrapperView,
    checkpoint: ActorCheckpointView,
)
    ensures
        unacknowledged(events, checkpoint).contains(event) <==> events.contains(event) && !is_acknowledged(
            event,
            checkpoint,
        ),
    decreases events.len(),
{
    let kept = unacknowledged(events, checkpoint);
    if events.len() == 0 {
        reveal(Seq::filter);
    } else {
        let earlier = events.drop_last();
        let kept_earlier = unacknowledged(earlier, checkpoint);
        assert(events =~= earlier.push(events.last()));
        lemma_unacknowledged_push(earlier, events.last(), checkpoint);
        lemma_unacknowledged_contains(earlier, event, checkpoint);
        if kept_earlier.contains(event) {
            assert(kept[kept_earlier.index_of(event)] == event);
        }
        if kept.contains(event) && !kept_earlier.contains(event) {
            let i = kept.index_of(event);
            assert(i < kept_earlier.len() ==> kept_earlier[i] == event);
            assert(events[events.len() - 1] == event);
        }
        if earlier.contains(event) {
            assert(events[earlier.index_of(event)] == event);
        }
        if events.contains(event) && !earlier.contains(event) {
            let i = events.index_of(event);
            assert(i < earlier.len() ==> earlier[i] == event);
            if !is_acknowledged(event, checkpoint) {
                assert(kept[kept.len() - 1] == event);
            }
        }
    }
}

/// An event is pending if and only if it is in the history of its actor.
pub(crate) proof fn lemma_pending_event(actors: NameModel<ActorRuntimeStateView>, event: EventWrapperView)
    requires
        actors.valid(),
        histories_in_order(actors),
    ensures
        pending_events(actors, actors.order).contains(event) <==> {
            let actor_id = event.checkpoint.actor_id;
            actors.has(actor_id) && actors.at(actor_id).event_history.contains(event)
        },
{
    assert forall|i: int| 0 <= i < actors.order.len() implies actors.has(#[trigger] actors.order[i]) by {
        assert(actors.order.contains(actors.order[i]));
    }
    lemma_pending_event_among(actors, actors.order, event);
    let actor_id = event.checkpoint.actor_id;
    if actors.has(actor_id) {
        assert(actors.order.contains(actor_id));
    }
}

proof fn lemma_pending_event_among(
    actors: NameModel<ActorRuntimeStateView>,
    names: Seq<Seq<char>>,
    event: EventWrapperView,
)
    requires
        histories_in_order(actors),
        forall|i: int| 0 <= i < names.len() ==> actors.has(#[trigger] names[i]),
    ensures
        pending_events(actors, names).contains(event) <==> {
            let actor_id = event.checkpoint.actor_id;
            names.contains(actor_id) && actors.at(actor_id).event_history.contains(event)
        },
    decreases names.len(),
{
    let actor_id = event.checkpoint.actor_id;
    if names.len() > 0 {
        let earlier = pending_events(actors, names.drop_last());
        let history = actors.at(names.last()).event_history;
        let whole = pending_events(actors, names);
        assert(actors.has(names[names.len() - 1]));
        lemma_pending_event_among(actors, names.drop_last(), event);
        assert(names =~= names.drop_last().push(names.last()));
        if whole.contains(event) {
            let i = whole.index_of(event);
            if i < earlier.len() {
                assert(earlier[i] == event);
                let j = names.drop_last().index_of(actor_id);
                assert(names[j] == actor_id);
            } else {
                assert(history[i - earlier.len()] == event);
                assert(names[names.len() - 1] == actor_id);
            }
        }
        if names.contains(actor_id) && actors.at(actor_id).event_history.contains(event) {
            let j = names.index_of(actor_id);
            if j < names.len() - 1 {
                assert(names.drop_last()[j] == actor_id);
                let i = earlier.index_of(event);
                assert(whole[i] == event);
            } else {
                let i = history.index_of(event);
                assert(whole[earlier.len() + i] == event);
            }
        }
    }
}

} // verus!
