//! Events and commands that are acknowledged, and requests about actors, field by field.

use super::sending::{after_event, law_event_is_kept_and_sent, law_message_is_queued_last, queue_with, sending};
use crate::error::RunnerErrorView;
use crate::events::{
    acknowledged_actor, command_checkpoints, first_for, is_acknowledged, lemma_unacknowledged_contains,
    lemma_unacknowledged_in_order, pending_events, unacknowledged,
};
use crate::names::NameModel;
use crate::protocol::{ActorCheckpointView, EventView, EventWrapperView, ToServerView};
use crate::runtime::ActorRuntimeStateView;
use crate::state::{histories_in_order, history_in_order, RunnerModel};
use vstd::prelude::*;

verus! {

/// Whether the checkpoint at a place covers an event: it is of the event's actor and generation, and
/// its number is not below that of the event.
pub open spec fn covers(checkpoint: ActorCheckpointView, event: EventWrapperView) -> bool {
    &&& checkpoint.actor_id == event.checkpoint.actor_id
    &&& checkpoint.generation == event.checkpoint.generation
    &&& checkpoint.index >= event.checkpoint.index
}

/// Whether a place holds the first checkpoint of an actor.
pub open spec fn is_first_of(checkpoints: Seq<ActorCheckpointView>, place: int, actor_id: Seq<char>) -> bool {
    &&& 0 <= place < checkpoints.len()
    &&& checkpoints[place].actor_id == actor_id
    &&& forall|j: int| 0 <= j < place ==> (#[trigger] checkpoints[j]).actor_id != actor_id
}

proof fn lemma_first_for(checkpoints: Seq<ActorCheckpointView>, actor_id: Seq<char>)
    ensures
        match first_for(checkpoints, actor_id) {
            Some(found) => exists|place: int| #[trigger]
                is_first_of(checkpoints, place, actor_id) && checkpoints[place] == found,
            None => forall|i: int| 0 <= i < checkpoints.len() ==> (#[trigger] checkpoints[i]).actor_id != actor_id,
        },
    decreases checkpoints.len(),
{
    if checkpoints.len() > 0 {
        if checkpoints[0].actor_id == actor_id {
            assert(is_first_of(checkpoints, 0, actor_id));
        } else {
            let rest = checkpoints.skip(1);
            lemma_first_for(rest, actor_id);
            match first_for(rest, actor_id) {
                Some(found) => {
                    let place = choose|place: int| #[trigger]
                        is_first_of(rest, place, actor_id) && rest[place] == found;
                    assert forall|j: int| 0 <= j < place + 1 implies (#[trigger] checkpoints[j]).actor_id != actor_id by {
                        if j > 0 {
                            assert(rest[j - 1] == checkpoints[j]);
                        }
                    }
                    assert(is_first_of(checkpoints, place + 1, actor_id));
                },
                None => {
                    assert forall|i: int| 0 <= i < checkpoints.len() implies (#[trigger] checkpoints[i]).actor_id
                        != actor_id by {
                        if i > 0 {
                            assert(rest[i - 1] == checkpoints[i]);
                        }
                    }
                },
            }
        }
    }
}

proof fn lemma_same_first(checkpoints: Seq<ActorCheckpointView>, place: int, actor_id: Seq<char>)
    requires
        is_first_of(checkpoints, place, actor_id),
    ensures
        first_for(checkpoints, actor_id) == Some(checkpoints[place]),
{
    lemma_first_for(checkpoints, actor_id);
    match first_for(checkpoints, actor_id) {
        Some(found) => {
            let other = choose|other: int| #[trigger]
                is_first_of(checkpoints, other, actor_id) && checkpoints[other] == found;
            assert(other == place) by {
                if other < place {
                    assert(checkpoints[other].actor_id != actor_id);
                }
                if place < other {
                    assert(checkpoints[place].actor_id != actor_id);
                }
            }
        },
        None => {
            assert(checkpoints[place].actor_id != actor_id);
        },
    }
}

/// An acknowledgement takes from the history of each actor exactly the events that the actor's first
/// checkpoint covers, wherever in the list it stands. An actor that no checkpoint names keeps its
/// whole history. What is left keeps its order, and nothing else of the actor or the runner changes.
pub proof fn law_acknowledgement_takes_what_is_covered(
    model: RunnerModel,
    checkpoints: Seq<ActorCheckpointView>,
    actor_id: Seq<char>,
    place: int,
)
    requires
        histories_in_order(model.actors),
        model.actors.map.dom().contains(actor_id),
    ensures
        ({
            let after = model.events_acknowledged(checkpoints);
            let before = model.actors.map[actor_id];
            let left = after.actors.map[actor_id].event_history;
            &&& after == (RunnerModel { actors: after.actors, ..model })
            &&& after.actors.order == model.actors.order
            &&& after.actors.map.dom() == model.actors.map.dom()
            &&& after.actors.map[actor_id] == (ActorRuntimeStateView { event_history: left, ..before })
            &&& forall|i: int, j: int|
                0 <= i < j < left.len() ==> (#[trigger] left[i]).checkpoint.index < (
                #[trigger] left[j]).checkpoint.index
            &&& (forall|i: int| 0 <= i < checkpoints.len() ==> (#[trigger] checkpoints[i]).actor_id != actor_id)
                ==> left == before.event_history
            &&& is_first_of(checkpoints, place, actor_id) ==> forall|event: EventWrapperView| #[trigger]
                left.contains(event) <==> before.event_history.contains(event) && !covers(checkpoints[place], event)
        }),
{
    let after = model.events_acknowledged(checkpoints);
    let before = model.actors.map[actor_id];
    let history = before.event_history;
    assert(after.actors.map.dom() =~= model.actors.map.dom());
    assert(model.actors.has(actor_id));
    assert(history_in_order(actor_id, before));
    assert(after.actors.map[actor_id] == acknowledged_actor(actor_id, before, checkpoints));
    lemma_first_for(checkpoints, actor_id);
    if let Some(found) = first_for(checkpoints, actor_id) {
        lemma_unacknowledged_in_order(actor_id, history, before.next_event_idx as int, found);
    }
    if is_first_of(checkpoints, place, actor_id) {
        lemma_same_first(checkpoints, place, actor_id);
        let left = after.actors.map[actor_id].event_history;
        assert forall|event: EventWrapperView| #[trigger] left.contains(event) <==> history.contains(event) && !covers(
            checkpoints[place],
            event,
        ) by {
            lemma_unacknowledged_contains(history, event, checkpoints[place]);
            if history.contains(event) {
                let i = history.index_of(event);
                assert(history[i].checkpoint.actor_id == actor_id);
            }
        }
    } else if first_for(checkpoints, actor_id) is Some {
        let found = choose|other: int| #[trigger] is_first_of(checkpoints, other, actor_id);
        assert(checkpoints[found].actor_id == actor_id);
    }
}

/// After an acknowledgement that names each actor at most once, no event that is left is covered by
/// any checkpoint of the acknowledgement, and every event that is gone is covered by one.
pub proof fn law_covered_events_are_gone(model: RunnerModel, checkpoints: Seq<ActorCheckpointView>, actor_id: Seq<char>)
    requires
        histories_in_order(model.actors),
        model.actors.map.dom().contains(actor_id),
        forall|i: int, j: int|
            0 <= i < j < checkpoints.len() ==> (#[trigger] checkpoints[i]).actor_id != (
            #[trigger] checkpoints[j]).actor_id,
    ensures
        ({
            let left = model.events_acknowledged(checkpoints).actors.map[actor_id].event_history;
            let history = model.actors.map[actor_id].event_history;
            &&& forall|event: EventWrapperView, i: int|
                #![trigger left.contains(event), checkpoints[i]]
                0 <= i < checkpoints.len() && left.contains(event) ==> !covers(checkpoints[i], event)
            &&& forall|event: EventWrapperView|
                #![trigger left.contains(event)]
                history.contains(event) && !left.contains(event) ==> exists|i: int|
                    0 <= i < checkpoints.len() && covers(#[trigger] checkpoints[i], event)
            &&& forall|event: EventWrapperView| #[trigger] left.contains(event) ==> history.contains(event)
        }),
{
    let after = model.events_acknowledged(checkpoints);
    let left = after.actors.map[actor_id].event_history;
    let history = model.actors.map[actor_id].event_history;
    lemma_first_for(checkpoints, actor_id);
    assert(model.actors.has(actor_id));
    assert(history_in_order(actor_id, model.actors.map[actor_id]));
    match first_for(checkpoints, actor_id) {
        None => {
            law_acknowledgement_takes_what_is_covered(model, checkpoints, actor_id, 0);
            assert forall|event: EventWrapperView, i: int|
                #![trigger left.contains(event), checkpoints[i]]
                0 <= i < checkpoints.len() && left.contains(event) implies !covers(checkpoints[i], event) by {
                assert(history[history.index_of(event)].checkpoint.actor_id == actor_id);
            }
        },
        Some(found) => {
            let place = choose|place: int| #[trigger]
                is_first_of(checkpoints, place, actor_id) && checkpoints[place] == found;
            law_acknowledgement_takes_what_is_covered(model, checkpoints, actor_id, place);
            assert forall|event: EventWrapperView, i: int|
                #![trigger left.contains(event), checkpoints[i]]
                0 <= i < checkpoints.len() && left.contains(event) implies !covers(checkpoints[i], event) by {
                assert(history.contains(event));
                assert(history[history.index_of(event)].checkpoint.actor_id == actor_id);
                if covers(checkpoints[i], event) {
                    assert(checkpoints[i].actor_id == checkpoints[place].actor_id);
                    assert(i == place);
                }
            }
        },
    }
}

/// How many events the first of some actors have pending.
pub open spec fn events_before(actors: NameModel<ActorRuntimeStateView>, place: int) -> int
    decreases place,
{
    if place <= 0 {
        0
    } else {
        events_before(actors, place - 1) + actors.map[actors.order[place - 1]].event_history.len()
    }
}

proof fn lemma_pending_up_to(actors: NameModel<ActorRuntimeStateView>, count: int, place: int)
    requires
        0 <= count <= actors.order.len(),
    ensures
        pending_events(actors, actors.order.take(count)).len() == events_before(actors, count),
        0 <= place < count ==> {
            let history = actors.map[actors.order[place]].event_history;
            let from = events_before(actors, place);
            &&& 0 <= from
            &&& from + history.len() <= events_before(actors, count)
            &&& pending_events(actors, actors.order.take(count)).subrange(from, from + history.len()) == history
        },
    decreases count,
{
    if count > 0 {
        let names = actors.order.take(count);
        assert(names.drop_last() =~= actors.order.take(count - 1));
        lemma_pending_up_to(actors, count - 1, place);
        let earlier = pending_events(actors, names.drop_last());
        let last = actors.map[actors.order[count - 1]].event_history;
        let whole = pending_events(actors, names);
        assert(whole == earlier + last);
        if 0 <= place < count {
            let history = actors.map[actors.order[place]].event_history;
            let from = events_before(actors, place);
            assert(whole.subrange(from, from + history.len()) =~= history);
        }
    }
}

/// What is sent again are the histories of all actors, one after the other in the order of the
/// actors, each whole and in its own order, and nothing besides. Where there is nothing to send,
/// nothing is sent, and that is no error.
pub proof fn law_every_history_is_resent(model: RunnerModel, place: int)
    ensures
        model.pending_events().len() == events_before(model.actors, model.actors.order.len() as int),
        0 <= place < model.actors.order.len() ==> {
            let history = model.actors.map[model.actors.order[place]].event_history;
            let from = events_before(model.actors, place);
            &&& 0 <= from
            &&& from + history.len() <= model.pending_events().len()
            &&& model.pending_events().subrange(from, from + history.len()) == history
        },
        model.pending_events().len() == 0 ==> model.resent() == model && model.resend_outcome() == Ok::<
            (),
            RunnerErrorView,
        >(()),
        model.pending_events().len() > 0 ==> {
            &&& model.resent() == (RunnerModel {
                outbox: queue_with(model, ToServerView::Events(model.pending_events())),
                ..model
            })
            &&& model.resend_outcome() == sending(model)
        },
{
    let count = model.actors.order.len() as int;
    assert(model.actors.order.take(count) =~= model.actors.order);
    lemma_pending_up_to(model.actors, count, place);
    law_message_is_queued_last(model, ToServerView::Events(model.pending_events()));
}

proof fn lemma_checkpoints_of(actors: NameModel<ActorRuntimeStateView>, names: Seq<Seq<char>>)
    requires
        names.no_duplicates(),
    ensures
        ({
            let found = command_checkpoints(actors, names);
            &&& forall|i: int|
                0 <= i < found.len() ==> {
                    &&& names.contains((#[trigger] found[i]).actor_id)
                    &&& actors.map[found[i].actor_id].last_command_idx >= 0
                    &&& found[i].generation == actors.map[found[i].actor_id].generation
                    &&& found[i].index == actors.map[found[i].actor_id].last_command_idx
                }
            &&& forall|i: int, j: int|
                0 <= i < j < found.len() ==> (#[trigger] found[i]).actor_id != (#[trigger] found[j]).actor_id
            &&& forall|name: Seq<char>|
                #![trigger names.contains(name)]
                names.contains(name) && actors.map[name].last_command_idx >= 0 ==> exists|i: int|
                    0 <= i < found.len() && (#[trigger] found[i]).actor_id == name
        }),
    decreases names.len(),
{
    if names.len() > 0 {
        let front = names.drop_last();
        lemma_checkpoints_of(actors, front);
        let earlier = command_checkpoints(actors, front);
        let found = command_checkpoints(actors, names);
        assert(names =~= front.push(names.last()));
        assert(names[names.len() - 1] == names.last());
        assert forall|i: int| 0 <= i < earlier.len() implies found[i] == #[trigger] earlier[i] by {}
        assert forall|i: int| 0 <= i < earlier.len() implies names.contains((#[trigger] earlier[i]).actor_id)
            && earlier[i].actor_id != names.last() by {
            let at = front.index_of(earlier[i].actor_id);
            assert(names[at] == earlier[i].actor_id);
        }
        assert forall|name: Seq<char>|
            #![trigger names.contains(name)]
            names.contains(name) && actors.map[name].last_command_idx >= 0 implies exists|i: int|
            0 <= i < found.len() && (#[trigger] found[i]).actor_id == name by {
            let at = names.index_of(name);
            if at < front.len() {
                assert(front[at] == name);
                assert(front.contains(name));
                let i = choose|i: int| 0 <= i < earlier.len() && (#[trigger] earlier[i]).actor_id == name;
                assert(found[i].actor_id == name);
            } else {
                assert(found[found.len() - 1].actor_id == name);
            }
        }
    }
}

/// The acknowledgement of commands names every known actor that has had a command, once, with its
/// generation and the number of its last command, and no other actor. It is sent even if it names
/// none.
pub proof fn law_every_command_is_acknowledged(model: RunnerModel)
    requires
        model.actors.valid(),
    ensures
        exists|named: Seq<ActorCheckpointView>|
            {
                &&& model.commands_acknowledged() == (RunnerModel {
                    outbox: #[trigger] queue_with(
                        model,
                        ToServerView::AckCommands { last_command_checkpoints: named },
                    ),
                    ..model
                })
                &&& forall|i: int|
                    0 <= i < named.len() ==> {
                        &&& model.actors.map.dom().contains((#[trigger] named[i]).actor_id)
                        &&& named[i].generation == model.actors.map[named[i].actor_id].generation
                        &&& named[i].index == model.actors.map[named[i].actor_id].last_command_idx
                        &&& named[i].index >= 0
                    }
                &&& forall|i: int, j: int|
                    0 <= i < j < named.len() ==> (#[trigger] named[i]).actor_id != (#[trigger] named[j]).actor_id
                &&& forall|actor_id: Seq<char>|
                    #![trigger model.actors.map.dom().contains(actor_id)]
                    model.actors.map.dom().contains(actor_id) && model.actors.map[actor_id].last_command_idx >= 0
                        ==> exists|i: int| 0 <= i < named.len() && (#[trigger] named[i]).actor_id == actor_id
            },
{
    let named = command_checkpoints(model.actors, model.actors.order);
    lemma_checkpoints_of(model.actors, model.actors.order);
    let message = ToServerView::AckCommands { last_command_checkpoints: named };
    law_message_is_queued_last(model, message);
    assert(model.commands_acknowledged() == (RunnerModel { outbox: queue_with(model, message), ..model }));
    assert forall|i: int| 0 <= i < named.len() implies model.actors.map.dom().contains(
        (#[trigger] named[i]).actor_id,
    ) by {
        assert(model.actors.map.contains_key(named[i].actor_id) <==> model.actors.order.contains(named[i].actor_id));
    }
    assert forall|actor_id: Seq<char>|
        #![trigger model.actors.map.dom().contains(actor_id)]
        model.actors.map.dom().contains(actor_id) && model.actors.map[actor_id].last_command_idx >= 0 implies exists|
        i: int,
    | 0 <= i < named.len() && (#[trigger] named[i]).actor_id == actor_id by {
        assert(model.actors.map.contains_key(actor_id) <==> model.actors.order.contains(actor_id));
    }
}

/// A request about an actor is taken for the generation that the actor has: where no generation is
/// given or that one is, the event is emitted for it; where another is given, or the actor is not
/// known, nothing changes and the error says which.
pub proof fn law_request_speaks_of_the_actors_generation(
    model: RunnerModel,
    actor_id: Seq<char>,
    generation: Option<u32>,
    event: EventView,
)
    ensures
        ({
            let known = model.actors.map.dom().contains(actor_id);
            let own = model.actors.map[actor_id].generation;
            let meant = generation is None || generation == Some(own);
            &&& known && meant ==> {
                &&& model.requested(actor_id, generation, event) == after_event(model, actor_id, own, event)
                &&& model.request_outcome(actor_id, generation) == sending(model)
                &&& model.resolved_generation(actor_id, generation) == Ok::<u32, RunnerErrorView>(own)
            }
            &&& known && !meant ==> {
                let error = RunnerErrorView::GenerationExpected { expected: own, got: generation->0 };
                &&& model.requested(actor_id, generation, event) == model
                &&& model.request_outcome(actor_id, generation) == Err::<(), RunnerErrorView>(error)
                &&& model.resolved_generation(actor_id, generation) == Err::<u32, RunnerErrorView>(error)
            }
            &&& !known ==> {
                let error = RunnerErrorView::ActorNotFound { actor_id: actor_id };
                &&& model.requested(actor_id, generation, event) == model
                &&& model.request_outcome(actor_id, generation) == Err::<(), RunnerErrorView>(error)
                &&& model.resolved_generation(actor_id, generation) == Err::<u32, RunnerErrorView>(error)
            }
        }),
{
    let own = model.actors.map[actor_id].generation;
    law_event_is_kept_and_sent(model, actor_id, own, event);
    law_message_is_queued_last(model, ToServerView::Stopping);
}

/// Whether an event is acknowledged is decided by its generation and its number alone, and what is
/// left of a history is what is not acknowledged.
pub proof fn law_acknowledged_by_generation_and_number(
    events: Seq<EventWrapperView>,
    event: EventWrapperView,
    checkpoint: ActorCheckpointView,
)
    ensures
        is_acknowledged(event, checkpoint) <==> event.checkpoint.generation == checkpoint.generation
            && event.checkpoint.index <= checkpoint.index,
        unacknowledged(events, checkpoint).contains(event) <==> events.contains(event) && (
        event.checkpoint.generation != checkpoint.generation || event.checkpoint.index > checkpoint.index),
{
    lemma_unacknowledged_contains(events, event, checkpoint);
}

} // verus!
