//! The key-value store of an actor, value by value.

use super::sending::{law_message_is_queued_last, queue_with, sending};
use crate::actions::IncomingActionView;
use crate::error::{KvOperation, RunnerErrorView};
use crate::kv::{
    done, got_values, listed_entries, number_read, paired, put_request, received_response, value_of, KvReplyView,
};
use crate::protocol::{KvRequestDataView, KvResponseDataView, ToClientView, ToServerView};
use crate::state::RunnerModel;
use vstd::bytes::{spec_u64_from_le_bytes, spec_u64_to_le_bytes};
use vstd::prelude::*;

verus! {

/// Whether `place` is the first place of a key.
pub open spec fn is_first_place(keys: Seq<Seq<u8>>, place: int, key: Seq<u8>) -> bool {
    &&& 0 <= place < keys.len()
    &&& keys[place] == key
    &&& forall|j: int| 0 <= j < place ==> #[trigger] keys[j] != key
}

proof fn lemma_value_of(keys: Seq<Seq<u8>>, values: Seq<Seq<u8>>, key: Seq<u8>, place: int)
    ensures
        is_first_place(keys, place, key) && place < values.len() ==> value_of(keys, values, key) == Some(values[place]),
        is_first_place(keys, place, key) && place >= values.len() ==> value_of(keys, values, key) is None,
        !keys.contains(key) ==> value_of(keys, values, key) is None,
    decreases keys.len(),
{
    if keys.len() > 0 && values.len() > 0 {
        let rest = keys.skip(1);
        assert forall|i: int| 0 <= i < rest.len() implies #[trigger] rest[i] == keys[i + 1] by {}
        lemma_value_of(rest, values.skip(1), key, place - 1);
        assert(keys.contains(keys[0]));
        if rest.contains(key) {
            let i = rest.index_of(key);
            assert(keys[i + 1] == key);
        }
        if place > 0 && is_first_place(keys, place, key) {
            assert(keys[0] != key);
            assert(is_first_place(rest, place - 1, key));
        }
    }
}

/// Reading gives one result per requested key. Whatever the other keys are, each result stands at
/// the place of its request: the value at the key's first place in the reply, and none where the
/// reply lacks the key or has no value at that place.
pub proof fn law_every_key_is_read_for_itself(
    requested: Seq<Seq<u8>>,
    keys: Seq<Seq<u8>>,
    values: Seq<Seq<u8>>,
)
    ensures
        ({
            let got = got_values(requested, KvResponseDataView::Get { keys: keys, values: values });
            &&& got is Ok
            &&& got->Ok_0.len() == requested.len()
            &&& forall|i: int, place: int|
                0 <= i < requested.len() && #[trigger] is_first_place(keys, place, requested[i]) && place < values.len()
                    ==> #[trigger] got->Ok_0[i] == Some(values[place])
            &&& forall|i: int, place: int|
                0 <= i < requested.len() && #[trigger] is_first_place(keys, place, requested[i]) && place
                    >= values.len() ==> (#[trigger] got->Ok_0[i]) is None
            &&& forall|i: int|
                0 <= i < requested.len() && !keys.contains(requested[i]) ==> (#[trigger] got->Ok_0[i]) is None
        }),
{
    let got = got_values(requested, KvResponseDataView::Get { keys: keys, values: values });
    assert forall|i: int, place: int|
        0 <= i < requested.len() && #[trigger] is_first_place(keys, place, requested[i]) implies (if place
        < values.len() {
        #[trigger] got->Ok_0[i] == Some(values[place])
    } else {
        got->Ok_0[i] is None
    }) by {
        lemma_value_of(keys, values, requested[i], place);
    }
    assert forall|i: int|
        0 <= i < requested.len() && !keys.contains(requested[i]) implies (#[trigger] got->Ok_0[i]) is None by {
        lemma_value_of(keys, values, requested[i], 0);
    }
}

/// What one key reads is the same whichever other keys are read with it.
pub proof fn law_reading_does_not_depend_on_other_keys(
    first: Seq<Seq<u8>>,
    second: Seq<Seq<u8>>,
    response: KvResponseDataView,
    i: int,
    j: int,
)
    requires
        response is Get,
        0 <= i < first.len(),
        0 <= j < second.len(),
        first[i] == second[j],
    ensures
        got_values(first, response)->Ok_0[i] == got_values(second, response)->Ok_0[j],
{
}

/// Listing gives every key of the reply with the value at its place, as far as there are both.
pub proof fn law_every_entry_is_listed(keys: Seq<Seq<u8>>, values: Seq<Seq<u8>>)
    ensures
        ({
            let listed = listed_entries(KvResponseDataView::List { keys: keys, values: values });
            &&& listed is Ok
            &&& listed->Ok_0.len() <= keys.len()
            &&& listed->Ok_0.len() <= values.len()
            &&& listed->Ok_0.len() == keys.len() || listed->Ok_0.len() == values.len()
            &&& forall|i: int|
                0 <= i < listed->Ok_0.len() ==> (#[trigger] listed->Ok_0[i]).0 == keys[i] && listed->Ok_0[i].1
                    == values[i]
            &&& paired(keys, values) == listed->Ok_0
        }),
{
}

/// A reply that does not fit what was asked is an error: with the store's own message where the
/// reply is one, and else with the reply itself. A reply that fits is none.
pub proof fn law_unfit_replies(requested: Seq<Seq<u8>>, response: KvResponseDataView, message: Seq<char>)
    ensures
        !(response is Get) && !(response is Error) ==> got_values(requested, response) == Err::<
            Seq<Option<Seq<u8>>>,
            RunnerErrorView,
        >(RunnerErrorView::UnexpectedKvResponse { operation: KvOperation::Get, response: response }),
        !(response is List) && !(response is Error) ==> listed_entries(response) == Err::<
            Seq<(Seq<u8>, Seq<u8>)>,
            RunnerErrorView,
        >(RunnerErrorView::UnexpectedKvResponse { operation: KvOperation::List, response: response }),
        response == (KvResponseDataView::Error { message: message }) ==> {
            &&& got_values(requested, response) == Err::<Seq<Option<Seq<u8>>>, RunnerErrorView>(
                RunnerErrorView::KvFailed { operation: KvOperation::Get, message: message },
            )
            &&& listed_entries(response) == Err::<Seq<(Seq<u8>, Seq<u8>)>, RunnerErrorView>(
                RunnerErrorView::KvFailed { operation: KvOperation::List, message: message },
            )
        },
{
}

/// An operation without a result succeeds exactly on the reply that is expected; else the error
/// names the operation and holds the store's message or the reply.
pub proof fn law_operations_without_a_result(
    operation: KvOperation,
    expected: KvResponseDataView,
    response: KvResponseDataView,
)
    ensures
        done(operation, expected, response) is Ok <==> response == expected,
        response != expected ==> (match response {
            KvResponseDataView::Error { message } => done(operation, expected, response) == Err::<(), RunnerErrorView>(
                RunnerErrorView::KvFailed { operation: operation, message: message },
            ),
            _ => done(operation, expected, response) == Err::<(), RunnerErrorView>(
                RunnerErrorView::UnexpectedKvResponse { operation: operation, response: response },
            ),
        }),
{
}

/// The request that writes entries has the key and the value of every entry at the entry's place.
pub proof fn law_every_entry_is_written(entries: Seq<(Seq<u8>, Seq<u8>)>)
    ensures
        put_request(entries) is Put,
        put_request(entries)->Put_keys.len() == entries.len(),
        put_request(entries)->Put_values.len() == entries.len(),
        forall|i: int| 0 <= i < entries.len() ==> #[trigger] put_request(entries)->Put_keys[i] == entries[i].0,
        forall|i: int| 0 <= i < entries.len() ==> #[trigger] put_request(entries)->Put_values[i] == entries[i].1,
{
}

/// Waiting for a reply gives the reply, or says that it came too late or can no longer come.
pub proof fn law_reply_or_reason(data: KvResponseDataView)
    ensures
        received_response(KvReplyView::Response(data)) == Ok::<KvResponseDataView, RunnerErrorView>(data),
        received_response(KvReplyView::TimedOut) == Err::<KvResponseDataView, RunnerErrorView>(
            RunnerErrorView::KvTimedOut,
        ),
        received_response(KvReplyView::ChannelClosed) == Err::<KvResponseDataView, RunnerErrorView>(
            RunnerErrorView::KvChannelClosed,
        ),
{
}

/// The number of a value is read from its eight bytes, whatever stands behind it; no value gives no
/// number, and a value of another length is an error that tells the length. Every number is read
/// from the eight bytes it is written as.
pub proof fn law_number_of_a_value(values: Seq<Option<Seq<u8>>>, number: u64)
    ensures
        values.len() == 0 ==> number_read(values) == Ok::<Option<u64>, RunnerErrorView>(None),
        values.len() > 0 && values[0] is None ==> number_read(values) == Ok::<Option<u64>, RunnerErrorView>(None),
        values.len() > 0 && values[0] is Some && values[0]->0.len() == 8 ==> number_read(values) == Ok::<
            Option<u64>,
            RunnerErrorView,
        >(Some(spec_u64_from_le_bytes(values[0]->0))),
        values.len() > 0 && values[0] is Some && values[0]->0.len() != 8 ==> number_read(values) == Err::<
            Option<u64>,
            RunnerErrorView,
        >(RunnerErrorView::KvValueLength { length: values[0]->0.len() as usize }),
        values.len() > 0 && values[0] == Some(spec_u64_to_le_bytes(number)) ==> number_read(values) == Ok::<
            Option<u64>,
            RunnerErrorView,
        >(Some(number)),
{
    vstd::bytes::lemma_auto_spec_u64_to_from_le_bytes();
}

/// A request to the store is sent with the actor's id, the data and the next number, which is then
/// waited for and used up. The caller gets the number where the request could be sent.
pub proof fn law_store_request_is_sent(model: RunnerModel, actor_id: Seq<char>, data: KvRequestDataView)
    ensures
        ({
            let number = model.next_kv_request_id;
            let after = model.kv_requested(actor_id, data);
            &&& after == (RunnerModel {
                outbox: queue_with(
                    model,
                    ToServerView::KvRequest { actor_id: actor_id, request_id: number, data: data },
                ),
                next_kv_request_id: if number == u32::MAX {
                    0
                } else {
                    (number + 1) as u32
                },
                pending_kv_requests: model.pending_kv_requests.insert(number),
                ..model
            })
            &&& sending(model) is Ok ==> model.kv_request_outcome() == Ok::<u32, RunnerErrorView>(number)
            &&& sending(model) is Err ==> model.kv_request_outcome() == Err::<u32, RunnerErrorView>(
                sending(model)->Err_0,
            )
        }),
{
    let number = model.next_kv_request_id;
    let noted = RunnerModel {
        next_kv_request_id: ((number + 1) % 4294967296) as u32,
        pending_kv_requests: model.pending_kv_requests.insert(number),
        ..model
    };
    law_message_is_queued_last(
        noted,
        ToServerView::KvRequest { actor_id: actor_id, request_id: number, data: data },
    );
    law_message_is_queued_last(model, ToServerView::Stopping);
}

/// A reply of the store is handed on with its number and its data where the number is waited for,
/// and only once; any other reply is dropped.
pub proof fn law_store_reply_is_handed_on(model: RunnerModel, request_id: u32, data: KvResponseDataView)
    ensures
        ({
            let message = ToClientView::KvResponse { request_id: request_id, data: data };
            &&& model.received(message) == (RunnerModel {
                pending_kv_requests: model.pending_kv_requests.remove(request_id),
                ..model
            })
            &&& model.kv_responded(request_id) == model.received(message)
            &&& model.pending_kv_requests.contains(request_id) ==> model.incoming_action(message) == (
            IncomingActionView::KvReply { request_id: request_id, data: data })
            &&& !model.pending_kv_requests.contains(request_id) ==> model.incoming_action(message)
                == IncomingActionView::Nothing
            &&& model.received(message).incoming_action(message) == IncomingActionView::Nothing
        }),
{
}

} // verus!
