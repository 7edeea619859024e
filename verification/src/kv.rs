//! The key-value store of an actor.

use crate::duplicate::{lemma_bytes_deep_view, Duplicate};
use crate::error::{outcome, KvOperation, RunnerError, RunnerErrorView};
use crate::protocol::{
    KvListQuery, KvListQueryView, KvRequestData, KvRequestDataView, KvResponseData, KvResponseDataView, ToServer,
    ToServerView,
};
use crate::state::{RunnerInner, RunnerModel};
use vstd::bytes::{spec_u64_from_le_bytes, spec_u64_to_le_bytes, u64_from_le_bytes, u64_to_le_bytes};
use vstd::prelude::*;

verus! {

/// What came of waiting for a reply of the store.
pub enum KvReply {
    Response(KvResponseData),
    TimedOut,
    ChannelClosed,
}

/// The contents of a [`KvReply`].
#[verifier::ext_equal]
pub enum KvReplyView {
    Response(KvResponseDataView),
    TimedOut,
    ChannelClosed,
}

impl DeepView for KvReply {
    type V = KvReplyView;

    open spec fn deep_view(&self) -> KvReplyView {
        match self {
            KvReply::Response(data) => KvReplyView::Response(data.deep_view()),
            KvReply::TimedOut => KvReplyView::TimedOut,
            KvReply::ChannelClosed => KvReplyView::ChannelClosed,
        }
    }
}

/// The reply of the store, or why there is none.
pub open spec fn received_response(reply: KvReplyView) -> Result<KvResponseDataView, RunnerErrorView> {
    match reply {
        KvReplyView::Response(data) => Ok(data),
        KvReplyView::TimedOut => Err(RunnerErrorView::KvTimedOut),
        KvReplyView::ChannelClosed => Err(RunnerErrorView::KvChannelClosed),
    }
}

/// What a reply that does not fit an operation gives.
pub open spec fn unfit_response(operation: KvOperation, response: KvResponseDataView) -> RunnerErrorView {
    match response {
        KvResponseDataView::Error { message } => RunnerErrorView::KvFailed { operation: operation, message: message },
        _ => RunnerErrorView::UnexpectedKvResponse { operation: operation, response: response },
    }
}

/// The value that stands at the place of the first occurrence of a key, if there is one.
pub open spec fn value_of(keys: Seq<Seq<u8>>, values: Seq<Seq<u8>>, key: Seq<u8>) -> Option<Seq<u8>>
    decreases keys.len(),
{
    if keys.len() == 0 || values.len() == 0 {
        None
    } else if keys[0] == key {
        Some(values[0])
    } else {
        value_of(keys.skip(1), values.skip(1), key)
    }
}

/// What reading some keys gives.
pub open spec fn got_values(requested: Seq<Seq<u8>>, response: KvResponseDataView) -> Result<
    Seq<Option<Seq<u8>>>,
    RunnerErrorView,
> {
    match response {
        KvResponseDataView::Get { keys, values } => Ok(
            requested.map_values(|key: Seq<u8>| value_of(keys, values, key)),
        ),
        _ => Err(unfit_response(KvOperation::Get, response)),
    }
}

/// Keys and values side by side, as far as there are both.
pub open spec fn paired(keys: Seq<Seq<u8>>, values: Seq<Seq<u8>>) -> Seq<(Seq<u8>, Seq<u8>)> {
    Seq::new(
        if keys.len() < values.len() {
            keys.len()
        } else {
            values.len()
        },
        |i: int| (keys[i], values[i]),
    )
}

/// What listing gives.
pub open spec fn listed_entries(response: KvResponseDataView) -> Result<Seq<(Seq<u8>, Seq<u8>)>, RunnerErrorView> {
    match response {
        KvResponseDataView::List { keys, values } => Ok(paired(keys, values)),
        _ => Err(unfit_response(KvOperation::List, response)),
    }
}

/// What an operation without a result gives.
pub open spec fn done(
    operation: KvOperation,
    expected: KvResponseDataView,
    response: KvResponseDataView,
) -> Result<(), RunnerErrorView> {
    if response == expected {
        Ok(())
    } else {
        Err(unfit_response(operation, response))
    }
}

/// The request that writes some entries.
pub open spec fn put_request(entries: Seq<(Seq<u8>, Seq<u8>)>) -> KvRequestDataView {
    KvRequestDataView::Put {
        keys: entries.map_values(|entry: (Seq<u8>, Seq<u8>)| entry.0),
        values: entries.map_values(|entry: (Seq<u8>, Seq<u8>)| entry.1),
    }
}

/// The number that the first of some values holds: eight bytes, the lowest first.
pub open spec fn number_read(values: Seq<Option<Seq<u8>>>) -> Result<Option<u64>, RunnerErrorView> {
    if values.len() == 0 || values[0] is None {
        Ok(None)
    } else if values[0]->0.len() != 8 {
        Err(RunnerErrorView::KvValueLength { length: values[0]->0.len() as usize })
    } else {
        Ok(Some(spec_u64_from_le_bytes(values[0]->0)))
    }
}

impl RunnerModel {
    /// With a request to the store sent. Its number is remembered, whether or not it could be sent.
    pub open spec fn kv_requested(self, actor_id: Seq<char>, data: KvRequestDataView) -> Self {
        RunnerModel {
            next_kv_request_id: ((self.next_kv_request_id + 1) % 4294967296) as u32,
            pending_kv_requests: self.pending_kv_requests.insert(self.next_kv_request_id),
            ..self
        }.sent(ToServerView::KvRequest { actor_id: actor_id, request_id: self.next_kv_request_id, data: data })
    }

    /// The number of a request to the store, where it could be sent.
    pub open spec fn kv_request_outcome(self) -> Result<u32, RunnerErrorView> {
        match self.send_outcome() {
            Ok(_) => Ok(self.next_kv_request_id),
            Err(error) => Err(error),
        }
    }

    /// After a reply of the store has arrived.
    pub open spec fn kv_responded(self, request_id: u32) -> Self {
        RunnerModel { pending_kv_requests: self.pending_kv_requests.remove(request_id), ..self }
    }
}

impl RunnerInner {
    /// Sends a request to the store of an actor. Gives the number under which the reply comes.
    pub fn send_kv_request(&mut self, actor_id: &str, data: KvRequestData) -> (request_id: Result<u32, RunnerError>)
        requires
            old(self).wf(),
        ensures
            final(self).wf(),
            final(self)@ == old(self)@.kv_requested(actor_id@, data.deep_view()),
            outcome(request_id) == old(self)@.kv_request_outcome(),
    {
        broadcast use vstd::std_specs::hash::group_hash_axioms;

        let request_id: u32 = self.next_kv_request_id;
        self.next_kv_request_id = request_id.wrapping_add(1);
        self.pending_kv_requests.insert(request_id);
        match self.send_to_server(ToServer::KvRequest { actor_id: actor_id.to_owned(), request_id, data }) {
            Ok(_) => Ok(request_id),
            Err(error) => Err(error),
        }
    }

    /// Receives a reply of the store. Gives it where someone may wait for it.
    pub fn handle_kv_response(&mut self, request_id: u32, data: KvResponseData) -> (reply: Option<KvResponseData>)
        requires
            old(self).wf(),
        ensures
            final(self).wf(),
            final(self)@ == old(self)@.kv_responded(request_id),
            reply.deep_view() == if old(self)@.pending_kv_requests.contains(request_id) {
                Some(data.deep_view())
            } else {
                None
            },
    {
        broadcast use vstd::std_specs::hash::group_hash_axioms;

        if self.pending_kv_requests.remove(&request_id) {
            Some(data)
        } else {
            None
        }
    }

    /// Asks for the values of some keys.
    pub fn kv_get(&mut self, actor_id: &str, keys: Vec<Vec<u8>>) -> (request_id: Result<u32, RunnerError>)
        requires
            old(self).wf(),
        ensures
            final(self).wf(),
            final(self)@ == old(self)@.kv_requested(actor_id@, KvRequestDataView::Get { keys: keys.deep_view() }),
            outcome(request_id) == old(self)@.kv_request_outcome(),
    {
        self.send_kv_request(actor_id, KvRequestData::Get { keys })
    }

    /// Asks for all entries.
    pub fn kv_list_all(&mut self, actor_id: &str, reverse: Option<bool>, limit: Option<u64>) -> (request_id: Result<
        u32,
        RunnerError,
    >)
        requires
            old(self).wf(),
        ensures
            final(self).wf(),
            final(self)@ == old(self)@.kv_requested(
                actor_id@,
                KvRequestDataView::List { query: KvListQueryView::All, reverse: reverse, limit: limit },
            ),
            outcome(request_id) == old(self)@.kv_request_outcome(),
    {
        self.kv_list(actor_id, KvListQuery::All, reverse, limit)
    }

    /// Asks for the entries whose key begins with a prefix.
    pub fn kv_list_prefix(
        &mut self,
        actor_id: &str,
        prefix: Vec<u8>,
        reverse: Option<bool>,
        limit: Option<u64>,
    ) -> (request_id: Result<u32, RunnerError>)
        requires
            old(self).wf(),
        ensures
            final(self).wf(),
            final(self)@ == old(self)@.kv_requested(
                actor_id@,
                KvRequestDataView::List {
                    query: KvListQueryView::Prefix { key: prefix.deep_view() },
                    reverse: reverse,
                    limit: limit,
                },
            ),
            outcome(request_id) == old(self)@.kv_request_outcome(),
    {
        self.kv_list(actor_id, KvListQuery::Prefix { key: prefix }, reverse, limit)
    }

    /// Asks for the entries whose key lies in a range.
    pub fn kv_list_range(
        &mut self,
        actor_id: &str,
        start: Vec<u8>,
        end: Vec<u8>,
        exclusive: bool,
        reverse: Option<bool>,
        limit: Option<u64>,
    ) -> (request_id: Result<u32, RunnerError>)
        requires
            old(self).wf(),
        ensures
            final(self).wf(),
            final(self)@ == old(self)@.kv_requested(
                actor_id@,
                KvRequestDataView::List {
                    query: KvListQueryView::Range {
                        start: start.deep_view(),
                        end: end.deep_view(),
                        exclusive: exclusive,
                    },
                    reverse: reverse,
                    limit: limit,
                },
            ),
            outcome(request_id) == old(self)@.kv_request_outcome(),
    {
        self.kv_list(actor_id, KvListQuery::Range { start, end, exclusive }, reverse, limit)
    }

    fn kv_list(&mut self, actor_id: &str, query: KvListQuery, reverse: Option<bool>, limit: Option<u64>) -> (request_id:
        Result<u32, RunnerError>)
        requires
            old(self).wf(),
        ensures
            final(self).wf(),
            final(self)@ == old(self)@.kv_requested(
                actor_id@,
                KvRequestDataView::List { query: query.deep_view(), reverse: reverse, limit: limit },
            ),
            outcome(request_id) == old(self)@.kv_request_outcome(),
    {
        self.send_kv_request(actor_id, KvRequestData::List { query, reverse, limit })
    }

    /// Asks for some entries to be written.
    pub fn kv_put(&mut self, actor_id: &str, entries: Vec<(Vec<u8>, Vec<u8>)>) -> (request_id: Result<u32, RunnerError>)
        requires
            old(self).wf(),
        ensures
            final(self).wf(),
            final(self)@ == old(self)@.kv_requested(actor_id@, put_request(entries.deep_view())),
            outcome(request_id) == old(self)@.kv_request_outcome(),
    {
        let mut keys: Vec<Vec<u8>> = Vec::new();
        let mut values: Vec<Vec<u8>> = Vec::new();
        for entry in it: entries
            invariant
                it.seq() == entries@,
                keys.len() == it.index(),
                values.len() == it.index(),
                forall|i: int| 0 <= i < it.index() ==> (#[trigger] keys@[i]) == entries@[i].0,
                forall|i: int| 0 <= i < it.index() ==> (#[trigger] values@[i]) == entries@[i].1,
        {
            let (key, value) = entry;
            keys.push(key);
            values.push(value);
        }
        proof {
            let written = entries.deep_view();
            assert forall|i: int| 0 <= i < written.len() implies #[trigger] written[i] == (
                entries@[i].0.deep_view(),
                entries@[i].1.deep_view(),
            ) by {}
            assert(keys.deep_view() =~= written.map_values(|entry: (Seq<u8>, Seq<u8>)| entry.0));
            assert(values.deep_view() =~= written.map_values(|entry: (Seq<u8>, Seq<u8>)| entry.1));
        }
        self.send_kv_request(actor_id, KvRequestData::Put { keys, values })
    }

    /// Asks for some keys to be deleted.
    pub fn kv_delete(&mut self, actor_id: &str, keys: Vec<Vec<u8>>) -> (request_id: Result<u32, RunnerError>)
        requires
            old(self).wf(),
        ensures
            final(self).wf(),
            final(self)@ == old(self)@.kv_requested(actor_id@, KvRequestDataView::Delete { keys: keys.deep_view() }),
            outcome(request_id) == old(self)@.kv_request_outcome(),
    {
        self.send_kv_request(actor_id, KvRequestData::Delete { keys })
    }

    /// Asks for the store to be dropped.
    pub fn kv_drop(&mut self, actor_id: &str) -> (request_id: Result<u32, RunnerError>)
        requires
            old(self).wf(),
        ensures
            final(self).wf(),
            final(self)@ == old(self)@.kv_requested(actor_id@, KvRequestDataView::Drop),
            outcome(request_id) == old(self)@.kv_request_outcome(),
    {
        self.send_kv_request(actor_id, KvRequestData::Drop)
    }
}

/// The reply of the store, or why there is none.
pub fn kv_response(reply: KvReply) -> (response: Result<KvResponseData, RunnerError>)
    ensures
        outcome(response) == received_response(reply.deep_view()),
{
    match reply {
        KvReply::Response(data) => Ok(data),
        KvReply::TimedOut => Err(RunnerError::KvTimedOut),
        KvReply::ChannelClosed => Err(RunnerError::KvChannelClosed),
    }
}

fn unfit(operation: KvOperation, response: KvResponseData) -> (error: RunnerError)
    ensures
        error.deep_view() == unfit_response(operation, response.deep_view()),
{
    match response {
        KvResponseData::Error { message } => RunnerError::KvFailed { operation, message },
        other => RunnerError::UnexpectedKvResponse { operation, response: other },
    }
}

fn same_bytes(first: &Vec<u8>, second: &Vec<u8>) -> (same: bool)
    ensures
        same == (first.deep_view() == second.deep_view()),
{
    broadcast use lemma_bytes_deep_view;

    if first.len() != second.len() {
        return false;
    }
    let mut at: usize = 0;
    while at < first.len()
        invariant
            at <= first.len(),
            first.len() == second.len(),
            forall|i: int| 0 <= i < at ==> first@[i] == second@[i],
        decreases first.len() - at,
    {
        if first[at] != second[at] {
            assert(first.deep_view()[at as int] != second.deep_view()[at as int]);
            return false;
        }
        at = at + 1;
    }
    assert(first@ =~= second@);
    true
}

fn find_value(keys: &Vec<Vec<u8>>, values: &Vec<Vec<u8>>, key: &Vec<u8>) -> (value: Option<Vec<u8>>)
    ensures
        value.deep_view() == value_of(keys.deep_view(), values.deep_view(), key.deep_view()),
{
    let ghost all_keys = keys.deep_view();
    let ghost all_values = values.deep_view();
    let mut at: usize = 0;
    assert(all_keys.skip(0) =~= all_keys);
    assert(all_values.skip(0) =~= all_values);
    while at < keys.len() && at < values.len()
        invariant
            at <= keys.len(),
            at <= values.len(),
            all_keys == keys.deep_view(),
            all_values == values.deep_view(),
            value_of(all_keys, all_values, key.deep_view()) == value_of(
                all_keys.skip(at as int),
                all_values.skip(at as int),
                key.deep_view(),
            ),
        decreases keys.len() - at,
    {
        proof {
            assert(all_keys.skip(at as int)[0] == keys@[at as int].deep_view());
            assert(all_values.skip(at as int)[0] == values@[at as int].deep_view());
            assert(all_keys.skip(at as int).skip(1) =~= all_keys.skip(at + 1));
            assert(all_values.skip(at as int).skip(1) =~= all_values.skip(at + 1));
        }
        if same_bytes(&keys[at], key) {
            return Some(values[at].duplicate());
        }
        at = at + 1;
    }
    None
}

/// What reading some keys gives.
pub fn kv_get_result(requested: &Vec<Vec<u8>>, response: KvResponseData) -> (values: Result<
    Vec<Option<Vec<u8>>>,
    RunnerError,
>)
    ensures
        outcome(values) == got_values(requested.deep_view(), response.deep_view()),
{
    match response {
        KvResponseData::Get { keys, values } => {
            let mut found: Vec<Option<Vec<u8>>> = Vec::new();
            let mut at: usize = 0;
            while at < requested.len()
                invariant
                    at <= requested.len(),
                    found.len() == at,
                    forall|i: int|
                        0 <= i < at ==> (#[trigger] found@[i]).deep_view() == value_of(
                            keys.deep_view(),
                            values.deep_view(),
                            requested@[i].deep_view(),
                        ),
                decreases requested.len() - at,
            {
                found.push(find_value(&keys, &values, &requested[at]));
                at = at + 1;
            }
            assert(found.deep_view() =~= requested.deep_view().map_values(
                |key: Seq<u8>| value_of(keys.deep_view(), values.deep_view(), key),
            ));
            Ok(found)
        },
        other => Err(unfit(KvOperation::Get, other)),
    }
}

/// What listing gives.
pub fn kv_list_result(response: KvResponseData) -> (entries: Result<Vec<(Vec<u8>, Vec<u8>)>, RunnerError>)
    ensures
        outcome(entries) == listed_entries(response.deep_view()),
{
    match response {
        KvResponseData::List { keys, values } => {
            let mut entries: Vec<(Vec<u8>, Vec<u8>)> = Vec::new();
            let mut at: usize = 0;
            while at < keys.len() && at < values.len()
                invariant
                    at <= keys.len(),
                    at <= values.len(),
                    entries.len() == at,
                    forall|i: int|
                        0 <= i < at ==> (#[trigger] entries@[i]).deep_view() == (
                            keys@[i].deep_view(),
                            values@[i].deep_view(),
                        ),
                decreases keys.len() - at,
            {
                entries.push((keys[at].duplicate(), values[at].duplicate()));
                at = at + 1;
            }
            assert(entries.deep_view() =~= paired(keys.deep_view(), values.deep_view()));
            Ok(entries)
        },
        other => Err(unfit(KvOperation::List, other)),
    }
}

/// What writing gives.
pub fn kv_put_result(response: KvResponseData) -> (result: Result<(), RunnerError>)
    ensures
        outcome(result) == done(KvOperation::Put, KvResponseDataView::Put, response.deep_view()),
{
    match response {
        KvResponseData::Put => Ok(()),
        other => Err(unfit(KvOperation::Put, other)),
    }
}

/// What deleting gives.
pub fn kv_delete_result(response: KvResponseData) -> (result: Result<(), RunnerError>)
    ensures
        outcome(result) == done(KvOperation::Delete, KvResponseDataView::Delete, response.deep_view()),
{
    match response {
        KvResponseData::Delete => Ok(()),
        other => Err(unfit(KvOperation::Delete, other)),
    }
}

/// What dropping gives.
pub fn kv_drop_result(response: KvResponseData) -> (result: Result<(), RunnerError>)
    ensures
        outcome(result) == done(KvOperation::Drop, KvResponseDataView::Drop, response.deep_view()),
{
    match response {
        KvResponseData::Drop => Ok(()),
        other => Err(unfit(KvOperation::Drop, other)),
    }
}

/// The entry that holds a number: eight bytes, the lowest first.
pub fn kv_u64_entries(key: Vec<u8>, value: u64) -> (entries: Vec<(Vec<u8>, Vec<u8>)>)
    ensures
        entries.deep_view() == seq![(key.deep_view(), spec_u64_to_le_bytes(value))],
{
    broadcast use lemma_bytes_deep_view;

    let mut entries: Vec<(Vec<u8>, Vec<u8>)> = Vec::new();
    entries.push((key, u64_to_le_bytes(value)));
    assert(entries.deep_view() =~= seq![(key.deep_view(), spec_u64_to_le_bytes(value))]);
    entries
}

/// The number that the first of some values holds.
pub fn kv_u64_result(values: Vec<Option<Vec<u8>>>) -> (number: Result<Option<u64>, RunnerError>)
    ensures
        outcome(number) == number_read(values.deep_view()),
{
    broadcast use lemma_bytes_deep_view;

    if values.len() == 0 {
        return Ok(None);
    }
    assert(values.deep_view()[0] == values@[0].deep_view());
    match &values[0] {
        None => Ok(None),
        Some(raw) => if raw.len() != 8 {
            Err(RunnerError::KvValueLength { length: raw.len() })
        } else {
            Ok(Some(u64_from_le_bytes(raw.as_slice())))
        },
    }
}

/// A number that was written is read back: where the store replies with the entry that was put,
/// reading its key gives the number.
pub proof fn law_written_number_is_read_back(key: Seq<u8>, value: u64)
    ensures
        ({
            let put = put_request(seq![(key, spec_u64_to_le_bytes(value))]);
            let reply = KvResponseDataView::Get { keys: put->Put_keys, values: put->Put_values };
            &&& put is Put
            &&& got_values(seq![key], reply) is Ok
            &&& number_read(got_values(seq![key], reply)->Ok_0) == Ok::<Option<u64>, RunnerErrorView>(Some(value))
        }),
{
    vstd::bytes::lemma_auto_spec_u64_to_from_le_bytes();
    let put = put_request(seq![(key, spec_u64_to_le_bytes(value))]);
    assert(put->Put_keys =~= seq![key]);
    assert(put->Put_values =~= seq![spec_u64_to_le_bytes(value)]);
}

/// What is listed after a write are the entries that were written, where the store replies with
/// the keys and values of the request.
pub proof fn law_written_entries_are_listed_back(entries: Seq<(Seq<u8>, Seq<u8>)>)
    ensures
        ({
            let put = put_request(entries);
            &&& put is Put
            &&& paired(put->Put_keys, put->Put_values) == entries
        }),
{
    let put = put_request(entries);
    assert(paired(put->Put_keys, put->Put_values) =~= entries);
}

} // verus!
