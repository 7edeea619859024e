//! Tunnels: the pair of ids that names one, and tables keyed by it.

use std::collections::HashMap;
use vstd::prelude::*;

verus! {

broadcast use vstd::std_specs::hash::group_hash_axioms;

/// The number that a run of bytes spells, most significant byte first.
pub open spec fn spelled(bytes: Seq<u8>) -> nat
    decreases bytes.len(),
{
    if bytes.len() == 0 {
        0
    } else {
        spelled(bytes.drop_last()) * 256 + bytes.last() as nat
    }
}

/// The number under which a tunnel is filed: its two ids, one after the other.
pub open spec fn tunnel_code(gateway_id: Seq<u8>, request_id: Seq<u8>) -> u64 {
    spelled(gateway_id + request_id) as u64
}

/// Names one request that travels through a gateway.
#[derive(Clone, Copy, Debug, PartialEq, Eq)]
pub struct TunnelRequestKey {
    pub gateway_id: [u8; 4],
    pub request_id: [u8; 4],
}

/// The contents of a [`TunnelRequestKey`].
#[verifier::ext_equal]
pub struct TunnelRequestKeyView {
    pub gateway_id: Seq<u8>,
    pub request_id: Seq<u8>,
}

impl TunnelRequestKeyView {
    /// The number under which the tunnel is filed.
    pub open spec fn code(self) -> u64 {
        tunnel_code(self.gateway_id, self.request_id)
    }
}

impl DeepView for TunnelRequestKey {
    type V = TunnelRequestKeyView;

    open spec fn deep_view(&self) -> TunnelRequestKeyView {
        TunnelRequestKeyView { gateway_id: self.gateway_id@, request_id: self.request_id@ }
    }
}

impl TunnelRequestKey {
    /// The number under which this tunnel is filed.
    pub open spec fn spec_code(self) -> u64 {
        self.deep_view().code()
    }

    /// The number under which this tunnel is filed.
    pub fn code(&self) -> (code: u64)
        ensures
            code == self.spec_code(),
            code == spelled(self.gateway_id@ + self.request_id@),
    {
        let high = spell(&self.gateway_id);
        let low = spell(&self.request_id);
        proof {
            lemma_spelled_pair(self.gateway_id@, self.request_id@);
        }
        high * 4294967296 + low
    }

    /// Whether two keys name the same tunnel.
    pub fn same(&self, other: &TunnelRequestKey) -> (same: bool)
        ensures
            same == (self.deep_view() == other.deep_view()),
    {
        same_id(&self.gateway_id, &other.gateway_id) && same_id(&self.request_id, &other.request_id)
    }
}

/// Whether two ids are the same.
fn same_id(first: &[u8; 4], second: &[u8; 4]) -> (same: bool)
    ensures
        same == (first@ == second@),
{
    let same = first[0] == second[0] && first[1] == second[1] && first[2] == second[2] && first[3] == second[3];
    assert(same ==> first@ =~= second@);
    same
}

fn spell(id: &[u8; 4]) -> (number: u64)
    ensures
        number == spelled(id@),
        number < 4294967296,
{
    proof {
        lemma_spelled_four(id@);
    }
    ((id[0] as u64 * 256 + id[1] as u64) * 256 + id[2] as u64) * 256 + id[3] as u64
}

proof fn lemma_spelled_four(id: Seq<u8>)
    requires
        id.len() == 4,
    ensures
        spelled(id) == ((id[0] * 256 + id[1]) * 256 + id[2]) * 256 + id[3],
{
    let three = id.drop_last();
    let two = three.drop_last();
    let one = two.drop_last();
    assert(one.drop_last().len() == 0);
    assert(spelled(one.drop_last()) == 0);
    assert(spelled(one) == id[0]);
    assert(spelled(two) == id[0] * 256 + id[1]);
    assert(spelled(three) == (id[0] * 256 + id[1]) * 256 + id[2]);
}

proof fn lemma_spelled_pair(first: Seq<u8>, second: Seq<u8>)
    requires
        first.len() == 4,
        second.len() == 4,
    ensures
        spelled(first + second) == spelled(first) * 4294967296 + spelled(second),
        spelled(first) < 4294967296,
        spelled(second) < 4294967296,
{
    lemma_spelled_four(first);
    lemma_spelled_four(second);
    let whole = first + second;
    let seven = whole.drop_last();
    let six = seven.drop_last();
    let five = six.drop_last();
    let four = five.drop_last();
    assert(four =~= first);
    assert(spelled(five) == spelled(first) * 256 + second[0]);
    assert(spelled(six) == (spelled(first) * 256 + second[0]) * 256 + second[1]);
    assert(spelled(seven) == ((spelled(first) * 256 + second[0]) * 256 + second[1]) * 256 + second[2]);
}

proof fn lemma_spelled_injective(first: Seq<u8>, second: Seq<u8>)
    requires
        first.len() == second.len(),
        spelled(first) == spelled(second),
    ensures
        first == second,
    decreases first.len(),
{
    if first.len() == 0 {
        assert(first =~= second);
    } else {
        lemma_spelled_injective(first.drop_last(), second.drop_last());
        assert(first =~= first.drop_last().push(first.last()));
        assert(second =~= second.drop_last().push(second.last()));
    }
}

pub(crate) proof fn lemma_codes_are_distinct(first: TunnelRequestKeyView, second: TunnelRequestKeyView)
    requires
        first.gateway_id.len() == 4,
        first.request_id.len() == 4,
        second.gateway_id.len() == 4,
        second.request_id.len() == 4,
        first.code() == second.code(),
    ensures
        first == second,
{
    lemma_spelled_pair(first.gateway_id, first.request_id);
    lemma_spelled_pair(second.gateway_id, second.request_id);
    let a = first.gateway_id + first.request_id;
    let b = second.gateway_id + second.request_id;
    lemma_spelled_injective(a, b);
    assert(first.gateway_id =~= a.take(4));
    assert(second.gateway_id =~= b.take(4));
    assert(first.request_id =~= a.skip(4));
    assert(second.request_id =~= b.skip(4));
}

/// Two tunnels are filed under the same number only if they are the same tunnel.
pub proof fn law_tunnel_codes_are_distinct(first: TunnelRequestKey, second: TunnelRequestKey)
    ensures
        first.spec_code() == second.spec_code() <==> first.gateway_id@ == second.gateway_id@ && first.request_id@
            == second.request_id@,
{
    if first.spec_code() == second.spec_code() {
        lemma_codes_are_distinct(first.deep_view(), second.deep_view());
    }
}

/// A table keyed by tunnel.
pub struct TunnelMap<V> {
    entries: HashMap<u64, V>,
}

impl<V: DeepView> DeepView for TunnelMap<V> {
    type V = Map<u64, V::V>;

    closed spec fn deep_view(&self) -> Map<u64, V::V> {
        self.entries@.map_values(|value: V| value.deep_view())
    }
}

impl<V: DeepView> TunnelMap<V> {
    /// An empty table.
    pub fn new() -> (table: Self)
        ensures
            table.deep_view() == Map::<u64, V::V>::empty(),
    {
        let table = TunnelMap { entries: HashMap::new() };
        assert(table.deep_view() =~= Map::empty());
        table
    }

    /// What a tunnel maps to.
    pub fn get(&self, key: &TunnelRequestKey) -> (value: Option<&V>)
        ensures
            value is Some == self.deep_view().contains_key(key.spec_code()),
            value is Some ==> value->0.deep_view() == self.deep_view()[key.spec_code()],
    {
        self.entries.get(&key.code())
    }

    /// Maps a tunnel to a value, in place of what was there.
    pub fn insert(&mut self, key: TunnelRequestKey, value: V)
        ensures
            final(self).deep_view() == old(self).deep_view().insert(key.spec_code(), value.deep_view()),
    {
        self.entries.insert(key.code(), value);
        assert(self.deep_view() =~= old(self).deep_view().insert(key.spec_code(), value.deep_view()));
    }

    /// Takes a tunnel out.
    pub fn remove(&mut self, key: &TunnelRequestKey) -> (value: Option<V>)
        ensures
            final(self).deep_view() == old(self).deep_view().remove(key.spec_code()),
            value is Some == old(self).deep_view().contains_key(key.spec_code()),
            value is Some ==> value->0.deep_view() == old(self).deep_view()[key.spec_code()],
    {
        let value = self.entries.remove(&key.code());
        assert(self.deep_view() =~= old(self).deep_view().remove(key.spec_code()));
        value
    }

    /// The numbers of the tunnels that are filed, in no particular order.
    pub(crate) fn codes(&self) -> (codes: Vec<u64>)
        ensures
            forall|code: u64| codes@.contains(code) <==> #[trigger] self.deep_view().contains_key(code),
    {
        let mut codes: Vec<u64> = Vec::new();
        for code in it: self.entries.keys()
            invariant
                it.seq().unref().to_set() == self.entries@.dom(),
                codes@ == it.seq().unref().take(it.index() as int),
                it.index() == it.seq().len() ==> codes@.to_set() == self.entries@.dom(),
        {
            codes.push(*code);
            assert(it.seq().unref().take(it.seq().len() as int) =~= it.seq().unref());
        }
        proof {
            assert forall|code: u64| codes@.contains(code) <==> #[trigger] self.deep_view().contains_key(code) by {
                assert(codes@.contains(code) <==> codes@.to_set().contains(code));
            }
        }
        codes
    }

    /// What a filed number maps to.
    pub(crate) fn get_code(&self, code: u64) -> (value: Option<&V>)
        ensures
            value is Some == self.deep_view().contains_key(code),
            value is Some ==> value->0.deep_view() == self.deep_view()[code],
    {
        self.entries.get(&code)
    }

    /// Takes a filed number out.
    pub(crate) fn remove_code(&mut self, code: u64)
        ensures
            final(self).deep_view() == old(self).deep_view().remove(code),
    {
        self.entries.remove(&code);
        assert(self.deep_view() =~= old(self).deep_view().remove(code));
    }
}

} // verus!
