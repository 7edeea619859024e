//! A table keyed by name.

use crate::duplicate::Duplicate;
use vstd::prelude::*;

verus! {

/// The contents of a [`NameTable`]: what each name maps to, and the names in
/// the order in which they came in.
#[verifier::ext_equal]
pub struct NameModel<V> {
    pub order: Seq<Seq<char>>,
    pub map: Map<Seq<char>, V>,
}

impl<V> NameModel<V> {
    /// Nothing.
    pub open spec fn empty() -> Self {
        NameModel { order: Seq::empty(), map: Map::empty() }
    }

    /// Every name stands in the order exactly once.
    pub open spec fn valid(self) -> bool {
        &&& self.order.no_duplicates()
        &&& forall|name: Seq<char>| #[trigger] self.map.contains_key(name) <==> self.order.contains(name)
    }

    /// Whether a name is present.
    pub open spec fn has(self, name: Seq<char>) -> bool {
        self.map.contains_key(name)
    }

    /// What a name maps to.
    pub open spec fn at(self, name: Seq<char>) -> V {
        self.map[name]
    }

    /// With `name` mapped to `value`. A new name comes last.
    pub open spec fn insert(self, name: Seq<char>, value: V) -> Self {
        NameModel {
            order: if self.has(name) {
                self.order
            } else {
                self.order.push(name)
            },
            map: self.map.insert(name, value),
        }
    }

    /// Without `name`.
    pub open spec fn remove(self, name: Seq<char>) -> Self {
        NameModel {
            order: names_without(self.order, name),
            map: self.map.remove(name),
        }
    }

    /// The names with what they map to, in order.
    pub open spec fn listed(self) -> Seq<(Seq<char>, V)> {
        self.order.map_values(|name: Seq<char>| (name, self.at(name)))
    }

    /// The same names, each with its value transformed.
    pub open spec fn map_entries<W>(self, f: spec_fn(Seq<char>, V) -> W) -> NameModel<W> {
        NameModel {
            order: self.order,
            map: Map::new(|name: Seq<char>| self.map.contains_key(name), |name: Seq<char>| f(name, self.map[name])),
        }
    }
}

/// The names that differ from `name`.
pub open spec fn names_without(names: Seq<Seq<char>>, name: Seq<char>) -> Seq<Seq<char>> {
    names.filter(|other: Seq<char>| other != name)
}

/// A table keyed by name, kept in the order in which the names came in.
#[derive(Clone, Debug)]
pub struct NameTable<V> {
    entries: Vec<(String, V)>,
}

impl<V: DeepView> DeepView for NameTable<V> {
    type V = NameModel<V::V>;

    closed spec fn deep_view(&self) -> NameModel<V::V> {
        let order = self.names();
        NameModel {
            order: order,
            map: Map::new(
                |name: Seq<char>| order.contains(name),
                |name: Seq<char>| self.entries@[order.index_of(name)].1.deep_view(),
            ),
        }
    }
}

impl<V: DeepView> NameTable<V> {
    closed spec fn names(&self) -> Seq<Seq<char>> {
        self.entries@.map_values(|entry: (String, V)| entry.0@)
    }

    /// No name occurs twice.
    pub open spec fn wf(&self) -> bool {
        self.deep_view().order.no_duplicates()
    }

    /// A well-formed table has a valid model.
    pub proof fn lemma_valid(&self)
        requires
            self.wf(),
        ensures
            self.deep_view().valid(),
    {
    }

    proof fn lemma_entry(&self, index: int)
        requires
            self.wf(),
            0 <= index < self.entries@.len(),
        ensures
            self.deep_view().order.len() == self.entries@.len(),
            self.deep_view().order[index] == self.entries@[index].0@,
            self.deep_view().has(self.entries@[index].0@),
            self.deep_view().at(self.entries@[index].0@) == self.entries@[index].1.deep_view(),
    {
        let order = self.names();
        assert(order[index] == self.entries@[index].0@);
        assert(order.contains(order[index]));
        assert(order[order.index_of(order[index])] == order[index]);
    }

    /// An empty table.
    pub fn new() -> (table: Self)
        ensures
            table.wf(),
            table.deep_view() == NameModel::<V::V>::empty(),
    {
        let table = NameTable { entries: Vec::new() };
        assert(table.deep_view().map =~= Map::empty());
        assert(table.deep_view().order =~= Seq::empty());
        table
    }

    /// How many names there are.
    pub fn len(&self) -> (count: usize)
        requires
            self.wf(),
        ensures
            count == self.deep_view().order.len(),
    {
        self.entries.len()
    }

    fn position(&self, name: &str) -> (found: Option<usize>)
        requires
            self.wf(),
        ensures
            found is Some == self.deep_view().has(name@),
            found is Some ==> found->0 < self.entries@.len() && self.entries@[found->0 as int].0@ == name@,
    {
        let wanted = name.to_owned();
        let mut at: usize = 0;
        while at < self.entries.len()
            invariant
                at <= self.entries.len(),
                self.wf(),
                wanted@ == name@,
                forall|i: int| 0 <= i < at ==> self.entries@[i].0@ != name@,
            decreases self.entries.len() - at,
        {
            if self.entries[at].0 == wanted {
                proof {
                    self.lemma_entry(at as int);
                }
                return Some(at);
            }
            at = at + 1;
        }
        assert(!self.names().contains(name@));
        None
    }

    /// Whether a name is present.
    pub fn contains(&self, name: &str) -> (present: bool)
        requires
            self.wf(),
        ensures
            present == self.deep_view().has(name@),
    {
        self.position(name).is_some()
    }

    /// What a name maps to.
    pub fn get(&self, name: &str) -> (value: Option<&V>)
        requires
            self.wf(),
        ensures
            value is Some == self.deep_view().has(name@),
            value is Some ==> value->0.deep_view() == self.deep_view().at(name@),
    {
        match self.position(name) {
            Some(at) => {
                proof {
                    self.lemma_entry(at as int);
                }
                Some(&self.entries[at].1)
            },
            None => None,
        }
    }

    /// The name at a position of the order.
    pub fn name_at(&self, at: usize) -> (name: &String)
        requires
            self.wf(),
            at < self.deep_view().order.len(),
        ensures
            name@ == self.deep_view().order[at as int],
    {
        &self.entries[at].0
    }

    /// The value at a position of the order.
    pub fn value_at(&self, at: usize) -> (value: &V)
        requires
            self.wf(),
            at < self.deep_view().order.len(),
        ensures
            value.deep_view() == self.deep_view().at(self.deep_view().order[at as int]),
    {
        proof {
            self.lemma_entry(at as int);
        }
        &self.entries[at].1
    }

    /// Maps `name` to `value` in place of what was there.
    pub fn insert(&mut self, name: String, value: V)
        requires
            old(self).wf(),
        ensures
            final(self).wf(),
            final(self).deep_view() == old(self).deep_view().insert(name@, value.deep_view()),
    {
        match self.position(name.as_str()) {
            Some(at) => {
                self.entries[at] = (name, value);
                proof {
                    assert(self.names() =~= old(self).names());
                    assert forall|other: Seq<char>| old(self).deep_view().has(other) implies self.deep_view().at(other)
                        == old(self).deep_view().insert(name@, value.deep_view()).at(other) by {
                        let i = old(self).names().index_of(other);
                        old(self).lemma_entry(i);
                        self.lemma_entry(i);
                        old(self).lemma_entry(at as int);
                        self.lemma_entry(at as int);
                    }
                    self.lemma_entry(at as int);
                    assert(self.deep_view().map =~= old(self).deep_view().insert(name@, value.deep_view()).map);
                }
            },
            None => {
                self.entries.push((name, value));
                proof {
                    assert(self.names() =~= old(self).names().push(name@));
                    assert(!old(self).names().contains(name@));
                    assert(self.wf());
                    let last = self.entries@.len() - 1;
                    self.lemma_entry(last);
                    assert forall|other: Seq<char>| old(self).deep_view().has(other) implies self.deep_view().has(other)
                        && self.deep_view().at(other) == old(self).deep_view().at(other) by {
                        let i = old(self).names().index_of(other);
                        old(self).lemma_entry(i);
                        self.lemma_entry(i);
                        assert(self.names()[i] == other);
                    }
                    assert forall|other: Seq<char>| self.deep_view().has(other) implies other == name@
                        || old(self).deep_view().has(other) by {
                        let i = self.names().index_of(other);
                        assert(self.names()[i] == other);
                        if i < last {
                            assert(old(self).names()[i] == other);
                        }
                    }
                    assert(self.deep_view().has(name@));
                    assert(self.deep_view().at(name@) == value.deep_view());
                    assert forall|other: Seq<char>| #[trigger] self.deep_view().map.dom().contains(other)
                        == old(self).deep_view().map.dom().insert(name@).contains(other) by {
                        assert(self.deep_view().has(other) ==> other == name@ || old(self).deep_view().has(other));
                        assert(old(self).deep_view().has(other) ==> self.deep_view().has(other));
                    }
                    assert(self.deep_view().map.dom() =~= old(self).deep_view().map.dom().insert(name@));
                    assert(self.deep_view().map =~= old(self).deep_view().insert(name@, value.deep_view()).map);
                }
            },
        }
    }

    /// The value at a position of the order, to be changed in place.
    pub fn value_mut_at(&mut self, at: usize) -> (value: &mut V)
        requires
            old(self).wf(),
            at < old(self).deep_view().order.len(),
        ensures
            (*value).deep_view() == old(self).deep_view().at(old(self).deep_view().order[at as int]),
            final(self).wf(),
            final(self).deep_view() == old(self).deep_view().insert(
                old(self).deep_view().order[at as int],
                (*final(value)).deep_view(),
            ),
    {
        proof {
            self.lemma_entry(at as int);
        }
        let ghost before = *self;
        let value = &mut self.entries[at].1;
        proof {
            before.lemma_changed_at(after_borrow(*self), at as int);
        }
        value
    }

    proof fn lemma_changed_at(&self, after: Self, at: int)
        requires
            self.wf(),
            0 <= at < self.entries@.len(),
            after.entries@.len() == self.entries@.len(),
            forall|i: int| 0 <= i < self.entries@.len() && i != at ==> after.entries@[i] == self.entries@[i],
            after.entries@[at].0 == self.entries@[at].0,
        ensures
            after.wf(),
            after.deep_view() == self.deep_view().insert(self.entries@[at].0@, after.entries@[at].1.deep_view()),
    {
        let name = self.entries@[at].0@;
        assert(after.names() =~= self.names());
        self.lemma_entry(at);
        after.lemma_entry(at);
        assert forall|other: Seq<char>| self.deep_view().has(other) implies after.deep_view().at(other)
            == self.deep_view().insert(name, after.entries@[at].1.deep_view()).at(other) by {
            let i = self.names().index_of(other);
            self.lemma_entry(i);
            after.lemma_entry(i);
        }
        assert(after.deep_view().map =~= self.deep_view().insert(name, after.entries@[at].1.deep_view()).map);
    }

    /// What a name maps to, to be changed in place.
    pub fn get_mut(&mut self, name: &str) -> (value: Option<&mut V>)
        requires
            old(self).wf(),
        ensures
            value is Some == old(self).deep_view().has(name@),
            value is None ==> *final(self) == *old(self),
            value is Some ==> (*value->0).deep_view() == old(self).deep_view().at(name@),
            final(self).wf(),
            value is Some ==> final(self).deep_view() == old(self).deep_view().insert(
                name@,
                (*final(value->0)).deep_view(),
            ),
    {
        match self.position(name) {
            Some(at) => {
                proof {
                    self.lemma_entry(at as int);
                }
                Some(self.value_mut_at(at))
            },
            None => None,
        }
    }

    /// Takes a name out.
    pub fn remove(&mut self, name: &str) -> (value: Option<V>)
        requires
            old(self).wf(),
        ensures
            final(self).wf(),
            final(self).deep_view() == old(self).deep_view().remove(name@),
            value is Some == old(self).deep_view().has(name@),
            value is Some ==> value->0.deep_view() == old(self).deep_view().at(name@),
    {
        proof {
            self.lemma_valid();
        }
        match self.position(name) {
            Some(at) => {
                proof {
                    self.lemma_entry(at as int);
                }
                let entry = self.entries.remove(at);
                proof {
                    assert(self.names() =~= old(self).names().remove(at as int));
                    assert(self.names().no_duplicates());
                    lemma_remove_is_filter(old(self).names(), at as int);
                    assert(self.wf());
                    assert forall|other: Seq<char>| old(self).deep_view().has(other) && other != name@ implies
                        self.deep_view().has(other) && self.deep_view().at(other) == old(self).deep_view().at(other) by {
                        let i = old(self).names().index_of(other);
                        old(self).lemma_entry(i);
                        let j = if i < at { i } else { i - 1 };
                        self.lemma_entry(j);
                    }
                    assert(self.deep_view().map =~= old(self).deep_view().remove(name@).map);
                }
                Some(entry.1)
            },
            None => {
                proof {
                    lemma_filter_absent(old(self).names(), name@);
                    assert(self.deep_view().map =~= old(self).deep_view().remove(name@).map);
                }
                None
            },
        }
    }
}

impl<V: Duplicate> NameTable<V> {
    /// The names with what they map to, in order.
    pub fn list(&self) -> (entries: Vec<(String, V)>)
        requires
            self.wf(),
        ensures
            entries.deep_view() == self.deep_view().listed(),
    {
        let entries = self.entries.duplicate();
        proof {
            assert forall|i: int| 0 <= i < self.entries@.len() implies #[trigger] self.entries@[i].deep_view()
                == self.deep_view().listed()[i] by {
                self.lemma_entry(i);
            }
            assert(entries.deep_view() =~= self.deep_view().listed());
        }
        entries
    }
}

impl<V: Duplicate> Duplicate for NameTable<V> {
    fn duplicate(&self) -> (copy: Self) {
        let copy = NameTable { entries: self.entries.duplicate() };
        proof {
            assert(copy.entries.deep_view() == self.entries.deep_view());
            assert(copy.entries@.len() == copy.entries.deep_view().len());
            assert forall|i: int| 0 <= i < self.entries@.len() implies copy.entries@[i].0@ == self.entries@[i].0@
                && copy.entries@[i].1.deep_view() == self.entries@[i].1.deep_view() by {
                assert(copy.entries.deep_view()[i] == self.entries.deep_view()[i]);
            }
            assert(copy.names() =~= self.names());
            assert forall|name: Seq<char>| self.names().contains(name) implies copy.deep_view().at(name)
                == self.deep_view().at(name) by {
                let i = self.names().index_of(name);
                assert(self.names()[i] == name);
            }
            assert(copy.deep_view().map =~= self.deep_view().map);
        }
        copy
    }
}

proof fn lemma_without_push(names: Seq<Seq<char>>, last: Seq<char>, name: Seq<char>)
    ensures
        names_without(names.push(last), name) == if last != name {
            names_without(names, name).push(last)
        } else {
            names_without(names, name)
        },
{
    reveal(Seq::filter);
    assert(names.push(last).drop_last() =~= names);
}

proof fn lemma_filter_absent(names: Seq<Seq<char>>, name: Seq<char>)
    requires
        !names.contains(name),
    ensures
        names_without(names, name) == names,
    decreases names.len(),
{
    if names.len() == 0 {
        reveal(Seq::filter);
    } else {
        let front = names.drop_last();
        assert(forall|i: int| 0 <= i < front.len() ==> front[i] == names[i]);
        lemma_filter_absent(front, name);
        assert(front.push(names.last()) =~= names);
        lemma_without_push(front, names.last(), name);
    }
}

proof fn lemma_remove_is_filter(names: Seq<Seq<char>>, at: int)
    requires
        names.no_duplicates(),
        0 <= at < names.len(),
    ensures
        names.remove(at) == names_without(names, names[at]),
    decreases names.len(),
{
    let name = names[at];
    let front = names.drop_last();
    assert(front.push(names.last()) =~= names);
    lemma_without_push(front, names.last(), name);
    if at == names.len() - 1 {
        assert(!front.contains(name));
        lemma_filter_absent(front, name);
        assert(names.remove(at) =~= front);
    } else {
        assert(front[at] == name);
        lemma_remove_is_filter(front, at);
        assert(names.remove(at) =~= front.remove(at).push(names.last()));
    }
}

/// A name that is mapped to a value maps to it, in its old place or else in the last; no other name
/// changes.
pub proof fn law_name_is_mapped<V>(model: NameModel<V>, name: Seq<char>, value: V)
    requires
        model.valid(),
    ensures
        model.insert(name, value).valid(),
        model.insert(name, value).map == model.map.insert(name, value),
        model.map.dom().contains(name) ==> model.insert(name, value).order == model.order,
        !model.map.dom().contains(name) ==> model.insert(name, value).order == model.order + seq![name],
        model.has(name) <==> model.map.dom().contains(name),
        model.at(name) == model.map[name],
{
    let after = model.insert(name, value);
    assert(model.order.push(name) =~= model.order + seq![name]);
    assert(model.map.contains_key(name) <==> model.order.contains(name));
    assert forall|other: Seq<char>| #[trigger] after.map.contains_key(other) <==> after.order.contains(other) by {
        assert(model.map.contains_key(other) <==> model.order.contains(other));
        if !model.has(name) {
            if model.order.contains(other) {
                assert(after.order[model.order.index_of(other)] == other);
            }
            assert(after.order[model.order.len() as int] == name);
        }
    }
}

/// A name that is taken out is gone, and the names behind it move up; taking out a name that is not
/// there changes nothing.
pub proof fn law_name_is_taken_out<V>(model: NameModel<V>, name: Seq<char>)
    requires
        model.valid(),
    ensures
        model.remove(name).valid(),
        model.remove(name).map == model.map.remove(name),
        forall|at: int|
            0 <= at < model.order.len() && #[trigger] model.order[at] == name ==> model.remove(name).order
                == model.order.subrange(0, at) + model.order.subrange(at + 1, model.order.len() as int),
        !model.map.dom().contains(name) ==> model.remove(name) == model,
{
    let after = model.remove(name);
    assert(model.map.contains_key(name) <==> model.order.contains(name));
    if model.order.contains(name) {
        let at = model.order.index_of(name);
        lemma_remove_is_filter(model.order, at);
        assert(model.order.remove(at) =~= model.order.subrange(0, at) + model.order.subrange(
            at + 1,
            model.order.len() as int,
        ));
        assert forall|other: Seq<char>| #[trigger] after.map.contains_key(other) <==> after.order.contains(other) by {
            assert(model.map.contains_key(other) <==> model.order.contains(other));
            if other != name && model.order.contains(other) {
                let i = model.order.index_of(other);
                if i < at {
                    assert(after.order[i] == other);
                } else {
                    assert(after.order[i - 1] == other);
                }
            }
        }
    } else {
        lemma_filter_absent(model.order, name);
        assert(after =~= model);
    }
}

/// A listing gives every name in its place with what it maps to.
pub proof fn law_listing_is_complete<V>(model: NameModel<V>)
    ensures
        model.listed().len() == model.order.len(),
        forall|i: int|
            0 <= i < model.order.len() ==> (#[trigger] model.listed()[i]).0 == model.order[i] && model.listed()[i].1
                == model.map[model.order[i]],
{
}

} // verus!
