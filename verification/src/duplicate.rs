//! Copies whose contents are known to be those of what was copied.

use vstd::prelude::*;

verus! {

/// A value of which a copy with the same contents can be made.
pub trait Duplicate: DeepView + Sized {
    /// Makes a copy with the same contents.
    fn duplicate(&self) -> (copy: Self)
        ensures
            copy.deep_view() == self.deep_view(),
    ;
}

impl Duplicate for u8 {
    fn duplicate(&self) -> (copy: Self) {
        *self
    }
}

impl Duplicate for String {
    fn duplicate(&self) -> (copy: Self) {
        self.clone()
    }
}

impl<T: Duplicate> Duplicate for Option<T> {
    fn duplicate(&self) -> (copy: Self) {
        match self {
            Some(value) => Some(value.duplicate()),
            None => None,
        }
    }
}

impl<T: Duplicate> Duplicate for Vec<T> {
    fn duplicate(&self) -> (copy: Self) {
        let mut copy: Vec<T> = Vec::new();
        let mut at: usize = 0;
        while at < self.len()
            invariant
                at <= self.len(),
                copy.len() == at,
                forall|i: int| 0 <= i < at ==> (#[trigger] copy@[i]).deep_view() == self@[i].deep_view(),
            decreases self.len() - at,
        {
            copy.push(self[at].duplicate());
            at = at + 1;
        }
        assert(copy.deep_view() =~= self.deep_view());
        copy
    }
}

impl<A: Duplicate, B: Duplicate> Duplicate for (A, B) {
    fn duplicate(&self) -> (copy: Self) {
        (self.0.duplicate(), self.1.duplicate())
    }
}

/// The contents of a byte vector are the bytes themselves.
pub broadcast proof fn lemma_bytes_deep_view(bytes: Vec<u8>)
    ensures
        #[trigger] bytes.deep_view() == bytes@,
{
    assert(bytes.deep_view() =~= bytes@);
}

} // verus!
