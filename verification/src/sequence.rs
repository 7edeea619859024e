//! Message indices on a sixteen-bit circle.
//!
//! Tunnel messages are numbered modulo 65536. Two indices are compared by the
//! distance walked forward from one to the other.

use vstd::prelude::*;

verus! {

/// How far one has to count forward from `a`, modulo 65536, to reach `b`.
pub open spec fn forward_distance(a: u16, b: u16) -> int {
    (b - a) % 65536
}

/// `a` comes strictly before `b`: a short forward walk leads from `a` to `b`.
pub open spec fn precedes(a: u16, b: u16) -> bool {
    0 < forward_distance(a, b) < 32767
}

/// The index that follows `a` on the circle.
pub open spec fn next_index(a: u16) -> u16 {
    if a == u16::MAX {
        0
    } else {
        (a + 1) as u16
    }
}

/// Adds on the circle.
pub fn wrapping_add_u16(a: u16, b: u16) -> (sum: u16)
    ensures
        sum == (a + b) % 65536,
{
    a.wrapping_add(b)
}

/// Subtracts on the circle.
pub fn wrapping_sub_u16(a: u16, b: u16) -> (difference: u16)
    ensures
        difference == forward_distance(b, a),
{
    a.wrapping_sub(b)
}

/// Whether `a` comes strictly before `b`.
pub fn wrapping_lt_u16(a: u16, b: u16) -> (before: bool)
    ensures
        before == precedes(a, b),
{
    a != b && wrapping_sub_u16(b, a) < (u16::MAX / 2)
}

/// Whether `a` is `b` or comes before it.
pub fn wrapping_lte_u16(a: u16, b: u16) -> (before_or_same: bool)
    ensures
        before_or_same == (a == b || precedes(a, b)),
{
    a == b || wrapping_lt_u16(a, b)
}

/// No index comes before itself, and of two indices at most one comes first.
pub proof fn law_precedes_is_asymmetric(a: u16, b: u16)
    ensures
        !precedes(a, a),
        !(precedes(a, b) && precedes(b, a)),
{
}

/// Every index comes before its successor, also across the wrap, and the
/// successor is never taken for an index that was already seen.
pub proof fn law_successor_is_ahead(a: u16)
    ensures
        precedes(a, next_index(a)),
        next_index(a) != a,
        !precedes(next_index(a), a),
        next_index(a) == (a + 1) % 65536,
{
}

} // verus!
