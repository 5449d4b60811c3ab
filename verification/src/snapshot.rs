//! Paging of the contract's state snapshot.
use vstd::prelude::*;

verus! {

/// The smaller of two integers.
pub open spec fn min(a: int, b: int) -> int {
    if a <= b {
        a
    } else {
        b
    }
}

/// The index range `[start, end)` of the page of a list of `len` entries
/// that skips `offset` entries and takes at most `limit`.
pub fn page_bounds(len: usize, offset: u32, limit: u32) -> (r: (usize, usize))
    ensures
        r.0 == min(offset as int, len as int),
        r.1 == min(offset + limit, len as int),
{
    let offset: u64 = offset as u64;
    let end: u64 = offset + limit as u64;
    let len_wide: u64 = len as u64;
    let start: usize = if offset <= len_wide {
        offset as usize
    } else {
        len
    };
    let stop: usize = if end <= len_wide {
        end as usize
    } else {
        len
    };
    (start, stop)
}

/// Pages taken at windows that do not overlap hold no common entry: the
/// page at `offset_a` with `limit_a` ends no later than the page at
/// `offset_b` begins whenever `offset_a + limit_a <= offset_b`; and every
/// page lies within the list.
pub proof fn law_pages_are_disjoint(len: nat, offset_a: nat, limit_a: nat, offset_b: nat, limit_b: nat)
    requires
        offset_a + limit_a <= offset_b,
    ensures
        min((offset_a + limit_a) as int, len as int) <= min(offset_b as int, len as int),
        min(offset_a as int, len as int) <= min((offset_a + limit_a) as int, len as int) <= len,
{
}

} // verus!
