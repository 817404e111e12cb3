//! The bounded set of currently-down keyboard usage codes.
//!
//! The codes are held in a fixed-capacity, allocation-free hash set from the
//! `heapless` crate, as a keyboard firmware would hold them.  Verus sees the
//! set as an opaque value; what it holds is named by [`keys_down_set`], and
//! each operation the task uses is a trusted wrapper whose contract states
//! what heapless's source shows.

use vstd::prelude::*;

verus! {

/// Capacity of the down-set: the smallest power of two above the key count
/// (heapless index sets require a power-of-two capacity).
pub const KEYSDOWN_CAP: usize = 32;

/// Declares heapless's fixed-capacity insertion-ordered hash set so it can
/// stand in signatures and fields; its values are opaque to Verus.
#[verifier::external_type_specification]
#[verifier::external_body]
#[verifier::reject_recursive_types(T)]
#[verifier::reject_recursive_types(S)]
pub struct ExIndexSet<T, S, const N: usize>(heapless::index_set::IndexSet<T, S, N>);

/// Declares hash32's default-hasher builder (the hasher slot of
/// `heapless::index_set::FnvIndexSet`).
#[verifier::external_type_specification]
#[verifier::external_body]
#[verifier::reject_recursive_types(H)]
pub struct ExBuildHasherDefault<H>(hash32::BuildHasherDefault<H>);

/// Declares hash32's Fowler-Noll-Vo hasher.
#[verifier::external_type_specification]
#[verifier::external_body]
pub struct ExFnvHasher(hash32::FnvHasher);

/// The usage codes a down-set holds, as a mathematical set.
pub uninterp spec fn keys_down_set(
    s: &heapless::index_set::FnvIndexSet<u8, KEYSDOWN_CAP>,
) -> Set<u8>;

/// Relies on heapless `IndexSet::new`: creates an empty set.
#[verifier::external_body]
pub fn keys_down_new() -> (r: heapless::index_set::FnvIndexSet<u8, KEYSDOWN_CAP>)
    ensures
        keys_down_set(&r) == Set::<u8>::empty(),
{
    heapless::index_set::FnvIndexSet::new()
}

/// Relies on heapless `IndexSet::insert`: `Ok(true)` adds a new element,
/// `Ok(false)` finds it already present, and `Err` returns the element of a
/// set already holding `KEYSDOWN_CAP` others.
#[verifier::external_body]
pub fn keys_down_insert(
    s: &mut heapless::index_set::FnvIndexSet<u8, KEYSDOWN_CAP>,
    code: u8,
) -> (r: Result<bool, u8>)
    ensures
        match r {
            Ok(true) => !keys_down_set(old(s)).contains(code) && keys_down_set(final(s))
                == keys_down_set(old(s)).insert(code),
            Ok(false) => keys_down_set(old(s)).contains(code) && keys_down_set(final(s))
                == keys_down_set(old(s)),
            Err(c) => c == code && !keys_down_set(old(s)).contains(code) && keys_down_set(final(s))
                == keys_down_set(old(s)) && keys_down_set(old(s)).len() >= KEYSDOWN_CAP,
        },
{
    s.insert(code)
}

/// Relies on heapless `IndexSet::remove`: takes the element out and reports
/// whether it was present.
#[verifier::external_body]
pub fn keys_down_remove(
    s: &mut heapless::index_set::FnvIndexSet<u8, KEYSDOWN_CAP>,
    code: u8,
) -> (r: bool)
    ensures
        r == keys_down_set(old(s)).contains(code),
        keys_down_set(final(s)) == keys_down_set(old(s)).remove(code),
{
    s.remove(&code)
}

/// Relies on heapless `IndexSet::iter`: yields each element exactly once.
#[verifier::external_body]
pub fn keys_down_vec(s: &heapless::index_set::FnvIndexSet<u8, KEYSDOWN_CAP>) -> (r: Vec<u8>)
    ensures
        r@.to_set() == keys_down_set(s),
        r@.no_duplicates(),
{
    s.iter().copied().collect()
}

} // verus!
