//! Atomic cells, and the values they were created with.
//!
//! Verus gives the atomics of `core::sync::atomic` no contents: a load through
//! a shared reference may return whatever another thread stored last. What can
//! be said of a cell for good is the value it was created with, and that is all
//! this module records.

use vstd::prelude::*;
use core::sync::atomic::{AtomicBool, AtomicUsize};
use crossbeam_utils::CachePadded;

verus! {

/// `crossbeam_utils::CachePadded`: a value alone on its cache line. Opaque here.
#[verifier::external_type_specification]
#[verifier::external_body]
#[verifier::reject_recursive_types(T)]
pub struct ExCachePadded<T>(CachePadded<T>);

/// `CachePadded::new` pads the value it is given. Nothing is claimed of the result.
pub assume_specification<T>[ CachePadded::<T>::new ](t: T) -> CachePadded<T>;

/// `CachePadded`'s `Deref` lends the padded value. Nothing is claimed of the result.
pub assume_specification<T>[ <CachePadded<T> as core::ops::Deref>::deref ](
    padded: &CachePadded<T>,
) -> &T;

/// The count a padded counter was created with. Later stores do not change it.
pub uninterp spec fn initial_count(counter: CachePadded<AtomicUsize>) -> usize;

/// The value a flag was created with. Later stores do not change it.
pub uninterp spec fn initial_flag(flag: AtomicBool) -> bool;

/// A counter on a cache line of its own: `AtomicUsize::new` inside
/// `CachePadded::new`. Claims only that the counter was created with `start`.
#[verifier::external_body]
pub(crate) fn counter(start: usize) -> (made: CachePadded<AtomicUsize>)
    ensures
        initial_count(made) == start,
{
    CachePadded::new(AtomicUsize::new(start))
}

/// `AtomicBool::new`. Claims only that the flag was created with `start`.
#[verifier::external_body]
pub(crate) fn flag(start: bool) -> (made: AtomicBool)
    ensures
        initial_flag(made) == start,
{
    AtomicBool::new(start)
}

} // verus!
