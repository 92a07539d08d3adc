//! Cache-line padding for the words of the lock.

use vstd::prelude::*;
use crossbeam_utils::CachePadded;

verus! {

/// `crossbeam_utils::CachePadded`, carried through as an opaque value.
#[verifier::external_type_specification]
#[verifier::external_body]
#[verifier::reject_recursive_types(T)]
pub struct ExCachePadded<T>(CachePadded<T>);

/// `CachePadded::new` pads and aligns a value to the length of a cache line.
/// Nothing is said of the result: what it wraps is read through `deref`.
pub assume_specification<T>[ CachePadded::<T>::new ](t: T) -> (padded: CachePadded<T>);

/// `CachePadded::deref` hands out the wrapped value.
pub assume_specification<T>[ <CachePadded<T> as core::ops::Deref>::deref ](
    padded: &CachePadded<T>,
) -> (inner: &T);

} // verus!
