//! The answer of an operation that may have to be asked again.

use vstd::prelude::*;

verus! {

/// Either the answer, or the notice that it is not there yet.
#[derive(Debug)]
pub enum Poll<T> {
    /// The answer.
    Ready(T),
    /// Nothing yet: ask again once woken.
    Pending,
}

} // verus!
