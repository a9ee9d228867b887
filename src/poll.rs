//! One observation of an asynchronous computation, and the life of a
//! combinator that drives a single such computation.

use vstd::prelude::*;

verus! {

/// What driving a computation once gives: not resolved yet, or its one
/// two-armed outcome.
pub enum Poll<T, E> {
    Pending,
    Ready(Result<T, E>),
}

/// Whether a combinator still owns the computation it drives.
pub enum Stage<F> {
    /// The computation has not resolved; it is driven next.
    Running(F),
    /// The computation resolved and was released; it is never driven again.
    Done,
}

} // verus!
