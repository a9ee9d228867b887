//! Widening one arm of an already resolved `Result`.

use vstd::prelude::*;
use crate::widen::{err_widened, ok_widened, widen_err, widen_ok};

verus! {

/// Converts the success arm of a two-armed value into `U`.
pub trait ResultMapInto<U>: Sized {
    type Output;

    fn map_into(self) -> Self::Output;
}

/// Converts the failure arm of a two-armed value into `U`.
pub trait ResultMapErrInto<U>: Sized {
    type Output;

    fn map_err_into(self) -> Self::Output;
}

impl<T, E, U: From<T>> ResultMapInto<U> for Result<T, E> {
    type Output = Result<U, E>;

    fn map_into(self) -> (r: Result<U, E>)
        ensures
            ok_widened::<T, E, U>(self, r),
    {
        widen_ok(self)
    }
}

impl<T, E, U: From<E>> ResultMapErrInto<U> for Result<T, E> {
    type Output = Result<T, U>;

    fn map_err_into(self) -> (r: Result<T, U>)
        ensures
            err_widened::<T, E, U>(self, r),
    {
        widen_err(self)
    }
}

} // verus!
