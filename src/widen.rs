//! What it means for one value to be the widening of another.

use vstd::prelude::*;

verus! {

/// `u` is a value that `U::from` may return when given `t`.
pub open spec fn widens<T, U: From<T>>(t: T, u: U) -> bool {
    call_ensures(U::from, (t,), u)
}

/// `r` is `v` with its success payload widened and its failure kept as it is.
pub open spec fn ok_widened<T, E, U: From<T>>(v: Result<T, E>, r: Result<U, E>) -> bool {
    match v {
        Ok(t) => r is Ok && widens(t, r->Ok_0),
        Err(e) => r == Err::<U, E>(e),
    }
}

/// `r` is `v` with its failure payload widened and its success kept as it is.
pub open spec fn err_widened<T, E, U: From<E>>(v: Result<T, E>, r: Result<T, U>) -> bool {
    match v {
        Ok(t) => r == Ok::<T, U>(t),
        Err(e) => r is Err && widens(e, r->Err_0),
    }
}

/// Widens a success payload, keeping a failure.
pub fn widen_ok<T, E, U: From<T>>(v: Result<T, E>) -> (r: Result<U, E>)
    ensures
        ok_widened(v, r),
{
    match v {
        Ok(t) => Ok(U::from(t)),
        Err(e) => Err(e),
    }
}

/// Widens a failure payload, keeping a success.
pub fn widen_err<T, E, U: From<E>>(v: Result<T, E>) -> (r: Result<T, U>)
    ensures
        err_widened(v, r),
{
    match v {
        Ok(t) => Ok(t),
        Err(e) => Err(U::from(e)),
    }
}

} // verus!

verus! {

/// Converting one arm leaves the other arm's value exactly as it was: a
/// failure passes a success-arm conversion unchanged, and a success passes a
/// failure-arm conversion unchanged.
pub proof fn lemma_other_arm_kept<T, E, U: From<T>, W: From<E>>(
    v: Result<T, E>,
    r: Result<U, E>,
    s: Result<T, W>,
)
    requires
        ok_widened(v, r),
        err_widened(v, s),
    ensures
        v matches Err(e) ==> r == Err::<U, E>(e),
        v matches Ok(t) ==> s == Ok::<T, W>(t),
        v is Ok <==> r is Ok,
        v is Ok <==> s is Ok,
{
}

} // verus!
