//! Propagation points: where a computation that holds a [`WarnResult`]
//! either goes on with a value or leaves at once with an outcome.
//!
//! Each function here makes that decision and nothing else. It returns
//! `ControlFlow::Continue` with what the computation goes on with, or
//! `ControlFlow::Break` with what the enclosing function is to return right
//! away. An error always leaves. What happens to a warning is the caller's
//! choice of function: it leaves too, or it travels on inside a [`WOK`].

use crate::outcome::WarnResult;
use crate::wok::WOK;
use core::convert::Infallible;
use core::ops::ControlFlow;
use vstd::prelude::*;

verus! {

/// The strict decision: a success goes on with its payload; a warning and an
/// error both leave, each as itself, in the enclosing function's own
/// success type `U`.
pub open spec fn spec_warn_try_sc_warning<T, W, E, U>(val: WarnResult<T, W, E>) -> ControlFlow<
    WarnResult<U, W, E>,
    T,
> {
    match val {
        WarnResult::Okay(t) => ControlFlow::Continue(t),
        WarnResult::Warning(w) => ControlFlow::Break(WarnResult::Warning(w)),
        WarnResult::Error(e) => ControlFlow::Break(WarnResult::Error(e)),
    }
}

/// Strict short-circuit: only a clean success goes on. For use where a
/// warning must not be passed over in silence.
#[verifier::when_used_as_spec(spec_warn_try_sc_warning)]
pub fn warn_try_sc_warning<T, W, E, U>(val: WarnResult<T, W, E>) -> (flow: ControlFlow<
    WarnResult<U, W, E>,
    T,
>)
    ensures
        flow == spec_warn_try_sc_warning::<T, W, E, U>(val),
{
    match val {
        WarnResult::Okay(t) => ControlFlow::Continue(t),
        WarnResult::Warning(w) => ControlFlow::Break(WarnResult::Warning(w)),
        WarnResult::Error(e) => ControlFlow::Break(WarnResult::Error(e)),
    }
}

/// The error-only decision: a success and a warning go on, wrapped as a
/// [`WOK`]; an error leaves as the error of the enclosing function's
/// [`WarnResult`], whose success type `U` and warning type `V` are its own.
pub open spec fn spec_warn_try_sc_error<T, W, E, U, V>(val: WarnResult<T, W, E>) -> ControlFlow<
    WarnResult<U, V, E>,
    WOK<T, W>,
> {
    match val {
        WarnResult::Okay(t) => ControlFlow::Continue(WOK::Okay(t)),
        WarnResult::Warning(w) => ControlFlow::Continue(WOK::Warning(w)),
        WarnResult::Error(e) => ControlFlow::Break(WarnResult::Error(e)),
    }
}

/// Error-only short-circuit: a warning travels on with the computation, an
/// error ends it.
#[verifier::when_used_as_spec(spec_warn_try_sc_error)]
pub fn warn_try_sc_error<T, W, E, U, V>(val: WarnResult<T, W, E>) -> (flow: ControlFlow<
    WarnResult<U, V, E>,
    WOK<T, W>,
>)
    ensures
        flow == spec_warn_try_sc_error::<T, W, E, U, V>(val),
{
    match val {
        WarnResult::Okay(t) => ControlFlow::Continue(WOK::Okay(t)),
        WarnResult::Warning(w) => ControlFlow::Continue(WOK::Warning(w)),
        WarnResult::Error(e) => ControlFlow::Break(WarnResult::Error(e)),
    }
}

/// The error-only decision for an enclosing function that returns a
/// `Result`: as [`spec_warn_try_sc_error`], but an error leaves as the
/// `Result`'s failure.
pub open spec fn spec_warn_try_sc_error_result<T, W, E, U>(
    val: WarnResult<T, W, E>,
) -> ControlFlow<Result<U, E>, WOK<T, W>> {
    match val {
        WarnResult::Okay(t) => ControlFlow::Continue(WOK::Okay(t)),
        WarnResult::Warning(w) => ControlFlow::Continue(WOK::Warning(w)),
        WarnResult::Error(e) => ControlFlow::Break(Err(e)),
    }
}

/// Error-only short-circuit inside a function that returns a `Result`.
#[verifier::when_used_as_spec(spec_warn_try_sc_error_result)]
pub fn warn_try_sc_error_result<T, W, E, U>(val: WarnResult<T, W, E>) -> (flow: ControlFlow<
    Result<U, E>,
    WOK<T, W>,
>)
    ensures
        flow == spec_warn_try_sc_error_result::<T, W, E, U>(val),
{
    match val {
        WarnResult::Okay(t) => ControlFlow::Continue(WOK::Okay(t)),
        WarnResult::Warning(w) => ControlFlow::Continue(WOK::Warning(w)),
        WarnResult::Error(e) => ControlFlow::Break(Err(e)),
    }
}

impl<T, W, E> WarnResult<T, W, E> {
    /// The outcome that a computation yields when it runs to its end with
    /// `output`.
    pub open spec fn spec_from_output(output: T) -> Self {
        WarnResult::Okay(output)
    }

    /// Wraps the value that a computation ran to its end with.
    #[verifier::when_used_as_spec(spec_from_output)]
    pub fn from_output(output: T) -> (out: Self)
        ensures
            out == Self::spec_from_output(output),
    {
        WarnResult::Okay(output)
    }

    /// The strict decision with the residual spelled out: what leaves is a
    /// [`WarnResult`] that can hold no success at all.
    pub open spec fn spec_branch(self) -> ControlFlow<WarnResult<Infallible, W, E>, T> {
        spec_warn_try_sc_warning::<T, W, E, Infallible>(self)
    }

    /// Splits the outcome into the payload to go on with and the residual
    /// to leave with, as [`warn_try_sc_warning`] does.
    #[verifier::when_used_as_spec(spec_branch)]
    pub fn branch(self) -> (flow: ControlFlow<WarnResult<Infallible, W, E>, T>)
        ensures
            flow == self.spec_branch(),
    {
        warn_try_sc_warning::<T, W, E, Infallible>(self)
    }
}

} // verus!
