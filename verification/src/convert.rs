//! Conversions between the two outcome types and `Result`.
//!
//! A `Result`'s failure has no arm of its own in a [`WOK`], where it becomes
//! the warning; in a [`WarnResult`] it becomes the error. A [`WarnResult`]
//! folds into a [`WOK`] where its errors convert into warnings, and into a
//! `Result` where its warnings convert into errors.

use crate::outcome::WarnResult;
use crate::wok::WOK;
use vstd::prelude::*;
use vstd::std_specs::convert::FromSpecImpl;
use vstd::std_specs::convert::IntoSpec;

verus! {

impl<T, W> FromSpecImpl<Result<T, W>> for WOK<T, W> {
    open spec fn obeys_from_spec() -> bool {
        true
    }

    open spec fn from_spec(res: Result<T, W>) -> Self {
        match res {
            Ok(t) => WOK::Okay(t),
            Err(w) => WOK::Warning(w),
        }
    }
}

impl<T, W> From<Result<T, W>> for WOK<T, W> {
    /// A success stays a success; a failure becomes the warning.
    fn from(res: Result<T, W>) -> (out: Self) {
        match res {
            Ok(t) => WOK::Okay(t),
            Err(w) => WOK::Warning(w),
        }
    }
}

/// Whether `out` is what a [`WarnResult`] may fold into: the success or the
/// warning as it was, or for an error a warning that `E`'s conversion into
/// `W` may return for its payload.
pub open spec fn folds_into_wok<T, W, E: Into<W>>(val: WarnResult<T, W, E>, out: WOK<T, W>) -> bool {
    match val {
        WarnResult::Okay(t) => out == WOK::<T, W>::Okay(t),
        WarnResult::Warning(w) => out == WOK::<T, W>::Warning(w),
        WarnResult::Error(e) => out is Warning && call_ensures(E::into, (e,), out->Warning_0),
    }
}

impl<T, W, E: Into<W>> FromSpecImpl<WarnResult<T, W, E>> for WOK<T, W> {
    open spec fn obeys_from_spec() -> bool {
        <E as IntoSpec<W>>::obeys_into_spec()
    }

    open spec fn from_spec(val: WarnResult<T, W, E>) -> Self {
        match val {
            WarnResult::Okay(t) => WOK::Okay(t),
            WarnResult::Warning(w) => WOK::Warning(w),
            WarnResult::Error(e) => WOK::Warning(e.into_spec()),
        }
    }
}

impl<T, W, E: Into<W>> From<WarnResult<T, W, E>> for WOK<T, W> {
    /// A success and a warning stay what they are; an error is converted
    /// into a warning.
    fn from(val: WarnResult<T, W, E>) -> (out: Self)
        ensures
            folds_into_wok(val, out),
    {
        match val {
            WarnResult::Okay(t) => WOK::Okay(t),
            WarnResult::Warning(w) => WOK::Warning(w),
            WarnResult::Error(e) => WOK::Warning(e.into()),
        }
    }
}

impl<T, W> FromSpecImpl<WOK<T, W>> for Result<T, W> {
    open spec fn obeys_from_spec() -> bool {
        true
    }

    open spec fn from_spec(val: WOK<T, W>) -> Self {
        match val {
            WOK::Okay(t) => Ok(t),
            WOK::Warning(w) => Err(w),
        }
    }
}

impl<T, W> From<WOK<T, W>> for Result<T, W> {
    /// A success stays a success; the warning becomes the failure.
    fn from(val: WOK<T, W>) -> (out: Self) {
        match val {
            WOK::Okay(t) => Ok(t),
            WOK::Warning(w) => Err(w),
        }
    }
}

impl<T, W, E> FromSpecImpl<WOK<T, W>> for WarnResult<T, W, E> {
    open spec fn obeys_from_spec() -> bool {
        true
    }

    open spec fn from_spec(val: WOK<T, W>) -> Self {
        match val {
            WOK::Okay(t) => WarnResult::Okay(t),
            WOK::Warning(w) => WarnResult::Warning(w),
        }
    }
}

impl<T, W, E> From<WOK<T, W>> for WarnResult<T, W, E> {
    /// A success and a warning stay what they are. No error comes out of
    /// this conversion.
    fn from(val: WOK<T, W>) -> (out: Self) {
        match val {
            WOK::Okay(t) => WarnResult::Okay(t),
            WOK::Warning(w) => WarnResult::Warning(w),
        }
    }
}

impl<T, W, E> FromSpecImpl<Result<T, E>> for WarnResult<T, W, E> {
    open spec fn obeys_from_spec() -> bool {
        true
    }

    open spec fn from_spec(res: Result<T, E>) -> Self {
        match res {
            Ok(t) => WarnResult::Okay(t),
            Err(e) => WarnResult::Error(e),
        }
    }
}

impl<T, W, E> From<Result<T, E>> for WarnResult<T, W, E> {
    /// A success stays a success; a failure becomes the error. No warning
    /// comes out of this conversion.
    fn from(res: Result<T, E>) -> (out: Self) {
        match res {
            Ok(t) => WarnResult::Okay(t),
            Err(e) => WarnResult::Error(e),
        }
    }
}

/// Whether `out` is what a [`WarnResult`] may fold into: the success as it
/// was, a failure with the error's payload as it was, or for a warning a
/// failure that `W`'s conversion into `E` may return for its payload.
pub open spec fn folds_into_result<T, W: Into<E>, E>(
    val: WarnResult<T, W, E>,
    out: Result<T, E>,
) -> bool {
    match val {
        WarnResult::Okay(t) => out == Ok::<T, E>(t),
        WarnResult::Warning(w) => out is Err && call_ensures(W::into, (w,), out->Err_0),
        WarnResult::Error(e) => out == Err::<T, E>(e),
    }
}

impl<T, W: Into<E>, E> FromSpecImpl<WarnResult<T, W, E>> for Result<T, E> {
    open spec fn obeys_from_spec() -> bool {
        <W as IntoSpec<E>>::obeys_into_spec()
    }

    open spec fn from_spec(val: WarnResult<T, W, E>) -> Self {
        match val {
            WarnResult::Okay(t) => Ok(t),
            WarnResult::Warning(w) => Err(w.into_spec()),
            WarnResult::Error(e) => Err(e),
        }
    }
}

impl<T, W: Into<E>, E> From<WarnResult<T, W, E>> for Result<T, E> {
    /// A success stays a success; a warning is converted into a failure; an
    /// error becomes the failure with its payload untouched.
    fn from(val: WarnResult<T, W, E>) -> (out: Self)
        ensures
            folds_into_result(val, out),
    {
        match val {
            WarnResult::Okay(t) => Ok(t),
            WarnResult::Warning(w) => Err(w.into()),
            WarnResult::Error(e) => Err(e),
        }
    }
}

} // verus!
