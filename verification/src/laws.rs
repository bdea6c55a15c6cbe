//! Laws that hold between the operations on outcomes, each proved from the
//! operations' contracts.

use crate::convert::{folds_into_result, folds_into_wok};
use crate::outcome::WarnResult;
use crate::propagate::{warn_try_sc_error, warn_try_sc_error_result, warn_try_sc_warning};
use crate::wok::WOK;
use core::ops::ControlFlow;
use vstd::prelude::*;
use vstd::std_specs::convert::FromSpec;

verus! {

/// A [`WOK`] built by `ok` may be unwrapped, and unwrapping gives back the
/// value it was built from.
pub proof fn law_wok_ok_unwrap<T, W>(v: T)
    ensures
        WOK::<T, W>::ok(v) is Okay,
        WOK::<T, W>::ok(v).unwrap() == v,
{
}

/// A [`WarnResult`] built by `ok` may be unwrapped, and unwrapping gives back
/// the value it was built from.
pub proof fn law_ok_unwrap<T, W, E>(v: T)
    ensures
        WarnResult::<T, W, E>::ok(v) is Okay,
        WarnResult::<T, W, E>::ok(v).unwrap() == v,
{
}

/// A [`WOK`] answers to the constructor that built it: `ok` gives a value
/// that is a success and no warning, `warning` one that is a warning and no
/// success.
pub proof fn law_wok_constructor_state<T, W>(v: T, w: W)
    ensures
        WOK::<T, W>::ok(v).is_ok(),
        !WOK::<T, W>::ok(v).is_warning(),
        WOK::<T, W>::warning(w).is_warning(),
        !WOK::<T, W>::warning(w).is_ok(),
{
}

/// A [`WOK`] is in exactly one of its two states.
pub proof fn law_wok_exactly_one_state<T, W>(x: WOK<T, W>)
    ensures
        x.is_ok() != x.is_warning(),
{
}

/// A [`WarnResult`] answers to the constructor that built it, and to no
/// other.
pub proof fn law_constructor_state<T, W, E>(v: T, w: W, e: E)
    ensures
        WarnResult::<T, W, E>::ok(v).is_ok(),
        !WarnResult::<T, W, E>::ok(v).is_warning(),
        !WarnResult::<T, W, E>::ok(v).is_err(),
        WarnResult::<T, W, E>::warning(w).is_warning(),
        !WarnResult::<T, W, E>::warning(w).is_ok(),
        !WarnResult::<T, W, E>::warning(w).is_err(),
        WarnResult::<T, W, E>::err(e).is_err(),
        !WarnResult::<T, W, E>::err(e).is_ok(),
        !WarnResult::<T, W, E>::err(e).is_warning(),
{
}

/// A [`WarnResult`] is in exactly one of its three states: one of the three
/// predicates holds, and no two of them hold together.
pub proof fn law_exactly_one_state<T, W, E>(x: WarnResult<T, W, E>)
    ensures
        x.is_ok() || x.is_warning() || x.is_err(),
        !(x.is_ok() && x.is_warning()),
        !(x.is_ok() && x.is_err()),
        !(x.is_warning() && x.is_err()),
{
}

/// A success survives the way into a `Result` and back: whatever `Result` a
/// success folds into is `Ok` with the same payload, and that `Result`
/// converts back into the success it came from.
pub proof fn law_ok_round_trip<T, W: Into<E>, E>(t: T, res: Result<T, E>)
    requires
        folds_into_result(WarnResult::<T, W, E>::Okay(t), res),
    ensures
        res == Ok::<T, E>(t),
        <WarnResult<T, W, E> as FromSpec<Result<T, E>>>::from_spec(res) == WarnResult::<
            T,
            W,
            E,
        >::Okay(t),
{
}

/// A `Result` survives the way into a [`WarnResult`] and back, failure
/// included: its failure becomes the error, which no conversion of payloads
/// touches on the way back.
pub proof fn law_result_round_trip<T, W: Into<E>, E>(res: Result<T, E>, back: Result<T, E>)
    requires
        folds_into_result(
            <WarnResult<T, W, E> as FromSpec<Result<T, E>>>::from_spec(res),
            back,
        ),
    ensures
        back == res,
{
}

/// A [`WOK`] and a `Result` with the same payload types convert into each
/// other without loss, in both orders.
pub proof fn law_wok_result_round_trip<T, W>(x: WOK<T, W>, res: Result<T, W>)
    ensures
        <WOK<T, W> as FromSpec<Result<T, W>>>::from_spec(
            <Result<T, W> as FromSpec<WOK<T, W>>>::from_spec(x),
        ) == x,
        <Result<T, W> as FromSpec<WOK<T, W>>>::from_spec(
            <WOK<T, W> as FromSpec<Result<T, W>>>::from_spec(res),
        ) == res,
{
}

/// Promoting a [`WOK`] to a [`WarnResult`] never gives an error, and folding
/// the promoted value back gives the [`WOK`] it came from.
pub proof fn law_promote_then_fold<T, W, E: Into<W>>(x: WOK<T, W>, back: WOK<T, W>)
    requires
        folds_into_wok(<WarnResult<T, W, E> as FromSpec<WOK<T, W>>>::from_spec(x), back),
    ensures
        !<WarnResult<T, W, E> as FromSpec<WOK<T, W>>>::from_spec(x).is_err(),
        back == x,
{
}

/// The same failure of a `Result` lands in different arms by design: as the
/// warning of a [`WOK`], as the error of a [`WarnResult`].
pub proof fn law_failure_lands_by_target<T, W, E>(w: W, e: E)
    ensures
        <WOK<T, W> as FromSpec<Result<T, W>>>::from_spec(Err(w)) == WOK::<T, W>::Warning(w),
        <WarnResult<T, W, E> as FromSpec<Result<T, E>>>::from_spec(Err(e)) == WarnResult::<
            T,
            W,
            E,
        >::Error(e),
{
}

/// `map` leaves a warning and an error untouched, whatever the transform: the
/// outcome keeps its arm and its payload, so unwrapping it with a default
/// gives the default.
pub proof fn law_map_keeps_non_ok<T, W, E, U, F: FnOnce(T) -> U>(
    x: WarnResult<T, W, E>,
    f: F,
    out: WarnResult<U, W, E>,
    default: U,
)
    requires
        !x.is_ok(),
        x.maps_to(f, out),
    ensures
        x matches WarnResult::Warning(w) ==> out == WarnResult::<U, W, E>::Warning(w),
        x matches WarnResult::Error(e) ==> out == WarnResult::<U, W, E>::Error(e),
        out.unwrap_or(default) == default,
{
}

/// `map` on a success gives a success, and its payload is one that the
/// transform may return for the old payload.
pub proof fn law_map_transforms_ok<T, W, E, U, F: FnOnce(T) -> U>(
    t: T,
    f: F,
    out: WarnResult<U, W, E>,
)
    requires
        WarnResult::<T, W, E>::ok(t).maps_to(f, out),
    ensures
        out.is_ok(),
        f.ensures((t,), out.unwrap()),
{
}

/// `map` on a [`WOK`] leaves a warning untouched, whatever the transform.
pub proof fn law_wok_map_keeps_warning<T, W, U, F: FnOnce(T) -> U>(
    w: W,
    f: F,
    out: WOK<U, W>,
    default: U,
)
    requires
        WOK::<T, W>::warning(w).maps_to(f, out),
    ensures
        out == WOK::<U, W>::Warning(w),
        out.unwrap_or(default) == default,
{
}

/// `ok_or` tells the two failing arms apart. With two different defaults,
/// and a success payload that is neither of them, the result is the warning
/// default exactly for a warning, the error default exactly for an error,
/// and the payload for a success.
pub proof fn law_ok_or_tells_arms_apart<T, W, E>(x: WarnResult<T, W, E>, wd: T, ed: T)
    requires
        wd != ed,
        x matches WarnResult::Okay(t) ==> t != wd && t != ed,
    ensures
        x.ok_or(wd, ed) == wd <==> x.is_warning(),
        x.ok_or(wd, ed) == ed <==> x.is_err(),
        x matches WarnResult::Okay(t) ==> x.ok_or(wd, ed) == t,
{
}

/// `ok_or` gives the success payload for a success, the warning default for
/// a warning and the error default for an error, whatever the three values
/// are.
pub proof fn law_ok_or_by_arm<T, W, E>(t: T, w: W, e: E, wd: T, ed: T)
    ensures
        WarnResult::<T, W, E>::ok(t).ok_or(wd, ed) == t,
        WarnResult::<T, W, E>::warning(w).ok_or(wd, ed) == wd,
        WarnResult::<T, W, E>::err(e).ok_or(wd, ed) == ed,
{
}

/// At a strict propagation point an error leaves the enclosing function as
/// an error with the same payload, and so does a warning as a warning: in
/// neither case does the computation go on.
pub proof fn law_strict_leaves_on_non_ok<T, W, E, U>(w: W, e: E)
    ensures
        warn_try_sc_warning::<T, W, E, U>(WarnResult::Error(e)) == ControlFlow::<
            WarnResult<U, W, E>,
            T,
        >::Break(WarnResult::Error(e)),
        warn_try_sc_warning::<T, W, E, U>(WarnResult::Warning(w)) == ControlFlow::<
            WarnResult<U, W, E>,
            T,
        >::Break(WarnResult::Warning(w)),
{
}

/// At an error-only propagation point, of either form, a warning goes on
/// with the computation inside a [`WOK`], its payload unchanged.
pub proof fn law_error_only_keeps_warning<T, W, E, U, V>(w: W)
    ensures
        warn_try_sc_error::<T, W, E, U, V>(WarnResult::Warning(w)) == ControlFlow::<
            WarnResult<U, V, E>,
            WOK<T, W>,
        >::Continue(WOK::Warning(w)),
        warn_try_sc_error_result::<T, W, E, U>(WarnResult::Warning(w)) == ControlFlow::<
            Result<U, E>,
            WOK<T, W>,
        >::Continue(WOK::Warning(w)),
{
}

/// At an error-only propagation point an error leaves exactly as it does at
/// a strict one. The outcome form breaks with the very value that the strict
/// point breaks with; the `Result` form breaks with that value folded into
/// a `Result`, the failure with the same payload.
pub proof fn law_error_leaves_alike<T, W, E, U>(e: E)
    ensures
        ({
            &&& warn_try_sc_warning::<T, W, E, U>(WarnResult::Error(e)) matches ControlFlow::Break(
                strict,
            )
            &&& warn_try_sc_error::<T, W, E, U, W>(WarnResult::Error(e)) matches ControlFlow::Break(
                error_only,
            )
            &&& error_only == strict
        }),
        warn_try_sc_error_result::<T, W, E, U>(WarnResult::Error(e)) == ControlFlow::<
            Result<U, E>,
            WOK<T, W>,
        >::Break(Err(e)),
        warn_try_sc_warning::<T, W, E, U>(WarnResult::Error(e)) == ControlFlow::<
            WarnResult<U, W, E>,
            T,
        >::Break(WarnResult::Error(e)),
{
}

/// A propagation point lets the computation go on exactly when the outcome
/// permits it: a strict point on a success only, an error-only point on
/// everything but an error.
pub proof fn law_who_goes_on<T, W, E, U, V>(x: WarnResult<T, W, E>)
    ensures
        warn_try_sc_warning::<T, W, E, U>(x) is Continue <==> x.is_ok(),
        warn_try_sc_error::<T, W, E, U, V>(x) is Continue <==> !x.is_err(),
        warn_try_sc_error_result::<T, W, E, U>(x) is Continue <==> !x.is_err(),
{
}

} // verus!
