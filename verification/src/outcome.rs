//! The outcome with three states: a success, a success with a caveat, or a
//! failure.

use vstd::prelude::*;

verus! {

/// A value of `T` that came out cleanly, a warning of `W`, or an error of `E`.
/// Exactly one arm is populated, and it is fixed when the value is built.
#[derive(Debug, Clone, Copy, PartialEq, Eq)]
pub enum WarnResult<T, W, E> {
    Okay(T),
    Warning(W),
    Error(E),
}

impl<T, W, E> WarnResult<T, W, E> {
    /// The clean success that holds `val`.
    pub open spec fn spec_ok(val: T) -> Self {
        WarnResult::Okay(val)
    }

    /// Builds the clean success that holds `val`.
    #[verifier::when_used_as_spec(spec_ok)]
    pub fn ok(val: T) -> (out: Self)
        ensures
            out == Self::spec_ok(val),
    {
        Self::Okay(val)
    }

    /// The warning that holds `warn`.
    pub open spec fn spec_warning(warn: W) -> Self {
        WarnResult::Warning(warn)
    }

    /// Builds the warning that holds `warn`.
    #[verifier::when_used_as_spec(spec_warning)]
    pub fn warning(warn: W) -> (out: Self)
        ensures
            out == Self::spec_warning(warn),
    {
        Self::Warning(warn)
    }

    /// The failure that holds `err`.
    pub open spec fn spec_err(err: E) -> Self {
        WarnResult::Error(err)
    }

    /// Builds the failure that holds `err`.
    #[verifier::when_used_as_spec(spec_err)]
    pub fn err(err: E) -> (out: Self)
        ensures
            out == Self::spec_err(err),
    {
        Self::Error(err)
    }

    /// Whether this is the `Okay` arm.
    pub open spec fn spec_is_ok(&self) -> bool {
        self is Okay
    }

    /// Tells whether this is the `Okay` arm.
    #[verifier::when_used_as_spec(spec_is_ok)]
    pub fn is_ok(&self) -> (b: bool)
        ensures
            b == self.spec_is_ok(),
    {
        matches!(self, Self::Okay(_))
    }

    /// Whether this is the `Warning` arm.
    pub open spec fn spec_is_warning(&self) -> bool {
        self is Warning
    }

    /// Tells whether this is the `Warning` arm.
    #[verifier::when_used_as_spec(spec_is_warning)]
    pub fn is_warning(&self) -> (b: bool)
        ensures
            b == self.spec_is_warning(),
    {
        matches!(self, Self::Warning(_))
    }

    /// Whether this is the `Error` arm.
    pub open spec fn spec_is_err(&self) -> bool {
        self is Error
    }

    /// Tells whether this is the `Error` arm.
    #[verifier::when_used_as_spec(spec_is_err)]
    pub fn is_err(&self) -> (b: bool)
        ensures
            b == self.spec_is_err(),
    {
        matches!(self, Self::Error(_))
    }

    /// The success payload. Meaningful on the `Okay` arm only.
    pub open spec fn spec_unwrap(self) -> T
        recommends
            self is Okay,
    {
        self->Okay_0
    }

    /// Takes the success payload out. The caller has ruled out both the
    /// warning and the error.
    #[verifier::when_used_as_spec(spec_unwrap)]
    pub fn unwrap(self) -> (t: T)
        requires
            self is Okay,
        ensures
            t == self.spec_unwrap(),
    {
        match self {
            Self::Okay(t) => t,
            // Both arms below are ruled out by the precondition. A caller
            // outside the verifier's sight that breaks it is stopped here,
            // with a message that tells which arm it held.
            Self::Warning(_) => Option::<T>::None.expect("called `unwrap()` on a `Warning` value"),
            Self::Error(_) => Option::<T>::None.expect("called `unwrap()` on an `Err` value"),
        }
    }

    /// The success payload, or `default` on either of the other two arms.
    pub open spec fn spec_unwrap_or(self, default: T) -> T {
        match self {
            WarnResult::Okay(t) => t,
            _ => default,
        }
    }

    /// Takes the success payload out, or gives `default` for a warning and
    /// for an error alike.
    #[verifier::when_used_as_spec(spec_unwrap_or)]
    pub fn unwrap_or(self, default: T) -> (t: T)
        ensures
            t == self.spec_unwrap_or(default),
    {
        match self {
            Self::Okay(t) => t,
            _ => default,
        }
    }

    /// Whether `t` is what `unwrap_or_else` may give for `self` and `f`: the
    /// success payload, or on the other two arms anything that a call of `f`
    /// may return.
    pub open spec fn unwraps_or_else_to<F: FnOnce() -> T>(self, f: F, t: T) -> bool {
        match self {
            WarnResult::Okay(v) => t == v,
            _ => f.ensures((), t),
        }
    }

    /// Takes the success payload out, or calls `f` for a warning and for an
    /// error alike. `f` is called on those two arms only, so only there must
    /// it be callable.
    pub fn unwrap_or_else<F: FnOnce() -> T>(self, f: F) -> (t: T)
        requires
            !(self is Okay) ==> f.requires(()),
        ensures
            self.unwraps_or_else_to(f, t),
    {
        match self {
            Self::Okay(t) => t,
            _ => f(),
        }
    }

    /// Whether `out` is what `map` may return for `self` and `f`: a success
    /// whose payload a call of `f` on the old payload may return, or the
    /// warning or error as it was.
    pub open spec fn maps_to<U, F: FnOnce(T) -> U>(self, f: F, out: WarnResult<U, W, E>) -> bool {
        match self {
            WarnResult::Okay(t) => out is Okay && f.ensures((t,), out->Okay_0),
            WarnResult::Warning(w) => out == WarnResult::<U, W, E>::Warning(w),
            WarnResult::Error(e) => out == WarnResult::<U, W, E>::Error(e),
        }
    }

    /// Transforms the success payload with `f` and hands a warning or an
    /// error through. `f` is called on the `Okay` arm only.
    pub fn map<U, F: FnOnce(T) -> U>(self, f: F) -> (out: WarnResult<U, W, E>)
        requires
            self is Okay ==> f.requires((self->Okay_0,)),
        ensures
            self.maps_to(f, out),
    {
        match self {
            Self::Okay(t) => WarnResult::Okay(f(t)),
            Self::Warning(w) => WarnResult::Warning(w),
            Self::Error(e) => WarnResult::Error(e),
        }
    }

    /// Whether `out` is what `map_warning` may return for `self` and `f`.
    pub open spec fn maps_warning_to<U, F: FnOnce(W) -> U>(
        self,
        f: F,
        out: WarnResult<T, U, E>,
    ) -> bool {
        match self {
            WarnResult::Okay(t) => out == WarnResult::<T, U, E>::Okay(t),
            WarnResult::Warning(w) => out is Warning && f.ensures((w,), out->Warning_0),
            WarnResult::Error(e) => out == WarnResult::<T, U, E>::Error(e),
        }
    }

    /// Transforms the warning payload with `f` and hands a success or an
    /// error through. `f` is called on the `Warning` arm only.
    pub fn map_warning<U, F: FnOnce(W) -> U>(self, f: F) -> (out: WarnResult<T, U, E>)
        requires
            self is Warning ==> f.requires((self->Warning_0,)),
        ensures
            self.maps_warning_to(f, out),
    {
        match self {
            Self::Okay(t) => WarnResult::Okay(t),
            Self::Warning(w) => WarnResult::Warning(f(w)),
            Self::Error(e) => WarnResult::Error(e),
        }
    }

    /// Whether `out` is what `map_err` may return for `self` and `f`.
    pub open spec fn maps_err_to<U, F: FnOnce(E) -> U>(
        self,
        f: F,
        out: WarnResult<T, W, U>,
    ) -> bool {
        match self {
            WarnResult::Okay(t) => out == WarnResult::<T, W, U>::Okay(t),
            WarnResult::Warning(w) => out == WarnResult::<T, W, U>::Warning(w),
            WarnResult::Error(e) => out is Error && f.ensures((e,), out->Error_0),
        }
    }

    /// Transforms the error payload with `f` and hands a success or a
    /// warning through. `f` is called on the `Error` arm only.
    pub fn map_err<U, F: FnOnce(E) -> U>(self, f: F) -> (out: WarnResult<T, W, U>)
        requires
            self is Error ==> f.requires((self->Error_0,)),
        ensures
            self.maps_err_to(f, out),
    {
        match self {
            Self::Okay(t) => WarnResult::Okay(t),
            Self::Warning(w) => WarnResult::Warning(w),
            Self::Error(e) => WarnResult::Error(f(e)),
        }
    }

    /// The success payload, `warn_default` for a warning, `err_default` for
    /// an error.
    pub open spec fn spec_ok_or(self, warn_default: T, err_default: T) -> T {
        match self {
            WarnResult::Okay(t) => t,
            WarnResult::Warning(_) => warn_default,
            WarnResult::Error(_) => err_default,
        }
    }

    /// Takes the success payload out, or gives the default that belongs to
    /// the arm: the one operation that tells a warning from an error.
    #[verifier::when_used_as_spec(spec_ok_or)]
    pub fn ok_or(self, warn_default: T, err_default: T) -> (t: T)
        ensures
            t == self.spec_ok_or(warn_default, err_default),
    {
        match self {
            Self::Okay(t) => t,
            Self::Warning(_) => warn_default,
            Self::Error(_) => err_default,
        }
    }

    /// Whether `t` is what `ok_or_else` may give for `self` and the two
    /// producers.
    pub open spec fn ok_or_else_gives<F1: FnOnce() -> T, F2: FnOnce() -> T>(
        self,
        warn_default: F1,
        err_default: F2,
        t: T,
    ) -> bool {
        match self {
            WarnResult::Okay(v) => t == v,
            WarnResult::Warning(_) => warn_default.ensures((), t),
            WarnResult::Error(_) => err_default.ensures((), t),
        }
    }

    /// Takes the success payload out, or calls the producer that belongs to
    /// the arm. At most one producer is called, and only on its own arm.
    pub fn ok_or_else<F1: FnOnce() -> T, F2: FnOnce() -> T>(
        self,
        warn_default: F1,
        err_default: F2,
    ) -> (t: T)
        requires
            self is Warning ==> warn_default.requires(()),
            self is Error ==> err_default.requires(()),
        ensures
            self.ok_or_else_gives(warn_default, err_default, t),
    {
        match self {
            Self::Okay(t) => t,
            Self::Warning(_) => warn_default(),
            Self::Error(_) => err_default(),
        }
    }
}

impl<T, W, E> WarnResult<T, W, E> where T: Default {
    /// Whether `t` is what `unwrap_or_default` may give for `self`: the
    /// success payload, or on the other two arms a value that `T::default`
    /// may return.
    pub open spec fn unwraps_or_default_to(self, t: T) -> bool {
        match self {
            WarnResult::Okay(v) => t == v,
            _ => T::default.ensures((), t),
        }
    }

    /// Takes the success payload out, or gives `T`'s default for a warning
    /// and for an error alike.
    pub fn unwrap_or_default(self) -> (t: T)
        ensures
            self.unwraps_or_default_to(t),
    {
        match self {
            WarnResult::Okay(t) => t,
            WarnResult::Warning(_) => T::default(),
            WarnResult::Error(_) => T::default(),
        }
    }
}

} // verus!
