//! The outcome with two states: a success, or a success with a caveat.

use vstd::prelude::*;

verus! {

/// Warning or Ok (WOK): a value of `T` that came out cleanly, or a warning of
/// `W` in its place. There is no failure arm.
#[derive(Debug, Clone, Copy, PartialEq, Eq)]
pub enum WOK<T, W> {
    Okay(T),
    Warning(W),
}

impl<T, W> WOK<T, W> {
    /// The clean success that holds `val`.
    pub open spec fn spec_ok(val: T) -> Self {
        WOK::Okay(val)
    }

    /// Builds the clean success that holds `val`.
    #[verifier::when_used_as_spec(spec_ok)]
    pub fn ok(val: T) -> (out: Self)
        ensures
            out == Self::spec_ok(val),
    {
        Self::Okay(val)
    }

    /// The warning that holds `warn`.
    pub open spec fn spec_warning(warn: W) -> Self {
        WOK::Warning(warn)
    }

    /// Builds the warning that holds `warn`.
    #[verifier::when_used_as_spec(spec_warning)]
    pub fn warning(warn: W) -> (out: Self)
        ensures
            out == Self::spec_warning(warn),
    {
        Self::Warning(warn)
    }

    /// Whether this is the `Okay` arm.
    pub open spec fn spec_is_ok(&self) -> bool {
        self is Okay
    }

    /// Tells whether this is the `Okay` arm.
    #[verifier::when_used_as_spec(spec_is_ok)]
    pub fn is_ok(&self) -> (b: bool)
        ensures
            b == self.spec_is_ok(),
    {
        matches!(self, Self::Okay(_))
    }

    /// Whether this is the `Warning` arm.
    pub open spec fn spec_is_warning(&self) -> bool {
        self is Warning
    }

    /// Tells whether this is the `Warning` arm.
    #[verifier::when_used_as_spec(spec_is_warning)]
    pub fn is_warning(&self) -> (b: bool)
        ensures
            b == self.spec_is_warning(),
    {
        matches!(self, Self::Warning(_))
    }

    /// The success payload. Meaningful on the `Okay` arm only.
    pub open spec fn spec_unwrap(self) -> T
        recommends
            self is Okay,
    {
        self->Okay_0
    }

    /// Takes the success payload out. The caller has ruled the warning out.
    #[verifier::when_used_as_spec(spec_unwrap)]
    pub fn unwrap(self) -> (t: T)
        requires
            self is Okay,
        ensures
            t == self.spec_unwrap(),
    {
        match self {
            Self::Okay(t) => t,
            // Ruled out by the precondition. A caller outside the verifier's
            // sight that breaks it is stopped here, with this message.
            Self::Warning(_) => Option::<T>::None.expect("called `unwrap()` on a `Warning` value"),
        }
    }

    /// The success payload, or `default` for a warning.
    pub open spec fn spec_unwrap_or(self, default: T) -> T {
        match self {
            WOK::Okay(t) => t,
            WOK::Warning(_) => default,
        }
    }

    /// Takes the success payload out, or gives `default` for a warning.
    #[verifier::when_used_as_spec(spec_unwrap_or)]
    pub fn unwrap_or(self, default: T) -> (t: T)
        ensures
            t == self.spec_unwrap_or(default),
    {
        match self {
            Self::Okay(t) => t,
            _ => default,
        }
    }

    /// Whether `t` is what `unwrap_or_else` may give for `self` and `f`: the
    /// success payload, or for a warning anything that a call of `f` may
    /// return.
    pub open spec fn unwraps_or_else_to<F: FnOnce() -> T>(self, f: F, t: T) -> bool {
        match self {
            WOK::Okay(v) => t == v,
            WOK::Warning(_) => f.ensures((), t),
        }
    }

    /// Takes the success payload out, or calls `f` for a warning. `f` is
    /// called on the `Warning` arm only, so only there must it be callable.
    pub fn unwrap_or_else<F: FnOnce() -> T>(self, f: F) -> (t: T)
        requires
            self is Warning ==> f.requires(()),
        ensures
            self.unwraps_or_else_to(f, t),
    {
        match self {
            Self::Okay(t) => t,
            _ => f(),
        }
    }

    /// Whether `out` is what `map` may return for `self` and `f`: a success
    /// whose payload a call of `f` on the old payload may return, or the
    /// warning as it was.
    pub open spec fn maps_to<U, F: FnOnce(T) -> U>(self, f: F, out: WOK<U, W>) -> bool {
        match self {
            WOK::Okay(t) => out is Okay && f.ensures((t,), out->Okay_0),
            WOK::Warning(w) => out == WOK::<U, W>::Warning(w),
        }
    }

    /// Transforms the success payload with `f` and hands a warning through.
    /// `f` is called on the `Okay` arm only.
    pub fn map<U, F: FnOnce(T) -> U>(self, f: F) -> (out: WOK<U, W>)
        requires
            self is Okay ==> f.requires((self->Okay_0,)),
        ensures
            self.maps_to(f, out),
    {
        match self {
            Self::Okay(t) => WOK::Okay(f(t)),
            Self::Warning(w) => WOK::Warning(w),
        }
    }

    /// Whether `out` is what `map_warning` may return for `self` and `f`.
    pub open spec fn maps_warning_to<U, F: FnOnce(W) -> U>(self, f: F, out: WOK<T, U>) -> bool {
        match self {
            WOK::Okay(t) => out == WOK::<T, U>::Okay(t),
            WOK::Warning(w) => out is Warning && f.ensures((w,), out->Warning_0),
        }
    }

    /// Transforms the warning payload with `f` and hands a success through.
    /// `f` is called on the `Warning` arm only.
    pub fn map_warning<U, F: FnOnce(W) -> U>(self, f: F) -> (out: WOK<T, U>)
        requires
            self is Warning ==> f.requires((self->Warning_0,)),
        ensures
            self.maps_warning_to(f, out),
    {
        match self {
            Self::Okay(t) => WOK::Okay(t),
            Self::Warning(w) => WOK::Warning(f(w)),
        }
    }
}

impl<T, W> WOK<T, W> where T: Default {
    /// Whether `t` is what `unwrap_or_default` may give for `self`: the
    /// success payload, or for a warning a value that `T::default` may
    /// return.
    pub open spec fn unwraps_or_default_to(self, t: T) -> bool {
        match self {
            WOK::Okay(v) => t == v,
            WOK::Warning(_) => T::default.ensures((), t),
        }
    }

    /// Takes the success payload out, or gives `T`'s default for a warning.
    pub fn unwrap_or_default(self) -> (t: T)
        ensures
            self.unwraps_or_default_to(t),
    {
        match self {
            WOK::Okay(t) => t,
            WOK::Warning(_) => T::default(),
        }
    }
}

} // verus!
