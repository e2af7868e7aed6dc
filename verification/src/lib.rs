//! A binary outcome value: every `Outcome` is either `Success` or `Failure`.
//!
//! The type carries no payload; it is a semantically named replacement for a
//! raw boolean return value. A small set of combinators composes outcomes in
//! the style of boolean logic (`and`, `or`, and their lazy forms `and_then`,
//! `or_then`) and converts them into `Option` and `Result` values.

use vstd::prelude::*;

verus! {

pub use crate::Outcome::Failure;
pub use crate::Outcome::Success;

/// A two-variant result tag: `Success` or `Failure`, with no payload.
#[derive(Clone, Copy, PartialEq, Eq, Structural, Debug, Hash)]
pub enum Outcome {
    /// Successful
    Success,
    /// Not successful
    Failure,
}

impl Outcome {
    /// The outcome that stands for the boolean `good`:
    /// `true` maps to `Success`, `false` to `Failure`.
    pub open spec fn spec_from_bool(good: bool) -> Outcome {
        if good {
            Outcome::Success
        } else {
            Outcome::Failure
        }
    }

    /// Whether this outcome is `Success`.
    pub open spec fn spec_is_success(self) -> bool {
        self is Success
    }

    /// Whether this outcome is `Failure`.
    pub open spec fn spec_is_failure(self) -> bool {
        self is Failure
    }

    /// Returns `Success` if `good` is `true`, otherwise returns `Failure`.
    pub fn from_bool(good: bool) -> (r: Outcome)
        ensures
            r == Outcome::spec_from_bool(good),
    {
        match good {
            true => Success,
            false => Failure,
        }
    }

    /// Returns `true` if the outcome is a success.
    pub fn is_success(&self) -> (r: bool)
        ensures
            r == self.spec_is_success(),
    {
        *self == Success
    }

    /// Returns `true` if the outcome is a failure; the logical negation of
    /// `is_success`.
    pub fn is_failure(&self) -> (r: bool)
        ensures
            r == self.spec_is_failure(),
    {
        !self.is_success()
    }

    /// Transforms the outcome into an `Option<T>`, mapping `Success` to
    /// `Some(ok)` and `Failure` to `None`.
    pub fn or_none<T>(self, ok: T) -> (r: Option<T>)
        ensures
            self is Success ==> r == Some(ok),
            self is Failure ==> r == None::<T>,
    {
        match self {
            Success => Some(ok),
            Failure => None,
        }
    }

    /// Transforms the outcome into a `Result<T, E>`, mapping `Success` to
    /// `Ok(good)` and `Failure` to `Err(err)`.
    pub fn or_err<T, E>(self, good: T, err: E) -> (r: Result<T, E>)
        ensures
            self is Success ==> r == Ok::<T, E>(good),
            self is Failure ==> r == Err::<T, E>(err),
    {
        match self {
            Success => Ok(good),
            Failure => Err(err),
        }
    }

    /// Returns `good`. The outcome must be `Success`: calling this on a
    /// `Failure` value terminates abnormally instead of returning, so the
    /// precondition asks every verified caller to establish success first.
    pub fn or_panic<T>(self, good: T) -> (r: T)
        requires
            self is Success,
        ensures
            r == good,
    {
        match self {
            Success => good,
            Failure => vstd::pervasive::unreached(),
        }
    }

    /// Returns `Failure` if the outcome is `Failure`, otherwise returns
    /// `outb` (eager short-circuit AND).
    pub fn and(self, outb: Outcome) -> (r: Outcome)
        ensures
            self is Success ==> r == outb,
            self is Failure ==> r == Outcome::Failure,
    {
        match self {
            Success => outb,
            Failure => Failure,
        }
    }

    /// Returns `Success` if the outcome is `Success`, otherwise returns
    /// `outb` (eager short-circuit OR).
    pub fn or(self, outb: Outcome) -> (r: Outcome)
        ensures
            self is Success ==> r == Outcome::Success,
            self is Failure ==> r == outb,
    {
        match self {
            Success => Success,
            Failure => outb,
        }
    }

    /// Returns `Failure` if the outcome is `Failure`, without invoking `f`;
    /// otherwise invokes `f` and returns its result (lazy AND).
    pub fn and_then<F: FnOnce() -> Outcome>(self, f: F) -> (r: Outcome)
        requires
            self is Success ==> call_requires(f, ()),
        ensures
            self is Failure ==> r == Outcome::Failure,
            self is Success ==> call_ensures(f, (), r),
    {
        match self {
            Success => f(),
            Failure => Failure,
        }
    }

    /// Returns `Success` if the outcome is `Success`, without invoking `f`;
    /// otherwise invokes `f` and returns its result (lazy OR).
    pub fn or_then<F: FnOnce() -> Outcome>(self, f: F) -> (r: Outcome)
        requires
            self is Failure ==> call_requires(f, ()),
        ensures
            self is Success ==> r == Outcome::Success,
            self is Failure ==> call_ensures(f, (), r),
    {
        match self {
            Success => Success,
            Failure => f(),
        }
    }
}

/// For every boolean `good`, the outcome built from it reports success
/// exactly when `good` is true and failure exactly when `good` is false.
pub proof fn lemma_from_bool_reflects_bool(good: bool)
    ensures
        Outcome::spec_from_bool(good).spec_is_success() == good,
        Outcome::spec_from_bool(good).spec_is_failure() == !good,
{
}

/// Every outcome is exactly one of success and failure: `spec_is_success`
/// and `spec_is_failure` never agree on the same value.
pub proof fn lemma_success_failure_exclusive(o: Outcome)
    ensures
        o.spec_is_success() == !o.spec_is_failure(),
{
}

} // verus!
