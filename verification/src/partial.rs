//! The three-state result type that the rest of the crate builds on.

use vstd::prelude::*;

verus! {

/// A result with three outcomes: a trustworthy payload (`Value`), a payload
/// synthesized after a recoverable failure (`Fake`) — still inspectable, but
/// not to be trusted as a genuine result — and total absence of a payload
/// (`Nothing`).
#[derive(Clone, PartialEq, Eq, PartialOrd, Ord, Debug)]
pub enum Partial<U> {
    /// A validly computed payload.
    Value(U),
    /// A placeholder payload produced after a recoverable error.
    Fake(U),
    /// No payload; unrecoverable absence of a result.
    Nothing,
}

impl<U> Partial<U> {
    /// Whether a payload is present, trustworthy or not.
    pub open spec fn has_data(self) -> bool {
        !(self is Nothing)
    }

    /// The payload carried by `Value` or `Fake`.
    pub open spec fn payload(self) -> U
        recommends
            self.has_data(),
    {
        match self {
            Partial::Value(x) => x,
            Partial::Fake(x) => x,
            Partial::Nothing => arbitrary(),
        }
    }

    /// The taint rule applied after a step started from a `Fake` input: a
    /// `Value` payload is downgraded to `Fake`, since it was computed from an
    /// unreliable input; `Fake` and `Nothing` pass through unchanged.
    pub open spec fn downgrade(self) -> Partial<U> {
        match self {
            Partial::Value(x) => Partial::Fake(x),
            other => other,
        }
    }

    /// Everything `unwrap_or_else` promises of its result `r`: the payload
    /// when one is present, otherwise whatever the fallback `f` produced.
    pub open spec fn unwrap_or_else_post<F: FnOnce() -> U>(self, f: F, r: U) -> bool {
        if self.has_data() {
            r == self.payload()
        } else {
            call_ensures(f, (), r)
        }
    }

    /// Returns the payload of `Value` or `Fake`. Calling this on `Nothing` is
    /// a fatal contract violation, so `Nothing` is excluded up front.
    pub fn unwrap(self) -> (r: U)
        requires
            self.has_data(),
        ensures
            r == self.payload(),
    {
        match self {
            Partial::Value(x) => x,
            Partial::Fake(x) => x,
            Partial::Nothing => unreached(),
        }
    }

    /// Same as `unwrap`; the message would only label the fatal failure on
    /// `Nothing`, which the contract rules out.
    pub fn expect(self, msg: &str) -> (r: U)
        requires
            self.has_data(),
        ensures
            r == self.payload(),
    {
        let _ = msg;
        match self {
            Partial::Value(x) => x,
            Partial::Fake(x) => x,
            Partial::Nothing => unreached(),
        }
    }

    /// Returns the payload of `Value` or `Fake`; for `Nothing`, invokes the
    /// zero-argument fallback `f` exactly once and returns its result.
    pub fn unwrap_or_else<F: FnOnce() -> U>(self, f: F) -> (r: U)
        requires
            !self.has_data() ==> call_requires(f, ()),
        ensures
            self.unwrap_or_else_post(f, r),
    {
        match self {
            Partial::Value(x) => x,
            Partial::Fake(x) => x,
            Partial::Nothing => f(),
        }
    }
}

} // verus!
