//! A partial payload paired with a persistent state, and the combinators that
//! thread that state through a chain of computations.

use crate::partial::Partial;
use vstd::prelude::*;

verus! {

/// A `Partial` payload together with a caller state `env` that is never lost,
/// even when the payload is `Nothing`. Useful for compilers where `env` holds
/// the configuration and `data` the current compilation result. The state is
/// transparently accessible through the public `env` field.
#[derive(Clone, PartialEq, Eq, PartialOrd, Ord, Debug)]
pub struct Environment<T, U> {
    /// Caller state; always present, carried forward by every chaining step.
    pub env: T,
    /// The payload, present or not.
    pub data: Partial<U>,
}

/// Everything `and_then` promises of its result `r` for an input `s` chained
/// with a step `f`. A `Value` input hands the step's result through unchanged;
/// a `Fake` input hands it through with its payload downgraded by the taint
/// rule; a `Nothing` input skips the step and keeps the state.
pub open spec fn and_then_post<T, U, R, F: FnOnce(T, U) -> Environment<T, R>>(
    s: Environment<T, U>,
    f: F,
    r: Environment<T, R>,
) -> bool {
    match s.data {
        Partial::Value(x) => call_ensures(f, (s.env, x), r),
        Partial::Fake(x) => exists|m: Environment<T, R>|
            {
                &&& #[trigger] call_ensures(f, (s.env, x), m)
                &&& r.env == m.env
                &&& r.data == m.data.downgrade()
            },
        Partial::Nothing => r.env == s.env && r.data is Nothing,
    }
}

/// Everything `and_next` promises of its result `r`: a `Value` input hands the
/// step's result through unchanged; any other input skips the step and keeps
/// the state, with no payload.
pub open spec fn and_next_post<T, U, R, F: FnOnce(T, U) -> Environment<T, R>>(
    s: Environment<T, U>,
    f: F,
    r: Environment<T, R>,
) -> bool {
    match s.data {
        Partial::Value(x) => call_ensures(f, (s.env, x), r),
        _ => r.env == s.env && r.data is Nothing,
    }
}

impl<T, U> Environment<T, U> {
    /// Direct construction from a state and a payload.
    pub fn new(env: T, data: Partial<U>) -> (r: Self)
        ensures
            r.env == env,
            r.data == data,
    {
        Environment { env, data }
    }

    /// Shorthand for a trustworthy payload.
    pub fn value(env: T, data: U) -> (r: Self)
        ensures
            r.env == env,
            r.data == Partial::Value(data),
    {
        Self::new(env, Partial::Value(data))
    }

    /// Shorthand for a recovered, untrustworthy payload.
    pub fn fake(env: T, data: U) -> (r: Self)
        ensures
            r.env == env,
            r.data == Partial::Fake(data),
    {
        Self::new(env, Partial::Fake(data))
    }

    /// Shorthand for an absent payload; only the state is kept.
    pub fn nothing(env: T) -> (r: Self)
        ensures
            r.env == env,
            r.data is Nothing,
    {
        Self::new(env, Partial::Nothing)
    }

    /// Read access to the state without touching the payload.
    pub fn env_ref(&self) -> (r: &T)
        ensures
            *r == self.env,
    {
        &self.env
    }

    /// Replaces the state in place, leaving the payload untouched.
    pub fn set_env(&mut self, env: T)
        ensures
            final(self).env == env,
            final(self).data == old(self).data,
    {
        self.env = env;
    }

    /// Consumes the pair, discards the state and returns the payload; absence
    /// of a payload is a fatal contract violation, excluded up front.
    pub fn unwrap(self) -> (r: U)
        requires
            self.data.has_data(),
        ensures
            r == self.data.payload(),
    {
        self.data.unwrap()
    }

    /// Same as `unwrap`, with a caller-supplied diagnostic for the fatal
    /// failure that the contract rules out.
    pub fn expect(self, msg: &str) -> (r: U)
        requires
            self.data.has_data(),
        ensures
            r == self.data.payload(),
    {
        self.data.expect(msg)
    }

    /// Consumes the pair and returns the payload when one is present;
    /// otherwise invokes the zero-argument fallback `f` exactly once — the
    /// state is discarded either way and never reaches `f`.
    pub fn unwrap_or_else<F: FnOnce() -> U>(self, f: F) -> (r: U)
        requires
            !self.data.has_data() ==> call_requires(f, ()),
        ensures
            self.data.unwrap_or_else_post(f, r),
    {
        self.data.unwrap_or_else(f)
    }

    /// Chains a best-effort step. A `Value` payload is handed to `f` together
    /// with the state, and the step's result is returned unchanged. A `Fake`
    /// payload is handed to `f` too, but the result's payload is downgraded:
    /// a step fed an unreliable input cannot produce a trustworthy `Value`.
    /// `Nothing` skips the step and keeps the state.
    pub fn and_then<R, F: FnOnce(T, U) -> Environment<T, R>>(self, f: F) -> (r: Environment<
        T,
        R,
    >)
        requires
            self.data.has_data() ==> call_requires(f, (self.env, self.data.payload())),
        ensures
            and_then_post(self, f, r),
    {
        let Environment { env, data } = self;
        match data {
            Partial::Value(x) => f(env, x),
            Partial::Fake(x) => {
                let stepped = f(env, x);
                let Environment { env: env2, data: data2 } = stepped;
                let out = match data2 {
                    Partial::Value(y) => Environment::fake(env2, y),
                    other => Environment::new(env2, other),
                };
                out
            },
            Partial::Nothing => Environment::nothing(env),
        }
    }

    /// Chains a step that needs a trustworthy input. Only a `Value` payload is
    /// handed to `f`; `Fake` and `Nothing` both skip the step and keep the
    /// state, discarding any fake payload.
    pub fn and_next<R, F: FnOnce(T, U) -> Environment<T, R>>(self, f: F) -> (r: Environment<
        T,
        R,
    >)
        requires
            self.data is Value ==> call_requires(f, (self.env, self.data.payload())),
        ensures
            and_next_post(self, f, r),
    {
        let Environment { env, data } = self;
        match data {
            Partial::Value(x) => f(env, x),
            _ => Environment::nothing(env),
        }
    }
}

/// When no payload is present, `unwrap_or_else` returns exactly what the
/// fallback produced; the fallback takes no arguments, so the discarded state
/// can never influence the result.
pub proof fn lemma_unwrap_or_else_nothing_runs_fallback<T, U, F: FnOnce() -> U>(
    s: Environment<T, U>,
    f: F,
    r: U,
)
    requires
        s.data is Nothing,
        s.data.unwrap_or_else_post(f, r),
    ensures
        call_ensures(f, (), r),
{
}

/// Validity is preserved: on a `Value` input, a step whose every outcome
/// carries a `Value` chains through `and_then` to a `Value` again.
pub proof fn lemma_and_then_preserves_value<T, U, R, F: FnOnce(T, U) -> Environment<T, R>>(
    s: Environment<T, U>,
    f: F,
    r: Environment<T, R>,
)
    requires
        s.data is Value,
        and_then_post(s, f, r),
        forall|m: Environment<T, R>|
            #[trigger] call_ensures(f, (s.env, s.data.payload()), m) ==> m.data is Value,
    ensures
        r.data is Value,
{
}

/// Taint monotonicity: on a `Fake` input, a step whose every outcome is the
/// trustworthy `value(e2, y)` chains through `and_then` to `fake(e2, y)` —
/// the step's `Value` is downgraded and never promoted back.
pub proof fn lemma_and_then_taint_monotonic<T, U, R, F: FnOnce(T, U) -> Environment<T, R>>(
    s: Environment<T, U>,
    f: F,
    r: Environment<T, R>,
    e2: T,
    y: R,
)
    requires
        s.data is Fake,
        and_then_post(s, f, r),
        forall|m: Environment<T, R>|
            #[trigger] call_ensures(f, (s.env, s.data.payload()), m) ==> m.env == e2 && m.data
                == Partial::Value(y),
    ensures
        r.env == e2,
        r.data == Partial::Fake(y),
{
}

/// Absorption: on a `Nothing` input, whatever the step, `and_then` yields
/// `Nothing` again and the state comes through exactly as it went in.
pub proof fn lemma_and_then_absorbs_nothing<T, U, R, F: FnOnce(T, U) -> Environment<T, R>>(
    s: Environment<T, U>,
    f: F,
    r: Environment<T, R>,
)
    requires
        s.data is Nothing,
        and_then_post(s, f, r),
    ensures
        r.env == s.env,
        r.data is Nothing,
{
}

/// Strictness of `and_next`: on a `Fake` or `Nothing` input, whatever the
/// step, `and_next` yields `Nothing` — any fake payload is discarded — and
/// the state comes through exactly as it went in.
pub proof fn lemma_and_next_strict<T, U, R, F: FnOnce(T, U) -> Environment<T, R>>(
    s: Environment<T, U>,
    f: F,
    r: Environment<T, R>,
)
    requires
        !(s.data is Value),
        and_next_post(s, f, r),
    ensures
        r.env == s.env,
        r.data is Nothing,
{
}

} // verus!
