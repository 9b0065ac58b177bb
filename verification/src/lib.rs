//! A value-carrying result abstraction for computations that must keep going
//! after recoverable errors, such as compilers and parsers that recover and
//! still want a best-effort value for later diagnostics.
//!
//! [`Partial`] distinguishes three outcomes: a trustworthy value, a recovered
//! placeholder value produced despite an error, and no value at all.
//! [`Environment`] pairs a `Partial` payload with a persistent state `env`
//! that survives every chaining step, whether or not a payload was produced.

pub mod environment;
pub mod partial;

pub use environment::Environment;
pub use partial::Partial;
