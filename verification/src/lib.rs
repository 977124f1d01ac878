//! A stack-disciplined bridge to an embedded, stack-based scripting engine.
//!
//! The engine exposes a single shared mutable value stack per heap; every
//! native call that pushes a slot must be matched by exactly one pop, or the
//! stack is corrupted for every later call on the same heap. This crate
//! verifies the part of the bridge where that discipline lives: the call
//! block that tracks pushed slots and is provably stack-neutral on every
//! exit path, the marshaling of engine doubles into host numbers, the
//! validated mapping of engine error codes, and the decision logic of each
//! engine operation (evaluate, JSON decode, property get/set, encode).
//!
//! The engine itself is reached only through raw foreign calls, which this
//! library does not perform. Each verified operation instead emits the exact
//! sequence of engine primitives ([`stack::Op`] values) that an unverified
//! host loop executes, and consumes the engine's replies as plain values.

use vstd::prelude::*;

pub mod context;
pub mod error;
pub mod number;
pub mod stack;
pub mod types;

pub use context::Context;
pub use context::Object;
pub use error::DukError;
pub use error::DukErrorCode;
pub use number::Number;
pub use types::Value;

verus! {

/// Outcome of a fallible engine-bridge operation.
pub type DukResult<T> = Result<T, DukError>;

} // verus!
