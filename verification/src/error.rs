//! The error taxonomy of the engine.
//!
//! Every failure is surfaced to the caller as a typed result; there is no
//! silent retry anywhere in the core.

use vstd::prelude::*;

verus! {

/// A failure surfaced by the engine.
#[derive(Clone, Copy, Debug, PartialEq, Eq, Structural)]
pub enum Error {
    /// No adapter satisfies the requested feature and limit set
    /// (fatal, no recovery).
    NoCompatibleDevice,
    /// The byte length of initial contents does not match the product of
    /// element count and element stride (programmer error, fatal at
    /// construction time).
    SizeMismatch,
    /// A bind group disagrees with the binding shape a pipeline expects
    /// (programmer error, fatal at construction time).
    IncompatibleBinding,
    /// A staging buffer was read, released, or reassigned as a copy
    /// destination outside its valid protocol window (caller protocol
    /// violation, indicates a scheduling bug).
    BufferBusy,
    /// The connection to the device terminated unexpectedly mid-operation;
    /// the caller must reacquire a device context and rebuild all resources.
    DeviceLost,
}

} // verus!
