//! A 16-bit register machine: instruction decoding, the register and flag
//! state machine, a 64K-word memory with two memory-mapped keyboard
//! registers, and trap dispatch.

use vstd::prelude::*;

pub mod cpu;
pub mod instructions;
pub mod memory;
pub mod register;
pub mod trap;

verus! {

/// An error that stops a program run: the engine has no recovery path for an
/// instruction it cannot execute, so these are surfaced to the caller.
#[derive(Debug, Clone, Copy, PartialEq, Eq)]
pub enum VmError {
    /// An op-code value that maps to no known variant. The 4-bit op-code
    /// space is fully enumerated, so decoding never produces this; it is kept
    /// as the decoder's defensive completeness case.
    DecodeError(u16),
    /// A structurally valid but unsupported operation: one of the two
    /// reserved op-codes, or a recognized trap vector with no behaviour.
    UnimplementedOpcode(u16),
    /// A trap vector outside the recognized set.
    InvalidTrapVector(u16),
}

} // verus!
