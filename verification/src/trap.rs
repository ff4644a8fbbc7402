//! Trap vectors: the 8-bit operand of a Trap instruction names one of a
//! fixed set of system-call behaviours.

use vstd::prelude::*;

use crate::VmError;

verus! {

/// The recognized trap behaviours.
#[derive(Debug, Clone, Copy, PartialEq, Eq)]
pub enum TrapType {
    /// Read one byte from the host input stream into R0.
    Get,
    /// Write R0's low byte to the host output stream.
    Out,
    /// Write the zero-terminated word sequence R0 points at.
    Put,
    /// Documented by the instruction set but unsupported here.
    In,
    /// Documented by the instruction set but unsupported here.
    PutSp,
    /// Stop the execution loop.
    Halt,
}

/// The trap each 8-bit vector names; vectors outside the recognized set are
/// an error, not a new variant.
pub open spec fn spec_trap(value: u16) -> Result<TrapType, VmError> {
    if value == 0x20 {
        Ok(TrapType::Get)
    } else if value == 0x21 {
        Ok(TrapType::Out)
    } else if value == 0x22 {
        Ok(TrapType::Put)
    } else if value == 0x23 {
        Ok(TrapType::In)
    } else if value == 0x24 {
        Ok(TrapType::PutSp)
    } else if value == 0x25 {
        Ok(TrapType::Halt)
    } else {
        Err(VmError::InvalidTrapVector(value))
    }
}

impl TrapType {
    /// Maps a trap vector to its behaviour, `Err` exactly on unknown vectors.
    pub fn from_vector(value: u16) -> (r: Result<TrapType, VmError>)
        ensures
            r == spec_trap(value),
    {
        if value == 0x20 {
            Ok(TrapType::Get)
        } else if value == 0x21 {
            Ok(TrapType::Out)
        } else if value == 0x22 {
            Ok(TrapType::Put)
        } else if value == 0x23 {
            Ok(TrapType::In)
        } else if value == 0x24 {
            Ok(TrapType::PutSp)
        } else if value == 0x25 {
            Ok(TrapType::Halt)
        } else {
            Err(VmError::InvalidTrapVector(value))
        }
    }
}

} // verus!
