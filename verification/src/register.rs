//! The register file's names: 8 general-purpose registers, the program
//! counter and the condition-flag register, addressed as slots `0..10`.

use vstd::prelude::*;

verus! {

/// How many addressable register slots the machine has.
pub const REGISTER_COUNT: usize = 10;

/// Slot of the program counter.
pub const PC_INDEX: usize = 8;

/// Slot of the condition-flag register.
pub const COND_INDEX: usize = 9;

/// A general-purpose register.
#[derive(Debug, Clone, Copy, PartialEq, Eq)]
pub enum General {
    R0,
    R1,
    R2,
    R3,
    R4,
    R5,
    R6,
    R7,
}

/// A named register: general purpose, program counter, or condition flags.
#[derive(Debug, Clone, Copy, PartialEq, Eq)]
pub enum Registers {
    GeneralRegister(General),
    ProgramCounter,
    Condition,
}

/// The slot each named register occupies in the register file.
pub open spec fn index_of(r: Registers) -> u16 {
    match r {
        Registers::GeneralRegister(General::R0) => 0,
        Registers::GeneralRegister(General::R1) => 1,
        Registers::GeneralRegister(General::R2) => 2,
        Registers::GeneralRegister(General::R3) => 3,
        Registers::GeneralRegister(General::R4) => 4,
        Registers::GeneralRegister(General::R5) => 5,
        Registers::GeneralRegister(General::R6) => 6,
        Registers::GeneralRegister(General::R7) => 7,
        Registers::ProgramCounter => 8,
        Registers::Condition => 9,
    }
}

/// The named register of each slot, if the slot exists.
pub open spec fn register_of(slot: u16) -> Option<Registers> {
    if slot == 0 {
        Some(Registers::GeneralRegister(General::R0))
    } else if slot == 1 {
        Some(Registers::GeneralRegister(General::R1))
    } else if slot == 2 {
        Some(Registers::GeneralRegister(General::R2))
    } else if slot == 3 {
        Some(Registers::GeneralRegister(General::R3))
    } else if slot == 4 {
        Some(Registers::GeneralRegister(General::R4))
    } else if slot == 5 {
        Some(Registers::GeneralRegister(General::R5))
    } else if slot == 6 {
        Some(Registers::GeneralRegister(General::R6))
    } else if slot == 7 {
        Some(Registers::GeneralRegister(General::R7))
    } else if slot == 8 {
        Some(Registers::ProgramCounter)
    } else if slot == 9 {
        Some(Registers::Condition)
    } else {
        None
    }
}

impl Registers {
    /// The slot of a named register, always below [`REGISTER_COUNT`].
    pub fn get_index(r: Registers) -> (slot: u16)
        ensures
            slot == index_of(r),
            slot < 10,
    {
        match r {
            Registers::GeneralRegister(General::R0) => 0,
            Registers::GeneralRegister(General::R1) => 1,
            Registers::GeneralRegister(General::R2) => 2,
            Registers::GeneralRegister(General::R3) => 3,
            Registers::GeneralRegister(General::R4) => 4,
            Registers::GeneralRegister(General::R5) => 5,
            Registers::GeneralRegister(General::R6) => 6,
            Registers::GeneralRegister(General::R7) => 7,
            Registers::ProgramCounter => 8,
            Registers::Condition => 9,
        }
    }

    /// The named register of a slot; `None` exactly when the slot is out of
    /// range. The enumeration is closed, so the two functions invert each
    /// other.
    pub fn get_register(register_count: u16) -> (r: Option<Registers>)
        ensures
            r == register_of(register_count),
            register_count < 10 ==> (r matches Some(reg) && index_of(reg) == register_count),
            register_count >= 10 ==> r is None,
    {
        if register_count == 0 {
            Some(Registers::GeneralRegister(General::R0))
        } else if register_count == 1 {
            Some(Registers::GeneralRegister(General::R1))
        } else if register_count == 2 {
            Some(Registers::GeneralRegister(General::R2))
        } else if register_count == 3 {
            Some(Registers::GeneralRegister(General::R3))
        } else if register_count == 4 {
            Some(Registers::GeneralRegister(General::R4))
        } else if register_count == 5 {
            Some(Registers::GeneralRegister(General::R5))
        } else if register_count == 6 {
            Some(Registers::GeneralRegister(General::R6))
        } else if register_count == 7 {
            Some(Registers::GeneralRegister(General::R7))
        } else if register_count == 8 {
            Some(Registers::ProgramCounter)
        } else if register_count == 9 {
            Some(Registers::Condition)
        } else {
            None
        }
    }
}

} // verus!
