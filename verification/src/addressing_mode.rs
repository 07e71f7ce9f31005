//! How a register takes part in an operand.

use vstd::prelude::*;
use crate::register::Register;

verus! {

/// A register operand: the register itself, the memory it points to, or the
/// memory at a fixed distance from where it points.
#[derive(Debug, Copy, Clone, PartialEq, Eq, Structural)]
pub enum AddressingMode {
    Direct(Register),
    Indirect(Register),
    Based(i32, Register),
}

impl AddressingMode {
    /// A based mode never carries the offset zero: that operand is written as
    /// the register itself.
    pub open spec fn normalized(self) -> bool {
        self matches AddressingMode::Based(offset, _) ==> offset != 0
    }

    /// The register at the distance `base`: the register itself for the
    /// distance zero.
    pub open spec fn spec_create_based(base: i32, register: Register) -> AddressingMode {
        if base == 0 {
            AddressingMode::Direct(register)
        } else {
            AddressingMode::Based(base, register)
        }
    }

    /// The register of the mode.
    pub open spec fn spec_register(self) -> Register {
        match self {
            AddressingMode::Direct(register) => register,
            AddressingMode::Indirect(register) => register,
            AddressingMode::Based(_, register) => register,
        }
    }

    /// Whether the operand is the register itself.
    pub open spec fn spec_is_direct(self) -> bool {
        self is Direct
    }

    pub fn create_based(base: i32, register: Register) -> (mode: Self)
        ensures
            mode == Self::spec_create_based(base, register),
            mode.normalized(),
            mode.spec_register() == register,
    {
        match base {
            0 => AddressingMode::Direct(register),
            _ => AddressingMode::Based(base, register),
        }
    }

    pub fn get_register(&self) -> (register: Register)
        ensures
            register == self.spec_register(),
    {
        match self {
            AddressingMode::Direct(register) => *register,
            AddressingMode::Indirect(register) => *register,
            AddressingMode::Based(_, register) => *register,
        }
    }

    pub fn is_direct_register(&self) -> (direct: bool)
        ensures
            direct == self.spec_is_direct(),
    {
        match self {
            AddressingMode::Direct(_) => true,
            _ => false,
        }
    }
}

} // verus!
