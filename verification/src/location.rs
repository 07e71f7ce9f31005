//! Operands of instructions.

use vstd::prelude::*;
use crate::addressing_mode::AddressingMode;
use crate::register::Register;
use crate::types::Number;

verus! {

/// An operand: an absolute address, a register operand, an immediate, or a
/// label of the data section addressed from the instruction pointer.
#[derive(Debug, PartialEq, Eq)]
pub enum Location {
    Memory(i64),
    Register(AddressingMode),
    Imm(Number),
    Label(String),
}

/// What a `Location` stands for.
pub enum LocationView {
    Memory(i64),
    Register(AddressingMode),
    Imm(Number),
    Label(Seq<char>),
}

impl View for Location {
    type V = LocationView;

    open spec fn view(&self) -> LocationView {
        match self {
            Location::Memory(address) => LocationView::Memory(*address),
            Location::Register(mode) => LocationView::Register(*mode),
            Location::Imm(number) => LocationView::Imm(*number),
            Location::Label(name) => LocationView::Label(name@),
        }
    }
}

impl LocationView {
    /// The register that a register operand names, whatever its mode.
    pub open spec fn register(self) -> Option<Register> {
        match self {
            LocationView::Register(mode) => Some(mode.spec_register()),
            _ => None,
        }
    }

    /// The mode of a register operand.
    pub open spec fn addressing_mode(self) -> Option<AddressingMode> {
        match self {
            LocationView::Register(mode) => Some(mode),
            _ => None,
        }
    }

    /// Whether this operand is a register itself, not memory reached through one.
    pub open spec fn is_direct_register(self) -> bool {
        self matches LocationView::Register(mode) && mode.spec_is_direct()
    }

    /// The operand that is the register itself.
    pub open spec fn direct(register: Register) -> LocationView {
        LocationView::Register(AddressingMode::Direct(register))
    }

    /// The stack slot that lies `position` bytes below the frame base.
    pub open spec fn slot(position: nat) -> LocationView {
        LocationView::Register(
            AddressingMode::spec_create_based((-(position as int)) as i32, Register::RBP),
        )
    }
}

/// The view of an operand that may be absent.
pub open spec fn optional_location_view(location: Option<Location>) -> Option<LocationView> {
    match location {
        Some(location) => Some(location@),
        None => None,
    }
}

/// The view of a text that may be absent.
pub open spec fn optional_text_view(text: Option<String>) -> Option<Seq<char>> {
    match text {
        Some(text) => Some(text@),
        None => None,
    }
}

/// A copy of a text that may be absent.
pub fn clone_optional_text(text: &Option<String>) -> (copy: Option<String>)
    ensures
        copy == *text,
{
    match text {
        Some(text) => Some(text.clone()),
        None => None,
    }
}

impl Clone for Location {
    fn clone(&self) -> (copy: Self)
        ensures
            copy == *self,
    {
        match self {
            Location::Memory(address) => Location::Memory(*address),
            Location::Register(mode) => Location::Register(*mode),
            Location::Imm(number) => Location::Imm(*number),
            Location::Label(name) => Location::Label(name.clone()),
        }
    }
}

impl Default for Location {
    fn default() -> (location: Self)
        ensures
            location == Location::Imm(Number::I32(0)),
    {
        Location::Imm(Number::I32(0))
    }
}

impl Location {
    pub fn get_register(&self) -> (register: Option<Register>)
        ensures
            register == self@.register(),
    {
        match self {
            Location::Register(mode) => Some(mode.get_register()),
            _ => None,
        }
    }

    pub fn get_addressing_mode(&self) -> (mode: Option<AddressingMode>)
        ensures
            mode == self@.addressing_mode(),
    {
        match self {
            Location::Register(mode) => Some(*mode),
            _ => None,
        }
    }

    /// The operand that is `register` itself.
    pub fn direct(register: Register) -> (location: Location)
        ensures
            location@ == LocationView::direct(register),
    {
        Location::Register(AddressingMode::Direct(register))
    }

    /// The stack slot that lies `position` bytes below the frame base.
    pub fn slot(position: usize) -> (location: Location)
        requires
            position <= crate::store::MAX_FRAME_SIZE,
        ensures
            location@ == LocationView::slot(position as nat),
    {
        Location::Register(AddressingMode::create_based(-(position as i32), Register::RBP))
    }
}

} // verus!
