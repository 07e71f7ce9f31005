//! A small ahead-of-time compiler backend: it lowers an intermediate
//! representation of functions, assignments, conditionals, calls and
//! arithmetic into x86-64 assembly text in AT&T syntax.

pub mod register;
pub mod types;
pub mod addressing_mode;
pub mod location;
pub mod instruction;
pub mod store;
pub mod text;
pub mod tool;
pub mod context;
pub mod compiler;
pub mod syntax;
pub mod generator;
pub mod builder;
pub mod toolchain;

use vstd::prelude::*;

verus! {

pub type X86Store = store::Store;

pub type X86AddressingMode = addressing_mode::AddressingMode;

pub type X86Location = location::Location;

pub type X86ApplicationContext = context::ApplicationContext;

pub type X86AbstractInstruction = instruction::AbstractInstruction;

} // verus!
