//! Why a compilation stops.

use vstd::prelude::*;

verus! {

/// Why a compilation stops. Nothing that was emitted before counts then.
#[derive(Debug, PartialEq, Eq)]
pub enum X86Error {
    /// A variable is read that no assignment or parameter has bound.
    VariableNotFound(String),
    /// A piece of the program has no encoding here.
    UnexpectedInstruction,
    /// Every scratch register is in use.
    NoRegisterAvailable,
}

/// What an `X86Error` stands for.
pub enum ErrorView {
    VariableNotFound(Seq<char>),
    UnexpectedInstruction,
    NoRegisterAvailable,
}

impl View for X86Error {
    type V = ErrorView;

    open spec fn view(&self) -> ErrorView {
        match self {
            X86Error::VariableNotFound(name) => ErrorView::VariableNotFound(name@),
            X86Error::UnexpectedInstruction => ErrorView::UnexpectedInstruction,
            X86Error::NoRegisterAvailable => ErrorView::NoRegisterAvailable,
        }
    }
}

} // verus!
