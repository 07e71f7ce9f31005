//! Values: how a variable or a literal becomes an operand.

use vstd::prelude::*;
use crate::compiler::error::{ErrorView, X86Error};
use crate::compiler::state::{appends, calm, located, stands, Failure, State};
use crate::context::ApplicationContext;
use crate::instruction::{InstructionView, X86Instruction};
use crate::location::{Location, LocationView};
use crate::register::RegisterSize;
use crate::store::{lemma_found_is_in_frame, Store};
use crate::types::{Value, ValueView};

verus! {

/// The operand that stands for `value`, and the state after the code that
/// fills it is emitted.
///
/// A variable is its stack slot; with a `target` the slot is moved there. A
/// number is moved into the `target`, or into a scratch register of its own
/// width where none is given. The width of the value becomes the store's
/// last width. A text is no operand.
#[verifier::opaque]
pub open spec fn value_code(value: ValueView, state: State, target: Option<LocationView>) -> Result<(LocationView, State), Failure> {
    match value {
        ValueView::Variable(name) => match state.store.find_variable(name) {
            None => Err(state.fails(ErrorView::VariableNotFound(name))),
            Some(variable) => {
                let sized = State {
                    store: state.store.set_last_size(RegisterSize::spec_from_bytes(variable.size)),
                    ..state
                };
                let slot = LocationView::slot(variable.position);
                match target {
                    Some(
                        target) => Ok((target, sized.instruction(InstructionView::mov(slot, target))),
                    ),
                    None => Ok((slot, sized)),
                }
            },
        },
        ValueView::Number(number) => {
            let sized = State { store: state.store.set_last_size(number.spec_size()), ..state };
            let source = LocationView::Imm(number);
            match target {
                Some(
                    target) => Ok((target, sized.instruction(InstructionView::mov(source, target))),
                ),
                None => match sized.store.lock_register(number.spec_size()) {
                    None => Err(sized.fails(ErrorView::NoRegisterAvailable)),
                    Some((register, store)) => {
                        let target = LocationView::direct(register);
                        Ok(
                            (
                                target,
                                State { store, ..sized }.instruction(
                                    InstructionView::mov(source, target),
                                ),
                            ),
                        )
                    },
                },
            }
        },
        ValueView::String(_) => Err(state.fails(ErrorView::UnexpectedInstruction)),
    }
}

/// Compiles values into operands.
pub struct X86ValueCompiler;

impl X86ValueCompiler {
    /// Emits the code that `value_code` describes and hands back the operand
    /// that stands for the value.
    pub fn compile(
        variable: Value,
        context: &mut ApplicationContext,
        scope: &mut Store,
        target: Option<Location>,
    ) -> (result: Result<Location, X86Error>)
        requires
            old(scope)@.wf(),
        ensures
            final(scope)@.wf(),
            located(
                value_code(
                    variable@,
                    State::of(old(scope)@, old(context)@),
                    crate::location::optional_location_view(target),
                ),
                result,
                final(scope)@,
                final(context)@,
            ),
    {
        Self::compile_value(&variable, context, scope, target)
    }

    /// `compile` on a borrowed value.
    pub fn compile_value(
        variable: &Value,
        context: &mut ApplicationContext,
        scope: &mut Store,
        target: Option<Location>,
    ) -> (result: Result<Location, X86Error>)
        requires
            old(scope)@.wf(),
        ensures
            final(scope)@.wf(),
            located(
                value_code(
                    variable@,
                    State::of(old(scope)@, old(context)@),
                    crate::location::optional_location_view(target),
                ),
                result,
                final(scope)@,
                final(context)@,
            ),
    {
        proof {
            reveal(value_code);
        }
        match variable {
            Value::Variable(name) => {
                let (variable_size, variable_position) = match scope.find_variable(name.as_str()) {
                    Some(variable) => (variable.size, variable.position),
                    None => {
                        return Err(X86Error::VariableNotFound(name.clone()));
                    },
                };
                proof {
                    lemma_found_is_in_frame(scope@, name@);
                }
                scope.set_last_size(RegisterSize::from_bytes(variable_size));
                let slot = Location::slot(variable_position);
                match target {
                    Some(target) => {
                        context.instructions.add_instruction(
                            X86Instruction::Mov {
                                source: slot,
                                target: target.clone(),
                                comment: None,
                            },
                        );
                        Ok(target)
                    },
                    None => Ok(slot),
                }
            },
            Value::Number(number) => {
                let num_size = number.size();
                scope.set_last_size(num_size);
                match target {
                    Some(target) => {
                        context.instructions.add_instruction(
                            X86Instruction::Mov {
                                source: Location::Imm(*number),
                                target: target.clone(),
                                comment: None,
                            },
                        );
                        Ok(target)
                    },
                    None => {
                        let register = match scope.lock_register(num_size) {
                            Some(register) => register,
                            None => {
                                return Err(X86Error::NoRegisterAvailable);
                            },
                        };
                        context.instructions.add_instruction(
                            X86Instruction::Mov {
                                source: Location::Imm(*number),
                                target: Location::direct(register),
                                comment: None,
                            },
                        );
                        Ok(Location::direct(register))
                    },
                }
            },
            Value::String(_) => Err(X86Error::UnexpectedInstruction),
        }
    }
}


/// The code of a value leaves the frame as it is, emits no jump, and changes
/// nothing of what was emitted before. A value that fails emits nothing.
pub proof fn lemma_value_code_appends(value: ValueView, state: State, target: Option<LocationView>)
    ensures
        value_code(value, state, target) matches Ok((_, after)) ==> {
            &&& appends(state.context, after.context)
            &&& calm(state.context, after.context)
            &&& after.context.branch_counter == state.context.branch_counter
            &&& after.context.datas == state.context.datas
            &&& after.store.variables == state.store.variables
            &&& after.store.last_position == state.store.last_position
        },
        target matches Some(target) ==> (value_code(value, state, Some(target)) matches Ok(
            (location, _),
        ) ==> location == target),
        value_code(value, state, target) matches Err(failure) ==> {
            &&& failure.state.context == state.context
            &&& stands(state, failure.state)
        },
{
    reveal(value_code);
}

} // verus!
