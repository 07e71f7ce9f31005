//! Conditions: a comparison of two values.

use vstd::prelude::*;
use crate::compiler::error::X86Error;
use crate::compiler::state::{appends, calm, stands, Failure, State};
use crate::compiler::value::{lemma_value_code_appends, value_code, X86ValueCompiler};
use crate::context::ApplicationContext;
use crate::instruction::{InstructionView, X86Instruction, X86InstructionType};
use crate::store::Store;
use crate::types::{Condition, ConditionDiscriminant, ConditionView, Value, ValueView};

verus! {

/// The code of a comparison: the right value, then the left value, then
/// `cmp left, right`, which sets the flags from `right - left`. The pool of
/// scratch registers is afterwards as it was before.
#[verifier::opaque]
pub open spec fn comparison_code(left: ValueView, right: ValueView, state: State) -> Result<State, Failure> {
    match value_code(right, state.comment("Generate right value"@), None) {
        Err(error) => Err(error),
        Ok((right, after_right)) => match value_code(
            left,
            after_right.comment("Generate left value"@),
            None,
        ) {
            Err(error) => Err(error),
            Ok((left, after_left)) => {
                let compared = after_left.instruction(
                    InstructionView::binary(X86InstructionType::Cmp, left, right, None),
                );
                Ok(
                    State {
                        store: compared.store.register_restore(state.store.registers),
                        ..compared
                    },
                )
            },
        },
    }
}

/// The state after the code of `condition` is emitted.
pub open spec fn condition_code(condition: ConditionView, state: State) -> Result<State, Failure> {
    comparison_code(condition.left, condition.right, state)
}

/// A compilation of a condition ended as `expected` says, and handed back
/// the kind of the comparison.
pub open spec fn compared(
    expected: Result<State, Failure>,
    kind: ConditionDiscriminant,
    result: Result<ConditionDiscriminant, X86Error>,
    store: crate::store::StoreView,
    context: crate::context::ContextView,
) -> bool {
    match expected {
        Ok(state) => result == Ok::<ConditionDiscriminant, X86Error>(kind) && store == state.store
            && context == state.context,
        Err(failure) => {
            &&& result matches Err(raised)
            &&& raised@ == failure.error
            &&& store == failure.state.store
            &&& context == failure.state.context
        },
    }
}

/// Compiles conditions: the comparison, not the jump that reads it.
pub struct X86ConditionCompiler;

impl X86ConditionCompiler {
    /// Emits the code that `condition_code` describes and hands back the
    /// kind of the comparison.
    pub fn compile(condition: Condition, scope: &mut Store, context: &mut ApplicationContext) -> (result:
        Result<ConditionDiscriminant, X86Error>)
        requires
            old(scope)@.wf(),
        ensures
            final(scope)@.wf(),
            compared(
                condition_code(condition@, State::of(old(scope)@, old(context)@)),
                condition@.kind,
                result,
                final(scope)@,
                final(context)@,
            ),
    {
        Self::compile_condition(&condition, scope, context)
    }

    /// `compile` on a borrowed condition.
    pub fn compile_condition(
        condition: &Condition,
        scope: &mut Store,
        context: &mut ApplicationContext,
    ) -> (result: Result<ConditionDiscriminant, X86Error>)
        requires
            old(scope)@.wf(),
        ensures
            final(scope)@.wf(),
            compared(
                condition_code(condition@, State::of(old(scope)@, old(context)@)),
                condition@.kind,
                result,
                final(scope)@,
                final(context)@,
            ),
    {
        Self::compile_simple(
            scope,
            condition.discriminant(),
            condition.left(),
            condition.right(),
            context,
        )
    }

    /// Compiles the comparison of two values: emits the code that
    /// `comparison_code` describes.
    pub fn compile_simple(
        scope: &mut Store,
        condition_type: ConditionDiscriminant,
        left: &Value,
        right: &Value,
        context: &mut ApplicationContext,
    ) -> (result: Result<ConditionDiscriminant, X86Error>)
        requires
            old(scope)@.wf(),
        ensures
            final(scope)@.wf(),
            compared(
                comparison_code(left@, right@, State::of(old(scope)@, old(context)@)),
                condition_type,
                result,
                final(scope)@,
                final(context)@,
            ),
    {
        proof {
            reveal(comparison_code);
        }
        let registers = scope.register_backup();
        context.instructions.add_comment("Generate right value".to_owned());
        let right = X86ValueCompiler::compile_value(right, context, scope, None)?;
        context.instructions.add_comment("Generate left value".to_owned());
        let left = X86ValueCompiler::compile_value(left, context, scope, None)?;
        context.instructions.add_instruction(X86Instruction::Cmp { left, right, comment: None });
        scope.register_restore(registers);
        Ok(condition_type)
    }
}

/// The code of a comparison leaves the store as it is but for the last
/// width, emits no jump, and changes nothing of what was emitted before.
pub proof fn lemma_comparison_code_appends(left: ValueView, right: ValueView, state: State)
    ensures
        comparison_code(left, right, state) matches Ok(after) ==> {
            &&& appends(state.context, after.context)
            &&& calm(state.context, after.context)
            &&& after.context.branch_counter == state.context.branch_counter
            &&& after.context.datas == state.context.datas
            &&& after.store.variables == state.store.variables
            &&& after.store.last_position == state.store.last_position
            &&& after.store.registers == state.store.registers
        },
        comparison_code(left, right, state) matches Err(failure) ==> stands(state, failure.state),
{
    reveal(comparison_code);
    let begun = state.comment("Generate right value"@);
    lemma_value_code_appends(right, begun, None);
    if let Ok((_, after_right)) = value_code(right, begun, None) {
        lemma_value_code_appends(left, after_right.comment("Generate left value"@), None);
    }
}

} // verus!
