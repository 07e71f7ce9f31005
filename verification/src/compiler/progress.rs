//! What every compilation that succeeds leaves behind, shown of the code
//! itself: a well-formed frame within its bounds, the pool of scratch
//! registers as it was, and no jump without its target.

use vstd::prelude::*;
use crate::compiler::condition::{comparison_code, condition_code, lemma_comparison_code_appends};
use crate::compiler::definition::{
    bound,
    definition_code,
    definition_fits,
    definition_reserved,
    definition_weight,
    function_code,
    epilogue,
    framed,
    function_reserved,
    lemma_framed_appends,
    lemma_reserved,
    parameters_code,
    prologue,
    reservation_position,
};
use crate::compiler::expression::{
    expression_code,
    lemma_expression_code_computes,
    lemma_materialize_computes,
    materialize,
};
use crate::compiler::state::{
    advances,
    appends,
    lemma_advances_bounds,
    lemma_advances_chain,
    lemma_advances_nowhere,
    lemma_advances_stands,
    lemma_appends_chain,
    lemma_calm_chain,
    lemma_keeps_chain,
    lemma_lands_chain,
    calm,
    lands,
    lands_at,
    lemma_stands_chain,
    keeps,
    stands,
    State,
};
use crate::compiler::statement::{
    argument_code,
    argument_register,
    arguments_code,
    assign_code,
    call_code,
    jump,
    lemma_alternative_advances,
    lemma_branch_label_not_empty,
    lemma_conditional_advances,
    lemma_placed_chain,
    placed,
    placed_all,
    print_arguments,
    block_code,
    return_code,
    statement_code,
    statements_code,
};
use crate::context::{
    branch_label,
    lemma_branch_labels_differ,
    AsmView,
    ContextView,
    DataItemView,
};
use crate::generator::{
    definitions_code,
    definitions_fit,
    definitions_weight,
    jumps_closed,
    lemma_definitions_weight_grows,
    program_code,
    program_fits,
};
use crate::compiler::value::{lemma_value_code_appends, value_code};
use crate::compiler::weight::{
    block_weight,
    statement_weight,
    statements_weight,
};
use crate::instruction::{InstructionView, X86InstructionType};
use crate::location::LocationView;
use crate::register::{Register, RegisterSize};
use crate::store::{
    lemma_add_variable_wf,
    lemma_resolve_variable,
    StoreDefaultRegisters,
    StoreView,
    X86StoreDefaultRegisters,
    MAX_FRAME_SIZE,
};
use crate::tool::defs::{OsSpecificDefs, TargetOs};
use crate::types::{
    ConditionView,
    DefinitionView,
    ExpressionView,
    ParameterView,
    StatementView,
    ValueView,
};

verus! {

/// An assignment advances by one slot.
pub proof fn lemma_assign_code_advances(name: Seq<char>, expression: ExpressionView, state: State)
    requires
        state.store.wf(),
        state.store.last_position + 8 <= MAX_FRAME_SIZE,
    ensures
        assign_code(name, expression, state) matches Ok(after) ==> advances(state, after, 1),
        assign_code(name, expression, state) matches Ok(after) ==> calm(state.context, after.context),
        assign_code(name, expression, state) matches Err(failure) ==> stands(state, failure.state),
{
    reveal(assign_code);
    reveal(advances);
    let (variable, store) = state.store.resolve_variable(name);
    lemma_resolve_variable(state.store, name);
    let resolved = State { store, ..state };
    assert(stands(state, resolved));
    lemma_expression_code_computes(expression, resolved);
    match expression_code(expression, resolved) {
        Ok(computed) => {
            assert(stands(resolved, computed));
            lemma_stands_chain(state, resolved, computed);
            lemma_materialize_computes(computed.store.last_assigned_location, computed);
            if let Ok((_, ready)) = materialize(computed.store.last_assigned_location, computed) {
                lemma_appends_chain(state.context, computed.context, ready.context);
                lemma_calm_chain(state.context, computed.context, ready.context);
            }
        },
        Err(failure) => {
            lemma_stands_chain(state, resolved, failure.state);
        },
    }
}

/// A return advances by nothing.
pub proof fn lemma_return_code_advances(value: Option<ValueView>, state: State)
    requires
        state.store.wf(),
    ensures
        return_code(value, state) matches Ok(after) ==> advances(state, after, 0),
        return_code(value, state) matches Ok(after) ==> calm(state.context, after.context),
        return_code(value, state) matches Err(failure) ==> failure.state == state,
{
    reveal(return_code);
    reveal(advances);
}

/// An argument put in its place takes at most one slot.
pub proof fn lemma_argument_code_placed(value: ValueView, index: int, state: State)
    requires
        state.store.wf(),
        state.store.last_position + 8 <= MAX_FRAME_SIZE,
    ensures
        argument_code(value, index, state) matches Ok(after) ==> placed(state, after),
        argument_code(value, index, state) matches Err(failure) ==> stands(state, failure.state),
{
    reveal(argument_code);
    reveal(placed);
    match argument_register(index) {
        Some(register) => {
            lemma_value_code_appends(value, state, Some(LocationView::direct(register)));
        },
        None => {
            if let ValueView::String(_) = value {
                if let Some((_, locked)) = state.store.lock_register(RegisterSize::_64Bit) {
                    lemma_add_variable_wf(
                        locked,
                        crate::store::temp_name(locked.variables.len()),
                        8,
                    );
                }
            }
        },
    }
}

/// The arguments from `from` on, put in their places, take at most one slot each.
pub proof fn lemma_arguments_code_placed(arguments: Seq<ValueView>, from: int, state: State)
    requires
        0 <= from <= arguments.len(),
        state.store.wf(),
        state.store.last_position + 8 * (arguments.len() - from) <= MAX_FRAME_SIZE,
    ensures
        arguments_code(arguments, from, state) matches Ok(after) ==> placed_all(
            state,
            after,
            arguments.len() - from,
        ),
        arguments_code(arguments, from, state) matches Err(failure) ==> stands(state, failure.state),
    decreases arguments.len() - from,
{
    if from >= arguments.len() {
        reveal(placed_all);
    } else {
        lemma_arguments_code_placed(arguments, from + 1, state);
        if let Ok(rest) = arguments_code(arguments, from + 1, state) {
            assert(rest.store.wf() && rest.store.last_position <= state.store.last_position + 8 * (
            arguments.len() - from - 1) && stands(state, rest)) by {
                reveal(placed_all);
            }
            lemma_argument_code_placed(arguments[from], from, rest);
            match argument_code(arguments[from], from, rest) {
                Ok(after) => lemma_placed_chain(state, rest, after, arguments.len() - from - 1),
                Err(failure) => lemma_stands_chain(state, rest, failure.state),
            }
        }
    }
}

/// Every item that is emitted to put the arguments from `from` on in their
/// places is a move, the load of an address or a push.
pub proof fn lemma_arguments_code_carry(arguments: Seq<ValueView>, from: int, state: State)
    requires
        0 <= from <= arguments.len(),
        state.store.wf(),
        state.store.last_position + 8 * (arguments.len() - from) <= MAX_FRAME_SIZE,
    ensures
        arguments_code(arguments, from, state) matches Ok(after) ==> {
            &&& state.context.instructions.len() <= after.context.instructions.len()
            &&& forall|i: int|
                state.context.instructions.len() <= i < after.context.instructions.len() ==> (
                #[trigger] after.context.instructions[i]).carries()
        },
    decreases arguments.len() - from,
{
    if from < arguments.len() {
        lemma_arguments_code_carry(arguments, from + 1, state);
        lemma_arguments_code_placed(arguments, from + 1, state);
        if let Ok(rest) = arguments_code(arguments, from + 1, state) {
            assert(rest.store.wf() && rest.store.last_position + 8 <= MAX_FRAME_SIZE) by {
                reveal(placed_all);
            }
            lemma_argument_code_placed(arguments[from], from, rest);
            if let Ok(after) = argument_code(arguments[from], from, rest) {
                assert(keeps(rest.context, after.context)) by {
                    reveal(placed);
                }
                assert forall|i: int|
                    state.context.instructions.len() <= i < after.context.instructions.len() implies (
                #[trigger] after.context.instructions[i]).carries() by {
                    if i < rest.context.instructions.len() {
                        assert(after.context.instructions[i] == rest.context.instructions[i]);
                    } else {
                        reveal(argument_code);
                        reveal(value_code);
                    }
                }
            }
        }
    }
}

/// A call calls once: behind the items that put the arguments in their
/// places, none of which is a call, stands the one call instruction, and
/// what follows it, where the call assigns, is the move of the result.
pub proof fn lemma_call_code_calls_once(
    name: Seq<char>,
    arguments: Seq<ValueView>,
    assign: Option<Seq<char>>,
    state: State,
)
    requires
        state.store.wf(),
        state.store.last_position + 8 * (arguments.len() + 1) <= MAX_FRAME_SIZE,
    ensures
        call_code(name, arguments, assign, state) matches Ok(after) ==> {
            let items = after.context.instructions;
            &&& arguments_code(arguments, 0, state) matches Ok(loaded)
            &&& state.context.instructions.len() <= loaded.context.instructions.len() < items.len()
            &&& items[loaded.context.instructions.len() as int] == AsmView::Instruction(
                InstructionView::labelled(X86InstructionType::Call, name),
            )
            &&& forall|i: int|
                state.context.instructions.len() <= i < items.len() && i
                    != loaded.context.instructions.len() ==> (#[trigger] items[i]).carries()
        },
{
    reveal(call_code);
    lemma_arguments_code_carry(arguments, 0, state);
}

/// A call advances by one slot for each argument and one for its result.
pub proof fn lemma_call_code_advances(
    name: Seq<char>,
    arguments: Seq<ValueView>,
    assign: Option<Seq<char>>,
    state: State,
)
    requires
        state.store.wf(),
        state.store.last_position + 8 * (arguments.len() + 1) <= MAX_FRAME_SIZE,
    ensures
        call_code(name, arguments, assign, state) matches Ok(after) ==> advances(
            state,
            after,
            arguments.len() + 1,
        ),
        call_code(name, arguments, assign, state) matches Ok(after) ==> calm(
            state.context,
            after.context,
        ),
        call_code(name, arguments, assign, state) matches Err(failure) ==> stands(
            state,
            failure.state,
        ),
{
    reveal(call_code);
    lemma_arguments_code_placed(arguments, 0, state);
    if let Ok(loaded) = arguments_code(arguments, 0, state) {
        reveal(placed_all);
        reveal(advances);
        if let Some(variable_name) = assign {
            lemma_resolve_variable(
                loaded.store.set_last_assigned_location(
                    LocationView::direct(crate::compiler::statement::result_register()),
                ),
                variable_name,
            );
        }
    }
}

/// Compiling a statement of a state that has room for it leaves behind what
/// `advances` says: a well-formed frame within the statement's weight, the
/// variables and the pool of scratch registers as they were, and among what
/// it emitted no jump without its target. Where it stops with an error,
/// what was emitted and bound before still stands unchanged.
pub proof fn lemma_statement_code_advances(statement: StatementView, state: State)
    requires
        state.store.wf(),
        state.fits(statement_weight(statement)),
    ensures
        statement_code(statement, state) matches Ok(after) ==> advances(
            state,
            after,
            statement_weight(statement),
        ),
        statement_code(statement, state) matches Err(failure) ==> stands(state, failure.state),
    decreases statement, 0int,
{
    reveal(statement_code);
    match statement {
        StatementView::Assign { name, assigne } => lemma_assign_code_advances(name, assigne, state),
        StatementView::Print { format, arguments } => {
            let all = print_arguments(format, arguments);
            lemma_call_code_advances(state.context.os.spec_print_symbol_name(), all, None, state);
        },
        StatementView::Call { name, arguments, assign, .. } => lemma_call_code_advances(
            name,
            arguments,
            assign,
            state,
        ),
        StatementView::Return(value) => lemma_return_code_advances(value, state),
        StatementView::If { condition, true_block, false_block } => {
            lemma_comparison_code_appends(condition.left, condition.right, state);
            if let Ok(tested) = condition_code(condition, state) {
                let kind = condition.kind;
                let jumped = tested.instruction(jump(kind, Seq::empty()));
                assert(stands(state, jumped));
                lemma_statements_code_advances(
                    true_block,
                    true_block.len() as int,
                    jumped,
                );
                if let Err(failure) = statements_code(true_block, true_block.len() as int, jumped) {
                    lemma_stands_chain(state, jumped, failure.state);
                }
                if let Ok(after_true) = statements_code(
                    true_block,
                    true_block.len() as int,
                    jumped,
                ) {
                    lemma_advances_bounds(jumped, after_true, block_weight(true_block));
                    lemma_advances_stands(jumped, after_true, block_weight(true_block));
                    lemma_stands_chain(state, jumped, after_true);
                    match false_block {
                        None => lemma_conditional_advances(
                            state,
                            tested,
                            kind,
                            after_true,
                            block_weight(true_block),
                            statement_weight(statement),
                        ),
                        Some(false_block) => {
                            let opened = after_true.instruction(
                                InstructionView::labelled(X86InstructionType::Jmp, Seq::empty()),
                            ).fresh_branch();
                            lemma_statements_code_advances(
                                false_block,
                                false_block.len() as int,
                                opened,
                            );
                            if let Err(failure) = statements_code(
                                false_block,
                                false_block.len() as int,
                                opened,
                            ) {
                                assert(stands(after_true, opened));
                                lemma_stands_chain(state, after_true, opened);
                                lemma_stands_chain(state, opened, failure.state);
                            }
                            if let Ok(after_false) = statements_code(
                                false_block,
                                false_block.len() as int,
                                opened,
                            ) {
                                lemma_alternative_advances(
                                    state,
                                    tested,
                                    kind,
                                    after_true,
                                    block_weight(true_block),
                                    after_false,
                                    block_weight(false_block),
                                    statement_weight(statement),
                                );
                            }
                        },
                    }
                }
            }
        },
    }
}

/// Compiling the first `count` statements of a block advances by their
/// weights together.
pub proof fn lemma_statements_code_advances(items: Seq<StatementView>, count: int, state: State)
    requires
        0 <= count <= items.len(),
        state.store.wf(),
        state.fits(statements_weight(items, count)),
    ensures
        statements_code(items, count, state) matches Ok(after) ==> advances(
            state,
            after,
            statements_weight(items, count),
        ),
        statements_code(items, count, state) matches Err(failure) ==> stands(state, failure.state),
    decreases items, count,
{
    reveal(statement_code);
    if count <= 0 {
        lemma_advances_nowhere(state);
    } else {
        lemma_statements_code_advances(items, count - 1, state);
        if let Ok(before) = statements_code(items, count - 1, state) {
            lemma_advances_bounds(state, before, statements_weight(items, count - 1));
            lemma_advances_stands(state, before, statements_weight(items, count - 1));
            lemma_statement_code_advances(items[count - 1], before);
            if let Err(failure) = statement_code(items[count - 1], before) {
                lemma_stands_chain(state, before, failure.state);
            }
            if let Ok(after) = statement_code(items[count - 1], before) {
                lemma_advances_chain(
                    state,
                    before,
                    after,
                    statements_weight(items, count - 1),
                    statement_weight(items[count - 1]),
                );
            }
        }
    }
}

/// Binding the parameters from `from` on takes at most one slot each,
/// emits no jump, and leaves the pool alone.
pub proof fn lemma_parameters_code_bound(parameters: Seq<ParameterView>, from: int, state: State)
    requires
        0 <= from <= parameters.len(),
        state.store.wf(),
        state.store.last_position + 8 * (parameters.len() - from) <= MAX_FRAME_SIZE,
    ensures
        bound(state, parameters_code(parameters, from, state), parameters.len() - from),
    decreases parameters.len() - from,
{
    if from < parameters.len() {
        lemma_parameters_code_bound(parameters, from + 1, state);
        let rest = parameters_code(parameters, from + 1, state);
        let parameter = parameters[from];
        lemma_add_variable_wf(
            rest.store,
            parameter.name,
            parameter.param_type.spec_size().spec_bytes(),
        );
        lemma_appends_chain(
            state.context,
            rest.context,
            parameters_code(parameters, from, state).context,
        );
        lemma_calm_chain(
            state.context,
            rest.context,
            parameters_code(parameters, from, state).context,
        );
    }
}

/// Compiling a function emits no jump without its target, changes nothing
/// of what was emitted before, takes no more branch labels than its weight,
/// and reserves for its variables what `reserved` says.
pub proof fn lemma_function_code_settles(
    name: Seq<char>,
    parameters: Seq<ParameterView>,
    block: Seq<StatementView>,
    context: ContextView,
)
    requires
        definition_fits(parameters.len() + block_weight(block), context),
    ensures
        function_code(name, parameters, block, context) matches Ok(after) ==> {
            &&& appends(context, after)
            &&& after.branch_counter <= context.branch_counter + parameters.len() + block_weight(
                block,
            )
            &&& function_reserved(name, parameters, block, context, after)
        },
        function_code(name, parameters, block, context) matches Err(failure) ==> keeps(
            context,
            failure.state.context,
        ),
{
    let entered = State::of(
        StoreView::initial(X86StoreDefaultRegisters::pool()),
        context.branch(name),
    ).instruction(
        InstructionView::unary(X86InstructionType::Push, LocationView::direct(Register::RBP), None),
    ).instruction(
        InstructionView::mov(
            LocationView::direct(Register::RSP),
            LocationView::direct(Register::RBP),
        ),
    );
    lemma_parameters_code_bound(parameters, 0, entered);
    let opened = prologue(name, parameters, context);
    let place = reservation_position(name, parameters, context);
    lemma_appends_chain(context, entered.context, parameters_code(parameters, 0, entered).context);
    lemma_appends_chain(
        context,
        parameters_code(parameters, 0, entered).context,
        opened.context,
    );
    lemma_statements_code_advances(block, block.len() as int, opened);
    if let Err(failure) = block_code(block, opened) {
        lemma_keeps_chain(context, opened.context, failure.state.context);
    }
    if let Ok(body) = block_code(block, opened) {
        lemma_advances_bounds(opened, body, block_weight(block));
        lemma_framed_appends(context, opened, body, block_weight(block), place);
        lemma_reserved(opened, body, block_weight(block), place);
    }
}

/// Compiling a definition emits no jump without its target, changes
/// nothing of what was emitted before, takes no more branch labels than its
/// weight, and reserves for its variables what `reserved` says.
pub proof fn lemma_definition_code_settles(definition: DefinitionView, context: ContextView)
    requires
        definition_fits(definition_weight(definition), context),
    ensures
        definition_code(definition, context) matches Ok(after) ==> {
            &&& appends(context, after)
            &&& after.branch_counter <= context.branch_counter + definition_weight(definition)
            &&& definition_reserved(definition, context, after)
        },
        definition_code(definition, context) matches Err(failure) ==> keeps(
            context,
            failure.state.context,
        ),
{
    match definition {
        DefinitionView::Function { name, parameters, block } => lemma_function_code_settles(
            name,
            parameters,
            block,
            context,
        ),
    }
}

/// Compiling the first `count` definitions of a program emits no jump
/// without its target and changes nothing of what was emitted before; where
/// it stops with an error, what was emitted before still stands unchanged.
pub proof fn lemma_definitions_code_appends(definitions: Seq<DefinitionView>, count: int, context: ContextView)
    requires
        0 <= count <= definitions.len(),
        definitions_fit(definitions, context.branch_counter),
    ensures
        definitions_code(definitions, count, context) matches Ok(after) ==> {
            &&& appends(context, after)
            &&& after.branch_counter <= context.branch_counter + definitions_weight(
                definitions,
                count,
            )
        },
        definitions_code(definitions, count, context) matches Err(failure) ==> keeps(
            context,
            failure.state.context,
        ),
    decreases count,
{
    if count > 0 {
        lemma_definitions_code_appends(definitions, count - 1, context);
        lemma_definitions_weight_grows(definitions, count, definitions.len() as int);
        if let Ok(before) = definitions_code(definitions, count - 1, context) {
            lemma_definition_code_settles(definitions[count - 1], before);
            if let Err(failure) = definition_code(definitions[count - 1], before) {
                lemma_keeps_chain(context, before, failure.state.context);
            }
            if let Ok(after) = definition_code(definitions[count - 1], before) {
                lemma_appends_chain(context, before, after);
            }
        }
    }
}

/// No jump of a compiled program is without its target.
pub proof fn lemma_jumps_closed(os: TargetOs, definitions: Seq<DefinitionView>, datas: Seq<DataItemView>)
    requires
        program_fits(definitions),
    ensures
        program_code(os, definitions, datas) matches Ok(context) ==> jumps_closed(context),
{
    lemma_definitions_code_appends(
        definitions,
        definitions.len() as int,
        ContextView::initial(os, datas),
    );
}

/// The shape of a conditional without a second block: the comparison ends
/// the code of the condition; right behind it stands the jump, which names
/// the one label that the conditional takes for itself; that label is not
/// empty and is the last item emitted.
pub proof fn lemma_conditional_shape(
    condition: ConditionView,
    true_block: Seq<StatementView>,
    state: State,
)
    requires
        state.store.wf(),
        state.fits(
            statement_weight(StatementView::If { condition, true_block, false_block: None }),
        ),
    ensures
        statement_code(
            StatementView::If { condition, true_block, false_block: None },
            state,
        ) matches Ok(after) ==> {
            &&& condition_code(condition, state) matches Ok(tested)
            &&& statements_code(
                true_block,
                true_block.len() as int,
                tested.instruction(jump(condition.kind, Seq::empty())),
            ) matches Ok(after_true)
            &&& {
                let label = branch_label(after_true.context.branch_counter);
                let place = tested.context.instructions.len() as int;
                let items = after.context.instructions;
                &&& label.len() > 0
                &&& 0 < place < items.len() - 1
                &&& items[place - 1] matches AsmView::Instruction(compared) && compared.inst is Cmp
                &&& items[place] == AsmView::Instruction(jump(condition.kind, label))
                &&& items.last() == AsmView::Branch(label)
                &&& after.context.branch_counter == after_true.context.branch_counter + 1
            }
        },
{
    let statement = StatementView::If { condition, true_block, false_block: None };
    reveal(statement_code);
    reveal(comparison_code);
    lemma_comparison_code_appends(condition.left, condition.right, state);
    if let Ok(tested) = condition_code(condition, state) {
        let jumped = tested.instruction(jump(condition.kind, Seq::empty()));
        lemma_statements_code_advances(true_block, true_block.len() as int, jumped);
        if let Ok(after_true) = statements_code(true_block, true_block.len() as int, jumped) {
            lemma_advances_stands(jumped, after_true, block_weight(true_block));
            lemma_branch_label_not_empty(after_true.context.branch_counter);
            let place = tested.context.instructions.len() as int;
            assert(after_true.context.instructions[place - 1] == jumped.context.instructions[place - 1]);
        }
    }
}

/// The shape of a conditional with a second block: right behind the
/// comparison stands the jump to the first label; behind the first block
/// stands a jump to the second label; then the first label, the second
/// block, and at last the second label. The two labels differ and neither
/// is empty.
pub proof fn lemma_alternative_shape(
    condition: ConditionView,
    true_block: Seq<StatementView>,
    false_block: Seq<StatementView>,
    state: State,
)
    requires
        state.store.wf(),
        state.fits(
            statement_weight(
                StatementView::If { condition, true_block, false_block: Some(false_block) },
            ),
        ),
    ensures
        statement_code(
            StatementView::If { condition, true_block, false_block: Some(false_block) },
            state,
        ) matches Ok(after) ==> {
            &&& condition_code(condition, state) matches Ok(tested)
            &&& statements_code(
                true_block,
                true_block.len() as int,
                tested.instruction(jump(condition.kind, Seq::empty())),
            ) matches Ok(after_true)
            &&& statements_code(
                false_block,
                false_block.len() as int,
                after_true.instruction(
                    InstructionView::labelled(X86InstructionType::Jmp, Seq::empty()),
                ).fresh_branch(),
            ) matches Ok(after_false)
            &&& {
                let first = branch_label(after_true.context.branch_counter);
                let second = branch_label(after_false.context.branch_counter);
                let place = tested.context.instructions.len() as int;
                let middle = after_true.context.instructions.len() as int;
                let items = after.context.instructions;
                &&& first.len() > 0
                &&& second.len() > 0
                &&& first != second
                &&& 0 < place < middle < items.len() - 2
                &&& items[place - 1] matches AsmView::Instruction(compared) && compared.inst is Cmp
                &&& items[place] == AsmView::Instruction(jump(condition.kind, first))
                &&& items[middle] == AsmView::Instruction(
                    InstructionView::labelled(X86InstructionType::Jmp, second),
                )
                &&& items[middle + 1] == AsmView::Branch(first)
                &&& items.last() == AsmView::Branch(second)
            }
        },
{
    reveal(statement_code);
    reveal(comparison_code);
    lemma_comparison_code_appends(condition.left, condition.right, state);
    if let Ok(tested) = condition_code(condition, state) {
        let jumped = tested.instruction(jump(condition.kind, Seq::empty()));
        lemma_statements_code_advances(true_block, true_block.len() as int, jumped);
        if let Ok(after_true) = statements_code(true_block, true_block.len() as int, jumped) {
            lemma_advances_stands(jumped, after_true, block_weight(true_block));
            lemma_advances_bounds(jumped, after_true, block_weight(true_block));
            let opened = after_true.instruction(
                InstructionView::labelled(X86InstructionType::Jmp, Seq::empty()),
            ).fresh_branch();
            lemma_statements_code_advances(false_block, false_block.len() as int, opened);
            if let Ok(after_false) = statements_code(false_block, false_block.len() as int, opened) {
                lemma_advances_stands(opened, after_false, block_weight(false_block));
                lemma_branch_label_not_empty(after_true.context.branch_counter);
                lemma_branch_label_not_empty(after_false.context.branch_counter);
                lemma_branch_labels_differ(
                    after_true.context.branch_counter,
                    after_false.context.branch_counter,
                );
                let place = tested.context.instructions.len() as int;
                let middle = after_true.context.instructions.len() as int;
                assert(after_true.context.instructions[place - 1] == jumped.context.instructions[place
                    - 1]);
                assert(after_false.context.instructions[place - 1] == opened.context.instructions[place
                    - 1]);
                assert(after_false.context.instructions[middle + 1] == opened.context.instructions[middle
                    + 1]);
            }
        }
    }
}

/// Every jump that a statement emits goes to a label that the statement
/// emits.
pub proof fn lemma_statement_code_lands(statement: StatementView, state: State)
    requires
        state.store.wf(),
        state.fits(statement_weight(statement)),
    ensures
        statement_code(statement, state) matches Ok(after) ==> lands(
            after.context.instructions,
            state.context.instructions.len() as int,
        ),
    decreases statement, 0int,
{
    reveal(statement_code);
    match statement {
        StatementView::Assign { name, assigne } => {
            lemma_assign_code_advances(name, assigne, state);
        },
        StatementView::Print { format, arguments } => {
            let all = print_arguments(format, arguments);
            lemma_call_code_advances(state.context.os.spec_print_symbol_name(), all, None, state);
        },
        StatementView::Call { name, arguments, assign, .. } => {
            lemma_call_code_advances(name, arguments, assign, state);
        },
        StatementView::Return(value) => {
            lemma_return_code_advances(value, state);
        },
        StatementView::If { condition, true_block, false_block } => {
            lemma_comparison_code_appends(condition.left, condition.right, state);
            if let Ok(tested) = condition_code(condition, state) {
                let kind = condition.kind;
                let start = state.context.instructions.len() as int;
                let place = tested.context.instructions.len() as int;
                let jumped = tested.instruction(jump(kind, Seq::empty()));
                lemma_statements_code_advances(true_block, true_block.len() as int, jumped);
                lemma_statements_code_lands(true_block, true_block.len() as int, jumped);
                if let Ok(after_true) = statements_code(true_block, true_block.len() as int, jumped) {
                    let middle = after_true.context.instructions.len() as int;
                    let inner = after_true.context.instructions;
                    lemma_advances_bounds(jumped, after_true, block_weight(true_block));
                    lemma_advances_stands(jumped, after_true, block_weight(true_block));
                    match false_block {
                        None => {
                            let last = after_true.fresh_branch().patched(
                                place,
                                jump(kind, branch_label(after_true.context.branch_counter)),
                            );
                            let items = last.context.instructions;
                            assert forall|i: int|
                                start <= i < items.len() && (#[trigger] items[i]).is_jump() implies exists|
                                j: int,
                            |
                                start <= j < items.len() && #[trigger] lands_at(items, i, j) by {
                                if i < place {
                                    assert(inner[i] == jumped.context.instructions[i]);
                                    assert(!tested.context.instructions[i].is_jump());
                                } else if i == place {
                                    assert(lands_at(items, i, items.len() - 1));
                                } else if i < middle {
                                    assert(inner[i].is_jump());
                                    let j = choose|j: int|
                                        place + 1 <= j < middle && #[trigger] lands_at(inner, i, j);
                                    assert(lands_at(items, i, j));
                                }
                            }
                        },
                        Some(false_block) => {
                            let opened = after_true.instruction(
                                InstructionView::labelled(X86InstructionType::Jmp, Seq::empty()),
                            ).fresh_branch();
                            lemma_statements_code_advances(
                                false_block,
                                false_block.len() as int,
                                opened,
                            );
                            lemma_statements_code_lands(false_block, false_block.len() as int, opened);
                            if let Ok(after_false) = statements_code(
                                false_block,
                                false_block.len() as int,
                                opened,
                            ) {
                                lemma_advances_stands(opened, after_false, block_weight(false_block));
                                let outer = after_false.context.instructions;
                                let last = after_false.fresh_branch().patched(
                                    place,
                                    jump(kind, branch_label(after_true.context.branch_counter)),
                                ).patched(
                                    middle,
                                    InstructionView::labelled(
                                        X86InstructionType::Jmp,
                                        branch_label(after_false.context.branch_counter),
                                    ),
                                );
                                let items = last.context.instructions;
                                assert forall|i: int| 0 <= i < middle implies #[trigger] outer[i]
                                    == inner[i] by {
                                    assert(outer[i] == opened.context.instructions[i]);
                                }
                                assert(outer[middle + 1] == opened.context.instructions[middle + 1]);
                                assert forall|i: int|
                                    start <= i < items.len() && (#[trigger] items[i]).is_jump() implies exists|
                                    j: int,
                                |
                                    start <= j < items.len() && #[trigger] lands_at(items, i, j) by {
                                    if i < place {
                                        assert(outer[i] == inner[i]);
                                        assert(inner[i] == jumped.context.instructions[i]);
                                        assert(!tested.context.instructions[i].is_jump());
                                    } else if i == place {
                                        assert(lands_at(items, i, middle + 1));
                                    } else if i < middle {
                                        assert(outer[i] == inner[i]);
                                        assert(inner[i].is_jump());
                                        let j = choose|j: int|
                                            place + 1 <= j < middle && #[trigger] lands_at(inner, i, j);
                                        assert(outer[j] == inner[j]);
                                        assert(lands_at(items, i, j));
                                    } else if i == middle {
                                        assert(lands_at(items, i, items.len() - 1));
                                    } else if i == middle + 1 {
                                    } else if i < outer.len() {
                                        assert(outer[i].is_jump());
                                        let j = choose|j: int|
                                            middle + 2 <= j < outer.len() && #[trigger] lands_at(
                                                outer,
                                                i,
                                                j,
                                            );
                                        assert(lands_at(items, i, j));
                                    }
                                }
                            }
                        },
                    }
                }
            }
        },
    }
}

/// Every jump that the first `count` statements of a block emit goes to a
/// label that they emit.
pub proof fn lemma_statements_code_lands(items: Seq<StatementView>, count: int, state: State)
    requires
        0 <= count <= items.len(),
        state.store.wf(),
        state.fits(statements_weight(items, count)),
    ensures
        statements_code(items, count, state) matches Ok(after) ==> lands(
            after.context.instructions,
            state.context.instructions.len() as int,
        ),
    decreases items, count,
{
    reveal(statement_code);
    if count > 0 {
        lemma_statements_code_lands(items, count - 1, state);
        lemma_statements_code_advances(items, count - 1, state);
        if let Ok(before) = statements_code(items, count - 1, state) {
            lemma_advances_bounds(state, before, statements_weight(items, count - 1));
            lemma_advances_stands(state, before, statements_weight(items, count - 1));
            lemma_statement_code_lands(items[count - 1], before);
            lemma_statement_code_advances(items[count - 1], before);
            if let Ok(after) = statement_code(items[count - 1], before) {
                lemma_advances_stands(before, after, statement_weight(items[count - 1]));
                lemma_lands_chain(
                    before.context.instructions,
                    after.context.instructions,
                    state.context.instructions.len() as int,
                );
            }
        }
    }
}

/// Every jump that a function emits goes to a label that the function emits.
pub proof fn lemma_function_code_lands(
    name: Seq<char>,
    parameters: Seq<ParameterView>,
    block: Seq<StatementView>,
    context: ContextView,
)
    requires
        definition_fits(parameters.len() + block_weight(block), context),
    ensures
        function_code(name, parameters, block, context) matches Ok(after) ==> lands(
            after.instructions,
            context.instructions.len() as int,
        ),
{
    let entered = State::of(
        StoreView::initial(X86StoreDefaultRegisters::pool()),
        context.branch(name),
    ).instruction(
        InstructionView::unary(X86InstructionType::Push, LocationView::direct(Register::RBP), None),
    ).instruction(
        InstructionView::mov(LocationView::direct(Register::RSP), LocationView::direct(Register::RBP)),
    );
    lemma_parameters_code_bound(parameters, 0, entered);
    let bound_state = parameters_code(parameters, 0, entered);
    let opened = prologue(name, parameters, context);
    let start = context.instructions.len() as int;
    let place = reservation_position(name, parameters, context);
    let first = opened.context.instructions.len() as int;
    assert(calm(context, opened.context)) by {
        assert forall|i: int| start <= i < first implies !(#[trigger] opened.context.instructions[i]).is_jump() by {
            if i < entered.context.instructions.len() {
                assert(opened.context.instructions[i] == entered.context.instructions[i]);
            } else if i < bound_state.context.instructions.len() {
                assert(opened.context.instructions[i] == bound_state.context.instructions[i]);
            }
        }
    }
    lemma_statements_code_advances(block, block.len() as int, opened);
    lemma_statements_code_lands(block, block.len() as int, opened);
    if let Ok(body) = block_code(block, opened) {
        lemma_advances_stands(opened, body, block_weight(block));
        let inner = body.context.instructions;
        let closed = epilogue(body.context).instructions;
        let items = framed(body, place).instructions;
        assert forall|i: int| 0 <= i < inner.len() implies #[trigger] closed[i] == inner[i] by {}
        assert forall|i: int| start <= i < items.len() && (#[trigger] items[i]).is_jump() implies exists|
            j: int,
        |
            start <= j < items.len() && #[trigger] lands_at(items, i, j) by {
            if body.store.last_position > 0 {
                if i < first {
                    if i != place {
                        assert(items[i] == inner[i]);
                        assert(inner[i] == opened.context.instructions[i]);
                    }
                } else if i < inner.len() {
                    assert(inner[i].is_jump());
                    let j = choose|j: int| first <= j < inner.len() && #[trigger] lands_at(inner, i, j);
                    assert(items[j] == inner[j]);
                    assert(lands_at(items, i, j));
                }
            } else {
                if i < place {
                    assert(items[i] == inner[i]);
                    assert(inner[i] == opened.context.instructions[i]);
                } else if i + 1 < first {
                    assert(items[i] == inner[i + 1]);
                    assert(inner[i + 1] == opened.context.instructions[i + 1]);
                } else if i + 1 < inner.len() {
                    assert(items[i] == inner[i + 1]);
                    assert(inner[i + 1].is_jump());
                    let j = choose|j: int|
                        first <= j < inner.len() && #[trigger] lands_at(inner, i + 1, j);
                    assert(items[j - 1] == inner[j]);
                    assert(lands_at(items, i, j - 1));
                } else {
                    assert(items[i] == closed[i + 1]);
                }
            }
        }
    }
}

/// Every jump that the first `count` definitions of a program emit goes to
/// a label that they emit.
pub proof fn lemma_definitions_code_lands(definitions: Seq<DefinitionView>, count: int, context: ContextView)
    requires
        0 <= count <= definitions.len(),
        definitions_fit(definitions, context.branch_counter),
    ensures
        definitions_code(definitions, count, context) matches Ok(after) ==> lands(
            after.instructions,
            context.instructions.len() as int,
        ),
    decreases count,
{
    if count > 0 {
        lemma_definitions_code_lands(definitions, count - 1, context);
        lemma_definitions_code_appends(definitions, count - 1, context);
        lemma_definitions_weight_grows(definitions, count, definitions.len() as int);
        if let Ok(before) = definitions_code(definitions, count - 1, context) {
            lemma_definition_code_settles(definitions[count - 1], before);
            match definitions[count - 1] {
                DefinitionView::Function { name, parameters, block } => {
                    lemma_function_code_lands(name, parameters, block, before);
                },
            }
            if let Ok(after) = definition_code(definitions[count - 1], before) {
                lemma_lands_chain(
                    before.instructions,
                    after.instructions,
                    context.instructions.len() as int,
                );
            }
        }
    }
}

/// Every jump of a compiled program names a label, and that label stands in
/// the program.
pub proof fn lemma_jumps_land(os: TargetOs, definitions: Seq<DefinitionView>, datas: Seq<DataItemView>)
    requires
        program_fits(definitions),
    ensures
        program_code(os, definitions, datas) matches Ok(context) ==> lands(context.instructions, 0),
{
    lemma_definitions_code_lands(
        definitions,
        definitions.len() as int,
        ContextView::initial(os, datas),
    );
}

} // verus!
