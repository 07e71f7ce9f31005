//! A function takes room from the stack at one place only: no code but the
//! one instruction behind the binding of the parameters subtracts from the
//! stack pointer.

use vstd::prelude::*;
use crate::compiler::condition::{comparison_code, condition_code, lemma_comparison_code_appends};
use crate::compiler::definition::{
    definition_fits,
    epilogue,
    framed,
    function_code,
    lemma_reserved,
    parameters_code,
    prologue,
    reservation_position,
    reserve,
    reserved_bytes,
};
use crate::compiler::expression::{
    binary_code,
    claim_operand,
    division_code,
    expression_code,
    lemma_expression_code_computes,
    lemma_materialize_computes,
    materialize,
    plain_value_code,
    pool_entry,
    spec_fixed_type,
    unary_code,
    FixedType,
    OperandRole,
};
use crate::compiler::progress::{
    lemma_arguments_code_placed,
    lemma_parameters_code_bound,
    lemma_statements_code_advances,
};
use crate::compiler::state::{
    keeps,
    lemma_advances_bounds,
    lemma_advances_stands,
    lemma_quiet_chain,
    quiet,
    State,
};
use crate::compiler::statement::{
    argument_code,
    argument_register,
    arguments_code,
    assign_code,
    block_code,
    call_code,
    jump,
    placed_all,
    print_arguments,
    return_code,
    statement_code,
    statements_code,
};
use crate::compiler::value::{lemma_value_code_appends, value_code};
use crate::compiler::weight::{block_weight, statement_weight, statements_weight};
use crate::context::{AsmView, ContextView};
use crate::instruction::{InstructionView, X86InstructionType};
use crate::location::LocationView;
use crate::register::{Register, RegisterSize};
use crate::store::{
    lemma_lock_spares,
    lemma_with_status_names,
    spares_stack_pointer,
    StoreDefaultRegisters,
    StoreView,
    X86StoreDefaultRegisters,
    MAX_FRAME_SIZE,
};
use crate::tool::defs::OsSpecificDefs;
use crate::types::{ExpressionView, ParameterView, StatementView, ValueView};

verus! {

/// The code of a value takes no room from the stack; an operand that the
/// value compiler chooses itself is not the stack pointer.
pub proof fn lemma_value_code_quiet(value: ValueView, state: State, target: Option<LocationView>)
    requires
        spares_stack_pointer(state.store.registers),
    ensures
        value_code(value, state, target) matches Ok((location, after)) ==> {
            &&& quiet(state.context, after.context)
            &&& spares_stack_pointer(after.store.registers)
            &&& target is None ==> location != LocationView::direct(Register::RSP)
        },
{
    reveal(value_code);
    if let ValueView::Number(number) = value {
        lemma_lock_spares(state.store.set_last_size(number.spec_size()), number.spec_size());
    }
}

/// Bringing an operand into a register takes no room from the stack.
pub proof fn lemma_materialize_quiet(location: LocationView, state: State)
    requires
        spares_stack_pointer(state.store.registers),
    ensures
        materialize(location, state) matches Ok((_, after)) ==> quiet(state.context, after.context)
            && spares_stack_pointer(after.store.registers),
{
    lemma_lock_spares(state.store, state.store.last_size);
}

/// Claiming an operand leaves the pool without the stack pointer.
pub proof fn lemma_claim_operand_spares(store: StoreView, fixed: Option<FixedType>)
    requires
        spares_stack_pointer(store.registers),
    ensures
        spares_stack_pointer(claim_operand(store, fixed).1.registers),
{
    match fixed {
        Some(FixedType::AnyRegister) => lemma_lock_spares(store, store.last_size),
        Some(FixedType::Register(register, _)) => lemma_with_status_names(
            store.registers,
            register,
            false,
        ),
        None => {},
    }
}

/// The code of an expression takes no room from the stack: a subtraction
/// writes a slot of the frame or a scratch register, never the stack
/// pointer.
pub proof fn lemma_expression_code_quiet(expression: ExpressionView, state: State)
    requires
        spares_stack_pointer(state.store.registers),
    ensures
        expression_code(expression, state) matches Ok(after) ==> quiet(state.context, after.context)
            && spares_stack_pointer(after.store.registers),
{
    reveal(expression_code);
    match expression {
        ExpressionView::Add { target, source } => lemma_binary_code_quiet(
            X86InstructionType::Add,
            target,
            source,
            state,
        ),
        ExpressionView::Sub { target, source } => lemma_binary_code_quiet(
            X86InstructionType::Sub,
            target,
            source,
            state,
        ),
        ExpressionView::Mul { target, source } => lemma_binary_code_quiet(
            X86InstructionType::IMul,
            target,
            source,
            state,
        ),
        ExpressionView::ShiftLeft { target, source } => lemma_binary_code_quiet(
            X86InstructionType::Shl,
            target,
            source,
            state,
        ),
        ExpressionView::ShiftRight { target, source } => lemma_binary_code_quiet(
            X86InstructionType::Shr,
            target,
            source,
            state,
        ),
        ExpressionView::BitwiseAnd { target, source } => lemma_binary_code_quiet(
            X86InstructionType::And,
            target,
            source,
            state,
        ),
        ExpressionView::BitwiseOr { target, source } => lemma_binary_code_quiet(
            X86InstructionType::Or,
            target,
            source,
            state,
        ),
        ExpressionView::BitwiseXor { target, source } => lemma_binary_code_quiet(
            X86InstructionType::Xor,
            target,
            source,
            state,
        ),
        ExpressionView::Div { divider, divided } => lemma_division_code_quiet(
            divider,
            divided,
            Register::EAX,
            state,
        ),
        ExpressionView::Modulo { divider, divided } => lemma_division_code_quiet(
            divider,
            divided,
            Register::EDX,
            state,
        ),
        ExpressionView::BitwiseNot { source } => lemma_unary_code_quiet(
            X86InstructionType::Not,
            source,
            state,
        ),
        ExpressionView::BitwiseNeg { source } => lemma_unary_code_quiet(
            X86InstructionType::Neg,
            source,
            state,
        ),
        ExpressionView::Inc { source } => lemma_unary_code_quiet(X86InstructionType::Inc, source, state),
        ExpressionView::Dec { source } => lemma_unary_code_quiet(X86InstructionType::Dec, source, state),
        ExpressionView::Value(value) => {
            reveal(plain_value_code);
            lemma_value_code_quiet(value, state, None);
        },
    }
}

/// The code of an operation on two values takes no room from the stack.
pub proof fn lemma_binary_code_quiet(
    kind: X86InstructionType,
    target: ValueView,
    source: ValueView,
    state: State,
)
    requires
        spares_stack_pointer(state.store.registers),
    ensures
        binary_code(kind, target, source, state) matches Ok(after) ==> quiet(
            state.context,
            after.context,
        ) && spares_stack_pointer(after.store.registers),
{
    reveal(binary_code);
    let begun = state.comment("Generate source value"@);
    let source_fixed = spec_fixed_type(kind, OperandRole::Source);
    let (source_register, store) = claim_operand(begun.store, source_fixed);
    lemma_claim_operand_spares(begun.store, source_fixed);
    let claimed = State { store, ..begun };
    lemma_value_code_quiet(source, claimed, source_register);
    lemma_value_code_appends(source, claimed, source_register);
    if let Ok((source_location, after_source)) = value_code(source, claimed, source_register) {
        let target_fixed = spec_fixed_type(kind, OperandRole::Target);
        let (target_register, store) = claim_operand(after_source.store, target_fixed);
        lemma_claim_operand_spares(after_source.store, target_fixed);
        let announced = State { store, ..after_source }.comment("Generate target value"@);
        lemma_value_code_quiet(target, announced, target_register);
        lemma_value_code_appends(target, announced, target_register);
        if let Ok((target_location, after_target)) = value_code(target, announced, target_register) {
            lemma_materialize_quiet(source_location, after_target);
            lemma_materialize_computes(source_location, after_target);
            if let Ok((_, ready)) = materialize(source_location, after_target) {
                if let Ok(after) = binary_code(kind, target, source, state) {
                    lemma_quiet_chain(state.context, after_source.context, after_target.context);
                    lemma_quiet_chain(state.context, after_target.context, ready.context);
                    lemma_quiet_chain(state.context, ready.context, after.context);
                    if let Some(register) = target_location.register() {
                        lemma_with_status_names(state.store.registers, pool_entry(register), false);
                    }
                }
            }
        }
    }
}

/// The code of a division takes no room from the stack.
pub proof fn lemma_division_code_quiet(
    divider: ValueView,
    divided: ValueView,
    result: Register,
    state: State,
)
    requires
        spares_stack_pointer(state.store.registers),
    ensures
        division_code(divider, divided, result, state) matches Ok(after) ==> quiet(
            state.context,
            after.context,
        ) && spares_stack_pointer(after.store.registers),
{
    reveal(division_code);
    let divisor = LocationView::direct(Register::ESI);
    let begun = state.comment("Generate divider value"@);
    lemma_value_code_quiet(divider, begun, Some(divisor));
    lemma_value_code_appends(divider, begun, Some(divisor));
    if let Ok((_, after_divider)) = value_code(divider, begun, Some(divisor)) {
        let announced = after_divider.comment("Generate divided value"@);
        let dividend = Some(LocationView::direct(Register::EAX));
        lemma_value_code_quiet(divided, announced, dividend);
        lemma_value_code_appends(divided, announced, dividend);
        if let Ok((_, after_divided)) = value_code(divided, announced, dividend) {
            if let Ok(after) = division_code(divider, divided, result, state) {
                lemma_quiet_chain(state.context, after_divider.context, after_divided.context);
                lemma_quiet_chain(state.context, after_divided.context, after.context);
                lemma_with_status_names(state.store.registers, pool_entry(Register::ESI), false);
            }
        }
    }
}

/// The code of an operation on one value takes no room from the stack.
pub proof fn lemma_unary_code_quiet(kind: X86InstructionType, source: ValueView, state: State)
    requires
        spares_stack_pointer(state.store.registers),
    ensures
        unary_code(kind, source, state) matches Ok(after) ==> quiet(state.context, after.context)
            && spares_stack_pointer(after.store.registers),
{
    reveal(unary_code);
    let begun = state.comment("Generate source value"@);
    lemma_value_code_quiet(source, begun, None);
    lemma_value_code_appends(source, begun, None);
    if let Ok((location, after_source)) = value_code(source, begun, None) {
        lemma_materialize_quiet(location, after_source);
        lemma_materialize_computes(location, after_source);
        if let Ok((operand, ready)) = materialize(location, after_source) {
            if let Ok(after) = unary_code(kind, source, state) {
                lemma_quiet_chain(state.context, after_source.context, ready.context);
                lemma_quiet_chain(state.context, ready.context, after.context);
                if let Some(register) = operand.register() {
                    lemma_with_status_names(state.store.registers, pool_entry(register), false);
                }
            }
        }
    }
}

/// The code of a comparison takes no room from the stack.
pub proof fn lemma_comparison_code_quiet(left: ValueView, right: ValueView, state: State)
    requires
        spares_stack_pointer(state.store.registers),
    ensures
        comparison_code(left, right, state) matches Ok(after) ==> quiet(state.context, after.context),
{
    reveal(comparison_code);
    let begun = state.comment("Generate right value"@);
    lemma_value_code_quiet(right, begun, None);
    lemma_value_code_appends(right, begun, None);
    if let Ok((_, after_right)) = value_code(right, begun, None) {
        let announced = after_right.comment("Generate left value"@);
        lemma_value_code_quiet(left, announced, None);
        lemma_value_code_appends(left, announced, None);
        if let Ok((_, after_left)) = value_code(left, announced, None) {
            if let Ok(after) = comparison_code(left, right, state) {
                lemma_quiet_chain(state.context, after_right.context, after_left.context);
                lemma_quiet_chain(state.context, after_left.context, after.context);
            }
        }
    }
}

/// The code of an assignment takes no room from the stack.
pub proof fn lemma_assign_code_quiet(name: Seq<char>, expression: ExpressionView, state: State)
    requires
        spares_stack_pointer(state.store.registers),
    ensures
        assign_code(name, expression, state) matches Ok(after) ==> quiet(state.context, after.context),
{
    reveal(assign_code);
    let (_, store) = state.store.resolve_variable(name);
    let resolved = State { store, ..state };
    lemma_expression_code_quiet(expression, resolved);
    lemma_expression_code_computes(expression, resolved);
    if let Ok(computed) = expression_code(expression, resolved) {
        lemma_materialize_quiet(computed.store.last_assigned_location, computed);
        lemma_materialize_computes(computed.store.last_assigned_location, computed);
        if let Ok((_, ready)) = materialize(computed.store.last_assigned_location, computed) {
            if let Ok(after) = assign_code(name, expression, state) {
                lemma_quiet_chain(state.context, computed.context, ready.context);
                lemma_quiet_chain(state.context, ready.context, after.context);
            }
        }
    }
}

/// The code that puts an argument in its place takes no room from the
/// stack by a subtraction.
pub proof fn lemma_argument_code_quiet(value: ValueView, index: int, state: State)
    requires
        spares_stack_pointer(state.store.registers),
    ensures
        argument_code(value, index, state) matches Ok(after) ==> quiet(state.context, after.context)
            && spares_stack_pointer(after.store.registers),
{
    reveal(argument_code);
    match argument_register(index) {
        Some(register) => {
            lemma_value_code_quiet(value, state, Some(LocationView::direct(register)));
        },
        None => {
            lemma_lock_spares(state.store, RegisterSize::_64Bit);
            if let Some((register, locked)) = state.store.lock_register(RegisterSize::_64Bit) {
                lemma_with_status_names(locked.add_temp_variable(8).registers, register, true);
            }
        },
    }
}

/// The code that puts the arguments in their places takes no room from the
/// stack by a subtraction.
pub proof fn lemma_arguments_code_quiet(arguments: Seq<ValueView>, from: int, state: State)
    requires
        0 <= from <= arguments.len(),
        state.store.wf(),
        state.store.last_position + 8 * (arguments.len() - from) <= MAX_FRAME_SIZE,
        spares_stack_pointer(state.store.registers),
    ensures
        arguments_code(arguments, from, state) matches Ok(after) ==> quiet(state.context, after.context)
            && spares_stack_pointer(after.store.registers),
    decreases arguments.len() - from,
{
    if from < arguments.len() {
        lemma_arguments_code_quiet(arguments, from + 1, state);
        lemma_arguments_code_placed(arguments, from + 1, state);
        if let Ok(rest) = arguments_code(arguments, from + 1, state) {
            assert(rest.store.wf() && rest.store.last_position + 8 <= MAX_FRAME_SIZE
                && state.context.instructions.len() <= rest.context.instructions.len()) by {
                reveal(placed_all);
            }
            lemma_argument_code_quiet(arguments[from], from, rest);
            crate::compiler::progress::lemma_argument_code_placed(arguments[from], from, rest);
            if let Ok(after) = argument_code(arguments[from], from, rest) {
                assert(keeps(rest.context, after.context)) by {
                    reveal(crate::compiler::statement::placed);
                }
                lemma_quiet_chain(state.context, rest.context, after.context);
            }
        }
    }
}

/// The code of a call takes no room from the stack by a subtraction.
pub proof fn lemma_call_code_quiet(
    name: Seq<char>,
    arguments: Seq<ValueView>,
    assign: Option<Seq<char>>,
    state: State,
)
    requires
        state.store.wf(),
        state.store.last_position + 8 * (arguments.len() + 1) <= MAX_FRAME_SIZE,
        spares_stack_pointer(state.store.registers),
    ensures
        call_code(name, arguments, assign, state) matches Ok(after) ==> quiet(state.context, after.context),
{
    reveal(call_code);
    lemma_arguments_code_quiet(arguments, 0, state);
    lemma_arguments_code_placed(arguments, 0, state);
    if let Ok(loaded) = arguments_code(arguments, 0, state) {
        reveal(placed_all);
    }
}

/// No code of a statement takes room from the stack by a subtraction from
/// the stack pointer, where no scratch register is the stack pointer.
pub proof fn lemma_statement_code_quiet(statement: StatementView, state: State)
    requires
        state.store.wf(),
        state.fits(statement_weight(statement)),
        spares_stack_pointer(state.store.registers),
    ensures
        statement_code(statement, state) matches Ok(after) ==> quiet(state.context, after.context),
    decreases statement, 0int,
{
    reveal(statement_code);
    match statement {
        StatementView::Assign { name, assigne } => lemma_assign_code_quiet(name, assigne, state),
        StatementView::Print { format, arguments } => lemma_call_code_quiet(
            state.context.os.spec_print_symbol_name(),
            print_arguments(format, arguments),
            None,
            state,
        ),
        StatementView::Call { name, arguments, assign, .. } => lemma_call_code_quiet(
            name,
            arguments,
            assign,
            state,
        ),
        StatementView::Return(value) => {
            reveal(return_code);
        },
        StatementView::If { condition, true_block, false_block } => {
            lemma_comparison_code_quiet(condition.left, condition.right, state);
            lemma_comparison_code_appends(condition.left, condition.right, state);
            if let Ok(tested) = condition_code(condition, state) {
                let kind = condition.kind;
                let start = state.context.instructions.len() as int;
                let place = tested.context.instructions.len() as int;
                let jumped = tested.instruction(jump(kind, Seq::empty()));
                lemma_statements_code_advances(true_block, true_block.len() as int, jumped);
                lemma_statements_code_quiet(true_block, true_block.len() as int, jumped);
                if let Ok(after_true) = statements_code(true_block, true_block.len() as int, jumped) {
                    let middle = after_true.context.instructions.len() as int;
                    let inner = after_true.context.instructions;
                    lemma_advances_bounds(jumped, after_true, block_weight(true_block));
                    lemma_advances_stands(jumped, after_true, block_weight(true_block));
                    match false_block {
                        None => {
                            if let Ok(after) = statement_code(statement, state) {
                                let items = after.context.instructions;
                                assert forall|i: int| start <= i < items.len() implies !(
                                #[trigger] items[i]).reserves() by {
                                    if i < place {
                                        assert(inner[i] == jumped.context.instructions[i]);
                                        assert(!tested.context.instructions[i].reserves());
                                    } else if place < i < middle {
                                        assert(!inner[i].reserves());
                                    }
                                }
                            }
                        },
                        Some(false_block) => {
                            let opened = after_true.instruction(
                                InstructionView::labelled(X86InstructionType::Jmp, Seq::empty()),
                            ).fresh_branch();
                            lemma_statements_code_advances(
                                false_block,
                                false_block.len() as int,
                                opened,
                            );
                            lemma_statements_code_quiet(false_block, false_block.len() as int, opened);
                            if let Ok(after_false) = statements_code(
                                false_block,
                                false_block.len() as int,
                                opened,
                            ) {
                                lemma_advances_stands(opened, after_false, block_weight(false_block));
                                let outer = after_false.context.instructions;
                                if let Ok(after) = statement_code(statement, state) {
                                    let items = after.context.instructions;
                                    assert forall|i: int| start <= i < items.len() implies !(
                                    #[trigger] items[i]).reserves() by {
                                        if i < middle {
                                            assert(outer[i] == opened.context.instructions[i]);
                                            if i < place {
                                                assert(inner[i] == jumped.context.instructions[i]);
                                                assert(!tested.context.instructions[i].reserves());
                                            } else if i > place {
                                                assert(!inner[i].reserves());
                                            }
                                        } else if i == middle + 1 {
                                            assert(outer[i] == opened.context.instructions[i]);
                                        } else if middle + 1 < i < outer.len() {
                                            assert(!outer[i].reserves());
                                        }
                                    }
                                }
                            }
                        },
                    }
                }
            }
        },
    }
}

/// No code of the first `count` statements of a block takes room from the
/// stack by a subtraction from the stack pointer.
pub proof fn lemma_statements_code_quiet(items: Seq<StatementView>, count: int, state: State)
    requires
        0 <= count <= items.len(),
        state.store.wf(),
        state.fits(statements_weight(items, count)),
        spares_stack_pointer(state.store.registers),
    ensures
        statements_code(items, count, state) matches Ok(after) ==> quiet(state.context, after.context),
    decreases items, count,
{
    reveal(statement_code);
    if count > 0 {
        lemma_statements_code_quiet(items, count - 1, state);
        lemma_statements_code_advances(items, count - 1, state);
        if let Ok(before) = statements_code(items, count - 1, state) {
            lemma_advances_bounds(state, before, statements_weight(items, count - 1));
            lemma_statement_code_quiet(items[count - 1], before);
            crate::compiler::progress::lemma_statement_code_advances(items[count - 1], before);
            if let Ok(after) = statement_code(items[count - 1], before) {
                lemma_advances_stands(before, after, statement_weight(items[count - 1]));
                lemma_quiet_chain(state.context, before.context, after.context);
            }
        }
    }
}

/// A function takes room from the stack at one place only. Where it has
/// variables, the one subtraction from the stack pointer among all that it
/// emits is the reservation behind the binding of its parameters; where it
/// has none, it emits no subtraction from the stack pointer at all.
pub proof fn lemma_one_reservation(
    name: Seq<char>,
    parameters: Seq<ParameterView>,
    block: Seq<StatementView>,
    context: ContextView,
)
    requires
        definition_fits(parameters.len() + block_weight(block), context),
    ensures
        function_code(name, parameters, block, context) matches Ok(after) ==> {
            &&& block_code(block, prologue(name, parameters, context)) matches Ok(body)
            &&& forall|i: int|
                context.instructions.len() <= i < after.instructions.len() ==> ((
                #[trigger] after.instructions[i]).reserves() <==> body.store.variables.len() > 0 && i
                    == reservation_position(name, parameters, context))
            &&& body.store.variables.len() > 0 ==> after.instructions[reservation_position(
                name,
                parameters,
                context,
            )] == AsmView::Instruction(
                reserve(
                    reserved_bytes(
                        crate::store::total_size(
                            body.store.variables,
                            body.store.variables.len() as int,
                        ),
                    ),
                ),
            )
        },
{
    let entered = State::of(
        StoreView::initial(X86StoreDefaultRegisters::pool()),
        context.branch(name),
    ).instruction(
        InstructionView::unary(X86InstructionType::Push, LocationView::direct(Register::RBP), None),
    ).instruction(
        InstructionView::mov(LocationView::direct(Register::RSP), LocationView::direct(Register::RBP)),
    );
    lemma_parameters_code_bound(parameters, 0, entered);
    lemma_parameters_code_quiet(parameters, 0, entered);
    let bound_state = parameters_code(parameters, 0, entered);
    let opened = prologue(name, parameters, context);
    let start = context.instructions.len() as int;
    let place = reservation_position(name, parameters, context);
    let first = opened.context.instructions.len() as int;
    assert(spares_stack_pointer(opened.store.registers));
    lemma_statements_code_advances(block, block.len() as int, opened);
    lemma_statements_code_quiet(block, block.len() as int, opened);
    if let Ok(body) = block_code(block, opened) {
        lemma_advances_stands(opened, body, block_weight(block));
        lemma_reserved(opened, body, block_weight(block), place);
        let inner = body.context.instructions;
        let closed = epilogue(body.context).instructions;
        let items = framed(body, place).instructions;
        assert forall|i: int| 0 <= i < inner.len() implies #[trigger] closed[i] == inner[i] by {}
        assert forall|i: int| start <= i < first && i != place implies !(#[trigger] inner[i]).reserves() by {
            assert(inner[i] == opened.context.instructions[i]);
            if i < entered.context.instructions.len() {
                assert(opened.context.instructions[i] == entered.context.instructions[i]);
            } else if i < bound_state.context.instructions.len() {
                assert(opened.context.instructions[i] == bound_state.context.instructions[i]);
            }
        }
        assert forall|i: int| start <= i < items.len() implies ((#[trigger] items[i]).reserves()
            <==> body.store.variables.len() > 0 && i == place) by {
            if body.store.last_position > 0 {
                if i != place && i < inner.len() {
                    assert(items[i] == inner[i]);
                }
            } else {
                if i < place {
                    assert(items[i] == inner[i]);
                } else if i + 1 < inner.len() {
                    assert(items[i] == inner[i + 1]);
                    assert(!inner[i + 1].reserves());
                } else {
                    assert(items[i] == closed[i + 1]);
                }
            }
        }
    }
}

/// Binding the parameters takes no room from the stack by a subtraction.
pub proof fn lemma_parameters_code_quiet(parameters: Seq<ParameterView>, from: int, state: State)
    requires
        0 <= from <= parameters.len(),
    ensures
        quiet(state.context, parameters_code(parameters, from, state).context),
        keeps(state.context, parameters_code(parameters, from, state).context),
        parameters_code(parameters, from, state).store.registers == state.store.registers,
    decreases parameters.len() - from,
{
    if from < parameters.len() {
        lemma_parameters_code_quiet(parameters, from + 1, state);
        let rest = parameters_code(parameters, from + 1, state);
        let after = parameters_code(parameters, from, state);
        assert(keeps(rest.context, after.context));
        crate::compiler::state::lemma_keeps_chain(state.context, rest.context, after.context);
        lemma_quiet_chain(state.context, rest.context, after.context);
    }
}

} // verus!
