//! Statements and blocks.

use vstd::prelude::*;
use vstd::string::*;
use crate::compiler::condition::{
    condition_code,
    lemma_comparison_code_appends,
    X86ConditionCompiler,
};
use crate::compiler::error::{ErrorView, X86Error};
use crate::compiler::expression::{
    expression_code,
    lemma_expression_code_computes,
    lemma_materialize_computes,
    materialize,
    materialize_operand,
    X86ExpressionCompiler,
};
use crate::compiler::block::X86BlockCompiler;
use crate::compiler::state::{
    advances,
    appends,
    completed,
    lemma_advances_bounds,
    lemma_appends_chain,
    lemma_calm_chain,
    calm,
    Failure,
    State,
};
use crate::compiler::weight::{block_weight, statement_weight};
use crate::compiler::value::{lemma_value_code_appends, value_code, X86ValueCompiler};
use crate::context::{branch_label, ApplicationContext, AsmView};
use crate::instruction::{InstructionView, X86Instruction, X86InstructionType};
use crate::location::{optional_text_view, Location, LocationView};
use crate::register::{Register, RegisterSize, RegisterTrait};
use crate::store::{lemma_found_is_in_frame, Store, MAX_FRAME_SIZE};
use crate::text::{push_signed_decimal, signed_decimal};
use crate::tool::defs::OsSpecificDefs;
use crate::types::{
    optional_value_view,
    values_view,
    CallingConventions,
    ConditionDiscriminant,
    Expression,
    ExpressionView,
    ProcedureCall,
    Statement,
    StatementView,
    Value,
    ValueView,
};

verus! {

/// The registers that carry the first arguments of a call, in order.
pub open spec fn argument_registers() -> Seq<Register> {
    seq![
        Register::RDI,
        Register::RSI,
        Register::RDX,
        Register::RCX,
        Register::R8,
        Register::R9,
    ]
}

/// The register that carries the argument at `index`; later arguments go
/// onto the stack.
pub open spec fn argument_register(index: int) -> Option<Register> {
    if 0 <= index < argument_registers().len() {
        Some(argument_registers()[index])
    } else {
        None
    }
}

/// The register in which a call hands back its result.
pub open spec fn result_register() -> Register {
    Register::RAX
}

/// The jump that leaves out the block of a condition of the given kind: it
/// is taken where the condition does not hold. The flags come from
/// `right - left`.
pub open spec fn jump_type(kind: ConditionDiscriminant) -> X86InstructionType {
    match kind {
        ConditionDiscriminant::Eq => X86InstructionType::Jne,
        ConditionDiscriminant::Ne => X86InstructionType::Je,
        ConditionDiscriminant::Gr => X86InstructionType::Jnb,
        ConditionDiscriminant::Ge => X86InstructionType::Jnbe,
        ConditionDiscriminant::Ls => X86InstructionType::Jna,
        ConditionDiscriminant::Le => X86InstructionType::Jnae,
    }
}

/// The jump to `label` that leaves out the block of a condition.
pub open spec fn jump(kind: ConditionDiscriminant, label: Seq<char>) -> InstructionView {
    InstructionView::labelled(jump_type(kind), label)
}

/// The state after `text` is interned in the data section under a new
/// label and the address of that label is loaded into `target`.
pub open spec fn load_text(
    text: Seq<char>,
    target: LocationView,
    comment: Option<Seq<char>>,
    state: State,
) -> State {
    State { context: state.context.load_text(text, target, comment), ..state }
}

/// The code of `name = expression`: the variable gets its stack slot where
/// it has none, the expression is compiled, its result is brought into a
/// register and stored in the slot. The slot becomes the last operand and
/// the pool of scratch registers is given back.
#[verifier::opaque]
pub open spec fn assign_code(name: Seq<char>, expression: ExpressionView, state: State) -> Result<State, Failure> {
    let (variable, store) = state.store.resolve_variable(name);
    match expression_code(expression, State { store, ..state }) {
        Err(error) => Err(error),
        Ok(computed) => match materialize(computed.store.last_assigned_location, computed) {
            Err(error) => Err(error),
            Ok((value, ready)) => {
                let slot = LocationView::slot(variable.position);
                let stored = ready.instruction(
                    InstructionView::binary(
                        X86InstructionType::Mov,
                        value,
                        slot,
                        Some("assign "@ + name),
                    ),
                );
                Ok(
                    State {
                        store: stored.store.set_last_assigned_location(slot).register_restore(
                            state.store.registers,
                        ),
                        ..stored
                    },
                )
            },
        },
    }
}

/// The code of `return value`: the value is moved into the result register,
/// which for a variable has the width of the variable; the address of a
/// text is loaded. Without a value nothing is emitted.
#[verifier::opaque]
pub open spec fn return_code(value: Option<ValueView>, state: State) -> Result<State, Failure> {
    match value {
        None => Ok(state),
        Some(ValueView::Variable(name)) => match state.store.find_variable(name) {
            None => Err(state.fails(ErrorView::VariableNotFound(name))),
            Some(variable) => Ok(
                state.instruction(
                    InstructionView::binary(
                        X86InstructionType::Mov,
                        LocationView::slot(variable.position),
                        LocationView::direct(
                            result_register(
                                ).spec_sized(RegisterSize::spec_from_bytes(variable.size),
                            ),
                        ),
                        Some("return "@ + variable.name),
                    ),
                ),
            ),
        },
        Some(ValueView::Number(number)) => Ok(
            state.instruction(
                InstructionView::binary(
                    X86InstructionType::Mov,
                    LocationView::Imm(number),
                    LocationView::direct(result_register()),
                    Some("return "@ + signed_decimal(number.value())),
                ),
            ),
        ),
        Some(ValueView::String(text)) => Ok(
            load_text(
                text,
                LocationView::direct(result_register()),
                Some("return \""@ + text + "\""@),
                state,
            ),
        ),
    }
}

/// The code that puts the argument at `index` in its place.
///
/// An argument that has a register is compiled into it; the address of a
/// text is loaded into it. Every other argument is pushed: a variable from
/// its slot, a number as it is, and a text by its address, which is loaded
/// into a scratch register and stored in a temporary stack slot, from
/// which it is pushed.
#[verifier::opaque]
pub open spec fn argument_code(value: ValueView, index: int, state: State) -> Result<State, Failure> {
    match argument_register(index) {
        Some(register) => match value {
            ValueView::String(text) => Ok(
                load_text(text, LocationView::direct(register), None, state),
            ),
            _ => match value_code(value, state, Some(LocationView::direct(register))) {
                Err(error) => Err(error),
                Ok((_, after)) => Ok(after),
            },
        },
        None => match value {
            ValueView::Variable(name) => match state.store.find_variable(name) {
                None => Err(state.fails(ErrorView::VariableNotFound(name))),
                Some(variable) => Ok(
                    state.instruction(
                        InstructionView::unary(
                            X86InstructionType::Push,
                            LocationView::slot(variable.position),
                            None,
                        ),
                    ),
                ),
            },
            ValueView::Number(number) => Ok(
                state.instruction(
                    InstructionView::unary(
                        X86InstructionType::Push,
                        LocationView::Imm(number),
                        None,
                    ),
                ),
            ),
            ValueView::String(text) => match state.store.lock_register(RegisterSize::_64Bit) {
                None => Err(state.fails(ErrorView::NoRegisterAvailable)),
                Some((register, locked)) => {
                    let temporary = LocationView::direct(register);
                    let loaded = load_text(text, temporary, None, State { store: locked, ..state });
                    let slot = LocationView::slot(locked.new_temp_variable(8).position);
                    Ok(
                        State {
                            store: locked.add_temp_variable(8).unmark_register(register),
                            ..loaded.instruction(InstructionView::mov(temporary, slot)).instruction(
                                InstructionView::unary(X86InstructionType::Push, slot, None),
                            )
                        },
                    )
                },
            },
        },
    }
}

/// The code that puts the arguments from `from` on in their places, the
/// last argument first.
pub open spec fn arguments_code(arguments: Seq<ValueView>, from: int, state: State) -> Result<State, Failure>
    decreases arguments.len() - from,
{
    if from < 0 || from >= arguments.len() {
        Ok(state)
    } else {
        match arguments_code(arguments, from + 1, state) {
            Err(error) => Err(error),
            Ok(after) => argument_code(arguments[from], from, after),
        }
    }
}

/// The code of a call: the arguments are put in their places, the last one
/// first, and the function is called. The result register becomes the last
/// operand; where the call assigns, the result is stored in the slot of the
/// variable, which gets one where it has none. The pool of scratch
/// registers is given back.
#[verifier::opaque]
pub open spec fn call_code(
    name: Seq<char>,
    arguments: Seq<ValueView>,
    assign: Option<Seq<char>>,
    state: State,
) -> Result<State, Failure> {
    match arguments_code(arguments, 0, state) {
        Err(error) => Err(error),
        Ok(loaded) => {
            let result = LocationView::direct(result_register());
            let called = loaded.instruction(
                InstructionView::labelled(X86InstructionType::Call, name),
            );
            let store = called.store.set_last_assigned_location(result);
            let assigned = match assign {
                Some(variable_name) => {
                    let (variable, store) = store.resolve_variable(variable_name);
                    State {
                        store,
                        ..called.instruction(
                            InstructionView::mov(result, LocationView::slot(variable.position)),
                        )
                    }
                },
                None => State { store, ..called },
            };
            Ok(
                State {
                    store: assigned.store.register_restore(state.store.registers),
                    ..assigned
                },
            )
        },
    }
}

/// The arguments of the call that prints: the format, then the values.
pub open spec fn print_arguments(format: Seq<char>, arguments: Seq<ValueView>) -> Seq<ValueView> {
    seq![ValueView::String(format)] + arguments
}

/// The code of a print: a call of the system's printing function with the
/// format before the other arguments.
pub open spec fn print_code(format: Seq<char>, arguments: Seq<ValueView>, state: State) -> Result<State, Failure> {
    call_code(
        state.context.os.spec_print_symbol_name(),
        print_arguments(format, arguments),
        None,
        state,
    )
}

/// The state after the code of `statement` is emitted.
///
/// Of a conditional: the condition; a jump that is taken where the
/// condition does not hold; the first block. Without a second block a
/// fresh label follows, which is where the jump goes. With a second block
/// there follow a jump to the end, a fresh label where the first jump goes,
/// the second block, and a fresh label for the end.
#[verifier::opaque]
pub open spec fn statement_code(statement: StatementView, state: State) -> Result<State, Failure>
    decreases statement, 0int,
{
    match statement {
        StatementView::Assign { name, assigne } => assign_code(name, assigne, state),
        StatementView::If { condition, true_block, false_block } => match condition_code(
            condition,
            state,
        ) {
            Err(error) => Err(error),
            Ok(tested) => {
                let kind = condition.kind;
                let first_jump = tested.context.instructions.len() as int;
                match statements_code(
                    true_block,
                    true_block.len() as int,
                    tested.instruction(jump(kind, Seq::empty())),
                ) {
                    Err(error) => Err(error),
                    Ok(after_true) => match false_block {
                        None => Ok(
                            after_true.fresh_branch().patched(
                                first_jump,
                                jump(kind, branch_label(after_true.context.branch_counter)),
                            ),
                        ),
                        Some(false_block) => {
                            let second_jump = after_true.context.instructions.len() as int;
                            match statements_code(
                                false_block,
                                false_block.len() as int,
                                after_true.instruction(
                                    InstructionView::labelled(
                                        X86InstructionType::Jmp,
                                        Seq::empty(),
                                    ),
                                ).fresh_branch(),
                            ) {
                                Err(error) => Err(error),
                                Ok(after_false) => Ok(
                                    after_false.fresh_branch().patched(
                                        first_jump,
                                        jump(kind, branch_label(after_true.context.branch_counter)),
                                    ).patched(
                                        second_jump,
                                        InstructionView::labelled(
                                            X86InstructionType::Jmp,
                                            branch_label(after_false.context.branch_counter),
                                        ),
                                    ),
                                ),
                            }
                        },
                    },
                }
            },
        },
        StatementView::Print { format, arguments } => print_code(format, arguments, state),
        StatementView::Call { name, arguments, assign, .. } => call_code(
            name,
            arguments,
            assign,
            state,
        ),
        StatementView::Return(value) => return_code(value, state),
    }
}

/// The state after the code of the first `count` of `items` is emitted, in
/// their order.
pub open spec fn statements_code(items: Seq<StatementView>, count: int, state: State) -> Result<State, Failure>
    decreases items, count,
{
    if count <= 0 || count > items.len() {
        Ok(state)
    } else {
        match statements_code(items, count - 1, state) {
            Err(error) => Err(error),
            Ok(after) => statement_code(items[count - 1], after),
        }
    }
}

/// The state after the code of `block` is emitted.
pub open spec fn block_code(block: Seq<StatementView>, state: State) -> Result<State, Failure> {
    statements_code(block, block.len() as int, state)
}

/// From `before` to `after` one argument was put in its place: items were
/// emitted, no branch label was taken, and the frame grew by no more than
/// one slot of 8 bytes.
#[verifier::opaque]
pub open spec fn placed(before: State, after: State) -> bool {
    &&& appends(before.context, after.context)
    &&& calm(before.context, after.context)
    &&& after.context.branch_counter == before.context.branch_counter
    &&& after.store.wf()
    &&& after.store.last_position <= before.store.last_position + 8
    &&& before.store.variables.len() <= after.store.variables.len()
    &&& forall|i: int|
        0 <= i < before.store.variables.len() ==> #[trigger] after.store.variables[i]
            == before.store.variables[i]
}

/// From `before` to `after` a number of arguments were put in their places.
#[verifier::opaque]
pub open spec fn placed_all(before: State, after: State, count: int) -> bool {
    &&& appends(before.context, after.context)
    &&& calm(before.context, after.context)
    &&& after.context.branch_counter == before.context.branch_counter
    &&& after.store.wf()
    &&& after.store.last_position <= before.store.last_position + 8 * count
    &&& before.store.variables.len() <= after.store.variables.len()
    &&& forall|i: int|
        0 <= i < before.store.variables.len() ==> #[trigger] after.store.variables[i]
            == before.store.variables[i]
}

/// Once an argument of a call fails, the arguments fail with its error.
pub proof fn lemma_arguments_code_fails(arguments: Seq<ValueView>, failed: int, from: int, state: State)
    requires
        0 <= from <= failed <= arguments.len(),
        arguments_code(arguments, failed, state) is Err,
    ensures
        arguments_code(arguments, from, state) == arguments_code(arguments, failed, state),
    decreases failed - from,
{
    if from < failed {
        lemma_arguments_code_fails(arguments, failed, from + 1, state);
    }
}

/// One more argument put in its place.
pub proof fn lemma_placed_chain(first: State, second: State, third: State, count: int)
    requires
        0 <= count,
        placed_all(first, second, count),
        placed(second, third),
    ensures
        placed_all(first, third, count + 1),
{
    reveal(placed);
    reveal(placed_all);
    lemma_appends_chain(first.context, second.context, third.context);
    lemma_calm_chain(first.context, second.context, third.context);
    assert forall|i: int| 0 <= i < first.store.variables.len() implies #[trigger] third.store.variables[i]
        == first.store.variables[i] by {
        assert(third.store.variables[i] == second.store.variables[i]);
    }
}

/// A conditional without a second block advances by the weight of its
/// block and one label: `tested` is the state after the condition,
/// `after_true` the state after the jump and the block.
pub proof fn lemma_conditional_advances(
    initial: State,
    tested: State,
    kind: ConditionDiscriminant,
    after_true: State,
    weight: nat,
    total: nat,
)
    requires
        appends(initial.context, tested.context),
        tested.context.branch_counter == initial.context.branch_counter,
        tested.store.variables == initial.store.variables,
        tested.store.last_position == initial.store.last_position,
        tested.store.registers == initial.store.registers,
        advances(tested.instruction(jump(kind, Seq::empty())), after_true, weight),
        weight + 1 <= total,
    ensures
        advances(
            initial,
            after_true.fresh_branch().patched(
                tested.context.instructions.len() as int,
                jump(kind, branch_label(after_true.context.branch_counter)),
            ),
            total,
        ),
{
    reveal(advances);
    lemma_branch_label_not_empty(after_true.context.branch_counter);
    let jumped = tested.instruction(jump(kind, Seq::empty()));
    let first_jump = tested.context.instructions.len() as int;
    let last = after_true.fresh_branch().patched(
        first_jump,
        jump(kind, branch_label(after_true.context.branch_counter)),
    );
    assert forall|i: int| 0 <= i < initial.context.instructions.len() implies #[trigger] last.context.instructions[i]
        == initial.context.instructions[i] by {
        assert(after_true.context.instructions[i] == jumped.context.instructions[i]);
        assert(tested.context.instructions[i] == initial.context.instructions[i]);
    }
    assert forall|i: int|
        initial.context.instructions.len() <= i < last.context.instructions.len() implies !(
    #[trigger] last.context.instructions[i]).is_open_jump() by {
        if i < first_jump {
            assert(after_true.context.instructions[i] == jumped.context.instructions[i]);
            assert(!tested.context.instructions[i].is_open_jump());
        } else if i > first_jump && i < after_true.context.instructions.len() {
            assert(!after_true.context.instructions[i].is_open_jump());
        }
    }
}

/// A conditional with a second block advances by the weights of its blocks
/// and two labels: `tested` is the state after the condition, `after_true`
/// the state after the jump and the first block, `after_false` the state
/// after the second block.
pub proof fn lemma_alternative_advances(
    initial: State,
    tested: State,
    kind: ConditionDiscriminant,
    after_true: State,
    weight: nat,
    after_false: State,
    more: nat,
    total: nat,
)
    requires
        appends(initial.context, tested.context),
        tested.context.branch_counter == initial.context.branch_counter,
        tested.store.variables == initial.store.variables,
        tested.store.last_position == initial.store.last_position,
        tested.store.registers == initial.store.registers,
        advances(tested.instruction(jump(kind, Seq::empty())), after_true, weight),
        advances(
            after_true.instruction(
                InstructionView::labelled(X86InstructionType::Jmp, Seq::empty()),
            ).fresh_branch(),
            after_false,
            more,
        ),
        weight + more + 2 <= total,
    ensures
        advances(
            initial,
            after_false.fresh_branch().patched(
                tested.context.instructions.len() as int,
                jump(kind, branch_label(after_true.context.branch_counter)),
            ).patched(
                after_true.context.instructions.len() as int,
                InstructionView::labelled(
                    X86InstructionType::Jmp,
                    branch_label(after_false.context.branch_counter),
                ),
            ),
            total,
        ),
{
    reveal(advances);
    lemma_branch_label_not_empty(after_true.context.branch_counter);
    lemma_branch_label_not_empty(after_false.context.branch_counter);
    let jumped = tested.instruction(jump(kind, Seq::empty()));
    let first_jump = tested.context.instructions.len() as int;
    let second_jump = after_true.context.instructions.len() as int;
    let opened = after_true.instruction(
        InstructionView::labelled(X86InstructionType::Jmp, Seq::empty()),
    ).fresh_branch();
    let last = after_false.fresh_branch().patched(
        first_jump,
        jump(kind, branch_label(after_true.context.branch_counter)),
    ).patched(
        second_jump,
        InstructionView::labelled(
            X86InstructionType::Jmp,
            branch_label(after_false.context.branch_counter),
        ),
    );
    assert forall|i: int| 0 <= i < second_jump implies #[trigger] after_false.context.instructions[i]
        == after_true.context.instructions[i] by {
        assert(after_false.context.instructions[i] == opened.context.instructions[i]);
    }
    assert forall|i: int| 0 <= i < initial.context.instructions.len() implies #[trigger] last.context.instructions[i]
        == initial.context.instructions[i] by {
        assert(after_false.context.instructions[i] == after_true.context.instructions[i]);
        assert(after_true.context.instructions[i] == jumped.context.instructions[i]);
        assert(tested.context.instructions[i] == initial.context.instructions[i]);
    }
    assert forall|i: int|
        initial.context.instructions.len() <= i < last.context.instructions.len() implies !(
    #[trigger] last.context.instructions[i]).is_open_jump() by {
        if i < first_jump {
            assert(after_false.context.instructions[i] == after_true.context.instructions[i]);
            assert(after_true.context.instructions[i] == jumped.context.instructions[i]);
            assert(!tested.context.instructions[i].is_open_jump());
        } else if first_jump < i < second_jump {
            assert(after_false.context.instructions[i] == after_true.context.instructions[i]);
            assert(!after_true.context.instructions[i].is_open_jump());
        } else if i == second_jump + 1 {
            assert(after_false.context.instructions[i] == opened.context.instructions[i]);
        } else if second_jump + 1 < i < after_false.context.instructions.len() {
            assert(!after_false.context.instructions[i].is_open_jump());
        }
    }
    assert forall|i: int| 0 <= i < initial.store.variables.len() implies #[trigger] last.store.variables[i]
        == initial.store.variables[i] by {
        assert(after_false.store.variables[i] == opened.store.variables[i]);
        assert(after_true.store.variables[i] == jumped.store.variables[i]);
    }
}

/// A branch label is never the empty text.
pub proof fn lemma_branch_label_not_empty(number: nat)
    ensures
        branch_label(number).len() > 0,
{
    reveal_strlit(".L");
}

/// No argument is dropped: an argument that has a register ends in it, by
/// the one instruction that is emitted for it, and every other argument is
/// pushed by the last instruction that is emitted for it.
pub proof fn lemma_argument_code_places(value: ValueView, index: int, state: State)
    ensures
        argument_code(value, index, state) matches Ok(after) ==> {
            let before = state.context.instructions.len();
            let items = after.context.instructions;
            match argument_register(index) {
                Some(register) => {
                    &&& items.len() == before + 1
                    &&& items.last() matches AsmView::Instruction(placed)
                    &&& placed.target == Some(LocationView::direct(register))
                    &&& placed.inst is Mov || placed.inst is Lea
                },
                None => {
                    &&& items.len() > before
                    &&& items.last() matches AsmView::Instruction(pushed)
                    &&& pushed.inst is Push
                },
            }
        },
{
    reveal(argument_code);
    reveal(value_code);
}

/// A call ends in its call instruction, or, where it assigns, in the move
/// of the result into the variable, which the call instruction precedes.
pub proof fn lemma_call_code_calls(
    name: Seq<char>,
    arguments: Seq<ValueView>,
    assign: Option<Seq<char>>,
    state: State,
)
    ensures
        call_code(name, arguments, assign, state) matches Ok(after) ==> {
            let items = after.context.instructions;
            let call = AsmView::Instruction(InstructionView::labelled(X86InstructionType::Call, name));
            match assign {
                None => items.len() >= 1 && items.last() == call,
                Some(_) => items.len() >= 2 && items[items.len() - 2] == call,
            }
        },
{
    reveal(call_code);
}

/// The calling convention of the target: System V.
pub fn call_convention() -> (convention: ProcedureCall)
    ensures
        convention.convention == CallingConventions::Systemv,
        convention.registers@ == argument_registers(),
        forall|index: int| convention.spec_register(index) == argument_register(index),
{
    let mut registers: Vec<Register> = Vec::new();
    registers.push(Register::RDI);
    registers.push(Register::RSI);
    registers.push(Register::RDX);
    registers.push(Register::RCX);
    registers.push(Register::R8);
    registers.push(Register::R9);
    assert(registers@ =~= argument_registers());
    ProcedureCall::new(CallingConventions::Systemv, registers)
}

/// Interns `text` in the data section and loads its address into `target`.
fn compile_text(text: &str, target: Location, comment: Option<String>, context: &mut ApplicationContext)
    ensures
        final(context)@ == old(context)@.load_text(text@, target@, optional_text_view(comment)),
{
    let label = context.datas.create_label();
    context.datas.add_string_data(label.as_str(), text);
    context.instructions.add_instruction(
        X86Instruction::Lea { source: Location::Label(label), target, comment },
    );
}

/// Compiles statements.
pub struct X86StatementCompiler;

impl X86StatementCompiler {
    /// Emits the code that `statement_code` describes.
    pub fn compile(statement: Statement, scope: &mut Store, context: &mut ApplicationContext) -> (result:
        Result<(), X86Error>)
        requires
            old(scope)@.wf(),
            State::of(old(scope)@, old(context)@).fits(statement_weight(statement@)),
        ensures
            completed(
                statement_code(statement@, State::of(old(scope)@, old(context)@)),
                result,
                final(scope)@,
                final(context)@,
            ),
            result is Ok ==> advances(
                State::of(old(scope)@, old(context)@),
                State::of(final(scope)@, final(context)@),
                statement_weight(statement@),
            ),
    {
        Self::compile_statement(&statement, scope, context)
    }

    /// `compile` on a borrowed statement.
    pub fn compile_statement(
        statement: &Statement,
        scope: &mut Store,
        context: &mut ApplicationContext,
    ) -> (result: Result<(), X86Error>)
        requires
            old(scope)@.wf(),
            State::of(old(scope)@, old(context)@).fits(statement_weight(statement@)),
        ensures
            completed(
                statement_code(statement@, State::of(old(scope)@, old(context)@)),
                result,
                final(scope)@,
                final(context)@,
            ),
            result is Ok ==> advances(
                State::of(old(scope)@, old(context)@),
                State::of(final(scope)@, final(context)@),
                statement_weight(statement@),
            ),
        decreases statement, 1int,
    {
        proof {
            reveal(statement_code);
        }
        match statement {
            Statement::Assign { name, assigne } => Self::compile_assign(
                scope,
                name.as_str(),
                assigne,
                context,
            ),
            Statement::Call { name, arguments, assign, is_variadic: _ } => Self::compile_call(
                scope,
                name.as_str(),
                arguments,
                assign,
                context,
            ),
            Statement::Print { format, arguments } => Self::compile_print(
                scope,
                format.as_str(),
                arguments,
                context,
            ),
            Statement::Return(expr) => Self::compile_return(scope, expr, context),
            Statement::If { .. } => Self::compile_if(scope, statement, context),
        }
    }

    /// The jump to `label` that leaves out the block of a condition.
    pub fn get_jump_instruction(condition_type: ConditionDiscriminant, label: &str) -> (instruction:
        X86Instruction)
        ensures
            instruction@ == jump(condition_type, label@),
    {
        match condition_type {
            ConditionDiscriminant::Eq => X86Instruction::Jne(label.to_owned()),
            ConditionDiscriminant::Ne => X86Instruction::Je(label.to_owned()),
            ConditionDiscriminant::Gr => X86Instruction::Jnb(label.to_owned()),
            ConditionDiscriminant::Ge => X86Instruction::Jnbe(label.to_owned()),
            ConditionDiscriminant::Ls => X86Instruction::Jna(label.to_owned()),
            ConditionDiscriminant::Le => X86Instruction::Jnae(label.to_owned()),
        }
    }

    /// Compiles an assignment: emits the code that `assign_code` describes.
    pub fn compile_assign(
        scope: &mut Store,
        name: &str,
        assigne: &Expression,
        context: &mut ApplicationContext,
    ) -> (result: Result<(), X86Error>)
        requires
            old(scope)@.wf(),
            old(scope)@.last_position + 8 <= MAX_FRAME_SIZE,
        ensures
            completed(
                assign_code(name@, assigne@, State::of(old(scope)@, old(context)@)),
                result,
                final(scope)@,
                final(context)@,
            ),
            result is Ok ==> advances(
                State::of(old(scope)@, old(context)@),
                State::of(final(scope)@, final(context)@),
                1,
            ),
    {
        proof {
            reveal(assign_code);
        }
        let position = scope.resolve_variable(name);
        let registers = scope.register_backup();
        let ghost resolved = State::of(scope@, context@);
        X86ExpressionCompiler::compile_expression(assigne, scope, context)?;
        let ghost computed = State::of(scope@, context@);
        let last = scope.get_last_assigned_location();
        let value = materialize_operand(last, scope, context)?;
        proof {
            lemma_expression_code_computes(assigne@, resolved);
            lemma_materialize_computes(computed.store.last_assigned_location, computed);
        }
        let mut comment = String::from_str("assign ");
        comment.append(name);
        context.instructions.add_instruction(
            X86Instruction::Mov {
                source: value,
                target: Location::slot(position),
                comment: Some(comment),
            },
        );
        scope.set_last_assigned_location(Location::slot(position));
        scope.register_restore(registers);
        proof {
            reveal(advances);
        }
        Ok(())
    }

    /// Compiles a print: emits the code that `print_code` describes.
    pub fn compile_print(
        scope: &mut Store,
        format: &str,
        arguments: &Vec<Value>,
        context: &mut ApplicationContext,
    ) -> (result: Result<(), X86Error>)
        requires
            old(scope)@.wf(),
            old(scope)@.last_position + 8 * (arguments@.len() + 2) <= MAX_FRAME_SIZE,
        ensures
            completed(
                print_code(
                    format@,
                    values_view(arguments@),
                    State::of(old(scope)@, old(context)@),
                ),
                result,
                final(scope)@,
                final(context)@,
            ),
            result is Ok ==> advances(
                State::of(old(scope)@, old(context)@),
                State::of(final(scope)@, final(context)@),
                arguments@.len() + 2,
            ),
    {
        let mut all: Vec<Value> = Vec::new();
        all.push(Value::String(format.to_owned()));
        let mut index: usize = 0;
        assert(values_view(all@) =~= print_arguments(format@, values_view(arguments@).take(0)));
        while index < arguments.len()
            invariant
                index <= arguments.len(),
                all@.len() == index + 1,
                values_view(all@) == print_arguments(
                    format@,
                    values_view(arguments@).take(index as int),
                ),
            decreases arguments.len() - index,
        {
            let ghost so_far = values_view(all@);
            all.push(arguments[index].clone());
            assert(values_view(all@) =~= so_far.push(arguments@[index as int]@));
            assert(values_view(arguments@).take(index + 1) =~= values_view(arguments@).take(
                index as int,
            ).push(arguments@[index as int]@));
            assert(values_view(all@) =~= print_arguments(
                format@,
                values_view(arguments@).take(index + 1),
            ));
            index += 1;
        }
        assert(values_view(arguments@).take(index as int) =~= values_view(arguments@));
        let name = context.os_specific_defs.print_symbol_name();
        Self::compile_call(scope, name, &all, &None, context)
    }

    /// Puts the argument at `index` in its place.
    pub fn compile_argument(
        argument: &Value,
        index: usize,
        convention: &ProcedureCall,
        scope: &mut Store,
        context: &mut ApplicationContext,
    ) -> (result: Result<(), X86Error>)
        requires
            old(scope)@.wf(),
            old(scope)@.last_position + 8 <= MAX_FRAME_SIZE,
            forall|i: int| convention.spec_register(i) == argument_register(i),
        ensures
            completed(
                argument_code(
                    argument@,
                    index as int,
                    State::of(old(scope)@, old(context)@),
                ),
                result,
                final(scope)@,
                final(context)@,
            ),
            result is Ok ==> placed(
                State::of(old(scope)@, old(context)@),
                State::of(final(scope)@, final(context)@),
            ),
    {
        proof {
            reveal(argument_code);
            reveal(placed);
            lemma_value_code_appends(
                argument@,
                State::of(scope@, context@),
                match argument_register(index as int) {
                    Some(register) => Some(LocationView::direct(register)),
                    None => None,
                },
            );
        }
        match convention.get_register(index) {
            Some(register) => match argument {
                Value::String(text) => {
                    compile_text(text.as_str(), Location::direct(register), None, context);
                    Ok(())
                },
                _ => {
                    X86ValueCompiler::compile_value(
                        argument,
                        context,
                        scope,
                        Some(Location::direct(register)),
                    )?;
                    Ok(())
                },
            },
            None => match argument {
                Value::Variable(variable) => {
                    let position = match scope.find_variable(variable.as_str()) {
                        Some(found) => found.position,
                        None => {
                            return Err(X86Error::VariableNotFound(variable.clone()));
                        },
                    };
                    proof {
                        lemma_found_is_in_frame(scope@, variable@);
                    }
                    context.instructions.add_instruction(X86Instruction::Push(Location::slot(position)));
                    Ok(())
                },
                Value::Number(number) => {
                    context.instructions.add_instruction(X86Instruction::Push(Location::Imm(*number)));
                    Ok(())
                },
                Value::String(text) => {
                    let register = match scope.lock_register(RegisterSize::_64Bit) {
                        Some(register) => register,
                        None => {
                            return Err(X86Error::NoRegisterAvailable);
                        },
                    };
                    compile_text(text.as_str(), Location::direct(register), None, context);
                    let variable = scope.add_temp_variable(8);
                    context.instructions.add_instruction(
                        X86Instruction::Mov {
                            source: Location::direct(register),
                            target: Location::slot(variable.position),
                            comment: None,
                        },
                    );
                    context.instructions.add_instruction(
                        X86Instruction::Push(Location::slot(variable.position)),
                    );
                    scope.release_register(register);
                    Ok(())
                },
            },
        }
    }

    /// Compiles a call: emits the code that `call_code` describes.
    pub fn compile_call(
        scope: &mut Store,
        name: &str,
        arguments: &Vec<Value>,
        assign: &Option<String>,
        context: &mut ApplicationContext,
    ) -> (result: Result<(), X86Error>)
        requires
            old(scope)@.wf(),
            old(scope)@.last_position + 8 * (arguments@.len() + 1) <= MAX_FRAME_SIZE,
        ensures
            completed(
                call_code(
                    name@,
                    values_view(arguments@),
                    optional_text_view(*assign),
                    State::of(old(scope)@, old(context)@),
                ),
                result,
                final(scope)@,
                final(context)@,
            ),
            result is Ok ==> advances(
                State::of(old(scope)@, old(context)@),
                State::of(final(scope)@, final(context)@),
                arguments@.len() + 1,
            ),
    {
        proof {
            reveal(call_code);
        }
        let ghost initial = State::of(scope@, context@);
        let ghost values = values_view(arguments@);
        let registers = scope.register_backup();
        let convention = call_convention();
        let mut index: usize = arguments.len();
        proof {
            reveal(placed_all);
        }
        while index > 0
            invariant
                index <= arguments.len(),
                values == values_view(arguments@),
                initial == State::of(old(scope)@, old(context)@),
                initial.store.wf(),
                initial.store.last_position + 8 * (arguments@.len() + 1) <= MAX_FRAME_SIZE,
                forall|i: int| convention.spec_register(i) == argument_register(i),
                arguments_code(values, index as int, initial) == Ok::<State, Failure>(
                    State::of(scope@, context@),
                ),
                placed_all(initial, State::of(scope@, context@), arguments@.len() - index),
            decreases index,
        {
            index -= 1;
            let ghost before = State::of(scope@, context@);
            proof {
                reveal(placed_all);
                assert(values[index as int] == arguments@[index as int]@);
            }
            match Self::compile_argument(&arguments[index], index, &convention, scope, context) {
                Ok(()) => {},
                Err(error) => {
                    proof {
                        reveal(call_code);
                        assert(arguments_code(values, index as int, initial) is Err);
                        lemma_arguments_code_fails(values, index as int, 0, initial);
                    }
                    return Err(error);
                },
            }
            proof {
                lemma_placed_chain(
                    initial,
                    before,
                    State::of(scope@, context@),
                    arguments@.len() - index - 1,
                );
            }
        }
        context.instructions.add_instruction(X86Instruction::Call(name.to_owned()));
        scope.set_last_assigned_location(Location::direct(Register::RAX));
        if let Some(assigned) = assign {
            let position = scope.resolve_variable(assigned.as_str());
            context.instructions.add_instruction(
                X86Instruction::Mov {
                    source: Location::direct(Register::RAX),
                    target: Location::slot(position),
                    comment: None,
                },
            );
        }
        scope.register_restore(registers);
        proof {
            reveal(placed_all);
            reveal(advances);
        }
        Ok(())
    }

    /// Compiles a return: emits the code that `return_code` describes.
    pub fn compile_return(scope: &mut Store, expr: &Option<Value>, context: &mut ApplicationContext) -> (result:
        Result<(), X86Error>)
        requires
            old(scope)@.wf(),
        ensures
            completed(
                return_code(
                    optional_value_view(*expr),
                    State::of(old(scope)@, old(context)@),
                ),
                result,
                final(scope)@,
                final(context)@,
            ),
            result is Ok ==> advances(
                State::of(old(scope)@, old(context)@),
                State::of(final(scope)@, final(context)@),
                0,
            ),
    {
        proof {
            reveal(return_code);
        }
        match expr {
            Some(Value::Variable(variable)) => {
                let (position, size, name) = match scope.find_variable(variable.as_str()) {
                    Some(found) => (found.position, found.size, found.name.clone()),
                    None => {
                        return Err(X86Error::VariableNotFound(variable.clone()));
                    },
                };
                proof {
                    lemma_found_is_in_frame(scope@, variable@);
                }
                let mut comment = String::from_str("return ");
                comment.append(name.as_str());
                context.instructions.add_instruction(
                    X86Instruction::Mov {
                        source: Location::slot(position),
                        target: Location::direct(
                            Register::RAX.get_sized(RegisterSize::from_bytes(size)),
                        ),
                        comment: Some(comment),
                    },
                );
            },
            Some(Value::Number(number)) => {
                let mut comment = String::from_str("return ");
                push_signed_decimal(&mut comment, number.to_integer());
                context.instructions.add_instruction(
                    X86Instruction::Mov {
                        source: Location::Imm(*number),
                        target: Location::direct(Register::RAX),
                        comment: Some(comment),
                    },
                );
            },
            Some(Value::String(data)) => {
                let mut comment = String::from_str("return \"");
                comment.append(data.as_str());
                comment.append("\"");
                compile_text(data.as_str(), Location::direct(Register::RAX), Some(comment), context);
            },
            None => (),
        };
        proof {
            reveal(advances);
        }
        Ok(())
    }

    /// Compiles a conditional; `statement` has to be one.
    pub fn compile_if(scope: &mut Store, statement: &Statement, context: &mut ApplicationContext) -> (result:
        Result<(), X86Error>)
        requires
            *statement is If,
            old(scope)@.wf(),
            State::of(old(scope)@, old(context)@).fits(statement_weight(statement@)),
        ensures
            completed(
                statement_code(statement@, State::of(old(scope)@, old(context)@)),
                result,
                final(scope)@,
                final(context)@,
            ),
            result is Ok ==> advances(
                State::of(old(scope)@, old(context)@),
                State::of(final(scope)@, final(context)@),
                statement_weight(statement@),
            ),
        decreases statement, 0int,
    {
        proof {
            reveal(statement_code);
        }
        let ghost initial = State::of(scope@, context@);
        match statement {
            Statement::If { condition, true_block, false_block } => {
                let condition_type = X86ConditionCompiler::compile_condition(condition, scope, context)?;
                let ghost tested = State::of(scope@, context@);
                proof {
                    lemma_comparison_code_appends(
                        condition.spec_left()@,
                        condition.spec_right()@,
                        initial,
                    );
                }
                let first_jump_location = context.instructions.add_instruction(
                    Self::get_jump_instruction(condition_type, ""),
                );
                let ghost jumped = State::of(scope@, context@);
                assert(""@ =~= Seq::<char>::empty()) by {
                    reveal_strlit("");
                }
                X86BlockCompiler::compile_block(true_block, scope, context)?;
                let ghost after_true = State::of(scope@, context@);
                proof {
                    lemma_advances_bounds(jumped, after_true, block_weight(true_block@));
                }
                match false_block {
                    Some(false_block) => {
                        let jmp_location = context.instructions.add_instruction(
                            X86Instruction::Jmp("".to_owned()),
                        );
                        let else_branch = context.storage.get_branch();
                        context.instructions.add_branch(else_branch.clone());
                        let ghost opened = State::of(scope@, context@);
                        X86BlockCompiler::compile_block(false_block, scope, context)?;
                        let ghost after_false = State::of(scope@, context@);
                        proof {
                            lemma_advances_bounds(opened, after_false, block_weight(false_block@));
                        }
                        let end_branch = context.storage.get_branch();
                        context.instructions.add_branch(end_branch.clone());
                        context.instructions.update_instruction(
                            Self::get_jump_instruction(condition_type, else_branch.as_str()),
                            first_jump_location,
                        );
                        context.instructions.update_instruction(
                            X86Instruction::Jmp(end_branch),
                            jmp_location,
                        );
                        proof {
                            lemma_alternative_advances(
                                initial,
                                tested,
                                condition@.kind,
                                after_true,
                                block_weight(true_block@),
                                after_false,
                                block_weight(false_block@),
                                statement_weight(statement@),
                            );
                        }
                    },
                    None => {
                        let end_branch = context.storage.get_branch();
                        context.instructions.add_branch(end_branch.clone());
                        context.instructions.update_instruction(
                            Self::get_jump_instruction(condition_type, end_branch.as_str()),
                            first_jump_location,
                        );
                        proof {
                            lemma_conditional_advances(
                                initial,
                                tested,
                                condition@.kind,
                                after_true,
                                block_weight(true_block@),
                                statement_weight(statement@),
                            );
                        }
                    },
                }
                Ok(())
            },
            _ => Err(X86Error::UnexpectedInstruction),
        }
    }
}

} // verus!
