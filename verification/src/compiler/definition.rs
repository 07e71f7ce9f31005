//! Definitions: one function with its frame.

use vstd::prelude::*;
use crate::compiler::error::X86Error;
use crate::compiler::state::{
    advances,
    appends,
    lemma_advances_bounds,
    lemma_appends_chain,
    lemma_calm_chain,
    calm,
    Failure,
    State,
};
use crate::compiler::block::X86BlockCompiler;
use crate::compiler::statement::{argument_register, block_code, call_convention};
use crate::compiler::weight::{add_weights, block_weight, weigh_block, weighs};
use crate::context::{ApplicationContext, AsmView, ContextView};
use crate::instruction::{InstructionView, X86Instruction, X86InstructionType};
use crate::location::{Location, LocationView};
use crate::register::{Register, RegisterTrait};
use crate::store::{
    Store,
    StoreDefaultRegisters,
    StoreView,
    X86StoreDefaultRegisters,
    MAX_FRAME_SIZE,
};
use crate::types::{
    parameters_view,
    Block,
    Definition,
    DefinitionView,
    Number,
    Parameter,
    ParameterView,
    StatementView,
};

verus! {

/// The least number of bytes that a function reserves once it reserves any.
pub const MIN_STACK_SIZE: u32 = 16;

/// An upper bound on what compiling `definition` takes from the frame, in
/// stack slots of 8 bytes, and on the branch labels it takes.
pub open spec fn definition_weight(definition: DefinitionView) -> nat {
    match definition {
        DefinitionView::Function { parameters, block, .. } => parameters.len() + block_weight(block),
    }
}

/// The instruction that makes room for `bytes` bytes on the stack.
pub open spec fn reserve(bytes: nat) -> InstructionView {
    InstructionView::binary(
        X86InstructionType::Sub,
        LocationView::Imm(Number::U32(bytes as u32)),
        LocationView::direct(Register::RSP),
        None,
    )
}

/// The number of bytes that a function reserves whose variables take `used` bytes.
pub open spec fn reserved_bytes(used: nat) -> nat {
    if used < MIN_STACK_SIZE {
        MIN_STACK_SIZE as nat
    } else {
        used
    }
}

/// The state after the parameters from `from` on are bound, the last one
/// first: each gets a stack slot of the width of its type, and each that
/// arrives in a register is copied from it at that width.
pub open spec fn parameters_code(parameters: Seq<ParameterView>, from: int, state: State) -> State
    decreases parameters.len() - from,
{
    if from < 0 || from >= parameters.len() {
        state
    } else {
        let bound = parameters_code(parameters, from + 1, state);
        let parameter = parameters[from];
        let size = parameter.param_type.spec_size().spec_bytes();
        let slot = LocationView::slot(bound.store.new_variable(parameter.name, size).position);
        let store = bound.store.add_variable(parameter.name, size);
        match argument_register(from) {
            Some(register) => State { store, ..bound }.instruction(
                InstructionView::mov(
                    LocationView::direct(register.spec_sized(parameter.param_type.spec_size())),
                    slot,
                ),
            ),
            None => State { store, ..bound },
        }
    }
}

/// The state in which the body of a function is compiled: after its label,
/// the frame set up, the parameters bound, the instruction that is to
/// reserve the frame, and the comment that opens the body.
pub open spec fn prologue(name: Seq<char>, parameters: Seq<ParameterView>, context: ContextView) -> State {
    let entered = State::of(
        StoreView::initial(X86StoreDefaultRegisters::pool()),
        context.branch(name),
    ).instruction(
        InstructionView::unary(X86InstructionType::Push, LocationView::direct(Register::RBP), None),
    ).instruction(
        InstructionView::mov(
            LocationView::direct(Register::RSP),
            LocationView::direct(Register::RBP),
        ),
    );
    parameters_code(parameters, 0, entered).instruction(reserve(0)).comment("function body begin"@)
}

/// Where the instruction stands that reserves the frame.
pub open spec fn reservation_position(
    name: Seq<char>,
    parameters: Seq<ParameterView>,
    context: ContextView,
) -> int {
    prologue(name, parameters, context).context.instructions.len() - 2
}

/// The context after the end of a function is emitted behind its body.
pub open spec fn epilogue(context: ContextView) -> ContextView {
    context.comment("function body end"@).instruction(
        InstructionView::mov(
            LocationView::direct(Register::RBP),
            LocationView::direct(Register::RSP),
        ),
    ).instruction(
        InstructionView::unary(X86InstructionType::Pop, LocationView::direct(Register::RBP), None),
    ).instruction(InstructionView::plain(X86InstructionType::Ret)).emit(seq![AsmView::BranchFinished])
}

/// The context after a function is compiled whose body ended in `body`:
/// the function reserves the bytes its variables take, but 16 at least;
/// where it has no variable, the reserving instruction is taken out.
pub open spec fn framed(body: State, reservation: int) -> ContextView {
    let closed = epilogue(body.context);
    if body.store.last_position > 0 {
        ContextView {
            instructions: closed.instructions.update(
                reservation,
                AsmView::Instruction(reserve(reserved_bytes(body.store.last_position))),
            ),
            ..closed
        }
    } else {
        ContextView { instructions: closed.instructions.remove(reservation), ..closed }
    }
}

/// The reservation of a function that ended with the given frame stands at
/// `place`: a function that has variables reserves as many bytes as all of
/// them take together, but 16 at least. A function without variables has no
/// reserving instruction: the comment that opens its body stands in that
/// place.
pub open spec fn reserved(frame: StoreView, context: ContextView, place: int) -> bool {
    let used = crate::store::total_size(frame.variables, frame.variables.len() as int);
    &&& frame.wf()
    &&& 0 <= place < context.instructions.len()
    &&& context.instructions[place] == if frame.variables.len() > 0 {
        AsmView::Instruction(reserve(reserved_bytes(used)))
    } else {
        AsmView::Comment("function body begin"@)
    }
}

/// The reservation of the function stands where the binding of its
/// parameters ends.
pub open spec fn function_reserved(
    name: Seq<char>,
    parameters: Seq<ParameterView>,
    block: Seq<StatementView>,
    before: ContextView,
    after: ContextView,
) -> bool {
    function_frame(name, parameters, block, before) matches Ok(frame) && reserved(
        frame,
        after,
        reservation_position(name, parameters, before),
    )
}

/// The reservation of the function that `definition` defines stands.
pub open spec fn definition_reserved(
    definition: DefinitionView,
    before: ContextView,
    after: ContextView,
) -> bool {
    match definition {
        DefinitionView::Function { name, parameters, block } => function_reserved(
            name,
            parameters,
            block,
            before,
            after,
        ),
    }
}

/// The context after the function is compiled.
pub open spec fn function_code(
    name: Seq<char>,
    parameters: Seq<ParameterView>,
    block: Seq<StatementView>,
    context: ContextView,
) -> Result<ContextView, Failure> {
    match block_code(block, prologue(name, parameters, context)) {
        Err(error) => Err(error),
        Ok(body) => Ok(framed(body, reservation_position(name, parameters, context))),
    }
}

/// The store at the end of the function's compilation.
pub open spec fn function_frame(
    name: Seq<char>,
    parameters: Seq<ParameterView>,
    block: Seq<StatementView>,
    context: ContextView,
) -> Result<StoreView, Failure> {
    match block_code(block, prologue(name, parameters, context)) {
        Err(error) => Err(error),
        Ok(body) => Ok(body.store),
    }
}

/// The context after `definition` is compiled.
pub open spec fn definition_code(definition: DefinitionView, context: ContextView) -> Result<ContextView, Failure> {
    match definition {
        DefinitionView::Function { name, parameters, block } => function_code(
            name,
            parameters,
            block,
            context,
        ),
    }
}

/// A compilation of a definition ended as `expected` says: in that context,
/// or with that error and with the context as it was when the compilation
/// stopped.
pub open spec fn defined(
    expected: Result<ContextView, Failure>,
    result: Result<(), X86Error>,
    context: ContextView,
) -> bool {
    match expected {
        Ok(after) => result is Ok && context == after,
        Err(failure) => {
            &&& result matches Err(raised)
            &&& raised@ == failure.error
            &&& context == failure.state.context
        },
    }
}

/// There is room for a definition of the given weight.
pub open spec fn definition_fits(weight: nat, context: ContextView) -> bool {
    &&& 8 * weight <= MAX_FRAME_SIZE
    &&& context.branch_counter + weight <= usize::MAX
}

/// What binding the parameters does: it emits moves, gives each parameter
/// at most 8 bytes of a well-formed frame, and leaves the pool alone.
pub open spec fn bound(before: State, after: State, count: int) -> bool {
    &&& appends(before.context, after.context)
    &&& calm(before.context, after.context)
    &&& after.context.branch_counter == before.context.branch_counter
    &&& after.context.datas == before.context.datas
    &&& after.store.wf()
    &&& after.store.last_position <= before.store.last_position + 8 * count
    &&& after.store.registers == before.store.registers
}

/// Compiles definitions, each with a store of its own.
pub struct X86DefinitionCompiler;

impl X86DefinitionCompiler {
    /// Emits the code that `definition_code` describes.
    pub fn compile(definition: Definition, context: &mut ApplicationContext) -> (result: Result<
        (),
        X86Error,
    >)
        requires
            definition_fits(definition_weight(definition@), old(context)@),
        ensures
            defined(definition_code(definition@, old(context)@), result, final(context)@),
            result is Ok ==> appends(old(context)@, final(context)@),
            result is Ok ==> definition_reserved(definition@, old(context)@, final(context)@),
            result is Ok ==> final(context)@.branch_counter <= old(context)@.branch_counter
                + definition_weight(definition@),
    {
        Self::compile_definition(&definition, context)
    }

    /// `compile` on a borrowed definition.
    pub fn compile_definition(definition: &Definition, context: &mut ApplicationContext) -> (result:
        Result<(), X86Error>)
        requires
            definition_fits(definition_weight(definition@), old(context)@),
        ensures
            defined(definition_code(definition@, old(context)@), result, final(context)@),
            result is Ok ==> appends(old(context)@, final(context)@),
            result is Ok ==> definition_reserved(definition@, old(context)@, final(context)@),
            result is Ok ==> final(context)@.branch_counter <= old(context)@.branch_counter
                + definition_weight(definition@),
    {
        match definition {
            Definition::Function { name, parameters, block } => Self::compile_function(
                name.as_str(),
                parameters,
                block,
                context,
            ),
        }
    }

    /// Binds the parameters, the last one first.
    pub fn bind_parameters(
        arguments: &Vec<Parameter>,
        scope: &mut Store,
        context: &mut ApplicationContext,
    )
        requires
            old(scope)@.wf(),
            old(scope)@.last_position + 8 * arguments@.len() <= MAX_FRAME_SIZE,
        ensures
            State::of(final(scope)@, final(context)@) == parameters_code(
                parameters_view(arguments@),
                0,
                State::of(old(scope)@, old(context)@),
            ),
            bound(
                State::of(old(scope)@, old(context)@),
                State::of(final(scope)@, final(context)@),
                arguments@.len() as int,
            ),
    {
        let ghost initial = State::of(scope@, context@);
        let convention = call_convention();
        let mut index: usize = arguments.len();
        while index > 0
            invariant
                index <= arguments.len(),
                initial.store.wf(),
                initial.store.last_position + 8 * arguments@.len() <= MAX_FRAME_SIZE,
                forall|i: int| convention.spec_register(i) == argument_register(i),
                State::of(scope@, context@) == parameters_code(
                    parameters_view(arguments@),
                    index as int,
                    initial,
                ),
                bound(initial, State::of(scope@, context@), arguments@.len() - index),
            decreases index,
        {
            index -= 1;
            let ghost before = State::of(scope@, context@);
            let parameter = &arguments[index];
            let register = convention.get_register(index);
            let size = parameter.param_type.size();
            let variable = scope.add_variable(parameter.name.as_str(), size.bytes());
            if let Some(reg) = register {
                context.instructions.add_instruction(
                    X86Instruction::Mov {
                        source: Location::direct(reg.get_sized(size)),
                        target: Location::slot(variable.position),
                        comment: None,
                    },
                );
            }
            proof {
                lemma_appends_chain(initial.context, before.context, context@);
                lemma_calm_chain(initial.context, before.context, context@);
            }
        }
    }

    /// Compiles a function: its label, the set-up of its frame, its
    /// parameters, its body and its end; at last it settles how much of the
    /// stack the function reserves.
    pub fn compile_function(
        name: &str,
        arguments: &Vec<Parameter>,
        block: &Block,
        context: &mut ApplicationContext,
    ) -> (result: Result<(), X86Error>)
        requires
            definition_fits(arguments@.len() + block_weight(block@), old(context)@),
        ensures
            defined(
                function_code(name@, parameters_view(arguments@), block@, old(context)@),
                result,
                final(context)@,
            ),
            result is Ok ==> appends(old(context)@, final(context)@),
            result is Ok ==> function_reserved(
                name@,
                parameters_view(arguments@),
                block@,
                old(context)@,
                final(context)@,
            ),
            result is Ok ==> final(context)@.branch_counter <= old(context)@.branch_counter
                + arguments@.len() + block_weight(block@),
    {
        let mut scope = Store::default();
        context.instructions.add_branch(name.to_owned());
        context.instructions.add_instruction(X86Instruction::Push(Location::direct(Register::RBP)));
        context.instructions.add_instruction(
            X86Instruction::Mov {
                source: Location::direct(Register::RSP),
                target: Location::direct(Register::RBP),
                comment: None,
            },
        );
        Self::bind_parameters(arguments, &mut scope, context);
        let stack_pointer_position = context.instructions.add_instruction(
            X86Instruction::Sub {
                source: Location::Imm(Number::U32(0)),
                target: Location::direct(Register::RSP),
                comment: None,
            },
        );
        context.instructions.add_comment("function body begin".to_owned());
        let ghost opened = State::of(scope@, context@);
        X86BlockCompiler::compile_block(block, &mut scope, context)?;
        let ghost body = State::of(scope@, context@);
        proof {
            lemma_advances_bounds(opened, body, block_weight(block@));
        }
        context.instructions.add_comment("function body end".to_owned());
        context.instructions.add_instruction(
            X86Instruction::Mov {
                source: Location::direct(Register::RBP),
                target: Location::direct(Register::RSP),
                comment: None,
            },
        );
        context.instructions.add_instruction(X86Instruction::Pop(Location::direct(Register::RBP)));
        context.instructions.add_instruction(X86Instruction::Ret);
        context.instructions.add_close_branch();
        assert(context@ == epilogue(body.context)) by {
            assert(context@.instructions =~= epilogue(body.context).instructions);
        }
        let used = scope.get_last_position();
        if used > 0 {
            let bytes: u32 = if used < MIN_STACK_SIZE as usize {
                MIN_STACK_SIZE
            } else {
                used as u32
            };
            context.instructions.update_instruction(
                X86Instruction::Sub {
                    source: Location::Imm(Number::U32(bytes)),
                    target: Location::direct(Register::RSP),
                    comment: None,
                },
                stack_pointer_position,
            );
        } else {
            context.instructions.remove_instruction(stack_pointer_position);
        }
        proof {
            lemma_framed_appends(
                old(context)@,
                opened,
                body,
                block_weight(block@),
                stack_pointer_position as int,
            );
            lemma_reserved(opened, body, block_weight(block@), stack_pointer_position as int);
        }
        Ok(())
    }
}

/// Closing a function and settling its reservation emits no open jump and
/// changes nothing of what stood before the function.
pub proof fn lemma_framed_appends(
    before: ContextView,
    opened: State,
    body: State,
    weight: nat,
    reservation: int,
)
    requires
        appends(before, opened.context),
        advances(opened, body, weight),
        before.instructions.len() <= reservation < opened.context.instructions.len(),
        opened.context.instructions[reservation] is Instruction,
        !opened.context.instructions[reservation]->Instruction_0.is_jump(),
    ensures
        appends(before, framed(body, reservation)),
{
    reveal(advances);
    lemma_appends_chain(before, opened.context, body.context);
    let closed = epilogue(body.context);
    let last = framed(body, reservation);
    assert forall|i: int| 0 <= i < before.instructions.len() implies #[trigger] last.instructions[i]
        == before.instructions[i] by {
        assert(closed.instructions[i] == body.context.instructions[i]);
    }
    assert forall|i: int| before.instructions.len() <= i < last.instructions.len() implies !(
    #[trigger] last.instructions[i]).is_open_jump() by {
        if body.store.last_position > 0 {
            if i != reservation && i < body.context.instructions.len() {
                assert(closed.instructions[i] == body.context.instructions[i]);
            }
        } else {
            if i < reservation {
                assert(closed.instructions[i] == body.context.instructions[i]);
            } else if i + 1 < body.context.instructions.len() {
                assert(closed.instructions[i + 1] == body.context.instructions[i + 1]);
                assert(!body.context.instructions[i + 1].is_open_jump());
            }
        }
    }
}

/// Where a function's body advanced from its prologue, the function's
/// reservation stands as `reserved` says.
pub proof fn lemma_reserved(opened: State, body: State, weight: nat, place: int)
    requires
        advances(opened, body, weight),
        0 <= place,
        place + 2 == opened.context.instructions.len(),
        opened.context.instructions[place + 1] == AsmView::Comment("function body begin"@),
    ensures
        reserved(body.store, framed(body, place), place),
{
    reveal(advances);
    let closed = epilogue(body.context);
    assert(closed.instructions[place] == body.context.instructions[place]);
    assert(closed.instructions[place + 1] == body.context.instructions[place + 1]);
    assert(body.context.instructions[place + 1] == opened.context.instructions[place + 1]);
    let frame = body.store;
    if frame.variables.len() > 0 {
        assert(frame.variables[0].size > 0);
        crate::store::lemma_total_size_grows(frame.variables, 1, frame.variables.len() as int);
    }
}

/// The weight of a definition, where the machine can hold it.
pub fn weigh_definition(definition: &Definition) -> (weight: Option<usize>)
    ensures
        weighs(weight, definition_weight(definition@)),
{
    match definition {
        Definition::Function { name: _, parameters, block } => add_weights(
            Some(parameters.len()),
            weigh_block(block),
        ),
    }
}

} // verus!
