//! Expressions: one operation over one or two values.

use vstd::prelude::*;
use crate::compiler::error::{ErrorView, X86Error};
use crate::compiler::state::{appends, calm, completed, located, stands, Failure, State};
use crate::compiler::value::{lemma_value_code_appends, value_code, X86ValueCompiler};
use crate::context::ApplicationContext;
use crate::instruction::{InstructionView, X86Instruction, X86InstructionType};
use crate::location::{optional_location_view, Location, LocationView};
use crate::register::{Register, RegisterSize, RegisterTrait};
use crate::store::{first_entry, lemma_with_status, with_status, Store, StoreView};
use crate::types::{Expression, ExpressionView, Value, ValueView};

verus! {

/// What an operation demands of one of its operands before it is compiled.
#[derive(Debug, Copy, Clone, PartialEq, Eq, Structural)]
pub enum FixedType {
    /// The operand has to be in this register, at this width where one is given.
    Register(Register, Option<RegisterSize>),
    /// The operand has to be in a register, whichever.
    AnyRegister,
}

/// The two operands of a binary operation.
#[derive(Debug, Copy, Clone, PartialEq, Eq, Structural)]
pub enum OperandRole {
    Source,
    Target,
}

/// The register in which the left operand of a division has to be.
pub open spec fn dividend_register() -> Register {
    Register::EAX
}

/// The register in which the right operand of a division has to be.
pub open spec fn divisor_register() -> Register {
    Register::ESI
}

/// The register that holds the quotient after a division.
pub open spec fn quotient_register() -> Register {
    Register::EAX
}

/// The register that holds the remainder after a division.
pub open spec fn remainder_register() -> Register {
    Register::EDX
}

/// A shift takes its count in the low byte of the count register; a
/// multiplication writes a register; no other operation demands anything.
pub open spec fn spec_fixed_type(kind: X86InstructionType, role: OperandRole) -> Option<FixedType> {
    match role {
        OperandRole::Source => if kind is Shl || kind is Shr {
            Some(FixedType::Register(Register::ECX, Some(RegisterSize::_8Bit)))
        } else {
            None
        },
        OperandRole::Target => if kind is IMul {
            Some(FixedType::AnyRegister)
        } else {
            None
        },
    }
}

/// The operations that `binary_code` has an instruction for.
pub open spec fn is_binary_operation(kind: X86InstructionType) -> bool {
    ||| kind is Add
    ||| kind is Sub
    ||| kind is IMul
    ||| kind is And
    ||| kind is Or
    ||| kind is Xor
    ||| kind is Shl
    ||| kind is Shr
}

/// The operations that `unary_code` has an instruction for.
pub open spec fn is_unary_operation(kind: X86InstructionType) -> bool {
    ||| kind is Neg
    ||| kind is Not
    ||| kind is Inc
    ||| kind is Dec
}

/// The operand that a demand binds, and the store after it is claimed.
///
/// Any register: the next free scratch register at the store's last width,
/// none where the pool is used up. A given register: that register at the
/// asked width, marked as in use, but none where it is in use already.
pub open spec fn claim_operand(store: StoreView, fixed: Option<FixedType>) -> (
    Option<LocationView>,
    StoreView,
) {
    match fixed {
        None => (None, store),
        Some(FixedType::AnyRegister) => match store.lock_register(store.last_size) {
            Some((register, locked)) => (Some(LocationView::direct(register)), locked),
            None => (None, store),
        },
        Some(FixedType::Register(register, size)) => if store.is_free(register) {
            (
                Some(
                    LocationView::direct(
                        match size {
                            Some(size) => register.spec_sized(size),
                            None => register,
                        },
                    ),
                ),
                store.mark_register(register),
            )
        } else {
            (None, store)
        },
    }
}

/// An operand of a computation has to be a register: memory reached through
/// a register is first moved into a scratch register of the last width.
pub open spec fn materialize(location: LocationView, state: State) -> Result<(LocationView, State), Failure> {
    if location matches LocationView::Register(mode) && !mode.spec_is_direct() {
        match state.store.lock_register(state.store.last_size) {
            None => Err(state.fails(ErrorView::NoRegisterAvailable)),
            Some((register, store)) => {
                let target = LocationView::direct(register);
                Ok(
                    (
                        target,
                        State { store, ..state }.instruction(
                            InstructionView::binary(
                                X86InstructionType::Mov,
                                location,
                                target,
                                Some("Move address to reg for calculation"@),
                            ),
                        ),
                    ),
                )
            },
        }
    } else {
        Ok((location, state))
    }
}

/// The entry of the pool that stands for `register`: the 64-bit register
/// of its family.
pub open spec fn pool_entry(register: Register) -> Register {
    register.spec_sized(RegisterSize::_64Bit)
}

/// The state in which an expression ends: the pool as it was before the
/// expression, `result` as the last operand, and the pool entry of the
/// register of `keep` marked as in use, whatever the width at which `keep`
/// names it.
pub open spec fn finish(
    state: State,
    pool: Seq<(Register, bool)>,
    result: LocationView,
    keep: LocationView,
) -> State {
    let restored = state.store.register_restore(pool).set_last_assigned_location(result);
    State {
        store: match keep.register() {
            Some(register) => restored.mark_register(pool_entry(register)),
            None => restored,
        },
        ..state
    }
}

/// The code of `target = target <kind> source`: the source is compiled
/// first, then the target, each where the operation demands it; the source
/// is brought into a register; then comes the one instruction.
///
/// The instruction writes the operand of the target. A target that is a
/// number or that the operation demands in a register is written in that
/// register. A target that is a variable is written where it stands: its
/// own stack slot is the operand, so the variable holds the result
/// afterwards, and the slot is the expression's result.
#[verifier::opaque]
pub open spec fn binary_code(
    kind: X86InstructionType,
    target: ValueView,
    source: ValueView,
    state: State,
) -> Result<State, Failure> {
    let begun = state.comment("Generate source value"@);
    let (source_register, store) = claim_operand(
        begun.store,
        spec_fixed_type(kind, OperandRole::Source),
    );
    match value_code(source, State { store, ..begun }, source_register) {
        Err(error) => Err(error),
        Ok((source, after_source)) => {
            let (target_register, store) = claim_operand(
                after_source.store,
                spec_fixed_type(kind, OperandRole::Target),
            );
            match value_code(
                target,
                State { store, ..after_source }.comment("Generate target value"@),
                target_register,
            ) {
                Err(error) => Err(error),
                Ok((target, after_target)) => match materialize(source, after_target) {
                    Err(error) => Err(error),
                    Ok((source, ready)) => if is_binary_operation(kind) {
                        Ok(
                            finish(
                                ready.instruction(InstructionView::binary(kind, source, target, None)),
                                state.store.registers,
                                target,
                                target,
                            ),
                        )
                    } else {
                        Err(ready.fails(ErrorView::UnexpectedInstruction))
                    },
                },
            }
        },
    }
}

/// The code of a division: the divisor is moved into the divisor register,
/// the dividend into the dividend register, the dividend is sign-extended
/// and divided. The expression's operand is `result`.
#[verifier::opaque]
pub open spec fn division_code(
    divider: ValueView,
    divided: ValueView,
    result: Register,
    state: State,
) -> Result<State, Failure> {
    let divisor = LocationView::direct(divisor_register());
    match value_code(divider, state.comment("Generate divider value"@), Some(divisor)) {
        Err(error) => Err(error),
        Ok((_, after_divider)) => match value_code(
            divided,
            after_divider.comment("Generate divided value"@),
            Some(LocationView::direct(dividend_register())),
        ) {
            Err(error) => Err(error),
            Ok((_, after_divided)) => Ok(
                finish(
                    after_divided.instruction(
                        InstructionView::plain(X86InstructionType::Cdq),
                    ).instruction(InstructionView::unary(X86InstructionType::IDiv, divisor, None)),
                    state.store.registers,
                    LocationView::direct(result),
                    divisor,
                ),
            ),
        },
    }
}

/// The code of an operation on one value: the value is compiled and brought
/// into a register, then comes the one instruction.
#[verifier::opaque]
pub open spec fn unary_code(kind: X86InstructionType, source: ValueView, state: State) -> Result<State, Failure> {
    match value_code(source, state.comment("Generate source value"@), None) {
        Err(error) => Err(error),
        Ok((source, after_source)) => match materialize(source, after_source) {
            Err(error) => Err(error),
            Ok((source, ready)) => if is_unary_operation(kind) {
                Ok(
                    finish(
                        ready.instruction(InstructionView::unary(kind, source, None)),
                        state.store.registers,
                        source,
                        source,
                    ),
                )
            } else {
                Err(ready.fails(ErrorView::UnexpectedInstruction))
            },
        },
    }
}

/// The code of a bare value: its operand becomes the last operand.
#[verifier::opaque]
pub open spec fn plain_value_code(value: ValueView, state: State) -> Result<State, Failure> {
    match value_code(value, state, None) {
        Err(error) => Err(error),
        Ok((location, after)) => Ok(
            State { store: after.store.set_last_assigned_location(location), ..after },
        ),
    }
}

/// The state after the code of `expression` is emitted; the store's last
/// operand is where its result is.
#[verifier::opaque]
pub open spec fn expression_code(expression: ExpressionView, state: State) -> Result<State, Failure> {
    match expression {
        ExpressionView::Add { target, source } => binary_code(
            X86InstructionType::Add,
            target,
            source,
            state,
        ),
        ExpressionView::Sub { target, source } => binary_code(
            X86InstructionType::Sub,
            target,
            source,
            state,
        ),
        ExpressionView::Mul { target, source } => binary_code(
            X86InstructionType::IMul,
            target,
            source,
            state,
        ),
        ExpressionView::Modulo { divider, divided } => division_code(
            divider,
            divided,
            remainder_register(),
            state,
        ),
        ExpressionView::Div { divider, divided } => division_code(
            divider,
            divided,
            quotient_register(),
            state,
        ),
        ExpressionView::ShiftLeft { target, source } => binary_code(
            X86InstructionType::Shl,
            target,
            source,
            state,
        ),
        ExpressionView::ShiftRight { target, source } => binary_code(
            X86InstructionType::Shr,
            target,
            source,
            state,
        ),
        ExpressionView::BitwiseNot { source } => unary_code(X86InstructionType::Not, source, state),
        ExpressionView::BitwiseAnd { target, source } => binary_code(
            X86InstructionType::And,
            target,
            source,
            state,
        ),
        ExpressionView::BitwiseOr { target, source } => binary_code(
            X86InstructionType::Or,
            target,
            source,
            state,
        ),
        ExpressionView::BitwiseXor { target, source } => binary_code(
            X86InstructionType::Xor,
            target,
            source,
            state,
        ),
        ExpressionView::BitwiseNeg { source } => unary_code(X86InstructionType::Neg, source, state),
        ExpressionView::Dec { source } => unary_code(X86InstructionType::Dec, source, state),
        ExpressionView::Inc { source } => unary_code(X86InstructionType::Inc, source, state),
        ExpressionView::Value(value) => plain_value_code(value, state),
    }
}

/// What `kind` demands of its operand in the given role.
pub fn fixed_type(kind: X86InstructionType, role: OperandRole) -> (fixed: Option<FixedType>)
    ensures
        fixed == spec_fixed_type(kind, role),
{
    match role {
        OperandRole::Source => match kind {
            X86InstructionType::Shl | X86InstructionType::Shr => Some(
                FixedType::Register(Register::ECX, Some(RegisterSize::_8Bit)),
            ),
            _ => None,
        },
        OperandRole::Target => match kind {
            X86InstructionType::IMul => Some(FixedType::AnyRegister),
            _ => None,
        },
    }
}

/// Brings an operand of a computation into a register.
pub fn materialize_operand(
    location: Location,
    scope: &mut Store,
    context: &mut ApplicationContext,
) -> (result: Result<Location, X86Error>)
    requires
        old(scope)@.wf(),
    ensures
        final(scope)@.wf(),
        located(
            materialize(location@, State::of(old(scope)@, old(context)@)),
            result,
            final(scope)@,
            final(context)@,
        ),
{
    if let Some(mode) = location.get_addressing_mode() {
        if !mode.is_direct_register() {
            let size = scope.get_last_size();
            let new_reg = match scope.lock_register(size) {
                Some(register) => register,
                None => {
                    return Err(X86Error::NoRegisterAvailable);
                },
            };
            context.instructions.add_instruction(
                X86Instruction::Mov {
                    source: location,
                    target: Location::direct(new_reg),
                    comment: Some("Move address to reg for calculation".to_owned()),
                },
            );
            return Ok(Location::direct(new_reg));
        }
    }
    Ok(location)
}

/// Ends an expression: gives the pool back as it was, records the result
/// and marks the pool entry of the register of `keep`.
pub fn finish_expression(
    scope: &mut Store,
    registers: Vec<(Register, bool)>,
    result: Location,
    keep: &Location,
    context: &ApplicationContext,
)
    requires
        old(scope)@.wf(),
    ensures
        final(scope)@.wf(),
        final(scope)@ == finish(
            State::of(old(scope)@, context@),
            registers@,
            result@,
            keep@,
        ).store,
{
    scope.register_restore(registers);
    scope.set_last_assigned_location(result);
    if let Some(register) = keep.get_register() {
        scope.mark_register(register.get_sized(RegisterSize::_64Bit));
    }
}

/// Compiles expressions; the result of each is where the store's last
/// operand says.
pub struct X86ExpressionCompiler;

impl X86ExpressionCompiler {
    /// Emits the code that `expression_code` describes.
    pub fn compile(expression: Expression, scope: &mut Store, context: &mut ApplicationContext) -> (result:
        Result<(), X86Error>)
        requires
            old(scope)@.wf(),
        ensures
            final(scope)@.wf(),
            completed(
                expression_code(expression@, State::of(old(scope)@, old(context)@)),
                result,
                final(scope)@,
                final(context)@,
            ),
    {
        Self::compile_expression(&expression, scope, context)
    }

    /// `compile` on a borrowed expression.
    pub fn compile_expression(
        expression: &Expression,
        scope: &mut Store,
        context: &mut ApplicationContext,
    ) -> (result: Result<(), X86Error>)
        requires
            old(scope)@.wf(),
        ensures
            final(scope)@.wf(),
            completed(
                expression_code(expression@, State::of(old(scope)@, old(context)@)),
                result,
                final(scope)@,
                final(context)@,
            ),
    {
        proof {
            reveal(expression_code);
        }
        match expression {
            Expression::Add { target, source } => Self::compile_simple(
                scope,
                X86InstructionType::Add,
                target,
                source,
                context,
            ),
            Expression::Sub { target, source } => Self::compile_simple(
                scope,
                X86InstructionType::Sub,
                target,
                source,
                context,
            ),
            Expression::Mul { target, source } => Self::compile_simple(
                scope,
                X86InstructionType::IMul,
                target,
                source,
                context,
            ),
            Expression::Modulo { divider, divided } => Self::compile_div(
                scope,
                divider,
                divided,
                Register::EDX,
                context,
            ),
            Expression::Div { divider, divided } => Self::compile_div(
                scope,
                divider,
                divided,
                Register::EAX,
                context,
            ),
            Expression::ShiftLeft { target, source } => Self::compile_simple(
                scope,
                X86InstructionType::Shl,
                target,
                source,
                context,
            ),
            Expression::ShiftRight { target, source } => Self::compile_simple(
                scope,
                X86InstructionType::Shr,
                target,
                source,
                context,
            ),
            Expression::BitwiseNot { source } => Self::compile_single(
                scope,
                X86InstructionType::Not,
                source,
                context,
            ),
            Expression::BitwiseAnd { source, target } => Self::compile_simple(
                scope,
                X86InstructionType::And,
                target,
                source,
                context,
            ),
            Expression::BitwiseOr { source, target } => Self::compile_simple(
                scope,
                X86InstructionType::Or,
                target,
                source,
                context,
            ),
            Expression::BitwiseXor { source, target } => Self::compile_simple(
                scope,
                X86InstructionType::Xor,
                target,
                source,
                context,
            ),
            Expression::BitwiseNeg { source } => Self::compile_single(
                scope,
                X86InstructionType::Neg,
                source,
                context,
            ),
            Expression::Dec { source } => Self::compile_single(
                scope,
                X86InstructionType::Dec,
                source,
                context,
            ),
            Expression::Inc { source } => Self::compile_single(
                scope,
                X86InstructionType::Inc,
                source,
                context,
            ),
            Expression::Value(value) => Self::compile_value(scope, value, context),
        }
    }

    /// Binds the operand of `inst_type` in the given role where the
    /// operation demands a register for it.
    pub fn get_target_register(scope: &mut Store, inst_type: X86InstructionType, role: OperandRole) -> (target:
        Option<Location>)
        requires
            old(scope)@.wf(),
        ensures
            final(scope)@.wf(),
            (optional_location_view(target), final(scope)@) == claim_operand(
                old(scope)@,
                spec_fixed_type(inst_type, role),
            ),
    {
        match fixed_type(inst_type, role) {
            Some(FixedType::AnyRegister) => {
                let size = scope.get_last_size();
                match scope.lock_register(size) {
                    Some(register) => Some(Location::direct(register)),
                    None => None,
                }
            },
            Some(FixedType::Register(expected_register, expected_size)) => {
                if scope.is_free(expected_register) {
                    scope.mark_register(expected_register);
                    match expected_size {
                        Some(expected_size) => Some(
                            Location::direct(expected_register.get_sized(expected_size)),
                        ),
                        None => Some(Location::direct(expected_register)),
                    }
                } else {
                    None
                }
            },
            None => None,
        }
    }

    /// Compiles an operation on two values: emits the code that
    /// `binary_code` describes.
    pub fn compile_simple(
        scope: &mut Store,
        inst_type: X86InstructionType,
        target: &Value,
        source: &Value,
        context: &mut ApplicationContext,
    ) -> (result: Result<(), X86Error>)
        requires
            old(scope)@.wf(),
        ensures
            final(scope)@.wf(),
            completed(
                binary_code(
                    inst_type,
                    target@,
                    source@,
                    State::of(old(scope)@, old(context)@),
                ),
                result,
                final(scope)@,
                final(context)@,
            ),
    {
        proof {
            reveal(binary_code);
        }
        let registers = scope.register_backup();
        context.instructions.add_comment("Generate source value".to_owned());
        let source_register = Self::get_target_register(scope, inst_type, OperandRole::Source);
        let source = X86ValueCompiler::compile_value(source, context, scope, source_register)?;
        let target_register = Self::get_target_register(scope, inst_type, OperandRole::Target);
        context.instructions.add_comment("Generate target value".to_owned());
        let target = X86ValueCompiler::compile_value(target, context, scope, target_register)?;
        let source = materialize_operand(source, scope, context)?;
        let instruction = match inst_type {
            X86InstructionType::Add => X86Instruction::Add {
                source,
                target: target.clone(),
                comment: None,
            },
            X86InstructionType::Sub => X86Instruction::Sub {
                source,
                target: target.clone(),
                comment: None,
            },
            X86InstructionType::IMul => X86Instruction::IMul {
                source,
                target: target.clone(),
                comment: None,
            },
            X86InstructionType::And => X86Instruction::And {
                source,
                target: target.clone(),
                comment: None,
            },
            X86InstructionType::Or => X86Instruction::Or {
                source,
                target: target.clone(),
                comment: None,
            },
            X86InstructionType::Xor => X86Instruction::Xor {
                source,
                target: target.clone(),
                comment: None,
            },
            X86InstructionType::Shl => X86Instruction::Shl {
                source,
                target: target.clone(),
                comment: None,
            },
            X86InstructionType::Shr => X86Instruction::Shr {
                source,
                target: target.clone(),
                comment: None,
            },
            _ => {
                return Err(X86Error::UnexpectedInstruction);
            },
        };
        context.instructions.add_instruction(instruction);
        let keep = target.clone();
        finish_expression(scope, registers, target, &keep, context);
        Ok(())
    }

    /// Compiles a division: emits the code that `division_code` describes.
    /// `target_register` is where the wanted result is afterwards.
    pub fn compile_div(
        scope: &mut Store,
        divider: &Value,
        divided: &Value,
        target_register: Register,
        context: &mut ApplicationContext,
    ) -> (result: Result<(), X86Error>)
        requires
            old(scope)@.wf(),
        ensures
            final(scope)@.wf(),
            completed(
                division_code(
                    divider@,
                    divided@,
                    target_register,
                    State::of(old(scope)@, old(context)@),
                ),
                result,
                final(scope)@,
                final(context)@,
            ),
    {
        proof {
            reveal(division_code);
        }
        let registers = scope.register_backup();
        context.instructions.add_comment("Generate divider value".to_owned());
        proof {
            lemma_value_code_appends(
                divider@,
                State::of(scope@, context@),
                Some(LocationView::direct(divisor_register())),
            );
        }
        let divider = X86ValueCompiler::compile_value(
            divider,
            context,
            scope,
            Some(Location::direct(Register::ESI)),
        )?;
        context.instructions.add_comment("Generate divided value".to_owned());
        X86ValueCompiler::compile_value(
            divided,
            context,
            scope,
            Some(Location::direct(Register::EAX)),
        )?;
        context.instructions.add_instruction(X86Instruction::Cdq);
        context.instructions.add_instruction(
            X86Instruction::IDiv { target: divider.clone(), comment: None },
        );
        finish_expression(scope, registers, Location::direct(target_register), &divider, context);
        Ok(())
    }

    /// Compiles an operation on one value: emits the code that `unary_code`
    /// describes.
    pub fn compile_single(
        scope: &mut Store,
        inst: X86InstructionType,
        source: &Value,
        context: &mut ApplicationContext,
    ) -> (result: Result<(), X86Error>)
        requires
            old(scope)@.wf(),
        ensures
            final(scope)@.wf(),
            completed(
                unary_code(inst, source@, State::of(old(scope)@, old(context)@)),
                result,
                final(scope)@,
                final(context)@,
            ),
    {
        proof {
            reveal(unary_code);
        }
        let registers = scope.register_backup();
        context.instructions.add_comment("Generate source value".to_owned());
        let source = X86ValueCompiler::compile_value(source, context, scope, None)?;
        let source = materialize_operand(source, scope, context)?;
        let instruction = match inst {
            X86InstructionType::Neg => X86Instruction::Neg {
                source: source.clone(),
                comment: None,
            },
            X86InstructionType::Not => X86Instruction::Not {
                source: source.clone(),
                comment: None,
            },
            X86InstructionType::Inc => X86Instruction::Inc {
                source: source.clone(),
                comment: None,
            },
            X86InstructionType::Dec => X86Instruction::Dec {
                source: source.clone(),
                comment: None,
            },
            _ => {
                return Err(X86Error::UnexpectedInstruction);
            },
        };
        context.instructions.add_instruction(instruction);
        let keep = source.clone();
        finish_expression(scope, registers, source, &keep, context);
        Ok(())
    }

    /// Compiles a bare value: emits the code that `plain_value_code` describes.
    pub fn compile_value(scope: &mut Store, value: &Value, context: &mut ApplicationContext) -> (result:
        Result<(), X86Error>)
        requires
            old(scope)@.wf(),
        ensures
            final(scope)@.wf(),
            completed(
                plain_value_code(value@, State::of(old(scope)@, old(context)@)),
                result,
                final(scope)@,
                final(context)@,
            ),
    {
        proof {
            reveal(plain_value_code);
        }
        let value = X86ValueCompiler::compile_value(value, context, scope, None)?;
        scope.set_last_assigned_location(value);
        Ok(())
    }
}

/// What the code of an expression leaves alone: the frame, the data and the
/// branch labels; and it emits no jump.
pub open spec fn computes(before: State, after: State) -> bool {
    &&& appends(before.context, after.context)
    &&& calm(before.context, after.context)
    &&& after.context.branch_counter == before.context.branch_counter
    &&& after.context.datas == before.context.datas
    &&& after.store.variables == before.store.variables
    &&& after.store.last_position == before.store.last_position
}

/// Bringing an operand into a register leaves the frame, the data and the
/// branch labels as they are.
pub proof fn lemma_materialize_computes(location: LocationView, state: State)
    ensures
        materialize(location, state) matches Ok((_, after)) ==> computes(state, after),
        materialize(location, state) matches Err(failure) ==> failure.state == state,
{
}

/// The code of an operation on two values leaves the frame, the data and
/// the branch labels as they are.
pub proof fn lemma_binary_code_computes(
    kind: X86InstructionType,
    target: ValueView,
    source: ValueView,
    state: State,
)
    ensures
        binary_code(kind, target, source, state) matches Ok(after) ==> computes(state, after),
        binary_code(kind, target, source, state) matches Err(failure) ==> stands(state, failure.state),
{
    reveal(binary_code);
    let begun = state.comment("Generate source value"@);
    let (source_register, store) = claim_operand(
        begun.store,
        spec_fixed_type(kind, OperandRole::Source),
    );
    let claimed = State { store, ..begun };
    lemma_value_code_appends(source, claimed, source_register);
    if let Ok((source_location, after_source)) = value_code(source, claimed, source_register) {
        let (target_register, store) = claim_operand(
            after_source.store,
            spec_fixed_type(kind, OperandRole::Target),
        );
        let announced = State { store, ..after_source }.comment("Generate target value"@);
        lemma_value_code_appends(target, announced, target_register);
        if let Ok((_, after_target)) = value_code(target, announced, target_register) {
            lemma_materialize_computes(source_location, after_target);
        }
    }
}

/// The code of a division leaves the frame, the data and the branch labels
/// as they are.
pub proof fn lemma_division_code_computes(
    divider: ValueView,
    divided: ValueView,
    result: Register,
    state: State,
)
    ensures
        division_code(divider, divided, result, state) matches Ok(after) ==> computes(state, after),
        division_code(divider, divided, result, state) matches Err(failure) ==> stands(
            state,
            failure.state,
        ),
{
    reveal(division_code);
    let divisor = LocationView::direct(divisor_register());
    let begun = state.comment("Generate divider value"@);
    lemma_value_code_appends(divider, begun, Some(divisor));
    if let Ok((_, after_divider)) = value_code(divider, begun, Some(divisor)) {
        lemma_value_code_appends(
            divided,
            after_divider.comment("Generate divided value"@),
            Some(LocationView::direct(dividend_register())),
        );
    }
}

/// The code of an operation on one value leaves the frame, the data and
/// the branch labels as they are.
pub proof fn lemma_unary_code_computes(kind: X86InstructionType, source: ValueView, state: State)
    ensures
        unary_code(kind, source, state) matches Ok(after) ==> computes(state, after),
        unary_code(kind, source, state) matches Err(failure) ==> stands(state, failure.state),
{
    reveal(unary_code);
    let begun = state.comment("Generate source value"@);
    lemma_value_code_appends(source, begun, None);
    if let Ok((location, after_source)) = value_code(source, begun, None) {
        lemma_materialize_computes(location, after_source);
    }
}

/// The code of an expression leaves the frame, the data and the branch
/// labels as they are, emits no jump, and changes nothing of what was
/// emitted before.
pub proof fn lemma_expression_code_computes(expression: ExpressionView, state: State)
    ensures
        expression_code(expression, state) matches Ok(after) ==> computes(state, after),
        expression_code(expression, state) matches Err(failure) ==> stands(state, failure.state),
{
    reveal(expression_code);
    reveal(plain_value_code);
    match expression {
        ExpressionView::Add { target, source } => lemma_binary_code_computes(
            X86InstructionType::Add,
            target,
            source,
            state,
        ),
        ExpressionView::Sub { target, source } => lemma_binary_code_computes(
            X86InstructionType::Sub,
            target,
            source,
            state,
        ),
        ExpressionView::Mul { target, source } => lemma_binary_code_computes(
            X86InstructionType::IMul,
            target,
            source,
            state,
        ),
        ExpressionView::Modulo { divider, divided } => lemma_division_code_computes(
            divider,
            divided,
            remainder_register(),
            state,
        ),
        ExpressionView::Div { divider, divided } => lemma_division_code_computes(
            divider,
            divided,
            quotient_register(),
            state,
        ),
        ExpressionView::ShiftLeft { target, source } => lemma_binary_code_computes(
            X86InstructionType::Shl,
            target,
            source,
            state,
        ),
        ExpressionView::ShiftRight { target, source } => lemma_binary_code_computes(
            X86InstructionType::Shr,
            target,
            source,
            state,
        ),
        ExpressionView::BitwiseNot { source } => lemma_unary_code_computes(
            X86InstructionType::Not,
            source,
            state,
        ),
        ExpressionView::BitwiseAnd { target, source } => lemma_binary_code_computes(
            X86InstructionType::And,
            target,
            source,
            state,
        ),
        ExpressionView::BitwiseOr { target, source } => lemma_binary_code_computes(
            X86InstructionType::Or,
            target,
            source,
            state,
        ),
        ExpressionView::BitwiseXor { target, source } => lemma_binary_code_computes(
            X86InstructionType::Xor,
            target,
            source,
            state,
        ),
        ExpressionView::BitwiseNeg { source } => lemma_unary_code_computes(
            X86InstructionType::Neg,
            source,
            state,
        ),
        ExpressionView::Dec { source } => lemma_unary_code_computes(X86InstructionType::Dec, source, state),
        ExpressionView::Inc { source } => lemma_unary_code_computes(X86InstructionType::Inc, source, state),
        ExpressionView::Value(value) => lemma_value_code_appends(value, state, None),
    }
}

/// Where a value is compiled for a target, it is moved there: the target
/// is the operand, and the last instruction emitted is a move into it.
pub proof fn lemma_value_code_moves(value: ValueView, state: State, target: LocationView)
    ensures
        value_code(value, state, Some(target)) matches Ok((location, after)) ==> {
            &&& location == target
            &&& after.context.instructions.len() == state.context.instructions.len() + 1
            &&& after.context.instructions.last() matches crate::context::AsmView::Instruction(moved)
            &&& moved.inst == X86InstructionType::Mov
            &&& moved.target == Some(target)
        },
{
    reveal(value_code);
}

/// A division has its right operand in the divisor register and its left
/// operand in the dividend register before the dividend is sign-extended
/// and divided, and these two instructions end its code.
pub proof fn lemma_division_placement(
    divider: ValueView,
    divided: ValueView,
    result: Register,
    state: State,
)
    ensures
        division_code(divider, divided, result, state) matches Ok(after) ==> {
            let divisor = LocationView::direct(divisor_register());
            let dividend = LocationView::direct(dividend_register());
            let items = after.context.instructions;
            &&& value_code(divider, state.comment("Generate divider value"@), Some(divisor)) matches Ok(
                (_, after_divider),
            )
            &&& value_code(
                divided,
                after_divider.comment("Generate divided value"@),
                Some(dividend),
            ) matches Ok((_, after_divided))
            &&& items == after_divided.context.instructions.push(
                crate::context::AsmView::Instruction(
                    InstructionView::plain(X86InstructionType::Cdq),
                ),
            ).push(
                crate::context::AsmView::Instruction(
                    InstructionView::unary(X86InstructionType::IDiv, divisor, None),
                ),
            )
            &&& after.store.last_assigned_location == LocationView::direct(result)
        },
{
    reveal(division_code);
}

/// A quotient is read from the dividend register, a remainder from the
/// remainder register.
pub proof fn lemma_division_result(expression: ExpressionView, state: State)
    requires
        expression is Div || expression is Modulo,
    ensures
        expression_code(expression, state) matches Ok(after)
            ==> after.store.last_assigned_location == LocationView::direct(
            if expression is Div {
                quotient_register()
            } else {
                remainder_register()
            },
        ),
{
    reveal(expression_code);
    reveal(division_code);
}

/// An expression that ends with its result in a scratch register leaves
/// that register's entry of the pool in use: the result is not handed out
/// again before it is read.
pub proof fn lemma_finish_keeps_result(
    state: State,
    pool: Seq<(Register, bool)>,
    result: LocationView,
    keep: LocationView,
)
    ensures
        keep.register() matches Some(register) ==> (first_entry(pool, pool_entry(register), 0) is Some
            ==> !finish(state, pool, result, keep).store.is_free(pool_entry(register))),
        finish(state, pool, result, keep).store.last_assigned_location == result,
        finish(state, pool, result, keep).context == state.context,
{
    if let Some(register) = keep.register() {
        lemma_with_status(pool, pool_entry(register), false);
    }
}

/// An operation on two values or on one ends with the pool as it was
/// before it, except that the pool entry of the register that holds the
/// result is in use.
pub proof fn lemma_result_register_in_use(expression: ExpressionView, state: State)
    requires
        !(expression is Div || expression is Modulo || expression is Value),
    ensures
        expression_code(expression, state) matches Ok(after)
            ==> after.store.last_assigned_location.register() matches Some(register) ==> {
            &&& after.store.registers == with_status(
                state.store.registers,
                pool_entry(register),
                false,
            )
            &&& first_entry(state.store.registers, pool_entry(register), 0) is Some
                ==> !after.store.is_free(pool_entry(register))
        },
{
    reveal(expression_code);
    reveal(binary_code);
    reveal(unary_code);
    if let Ok(after) = expression_code(expression, state) {
        if let Some(register) = after.store.last_assigned_location.register() {
            lemma_with_status(state.store.registers, pool_entry(register), false);
        }
    }
}

} // verus!
