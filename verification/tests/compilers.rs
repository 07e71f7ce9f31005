use tb_core::compiler::expression::{fixed_type, FixedType, OperandRole};
use tb_core::compiler::statement::call_convention;
use tb_core::compiler::weight::{weigh_block, weigh_statement};
use tb_core::compiler::{
    X86BlockCompiler, X86ConditionCompiler, X86DefinitionCompiler, X86Error, X86ExpressionCompiler,
    X86StatementCompiler, X86ValueCompiler,
};
use tb_core::context::{ApplicationContext, AsmStructure, Data, DataItem, DataItemCollection};
use tb_core::generator::X86AssemblyGenerator;
use tb_core::instruction::{X86Instruction, X86InstructionType};
use tb_core::location::Location;
use tb_core::register::{Register, RegisterSize};
use tb_core::store::Store;
use tb_core::tool::defs::TargetOs;
use tb_core::types::{
    Block, CallingConventions, Condition, ConditionDiscriminant, Definition, Expression, Number, NumberType,
    Parameter, Statement, Value,
};

fn context() -> ApplicationContext {
    ApplicationContext::new(TargetOs::Linux, DataItemCollection::default())
}

fn number(value: i32) -> Value {
    Value::Number(Number::I32(value))
}

fn immediate(value: i32) -> Location {
    Location::Imm(Number::I32(value))
}

fn variable(name: &str) -> Value {
    Value::Variable(name.to_owned())
}

fn direct(register: Register) -> Location {
    Location::direct(register)
}

fn instruction(instruction: X86Instruction) -> AsmStructure {
    AsmStructure::Instruction(Box::new(instruction))
}

fn mov(source: Location, target: Location) -> AsmStructure {
    instruction(X86Instruction::Mov { source, target, comment: None })
}

fn mov_with(source: Location, target: Location, comment: &str) -> AsmStructure {
    instruction(X86Instruction::Mov { source, target, comment: Some(comment.to_owned()) })
}

fn materialized(source: Location, target: Location) -> AsmStructure {
    mov_with(source, target, "Move address to reg for calculation")
}

fn comment(text: &str) -> AsmStructure {
    AsmStructure::Comment(text.to_owned())
}

fn branch(name: &str) -> AsmStructure {
    AsmStructure::Branch(name.to_owned())
}

fn assign(name: &str, expression: Expression) -> Statement {
    Statement::Assign { name: name.to_owned(), assigne: expression }
}

fn free_pool() -> Vec<(Register, bool)> {
    vec![(Register::R10, true), (Register::R11, true)]
}

#[test]
fn a_variable_is_its_stack_slot() {
    let mut scope = Store::default();
    let mut context = context();
    scope.add_variable("a", 4);
    scope.add_variable("b", 8);
    let location = X86ValueCompiler::compile(variable("b"), &mut context, &mut scope, None);
    assert_eq!(location, Ok(Location::slot(12)));
    assert!(context.instructions.items.is_empty());
    assert_eq!(scope.get_last_size(), RegisterSize::_64Bit);
    let location = X86ValueCompiler::compile(variable("a"), &mut context, &mut scope, None);
    assert_eq!(location, Ok(Location::slot(4)));
    assert_eq!(scope.get_last_size(), RegisterSize::_32Bit);
}

#[test]
fn a_variable_is_moved_into_a_forced_target() {
    let mut scope = Store::default();
    let mut context = context();
    scope.add_variable("a", 2);
    let target = direct(Register::RDI);
    let location = X86ValueCompiler::compile(variable("a"), &mut context, &mut scope, Some(target.clone()));
    assert_eq!(location, Ok(target.clone()));
    assert_eq!(context.instructions.items, vec![mov(Location::slot(2), target)]);
    assert_eq!(scope.get_last_size(), RegisterSize::_16Bit);
    assert_eq!(scope.register_backup(), free_pool());
}

#[test]
fn a_number_takes_a_scratch_register_of_its_width() {
    let mut scope = Store::default();
    let mut context = context();
    let location = X86ValueCompiler::compile(Value::Number(Number::U16(9)), &mut context, &mut scope, None);
    assert_eq!(location, Ok(direct(Register::R10W)));
    assert_eq!(context.instructions.items, vec![mov(Location::Imm(Number::U16(9)), direct(Register::R10W))]);
    assert_eq!(scope.get_last_size(), RegisterSize::_16Bit);
    assert_eq!(scope.register_backup(), vec![(Register::R10, false), (Register::R11, true)]);
}

#[test]
fn a_number_is_moved_into_a_forced_target() {
    let mut scope = Store::default();
    let mut context = context();
    let target = direct(Register::ESI);
    let location = X86ValueCompiler::compile(number(2), &mut context, &mut scope, Some(target.clone()));
    assert_eq!(location, Ok(target.clone()));
    assert_eq!(context.instructions.items, vec![mov(immediate(2), target)]);
    assert_eq!(scope.register_backup(), free_pool());
}

#[test]
fn an_unbound_variable_is_not_found() {
    let mut scope = Store::default();
    let mut context = context();
    let result = X86ValueCompiler::compile(variable("x"), &mut context, &mut scope, None);
    assert_eq!(result, Err(X86Error::VariableNotFound("x".to_owned())));
    let result = X86StatementCompiler::compile(Statement::Return(Some(variable("y"))), &mut scope, &mut context);
    assert_eq!(result, Err(X86Error::VariableNotFound("y".to_owned())));
    let expression = Expression::Add { target: number(1), source: variable("z") };
    let result = X86StatementCompiler::compile(assign("a", expression), &mut scope, &mut context);
    assert_eq!(result, Err(X86Error::VariableNotFound("z".to_owned())));
    let condition = Condition::Eq { left: variable("l"), right: number(1) };
    let result = X86ConditionCompiler::compile(condition, &mut scope, &mut context);
    assert_eq!(result, Err(X86Error::VariableNotFound("l".to_owned())));
}

#[test]
fn a_used_up_pool_gives_no_register() {
    let mut scope = Store::default();
    let mut context = context();
    scope.lock_register(RegisterSize::_64Bit);
    scope.lock_register(RegisterSize::_64Bit);
    let result = X86ValueCompiler::compile(number(1), &mut context, &mut scope, None);
    assert_eq!(result, Err(X86Error::NoRegisterAvailable));
    let result = X86ExpressionCompiler::compile(Expression::Value(number(1)), &mut scope, &mut context);
    assert_eq!(result, Err(X86Error::NoRegisterAvailable));
}

#[test]
fn a_text_is_no_operand_and_a_move_no_computation() {
    let mut scope = Store::default();
    let mut context = context();
    let result = X86ValueCompiler::compile(Value::text("t"), &mut context, &mut scope, None);
    assert_eq!(result, Err(X86Error::UnexpectedInstruction));
    let result = X86ExpressionCompiler::compile_simple(
        &mut scope,
        X86InstructionType::Mov,
        &number(1),
        &number(2),
        &mut context,
    );
    assert_eq!(result, Err(X86Error::UnexpectedInstruction));
    let mut scope = Store::default();
    let result = X86ExpressionCompiler::compile_single(&mut scope, X86InstructionType::Add, &number(1), &mut context);
    assert_eq!(result, Err(X86Error::UnexpectedInstruction));
}

#[test]
fn an_addition_compiles_the_source_first() {
    let mut scope = Store::default();
    let mut context = context();
    let expression = Expression::Add { source: number(5), target: number(3) };
    assert_eq!(X86ExpressionCompiler::compile(expression, &mut scope, &mut context), Ok(()));
    assert_eq!(
        context.instructions.items,
        vec![
            comment("Generate source value"),
            mov(immediate(5), direct(Register::R10D)),
            comment("Generate target value"),
            mov(immediate(3), direct(Register::R11D)),
            instruction(X86Instruction::Add {
                source: direct(Register::R10D),
                target: direct(Register::R11D),
                comment: None
            }),
        ]
    );
    assert_eq!(scope.get_last_assigned_location(), direct(Register::R11D));
    assert_eq!(scope.register_backup(), vec![(Register::R10, true), (Register::R11, false)]);
    assert!(!scope.is_free(Register::R11));
}

#[test]
fn a_source_in_memory_is_brought_into_a_register() {
    let mut scope = Store::default();
    let mut context = context();
    scope.add_variable("a", 8);
    scope.add_variable("b", 8);
    let expression = Expression::Sub { source: variable("a"), target: variable("b") };
    assert_eq!(X86ExpressionCompiler::compile(expression, &mut scope, &mut context), Ok(()));
    assert_eq!(
        context.instructions.items,
        vec![
            comment("Generate source value"),
            comment("Generate target value"),
            materialized(Location::slot(8), direct(Register::R10)),
            instruction(X86Instruction::Sub {
                source: direct(Register::R10),
                target: Location::slot(16),
                comment: None
            }),
        ]
    );
    assert_eq!(scope.get_last_assigned_location(), Location::slot(16));
    assert_eq!(scope.register_backup(), free_pool());
}

#[test]
fn a_multiplication_has_its_target_in_a_register() {
    let mut scope = Store::default();
    let mut context = context();
    scope.add_variable("a", 8);
    let expression = Expression::Mul { source: variable("a"), target: number(4) };
    assert_eq!(X86ExpressionCompiler::compile(expression, &mut scope, &mut context), Ok(()));
    assert_eq!(
        context.instructions.items,
        vec![
            comment("Generate source value"),
            comment("Generate target value"),
            mov(immediate(4), direct(Register::R10)),
            materialized(Location::slot(8), direct(Register::R11D)),
            instruction(X86Instruction::IMul {
                source: direct(Register::R11D),
                target: direct(Register::R10),
                comment: None
            }),
        ]
    );
    assert_eq!(scope.get_last_assigned_location(), direct(Register::R10));
    assert_eq!(scope.register_backup(), vec![(Register::R10, false), (Register::R11, true)]);
}

#[test]
fn a_shift_has_its_count_in_the_low_byte_of_the_count_register() {
    for (expression, shifted) in [
        (
            Expression::ShiftLeft { source: number(1), target: number(5) },
            X86Instruction::Shl { source: direct(Register::CL), target: direct(Register::R10D), comment: None },
        ),
        (
            Expression::ShiftRight { source: number(1), target: number(5) },
            X86Instruction::Shr { source: direct(Register::CL), target: direct(Register::R10D), comment: None },
        ),
    ] {
        let mut scope = Store::default();
        let mut context = context();
        assert_eq!(X86ExpressionCompiler::compile(expression, &mut scope, &mut context), Ok(()));
        assert_eq!(
            context.instructions.items,
            vec![
                comment("Generate source value"),
                mov(immediate(1), direct(Register::CL)),
                comment("Generate target value"),
                mov(immediate(5), direct(Register::R10D)),
                instruction(shifted),
            ]
        );
    }
    assert_eq!(
        fixed_type(X86InstructionType::Shl, OperandRole::Source),
        Some(FixedType::Register(Register::ECX, Some(RegisterSize::_8Bit)))
    );
    assert_eq!(fixed_type(X86InstructionType::Shl, OperandRole::Target), None);
    assert_eq!(fixed_type(X86InstructionType::IMul, OperandRole::Target), Some(FixedType::AnyRegister));
    assert_eq!(fixed_type(X86InstructionType::IMul, OperandRole::Source), None);
    assert_eq!(fixed_type(X86InstructionType::Add, OperandRole::Source), None);
}

#[test]
fn the_operand_of_an_operation_is_claimed_before_it_is_compiled() {
    let mut scope = Store::default();
    scope.set_last_size(RegisterSize::_16Bit);
    let claimed = X86ExpressionCompiler::get_target_register(&mut scope, X86InstructionType::IMul, OperandRole::Target);
    assert_eq!(claimed, Some(direct(Register::R10W)));
    let claimed = X86ExpressionCompiler::get_target_register(&mut scope, X86InstructionType::Shr, OperandRole::Source);
    assert_eq!(claimed, Some(direct(Register::CL)));
    let claimed = X86ExpressionCompiler::get_target_register(&mut scope, X86InstructionType::Add, OperandRole::Target);
    assert_eq!(claimed, None);
    assert_eq!(scope.register_backup(), vec![(Register::R10, false), (Register::R11, true)]);
}

#[test]
fn a_division_has_its_operands_in_the_fixed_registers() {
    for (expression, result) in [
        (Expression::Div { divider: number(2), divided: variable("a") }, Register::EAX),
        (Expression::Modulo { divider: number(2), divided: variable("a") }, Register::EDX),
    ] {
        let mut scope = Store::default();
        let mut context = context();
        scope.add_variable("a", 4);
        assert_eq!(X86ExpressionCompiler::compile(expression, &mut scope, &mut context), Ok(()));
        assert_eq!(
            context.instructions.items,
            vec![
                comment("Generate divider value"),
                mov(immediate(2), direct(Register::ESI)),
                comment("Generate divided value"),
                mov(Location::slot(4), direct(Register::EAX)),
                instruction(X86Instruction::Cdq),
                instruction(X86Instruction::IDiv { target: direct(Register::ESI), comment: None }),
            ]
        );
        assert_eq!(scope.get_last_assigned_location(), direct(result));
        assert_eq!(scope.register_backup(), free_pool());
    }
}

#[test]
fn an_operation_on_one_value_works_in_a_register() {
    let cases: Vec<(Expression, fn(Location) -> X86Instruction)> = vec![
        (Expression::BitwiseNot { source: variable("a") }, |source| X86Instruction::Not { source, comment: None }),
        (Expression::BitwiseNeg { source: variable("a") }, |source| X86Instruction::Neg { source, comment: None }),
        (Expression::Inc { source: variable("a") }, |source| X86Instruction::Inc { source, comment: None }),
        (Expression::Dec { source: variable("a") }, |source| X86Instruction::Dec { source, comment: None }),
    ];
    for (expression, operation) in cases {
        let mut scope = Store::default();
        let mut context = context();
        scope.add_variable("a", 4);
        assert_eq!(X86ExpressionCompiler::compile(expression, &mut scope, &mut context), Ok(()));
        assert_eq!(
            context.instructions.items,
            vec![
                comment("Generate source value"),
                materialized(Location::slot(4), direct(Register::R10D)),
                instruction(operation(direct(Register::R10D))),
            ]
        );
        assert_eq!(scope.get_last_assigned_location(), direct(Register::R10D));
        assert_eq!(scope.register_backup(), vec![(Register::R10, false), (Register::R11, true)]);
    }
}

#[test]
fn a_bare_value_becomes_the_last_operand() {
    let mut scope = Store::default();
    let mut context = context();
    scope.add_variable("a", 8);
    assert_eq!(X86ExpressionCompiler::compile(Expression::Value(variable("a")), &mut scope, &mut context), Ok(()));
    assert_eq!(scope.get_last_assigned_location(), Location::slot(8));
    assert_eq!(X86ExpressionCompiler::compile_value(&mut scope, &number(1), &mut context), Ok(()));
    assert_eq!(scope.get_last_assigned_location(), direct(Register::R10D));
}

#[test]
fn a_condition_compares_left_with_right_and_gives_the_pool_back() {
    let mut scope = Store::default();
    let mut context = context();
    let condition = Condition::Ge { left: number(9), right: number(10) };
    let kind = X86ConditionCompiler::compile(condition, &mut scope, &mut context);
    assert_eq!(kind, Ok(ConditionDiscriminant::Ge));
    assert_eq!(
        context.instructions.items,
        vec![
            comment("Generate right value"),
            mov(immediate(10), direct(Register::R10D)),
            comment("Generate left value"),
            mov(immediate(9), direct(Register::R11D)),
            instruction(X86Instruction::Cmp {
                left: direct(Register::R11D),
                right: direct(Register::R10D),
                comment: None
            }),
        ]
    );
    assert_eq!(scope.register_backup(), free_pool());
}

#[test]
fn the_jump_of_a_condition_is_taken_where_it_does_not_hold() {
    let label = ".L0";
    let jump = X86StatementCompiler::get_jump_instruction;
    assert_eq!(jump(ConditionDiscriminant::Eq, label), X86Instruction::Jne(label.to_owned()));
    assert_eq!(jump(ConditionDiscriminant::Ne, label), X86Instruction::Je(label.to_owned()));
    assert_eq!(jump(ConditionDiscriminant::Gr, label), X86Instruction::Jnb(label.to_owned()));
    assert_eq!(jump(ConditionDiscriminant::Ge, label), X86Instruction::Jnbe(label.to_owned()));
    assert_eq!(jump(ConditionDiscriminant::Ls, label), X86Instruction::Jna(label.to_owned()));
    assert_eq!(jump(ConditionDiscriminant::Le, label), X86Instruction::Jnae(label.to_owned()));
}

#[test]
fn an_assignment_stores_the_result_in_the_slot_of_the_variable() {
    let mut scope = Store::default();
    let mut context = context();
    let statement = assign("actual", Expression::Value(number(7)));
    assert_eq!(X86StatementCompiler::compile(statement, &mut scope, &mut context), Ok(()));
    let statement = assign("copy", Expression::Value(variable("actual")));
    assert_eq!(X86StatementCompiler::compile(statement, &mut scope, &mut context), Ok(()));
    let statement = assign("actual", Expression::Value(Value::Number(Number::I8(1))));
    assert_eq!(X86StatementCompiler::compile(statement, &mut scope, &mut context), Ok(()));
    assert_eq!(
        context.instructions.items,
        vec![
            mov(immediate(7), direct(Register::R10D)),
            mov_with(direct(Register::R10D), Location::slot(8), "assign actual"),
            materialized(Location::slot(8), direct(Register::R10)),
            mov_with(direct(Register::R10), Location::slot(16), "assign copy"),
            mov(Location::Imm(Number::I8(1)), direct(Register::R10B)),
            mov_with(direct(Register::R10B), Location::slot(8), "assign actual"),
        ]
    );
    assert_eq!(scope.get_last_position(), 16);
    assert_eq!(scope.get_last_assigned_location(), Location::slot(8));
    assert_eq!(scope.register_backup(), free_pool());
}

fn conditional(condition: Condition, true_block: Vec<Statement>, false_block: Option<Vec<Statement>>) -> Statement {
    Statement::If {
        condition,
        true_block: Block { items: true_block },
        false_block: false_block.map(|items| Block { items }),
    }
}

fn labels_of(items: &[AsmStructure]) -> Vec<String> {
    items
        .iter()
        .filter_map(|item| match item {
            AsmStructure::Branch(name) => Some(format!("{}:", name)),
            AsmStructure::Instruction(instruction) => match &**instruction {
                X86Instruction::Jne(label)
                | X86Instruction::Je(label)
                | X86Instruction::Jnb(label)
                | X86Instruction::Jnbe(label)
                | X86Instruction::Jna(label)
                | X86Instruction::Jnae(label)
                | X86Instruction::Jmp(label) => Some(format!("{} {}", instruction.name(), label)),
                _ => None,
            },
            _ => None,
        })
        .collect()
}

#[test]
fn a_conditional_without_an_else_jumps_to_its_end() {
    let mut scope = Store::default();
    let mut context = context();
    let statement = conditional(
        Condition::Eq { left: number(1), right: number(1) },
        vec![Statement::Return(Some(number(1)))],
        None,
    );
    assert_eq!(X86StatementCompiler::compile(statement, &mut scope, &mut context), Ok(()));
    let items = &context.instructions.items;
    assert_eq!(items.len(), 8);
    assert_eq!(items[5], instruction(X86Instruction::Jne(".L0".to_owned())));
    assert_eq!(items[6], mov_with(immediate(1), direct(Register::RAX), "return 1"));
    assert_eq!(items[7], branch(".L0"));
    assert_eq!(context.storage.branch_counter, 1);
}

#[test]
fn a_conditional_with_an_else_jumps_over_it() {
    let mut scope = Store::default();
    let mut context = context();
    let statement = conditional(
        Condition::Ne { left: number(10), right: number(10) },
        vec![Statement::Return(Some(number(1)))],
        Some(vec![Statement::Return(Some(number(0)))]),
    );
    assert_eq!(X86StatementCompiler::compile(statement, &mut scope, &mut context), Ok(()));
    let items = &context.instructions.items;
    assert_eq!(
        items[5..].to_vec(),
        vec![
            instruction(X86Instruction::Je(".L0".to_owned())),
            mov_with(immediate(1), direct(Register::RAX), "return 1"),
            instruction(X86Instruction::Jmp(".L1".to_owned())),
            branch(".L0"),
            mov_with(immediate(0), direct(Register::RAX), "return 0"),
            branch(".L1"),
        ]
    );
    assert_eq!(context.storage.branch_counter, 2);
}

#[test]
fn conditionals_inside_conditionals_take_their_labels_first() {
    let mut scope = Store::default();
    let mut context = context();
    let inner = conditional(Condition::Ls { left: number(1), right: number(2) }, vec![], Some(vec![]));
    let last = conditional(Condition::Gr { left: number(1), right: number(2) }, vec![], None);
    let outer = conditional(Condition::Le { left: number(1), right: number(2) }, vec![inner], Some(vec![last]));
    assert_eq!(statement_weight_of(&outer), Some(6));
    assert_eq!(X86StatementCompiler::compile(outer, &mut scope, &mut context), Ok(()));
    assert_eq!(
        labels_of(&context.instructions.items),
        vec!["Jnae .L2", "Jna .L0", "Jmp .L1", ".L0:", ".L1:", "Jmp .L4", ".L2:", "Jnb .L3", ".L3:", ".L4:"]
    );
    assert_eq!(context.storage.branch_counter, 5);
}

fn statement_weight_of(statement: &Statement) -> Option<usize> {
    weigh_statement(statement)
}

#[test]
fn no_jump_is_left_without_its_target() {
    let mut scope = Store::default();
    let mut context = context();
    let deep = conditional(
        Condition::Eq { left: number(1), right: number(2) },
        vec![conditional(Condition::Ne { left: number(1), right: number(2) }, vec![], Some(vec![]))],
        Some(vec![conditional(Condition::Ge { left: number(1), right: number(2) }, vec![], None)]),
    );
    let block = Block { items: vec![deep, conditional(Condition::Gr { left: number(3), right: number(4) }, vec![], None)] };
    assert_eq!(weigh_block(&block), Some(8));
    assert_eq!(X86BlockCompiler::compile(block, &mut scope, &mut context), Ok(()));
    let labels = labels_of(&context.instructions.items);
    assert_eq!(labels.len(), 12);
    for label in &labels {
        if !label.ends_with(':') {
            let target = format!("{}:", label.split(' ').nth(1).unwrap());
            assert!(target.len() > 1);
            assert_eq!(labels.iter().filter(|other| **other == target).count(), 1);
        }
    }
}

#[test]
fn a_failing_block_stops_at_its_first_error() {
    let mut scope = Store::default();
    let mut context = context();
    let block = Block {
        items: vec![
            Statement::Return(Some(number(1))),
            Statement::Return(Some(variable("first"))),
            Statement::Return(Some(variable("second"))),
        ],
    };
    let result = X86BlockCompiler::compile(block, &mut scope, &mut context);
    assert_eq!(result, Err(X86Error::VariableNotFound("first".to_owned())));
}

#[test]
fn a_return_fills_the_result_register() {
    let mut scope = Store::default();
    let mut context = context();
    scope.add_variable("narrow", 4);
    scope.add_variable("wide", 8);
    for value in [None, Some(variable("narrow")), Some(variable("wide")), Some(number(-3)), Some(Value::text("a \"b\""))] {
        assert_eq!(X86StatementCompiler::compile(Statement::Return(value), &mut scope, &mut context), Ok(()));
    }
    assert_eq!(
        context.instructions.items,
        vec![
            mov_with(Location::slot(4), direct(Register::EAX), "return narrow"),
            mov_with(Location::slot(12), direct(Register::RAX), "return wide"),
            mov_with(immediate(-3), direct(Register::RAX), "return -3"),
            instruction(X86Instruction::Lea {
                source: Location::Label("LC1".to_owned()),
                target: direct(Register::RAX),
                comment: Some("return \"a \"b\"\"".to_owned()),
            }),
        ]
    );
    assert_eq!(
        context.datas.items,
        vec![DataItem { label: "LC1".to_owned(), values: vec![Data::String("a \"b\"".to_owned())] }]
    );
}

#[test]
fn the_first_six_arguments_go_into_registers_the_last_one_first() {
    let convention = call_convention();
    assert_eq!(convention.convention, CallingConventions::Systemv);
    assert_eq!(
        convention.registers,
        vec![Register::RDI, Register::RSI, Register::RDX, Register::RCX, Register::R8, Register::R9]
    );

    let mut scope = Store::default();
    let mut context = context();
    scope.add_variable("j", 8);
    let arguments: Vec<Value> = vec![
        number(1),
        number(2),
        number(3),
        number(4),
        number(5),
        number(6),
        number(7),
        variable("j"),
        Value::text("ninth"),
    ];
    let statement = Statement::Call {
        name: "sum".to_owned(),
        arguments,
        assign: Some("total".to_owned()),
        is_variadic: false,
    };
    assert_eq!(weigh_statement(&statement), Some(10));
    assert_eq!(X86StatementCompiler::compile(statement, &mut scope, &mut context), Ok(()));
    assert_eq!(
        context.instructions.items,
        vec![
            instruction(X86Instruction::Lea {
                source: Location::Label("LC1".to_owned()),
                target: direct(Register::R10),
                comment: None
            }),
            mov(direct(Register::R10), Location::slot(16)),
            instruction(X86Instruction::Push(Location::slot(16))),
            instruction(X86Instruction::Push(Location::slot(8))),
            instruction(X86Instruction::Push(immediate(7))),
            mov(immediate(6), direct(Register::R9)),
            mov(immediate(5), direct(Register::R8)),
            mov(immediate(4), direct(Register::RCX)),
            mov(immediate(3), direct(Register::RDX)),
            mov(immediate(2), direct(Register::RSI)),
            mov(immediate(1), direct(Register::RDI)),
            instruction(X86Instruction::Call("sum".to_owned())),
            mov(direct(Register::RAX), Location::slot(24)),
        ]
    );
    assert_eq!(scope.find_variable(".t1").unwrap().position, 16);
    assert_eq!(scope.find_variable("total").unwrap().position, 24);
    assert_eq!(scope.get_last_assigned_location(), direct(Register::RAX));
    assert_eq!(scope.register_backup(), free_pool());
}

#[test]
fn a_print_calls_the_printing_function_of_the_system() {
    for (os, symbol) in [(TargetOs::Linux, "printf"), (TargetOs::MacOS, "_printf"), (TargetOs::Windows, "_printf")] {
        let mut scope = Store::default();
        let mut context = ApplicationContext::new(os, DataItemCollection::default());
        scope.add_variable("total", 8);
        let statement = Statement::Print { format: "Total value: %d".to_owned(), arguments: vec![variable("total")] };
        assert_eq!(weigh_statement(&statement), Some(3));
        assert_eq!(X86StatementCompiler::compile(statement, &mut scope, &mut context), Ok(()));
        assert_eq!(
            context.instructions.items,
            vec![
                mov(Location::slot(8), direct(Register::RSI)),
                instruction(X86Instruction::Lea {
                    source: Location::Label("LC1".to_owned()),
                    target: direct(Register::RDI),
                    comment: None
                }),
                instruction(X86Instruction::Call(symbol.to_owned())),
            ]
        );
        assert_eq!(
            context.datas.items,
            vec![DataItem { label: "LC1".to_owned(), values: vec![Data::String("Total value: %d".to_owned())] }]
        );
    }
}

fn function(name: &str, parameters: Vec<(&str, NumberType)>, items: Vec<Statement>) -> Definition {
    Definition::Function {
        name: name.to_owned(),
        parameters: parameters
            .into_iter()
            .map(|(name, param_type)| Parameter { name: name.to_owned(), param_type })
            .collect(),
        block: Block { items },
    }
}

fn reserve(bytes: u32) -> AsmStructure {
    instruction(X86Instruction::Sub {
        source: Location::Imm(Number::U32(bytes)),
        target: direct(Register::RSP),
        comment: None,
    })
}

fn prologue(name: &str) -> Vec<AsmStructure> {
    vec![
        branch(name),
        instruction(X86Instruction::Push(direct(Register::RBP))),
        mov(direct(Register::RSP), direct(Register::RBP)),
    ]
}

fn epilogue() -> Vec<AsmStructure> {
    vec![
        comment("function body end"),
        mov(direct(Register::RBP), direct(Register::RSP)),
        instruction(X86Instruction::Pop(direct(Register::RBP))),
        instruction(X86Instruction::Ret),
        AsmStructure::BranchFinished,
    ]
}

#[test]
fn a_function_without_variables_reserves_nothing() {
    let mut context = context();
    let definition = function("main", vec![], vec![Statement::Return(Some(number(7)))]);
    assert_eq!(X86DefinitionCompiler::compile(definition, &mut context), Ok(()));
    let mut expected = prologue("main");
    expected.push(comment("function body begin"));
    expected.push(mov_with(immediate(7), direct(Register::RAX), "return 7"));
    expected.extend(epilogue());
    assert_eq!(context.instructions.items, expected);
}

#[test]
fn a_function_reserves_sixteen_bytes_at_least() {
    let mut context = context();
    let definition = function("f", vec![("a", NumberType::I32)], vec![]);
    assert_eq!(X86DefinitionCompiler::compile(definition, &mut context), Ok(()));
    let mut expected = prologue("f");
    expected.push(mov(direct(Register::EDI), Location::slot(4)));
    expected.push(reserve(16));
    expected.push(comment("function body begin"));
    expected.extend(epilogue());
    assert_eq!(context.instructions.items, expected);
}

#[test]
fn a_function_reserves_what_its_variables_take() {
    let mut context = context();
    let definition = function(
        "f",
        vec![("a", NumberType::I32), ("b", NumberType::I64), ("c", NumberType::Bool)],
        vec![assign("x", Expression::Value(variable("a"))), assign("y", Expression::Value(variable("c")))],
    );
    assert_eq!(X86DefinitionCompiler::compile(definition, &mut context), Ok(()));
    let mut expected = prologue("f");
    expected.extend(vec![
        mov(direct(Register::DL), Location::slot(1)),
        mov(direct(Register::RSI), Location::slot(9)),
        mov(direct(Register::EDI), Location::slot(13)),
        reserve(29),
        comment("function body begin"),
        materialized(Location::slot(13), direct(Register::R10D)),
        mov_with(direct(Register::R10D), Location::slot(21), "assign x"),
        materialized(Location::slot(1), direct(Register::R10B)),
        mov_with(direct(Register::R10B), Location::slot(29), "assign y"),
    ]);
    expected.extend(epilogue());
    assert_eq!(context.instructions.items, expected);
}

#[test]
fn parameters_beyond_the_registers_get_a_slot_only() {
    let mut context = context();
    let names = ["a", "b", "c", "d", "e", "f", "g", "h"];
    let definition = function("f", names.iter().map(|name| (*name, NumberType::I64)).collect(), vec![]);
    assert_eq!(X86DefinitionCompiler::compile(definition, &mut context), Ok(()));
    let mut expected = prologue("f");
    for (index, register) in
        [Register::R9, Register::R8, Register::RCX, Register::RDX, Register::RSI, Register::RDI].iter().enumerate()
    {
        expected.push(mov(direct(*register), Location::slot(8 * (index + 3))));
    }
    expected.push(reserve(64));
    expected.push(comment("function body begin"));
    expected.extend(epilogue());
    assert_eq!(context.instructions.items, expected);
}

#[test]
fn definitions_share_the_labels_and_the_data_of_the_context() {
    let first = function(
        "main",
        vec![],
        vec![
            conditional(Condition::Eq { left: number(1), right: number(1) }, vec![], None),
            Statement::Return(Some(Value::text("one"))),
        ],
    );
    let second = function(
        "other",
        vec![],
        vec![
            conditional(Condition::Eq { left: number(1), right: number(1) }, vec![], None),
            Statement::Return(Some(Value::text("two"))),
        ],
    );
    let definitions = vec![first, second];
    assert!(X86AssemblyGenerator::fits(&definitions));
    let mut context = context();
    assert_eq!(X86AssemblyGenerator::compile_all(&definitions, &mut context), Ok(()));
    let labels = labels_of(&context.instructions.items);
    assert_eq!(labels, vec!["main:", "Jne .L0", ".L0:", "other:", "Jne .L1", ".L1:"]);
    let data: Vec<&str> = context.datas.items.iter().map(|item| item.label.as_str()).collect();
    assert_eq!(data, vec!["LC1", "LC2"]);
}

#[test]
fn a_program_that_does_not_compile_gives_no_text() {
    let definitions = vec![
        function("main", vec![], vec![Statement::Return(Some(number(1)))]),
        function("other", vec![], vec![Statement::Return(Some(variable("missing")))]),
    ];
    let result = X86AssemblyGenerator.generate_for(TargetOs::Linux, definitions, DataItemCollection::default());
    assert_eq!(result, Err(X86Error::VariableNotFound("missing".to_owned())));
}

#[test]
fn a_program_is_written_out_whole() {
    let definitions = vec![function("main", vec![], vec![Statement::Return(Some(number(7)))])];
    let text = X86AssemblyGenerator.generate_for(TargetOs::Linux, definitions, DataItemCollection::default());
    assert_eq!(
        text.unwrap(),
        ".globl main\r\n\
         \r\n.text\r\n\
         main:\r\n\
         \x20   pushq %rbp\r\n\
         \x20   mov %rsp, %rbp\r\n\
         \x20   # function body begin\r\n\
         \x20   movq $7, %rax # return 7\r\n\
         \x20   # function body end\r\n\
         \x20   mov %rbp, %rsp\r\n\
         \x20   popq %rbp\r\n\
         \x20   ret\r\n"
    );
}

#[test]
fn a_text_beyond_the_registers_is_pushed_like_every_other_argument() {
    let mut scope = Store::default();
    let mut context = context();
    let mut arguments: Vec<Value> = (1..=6).map(number).collect();
    arguments.push(Value::text("seventh"));
    let statement = Statement::Call { name: "f".to_owned(), arguments, assign: None, is_variadic: false };
    assert_eq!(X86StatementCompiler::compile(statement, &mut scope, &mut context), Ok(()));
    let items = &context.instructions.items;
    assert_eq!(items.len(), 10);
    assert_eq!(
        items[..3].to_vec(),
        vec![
            instruction(X86Instruction::Lea {
                source: Location::Label("LC1".to_owned()),
                target: direct(Register::R10),
                comment: None
            }),
            mov(direct(Register::R10), Location::slot(8)),
            instruction(X86Instruction::Push(Location::slot(8))),
        ]
    );
    assert_eq!(items[9], instruction(X86Instruction::Call("f".to_owned())));
    assert_eq!(scope.register_backup(), free_pool());
}

#[test]
fn a_value_that_fails_leaves_everything_as_it_was() {
    let mut scope = Store::default();
    let mut context = context();
    scope.add_variable("a", 8);
    scope.set_last_size(RegisterSize::_64Bit);
    scope.lock_register(RegisterSize::_64Bit);
    let pool = scope.register_backup();

    let result = X86ValueCompiler::compile(variable("x"), &mut context, &mut scope, Some(direct(Register::RDI)));
    assert_eq!(result, Err(X86Error::VariableNotFound("x".to_owned())));
    let result = X86ValueCompiler::compile(Value::text("t"), &mut context, &mut scope, None);
    assert_eq!(result, Err(X86Error::UnexpectedInstruction));
    let result = X86StatementCompiler::compile(Statement::Return(Some(variable("y"))), &mut scope, &mut context);
    assert_eq!(result, Err(X86Error::VariableNotFound("y".to_owned())));

    assert!(context.instructions.items.is_empty());
    assert!(context.datas.items.is_empty());
    assert_eq!(scope.get_last_size(), RegisterSize::_64Bit);
    assert_eq!(scope.get_last_position(), 8);
    assert_eq!(scope.register_backup(), pool);
}

#[test]
fn a_number_without_a_register_sets_the_last_width_and_emits_nothing() {
    let mut scope = Store::default();
    let mut context = context();
    scope.lock_register(RegisterSize::_64Bit);
    scope.lock_register(RegisterSize::_64Bit);
    scope.set_last_size(RegisterSize::_64Bit);
    let pool = scope.register_backup();
    let result = X86ValueCompiler::compile(Value::Number(Number::I8(1)), &mut context, &mut scope, None);
    assert_eq!(result, Err(X86Error::NoRegisterAvailable));
    assert!(context.instructions.items.is_empty());
    assert_eq!(scope.get_last_size(), RegisterSize::_8Bit);
    assert_eq!(scope.register_backup(), pool);
}

#[test]
fn a_statement_that_fails_keeps_what_was_emitted_before_it() {
    let mut scope = Store::default();
    let mut context = context();
    let block = Block {
        items: vec![
            assign("a", Expression::Value(number(1))),
            assign("b", Expression::Add { source: variable("missing"), target: variable("a") }),
            assign("c", Expression::Value(number(3))),
        ],
    };
    let result = X86BlockCompiler::compile(block, &mut scope, &mut context);
    assert_eq!(result, Err(X86Error::VariableNotFound("missing".to_owned())));
    assert_eq!(
        context.instructions.items,
        vec![
            mov(immediate(1), direct(Register::R10D)),
            mov_with(direct(Register::R10D), Location::slot(8), "assign a"),
            comment("Generate source value"),
        ]
    );
    assert_eq!(scope.find_variable("b").unwrap().position, 16);
    assert!(scope.find_variable("c").is_none());
}
