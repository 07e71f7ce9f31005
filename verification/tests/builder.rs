use tb_core::builder::{
    ApplicationType, BlockType, BuilderGenerate, CallType, ConditionType, ExpressionType, FunctionType,
    IfBlockType,
};
use tb_core::context::{Data, DataItem};
use tb_core::generator::X86AssemblyGenerator;
use tb_core::tool::defs::TargetOs;
use tb_core::types::{
    Block, Condition, ConditionDiscriminant, Definition, Expression, Number, NumberType, Parameter, Statement,
    Value,
};

fn a() -> Value {
    Value::Variable("a".to_owned())
}

fn b() -> Value {
    Value::Number(Number::I32(2))
}

#[test]
fn expressions_are_built_from_source_and_target() {
    assert_eq!(ExpressionType::add(a(), b()).convert(), Expression::Add { source: a(), target: b() });
    assert_eq!(ExpressionType::sub(a(), b()).convert(), Expression::Sub { source: a(), target: b() });
    assert_eq!(ExpressionType::mul(a(), b()).convert(), Expression::Mul { source: a(), target: b() });
    assert_eq!(
        ExpressionType::shift_left(a(), b()).convert(),
        Expression::ShiftLeft { source: a(), target: b() }
    );
    assert_eq!(
        ExpressionType::shift_right(a(), b()).convert(),
        Expression::ShiftRight { source: a(), target: b() }
    );
    assert_eq!(
        ExpressionType::bitwise_and(a(), b()).convert(),
        Expression::BitwiseAnd { source: a(), target: b() }
    );
    assert_eq!(
        ExpressionType::bitwise_or(a(), b()).convert(),
        Expression::BitwiseOr { source: a(), target: b() }
    );
    assert_eq!(
        ExpressionType::bitwise_xor(a(), b()).convert(),
        Expression::BitwiseXor { source: a(), target: b() }
    );
    assert_eq!(ExpressionType::bitwise_not(a()).convert(), Expression::BitwiseNot { source: a() });
    assert_eq!(ExpressionType::bitwise_neg(b()).convert(), Expression::BitwiseNeg { source: b() });
    assert_eq!(ExpressionType::inc("a".to_owned()).convert(), Expression::Inc { source: a() });
    assert_eq!(ExpressionType::dec("a".to_owned()).convert(), Expression::Dec { source: a() });
    assert_eq!(ExpressionType::value(b()).convert(), Expression::Value(b()));
    assert_eq!(ExpressionType::value(b()).convert().discriminant(), tb_core::types::ExpressionDiscriminant::Value);
}

#[test]
fn the_first_operand_of_a_division_goes_into_the_divisor_register() {
    assert_eq!(ExpressionType::div(a(), b()).convert(), Expression::Div { divider: a(), divided: b() });
    assert_eq!(ExpressionType::modulo(a(), b()).convert(), Expression::Modulo { divider: a(), divided: b() });
}

#[test]
fn conditions_are_built_from_left_and_right() {
    assert_eq!(ConditionType::eq(a(), b()).convert(), Condition::Eq { left: a(), right: b() });
    assert_eq!(ConditionType::ne(a(), b()).convert(), Condition::Ne { left: a(), right: b() });
    assert_eq!(ConditionType::gr(a(), b()).convert(), Condition::Gr { left: a(), right: b() });
    assert_eq!(ConditionType::ge(a(), b()).convert(), Condition::Ge { left: a(), right: b() });
    assert_eq!(ConditionType::ls(a(), b()).convert(), Condition::Ls { left: a(), right: b() });
    assert_eq!(ConditionType::le(a(), b()).convert(), Condition::Le { left: a(), right: b() });
    let condition = ConditionType::le(a(), b()).convert();
    assert_eq!(condition.discriminant(), ConditionDiscriminant::Le);
    assert_eq!((condition.left(), condition.right()), (&a(), &b()));
    assert_eq!(condition.clone(), condition);
}

#[test]
fn a_block_keeps_its_statements_in_order() {
    let mut block = BlockType::default();
    block.add_assign("x", ExpressionType::value(b()));
    block.add_print("%d".to_owned(), vec![a()]);
    block.add_call("f".to_owned(), vec![b()]);
    block.add_call_and_assign("g".to_owned(), vec![], "y".to_owned());
    block.add_return();
    block.add_return_number(Number::U8(1));
    block.add_return_variable("x");

    let mut inner = IfBlockType::default();
    inner.set_condition(ConditionType::eq(a(), b()));
    let mut true_block = BlockType::default();
    true_block.add_return();
    inner.set_true_block(true_block);
    block.add_if(inner);

    assert_eq!(
        block.convert(),
        Block {
            items: vec![
                Statement::Assign { name: "x".to_owned(), assigne: Expression::Value(b()) },
                Statement::Print { format: "%d".to_owned(), arguments: vec![a()] },
                Statement::Call { name: "f".to_owned(), arguments: vec![b()], assign: None, is_variadic: false },
                Statement::Call {
                    name: "g".to_owned(),
                    arguments: vec![],
                    assign: Some("y".to_owned()),
                    is_variadic: false
                },
                Statement::Return(None),
                Statement::Return(Some(Value::Number(Number::U8(1)))),
                Statement::Return(Some(Value::Variable("x".to_owned()))),
                Statement::If {
                    condition: Condition::Eq { left: a(), right: b() },
                    true_block: Block { items: vec![Statement::Return(None)] },
                    false_block: None,
                },
            ]
        }
    );
}

#[test]
fn a_conditional_may_have_a_second_block() {
    let mut builder = IfBlockType::default();
    builder.set_condition(ConditionType::gr(a(), b()));
    builder.set_false_block(BlockType::default());
    assert_eq!(
        builder.convert(),
        Statement::If {
            condition: Condition::Gr { left: a(), right: b() },
            true_block: Block { items: vec![] },
            false_block: Some(Block { items: vec![] }),
        }
    );
}

#[test]
fn a_call_is_built_part_by_part() {
    let mut call = CallType::default();
    call.set_name("f".to_owned());
    call.add_argument(a());
    call.add_argument(b());
    call.assign_to("r".to_owned());
    call.set_variadic();
    assert_eq!(
        call.convert(),
        Statement::Call {
            name: "f".to_owned(),
            arguments: vec![a(), b()],
            assign: Some("r".to_owned()),
            is_variadic: true
        }
    );
    assert_eq!(
        CallType::default().convert(),
        Statement::Call { name: String::new(), arguments: vec![], assign: None, is_variadic: false }
    );
}

#[test]
fn a_function_starts_under_the_name_of_the_entry() {
    assert_eq!(FunctionType::main_for(TargetOs::Linux).get_name(), "main");
    assert_eq!(FunctionType::main_for(TargetOs::MacOS).get_name(), "_main");
    assert_eq!(FunctionType::main_for(TargetOs::Windows).get_name(), "main");
    assert_eq!(FunctionType::default().get_name(), "");

    let mut function = FunctionType::main_for(TargetOs::Linux);
    function.set_name("sum");
    function.add_parameter("a", NumberType::I64);
    function.add_parameter("b", NumberType::U8);
    let mut block = BlockType::default();
    block.add_return_variable("a");
    function.set_body(block);
    assert_eq!(function.get_name(), "sum");
    assert_eq!(
        function.convert(),
        Definition::Function {
            name: "sum".to_owned(),
            parameters: vec![
                Parameter { name: "a".to_owned(), param_type: NumberType::I64 },
                Parameter { name: "b".to_owned(), param_type: NumberType::U8 },
            ],
            block: Block { items: vec![Statement::Return(Some(Value::Variable("a".to_owned())))] },
        }
    );
}

#[test]
fn an_application_collects_functions_and_data() {
    let mut application = ApplicationType::default();
    application.add_function(FunctionType::main_for(TargetOs::Linux));
    application.add_string_data("string1", "This is a string1.");
    application.add_byte_data("string1", 1);
    application.add_byte_data("byte", 2);
    let (definitions, datas) = application.into_parts();
    assert_eq!(
        definitions,
        vec![Definition::Function { name: "main".to_owned(), parameters: vec![], block: Block { items: vec![] } }]
    );
    assert_eq!(
        datas.items,
        vec![
            DataItem {
                label: "string1".to_owned(),
                values: vec![Data::String("This is a string1.".to_owned()), Data::Byte(1)]
            },
            DataItem { label: "byte".to_owned(), values: vec![Data::Byte(2)] },
        ]
    );
}

#[test]
fn an_application_builds_the_text_that_the_generator_writes() {
    let build = || {
        let mut function = FunctionType::main_for(TargetOs::MacOS);
        let mut block = BlockType::default();
        block.add_print("hi".to_owned(), vec![]);
        function.set_body(block);
        let mut application = ApplicationType::default();
        application.add_function(function);
        application.add_byte_data("b", 9);
        application
    };
    let (definitions, datas) = build().into_parts();
    let expected = X86AssemblyGenerator.generate_for(TargetOs::MacOS, definitions, datas).unwrap();
    let text = build().build_for(TargetOs::MacOS).unwrap();
    assert_eq!(text, expected);
    assert!(text.starts_with(".globl _main\r\n\r\n.section    __TEXT,__cstring,cstring_literals\r\n.b:\r\n    .byte 9\r\n"));
    assert!(text.contains("\r\n.LC2:\r\n    .string \"hi\"\r\n"));
    assert!(text.contains("    leaq .LC2(%rip), %rdi\r\n    call _printf\r\n"));
}

#[test]
fn a_copy_of_a_definition_is_the_definition() {
    let mut inner = IfBlockType::default();
    inner.set_condition(ConditionType::ne(a(), b()));
    let mut else_block = BlockType::default();
    else_block.add_print("%d %s".to_owned(), vec![a(), Value::text("s")]);
    inner.set_false_block(else_block);
    let mut block = BlockType::default();
    block.add_assign("x", ExpressionType::mul(a(), b()));
    block.add_if(inner);
    block.add_call_and_assign("f".to_owned(), vec![b(), a()], "y".to_owned());
    block.add_return_variable("y");
    let mut function = FunctionType::main_for(TargetOs::Linux);
    function.add_parameter("a", NumberType::I16);
    function.set_body(block);
    let definition = function.convert();
    assert_eq!(definition.clone(), definition);
    let Definition::Function { block, parameters, .. } = &definition;
    assert_eq!(block.clone(), *block);
    assert_eq!(block.items[1].clone(), block.items[1]);
    assert_eq!(parameters[0].clone(), parameters[0]);
    assert_eq!(tb_core::types::clone_values(&vec![a(), b()]), vec![a(), b()]);
}
