use tb_core::addressing_mode::AddressingMode;
use tb_core::instruction::{AbstractInstruction, X86Instruction, X86InstructionType};
use tb_core::location::Location;
use tb_core::register::{get_register_type, Register, RegisterSize, RegisterTrait};
use tb_core::types::{CallingConventions, Number, NumberType, ProcedureCall, Value, ValueType};

#[test]
fn a_based_mode_without_offset_is_the_register() {
    assert_eq!(AddressingMode::create_based(0, Register::RBP), AddressingMode::Direct(Register::RBP));
    assert_eq!(AddressingMode::create_based(-8, Register::RBP), AddressingMode::Based(-8, Register::RBP));
    assert_eq!(AddressingMode::create_based(4, Register::RSP), AddressingMode::Based(4, Register::RSP));
}

#[test]
fn every_mode_names_its_register() {
    assert_eq!(AddressingMode::Direct(Register::RAX).get_register(), Register::RAX);
    assert_eq!(AddressingMode::Indirect(Register::EBX).get_register(), Register::EBX);
    assert_eq!(AddressingMode::Based(16, Register::CL).get_register(), Register::CL);
    assert!(AddressingMode::Direct(Register::RAX).is_direct_register());
    assert!(!AddressingMode::Indirect(Register::RAX).is_direct_register());
    assert!(!AddressingMode::Based(1, Register::RAX).is_direct_register());
}

#[test]
fn only_register_operands_have_a_register() {
    let based = Location::Register(AddressingMode::Based(-8, Register::RBP));
    assert_eq!(based.get_register(), Some(Register::RBP));
    assert_eq!(based.get_addressing_mode(), Some(AddressingMode::Based(-8, Register::RBP)));
    assert_eq!(Location::Memory(16).get_register(), None);
    assert_eq!(Location::Imm(Number::U8(1)).get_addressing_mode(), None);
    assert_eq!(Location::Label("LC1".to_owned()).get_register(), None);
    assert_eq!(Location::default(), Location::Imm(Number::I32(0)));
    assert_eq!(Location::slot(24), Location::Register(AddressingMode::Based(-24, Register::RBP)));
    assert_eq!(Location::slot(0), Location::direct(Register::RBP));
}

#[test]
fn registers_have_the_width_of_their_group() {
    assert_eq!(Register::AL.get_register_size(), RegisterSize::_8Bit);
    assert_eq!(Register::R15B.get_register_size(), RegisterSize::_8Bit);
    assert_eq!(Register::AX.get_register_size(), RegisterSize::_16Bit);
    assert_eq!(Register::R15W.get_register_size(), RegisterSize::_16Bit);
    assert_eq!(Register::EAX.get_register_size(), RegisterSize::_32Bit);
    assert_eq!(Register::R15D.get_register_size(), RegisterSize::_32Bit);
    assert_eq!(Register::RAX.get_register_size(), RegisterSize::_64Bit);
    assert_eq!(Register::R15.get_register_size(), RegisterSize::_64Bit);
    assert_eq!(get_register_type(Register::ESI), RegisterSize::_32Bit);
}

#[test]
fn a_family_is_one_register_at_every_width() {
    let info = Register::CH.get_info();
    assert_eq!(info._64bit, Register::RCX);
    assert_eq!(info._32bit, Register::ECX);
    assert_eq!(info._16bit, Register::CX);
    assert_eq!(info._8bit_low, Register::CL);
    assert_eq!(info._8bit_high, Some(Register::CH));
    assert_eq!(Register::R9W.get_info()._8bit_high, None);
    assert_eq!(Register::SIL.get_info()._64bit, Register::RSI);
}

#[test]
fn get_sized_stays_in_the_family() {
    assert_eq!(Register::RAX.get_sized(RegisterSize::_32Bit), Register::EAX);
    assert_eq!(Register::ECX.get_sized(RegisterSize::_8Bit), Register::CL);
    assert_eq!(Register::AH.get_sized(RegisterSize::_8Bit), Register::AL);
    assert_eq!(Register::R10B.get_sized(RegisterSize::_64Bit), Register::R10);
    assert_eq!(Register::DI.get_sized(RegisterSize::_16Bit), Register::DI);
}

#[test]
fn registers_are_written_in_lower_case() {
    assert_eq!(Register::RAX.name(), "rax");
    assert_eq!(Register::R10D.name(), "r10d");
    assert_eq!(Register::SPL.name(), "spl");
}

#[test]
fn widths_count_bytes() {
    assert_eq!(RegisterSize::_8Bit.bytes(), 1);
    assert_eq!(RegisterSize::_16Bit.bytes(), 2);
    assert_eq!(RegisterSize::_32Bit.bytes(), 4);
    assert_eq!(RegisterSize::_64Bit.bytes(), 8);
    assert_eq!(RegisterSize::from_bytes(1), RegisterSize::_8Bit);
    assert_eq!(RegisterSize::from_bytes(2), RegisterSize::_16Bit);
    assert_eq!(RegisterSize::from_bytes(4), RegisterSize::_32Bit);
    assert_eq!(RegisterSize::from_bytes(8), RegisterSize::_64Bit);
    assert_eq!(RegisterSize::from_bytes(3), RegisterSize::_64Bit);
    assert_eq!(RegisterSize::from_bytes(0), RegisterSize::_64Bit);
    assert_eq!(RegisterSize::_32Bit.min(RegisterSize::_8Bit), RegisterSize::_8Bit);
    assert_eq!(RegisterSize::_16Bit.min(RegisterSize::_64Bit), RegisterSize::_16Bit);
    assert!(RegisterSize::_8Bit < RegisterSize::_64Bit);
}

#[test]
fn numbers_have_the_width_of_their_type() {
    assert_eq!(Number::I8(-1).size(), RegisterSize::_8Bit);
    assert_eq!(Number::U16(1).size(), RegisterSize::_16Bit);
    assert_eq!(Number::I32(1).size(), RegisterSize::_32Bit);
    assert_eq!(Number::U64(1).size(), RegisterSize::_64Bit);
    assert_eq!(Number::Bool(true).size(), RegisterSize::_8Bit);
    assert_eq!(NumberType::Float.size(), RegisterSize::_32Bit);
    assert_eq!(NumberType::Double.size(), RegisterSize::_64Bit);
    assert_eq!(NumberType::I64.size(), RegisterSize::_64Bit);
    assert_eq!(Number::U8(7).number_type(), NumberType::U8);
    assert_eq!(Number::Bool(true).to_integer(), 1);
    assert_eq!(Number::Bool(false).to_integer(), 0);
    assert_eq!(Number::I64(i64::MIN).to_integer(), i64::MIN as i128);
    assert_eq!(Number::U64(u64::MAX).to_integer(), u64::MAX as i128);
}

#[test]
fn literals_become_numbers_and_values() {
    assert_eq!(Number::from(5i32), Number::I32(5));
    assert_eq!(Number::from(5u8), Number::U8(5));
    assert_eq!(Number::from(true), Number::Bool(true));
    let value: Value = 4294967292_u64.into();
    assert_eq!(value, Value::Number(Number::U64(4294967292)));
    let value: Value = (-3i16).into();
    assert_eq!(value, Value::Number(Number::I16(-3)));
    assert_eq!(Value::from("text".to_owned()), Value::String("text".to_owned()));
    assert_eq!(Value::text("t"), Value::String("t".to_owned()));
    assert_eq!(Value::variable("v"), Value::Variable("v".to_owned()));
    assert_eq!(Value::variable("v").value_type(), ValueType::Variable);
    assert_eq!(Value::text("t").value_type(), ValueType::String);
    assert_eq!(Value::Number(Number::I8(1)).value_type(), ValueType::Number);
    assert_eq!(Value::text("t").clone(), Value::text("t"));
}

#[test]
fn a_convention_hands_out_its_registers_by_index() {
    let call = ProcedureCall::new(CallingConventions::Systemv, vec![Register::RDI, Register::RSI]);
    assert_eq!(call.get_register(0), Some(Register::RDI));
    assert_eq!(call.get_register(1), Some(Register::RSI));
    assert_eq!(call.get_register(2), None);
    assert_eq!(call.convention, CallingConventions::Systemv);
}

fn rax() -> Location {
    Location::direct(Register::RAX)
}

fn rbx() -> Location {
    Location::direct(Register::RBX)
}

#[test]
fn an_instruction_is_normalized_to_target_and_source() {
    let comment = Some("why".to_owned());
    let add = X86Instruction::Add { source: rax(), target: rbx(), comment: comment.clone() };
    assert_eq!(
        add.convert(),
        AbstractInstruction {
            inst: X86InstructionType::Add,
            target: Some(rbx()),
            source1: Some(rax()),
            source2: None,
            label: None,
            comment,
        }
    );
    let not = X86Instruction::Not { source: rax(), comment: None };
    assert_eq!(not.convert(), AbstractInstruction::target(X86InstructionType::Not, rax()));
    let idiv = X86Instruction::IDiv { target: rbx(), comment: None };
    assert_eq!(idiv.convert(), AbstractInstruction::target(X86InstructionType::IDiv, rbx()));
    assert_eq!(X86Instruction::Push(rax()).convert(), AbstractInstruction::target(X86InstructionType::Push, rax()));
    assert_eq!(
        X86Instruction::Jne(".L0".to_owned()).convert(),
        AbstractInstruction::label(X86InstructionType::Jne, ".L0".to_owned())
    );
    assert_eq!(
        X86Instruction::Call("sum".to_owned()).convert(),
        AbstractInstruction::label(X86InstructionType::Call, "sum".to_owned())
    );
    assert_eq!(X86Instruction::Ret.convert(), AbstractInstruction::simple(X86InstructionType::Ret));
    assert_eq!(X86Instruction::Cdq.convert(), AbstractInstruction::simple(X86InstructionType::Cdq));
}

#[test]
fn a_comparison_reads_left_and_has_right_in_the_place_of_the_target() {
    let cmp = X86Instruction::Cmp { left: rax(), right: rbx(), comment: None };
    assert_eq!(cmp.convert(), AbstractInstruction::target_source(X86InstructionType::Cmp, rbx(), rax()));
}

#[test]
fn the_constructors_of_the_normalized_form_fill_their_fields() {
    let comment = Some("c".to_owned());
    let simple = AbstractInstruction::simple_with_comment(X86InstructionType::Ret, comment.clone());
    assert_eq!(simple.comment, comment);
    assert_eq!(simple.target, None);
    let target = AbstractInstruction::target_with_comment(X86InstructionType::Neg, rax(), comment.clone());
    assert_eq!((target.target, target.source1, target.comment), (Some(rax()), None, comment.clone()));
    let both = AbstractInstruction::target_source_with_comment(X86InstructionType::Mov, rax(), rbx(), None);
    assert_eq!((both.target, both.source1, both.source2), (Some(rax()), Some(rbx()), None));
    let three = AbstractInstruction::target_source2(X86InstructionType::IMul, rax(), rbx(), rax());
    assert_eq!((three.target, three.source1, three.source2), (Some(rax()), Some(rbx()), Some(rax())));
    let commented =
        AbstractInstruction::target_source2_with_comment(X86InstructionType::IMul, rax(), rbx(), rax(), comment.clone());
    assert_eq!(commented.comment, comment);
    assert_eq!(commented.label, None);
}

#[test]
fn instructions_have_names_and_mnemonics() {
    let mov = X86Instruction::Mov { source: rax(), target: rbx(), comment: None };
    assert_eq!(mov.name(), "Mov");
    assert_eq!(mov.instruction_type(), X86InstructionType::Mov);
    assert_eq!(X86InstructionType::IMul.name(), "IMul");
    assert_eq!(X86InstructionType::IMul.mnemonic(), "imul");
    assert_eq!(X86InstructionType::Jnbe.mnemonic(), "jnbe");
    assert!(X86InstructionType::Jmp.is_jump());
    assert!(!X86InstructionType::Call.is_jump());
    assert!(X86InstructionType::Lea.is_data_movement());
    assert!(!X86InstructionType::Add.is_data_movement());
    assert_eq!(mov.clone(), mov);
}
