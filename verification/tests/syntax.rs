use tb_core::addressing_mode::AddressingMode;
use tb_core::context::{ApplicationContext, AsmStructure, Data, DataItem, DataItemCollection};
use tb_core::instruction::X86Instruction;
use tb_core::location::Location;
use tb_core::register::{Register, RegisterSize};
use tb_core::syntax::{size_suffix, ATTSyntaxGenerator, TBSyntaxGenerator};
use tb_core::tool::defs::TargetOs;
use tb_core::types::Number;

fn direct(register: Register) -> Location {
    Location::direct(register)
}

fn location_text(location: Location) -> String {
    let mut buffer = String::new();
    ATTSyntaxGenerator.generate_location(&location, &mut buffer);
    buffer
}

fn line(instruction: X86Instruction) -> String {
    let mut buffer = String::new();
    ATTSyntaxGenerator.generate_instruction(instruction.convert(), false, &mut buffer);
    buffer
}

fn mov(source: Location, target: Location) -> X86Instruction {
    X86Instruction::Mov { source, target, comment: None }
}

#[test]
fn operands_are_written_behind_a_blank() {
    assert_eq!(location_text(direct(Register::RAX)), " %rax");
    assert_eq!(location_text(Location::Register(AddressingMode::Indirect(Register::R10))), " (%r10)");
    assert_eq!(location_text(Location::slot(8)), " -8(%rbp)");
    assert_eq!(location_text(Location::Register(AddressingMode::Based(16, Register::RSP))), " 16(%rsp)");
    assert_eq!(location_text(Location::Imm(Number::I32(-5))), " $-5");
    assert_eq!(location_text(Location::Imm(Number::U64(4294967292))), " $4294967292");
    assert_eq!(location_text(Location::Imm(Number::Bool(true))), " $1");
    assert_eq!(location_text(Location::Imm(Number::Bool(false))), " $0");
    assert_eq!(location_text(Location::Label("LC1".to_owned())), " .LC1(%rip)");
    assert_eq!(location_text(Location::Memory(4096)), " 0x1000");
    assert_eq!(location_text(Location::Memory(-1)), " 0xffffffffffffffff");
}

#[test]
fn a_move_takes_the_suffix_of_its_only_register() {
    assert_eq!(line(mov(Location::Imm(Number::I32(5)), direct(Register::R10D))), "movl $5, %r10d\r\n");
    assert_eq!(line(mov(Location::Imm(Number::I16(1)), direct(Register::R10W))), "movw $1, %r10w\r\n");
    assert_eq!(line(mov(Location::Imm(Number::I8(1)), direct(Register::CL))), "movb $1, %cl\r\n");
    assert_eq!(line(mov(Location::Imm(Number::U64(7)), direct(Register::RAX))), "movq $7, %rax\r\n");
    assert_eq!(line(mov(direct(Register::EAX), Location::Memory(16))), "movl %eax, 0x10\r\n");
    assert_eq!(line(X86Instruction::Push(direct(Register::RBP))), "pushq %rbp\r\n");
    assert_eq!(line(X86Instruction::Pop(direct(Register::RBP))), "popq %rbp\r\n");
    assert_eq!(line(X86Instruction::Push(Location::slot(8))), "pushq -8(%rbp)\r\n");
    assert_eq!(line(X86Instruction::Push(Location::Imm(Number::I32(20)))), "push $20\r\n");
    assert_eq!(
        line(X86Instruction::Lea {
            source: Location::Label("LC1".to_owned()),
            target: direct(Register::RDI),
            comment: None
        }),
        "leaq .LC1(%rip), %rdi\r\n"
    );
}

#[test]
fn a_move_between_registers_takes_the_narrower_width() {
    assert_eq!(line(mov(direct(Register::RSP), direct(Register::RBP))), "mov %rsp, %rbp\r\n");
    assert_eq!(line(mov(direct(Register::R10D), direct(Register::R11D))), "mov %r10d, %r11d\r\n");
    assert_eq!(line(mov(direct(Register::EDX), direct(Register::RCX))), "movl %edx, %rcx\r\n");
    assert_eq!(line(mov(direct(Register::R10D), Location::slot(8))), "movl %r10d, -8(%rbp)\r\n");
    assert_eq!(line(mov(Location::slot(8), direct(Register::CL))), "movb -8(%rbp), %cl\r\n");
    assert_eq!(line(mov(Location::slot(8), direct(Register::RAX))), "movq -8(%rbp), %rax\r\n");
    assert_eq!(line(mov(direct(Register::RDI), Location::slot(16))), "movq %rdi, -16(%rbp)\r\n");
    assert_eq!(line(mov(direct(Register::R10W), Location::slot(8))), "movw %r10w, -8(%rbp)\r\n");
}

#[test]
fn an_operation_takes_no_suffix() {
    let source = direct(Register::R10D);
    assert_eq!(
        line(X86Instruction::Add { source: source.clone(), target: Location::slot(8), comment: None }),
        "add %r10d, -8(%rbp)\r\n"
    );
    assert_eq!(
        line(X86Instruction::Sub {
            source: Location::Imm(Number::U32(16)),
            target: direct(Register::RSP),
            comment: None
        }),
        "sub $16, %rsp\r\n"
    );
    assert_eq!(
        line(X86Instruction::IMul { source: source.clone(), target: direct(Register::R11), comment: None }),
        "imul %r10d, %r11\r\n"
    );
    assert_eq!(
        line(X86Instruction::Shl { source: direct(Register::CL), target: Location::slot(16), comment: None }),
        "shl %cl, -16(%rbp)\r\n"
    );
    assert_eq!(
        line(X86Instruction::Shr { source: direct(Register::CL), target: direct(Register::R10D), comment: None }),
        "shr %cl, %r10d\r\n"
    );
    assert_eq!(
        line(X86Instruction::And { source: source.clone(), target: direct(Register::R11D), comment: None }),
        "and %r10d, %r11d\r\n"
    );
    assert_eq!(
        line(X86Instruction::Or { source: source.clone(), target: direct(Register::R11D), comment: None }),
        "or %r10d, %r11d\r\n"
    );
    assert_eq!(
        line(X86Instruction::Xor { source: source.clone(), target: direct(Register::R11D), comment: None }),
        "xor %r10d, %r11d\r\n"
    );
    assert_eq!(line(X86Instruction::Not { source: source.clone(), comment: None }), "not %r10d\r\n");
    assert_eq!(line(X86Instruction::Neg { source: source.clone(), comment: None }), "neg %r10d\r\n");
    assert_eq!(line(X86Instruction::Inc { source: source.clone(), comment: None }), "inc %r10d\r\n");
    assert_eq!(line(X86Instruction::Dec { source: source.clone(), comment: None }), "dec %r10d\r\n");
    assert_eq!(line(X86Instruction::IDiv { target: direct(Register::ESI), comment: None }), "idiv %esi\r\n");
    assert_eq!(line(X86Instruction::Cdq), "cdq\r\n");
    assert_eq!(line(X86Instruction::Ret), "ret\r\n");
}

#[test]
fn a_comparison_is_written_left_before_right() {
    let cmp = X86Instruction::Cmp { left: direct(Register::R11), right: direct(Register::R10), comment: None };
    assert_eq!(line(cmp), "cmp %r11, %r10\r\n");
    let cmp = X86Instruction::Cmp { left: Location::slot(8), right: direct(Register::R10D), comment: None };
    assert_eq!(line(cmp), "cmp -8(%rbp), %r10d\r\n");
}

#[test]
fn jumps_and_calls_name_their_label() {
    assert_eq!(line(X86Instruction::Jne(".L0".to_owned())), "jne .L0\r\n");
    assert_eq!(line(X86Instruction::Je(".L1".to_owned())), "je .L1\r\n");
    assert_eq!(line(X86Instruction::Jnb(".L2".to_owned())), "jnb .L2\r\n");
    assert_eq!(line(X86Instruction::Jnbe(".L3".to_owned())), "jnbe .L3\r\n");
    assert_eq!(line(X86Instruction::Jna(".L4".to_owned())), "jna .L4\r\n");
    assert_eq!(line(X86Instruction::Jnae(".L5".to_owned())), "jnae .L5\r\n");
    assert_eq!(line(X86Instruction::Jmp(".L6".to_owned())), "jmp .L6\r\n");
    assert_eq!(line(X86Instruction::Call("printf".to_owned())), "call printf\r\n");
}

#[test]
fn a_comment_ends_the_line_of_its_instruction() {
    let instruction = X86Instruction::Mov {
        source: direct(Register::R10D),
        target: Location::slot(8),
        comment: Some("assign actual".to_owned()),
    };
    assert_eq!(line(instruction), "movl %r10d, -8(%rbp) # assign actual\r\n");
    let instruction = X86Instruction::Neg { source: direct(Register::RAX), comment: Some("flip".to_owned()) };
    assert_eq!(line(instruction), "neg %rax # flip\r\n");
}

#[test]
fn items_inside_a_branch_are_indented() {
    let generator = ATTSyntaxGenerator;
    let mut buffer = String::new();
    let mut inside = false;
    let items = vec![
        AsmStructure::Comment("before".to_owned()),
        AsmStructure::Instruction(Box::new(X86Instruction::Ret)),
        AsmStructure::Branch("main".to_owned()),
        AsmStructure::Comment("within".to_owned()),
        AsmStructure::Instruction(Box::new(X86Instruction::Ret)),
        AsmStructure::Branch(".L0".to_owned()),
        AsmStructure::Instruction(Box::new(X86Instruction::Cdq)),
        AsmStructure::BranchFinished,
        AsmStructure::Instruction(Box::new(X86Instruction::Ret)),
    ];
    for item in &items {
        inside = generator.process_item(item, inside, &mut buffer);
    }
    assert!(!inside);
    assert_eq!(
        buffer,
        "# before\r\nret\r\nmain:\r\n    # within\r\n    ret\r\n.L0:\r\n    cdq\r\nret\r\n"
    );
}

#[test]
fn the_pieces_of_a_line_can_be_written_alone() {
    let generator = TBSyntaxGenerator::get_generator();
    let mut buffer = String::new();
    generator.generate_branch("sum", &mut buffer);
    generator.generate_comment("note", true, &mut buffer);
    generator.generate_comment("note", false, &mut buffer);
    assert_eq!(buffer, "sum:\r\n    # note\r\n# note\r\n");
    assert_eq!(generator.get_suffix(&AddressingMode::Based(-8, Register::RBP)), "q");
    assert_eq!(generator.get_suffix(&AddressingMode::Direct(Register::AX)), "w");
    let based = AddressingMode::Based(-8, Register::RBP);
    assert_eq!(generator.get_suffix_from_registers(&based, &AddressingMode::Direct(Register::ECX)), "l");
    assert_eq!(generator.get_suffix_from_registers(&AddressingMode::Direct(Register::CL), &based), "b");
    assert_eq!(generator.get_suffix_from_registers(&based, &AddressingMode::Direct(Register::RCX)), "q");
    assert_eq!(
        generator.get_suffix_from_registers(
            &AddressingMode::Direct(Register::RAX),
            &AddressingMode::Direct(Register::RCX)
        ),
        ""
    );
    assert_eq!(size_suffix(RegisterSize::_8Bit), "b");
    assert_eq!(size_suffix(RegisterSize::_64Bit), "q");
}

#[test]
fn data_is_written_under_its_label() {
    let item = DataItem {
        label: "LC1".to_owned(),
        values: vec![Data::String("say \"%d\"".to_owned()), Data::Byte(10), Data::Byte(0)],
    };
    let mut buffer = String::new();
    ATTSyntaxGenerator.process_data(&item, &mut buffer, ".section\t.rodata");
    assert_eq!(
        buffer,
        "\r\n.section\t.rodata\r\n.LC1:\r\n    .string \"say \\\"%d\\\"\"\r\n    .byte 10\r\n    .byte 0\r\n"
    );
}

#[test]
fn a_unit_starts_with_the_entry_symbol_and_the_data() {
    let mut datas = DataItemCollection::default();
    datas.add_string_data("LC1", "one");
    datas.add_string_data("LC2", "two");
    let mut context = ApplicationContext::new(TargetOs::MacOS, datas);
    context.instructions.add_branch("_main".to_owned());
    context.instructions.add_instruction(X86Instruction::Ret);
    context.instructions.add_close_branch();
    let text = ATTSyntaxGenerator.generate(&context);
    assert_eq!(
        text,
        ".globl _main\r\n\
         \r\n.section    __TEXT,__cstring,cstring_literals\r\n.LC1:\r\n    .string \"one\"\r\n\
         \r\n.section    __TEXT,__cstring,cstring_literals\r\n.LC2:\r\n    .string \"two\"\r\n\
         \r\n.text\r\n_main:\r\n    ret\r\n"
    );
}

#[test]
fn a_unit_without_anything_is_its_frame() {
    let context = ApplicationContext::new(TargetOs::Linux, DataItemCollection::default());
    assert_eq!(ATTSyntaxGenerator.generate(&context), ".globl main\r\n\r\n.text\r\n");
}
