use tb_core::context::{
    ApplicationContext, AsmStructure, Data, DataItem, DataItemCollection, InstructionCollection, X86Storage,
};
use tb_core::instruction::X86Instruction;
use tb_core::location::Location;
use tb_core::register::Register;
use tb_core::text::{push_address, push_decimal, push_escaped, push_hexadecimal, push_signed_decimal};
use tb_core::tool::defs::{LinuxSpecificDefs, MacSpecificDefs, OsSpecificDefs, TargetOs, WindowsSpecificDefs};

#[test]
fn data_with_a_new_label_is_a_new_item() {
    let mut datas = DataItemCollection::default();
    assert_eq!(datas.create_label(), "LC1");
    datas.add_string_data("LC1", "first");
    assert_eq!(datas.create_label(), "LC2");
    datas.add_byte_data("other", 7);
    assert_eq!(datas.create_label(), "LC3");
    assert_eq!(
        datas.items,
        vec![
            DataItem { label: "LC1".to_owned(), values: vec![Data::String("first".to_owned())] },
            DataItem { label: "other".to_owned(), values: vec![Data::Byte(7)] },
        ]
    );
}

#[test]
fn data_with_a_known_label_joins_its_item() {
    let mut datas = DataItemCollection::default();
    datas.add_string_data("a", "one");
    datas.add_string_data("b", "two");
    datas.add_byte_data("a", 0);
    datas.add_string_data("a", "three");
    assert_eq!(datas.items.len(), 2);
    assert_eq!(
        datas.items[0].values,
        vec![Data::String("one".to_owned()), Data::Byte(0), Data::String("three".to_owned())]
    );
    assert_eq!(datas.items[1].values, vec![Data::String("two".to_owned())]);
    assert_eq!(datas.create_label(), "LC3");
}

fn boxed(instruction: X86Instruction) -> AsmStructure {
    AsmStructure::Instruction(Box::new(instruction))
}

#[test]
fn emitted_items_keep_their_order_and_can_be_replaced() {
    let mut items = InstructionCollection::default();
    assert_eq!(items.add_instruction(X86Instruction::Ret), 0);
    items.add_branch("main".to_owned());
    items.add_comment("note".to_owned());
    assert_eq!(items.add_instruction(X86Instruction::Jmp("".to_owned())), 3);
    items.add_close_branch();
    assert_eq!(items.last_instruction_position(), 4);

    items.update_instruction(X86Instruction::Jmp(".L0".to_owned()), 3);
    items.remove_instruction(0);
    assert_eq!(
        items.items,
        vec![
            AsmStructure::Branch("main".to_owned()),
            AsmStructure::Comment("note".to_owned()),
            boxed(X86Instruction::Jmp(".L0".to_owned())),
            AsmStructure::BranchFinished,
        ]
    );
    assert_eq!(items.last_instruction_position(), 3);
}

#[test]
fn branch_labels_are_numbered_from_zero() {
    let mut storage = X86Storage::default();
    assert_eq!(storage.get_branch(), ".L0");
    assert_eq!(storage.get_branch(), ".L1");
    for _ in 2..10 {
        storage.get_branch();
    }
    assert_eq!(storage.get_branch(), ".L10");
    assert_eq!(storage.branch_counter, 11);
}

#[test]
fn a_new_context_has_emitted_nothing() {
    let mut datas = DataItemCollection::default();
    datas.add_byte_data("b", 1);
    let context = ApplicationContext::new(TargetOs::MacOS, datas);
    assert_eq!(context.os_specific_defs, TargetOs::MacOS);
    assert!(context.instructions.items.is_empty());
    assert_eq!(context.datas.items.len(), 1);
    assert_eq!(context.storage.branch_counter, 0);
}

#[test]
fn every_system_has_its_names() {
    assert_eq!(LinuxSpecificDefs.main_function_name(), "main");
    assert_eq!(LinuxSpecificDefs.print_symbol_name(), "printf");
    assert_eq!(LinuxSpecificDefs.readonly_data_section_header(), ".text\r\n.section\t.rodata");
    assert_eq!(LinuxSpecificDefs.end_of_file_instructions(), "");
    assert_eq!(MacSpecificDefs.main_function_name(), "_main");
    assert_eq!(MacSpecificDefs.print_symbol_name(), "_printf");
    assert_eq!(MacSpecificDefs.readonly_data_section_header(), ".section    __TEXT,__cstring,cstring_literals");
    assert_eq!(MacSpecificDefs.end_of_file_instructions(), "");
    assert_eq!(WindowsSpecificDefs.main_function_name(), "main");
    assert_eq!(WindowsSpecificDefs.print_symbol_name(), "_printf");
    assert_eq!(
        WindowsSpecificDefs.readonly_data_section_header(),
        ".section    __TEXT,__cstring,cstring_literals"
    );
    assert_eq!(WindowsSpecificDefs.end_of_file_instructions(), "");
    for (os, main, print) in [
        (TargetOs::Linux, "main", "printf"),
        (TargetOs::MacOS, "_main", "_printf"),
        (TargetOs::Windows, "main", "_printf"),
    ] {
        assert_eq!(os.main_function_name(), main);
        assert_eq!(os.print_symbol_name(), print);
        assert_eq!(os.end_of_file_instructions(), "");
    }
    assert_eq!(TargetOs::Linux.readonly_data_section_header(), LinuxSpecificDefs.readonly_data_section_header());
    assert_eq!(TargetOs::MacOS.readonly_data_section_header(), MacSpecificDefs.readonly_data_section_header());
}

fn written(write: impl Fn(&mut String)) -> String {
    let mut buffer = "x".to_owned();
    write(&mut buffer);
    assert!(buffer.starts_with('x'));
    buffer[1..].to_owned()
}

#[test]
fn numbers_are_written_in_decimal() {
    assert_eq!(written(|buffer| push_decimal(buffer, 0)), "0");
    assert_eq!(written(|buffer| push_decimal(buffer, 9)), "9");
    assert_eq!(written(|buffer| push_decimal(buffer, 10)), "10");
    assert_eq!(written(|buffer| push_decimal(buffer, 4294967292)), "4294967292");
    assert_eq!(written(|buffer| push_decimal(buffer, u128::MAX)), u128::MAX.to_string());
    assert_eq!(written(|buffer| push_signed_decimal(buffer, -1)), "-1");
    assert_eq!(written(|buffer| push_signed_decimal(buffer, 0)), "0");
    assert_eq!(written(|buffer| push_signed_decimal(buffer, i64::MIN as i128)), "-9223372036854775808");
    assert_eq!(written(|buffer| push_signed_decimal(buffer, u64::MAX as i128)), "18446744073709551615");
}

#[test]
fn addresses_are_written_in_hexadecimal() {
    assert_eq!(written(|buffer| push_hexadecimal(buffer, 0)), "0");
    assert_eq!(written(|buffer| push_hexadecimal(buffer, 255)), "ff");
    assert_eq!(written(|buffer| push_hexadecimal(buffer, 0x1a2b3c)), "1a2b3c");
    assert_eq!(written(|buffer| push_address(buffer, 0)), "0x0");
    assert_eq!(written(|buffer| push_address(buffer, 4096)), "0x1000");
    assert_eq!(written(|buffer| push_address(buffer, -1)), "0xffffffffffffffff");
    assert_eq!(written(|buffer| push_address(buffer, i64::MIN)), "0x8000000000000000");
    assert_eq!(written(|buffer| push_address(buffer, i64::MAX)), "0x7fffffffffffffff");
}

#[test]
fn quotes_in_string_literals_get_a_backslash() {
    assert_eq!(written(|buffer| push_escaped(buffer, "")), "");
    assert_eq!(written(|buffer| push_escaped(buffer, "plain")), "plain");
    assert_eq!(written(|buffer| push_escaped(buffer, "say \"hi\"")), "say \\\"hi\\\"");
    assert_eq!(written(|buffer| push_escaped(buffer, "\"")), "\\\"");
    assert_eq!(written(|buffer| push_escaped(buffer, "é\"ü")), "é\\\"ü");
}

#[test]
fn a_location_can_name_a_label() {
    let label = Location::Label("LC1".to_owned());
    assert_eq!(label.clone(), label);
    assert_eq!(Location::direct(Register::RSP).get_register(), Some(Register::RSP));
}
