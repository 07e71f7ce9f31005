use tb_core::location::Location;
use tb_core::register::{Register, RegisterSize};
use tb_core::store::{Store, StoreDefaultRegisters, Variable, X86StoreDefaultRegisters, MAX_FRAME_SIZE};
use tb_core::types::Number;

#[test]
fn a_new_store_is_empty_and_has_the_scratch_pool() {
    let mut store = Store::default();
    assert_eq!(store.get_last_position(), 0);
    assert_eq!(store.get_last_size(), RegisterSize::_32Bit);
    assert_eq!(store.get_last_assigned_location(), Location::Imm(Number::I32(0)));
    assert_eq!(store.register_backup(), vec![(Register::R10, true), (Register::R11, true)]);
    assert_eq!(X86StoreDefaultRegisters::initialize(), store.register_backup());
    assert!(store.find_variable("a").is_none());
}

#[test]
fn the_scratch_pool_holds_no_argument_register() {
    let arguments = [Register::RDI, Register::RSI, Register::RDX, Register::RCX, Register::R8, Register::R9];
    for (register, _) in X86StoreDefaultRegisters::initialize() {
        assert!(!arguments.contains(&register));
    }
}

#[test]
fn lock_register_hands_out_the_first_free_register() {
    let mut store = Store::default();
    assert_eq!(store.lock_register(RegisterSize::_32Bit), Some(Register::R10D));
    assert_eq!(store.register_backup(), vec![(Register::R10, false), (Register::R11, true)]);
    assert_eq!(store.lock_register(RegisterSize::_8Bit), Some(Register::R11B));
    assert_eq!(store.lock_register(RegisterSize::_64Bit), None);
    assert_eq!(store.register_backup(), vec![(Register::R10, false), (Register::R11, false)]);
}

#[test]
fn lock_register_sizes_the_register() {
    for (size, expected) in [
        (RegisterSize::_8Bit, Register::R10B),
        (RegisterSize::_16Bit, Register::R10W),
        (RegisterSize::_32Bit, Register::R10D),
        (RegisterSize::_64Bit, Register::R10),
    ] {
        let mut store = Store::default();
        assert_eq!(store.lock_register(size), Some(expected));
    }
}

#[test]
fn release_register_frees_the_register_it_names() {
    let mut store = Store::default();
    let first = store.lock_register(RegisterSize::_64Bit).unwrap();
    store.lock_register(RegisterSize::_64Bit).unwrap();
    store.release_register(first);
    assert!(store.is_free(Register::R10));
    assert!(!store.is_free(Register::R11));
    assert_eq!(store.lock_register(RegisterSize::_64Bit), Some(Register::R10));
}

#[test]
fn a_register_outside_the_pool_counts_as_free() {
    let mut store = Store::default();
    assert!(store.is_free(Register::ECX));
    store.mark_register(Register::ECX);
    assert!(store.is_free(Register::ECX));
    assert_eq!(store.register_backup(), vec![(Register::R10, true), (Register::R11, true)]);
}

#[test]
fn mark_and_unmark_change_the_entry_of_the_register() {
    let mut store = Store::default();
    store.mark_register(Register::R11);
    assert!(!store.is_free(Register::R11));
    assert!(store.is_free(Register::R10));
    store.unmark_register(Register::R11);
    assert!(store.is_free(Register::R11));
}

#[test]
fn restore_brings_back_the_pool_of_the_backup() {
    let mut store = Store::default();
    store.mark_register(Register::R11);
    let backup = store.register_backup();

    store.lock_register(RegisterSize::_64Bit);
    store.unmark_register(Register::R11);
    store.lock_register(RegisterSize::_16Bit);
    store.release_register(Register::R10);
    store.mark_register(Register::R10);
    assert_ne!(store.register_backup(), backup);

    store.register_restore(backup.clone());
    assert_eq!(store.register_backup(), backup);
    assert!(store.is_free(Register::R10));
    assert!(!store.is_free(Register::R11));
}

#[test]
fn variables_lie_one_below_the_other() {
    let mut store = Store::default();
    let first = store.add_variable("a", 4);
    let second = store.add_variable("b", 8);
    let third = store.add_variable("c", 1);
    assert_eq!(first, Variable { name: "a".to_owned(), size: 4, position: 4 });
    assert_eq!(second, Variable { name: "b".to_owned(), size: 8, position: 12 });
    assert_eq!(third, Variable { name: "c".to_owned(), size: 1, position: 13 });
    assert_eq!(store.get_last_position(), 13);
    assert_eq!(store.find_variable("b"), Some(&second));
    assert_eq!(store.find_variable("d"), None);
}

#[test]
fn find_variable_finds_the_first_of_a_name() {
    let mut store = Store::default();
    store.add_variable("a", 2);
    store.add_variable("a", 4);
    assert_eq!(store.find_variable("a").unwrap().position, 2);
}

#[test]
fn temporary_variables_are_numbered() {
    let mut store = Store::default();
    assert_eq!(store.add_temp_variable(8).name, ".t0");
    store.add_variable("a", 8);
    let temporary = store.add_temp_variable(4);
    assert_eq!(temporary, Variable { name: ".t2".to_owned(), size: 4, position: 20 });
}

#[test]
fn resolve_variable_adds_eight_bytes_once() {
    let mut store = Store::default();
    assert_eq!(store.resolve_variable("a"), 8);
    assert_eq!(store.resolve_variable("b"), 16);
    assert_eq!(store.resolve_variable("a"), 8);
    assert_eq!(store.get_last_position(), 16);
}

#[test]
fn the_last_operand_and_width_are_kept() {
    let mut store = Store::default();
    store.set_last_size(RegisterSize::_64Bit);
    store.set_last_assigned_location(Location::direct(Register::RAX));
    assert_eq!(store.get_last_size(), RegisterSize::_64Bit);
    assert_eq!(store.get_last_assigned_location(), Location::direct(Register::RAX));
}

#[test]
fn the_largest_frame_has_a_32_bit_offset() {
    assert_eq!(MAX_FRAME_SIZE, i32::MAX as usize);
}
