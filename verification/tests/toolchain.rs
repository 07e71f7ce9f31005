use tb_core::builder::{ApplicationType, BlockType, FunctionType};
use tb_core::generator::{GeneratorError, X86AssemblyGenerator};
use tb_core::tool::defs::{os_defs, OsSpecificDefs, TargetOs};
use tb_core::toolchain::{compile_outcome, compiler_arguments, version_line, CompilerType, TBError};
use tb_core::types::Number;

#[test]
fn the_command_line_names_source_and_target_first() {
    assert_eq!(compiler_arguments("out.s", "out.exe", &vec![]), vec!["out.s", "-o", "out.exe"]);
    let extra = vec![("-l".to_owned(), "m".to_owned()), ("-x".to_owned(), "assembler".to_owned())];
    assert_eq!(
        compiler_arguments("a b.s", "c", &extra),
        vec!["a b.s", "-o", "c", "-l", "m", "-x", "assembler"]
    );
}

#[test]
fn the_version_is_the_first_line() {
    assert_eq!(version_line("gcc (GCC) 13.2.0\nCopyright (C) 2023\n"), "gcc (GCC) 13.2.0");
    assert_eq!(version_line("gcc 13\r\nmore\r\n"), "gcc 13");
    assert_eq!(version_line("single"), "single");
    assert_eq!(version_line("trailing\r"), "trailing\r");
    assert_eq!(version_line("\nsecond"), "");
    assert_eq!(version_line("\r\nsecond"), "");
    assert_eq!(version_line("a\rb\nc"), "a\rb");
    assert_eq!(version_line(""), "");
    assert_eq!(version_line("größe\nx"), "größe");
}

#[test]
fn a_run_that_succeeds_is_well_whatever_it_printed() {
    assert_eq!(compile_outcome(true, Ok("warning".to_owned())), Ok(()));
    assert_eq!(compile_outcome(true, Err("no text".to_owned())), Ok(()));
}

#[test]
fn a_run_that_fails_says_why() {
    assert_eq!(
        compile_outcome(false, Ok("out.s:3: Error".to_owned())),
        Err(TBError::CompileFailed("out.s:3: Error".to_owned()))
    );
    assert_eq!(
        compile_outcome(false, Err("invalid utf-8".to_owned())),
        Err(TBError::UnsupportedStringFormat("invalid utf-8".to_owned()))
    );
}

#[test]
fn errors_are_put_in_words() {
    assert_eq!(TBError::IOError("denied".to_owned()).message(), "IO Error (denied)");
    assert_eq!(TBError::CompilerNotFound(CompilerType::GCC).message(), "Compiler not found (GCC)");
    assert_eq!(
        TBError::UnsupportedStringFormat("bad".to_owned()).message(),
        "Unsupported string format (bad)"
    );
    assert_eq!(TBError::CompileFailed("no".to_owned()).message(), "Compile failed (no)");
    assert_eq!(CompilerType::GCC.name(), "GCC");
}

fn returning_seven(os: TargetOs) -> ApplicationType {
    let mut main_func = FunctionType::main_for(os);
    let mut block = BlockType::default();
    block.add_return_number(Number::I32(7));
    main_func.set_body(block);
    let mut application = ApplicationType::default();
    application.add_function(main_func);
    application
}

#[test]
fn the_system_of_this_process_is_one_the_backend_knows_or_none() {
    match os_defs() {
        Some(os) => {
            assert!(matches!(os, TargetOs::Linux | TargetOs::MacOS | TargetOs::Windows));
            let function = FunctionType::main().unwrap();
            let mut function = function;
            assert_eq!(function.get_name(), os.main_function_name());
            let expected = returning_seven(os).build_for(os).unwrap();
            assert_eq!(returning_seven(os).build(), Ok(expected));
        }
        None => {
            assert!(FunctionType::main().is_none());
            let (definitions, datas) = returning_seven(TargetOs::Linux).into_parts();
            assert_eq!(
                X86AssemblyGenerator.generate(definitions, datas),
                Err(GeneratorError::UnsupportedSystem)
            );
        }
    }
}
