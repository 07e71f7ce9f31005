//! The names and directives that differ between operating systems.

use vstd::prelude::*;

verus! {

/// What the backend asks of the operating system it compiles for.
pub trait OsSpecificDefs {
    spec fn spec_main_function_name(&self) -> Seq<char>;

    spec fn spec_end_of_file_instructions(&self) -> Seq<char>;

    spec fn spec_print_symbol_name(&self) -> Seq<char>;

    spec fn spec_readonly_data_section_header(&self) -> Seq<char>;

    /// The symbol at which a program starts.
    fn main_function_name(&self) -> (name: &'static str)
        ensures
            name@ == self.spec_main_function_name(),
    ;

    /// The directives that close a unit.
    fn end_of_file_instructions(&self) -> (text: &'static str)
        ensures
            text@ == self.spec_end_of_file_instructions(),
    ;

    /// The symbol of the function that prints formatted text.
    fn print_symbol_name(&self) -> (name: &'static str)
        ensures
            name@ == self.spec_print_symbol_name(),
    ;

    /// The directive that opens a section of read-only data.
    fn readonly_data_section_header(&self) -> (text: &'static str)
        ensures
            text@ == self.spec_readonly_data_section_header(),
    ;
}

/// The names of macOS.
#[derive(Debug, Copy, Clone, Default)]
pub struct MacSpecificDefs;

/// The names of Linux.
#[derive(Debug, Copy, Clone, Default)]
pub struct LinuxSpecificDefs;

/// The names of Windows.
#[derive(Debug, Copy, Clone, Default)]
pub struct WindowsSpecificDefs;

impl OsSpecificDefs for MacSpecificDefs {
    open spec fn spec_main_function_name(&self) -> Seq<char> {
        "_main"@
    }

    open spec fn spec_end_of_file_instructions(&self) -> Seq<char> {
        ""@
    }

    open spec fn spec_print_symbol_name(&self) -> Seq<char> {
        "_printf"@
    }

    open spec fn spec_readonly_data_section_header(&self) -> Seq<char> {
        ".section    __TEXT,__cstring,cstring_literals"@
    }

    fn main_function_name(&self) -> (name: &'static str) {
        "_main"
    }

    fn end_of_file_instructions(&self) -> (text: &'static str) {
        ""
    }

    fn print_symbol_name(&self) -> (name: &'static str) {
        "_printf"
    }

    fn readonly_data_section_header(&self) -> (text: &'static str) {
        ".section    __TEXT,__cstring,cstring_literals"
    }
}

impl OsSpecificDefs for LinuxSpecificDefs {
    open spec fn spec_main_function_name(&self) -> Seq<char> {
        "main"@
    }

    open spec fn spec_end_of_file_instructions(&self) -> Seq<char> {
        ""@
    }

    open spec fn spec_print_symbol_name(&self) -> Seq<char> {
        "printf"@
    }

    open spec fn spec_readonly_data_section_header(&self) -> Seq<char> {
        ".text\r\n.section	.rodata"@
    }

    fn main_function_name(&self) -> (name: &'static str) {
        "main"
    }

    fn end_of_file_instructions(&self) -> (text: &'static str) {
        ""
    }

    fn print_symbol_name(&self) -> (name: &'static str) {
        "printf"
    }

    fn readonly_data_section_header(&self) -> (text: &'static str) {
        ".text\r\n.section	.rodata"
    }
}

impl OsSpecificDefs for WindowsSpecificDefs {
    open spec fn spec_main_function_name(&self) -> Seq<char> {
        "main"@
    }

    open spec fn spec_end_of_file_instructions(&self) -> Seq<char> {
        ""@
    }

    open spec fn spec_print_symbol_name(&self) -> Seq<char> {
        "_printf"@
    }

    open spec fn spec_readonly_data_section_header(&self) -> Seq<char> {
        ".section    __TEXT,__cstring,cstring_literals"@
    }

    fn main_function_name(&self) -> (name: &'static str) {
        "main"
    }

    fn end_of_file_instructions(&self) -> (text: &'static str) {
        ""
    }

    fn print_symbol_name(&self) -> (name: &'static str) {
        "_printf"
    }

    fn readonly_data_section_header(&self) -> (text: &'static str) {
        ".section    __TEXT,__cstring,cstring_literals"
    }
}

/// The operating systems that the backend can compile for.
#[derive(Debug, Copy, Clone, PartialEq, Eq, Structural)]
pub enum TargetOs {
    Linux,
    MacOS,
    Windows,
}

impl OsSpecificDefs for TargetOs {
    open spec fn spec_main_function_name(&self) -> Seq<char> {
        match self {
            TargetOs::Linux => LinuxSpecificDefs.spec_main_function_name(),
            TargetOs::MacOS => MacSpecificDefs.spec_main_function_name(),
            TargetOs::Windows => WindowsSpecificDefs.spec_main_function_name(),
        }
    }

    open spec fn spec_end_of_file_instructions(&self) -> Seq<char> {
        match self {
            TargetOs::Linux => LinuxSpecificDefs.spec_end_of_file_instructions(),
            TargetOs::MacOS => MacSpecificDefs.spec_end_of_file_instructions(),
            TargetOs::Windows => WindowsSpecificDefs.spec_end_of_file_instructions(),
        }
    }

    open spec fn spec_print_symbol_name(&self) -> Seq<char> {
        match self {
            TargetOs::Linux => LinuxSpecificDefs.spec_print_symbol_name(),
            TargetOs::MacOS => MacSpecificDefs.spec_print_symbol_name(),
            TargetOs::Windows => WindowsSpecificDefs.spec_print_symbol_name(),
        }
    }

    open spec fn spec_readonly_data_section_header(&self) -> Seq<char> {
        match self {
            TargetOs::Linux => LinuxSpecificDefs.spec_readonly_data_section_header(),
            TargetOs::MacOS => MacSpecificDefs.spec_readonly_data_section_header(),
            TargetOs::Windows => WindowsSpecificDefs.spec_readonly_data_section_header(),
        }
    }

    fn main_function_name(&self) -> (name: &'static str) {
        match self {
            TargetOs::Linux => LinuxSpecificDefs.main_function_name(),
            TargetOs::MacOS => MacSpecificDefs.main_function_name(),
            TargetOs::Windows => WindowsSpecificDefs.main_function_name(),
        }
    }

    fn end_of_file_instructions(&self) -> (text: &'static str) {
        match self {
            TargetOs::Linux => LinuxSpecificDefs.end_of_file_instructions(),
            TargetOs::MacOS => MacSpecificDefs.end_of_file_instructions(),
            TargetOs::Windows => WindowsSpecificDefs.end_of_file_instructions(),
        }
    }

    fn print_symbol_name(&self) -> (name: &'static str) {
        match self {
            TargetOs::Linux => LinuxSpecificDefs.print_symbol_name(),
            TargetOs::MacOS => MacSpecificDefs.print_symbol_name(),
            TargetOs::Windows => WindowsSpecificDefs.print_symbol_name(),
        }
    }

    fn readonly_data_section_header(&self) -> (text: &'static str) {
        match self {
            TargetOs::Linux => LinuxSpecificDefs.readonly_data_section_header(),
            TargetOs::MacOS => MacSpecificDefs.readonly_data_section_header(),
            TargetOs::Windows => WindowsSpecificDefs.readonly_data_section_header(),
        }
    }
}

/// The operating system this process runs on, where the backend can compile
/// for it.
///
/// Calls `os_version::detect`, which reads the system's own description of
/// itself. Nothing is claimed of the answer: it is `None` where the detection
/// fails and where it names another system than the three above.
#[verifier::external_body]
pub fn os_defs() -> (defs: Option<TargetOs>) {
    match os_version::detect() {
        Ok(os_version::OsVersion::Linux(_)) => Some(TargetOs::Linux),
        Ok(os_version::OsVersion::MacOS(_)) => Some(TargetOs::MacOS),
        Ok(os_version::OsVersion::Windows(_)) => Some(TargetOs::Windows),
        _ => None,
    }
}

} // verus!
