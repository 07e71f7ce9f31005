//! The text layer: what is emitted, written out in AT&T syntax.

use vstd::prelude::*;
use vstd::string::*;
use crate::addressing_mode::AddressingMode;
use crate::context::{
    ApplicationContext,
    AsmStructure,
    AsmView,
    ContextView,
    Data,
    DataItem,
    DataItemView,
    DataView,
};
use crate::instruction::{AbstractInstruction, InstructionView};
use crate::location::{optional_location_view, optional_text_view, Location, LocationView};
use crate::register::{RegisterSize, RegisterTrait};
use crate::text::{
    address_text,
    decimal,
    escaped,
    push_address,
    push_decimal,
    push_escaped,
    push_signed_decimal,
    signed_decimal,
};
use crate::tool::defs::OsSpecificDefs;

verus! {

/// The letter that names an operand width.
pub open spec fn suffix_text(size: RegisterSize) -> Seq<char> {
    match size {
        RegisterSize::_8Bit => "b"@,
        RegisterSize::_16Bit => "w"@,
        RegisterSize::_32Bit => "l"@,
        RegisterSize::_64Bit => "q"@,
    }
}

/// The suffix of an instruction whose only register operand is `mode`: the
/// width of its register.
pub open spec fn mode_suffix(mode: AddressingMode) -> Seq<char> {
    suffix_text(mode.spec_register().spec_size())
}

/// The suffix of an instruction with two register operands: the narrower
/// of the widths of their registers; none where both operands are the
/// registers themselves and equally wide.
pub open spec fn pair_suffix(target: AddressingMode, source: AddressingMode) -> Seq<char> {
    let target_size = target.spec_register().spec_size();
    let source_size = source.spec_register().spec_size();
    if target.spec_is_direct() && source.spec_is_direct() && target_size == source_size {
        Seq::empty()
    } else {
        suffix_text(source_size.spec_min(target_size))
    }
}

/// The operand-size suffix of an instruction. Only data movement takes one.
pub open spec fn instruction_suffix(instruction: InstructionView) -> Seq<char> {
    if !instruction.inst.spec_is_data_movement() {
        Seq::empty()
    } else {
        match (operand_mode(instruction.target), operand_mode(instruction.source1)) {
            (Some(target), None) => mode_suffix(target),
            (None, Some(source)) => mode_suffix(source),
            (Some(target), Some(source)) => pair_suffix(target, source),
            (None, None) => Seq::empty(),
        }
    }
}

/// The register operand of an operand that may be absent.
pub open spec fn operand_mode(operand: Option<LocationView>) -> Option<AddressingMode> {
    match operand {
        Some(location) => location.addressing_mode(),
        None => None,
    }
}

/// A register operand as the assembler reads it.
pub open spec fn mode_text(mode: AddressingMode) -> Seq<char> {
    match mode {
        AddressingMode::Direct(register) => "%"@ + register.spec_name(),
        AddressingMode::Indirect(register) => "(%"@ + register.spec_name() + ")"@,
        AddressingMode::Based(offset, register) => signed_decimal(offset as int) + "(%"@
            + register.spec_name() + ")"@,
    }
}

/// An operand as it follows the mnemonic: a blank, then the operand.
pub open spec fn location_text(location: LocationView) -> Seq<char> {
    " "@ + match location {
        LocationView::Memory(address) => address_text(address),
        LocationView::Register(mode) => mode_text(mode),
        LocationView::Imm(number) => "$"@ + signed_decimal(number.value()),
        LocationView::Label(label) => "."@ + label + "(%rip)"@,
    }
}

/// What stands before an item inside a branch.
pub open spec fn indent(in_branch: bool) -> Seq<char> {
    if in_branch {
        "    "@
    } else {
        Seq::empty()
    }
}

/// The literal label of an instruction behind its mnemonic.
pub open spec fn label_part(label: Option<Seq<char>>) -> Seq<char> {
    match label {
        Some(label) => " "@ + label,
        None => Seq::empty(),
    }
}

/// The operand that an instruction reads.
pub open spec fn source_part(source: Option<LocationView>) -> Seq<char> {
    match source {
        Some(source) => location_text(source),
        None => Seq::empty(),
    }
}

/// The operand that an instruction writes, behind a comma where it reads one.
pub open spec fn target_part(target: Option<LocationView>, has_source: bool) -> Seq<char> {
    match target {
        Some(target) => (if has_source {
            ","@
        } else {
            Seq::empty()
        }) + location_text(target),
        None => Seq::empty(),
    }
}

/// The comment at the end of an instruction's line.
pub open spec fn comment_part(comment: Option<Seq<char>>) -> Seq<char> {
    match comment {
        Some(comment) => " # "@ + comment,
        None => Seq::empty(),
    }
}

/// The line of an instruction: mnemonic and suffix, the label, the operand
/// read, the operand written, the comment.
pub open spec fn instruction_text(instruction: InstructionView, in_branch: bool) -> Seq<char> {
    indent(in_branch) + instruction.inst.spec_mnemonic() + instruction_suffix(instruction)
        + label_part(instruction.label) + source_part(instruction.source1) + target_part(
        instruction.target,
        instruction.source1 is Some,
    ) + comment_part(instruction.comment) + "\r\n"@
}

/// The text of one emitted item.
pub open spec fn item_text(item: AsmView, in_branch: bool) -> Seq<char> {
    match item {
        AsmView::Branch(name) => name + ":"@ + "\r\n"@,
        AsmView::BranchFinished => Seq::empty(),
        AsmView::Comment(text) => indent(in_branch) + "# "@ + text + "\r\n"@,
        AsmView::Instruction(instruction) => instruction_text(instruction, in_branch),
    }
}

/// Whether the text is inside a branch after `item`.
pub open spec fn in_branch_behind(item: AsmView, in_branch: bool) -> bool {
    match item {
        AsmView::Branch(_) => true,
        AsmView::BranchFinished => false,
        _ => in_branch,
    }
}

/// Whether the text is inside a branch after the first `count` items.
pub open spec fn in_branch_after(items: Seq<AsmView>, count: int) -> bool
    decreases count,
{
    if count <= 0 || count > items.len() {
        false
    } else {
        in_branch_behind(items[count - 1], in_branch_after(items, count - 1))
    }
}

/// The text of the first `count` items.
pub open spec fn items_text(items: Seq<AsmView>, count: int) -> Seq<char>
    decreases count,
{
    if count <= 0 || count > items.len() {
        Seq::empty()
    } else {
        items_text(items, count - 1) + item_text(
            items[count - 1],
            in_branch_after(items, count - 1),
        )
    }
}

/// The directive of one literal of the data section.
pub open spec fn data_text(value: DataView) -> Seq<char> {
    match value {
        DataView::String(text) => "    .string \""@ + escaped(text) + "\"\r\n"@,
        DataView::Byte(byte) => "    .byte "@ + decimal(byte as nat) + "\r\n"@,
    }
}

/// The directives of the first `count` literals.
pub open spec fn values_text(values: Seq<DataView>, count: int) -> Seq<char>
    decreases count,
{
    if count <= 0 || count > values.len() {
        Seq::empty()
    } else {
        values_text(values, count - 1) + data_text(values[count - 1])
    }
}

/// The section of one labelled item of data.
pub open spec fn data_item_text(item: DataItemView, header: Seq<char>) -> Seq<char> {
    "\r\n"@ + header + "\r\n."@ + item.label + ":\r\n"@ + values_text(
        item.values,
        item.values.len() as int,
    )
}

/// The sections of the first `count` items of data.
pub open spec fn datas_text(datas: Seq<DataItemView>, count: int, header: Seq<char>) -> Seq<char>
    decreases count,
{
    if count <= 0 || count > datas.len() {
        Seq::empty()
    } else {
        datas_text(datas, count - 1, header) + data_item_text(datas[count - 1], header)
    }
}

/// The whole unit: the entry symbol made global, the data, the text
/// section with every emitted item, and what the system wants at the end.
pub open spec fn program_text(context: ContextView) -> Seq<char> {
    ".globl "@ + context.os.spec_main_function_name() + "\r\n"@ + datas_text(
        context.datas,
        context.datas.len() as int,
        context.os.spec_readonly_data_section_header(),
    ) + "\r\n.text\r\n"@ + items_text(context.instructions, context.instructions.len() as int)
        + context.os.spec_end_of_file_instructions()
}

/// Writes what was emitted in AT&T syntax.
#[derive(Debug, Copy, Clone, Default)]
pub struct ATTSyntaxGenerator;

impl ATTSyntaxGenerator {
    /// The text of the whole unit.
    pub fn generate(&self, context: &ApplicationContext) -> (text: String)
        ensures
            text@ == program_text(context@),
    {
        let mut buffer = String::new();
        buffer.append(".globl ");
        buffer.append(context.os_specific_defs.main_function_name());
        buffer.append("\r\n");
        let ghost head = buffer@;
        let header = context.os_specific_defs.readonly_data_section_header();
        let mut index: usize = 0;
        while index < context.datas.items.len()
            invariant
                index <= context.datas.items.len(),
                header@ == context@.os.spec_readonly_data_section_header(),
                buffer@ == head + datas_text(context@.datas, index as int, header@),
            decreases context.datas.items.len() - index,
        {
            self.process_data(&context.datas.items[index], &mut buffer, header);
            assert(buffer@ =~= head + datas_text(context@.datas, index + 1, header@));
            index += 1;
        }
        buffer.append("\r\n.text\r\n");
        let ghost middle = buffer@;
        let mut in_branch = false;
        let mut index: usize = 0;
        while index < context.instructions.items.len()
            invariant
                index <= context.instructions.items.len(),
                in_branch == in_branch_after(context@.instructions, index as int),
                buffer@ == middle + items_text(context@.instructions, index as int),
            decreases context.instructions.items.len() - index,
        {
            in_branch = self.process_item(&context.instructions.items[index], in_branch, &mut buffer);
            assert(buffer@ =~= middle + items_text(context@.instructions, index + 1));
            index += 1;
        }
        buffer.append(context.os_specific_defs.end_of_file_instructions());
        assert(buffer@ =~= program_text(context@));
        buffer
    }

    /// Writes the section of one labelled item of data.
    pub fn process_data(&self, item: &DataItem, buffer: &mut String, header: &str)
        ensures
            final(buffer)@ == old(buffer)@ + data_item_text(item@, header@),
    {
        buffer.append("\r\n");
        buffer.append(header);
        buffer.append("\r\n.");
        buffer.append(item.label.as_str());
        buffer.append(":\r\n");
        let ghost head = buffer@;
        let mut index: usize = 0;
        while index < item.values.len()
            invariant
                index <= item.values.len(),
                buffer@ == head + values_text(item@.values, index as int),
            decreases item.values.len() - index,
        {
            let ghost before = buffer@;
            match &item.values[index] {
                Data::String(data) => {
                    buffer.append("    .string \"");
                    push_escaped(buffer, data.as_str());
                    buffer.append("\"\r\n");
                },
                Data::Byte(data) => {
                    buffer.append("    .byte ");
                    push_decimal(buffer, *data as u128);
                    buffer.append("\r\n");
                },
            }
            assert(buffer@ =~= before + data_text(item@.values[index as int]));
            assert(buffer@ =~= head + values_text(item@.values, index + 1));
            index += 1;
        }
        assert(buffer@ =~= old(buffer)@ + data_item_text(item@, header@));
    }

    /// Writes one item; hands back whether the text is inside a branch after it.
    pub fn process_item(&self, item: &AsmStructure, in_branch: bool, buffer: &mut String) -> (inside:
        bool)
        ensures
            final(buffer)@ == old(buffer)@ + item_text(item@, in_branch),
            inside == in_branch_behind(item@, in_branch),
    {
        match item {
            AsmStructure::Branch(name) => {
                self.generate_branch(name.as_str(), buffer);
                true
            },
            AsmStructure::BranchFinished => {
                assert(buffer@ =~= old(buffer)@ + Seq::<char>::empty());
                false
            },
            AsmStructure::Comment(comment) => {
                self.generate_comment(comment.as_str(), in_branch, buffer);
                in_branch
            },
            AsmStructure::Instruction(inst) => {
                let instruction = (**inst).clone();
                self.generate_instruction(instruction.convert(), in_branch, buffer);
                in_branch
            },
        }
    }

    /// Writes an operand behind a blank.
    pub fn generate_location(&self, location: &Location, buffer: &mut String)
        ensures
            final(buffer)@ == old(buffer)@ + location_text(location@),
    {
        buffer.append(" ");
        match location {
            Location::Memory(memory) => push_address(buffer, *memory),
            Location::Register(mode) => match mode {
                AddressingMode::Direct(reg) => {
                    buffer.append("%");
                    buffer.append(reg.name());
                },
                AddressingMode::Indirect(reg) => {
                    buffer.append("(%");
                    buffer.append(reg.name());
                    buffer.append(")");
                },
                AddressingMode::Based(num, reg) => {
                    push_signed_decimal(buffer, *num as i128);
                    buffer.append("(%");
                    buffer.append(reg.name());
                    buffer.append(")");
                },
            },
            Location::Imm(imm) => {
                buffer.append("$");
                push_signed_decimal(buffer, imm.to_integer());
            },
            Location::Label(label) => {
                buffer.append(".");
                buffer.append(label.as_str());
                buffer.append("(%rip)");
            },
        }
        assert(buffer@ =~= old(buffer)@ + location_text(location@));
    }

    /// Writes the line of an instruction.
    pub fn generate_instruction(&self, inst: AbstractInstruction, in_branch: bool, buffer: &mut String)
        ensures
            final(buffer)@ == old(buffer)@ + instruction_text(inst@, in_branch),
    {
        self.generate_mnemonic(&inst, in_branch, buffer);
        self.generate_label(&inst.label, buffer);
        self.generate_source(&inst.source1, buffer);
        self.generate_target(&inst.target, inst.source1.is_some(), buffer);
        self.generate_trailing_comment(&inst.comment, buffer);
        buffer.append("\r\n");
        proof {
            lemma_line_parts(
                old(buffer)@,
                indent(in_branch),
                inst@.inst.spec_mnemonic(),
                instruction_suffix(inst@),
                label_part(inst@.label),
                source_part(inst@.source1),
                target_part(inst@.target, inst@.source1 is Some),
                comment_part(inst@.comment),
                "\r\n"@,
            );
        }
    }

    /// Writes the mnemonic of an instruction with its suffix, indented
    /// inside a branch.
    pub fn generate_mnemonic(&self, inst: &AbstractInstruction, in_branch: bool, buffer: &mut String)
        ensures
            final(buffer)@ == old(buffer)@ + indent(in_branch) + inst@.inst.spec_mnemonic()
                + instruction_suffix(inst@),
    {
        if in_branch {
            buffer.append("    ");
        }
        buffer.append(inst.inst.mnemonic());
        let ghost named = buffer@;
        assert(named =~= old(buffer)@ + indent(in_branch) + inst@.inst.spec_mnemonic());
        let suffix = self.get_instruction_suffix(inst);
        buffer.append(suffix);
    }

    /// The operand-size suffix of an instruction.
    pub fn get_instruction_suffix(&self, inst: &AbstractInstruction) -> (suffix: &'static str)
        ensures
            suffix@ == instruction_suffix(inst@),
    {
        proof {
            reveal_strlit("");
        }
        assert(""@ =~= Seq::<char>::empty());
        if !inst.inst.is_data_movement() {
            return "";
        }
        let target_mode = match &inst.target {
            Some(target) => target.get_addressing_mode(),
            None => None,
        };
        let source_mode = match &inst.source1 {
            Some(source) => source.get_addressing_mode(),
            None => None,
        };
        match (target_mode, source_mode) {
            (Some(target), None) => self.get_suffix(&target),
            (None, Some(source)) => self.get_suffix(&source),
            (Some(target), Some(source)) => self.get_suffix_from_registers(&target, &source),
            (None, None) => "",
        }
    }

    fn generate_label(&self, label: &Option<String>, buffer: &mut String)
        ensures
            final(buffer)@ == old(buffer)@ + label_part(optional_text_view(*label)),
    {
        if let Some(label) = label {
            buffer.append(" ");
            buffer.append(label.as_str());
        }
        assert(buffer@ =~= old(buffer)@ + label_part(optional_text_view(*label)));
    }

    fn generate_source(&self, source: &Option<Location>, buffer: &mut String)
        ensures
            final(buffer)@ == old(buffer)@ + source_part(
                optional_location_view(*source),
            ),
    {
        if let Some(source) = source {
            self.generate_location(source, buffer);
        }
        assert(buffer@ =~= old(buffer)@ + source_part(
            optional_location_view(*source),
        ));
    }

    fn generate_target(&self, target: &Option<Location>, has_source: bool, buffer: &mut String)
        ensures
            final(buffer)@ == old(buffer)@ + target_part(
                optional_location_view(*target),
                has_source,
            ),
    {
        if let Some(target) = target {
            if has_source {
                buffer.append(",");
            }
            self.generate_location(target, buffer);
        }
        assert(buffer@ =~= old(buffer)@ + target_part(
            optional_location_view(*target),
            has_source,
        ));
    }

    fn generate_trailing_comment(&self, comment: &Option<String>, buffer: &mut String)
        ensures
            final(buffer)@ == old(buffer)@ + comment_part(
                optional_text_view(*comment),
            ),
    {
        if let Some(comment) = comment {
            buffer.append(" # ");
            buffer.append(comment.as_str());
        }
        assert(buffer@ =~= old(buffer)@ + comment_part(
            optional_text_view(*comment),
        ));
    }

    /// Writes the line of a label.
    pub fn generate_branch(&self, name: &str, buffer: &mut String)
        ensures
            final(buffer)@ == old(buffer)@ + item_text(AsmView::Branch(name@), false),
    {
        buffer.append(name);
        buffer.append(":");
        buffer.append("\r\n");
        assert(buffer@ =~= old(buffer)@ + item_text(AsmView::Branch(name@), false));
    }

    /// Writes the line of a comment, indented inside a branch.
    pub fn generate_comment(&self, name: &str, in_branch: bool, buffer: &mut String)
        ensures
            final(buffer)@ == old(buffer)@ + item_text(AsmView::Comment(name@), in_branch),
    {
        if in_branch {
            buffer.append("    ");
        }
        buffer.append("# ");
        buffer.append(name);
        buffer.append("\r\n");
        assert(buffer@ =~= old(buffer)@ + item_text(AsmView::Comment(name@), in_branch));
    }

    /// The suffix for an instruction whose only register operand is `mode`.
    pub fn get_suffix(&self, mode: &AddressingMode) -> (suffix: &'static str)
        ensures
            suffix@ == mode_suffix(*mode),
    {
        size_suffix(mode.get_register().get_register_size())
    }

    /// The suffix for an instruction with two register operands.
    pub fn get_suffix_from_registers(&self, target: &AddressingMode, source: &AddressingMode) -> (suffix:
        &'static str)
        ensures
            suffix@ == pair_suffix(*target, *source),
    {
        let target_register_size = target.get_register().get_register_size();
        let source_register_size = source.get_register().get_register_size();
        if target.is_direct_register() && source.is_direct_register() && target_register_size
            == source_register_size {
            proof {
                reveal_strlit("");
            }
            assert(""@ =~= Seq::<char>::empty());
            return "";
        }
        size_suffix(source_register_size.min(target_register_size))
    }
}

/// Parts appended to a text one after the other are the text with the
/// parts, joined, behind it.
pub proof fn lemma_line_parts(
    head: Seq<char>,
    a: Seq<char>,
    b: Seq<char>,
    c: Seq<char>,
    d: Seq<char>,
    e: Seq<char>,
    f: Seq<char>,
    g: Seq<char>,
    h: Seq<char>,
)
    ensures
        head + a + b + c + d + e + f + g + h == head + (a + b + c + d + e + f + g + h),
{
    assert(head + a + b + c + d + e + f + g + h =~= head + (a + b + c + d + e + f + g + h));
}

/// The letter that names an operand width.
pub fn size_suffix(size: RegisterSize) -> (suffix: &'static str)
    ensures
        suffix@ == suffix_text(size),
{
    match size {
        RegisterSize::_8Bit => "b",
        RegisterSize::_16Bit => "w",
        RegisterSize::_32Bit => "l",
        RegisterSize::_64Bit => "q",
    }
}

/// Where the text layers are had from.
pub struct TBSyntaxGenerator;

impl TBSyntaxGenerator {
    /// The text layer for AT&T syntax.
    pub fn get_generator() -> (generator: ATTSyntaxGenerator) {
        ATTSyntaxGenerator
    }
}

} // verus!
