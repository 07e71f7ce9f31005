//! The instructions of the target and the normalized form in which they are
//! written out.

use vstd::prelude::*;
use crate::location::{
    clone_optional_text,
    optional_location_view,
    optional_text_view,
    Location,
    LocationView,
};

verus! {

/// The operation of an instruction, without its operands.
#[derive(Debug, Copy, Clone, PartialEq, Eq, Structural)]
pub enum X86InstructionType {
    Add,
    Sub,
    IMul,
    IDiv,
    Not,
    Neg,
    Inc,
    Dec,
    Mov,
    Lea,
    And,
    Or,
    Xor,
    Shl,
    Shr,
    Cmp,
    Jne,
    Je,
    Jnb,
    Jnbe,
    Jna,
    Jnae,
    Jmp,
    Call,
    Cdq,
    Push,
    Pop,
    Ret,
}

/// One instruction of the target with its operands.
///
/// A comparison `Cmp { left, right }` is written `cmp left, right`: it sets
/// the flags from `right - left`.
#[derive(Debug, PartialEq, Eq)]
pub enum X86Instruction {
    Add { source: Location, target: Location, comment: Option<String> },
    Sub { source: Location, target: Location, comment: Option<String> },
    IMul { source: Location, target: Location, comment: Option<String> },
    IDiv { target: Location, comment: Option<String> },
    Not { source: Location, comment: Option<String> },
    Neg { source: Location, comment: Option<String> },
    Inc { source: Location, comment: Option<String> },
    Dec { source: Location, comment: Option<String> },
    Mov { source: Location, target: Location, comment: Option<String> },
    Lea { source: Location, target: Location, comment: Option<String> },
    And { source: Location, target: Location, comment: Option<String> },
    Or { source: Location, target: Location, comment: Option<String> },
    Xor { source: Location, target: Location, comment: Option<String> },
    Shl { source: Location, target: Location, comment: Option<String> },
    Shr { source: Location, target: Location, comment: Option<String> },
    Cmp { left: Location, right: Location, comment: Option<String> },
    Jne(String),
    Je(String),
    Jnb(String),
    Jnbe(String),
    Jna(String),
    Jnae(String),
    Jmp(String),
    Call(String),
    Cdq,
    Push(Location),
    Pop(Location),
    Ret,
}

/// The normalized form of an instruction: its operation, the operand it
/// writes, up to two operands it reads, a literal label and a comment.
///
/// This is also what every `X86Instruction` stands for.
pub struct InstructionView {
    pub inst: X86InstructionType,
    pub target: Option<LocationView>,
    pub source1: Option<LocationView>,
    pub source2: Option<LocationView>,
    pub label: Option<Seq<char>>,
    pub comment: Option<Seq<char>>,
}

impl InstructionView {
    /// An instruction without operands.
    pub open spec fn plain(inst: X86InstructionType) -> InstructionView {
        InstructionView {
            inst,
            target: None,
            source1: None,
            source2: None,
            label: None,
            comment: None,
        }
    }

    /// An instruction whose only operand is a literal label.
    pub open spec fn labelled(inst: X86InstructionType, label: Seq<char>) -> InstructionView {
        InstructionView {
            inst,
            target: None,
            source1: None,
            source2: None,
            label: Some(label),
            comment: None,
        }
    }

    /// An instruction that has a single operand.
    pub open spec fn unary(
        inst: X86InstructionType,
        target: LocationView,
        comment: Option<Seq<char>>,
    ) -> InstructionView {
        InstructionView {
            inst,
            target: Some(target),
            source1: None,
            source2: None,
            label: None,
            comment,
        }
    }

    /// An instruction that reads `source` and writes `target`.
    pub open spec fn binary(
        inst: X86InstructionType,
        source: LocationView,
        target: LocationView,
        comment: Option<Seq<char>>,
    ) -> InstructionView {
        InstructionView {
            inst,
            target: Some(target),
            source1: Some(source),
            source2: None,
            label: None,
            comment,
        }
    }

    /// A move of `source` into `target`, without a comment.
    pub open spec fn mov(source: LocationView, target: LocationView) -> InstructionView {
        Self::binary(X86InstructionType::Mov, source, target, None)
    }

    /// Whether this is a jump, conditional or not.
    pub open spec fn is_jump(self) -> bool {
        self.inst.spec_is_jump()
    }
}

impl X86InstructionType {
    /// The name of the operation.
    pub open spec fn spec_name(self) -> Seq<char> {
        match self {
            X86InstructionType::Add => "Add"@,
            X86InstructionType::Sub => "Sub"@,
            X86InstructionType::IMul => "IMul"@,
            X86InstructionType::IDiv => "IDiv"@,
            X86InstructionType::Not => "Not"@,
            X86InstructionType::Neg => "Neg"@,
            X86InstructionType::Inc => "Inc"@,
            X86InstructionType::Dec => "Dec"@,
            X86InstructionType::Mov => "Mov"@,
            X86InstructionType::Lea => "Lea"@,
            X86InstructionType::And => "And"@,
            X86InstructionType::Or => "Or"@,
            X86InstructionType::Xor => "Xor"@,
            X86InstructionType::Shl => "Shl"@,
            X86InstructionType::Shr => "Shr"@,
            X86InstructionType::Cmp => "Cmp"@,
            X86InstructionType::Jne => "Jne"@,
            X86InstructionType::Je => "Je"@,
            X86InstructionType::Jnb => "Jnb"@,
            X86InstructionType::Jnbe => "Jnbe"@,
            X86InstructionType::Jna => "Jna"@,
            X86InstructionType::Jnae => "Jnae"@,
            X86InstructionType::Jmp => "Jmp"@,
            X86InstructionType::Call => "Call"@,
            X86InstructionType::Cdq => "Cdq"@,
            X86InstructionType::Push => "Push"@,
            X86InstructionType::Pop => "Pop"@,
            X86InstructionType::Ret => "Ret"@,
        }
    }

    /// The name of the operation as the assembler reads it.
    pub open spec fn spec_mnemonic(self) -> Seq<char> {
        match self {
            X86InstructionType::Add => "add"@,
            X86InstructionType::Sub => "sub"@,
            X86InstructionType::IMul => "imul"@,
            X86InstructionType::IDiv => "idiv"@,
            X86InstructionType::Not => "not"@,
            X86InstructionType::Neg => "neg"@,
            X86InstructionType::Inc => "inc"@,
            X86InstructionType::Dec => "dec"@,
            X86InstructionType::Mov => "mov"@,
            X86InstructionType::Lea => "lea"@,
            X86InstructionType::And => "and"@,
            X86InstructionType::Or => "or"@,
            X86InstructionType::Xor => "xor"@,
            X86InstructionType::Shl => "shl"@,
            X86InstructionType::Shr => "shr"@,
            X86InstructionType::Cmp => "cmp"@,
            X86InstructionType::Jne => "jne"@,
            X86InstructionType::Je => "je"@,
            X86InstructionType::Jnb => "jnb"@,
            X86InstructionType::Jnbe => "jnbe"@,
            X86InstructionType::Jna => "jna"@,
            X86InstructionType::Jnae => "jnae"@,
            X86InstructionType::Jmp => "jmp"@,
            X86InstructionType::Call => "call"@,
            X86InstructionType::Cdq => "cdq"@,
            X86InstructionType::Push => "push"@,
            X86InstructionType::Pop => "pop"@,
            X86InstructionType::Ret => "ret"@,
        }
    }

    /// Data movement takes an operand-size suffix; every other operation has
    /// its width fixed by its register operand.
    pub open spec fn spec_is_data_movement(self) -> bool {
        ||| self is Mov
        ||| self is Lea
        ||| self is Push
        ||| self is Pop
    }

    /// Whether the operation is a jump, conditional or not.
    pub open spec fn spec_is_jump(self) -> bool {
        ||| self is Jne
        ||| self is Je
        ||| self is Jnb
        ||| self is Jnbe
        ||| self is Jna
        ||| self is Jnae
        ||| self is Jmp
    }

    pub fn name(&self) -> (text: &'static str)
        ensures
            text@ == self.spec_name(),
    {
        match self {
            X86InstructionType::Add => "Add",
            X86InstructionType::Sub => "Sub",
            X86InstructionType::IMul => "IMul",
            X86InstructionType::IDiv => "IDiv",
            X86InstructionType::Not => "Not",
            X86InstructionType::Neg => "Neg",
            X86InstructionType::Inc => "Inc",
            X86InstructionType::Dec => "Dec",
            X86InstructionType::Mov => "Mov",
            X86InstructionType::Lea => "Lea",
            X86InstructionType::And => "And",
            X86InstructionType::Or => "Or",
            X86InstructionType::Xor => "Xor",
            X86InstructionType::Shl => "Shl",
            X86InstructionType::Shr => "Shr",
            X86InstructionType::Cmp => "Cmp",
            X86InstructionType::Jne => "Jne",
            X86InstructionType::Je => "Je",
            X86InstructionType::Jnb => "Jnb",
            X86InstructionType::Jnbe => "Jnbe",
            X86InstructionType::Jna => "Jna",
            X86InstructionType::Jnae => "Jnae",
            X86InstructionType::Jmp => "Jmp",
            X86InstructionType::Call => "Call",
            X86InstructionType::Cdq => "Cdq",
            X86InstructionType::Push => "Push",
            X86InstructionType::Pop => "Pop",
            X86InstructionType::Ret => "Ret",
        }
    }

    pub fn mnemonic(&self) -> (text: &'static str)
        ensures
            text@ == self.spec_mnemonic(),
    {
        match self {
            X86InstructionType::Add => "add",
            X86InstructionType::Sub => "sub",
            X86InstructionType::IMul => "imul",
            X86InstructionType::IDiv => "idiv",
            X86InstructionType::Not => "not",
            X86InstructionType::Neg => "neg",
            X86InstructionType::Inc => "inc",
            X86InstructionType::Dec => "dec",
            X86InstructionType::Mov => "mov",
            X86InstructionType::Lea => "lea",
            X86InstructionType::And => "and",
            X86InstructionType::Or => "or",
            X86InstructionType::Xor => "xor",
            X86InstructionType::Shl => "shl",
            X86InstructionType::Shr => "shr",
            X86InstructionType::Cmp => "cmp",
            X86InstructionType::Jne => "jne",
            X86InstructionType::Je => "je",
            X86InstructionType::Jnb => "jnb",
            X86InstructionType::Jnbe => "jnbe",
            X86InstructionType::Jna => "jna",
            X86InstructionType::Jnae => "jnae",
            X86InstructionType::Jmp => "jmp",
            X86InstructionType::Call => "call",
            X86InstructionType::Cdq => "cdq",
            X86InstructionType::Push => "push",
            X86InstructionType::Pop => "pop",
            X86InstructionType::Ret => "ret",
        }
    }

    pub fn is_data_movement(&self) -> (moves: bool)
        ensures
            moves == self.spec_is_data_movement(),
    {
        match self {
            X86InstructionType::Mov
            | X86InstructionType::Lea
            | X86InstructionType::Push
            | X86InstructionType::Pop => true,
            _ => false,
        }
    }

    pub fn is_jump(&self) -> (jump: bool)
        ensures
            jump == self.spec_is_jump(),
    {
        match self {
            X86InstructionType::Jne
            | X86InstructionType::Je
            | X86InstructionType::Jnb
            | X86InstructionType::Jnbe
            | X86InstructionType::Jna
            | X86InstructionType::Jnae
            | X86InstructionType::Jmp => true,
            _ => false,
        }
    }
}

impl View for X86Instruction {
    type V = InstructionView;

    open spec fn view(&self) -> InstructionView {
        match self {
            X86Instruction::Add { source, target, comment } =>
                InstructionView::binary(
                    X86InstructionType::Add,
                    source@,
                    target@,
                    optional_text_view(*comment),
                ),
            X86Instruction::Sub { source, target, comment } =>
                InstructionView::binary(
                    X86InstructionType::Sub,
                    source@,
                    target@,
                    optional_text_view(*comment),
                ),
            X86Instruction::IMul { source, target, comment } =>
                InstructionView::binary(
                    X86InstructionType::IMul,
                    source@,
                    target@,
                    optional_text_view(*comment),
                ),
            X86Instruction::IDiv { target, comment } =>
                InstructionView::unary(
                    X86InstructionType::IDiv,
                    target@,
                    optional_text_view(*comment),
                ),
            X86Instruction::Not { source, comment } =>
                InstructionView::unary(
                    X86InstructionType::Not,
                    source@,
                    optional_text_view(*comment),
                ),
            X86Instruction::Neg { source, comment } =>
                InstructionView::unary(
                    X86InstructionType::Neg,
                    source@,
                    optional_text_view(*comment),
                ),
            X86Instruction::Inc { source, comment } =>
                InstructionView::unary(
                    X86InstructionType::Inc,
                    source@,
                    optional_text_view(*comment),
                ),
            X86Instruction::Dec { source, comment } =>
                InstructionView::unary(
                    X86InstructionType::Dec,
                    source@,
                    optional_text_view(*comment),
                ),
            X86Instruction::Mov { source, target, comment } =>
                InstructionView::binary(
                    X86InstructionType::Mov,
                    source@,
                    target@,
                    optional_text_view(*comment),
                ),
            X86Instruction::Lea { source, target, comment } =>
                InstructionView::binary(
                    X86InstructionType::Lea,
                    source@,
                    target@,
                    optional_text_view(*comment),
                ),
            X86Instruction::And { source, target, comment } =>
                InstructionView::binary(
                    X86InstructionType::And,
                    source@,
                    target@,
                    optional_text_view(*comment),
                ),
            X86Instruction::Or { source, target, comment } =>
                InstructionView::binary(
                    X86InstructionType::Or,
                    source@,
                    target@,
                    optional_text_view(*comment),
                ),
            X86Instruction::Xor { source, target, comment } =>
                InstructionView::binary(
                    X86InstructionType::Xor,
                    source@,
                    target@,
                    optional_text_view(*comment),
                ),
            X86Instruction::Shl { source, target, comment } =>
                InstructionView::binary(
                    X86InstructionType::Shl,
                    source@,
                    target@,
                    optional_text_view(*comment),
                ),
            X86Instruction::Shr { source, target, comment } =>
                InstructionView::binary(
                    X86InstructionType::Shr,
                    source@,
                    target@,
                    optional_text_view(*comment),
                ),
            X86Instruction::Cmp { left, right, comment } =>
                InstructionView::binary(
                    X86InstructionType::Cmp,
                    left@,
                    right@,
                    optional_text_view(*comment),
                ),
            X86Instruction::Jne(
                label) => InstructionView::labelled(X86InstructionType::Jne,
                label@,
            ),
            X86Instruction::Je(label) => InstructionView::labelled(X86InstructionType::Je, label@),
            X86Instruction::Jnb(
                label) => InstructionView::labelled(X86InstructionType::Jnb,
                label@,
            ),
            X86Instruction::Jnbe(
                label) => InstructionView::labelled(X86InstructionType::Jnbe,
                label@,
            ),
            X86Instruction::Jna(
                label) => InstructionView::labelled(X86InstructionType::Jna,
                label@,
            ),
            X86Instruction::Jnae(
                label) => InstructionView::labelled(X86InstructionType::Jnae,
                label@,
            ),
            X86Instruction::Jmp(
                label) => InstructionView::labelled(X86InstructionType::Jmp,
                label@,
            ),
            X86Instruction::Call(
                label) => InstructionView::labelled(X86InstructionType::Call,
                label@,
            ),
            X86Instruction::Cdq => InstructionView::plain(X86InstructionType::Cdq),
            X86Instruction::Push(
                target) => InstructionView::unary(X86InstructionType::Push,
                target@,
                None,
            ),
            X86Instruction::Pop(
                target) => InstructionView::unary(X86InstructionType::Pop,
                target@,
                None,
            ),
            X86Instruction::Ret => InstructionView::plain(X86InstructionType::Ret),
        }
    }
}

impl Clone for X86Instruction {
    fn clone(&self) -> (copy: Self)
        ensures
            copy == *self,
    {
        match self {
            X86Instruction::Add { source, target, comment } => X86Instruction::Add {
                source: source.clone(),
                target: target.clone(),
                comment: clone_optional_text(comment),
            },
            X86Instruction::Sub { source, target, comment } => X86Instruction::Sub {
                source: source.clone(),
                target: target.clone(),
                comment: clone_optional_text(comment),
            },
            X86Instruction::IMul { source, target, comment } => X86Instruction::IMul {
                source: source.clone(),
                target: target.clone(),
                comment: clone_optional_text(comment),
            },
            X86Instruction::IDiv { target, comment } => X86Instruction::IDiv {
                target: target.clone(),
                comment: clone_optional_text(comment),
            },
            X86Instruction::Not { source, comment } => X86Instruction::Not {
                source: source.clone(),
                comment: clone_optional_text(comment),
            },
            X86Instruction::Neg { source, comment } => X86Instruction::Neg {
                source: source.clone(),
                comment: clone_optional_text(comment),
            },
            X86Instruction::Inc { source, comment } => X86Instruction::Inc {
                source: source.clone(),
                comment: clone_optional_text(comment),
            },
            X86Instruction::Dec { source, comment } => X86Instruction::Dec {
                source: source.clone(),
                comment: clone_optional_text(comment),
            },
            X86Instruction::Mov { source, target, comment } => X86Instruction::Mov {
                source: source.clone(),
                target: target.clone(),
                comment: clone_optional_text(comment),
            },
            X86Instruction::Lea { source, target, comment } => X86Instruction::Lea {
                source: source.clone(),
                target: target.clone(),
                comment: clone_optional_text(comment),
            },
            X86Instruction::And { source, target, comment } => X86Instruction::And {
                source: source.clone(),
                target: target.clone(),
                comment: clone_optional_text(comment),
            },
            X86Instruction::Or { source, target, comment } => X86Instruction::Or {
                source: source.clone(),
                target: target.clone(),
                comment: clone_optional_text(comment),
            },
            X86Instruction::Xor { source, target, comment } => X86Instruction::Xor {
                source: source.clone(),
                target: target.clone(),
                comment: clone_optional_text(comment),
            },
            X86Instruction::Shl { source, target, comment } => X86Instruction::Shl {
                source: source.clone(),
                target: target.clone(),
                comment: clone_optional_text(comment),
            },
            X86Instruction::Shr { source, target, comment } => X86Instruction::Shr {
                source: source.clone(),
                target: target.clone(),
                comment: clone_optional_text(comment),
            },
            X86Instruction::Cmp { left, right, comment } => X86Instruction::Cmp {
                left: left.clone(),
                right: right.clone(),
                comment: clone_optional_text(comment),
            },
            X86Instruction::Jne(label) => X86Instruction::Jne(label.clone()),
            X86Instruction::Je(label) => X86Instruction::Je(label.clone()),
            X86Instruction::Jnb(label) => X86Instruction::Jnb(label.clone()),
            X86Instruction::Jnbe(label) => X86Instruction::Jnbe(label.clone()),
            X86Instruction::Jna(label) => X86Instruction::Jna(label.clone()),
            X86Instruction::Jnae(label) => X86Instruction::Jnae(label.clone()),
            X86Instruction::Jmp(label) => X86Instruction::Jmp(label.clone()),
            X86Instruction::Call(label) => X86Instruction::Call(label.clone()),
            X86Instruction::Cdq => X86Instruction::Cdq,
            X86Instruction::Push(target) => X86Instruction::Push(target.clone()),
            X86Instruction::Pop(target) => X86Instruction::Pop(target.clone()),
            X86Instruction::Ret => X86Instruction::Ret,
        }
    }
}

/// The normalized form of an instruction, as the text layer reads it.
#[derive(Debug, PartialEq, Eq)]
pub struct AbstractInstruction {
    pub inst: X86InstructionType,
    pub target: Option<Location>,
    pub source1: Option<Location>,
    pub source2: Option<Location>,
    pub label: Option<String>,
    pub comment: Option<String>,
}

impl View for AbstractInstruction {
    type V = InstructionView;

    open spec fn view(&self) -> InstructionView {
        InstructionView {
            inst: self.inst,
            target: optional_location_view(self.target),
            source1: optional_location_view(self.source1),
            source2: optional_location_view(self.source2),
            label: optional_text_view(self.label),
            comment: optional_text_view(self.comment),
        }
    }
}

impl AbstractInstruction {
    pub fn simple(inst: X86InstructionType) -> (r: Self)
        ensures
            r@ == InstructionView::plain(inst),
    {
        Self { inst, target: None, source1: None, source2: None, comment: None, label: None }
    }

    pub fn label(inst: X86InstructionType, label: String) -> (r: Self)
        ensures
            r@ == InstructionView::labelled(inst, label@),
    {
        Self { inst, target: None, source1: None, source2: None, comment: None, label: Some(label) }
    }

    pub fn simple_with_comment(inst: X86InstructionType, comment: Option<String>) -> (r: Self)
        ensures
            r@ == (InstructionView { comment: optional_text_view(comment), ..InstructionView::plain(inst) }),
    {
        Self { inst, target: None, source1: None, source2: None, comment, label: None }
    }

    pub fn target(inst: X86InstructionType, target: Location) -> (r: Self)
        ensures
            r@ == InstructionView::unary(inst, target@, None),
    {
        Self {
            inst,
            target: Some(target),
            source1: None,
            source2: None,
            comment: None,
            label: None,
        }
    }

    pub fn target_with_comment(
        inst: X86InstructionType,
        target: Location,
        comment: Option<String>,
    ) -> (r: Self)
        ensures
            r@ == InstructionView::unary(inst, target@, optional_text_view(comment)),
    {
        Self { inst, target: Some(target), source1: None, source2: None, comment, label: None }
    }

    pub fn target_source(inst: X86InstructionType, target: Location, source: Location) -> (r: Self)
        ensures
            r@ == InstructionView::binary(inst, source@, target@, None),
    {
        Self {
            inst,
            target: Some(target),
            source1: Some(source),
            source2: None,
            comment: None,
            label: None,
        }
    }

    pub fn target_source_with_comment(
        inst: X86InstructionType,
        target: Location,
        source: Location,
        comment: Option<String>,
    ) -> (r: Self)
        ensures
            r@ == InstructionView::binary(inst, source@, target@, optional_text_view(comment)),
    {
        Self {
            inst,
            target: Some(target),
            source1: Some(source),
            source2: None,
            comment,
            label: None,
        }
    }

    pub fn target_source2(
        inst: X86InstructionType,
        target: Location,
        source1: Location,
        source2: Location,
    ) -> (r: Self)
        ensures
            r@ == (InstructionView {
                source2: Some(source2@),
                ..InstructionView::binary(inst, source1@, target@, None)
            }),
    {
        Self {
            inst,
            target: Some(target),
            source1: Some(source1),
            source2: Some(source2),
            comment: None,
            label: None,
        }
    }

    pub fn target_source2_with_comment(
        inst: X86InstructionType,
        target: Location,
        source1: Location,
        source2: Location,
        comment: Option<String>,
    ) -> (r: Self)
        ensures
            r@ == (InstructionView {
                source2: Some(source2@),
                ..InstructionView::binary(inst, source1@, target@, optional_text_view(comment))
            }),
    {
        Self {
            inst,
            target: Some(target),
            source1: Some(source1),
            source2: Some(source2),
            comment,
            label: None,
        }
    }
}

impl X86Instruction {
    /// The operation of this instruction.
    pub open spec fn spec_instruction_type(&self) -> X86InstructionType {
        self@.inst
    }

    pub fn instruction_type(&self) -> (kind: X86InstructionType)
        ensures
            kind == self.spec_instruction_type(),
    {
        match self {
            X86Instruction::Add { .. } => X86InstructionType::Add,
            X86Instruction::Sub { .. } => X86InstructionType::Sub,
            X86Instruction::IMul { .. } => X86InstructionType::IMul,
            X86Instruction::IDiv { .. } => X86InstructionType::IDiv,
            X86Instruction::Not { .. } => X86InstructionType::Not,
            X86Instruction::Neg { .. } => X86InstructionType::Neg,
            X86Instruction::Inc { .. } => X86InstructionType::Inc,
            X86Instruction::Dec { .. } => X86InstructionType::Dec,
            X86Instruction::Mov { .. } => X86InstructionType::Mov,
            X86Instruction::Lea { .. } => X86InstructionType::Lea,
            X86Instruction::And { .. } => X86InstructionType::And,
            X86Instruction::Or { .. } => X86InstructionType::Or,
            X86Instruction::Xor { .. } => X86InstructionType::Xor,
            X86Instruction::Shl { .. } => X86InstructionType::Shl,
            X86Instruction::Shr { .. } => X86InstructionType::Shr,
            X86Instruction::Cmp { .. } => X86InstructionType::Cmp,
            X86Instruction::Jne(_) => X86InstructionType::Jne,
            X86Instruction::Je(_) => X86InstructionType::Je,
            X86Instruction::Jnb(_) => X86InstructionType::Jnb,
            X86Instruction::Jnbe(_) => X86InstructionType::Jnbe,
            X86Instruction::Jna(_) => X86InstructionType::Jna,
            X86Instruction::Jnae(_) => X86InstructionType::Jnae,
            X86Instruction::Jmp(_) => X86InstructionType::Jmp,
            X86Instruction::Call(_) => X86InstructionType::Call,
            X86Instruction::Cdq => X86InstructionType::Cdq,
            X86Instruction::Push(_) => X86InstructionType::Push,
            X86Instruction::Pop(_) => X86InstructionType::Pop,
            X86Instruction::Ret => X86InstructionType::Ret,
        }
    }

    /// The normalized form: the operand written is the target, the operand
    /// read is the first source; of a comparison `left` is read and `right`
    /// is in the place of the target.
    pub fn convert(self) -> (r: AbstractInstruction)
        ensures
            r@ == self@,
    {
        match self {
            X86Instruction::Add { source, target, comment } =>
                AbstractInstruction::target_source_with_comment(
                    X86InstructionType::Add,
                    target,
                    source,
                    comment,
                ),
            X86Instruction::Sub { source, target, comment } =>
                AbstractInstruction::target_source_with_comment(
                    X86InstructionType::Sub,
                    target,
                    source,
                    comment,
                ),
            X86Instruction::IMul { source, target, comment } =>
                AbstractInstruction::target_source_with_comment(
                    X86InstructionType::IMul,
                    target,
                    source,
                    comment,
                ),
            X86Instruction::IDiv { target, comment } =>
                AbstractInstruction::target_with_comment(X86InstructionType::IDiv, target, comment),
            X86Instruction::Not { source, comment } =>
                AbstractInstruction::target_with_comment(X86InstructionType::Not, source, comment),
            X86Instruction::Neg { source, comment } =>
                AbstractInstruction::target_with_comment(X86InstructionType::Neg, source, comment),
            X86Instruction::Inc { source, comment } =>
                AbstractInstruction::target_with_comment(X86InstructionType::Inc, source, comment),
            X86Instruction::Dec { source, comment } =>
                AbstractInstruction::target_with_comment(X86InstructionType::Dec, source, comment),
            X86Instruction::Mov { source, target, comment } =>
                AbstractInstruction::target_source_with_comment(
                    X86InstructionType::Mov,
                    target,
                    source,
                    comment,
                ),
            X86Instruction::Lea { source, target, comment } =>
                AbstractInstruction::target_source_with_comment(
                    X86InstructionType::Lea,
                    target,
                    source,
                    comment,
                ),
            X86Instruction::And { source, target, comment } =>
                AbstractInstruction::target_source_with_comment(
                    X86InstructionType::And,
                    target,
                    source,
                    comment,
                ),
            X86Instruction::Or { source, target, comment } =>
                AbstractInstruction::target_source_with_comment(
                    X86InstructionType::Or,
                    target,
                    source,
                    comment,
                ),
            X86Instruction::Xor { source, target, comment } =>
                AbstractInstruction::target_source_with_comment(
                    X86InstructionType::Xor,
                    target,
                    source,
                    comment,
                ),
            X86Instruction::Shl { source, target, comment } =>
                AbstractInstruction::target_source_with_comment(
                    X86InstructionType::Shl,
                    target,
                    source,
                    comment,
                ),
            X86Instruction::Shr { source, target, comment } =>
                AbstractInstruction::target_source_with_comment(
                    X86InstructionType::Shr,
                    target,
                    source,
                    comment,
                ),
            X86Instruction::Cmp { left, right, comment } =>
                AbstractInstruction::target_source_with_comment(
                    X86InstructionType::Cmp,
                    right,
                    left,
                    comment,
                ),
            X86Instruction::Jne(
                label) => AbstractInstruction::label(X86InstructionType::Jne,
                label,
            ),
            X86Instruction::Je(label) => AbstractInstruction::label(X86InstructionType::Je, label),
            X86Instruction::Jnb(
                label) => AbstractInstruction::label(X86InstructionType::Jnb,
                label,
            ),
            X86Instruction::Jnbe(
                label) => AbstractInstruction::label(X86InstructionType::Jnbe,
                label,
            ),
            X86Instruction::Jna(
                label) => AbstractInstruction::label(X86InstructionType::Jna,
                label,
            ),
            X86Instruction::Jnae(
                label) => AbstractInstruction::label(X86InstructionType::Jnae,
                label,
            ),
            X86Instruction::Jmp(
                label) => AbstractInstruction::label(X86InstructionType::Jmp,
                label,
            ),
            X86Instruction::Call(
                label) => AbstractInstruction::label(X86InstructionType::Call,
                label,
            ),
            X86Instruction::Cdq => AbstractInstruction::simple(X86InstructionType::Cdq),
            X86Instruction::Push(
                target) => AbstractInstruction::target(X86InstructionType::Push,
                target,
            ),
            X86Instruction::Pop(
                target) => AbstractInstruction::target(X86InstructionType::Pop,
                target,
            ),
            X86Instruction::Ret => AbstractInstruction::simple(X86InstructionType::Ret),
        }
    }

    pub fn name(&self) -> (text: &'static str)
        ensures
            text@ == self.spec_instruction_type().spec_name(),
    {
        self.instruction_type().name()
    }
}

} // verus!
