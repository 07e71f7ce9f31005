//! The x86-64 general purpose registers, their widths and their families.
//!
//! A family is one physical register seen at its four widths (`RAX`, `EAX`,
//! `AX`, `AL` and, for the four legacy registers, the high byte `AH`).

use vstd::prelude::*;

verus! {

/// The width of a register or of an operand.
#[derive(Debug, Copy, Clone, PartialEq, Eq, PartialOrd, Ord, Structural)]
pub enum RegisterSize {
    _8Bit,
    _16Bit,
    _32Bit,
    _64Bit,
}

impl RegisterSize {
    /// The width in bytes.
    pub open spec fn spec_bytes(self) -> u8 {
        match self {
            RegisterSize::_8Bit => 1u8,
            RegisterSize::_16Bit => 2u8,
            RegisterSize::_32Bit => 4u8,
            RegisterSize::_64Bit => 8u8,
        }
    }

    /// The width that holds `value` bytes: 1, 2 and 4 name their widths, every
    /// other count is held in 64 bits.
    pub open spec fn spec_from_bytes(value: u8) -> RegisterSize {
        if value == 1 {
            RegisterSize::_8Bit
        } else if value == 2 {
            RegisterSize::_16Bit
        } else if value == 4 {
            RegisterSize::_32Bit
        } else {
            RegisterSize::_64Bit
        }
    }

    /// The narrower of two widths.
    pub open spec fn spec_min(self, other: RegisterSize) -> RegisterSize {
        if self.spec_bytes() <= other.spec_bytes() {
            self
        } else {
            other
        }
    }

    #[verifier::when_used_as_spec(spec_bytes)]
    pub fn bytes(self) -> (r: u8)
        ensures
            r == self.spec_bytes(),
            r == 1 || r == 2 || r == 4 || r == 8,
    {
        match self {
            RegisterSize::_8Bit => 1,
            RegisterSize::_16Bit => 2,
            RegisterSize::_32Bit => 4,
            RegisterSize::_64Bit => 8,
        }
    }

    pub fn from_bytes(value: u8) -> (r: RegisterSize)
        ensures
            r == RegisterSize::spec_from_bytes(value),
    {
        match value {
            1 => RegisterSize::_8Bit,
            2 => RegisterSize::_16Bit,
            4 => RegisterSize::_32Bit,
            _ => RegisterSize::_64Bit,
        }
    }

    pub fn min(self, other: RegisterSize) -> (r: RegisterSize)
        ensures
            r == self.spec_min(other),
    {
        if self.bytes() <= other.bytes() {
            self
        } else {
            other
        }
    }
}

/// Every width is the width of its own byte count.
pub proof fn lemma_size_round_trip(size: RegisterSize)
    ensures
        RegisterSize::spec_from_bytes(size.spec_bytes()) == size,
{
}

/// The general purpose registers at all their widths.
#[derive(Debug, Copy, Clone, PartialEq, Eq, Structural)]
pub enum Register {
    // Byte registers
    AL, BL, CL, DL, AH, BH, CH, DH, DIL, SIL, BPL, SPL, R8B, R9B, R10B, R11B, R12B, R13B, R14B,
    R15B,
    // Word registers
    AX, BX, CX, DX, DI, SI, BP, SP, R8W, R9W, R10W, R11W, R12W, R13W, R14W, R15W,
    // Doubleword registers
    EAX, EBX, ECX, EDX, ESI, EDI, EBP, ESP, R8D, R9D, R10D, R11D, R12D, R13D, R14D, R15D,
    // Quadword registers
    RAX, RBX, RCX, RDX, RSI, RDI, RBP, RSP, R8, R9, R10, R11, R12, R13, R14, R15,
}

/// One register family: the same physical register at each width.
#[derive(Debug, Copy, Clone, PartialEq, Eq, Structural)]
pub struct RegisterSizes {
    pub _64bit: Register,
    pub _32bit: Register,
    pub _16bit: Register,
    pub _8bit_low: Register,
    pub _8bit_high: Option<Register>,
}

/// The family of the given members.
pub open spec fn family(
    q: Register,
    d: Register,
    w: Register,
    low: Register,
    high: Option<Register>,
) -> RegisterSizes {
    RegisterSizes { _64bit: q, _32bit: d, _16bit: w, _8bit_low: low, _8bit_high: high }
}

impl RegisterSizes {
    /// The member of this family that has the given width (the low byte for 8 bits).
    pub open spec fn spec_sized(self, size: RegisterSize) -> Register {
        match size {
            RegisterSize::_8Bit => self._8bit_low,
            RegisterSize::_16Bit => self._16bit,
            RegisterSize::_32Bit => self._32bit,
            RegisterSize::_64Bit => self._64bit,
        }
    }

    /// Whether `register` is one of the members of this family.
    pub open spec fn has(self, register: Register) -> bool {
        ||| self._64bit == register
        ||| self._32bit == register
        ||| self._16bit == register
        ||| self._8bit_low == register
        ||| self._8bit_high == Some(register)
    }

    pub fn sized(&self, size: RegisterSize) -> (r: Register)
        ensures
            r == self.spec_sized(size),
    {
        match size {
            RegisterSize::_8Bit => self._8bit_low,
            RegisterSize::_16Bit => self._16bit,
            RegisterSize::_32Bit => self._32bit,
            RegisterSize::_64Bit => self._64bit,
        }
    }
}

impl Register {
    /// The width of this register.
    pub open spec fn spec_size(self) -> RegisterSize {
        match self {
            Register::AL | Register::BL | Register::CL | Register::DL | Register::AH
            | Register::BH | Register::CH | Register::DH | Register::DIL | Register::SIL
            | Register::BPL | Register::SPL | Register::R8B | Register::R9B | Register::R10B
            | Register::R11B | Register::R12B | Register::R13B | Register::R14B
            | Register::R15B => RegisterSize::_8Bit,
            Register::AX | Register::BX | Register::CX | Register::DX | Register::DI
            | Register::SI | Register::BP | Register::SP | Register::R8W | Register::R9W
            | Register::R10W | Register::R11W | Register::R12W | Register::R13W
            | Register::R14W | Register::R15W => RegisterSize::_16Bit,
            Register::EAX | Register::EBX | Register::ECX | Register::EDX | Register::ESI
            | Register::EDI | Register::EBP | Register::ESP | Register::R8D | Register::R9D
            | Register::R10D | Register::R11D | Register::R12D | Register::R13D
            | Register::R14D | Register::R15D => RegisterSize::_32Bit,
            Register::RAX | Register::RBX | Register::RCX | Register::RDX | Register::RSI
            | Register::RDI | Register::RBP | Register::RSP | Register::R8 | Register::R9
            | Register::R10 | Register::R11 | Register::R12 | Register::R13 | Register::R14
            | Register::R15 => RegisterSize::_64Bit,
        }
    }

    /// The family this register belongs to.
    pub open spec fn spec_info(self) -> RegisterSizes {
        match self {
            Register::RAX | Register::EAX | Register::AX | Register::AL | Register::AH =>
                family(
                    Register::RAX,
                    Register::EAX,
                    Register::AX,
                    Register::AL,
                    Some(Register::AH),
                ),
            Register::RBX | Register::EBX | Register::BX | Register::BL | Register::BH =>
                family(
                    Register::RBX,
                    Register::EBX,
                    Register::BX,
                    Register::BL,
                    Some(Register::BH),
                ),
            Register::RCX | Register::ECX | Register::CX | Register::CL | Register::CH =>
                family(
                    Register::RCX,
                    Register::ECX,
                    Register::CX,
                    Register::CL,
                    Some(Register::CH),
                ),
            Register::RDX | Register::EDX | Register::DX | Register::DL | Register::DH =>
                family(
                    Register::RDX,
                    Register::EDX,
                    Register::DX,
                    Register::DL,
                    Some(Register::DH),
                ),
            Register::RSI | Register::ESI | Register::SI | Register::SIL =>
                family(Register::RSI, Register::ESI, Register::SI, Register::SIL, None),
            Register::RDI | Register::EDI | Register::DI | Register::DIL =>
                family(Register::RDI, Register::EDI, Register::DI, Register::DIL, None),
            Register::RBP | Register::EBP | Register::BP | Register::BPL =>
                family(Register::RBP, Register::EBP, Register::BP, Register::BPL, None),
            Register::RSP | Register::ESP | Register::SP | Register::SPL =>
                family(Register::RSP, Register::ESP, Register::SP, Register::SPL, None),
            Register::R8 | Register::R8D | Register::R8W | Register::R8B =>
                family(Register::R8, Register::R8D, Register::R8W, Register::R8B, None),
            Register::R9 | Register::R9D | Register::R9W | Register::R9B =>
                family(Register::R9, Register::R9D, Register::R9W, Register::R9B, None),
            Register::R10 | Register::R10D | Register::R10W | Register::R10B =>
                family(Register::R10, Register::R10D, Register::R10W, Register::R10B, None),
            Register::R11 | Register::R11D | Register::R11W | Register::R11B =>
                family(Register::R11, Register::R11D, Register::R11W, Register::R11B, None),
            Register::R12 | Register::R12D | Register::R12W | Register::R12B =>
                family(Register::R12, Register::R12D, Register::R12W, Register::R12B, None),
            Register::R13 | Register::R13D | Register::R13W | Register::R13B =>
                family(Register::R13, Register::R13D, Register::R13W, Register::R13B, None),
            Register::R14 | Register::R14D | Register::R14W | Register::R14B =>
                family(Register::R14, Register::R14D, Register::R14W, Register::R14B, None),
            Register::R15 | Register::R15D | Register::R15W | Register::R15B =>
                family(Register::R15, Register::R15D, Register::R15W, Register::R15B, None),
        }
    }

    /// This register's family member of the given width.
    pub open spec fn spec_sized(self, size: RegisterSize) -> Register {
        self.spec_info().spec_sized(size)
    }

    /// The register's name as the assembler writes it, without the `%` sign.
    pub open spec fn spec_name(self) -> Seq<char> {
        match self {
            Register::AL => "al"@,
            Register::BL => "bl"@,
            Register::CL => "cl"@,
            Register::DL => "dl"@,
            Register::AH => "ah"@,
            Register::BH => "bh"@,
            Register::CH => "ch"@,
            Register::DH => "dh"@,
            Register::DIL => "dil"@,
            Register::SIL => "sil"@,
            Register::BPL => "bpl"@,
            Register::SPL => "spl"@,
            Register::R8B => "r8b"@,
            Register::R9B => "r9b"@,
            Register::R10B => "r10b"@,
            Register::R11B => "r11b"@,
            Register::R12B => "r12b"@,
            Register::R13B => "r13b"@,
            Register::R14B => "r14b"@,
            Register::R15B => "r15b"@,
            Register::AX => "ax"@,
            Register::BX => "bx"@,
            Register::CX => "cx"@,
            Register::DX => "dx"@,
            Register::DI => "di"@,
            Register::SI => "si"@,
            Register::BP => "bp"@,
            Register::SP => "sp"@,
            Register::R8W => "r8w"@,
            Register::R9W => "r9w"@,
            Register::R10W => "r10w"@,
            Register::R11W => "r11w"@,
            Register::R12W => "r12w"@,
            Register::R13W => "r13w"@,
            Register::R14W => "r14w"@,
            Register::R15W => "r15w"@,
            Register::EAX => "eax"@,
            Register::EBX => "ebx"@,
            Register::ECX => "ecx"@,
            Register::EDX => "edx"@,
            Register::ESI => "esi"@,
            Register::EDI => "edi"@,
            Register::EBP => "ebp"@,
            Register::ESP => "esp"@,
            Register::R8D => "r8d"@,
            Register::R9D => "r9d"@,
            Register::R10D => "r10d"@,
            Register::R11D => "r11d"@,
            Register::R12D => "r12d"@,
            Register::R13D => "r13d"@,
            Register::R14D => "r14d"@,
            Register::R15D => "r15d"@,
            Register::RAX => "rax"@,
            Register::RBX => "rbx"@,
            Register::RCX => "rcx"@,
            Register::RDX => "rdx"@,
            Register::RSI => "rsi"@,
            Register::RDI => "rdi"@,
            Register::RBP => "rbp"@,
            Register::RSP => "rsp"@,
            Register::R8 => "r8"@,
            Register::R9 => "r9"@,
            Register::R10 => "r10"@,
            Register::R11 => "r11"@,
            Register::R12 => "r12"@,
            Register::R13 => "r13"@,
            Register::R14 => "r14"@,
            Register::R15 => "r15"@,
        }
    }

    /// The family of this register.
    pub fn get_info(&self) -> (info: RegisterSizes)
        ensures
            info == self.spec_info(),
            info.has(*self),
    {
        match *self {
            Register::RAX | Register::EAX | Register::AX | Register::AL | Register::AH =>
                RegisterSizes {
                    _64bit: Register::RAX,
                    _32bit: Register::EAX,
                    _16bit: Register::AX,
                    _8bit_low: Register::AL,
                    _8bit_high: Some(Register::AH),
                },
            Register::RBX | Register::EBX | Register::BX | Register::BL | Register::BH =>
                RegisterSizes {
                    _64bit: Register::RBX,
                    _32bit: Register::EBX,
                    _16bit: Register::BX,
                    _8bit_low: Register::BL,
                    _8bit_high: Some(Register::BH),
                },
            Register::RCX | Register::ECX | Register::CX | Register::CL | Register::CH =>
                RegisterSizes {
                    _64bit: Register::RCX,
                    _32bit: Register::ECX,
                    _16bit: Register::CX,
                    _8bit_low: Register::CL,
                    _8bit_high: Some(Register::CH),
                },
            Register::RDX | Register::EDX | Register::DX | Register::DL | Register::DH =>
                RegisterSizes {
                    _64bit: Register::RDX,
                    _32bit: Register::EDX,
                    _16bit: Register::DX,
                    _8bit_low: Register::DL,
                    _8bit_high: Some(Register::DH),
                },
            Register::RSI | Register::ESI | Register::SI | Register::SIL =>
                RegisterSizes {
                    _64bit: Register::RSI,
                    _32bit: Register::ESI,
                    _16bit: Register::SI,
                    _8bit_low: Register::SIL,
                    _8bit_high: None,
                },
            Register::RDI | Register::EDI | Register::DI | Register::DIL =>
                RegisterSizes {
                    _64bit: Register::RDI,
                    _32bit: Register::EDI,
                    _16bit: Register::DI,
                    _8bit_low: Register::DIL,
                    _8bit_high: None,
                },
            Register::RBP | Register::EBP | Register::BP | Register::BPL =>
                RegisterSizes {
                    _64bit: Register::RBP,
                    _32bit: Register::EBP,
                    _16bit: Register::BP,
                    _8bit_low: Register::BPL,
                    _8bit_high: None,
                },
            Register::RSP | Register::ESP | Register::SP | Register::SPL =>
                RegisterSizes {
                    _64bit: Register::RSP,
                    _32bit: Register::ESP,
                    _16bit: Register::SP,
                    _8bit_low: Register::SPL,
                    _8bit_high: None,
                },
            Register::R8 | Register::R8D | Register::R8W | Register::R8B =>
                RegisterSizes {
                    _64bit: Register::R8,
                    _32bit: Register::R8D,
                    _16bit: Register::R8W,
                    _8bit_low: Register::R8B,
                    _8bit_high: None,
                },
            Register::R9 | Register::R9D | Register::R9W | Register::R9B =>
                RegisterSizes {
                    _64bit: Register::R9,
                    _32bit: Register::R9D,
                    _16bit: Register::R9W,
                    _8bit_low: Register::R9B,
                    _8bit_high: None,
                },
            Register::R10 | Register::R10D | Register::R10W | Register::R10B =>
                RegisterSizes {
                    _64bit: Register::R10,
                    _32bit: Register::R10D,
                    _16bit: Register::R10W,
                    _8bit_low: Register::R10B,
                    _8bit_high: None,
                },
            Register::R11 | Register::R11D | Register::R11W | Register::R11B =>
                RegisterSizes {
                    _64bit: Register::R11,
                    _32bit: Register::R11D,
                    _16bit: Register::R11W,
                    _8bit_low: Register::R11B,
                    _8bit_high: None,
                },
            Register::R12 | Register::R12D | Register::R12W | Register::R12B =>
                RegisterSizes {
                    _64bit: Register::R12,
                    _32bit: Register::R12D,
                    _16bit: Register::R12W,
                    _8bit_low: Register::R12B,
                    _8bit_high: None,
                },
            Register::R13 | Register::R13D | Register::R13W | Register::R13B =>
                RegisterSizes {
                    _64bit: Register::R13,
                    _32bit: Register::R13D,
                    _16bit: Register::R13W,
                    _8bit_low: Register::R13B,
                    _8bit_high: None,
                },
            Register::R14 | Register::R14D | Register::R14W | Register::R14B =>
                RegisterSizes {
                    _64bit: Register::R14,
                    _32bit: Register::R14D,
                    _16bit: Register::R14W,
                    _8bit_low: Register::R14B,
                    _8bit_high: None,
                },
            Register::R15 | Register::R15D | Register::R15W | Register::R15B =>
                RegisterSizes {
                    _64bit: Register::R15,
                    _32bit: Register::R15D,
                    _16bit: Register::R15W,
                    _8bit_low: Register::R15B,
                    _8bit_high: None,
                },
        }
    }

    /// The register's name as the assembler writes it, without the `%` sign.
    pub fn name(&self) -> (text: &'static str)
        ensures
            text@ == self.spec_name(),
    {
        match *self {
            Register::AL => "al",
            Register::BL => "bl",
            Register::CL => "cl",
            Register::DL => "dl",
            Register::AH => "ah",
            Register::BH => "bh",
            Register::CH => "ch",
            Register::DH => "dh",
            Register::DIL => "dil",
            Register::SIL => "sil",
            Register::BPL => "bpl",
            Register::SPL => "spl",
            Register::R8B => "r8b",
            Register::R9B => "r9b",
            Register::R10B => "r10b",
            Register::R11B => "r11b",
            Register::R12B => "r12b",
            Register::R13B => "r13b",
            Register::R14B => "r14b",
            Register::R15B => "r15b",
            Register::AX => "ax",
            Register::BX => "bx",
            Register::CX => "cx",
            Register::DX => "dx",
            Register::DI => "di",
            Register::SI => "si",
            Register::BP => "bp",
            Register::SP => "sp",
            Register::R8W => "r8w",
            Register::R9W => "r9w",
            Register::R10W => "r10w",
            Register::R11W => "r11w",
            Register::R12W => "r12w",
            Register::R13W => "r13w",
            Register::R14W => "r14w",
            Register::R15W => "r15w",
            Register::EAX => "eax",
            Register::EBX => "ebx",
            Register::ECX => "ecx",
            Register::EDX => "edx",
            Register::ESI => "esi",
            Register::EDI => "edi",
            Register::EBP => "ebp",
            Register::ESP => "esp",
            Register::R8D => "r8d",
            Register::R9D => "r9d",
            Register::R10D => "r10d",
            Register::R11D => "r11d",
            Register::R12D => "r12d",
            Register::R13D => "r13d",
            Register::R14D => "r14d",
            Register::R15D => "r15d",
            Register::RAX => "rax",
            Register::RBX => "rbx",
            Register::RCX => "rcx",
            Register::RDX => "rdx",
            Register::RSI => "rsi",
            Register::RDI => "rdi",
            Register::RBP => "rbp",
            Register::RSP => "rsp",
            Register::R8 => "r8",
            Register::R9 => "r9",
            Register::R10 => "r10",
            Register::R11 => "r11",
            Register::R12 => "r12",
            Register::R13 => "r13",
            Register::R14 => "r14",
            Register::R15 => "r15",
        }
    }
}

/// What the backend asks of the registers of a target.
pub trait RegisterTrait: Sized {
    /// The width of this register.
    spec fn register_size(&self) -> RegisterSize;

    /// The register that shares this one's place at the given width.
    spec fn resized(self, size: RegisterSize) -> Self;

    fn get_register_size(&self) -> (size: RegisterSize)
        ensures
            size == self.register_size(),
    ;

    /// The register for the given width.
    fn get_sized(self, size: RegisterSize) -> (register: Self)
        ensures
            register == self.resized(size),
            register.register_size() == size,
    ;
}

impl RegisterTrait for Register {
    open spec fn register_size(&self) -> RegisterSize {
        self.spec_size()
    }

    open spec fn resized(self, size: RegisterSize) -> Register {
        self.spec_sized(size)
    }

    fn get_register_size(&self) -> (size: RegisterSize) {
        match *self {
            Register::AL | Register::BL | Register::CL | Register::DL | Register::AH
            | Register::BH | Register::CH | Register::DH | Register::DIL | Register::SIL
            | Register::BPL | Register::SPL | Register::R8B | Register::R9B | Register::R10B
            | Register::R11B | Register::R12B | Register::R13B | Register::R14B
            | Register::R15B => RegisterSize::_8Bit,
            Register::AX | Register::BX | Register::CX | Register::DX | Register::DI
            | Register::SI | Register::BP | Register::SP | Register::R8W | Register::R9W
            | Register::R10W | Register::R11W | Register::R12W | Register::R13W
            | Register::R14W | Register::R15W => RegisterSize::_16Bit,
            Register::EAX | Register::EBX | Register::ECX | Register::EDX | Register::ESI
            | Register::EDI | Register::EBP | Register::ESP | Register::R8D | Register::R9D
            | Register::R10D | Register::R11D | Register::R12D | Register::R13D
            | Register::R14D | Register::R15D => RegisterSize::_32Bit,
            Register::RAX | Register::RBX | Register::RCX | Register::RDX | Register::RSI
            | Register::RDI | Register::RBP | Register::RSP | Register::R8 | Register::R9
            | Register::R10 | Register::R11 | Register::R12 | Register::R13 | Register::R14
            | Register::R15 => RegisterSize::_64Bit,
        }
    }

    fn get_sized(self, size: RegisterSize) -> (register: Register) {
        let info = self.get_info();
        proof {
            lemma_sized_member(self, size);
        }
        info.sized(size)
    }
}

/// The width of a register.
pub fn get_register_type(register: Register) -> (size: RegisterSize)
    ensures
        size == register.spec_size(),
{
    register.get_register_size()
}

/// Resizing a register gives the register of the asked width in the same family.
pub proof fn lemma_sized_member(register: Register, size: RegisterSize)
    ensures
        register.spec_sized(size).spec_size() == size,
        register.spec_sized(size).spec_info() == register.spec_info(),
        register.spec_info().has(register),
{
}

/// Resizing a register to its own width gives it back, except for the four
/// high-byte registers, whose 8-bit family member is the low byte.
pub proof fn lemma_sized_own_width(register: Register)
    requires
        register.spec_info()._8bit_high != Some(register),
    ensures
        register.spec_sized(register.spec_size()) == register,
{
}

} // verus!
