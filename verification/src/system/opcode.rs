//! The instruction set: the 35 instruction families, the mask/match rule of
//! each, the decoder and the extraction of arguments from an instruction word.

use vstd::prelude::*;

verus! {

/// One instruction family. A 16-bit word belongs to a family when the word,
/// restricted to the family's mask, equals the family's pattern.
#[derive(Clone, Copy, Debug, PartialEq, Eq, Structural)]
pub enum Opcode {
    ClearScreen,
    Return,
    Jump,
    Call,
    SkipIfEq,
    SkipIfNeq,
    SkipIfRegEq,
    SetReg,
    SAddReg,
    MovReg,
    OrReg,
    AndReg,
    XorReg,
    AddReg,
    SubReg,
    RShiftReg,
    RSubReg,
    LShiftReg,
    SkipIfRegNeq,
    SetIndex,
    JumpPlus,
    Rand,
    Draw,
    SkipIfKeyPressed,
    SkipIfKeyNotPressed,
    GetDelay,
    BlockGetKey,
    SetDelay,
    SetSound,
    AddIndex,
    GetSprite,
    BinCoded,
    RegDump,
    RegLoad,
}

/// How the bits outside a family's pattern are laid out.
#[derive(Clone, Copy, Debug, PartialEq, Eq, Structural)]
pub enum Layout {
    /// The whole word is fixed.
    Exact,
    /// `_NNN`: a 12-bit address.
    Address,
    /// `_XKK`: a register and a byte.
    RegisterByte,
    /// `_XY_`: two registers.
    RegisterPair,
    /// `_XYN`: two registers and a nibble.
    RegisterPairNibble,
    /// `_X__`: one register.
    Register,
}

/// The 12-bit address `NNN` of an instruction word.
pub open spec fn arg_addr(code: u16) -> u16 {
    code & 0x0FFF
}

/// The nibble `X` of an instruction word.
pub open spec fn arg_x(code: u16) -> u8 {
    ((code & 0x0F00) >> 8) as u8
}

/// The nibble `Y` of an instruction word.
pub open spec fn arg_y(code: u16) -> u8 {
    ((code & 0x00F0) >> 4) as u8
}

/// The nibble `N` of an instruction word.
pub open spec fn arg_n(code: u16) -> u8 {
    (code & 0x000F) as u8
}

/// The byte `KK` of an instruction word.
pub open spec fn arg_kk(code: u16) -> u8 {
    (code & 0x00FF) as u8
}

/// The masks and the argument fields of a word, as arithmetic on its value.
pub proof fn lemma_word_fields(code: u16)
    ensures
        code & 0xF000 == (code / 4096) * 4096,
        code & 0xF00F == (code / 4096) * 4096 + code % 16,
        code & 0xF0FF == (code / 4096) * 4096 + code % 256,
        arg_addr(code) == code % 4096,
        arg_x(code) == (code / 256) % 16,
        arg_y(code) == (code / 16) % 16,
        arg_n(code) == code % 16,
        arg_kk(code) == code % 256,
{
    assert(code & 0xF000 == (code / 4096) * 4096) by (bit_vector);
    assert(code & 0xF00F == (code / 4096) * 4096 + code % 16) by (bit_vector);
    assert(code & 0xF0FF == (code / 4096) * 4096 + code % 256) by (bit_vector);
    assert(code & 0x0FFF == code % 4096) by (bit_vector);
    assert((code & 0x0F00) >> 8 == (code / 256) % 16) by (bit_vector);
    assert((code & 0x00F0) >> 4 == (code / 16) % 16) by (bit_vector);
    assert(code & 0x000F == code % 16) by (bit_vector);
    assert(code & 0x00FF == code % 256) by (bit_vector);
}

/// The family that `code` belongs to, if any. No word belongs to two families
/// (`lemma_one_family`), so the order in which a decoder tries them is immaterial.
pub open spec fn family_of(code: u16) -> Option<Opcode> {
    if exists|op: Opcode| op.accepts(code) {
        Some(choose|op: Opcode| op.accepts(code))
    } else {
        None
    }
}

/// A word belongs to at most one family.
pub proof fn lemma_one_family(code: u16, a: Opcode, b: Opcode)
    requires
        a.accepts(code),
        b.accepts(code),
    ensures
        a == b,
{
    lemma_word_fields(code);
    assert(code & 0xFFFF == code) by (bit_vector);
}

/// A family that accepts a word is the word's family.
pub proof fn lemma_family_of(code: u16, op: Opcode)
    requires
        op.accepts(code),
    ensures
        family_of(code) == Some(op),
{
    let chosen = choose|o: Opcode| o.accepts(code);
    lemma_one_family(code, op, chosen);
}

impl Opcode {
    /// The bits that every word of the family carries.
    pub open spec fn pattern(self) -> u16 {
        match self {
            Opcode::ClearScreen => 0x00E0,
            Opcode::Return => 0x00EE,
            Opcode::Jump => 0x1000,
            Opcode::Call => 0x2000,
            Opcode::SkipIfEq => 0x3000,
            Opcode::SkipIfNeq => 0x4000,
            Opcode::SkipIfRegEq => 0x5000,
            Opcode::SetReg => 0x6000,
            Opcode::SAddReg => 0x7000,
            Opcode::MovReg => 0x8000,
            Opcode::OrReg => 0x8001,
            Opcode::AndReg => 0x8002,
            Opcode::XorReg => 0x8003,
            Opcode::AddReg => 0x8004,
            Opcode::SubReg => 0x8005,
            Opcode::RShiftReg => 0x8006,
            Opcode::RSubReg => 0x8007,
            Opcode::LShiftReg => 0x800E,
            Opcode::SkipIfRegNeq => 0x9000,
            Opcode::SetIndex => 0xA000,
            Opcode::JumpPlus => 0xB000,
            Opcode::Rand => 0xC000,
            Opcode::Draw => 0xD000,
            Opcode::SkipIfKeyPressed => 0xE09E,
            Opcode::SkipIfKeyNotPressed => 0xE0A1,
            Opcode::GetDelay => 0xF007,
            Opcode::BlockGetKey => 0xF00A,
            Opcode::SetDelay => 0xF015,
            Opcode::SetSound => 0xF018,
            Opcode::AddIndex => 0xF01E,
            Opcode::GetSprite => 0xF029,
            Opcode::BinCoded => 0xF033,
            Opcode::RegDump => 0xF055,
            Opcode::RegLoad => 0xF065,
        }
    }

    /// Where the family keeps its arguments.
    pub open spec fn layout(self) -> Layout {
        match self {
            Opcode::ClearScreen | Opcode::Return => Layout::Exact,
            Opcode::Jump | Opcode::Call | Opcode::SetIndex | Opcode::JumpPlus => Layout::Address,
            Opcode::SkipIfEq | Opcode::SkipIfNeq | Opcode::SetReg | Opcode::SAddReg | Opcode::Rand => {
                Layout::RegisterByte
            },
            Opcode::Draw => Layout::RegisterPairNibble,
            Opcode::SkipIfRegEq
            | Opcode::MovReg
            | Opcode::OrReg
            | Opcode::AndReg
            | Opcode::XorReg
            | Opcode::AddReg
            | Opcode::SubReg
            | Opcode::RShiftReg
            | Opcode::RSubReg
            | Opcode::LShiftReg
            | Opcode::SkipIfRegNeq => Layout::RegisterPair,
            Opcode::SkipIfKeyPressed
            | Opcode::SkipIfKeyNotPressed
            | Opcode::GetDelay
            | Opcode::BlockGetKey
            | Opcode::SetDelay
            | Opcode::SetSound
            | Opcode::AddIndex
            | Opcode::GetSprite
            | Opcode::BinCoded
            | Opcode::RegDump
            | Opcode::RegLoad => Layout::Register,
        }
    }

    /// The bits of a word that decide whether it belongs to the family.
    pub open spec fn mask(self) -> u16 {
        match self.layout() {
            Layout::Exact => 0xFFFF,
            Layout::Address | Layout::RegisterByte | Layout::RegisterPairNibble => 0xF000,
            Layout::RegisterPair => 0xF00F,
            Layout::Register => 0xF0FF,
        }
    }

    /// Whether `code` is an instruction of this family.
    pub open spec fn accepts(self, code: u16) -> bool {
        code & self.mask() == self.pattern()
    }

    /// The family's pattern.
    pub fn bits(self) -> (r: u16)
        ensures
            r == self.pattern(),
    {
        match self {
            Opcode::ClearScreen => 0x00E0,
            Opcode::Return => 0x00EE,
            Opcode::Jump => 0x1000,
            Opcode::Call => 0x2000,
            Opcode::SkipIfEq => 0x3000,
            Opcode::SkipIfNeq => 0x4000,
            Opcode::SkipIfRegEq => 0x5000,
            Opcode::SetReg => 0x6000,
            Opcode::SAddReg => 0x7000,
            Opcode::MovReg => 0x8000,
            Opcode::OrReg => 0x8001,
            Opcode::AndReg => 0x8002,
            Opcode::XorReg => 0x8003,
            Opcode::AddReg => 0x8004,
            Opcode::SubReg => 0x8005,
            Opcode::RShiftReg => 0x8006,
            Opcode::RSubReg => 0x8007,
            Opcode::LShiftReg => 0x800E,
            Opcode::SkipIfRegNeq => 0x9000,
            Opcode::SetIndex => 0xA000,
            Opcode::JumpPlus => 0xB000,
            Opcode::Rand => 0xC000,
            Opcode::Draw => 0xD000,
            Opcode::SkipIfKeyPressed => 0xE09E,
            Opcode::SkipIfKeyNotPressed => 0xE0A1,
            Opcode::GetDelay => 0xF007,
            Opcode::BlockGetKey => 0xF00A,
            Opcode::SetDelay => 0xF015,
            Opcode::SetSound => 0xF018,
            Opcode::AddIndex => 0xF01E,
            Opcode::GetSprite => 0xF029,
            Opcode::BinCoded => 0xF033,
            Opcode::RegDump => 0xF055,
            Opcode::RegLoad => 0xF065,
        }
    }

    /// The family's argument layout.
    pub fn kind(self) -> (r: Layout)
        ensures
            r == self.layout(),
    {
        match self {
            Opcode::ClearScreen | Opcode::Return => Layout::Exact,
            Opcode::Jump | Opcode::Call | Opcode::SetIndex | Opcode::JumpPlus => Layout::Address,
            Opcode::SkipIfEq | Opcode::SkipIfNeq | Opcode::SetReg | Opcode::SAddReg | Opcode::Rand => {
                Layout::RegisterByte
            },
            Opcode::Draw => Layout::RegisterPairNibble,
            Opcode::SkipIfRegEq
            | Opcode::MovReg
            | Opcode::OrReg
            | Opcode::AndReg
            | Opcode::XorReg
            | Opcode::AddReg
            | Opcode::SubReg
            | Opcode::RShiftReg
            | Opcode::RSubReg
            | Opcode::LShiftReg
            | Opcode::SkipIfRegNeq => Layout::RegisterPair,
            Opcode::SkipIfKeyPressed
            | Opcode::SkipIfKeyNotPressed
            | Opcode::GetDelay
            | Opcode::BlockGetKey
            | Opcode::SetDelay
            | Opcode::SetSound
            | Opcode::AddIndex
            | Opcode::GetSprite
            | Opcode::BinCoded
            | Opcode::RegDump
            | Opcode::RegLoad => Layout::Register,
        }
    }

    /// Tests whether `code` is an instruction of this family.
    pub fn cmp(self, code: u16) -> (r: bool)
        ensures
            r == self.accepts(code),
    {
        assert(code & 0xFFFF == code) by (bit_vector);
        match self.kind() {
            Layout::Exact => code == self.bits(),
            Layout::Address | Layout::RegisterByte | Layout::RegisterPairNibble => {
                code & 0xF000 == self.bits()
            },
            Layout::RegisterPair => code & 0xF00F == self.bits(),
            Layout::Register => code & 0xF0FF == self.bits(),
        }
    }

    /// Classifies an instruction word: the one family that accepts it, or
    /// `None` where no family does.
    pub fn decode(code: u16) -> (r: Option<Opcode>)
        ensures
            r == family_of(code),
    {
        let all = [
            Opcode::ClearScreen,
            Opcode::Return,
            Opcode::Jump,
            Opcode::Call,
            Opcode::SkipIfEq,
            Opcode::SkipIfNeq,
            Opcode::SkipIfRegEq,
            Opcode::SetReg,
            Opcode::SAddReg,
            Opcode::MovReg,
            Opcode::OrReg,
            Opcode::AndReg,
            Opcode::XorReg,
            Opcode::AddReg,
            Opcode::SubReg,
            Opcode::RShiftReg,
            Opcode::RSubReg,
            Opcode::LShiftReg,
            Opcode::SkipIfRegNeq,
            Opcode::SetIndex,
            Opcode::JumpPlus,
            Opcode::Rand,
            Opcode::Draw,
            Opcode::SkipIfKeyPressed,
            Opcode::SkipIfKeyNotPressed,
            Opcode::GetDelay,
            Opcode::BlockGetKey,
            Opcode::SetDelay,
            Opcode::SetSound,
            Opcode::AddIndex,
            Opcode::GetSprite,
            Opcode::BinCoded,
            Opcode::RegDump,
            Opcode::RegLoad,
        ];
        let mut i: usize = 0;
        while i < 34
            invariant
                i <= 34,
                all@.len() == 34,
                forall|op: Opcode| all@.contains(op),
                forall|j: int| 0 <= j < i ==> !all@[j].accepts(code),
            decreases 34 - i,
        {
            let op = all[i];
            if op.cmp(code) {
                proof {
                    lemma_family_of(code, op);
                }
                return Some(op);
            }
            i += 1;
        }
        assert forall|op: Opcode| !op.accepts(code) by {
            let j = choose|j: int| 0 <= j < 34 && all@[j] == op;
        }
        None
    }

    /// The address argument of a word of an address family.
    pub fn get_arg1_u16(self, code: u16) -> (addr: u16)
        requires
            self.layout() == Layout::Address,
        ensures
            addr == arg_addr(code),
            addr < 4096,
    {
        proof {
            lemma_word_fields(code);
        }
        code & 0x0FFF
    }

    /// The register argument of a word of a one-register family.
    pub fn get_arg1_u8(self, code: u16) -> (x: u8)
        requires
            self.layout() == Layout::Register,
        ensures
            x == arg_x(code),
            x < 16,
    {
        proof {
            lemma_word_fields(code);
        }
        ((code & 0x0F00) >> 8) as u8
    }

    /// The two arguments of a word of a register-and-byte or a two-register family.
    pub fn get_arg2(self, code: u16) -> (args: (u8, u8))
        requires
            self.layout() == Layout::RegisterByte || self.layout() == Layout::RegisterPair,
        ensures
            args.0 == arg_x(code),
            args.0 < 16,
            self.layout() == Layout::RegisterByte ==> args.1 == arg_kk(code),
            self.layout() == Layout::RegisterPair ==> args.1 == arg_y(code) && args.1 < 16,
    {
        proof {
            lemma_word_fields(code);
        }
        match self.kind() {
            Layout::RegisterByte => (((code & 0x0F00) >> 8) as u8, (code & 0x00FF) as u8),
            _ => (((code & 0x0F00) >> 8) as u8, ((code & 0x00F0) >> 4) as u8),
        }
    }

    /// The three arguments of a draw instruction.
    pub fn get_arg3(self, code: u16) -> (args: (u8, u8, u8))
        requires
            self == Opcode::Draw,
        ensures
            args.0 == arg_x(code),
            args.1 == arg_y(code),
            args.2 == arg_n(code),
            args.0 < 16,
            args.1 < 16,
            args.2 < 16,
    {
        proof {
            lemma_word_fields(code);
        }
        (((code & 0x0F00) >> 8) as u8, ((code & 0x00F0) >> 4) as u8, (code & 0x000F) as u8)
    }
}

} // verus!
