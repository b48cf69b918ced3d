//! The trace hook: a sink that the interpreter hands one line of text per
//! event, and that keeps the lines for the host while it is enabled.

use vstd::prelude::*;
use vstd::string::StringExecFns;
use crate::system::opcode::{arg_addr, arg_kk, arg_n, arg_x, arg_y, lemma_word_fields, Opcode};
use crate::system::text::{hex_text, push_hex};

verus! {

/// Something that can be traced: a literal text, or a value that makes its
/// text only when it is asked to, so that a disabled sink costs no formatting.
pub trait DebugSource: Sized {
    /// The text that the source stands for.
    spec fn text(&self) -> Seq<char>;

    /// Makes the text.
    fn get(self) -> (s: String)
        ensures
            s@ == self.text(),
    ;
}

impl<'a> DebugSource for &'a str {
    open spec fn text(&self) -> Seq<char> {
        (*self)@
    }

    fn get(self) -> (s: String) {
        String::from_str(self)
    }
}

/// The first trace line of a tick: the instruction word that was fetched.
pub struct FetchedWord(pub u16);

/// The text `OPCODE` and the word in hexadecimal.
pub open spec fn fetched_text(code: u16) -> Seq<char> {
    "OPCODE "@ + hex_text(code as nat)
}

impl DebugSource for FetchedWord {
    open spec fn text(&self) -> Seq<char> {
        fetched_text(self.0)
    }

    fn get(self) -> (s: String) {
        let mut s = String::from_str("OPCODE ");
        push_hex(&mut s, self.0);
        s
    }
}

/// The name of register `x`: `V` and its number in hexadecimal.
pub open spec fn register_text(x: u8) -> Seq<char> {
    "V"@ + hex_text(x as nat)
}

/// An instruction in assembler notation: its mnemonic and the values of its
/// arguments in hexadecimal.
pub open spec fn mnemonic_text(op: Opcode, code: u16) -> Seq<char> {
    let x = register_text(arg_x(code));
    let y = register_text(arg_y(code));
    let kk = hex_text(arg_kk(code) as nat);
    let addr = hex_text(arg_addr(code) as nat);
    let n = hex_text(arg_n(code) as nat);
    match op {
        Opcode::ClearScreen => "CLS"@,
        Opcode::Return => "RET"@,
        Opcode::Jump => "JP "@ + addr,
        Opcode::Call => "CALL "@ + addr,
        Opcode::SkipIfEq => "SE "@ + x + ", "@ + kk,
        Opcode::SkipIfNeq => "SNE "@ + x + ", "@ + kk,
        Opcode::SkipIfRegEq => "SE "@ + x + ", "@ + y,
        Opcode::SetReg => "LD "@ + x + ", "@ + kk,
        Opcode::SAddReg => "ADD "@ + x + ", "@ + kk,
        Opcode::MovReg => "LD "@ + x + ", "@ + y,
        Opcode::OrReg => "OR "@ + x + ", "@ + y,
        Opcode::AndReg => "AND "@ + x + ", "@ + y,
        Opcode::XorReg => "XOR "@ + x + ", "@ + y,
        Opcode::AddReg => "ADD "@ + x + ", "@ + y,
        Opcode::SubReg => "SUB "@ + x + ", "@ + y,
        Opcode::RShiftReg => "SHR "@ + x,
        Opcode::RSubReg => "SUBN "@ + x + ", "@ + y,
        Opcode::LShiftReg => "SHL "@ + x,
        Opcode::SkipIfRegNeq => "SNE "@ + x + ", "@ + y,
        Opcode::SetIndex => "LD I, "@ + addr,
        Opcode::JumpPlus => "JP V0, "@ + addr,
        Opcode::Rand => "RND "@ + x + ", "@ + kk,
        Opcode::Draw => "DRW "@ + x + ", "@ + y + ", "@ + n,
        Opcode::SkipIfKeyPressed => "SKP "@ + x,
        Opcode::SkipIfKeyNotPressed => "SKNP "@ + x,
        Opcode::GetDelay => "LD "@ + x + ", DT"@,
        Opcode::BlockGetKey => "LD "@ + x + ", K"@,
        Opcode::SetDelay => "LD DT, "@ + x,
        Opcode::SetSound => "LD ST, "@ + x,
        Opcode::AddIndex => "ADD I, "@ + x,
        Opcode::GetSprite => "LD F, "@ + x,
        Opcode::BinCoded => "LD B, "@ + x,
        Opcode::RegDump => "LD [I], "@ + x,
        Opcode::RegLoad => "LD "@ + x + ", [I]"@,
    }
}

/// Appends the name of register `x` to a text.
fn push_register(out: &mut String, x: u8)
    ensures
        final(out)@ == old(out)@ + register_text(x),
{
    out.append("V");
    push_hex(out, x as u16);
    assert(out@ =~= old(out)@ + register_text(x));
}

/// The second trace line of a tick: the instruction that was decoded.
pub struct Decoded {
    pub op: Opcode,
    pub code: u16,
}

impl Decoded {
    /// Starts a line with the mnemonic `head` and register X.
    fn with_x(&self, head: &str) -> (s: String)
        ensures
            s@ == head@ + register_text(arg_x(self.code)),
    {
        proof {
            lemma_word_fields(self.code);
        }
        let mut s = String::from_str(head);
        push_register(&mut s, ((self.code & 0x0F00) >> 8) as u8);
        s
    }

    /// A line with the mnemonic `head` and the registers X and Y.
    fn with_x_y(&self, head: &str) -> (s: String)
        ensures
            s@ == head@ + register_text(arg_x(self.code)) + ", "@ + register_text(
                arg_y(self.code),
            ),
    {
        proof {
            lemma_word_fields(self.code);
        }
        let mut s = self.with_x(head);
        s.append(", ");
        push_register(&mut s, ((self.code & 0x00F0) >> 4) as u8);
        s
    }

    /// A line with the mnemonic `head`, register X and the byte KK.
    fn with_x_kk(&self, head: &str) -> (s: String)
        ensures
            s@ == head@ + register_text(arg_x(self.code)) + ", "@ + hex_text(
                arg_kk(self.code) as nat,
            ),
    {
        proof {
            lemma_word_fields(self.code);
        }
        let mut s = self.with_x(head);
        s.append(", ");
        push_hex(&mut s, (self.code & 0x00FF) as u8 as u16);
        s
    }

    /// A line with the mnemonic `head` and the address NNN.
    fn with_addr(&self, head: &str) -> (s: String)
        ensures
            s@ == head@ + hex_text(arg_addr(self.code) as nat),
    {
        let mut s = String::from_str(head);
        push_hex(&mut s, self.code & 0x0FFF);
        s
    }
}

impl DebugSource for Decoded {
    open spec fn text(&self) -> Seq<char> {
        mnemonic_text(self.op, self.code)
    }

    fn get(self) -> (s: String) {
        match self.op {
            Opcode::ClearScreen => String::from_str("CLS"),
            Opcode::Return => String::from_str("RET"),
            Opcode::Jump => self.with_addr("JP "),
            Opcode::Call => self.with_addr("CALL "),
            Opcode::SkipIfEq => self.with_x_kk("SE "),
            Opcode::SkipIfNeq => self.with_x_kk("SNE "),
            Opcode::SkipIfRegEq => self.with_x_y("SE "),
            Opcode::SetReg => self.with_x_kk("LD "),
            Opcode::SAddReg => self.with_x_kk("ADD "),
            Opcode::MovReg => self.with_x_y("LD "),
            Opcode::OrReg => self.with_x_y("OR "),
            Opcode::AndReg => self.with_x_y("AND "),
            Opcode::XorReg => self.with_x_y("XOR "),
            Opcode::AddReg => self.with_x_y("ADD "),
            Opcode::SubReg => self.with_x_y("SUB "),
            Opcode::RShiftReg => self.with_x("SHR "),
            Opcode::RSubReg => self.with_x_y("SUBN "),
            Opcode::LShiftReg => self.with_x("SHL "),
            Opcode::SkipIfRegNeq => self.with_x_y("SNE "),
            Opcode::SetIndex => self.with_addr("LD I, "),
            Opcode::JumpPlus => self.with_addr("JP V0, "),
            Opcode::Rand => self.with_x_kk("RND "),
            Opcode::Draw => {
                proof {
                    lemma_word_fields(self.code);
                }
                let mut s = self.with_x_y("DRW ");
                s.append(", ");
                push_hex(&mut s, (self.code & 0x000F) as u8 as u16);
                s
            },
            Opcode::SkipIfKeyPressed => self.with_x("SKP "),
            Opcode::SkipIfKeyNotPressed => self.with_x("SKNP "),
            Opcode::GetDelay => {
                let mut s = self.with_x("LD ");
                s.append(", DT");
                s
            },
            Opcode::BlockGetKey => {
                let mut s = self.with_x("LD ");
                s.append(", K");
                s
            },
            Opcode::SetDelay => self.with_x("LD DT, "),
            Opcode::SetSound => self.with_x("LD ST, "),
            Opcode::AddIndex => self.with_x("ADD I, "),
            Opcode::GetSprite => self.with_x("LD F, "),
            Opcode::BinCoded => self.with_x("LD B, "),
            Opcode::RegDump => self.with_x("LD [I], "),
            Opcode::RegLoad => {
                let mut s = self.with_x("LD ");
                s.append(", [I]");
                s
            },
        }
    }
}

/// The trace sink. Disabled, it drops what it is handed without making the
/// text. Enabled, it appends each text as one line to a buffer that the
/// host empties when it pleases.
pub struct Debugger {
    enabled: bool,
    lines: Vec<String>,
}

impl Debugger {
    /// Whether the sink keeps what it is handed.
    pub closed spec fn is_enabled(&self) -> bool {
        self.enabled
    }

    /// The lines that the sink holds, oldest first.
    pub closed spec fn trace(&self) -> Seq<Seq<char>> {
        self.lines@.map_values(|line: String| line@)
    }

    /// A sink that keeps what it is handed.
    pub fn enabled() -> (d: Self)
        ensures
            d.is_enabled(),
            d.trace() == Seq::<Seq<char>>::empty(),
    {
        let d = Debugger { enabled: true, lines: Vec::new() };
        assert(d.trace() =~= Seq::<Seq<char>>::empty());
        d
    }

    /// A sink that drops what it is handed.
    pub fn disabled() -> (d: Self)
        ensures
            !d.is_enabled(),
            d.trace() == Seq::<Seq<char>>::empty(),
    {
        let d = Debugger { enabled: false, lines: Vec::new() };
        assert(d.trace() =~= Seq::<Seq<char>>::empty());
        d
    }

    /// Hands the sink one line. An enabled sink makes the text and keeps
    /// it; a disabled sink does neither.
    pub fn debug<S: DebugSource>(&mut self, s: S)
        ensures
            final(self).is_enabled() == old(self).is_enabled(),
            final(self).trace() == if old(self).is_enabled() {
                old(self).trace().push(s.text())
            } else {
                old(self).trace()
            },
    {
        if self.enabled {
            let line = s.get();
            self.lines.push(line);
            assert(self.trace() =~= old(self).trace().push(s.text()));
        }
    }

    /// Takes the lines out of the sink, oldest first, and leaves it empty.
    pub fn take(&mut self) -> (lines: Vec<String>)
        ensures
            final(self).is_enabled() == old(self).is_enabled(),
            final(self).trace() == Seq::<Seq<char>>::empty(),
            lines@.map_values(|line: String| line@) == old(self).trace(),
    {
        let mut lines = Vec::new();
        std::mem::swap(&mut self.lines, &mut lines);
        assert(self.trace() =~= Seq::<Seq<char>>::empty());
        lines
    }
}

} // verus!
