//! The assembly language of the target machine: address instructions,
//! compute instructions and label declarations, and the text of each.

use vstd::prelude::*;
use vstd::string::*;
use crate::text::{decimal, to_decimal};

verus! {

/// A memory cell that the assembler knows by name.
#[derive(Clone, Copy, Debug, PartialEq, Eq, Structural)]
pub enum Register {
    SP,
    LCL,
    ARG,
    THIS,
    THAT,
    R13,
}

impl Register {
    /// The address of the cell.
    pub open spec fn address(self) -> u16 {
        match self {
            Register::SP => 0,
            Register::LCL => 1,
            Register::ARG => 2,
            Register::THIS => 3,
            Register::THAT => 4,
            Register::R13 => 13,
        }
    }

    /// The name of the cell in assembly text.
    pub open spec fn name(self) -> Seq<char> {
        match self {
            Register::SP => "SP"@,
            Register::LCL => "LCL"@,
            Register::ARG => "ARG"@,
            Register::THIS => "THIS"@,
            Register::THAT => "THAT"@,
            Register::R13 => "R13"@,
        }
    }

    /// The name of the cell in assembly text.
    pub fn mnemonic(self) -> (t: &'static str)
        ensures
            t@ == self.name(),
    {
        match self {
            Register::SP => "SP",
            Register::LCL => "LCL",
            Register::ARG => "ARG",
            Register::THIS => "THIS",
            Register::THAT => "THAT",
            Register::R13 => "R13",
        }
    }
}

/// Where a compute instruction stores its value.
#[derive(Clone, Copy, Debug, PartialEq, Eq, Structural)]
pub enum Dest {
    Null,
    M,
    D,
    MD,
    A,
    AM,
    AD,
    AMD,
}

impl Dest {
    /// Whether the value is stored in the address register.
    pub open spec fn writes_a(self) -> bool {
        self == Dest::A || self == Dest::AM || self == Dest::AD || self == Dest::AMD
    }

    /// Whether the value is stored in the data register.
    pub open spec fn writes_d(self) -> bool {
        self == Dest::D || self == Dest::MD || self == Dest::AD || self == Dest::AMD
    }

    /// Whether the value is stored in the addressed memory cell.
    pub open spec fn writes_m(self) -> bool {
        self == Dest::M || self == Dest::MD || self == Dest::AM || self == Dest::AMD
    }

    /// The destination part of an instruction's text, with its `=`.
    pub open spec fn text(self) -> Seq<char> {
        match self {
            Dest::Null => ""@,
            Dest::M => "M="@,
            Dest::D => "D="@,
            Dest::MD => "MD="@,
            Dest::A => "A="@,
            Dest::AM => "AM="@,
            Dest::AD => "AD="@,
            Dest::AMD => "AMD="@,
        }
    }

    /// The destination part of an instruction's text, with its `=`.
    pub fn mnemonic(self) -> (t: &'static str)
        ensures
            t@ == self.text(),
    {
        match self {
            Dest::Null => "",
            Dest::M => "M=",
            Dest::D => "D=",
            Dest::MD => "MD=",
            Dest::A => "A=",
            Dest::AM => "AM=",
            Dest::AD => "AD=",
            Dest::AMD => "AMD=",
        }
    }
}

/// What a compute instruction computes.
#[derive(Clone, Copy, Debug, PartialEq, Eq, Structural)]
pub enum Comp {
    Zero,
    One,
    MinusOne,
    D,
    A,
    M,
    NotD,
    NotA,
    NotM,
    NegD,
    NegA,
    NegM,
    DPlusOne,
    APlusOne,
    MPlusOne,
    DMinusOne,
    AMinusOne,
    MMinusOne,
    DPlusA,
    DPlusM,
    DMinusA,
    DMinusM,
    AMinusD,
    MMinusD,
    DAndA,
    DAndM,
    DOrA,
    DOrM,
}

/// The sixteen-bit word that stands for the integer `v`.
pub open spec fn wrap(v: int) -> u16 {
    (v % 0x10000) as u16
}

impl Comp {
    /// The computed word, given the address register, the data register and
    /// the addressed memory cell. Arithmetic wraps around at sixteen bits.
    pub open spec fn value(self, a: u16, d: u16, m: u16) -> u16 {
        match self {
            Comp::Zero => 0,
            Comp::One => 1,
            Comp::MinusOne => 0xFFFF,
            Comp::D => d,
            Comp::A => a,
            Comp::M => m,
            Comp::NotD => !d,
            Comp::NotA => !a,
            Comp::NotM => !m,
            Comp::NegD => wrap(-d),
            Comp::NegA => wrap(-a),
            Comp::NegM => wrap(-m),
            Comp::DPlusOne => wrap(d + 1),
            Comp::APlusOne => wrap(a + 1),
            Comp::MPlusOne => wrap(m + 1),
            Comp::DMinusOne => wrap(d - 1),
            Comp::AMinusOne => wrap(a - 1),
            Comp::MMinusOne => wrap(m - 1),
            Comp::DPlusA => wrap(d + a),
            Comp::DPlusM => wrap(d + m),
            Comp::DMinusA => wrap(d - a),
            Comp::DMinusM => wrap(d - m),
            Comp::AMinusD => wrap(a - d),
            Comp::MMinusD => wrap(m - d),
            Comp::DAndA => d & a,
            Comp::DAndM => d & m,
            Comp::DOrA => d | a,
            Comp::DOrM => d | m,
        }
    }

    /// The computation part of an instruction's text.
    pub open spec fn text(self) -> Seq<char> {
        match self {
            Comp::Zero => "0"@,
            Comp::One => "1"@,
            Comp::MinusOne => "-1"@,
            Comp::D => "D"@,
            Comp::A => "A"@,
            Comp::M => "M"@,
            Comp::NotD => "!D"@,
            Comp::NotA => "!A"@,
            Comp::NotM => "!M"@,
            Comp::NegD => "-D"@,
            Comp::NegA => "-A"@,
            Comp::NegM => "-M"@,
            Comp::DPlusOne => "D+1"@,
            Comp::APlusOne => "A+1"@,
            Comp::MPlusOne => "M+1"@,
            Comp::DMinusOne => "D-1"@,
            Comp::AMinusOne => "A-1"@,
            Comp::MMinusOne => "M-1"@,
            Comp::DPlusA => "D+A"@,
            Comp::DPlusM => "D+M"@,
            Comp::DMinusA => "D-A"@,
            Comp::DMinusM => "D-M"@,
            Comp::AMinusD => "A-D"@,
            Comp::MMinusD => "M-D"@,
            Comp::DAndA => "D&A"@,
            Comp::DAndM => "D&M"@,
            Comp::DOrA => "D|A"@,
            Comp::DOrM => "D|M"@,
        }
    }

    /// The computation part of an instruction's text.
    pub fn mnemonic(self) -> (t: &'static str)
        ensures
            t@ == self.text(),
    {
        match self {
            Comp::Zero => "0",
            Comp::One => "1",
            Comp::MinusOne => "-1",
            Comp::D => "D",
            Comp::A => "A",
            Comp::M => "M",
            Comp::NotD => "!D",
            Comp::NotA => "!A",
            Comp::NotM => "!M",
            Comp::NegD => "-D",
            Comp::NegA => "-A",
            Comp::NegM => "-M",
            Comp::DPlusOne => "D+1",
            Comp::APlusOne => "A+1",
            Comp::MPlusOne => "M+1",
            Comp::DMinusOne => "D-1",
            Comp::AMinusOne => "A-1",
            Comp::MMinusOne => "M-1",
            Comp::DPlusA => "D+A",
            Comp::DPlusM => "D+M",
            Comp::DMinusA => "D-A",
            Comp::DMinusM => "D-M",
            Comp::AMinusD => "A-D",
            Comp::MMinusD => "M-D",
            Comp::DAndA => "D&A",
            Comp::DAndM => "D&M",
            Comp::DOrA => "D|A",
            Comp::DOrM => "D|M",
        }
    }
}

/// When a compute instruction jumps.
#[derive(Clone, Copy, Debug, PartialEq, Eq, Structural)]
pub enum Jump {
    Null,
    JGT,
    JEQ,
    JGE,
    JLT,
    JNE,
    JLE,
    JMP,
}

/// Whether the word `v`, read as a two's-complement number, is negative.
pub open spec fn is_negative(v: u16) -> bool {
    v >= 0x8000
}

/// The number that the word `v` stands for in two's complement.
pub open spec fn signed(v: u16) -> int {
    if is_negative(v) {
        v - 0x10000
    } else {
        v as int
    }
}

impl Jump {
    /// Whether the jump is taken when the instruction computed `v`.
    pub open spec fn taken(self, v: u16) -> bool {
        match self {
            Jump::Null => false,
            Jump::JGT => v != 0 && !is_negative(v),
            Jump::JEQ => v == 0,
            Jump::JGE => !is_negative(v),
            Jump::JLT => is_negative(v),
            Jump::JNE => v != 0,
            Jump::JLE => v == 0 || is_negative(v),
            Jump::JMP => true,
        }
    }

    /// The jump part of an instruction's text, with its `;`.
    pub open spec fn text(self) -> Seq<char> {
        match self {
            Jump::Null => ""@,
            Jump::JGT => ";JGT"@,
            Jump::JEQ => ";JEQ"@,
            Jump::JGE => ";JGE"@,
            Jump::JLT => ";JLT"@,
            Jump::JNE => ";JNE"@,
            Jump::JLE => ";JLE"@,
            Jump::JMP => ";JMP"@,
        }
    }

    /// The jump part of an instruction's text, with its `;`.
    pub fn mnemonic(self) -> (t: &'static str)
        ensures
            t@ == self.text(),
    {
        match self {
            Jump::Null => "",
            Jump::JGT => ";JGT",
            Jump::JEQ => ";JEQ",
            Jump::JGE => ";JGE",
            Jump::JLT => ";JLT",
            Jump::JNE => ";JNE",
            Jump::JLE => ";JLE",
            Jump::JMP => ";JMP",
        }
    }
}

/// What an address instruction loads into the address register.
pub enum Operand {
    /// A number written in the instruction.
    Constant(u16),
    /// The address of a named cell.
    Cell(Register),
    /// The address that the assembler gives to a symbol.
    Symbol(Seq<char>),
}

/// One line of assembly.
pub enum Line {
    /// `@operand`: load an address.
    Address(Operand),
    /// `dest=comp;jump`: compute, store and perhaps jump.
    Compute(Dest, Comp, Jump),
    /// `(symbol)`: declare that the symbol names the next instruction.
    Label(Seq<char>),
}

impl Operand {
    /// The operand as written after the `@`.
    pub open spec fn text(self) -> Seq<char> {
        match self {
            Operand::Constant(n) => decimal(n as nat),
            Operand::Cell(r) => r.name(),
            Operand::Symbol(s) => s,
        }
    }
}

impl Line {
    /// The text of the line.
    pub open spec fn text(self) -> Seq<char> {
        match self {
            Line::Address(operand) => "@"@ + operand.text(),
            Line::Compute(dest, comp, jump) => dest.text() + comp.text() + jump.text(),
            Line::Label(symbol) => "("@ + symbol + ")"@,
        }
    }
}

/// The text of each line of `code`, in order.
pub open spec fn text_of(code: Seq<Line>) -> Seq<Seq<char>> {
    Seq::new(code.len(), |i: int| code[i].text())
}

/// Assembly text under construction, together with the lines it stands for.
pub struct Listing {
    pub lines: Vec<String>,
    pub code: Ghost<Seq<Line>>,
}

impl Listing {
    /// The text is that of the lines, one for one.
    pub open spec fn wf(&self) -> bool {
        self.lines.deep_view() == text_of(self.code@)
    }

    /// The empty listing.
    pub fn new() -> (listing: Self)
        ensures
            listing.wf(),
            listing.code@ == Seq::<Line>::empty(),
    {
        let listing = Listing { lines: Vec::new(), code: Ghost(Seq::empty()) };
        assert(listing.lines.deep_view() =~= text_of(listing.code@));
        listing
    }

    fn append(&mut self, text: String, Ghost(line): Ghost<Line>)
        requires
            old(self).wf(),
            text@ == line.text(),
        ensures
            final(self).wf(),
            final(self).code@ == old(self).code@.push(line),
    {
        self.lines.push(text);
        self.code = Ghost(self.code@.push(line));
        proof {
            let before = old(self).lines.deep_view();
            let after = self.lines.deep_view();
            assert(before.len() == old(self).lines@.len());
            assert(before.len() == text_of(old(self).code@).len());
            assert(after.len() == text_of(self.code@).len());
            assert forall|i: int| 0 <= i < after.len() implies after[i] == text_of(self.code@)[i] by {
                assert(after[i] == self.lines@[i]@);
                if i < before.len() {
                    assert(before[i] == old(self).lines@[i]@);
                    assert(before[i] == text_of(old(self).code@)[i]);
                }
            }
            assert(after =~= text_of(self.code@));
        }
    }

    /// Adds `@value`.
    pub fn constant(&mut self, value: u16)
        requires
            old(self).wf(),
        ensures
            final(self).wf(),
            final(self).code@ == old(self).code@.push(Line::Address(Operand::Constant(value))),
    {
        let mut text = String::from_str("@");
        let numeral = to_decimal(value as usize);
        text.append(numeral.as_str());
        self.append(text, Ghost(Line::Address(Operand::Constant(value))));
    }

    /// Adds `@cell`.
    pub fn cell(&mut self, cell: Register)
        requires
            old(self).wf(),
        ensures
            final(self).wf(),
            final(self).code@ == old(self).code@.push(Line::Address(Operand::Cell(cell))),
    {
        let mut text = String::from_str("@");
        text.append(cell.mnemonic());
        self.append(text, Ghost(Line::Address(Operand::Cell(cell))));
    }

    /// Adds `@symbol`.
    pub fn symbol(&mut self, symbol: &str)
        requires
            old(self).wf(),
        ensures
            final(self).wf(),
            final(self).code@ == old(self).code@.push(Line::Address(Operand::Symbol(symbol@))),
    {
        let mut text = String::from_str("@");
        text.append(symbol);
        self.append(text, Ghost(Line::Address(Operand::Symbol(symbol@))));
    }

    /// Adds `dest=comp;jump`.
    pub fn compute(&mut self, dest: Dest, comp: Comp, jump: Jump)
        requires
            old(self).wf(),
        ensures
            final(self).wf(),
            final(self).code@ == old(self).code@.push(Line::Compute(dest, comp, jump)),
    {
        let mut text = String::from_str(dest.mnemonic());
        text.append(comp.mnemonic());
        text.append(jump.mnemonic());
        self.append(text, Ghost(Line::Compute(dest, comp, jump)));
    }

    /// Adds `(symbol)`.
    pub fn label(&mut self, symbol: &str)
        requires
            old(self).wf(),
        ensures
            final(self).wf(),
            final(self).code@ == old(self).code@.push(Line::Label(symbol@)),
    {
        let mut text = String::from_str("(");
        text.append(symbol);
        text.append(")");
        self.append(text, Ghost(Line::Label(symbol@)));
    }
}

} // verus!
