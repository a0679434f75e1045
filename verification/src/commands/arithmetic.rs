//! Arithmetic, logic and comparison on the top of the stack.

use vstd::prelude::*;
use vstd::string::*;
use crate::assembly::{text_of, wrap, Comp, Dest, Jump, Line, Listing, Operand, Register};
use crate::commands::{Command, ErrorKind};
use crate::text::{decimal, same_text, to_decimal};

verus! {

/// The nine operators.
#[derive(Clone, Copy, Debug, PartialEq, Eq, Structural)]
pub enum ArithmeticType {
    Add,
    Sub,
    Neg,
    Eq,
    Gt,
    Lt,
    And,
    Or,
    Not,
}

impl ArithmeticType {
    /// The operators that replace the two topmost cells by one.
    pub open spec fn is_binary(self) -> bool {
        self == ArithmeticType::Add || self == ArithmeticType::Sub || self == ArithmeticType::And
            || self == ArithmeticType::Or
    }

    /// The operators that change the topmost cell in place.
    pub open spec fn is_unary(self) -> bool {
        self == ArithmeticType::Neg || self == ArithmeticType::Not
    }

    /// The operators that replace the two topmost cells by a truth value.
    pub open spec fn is_comparison(self) -> bool {
        self == ArithmeticType::Eq || self == ArithmeticType::Gt || self == ArithmeticType::Lt
    }

    /// The operator that a line consisting of `word` names.
    pub open spec fn from_keyword(word: Seq<char>) -> Option<ArithmeticType> {
        if word == "add"@ {
            Some(ArithmeticType::Add)
        } else if word == "sub"@ {
            Some(ArithmeticType::Sub)
        } else if word == "neg"@ {
            Some(ArithmeticType::Neg)
        } else if word == "eq"@ {
            Some(ArithmeticType::Eq)
        } else if word == "gt"@ {
            Some(ArithmeticType::Gt)
        } else if word == "lt"@ {
            Some(ArithmeticType::Lt)
        } else if word == "and"@ {
            Some(ArithmeticType::And)
        } else if word == "or"@ {
            Some(ArithmeticType::Or)
        } else if word == "not"@ {
            Some(ArithmeticType::Not)
        } else {
            None
        }
    }

    /// What a binary or unary operator computes in the data register, the
    /// first operand being there and the second in the addressed cell; for
    /// a comparison, the difference that it tests.
    pub open spec fn comp(self) -> Comp {
        match self {
            ArithmeticType::Add => Comp::DPlusM,
            ArithmeticType::Sub => Comp::DMinusM,
            ArithmeticType::And => Comp::DAndM,
            ArithmeticType::Or => Comp::DOrM,
            ArithmeticType::Neg => Comp::NegM,
            ArithmeticType::Not => Comp::NotM,
            _ => Comp::AMinusD,
        }
    }

    /// What a binary operator makes of its two operands, and a unary one
    /// of its first. Arithmetic wraps around at sixteen bits.
    pub open spec fn result(self, first: u16, second: u16) -> u16 {
        match self {
            ArithmeticType::Add => wrap(first + second),
            ArithmeticType::Sub => wrap(first - second),
            ArithmeticType::And => first & second,
            ArithmeticType::Or => first | second,
            ArithmeticType::Neg => wrap(-first),
            ArithmeticType::Not => !first,
            _ => truth(self.compares(first, second)),
        }
    }

    /// Whether a comparison holds of its two operands: it judges by their
    /// difference, which wraps around at sixteen bits.
    pub open spec fn compares(self, first: u16, second: u16) -> bool {
        self.jump().taken(wrap(first - second))
    }

    /// The jump that a comparison takes where it holds of the difference of
    /// its operands.
    pub open spec fn jump(self) -> Jump {
        match self {
            ArithmeticType::Eq => Jump::JEQ,
            ArithmeticType::Gt => Jump::JGT,
            ArithmeticType::Lt => Jump::JLT,
            _ => Jump::Null,
        }
    }
}

/// The word that stands for a truth value: all ones for true, zero for
/// false.
pub open spec fn truth(holds: bool) -> u16 {
    if holds {
        0xFFFF
    } else {
        0
    }
}

/// The symbol that the comparison at line `position` of `module` jumps to
/// where it holds.
pub open spec fn true_label(module: Seq<char>, position: nat) -> Seq<char> {
    module + "$true."@ + decimal(position)
}

/// The symbol that ends the comparison at line `position` of `module`.
pub open spec fn end_label(module: Seq<char>, position: nat) -> Seq<char> {
    module + "$end."@ + decimal(position)
}

/// The assembly of a binary operator: the second operand goes to the
/// scratch cell, the first to the data register, and the result to the cell
/// of the first operand.
pub open spec fn binary_code(op: ArithmeticType) -> Seq<Line> {
    seq![
        Line::Address(Operand::Cell(Register::SP)),
        Line::Compute(Dest::AM, Comp::MMinusOne, Jump::Null),
        Line::Compute(Dest::D, Comp::M, Jump::Null),
        Line::Address(Operand::Cell(Register::R13)),
        Line::Compute(Dest::M, Comp::D, Jump::Null),
        Line::Address(Operand::Cell(Register::SP)),
        Line::Compute(Dest::A, Comp::MMinusOne, Jump::Null),
        Line::Compute(Dest::D, Comp::M, Jump::Null),
        Line::Address(Operand::Cell(Register::R13)),
        Line::Compute(Dest::D, op.comp(), Jump::Null),
        Line::Address(Operand::Cell(Register::SP)),
        Line::Compute(Dest::A, Comp::MMinusOne, Jump::Null),
        Line::Compute(Dest::M, Comp::D, Jump::Null),
    ]
}

/// The assembly of a unary operator: the topmost cell is changed in place.
pub open spec fn unary_code(op: ArithmeticType) -> Seq<Line> {
    seq![
        Line::Address(Operand::Cell(Register::SP)),
        Line::Compute(Dest::A, Comp::MMinusOne, Jump::Null),
        Line::Compute(Dest::M, op.comp(), Jump::Null),
    ]
}

/// The assembly of a comparison: the difference of the operands decides
/// between writing false and jumping to `on_true`, where true is written;
/// both ways end at `end`.
pub open spec fn comparison_code(op: ArithmeticType, on_true: Seq<char>, end: Seq<char>) -> Seq<
    Line,
> {
    seq![
        Line::Address(Operand::Cell(Register::SP)),
        Line::Compute(Dest::AM, Comp::MMinusOne, Jump::Null),
        Line::Compute(Dest::D, Comp::M, Jump::Null),
        Line::Address(Operand::Cell(Register::SP)),
        Line::Compute(Dest::A, Comp::MMinusOne, Jump::Null),
        Line::Compute(Dest::A, Comp::M, Jump::Null),
        Line::Compute(Dest::D, Comp::AMinusD, Jump::Null),
        Line::Address(Operand::Symbol(on_true)),
        Line::Compute(Dest::Null, Comp::D, op.jump()),
        Line::Address(Operand::Cell(Register::SP)),
        Line::Compute(Dest::A, Comp::MMinusOne, Jump::Null),
        Line::Compute(Dest::M, Comp::Zero, Jump::Null),
        Line::Address(Operand::Symbol(end)),
        Line::Compute(Dest::Null, Comp::Zero, Jump::JMP),
        Line::Label(on_true),
        Line::Address(Operand::Cell(Register::SP)),
        Line::Compute(Dest::A, Comp::MMinusOne, Jump::Null),
        Line::Compute(Dest::M, Comp::MinusOne, Jump::Null),
        Line::Label(end),
    ]
}

/// An arithmetic command: its operator, and the module and line that it
/// stands in, from which a comparison takes its labels.
pub struct Arithmetic {
    pub op: ArithmeticType,
    pub module: Seq<char>,
    pub position: nat,
}

impl Arithmetic {
    /// The assembly that the command stands for.
    pub open spec fn code(self) -> Seq<Line> {
        if self.op.is_binary() {
            binary_code(self.op)
        } else if self.op.is_unary() {
            unary_code(self.op)
        } else {
            comparison_code(
                self.op,
                true_label(self.module, self.position),
                end_label(self.module, self.position),
            )
        }
    }
}

/// An arithmetic command of a source line.
pub struct ArithmeticCommand<'a> {
    command_type: ArithmeticType,
    file_name: &'a str,
    position: usize,
}

impl<'a> View for ArithmeticCommand<'a> {
    type V = Arithmetic;

    closed spec fn view(&self) -> Arithmetic {
        Arithmetic {
            op: self.command_type,
            module: self.file_name@,
            position: self.position as nat,
        }
    }
}

impl<'a> ArithmeticCommand<'a> {
    /// Reads an arithmetic command: `command` must be one of the nine
    /// operator names. `file_name` and `position` say where the line stands.
    pub fn new(command: &'a str, file_name: &'a str, position: usize) -> (made: Result<
        Self,
        ErrorKind,
    >)
        ensures
            match ArithmeticType::from_keyword(command@) {
                Some(op) => made is Ok && made->Ok_0@ == (Arithmetic {
                    op,
                    module: file_name@,
                    position: position as nat,
                }),
                None => made is Err && made->Err_0 == ErrorKind::Malformed,
            },
    {
        let command_type = if same_text(command, "add") {
            ArithmeticType::Add
        } else if same_text(command, "sub") {
            ArithmeticType::Sub
        } else if same_text(command, "neg") {
            ArithmeticType::Neg
        } else if same_text(command, "eq") {
            ArithmeticType::Eq
        } else if same_text(command, "gt") {
            ArithmeticType::Gt
        } else if same_text(command, "lt") {
            ArithmeticType::Lt
        } else if same_text(command, "and") {
            ArithmeticType::And
        } else if same_text(command, "or") {
            ArithmeticType::Or
        } else if same_text(command, "not") {
            ArithmeticType::Not
        } else {
            return Err(ErrorKind::Malformed);
        };
        Ok(ArithmeticCommand { command_type, file_name, position })
    }

    /// Writes the assembly of `add`, `sub`, `and` or `or`.
    pub fn generate_2_operand_arithmetic_code(&self) -> (lines: Vec<String>)
        requires
            self@.op.is_binary(),
        ensures
            lines.deep_view() == text_of(binary_code(self@.op)),
    {
        let main_isc = match self.command_type {
            ArithmeticType::Add => Comp::DPlusM,
            ArithmeticType::Sub => Comp::DMinusM,
            ArithmeticType::And => Comp::DAndM,
            _ => Comp::DOrM,
        };
        let mut out = Listing::new();
        out.cell(Register::SP);
        out.compute(Dest::AM, Comp::MMinusOne, Jump::Null);
        out.compute(Dest::D, Comp::M, Jump::Null);
        out.cell(Register::R13);
        out.compute(Dest::M, Comp::D, Jump::Null);
        out.cell(Register::SP);
        out.compute(Dest::A, Comp::MMinusOne, Jump::Null);
        out.compute(Dest::D, Comp::M, Jump::Null);
        out.cell(Register::R13);
        out.compute(Dest::D, main_isc, Jump::Null);
        out.cell(Register::SP);
        out.compute(Dest::A, Comp::MMinusOne, Jump::Null);
        out.compute(Dest::M, Comp::D, Jump::Null);
        out.lines
    }

    /// Writes the assembly of `not`.
    pub fn generate_not_operand_arithmetic_code(&self) -> (lines: Vec<String>)
        ensures
            lines.deep_view() == text_of(unary_code(ArithmeticType::Not)),
    {
        let mut out = Listing::new();
        out.cell(Register::SP);
        out.compute(Dest::A, Comp::MMinusOne, Jump::Null);
        out.compute(Dest::M, Comp::NotM, Jump::Null);
        out.lines
    }

    /// Writes the assembly of `neg`.
    pub fn generate_neg_operand_arithmetic_code(&self) -> (lines: Vec<String>)
        ensures
            lines.deep_view() == text_of(unary_code(ArithmeticType::Neg)),
    {
        let mut out = Listing::new();
        out.cell(Register::SP);
        out.compute(Dest::A, Comp::MMinusOne, Jump::Null);
        out.compute(Dest::M, Comp::NegM, Jump::Null);
        out.lines
    }

    /// Writes the assembly of `eq`, `gt` or `lt`, with the two labels of
    /// this command's line.
    pub fn generate_comparison_arithmetic_code(&self) -> (lines: Vec<String>)
        requires
            self@.op.is_comparison(),
        ensures
            lines.deep_view() == text_of(
                comparison_code(
                    self@.op,
                    true_label(self@.module, self@.position),
                    end_label(self@.module, self@.position),
                ),
            ),
    {
        let main_isc = match self.command_type {
            ArithmeticType::Eq => Jump::JEQ,
            ArithmeticType::Gt => Jump::JGT,
            _ => Jump::JLT,
        };
        let numeral = to_decimal(self.position);
        let mut label = String::from_str(self.file_name);
        label.append("$true.");
        label.append(numeral.as_str());
        let mut end_label = String::from_str(self.file_name);
        end_label.append("$end.");
        end_label.append(numeral.as_str());

        let mut out = Listing::new();
        out.cell(Register::SP);
        out.compute(Dest::AM, Comp::MMinusOne, Jump::Null);
        out.compute(Dest::D, Comp::M, Jump::Null);
        out.cell(Register::SP);
        out.compute(Dest::A, Comp::MMinusOne, Jump::Null);
        out.compute(Dest::A, Comp::M, Jump::Null);
        out.compute(Dest::D, Comp::AMinusD, Jump::Null);
        out.symbol(label.as_str());
        out.compute(Dest::Null, Comp::D, main_isc);
        out.cell(Register::SP);
        out.compute(Dest::A, Comp::MMinusOne, Jump::Null);
        out.compute(Dest::M, Comp::Zero, Jump::Null);
        out.symbol(end_label.as_str());
        out.compute(Dest::Null, Comp::Zero, Jump::JMP);
        out.label(label.as_str());
        out.cell(Register::SP);
        out.compute(Dest::A, Comp::MMinusOne, Jump::Null);
        out.compute(Dest::M, Comp::MinusOne, Jump::Null);
        out.label(end_label.as_str());
        out.lines
    }
}

impl<'a> Command for ArithmeticCommand<'a> {
    open spec fn code(&self) -> Seq<Line> {
        self@.code()
    }

    fn generate(&self) -> (lines: Vec<String>) {
        match self.command_type {
            ArithmeticType::Add
            | ArithmeticType::Sub
            | ArithmeticType::And
            | ArithmeticType::Or => self.generate_2_operand_arithmetic_code(),
            ArithmeticType::Neg => self.generate_neg_operand_arithmetic_code(),
            ArithmeticType::Not => self.generate_not_operand_arithmetic_code(),
            ArithmeticType::Eq
            | ArithmeticType::Gt
            | ArithmeticType::Lt => self.generate_comparison_arithmetic_code(),
        }
    }
}

} // verus!
