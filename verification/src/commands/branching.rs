//! Labels and jumps inside a function.

use vstd::prelude::*;
use vstd::string::*;
use crate::assembly::{text_of, Comp, Dest, Jump, Line, Listing, Operand, Register};
use crate::commands::{Command, ErrorKind};
use crate::pattern::{captures, regex_captures};

verus! {

/// The form of a conditional jump: `if-goto` and a label.
pub const IF_GOTO_PATTERN: &'static str = r"^if-goto\s+([\w\.]+)$";

/// The form of a jump: `goto` and a label.
pub const GOTO_PATTERN: &'static str = r"^goto\s+([\w\.]+)$";

/// The form of a label declaration: `label` and a label.
pub const LABEL_PATTERN: &'static str = r"^label\s+([\w\.]+)$";

/// The three branching commands.
#[derive(Clone, Copy, Debug, PartialEq, Eq, Structural)]
pub enum BranchingCommandType {
    IfGoto,
    Goto,
    Label,
}

impl BranchingCommandType {
    /// The form of the commands of this kind.
    pub open spec fn pattern(self) -> Seq<char> {
        match self {
            BranchingCommandType::IfGoto => IF_GOTO_PATTERN@,
            BranchingCommandType::Goto => GOTO_PATTERN@,
            BranchingCommandType::Label => LABEL_PATTERN@,
        }
    }
}

/// A branching command: its kind, its label, and the function that it
/// stands in, which is empty outside every function.
pub struct Branching {
    pub kind: BranchingCommandType,
    pub label: Seq<char>,
    pub function: Seq<char>,
}

/// The symbol of the label `label` of function `function`.
pub open spec fn branch_symbol(function: Seq<char>, label: Seq<char>) -> Seq<char> {
    function + "$"@ + label
}

/// The assembly of a conditional jump: pop, and jump to `symbol` if the
/// popped cell is not zero.
pub open spec fn if_goto_code(symbol: Seq<char>) -> Seq<Line> {
    seq![
        Line::Address(Operand::Cell(Register::SP)),
        Line::Compute(Dest::AM, Comp::MMinusOne, Jump::Null),
        Line::Compute(Dest::D, Comp::M, Jump::Null),
        Line::Address(Operand::Symbol(symbol)),
        Line::Compute(Dest::Null, Comp::D, Jump::JNE),
    ]
}

/// The assembly of a jump to `symbol`.
pub open spec fn goto_code(symbol: Seq<char>) -> Seq<Line> {
    seq![
        Line::Address(Operand::Symbol(symbol)),
        Line::Compute(Dest::Null, Comp::Zero, Jump::JMP),
    ]
}

/// The assembly of the declaration of `symbol`.
pub open spec fn label_code(symbol: Seq<char>) -> Seq<Line> {
    seq![Line::Label(symbol)]
}

impl Branching {
    /// The symbol that the command declares or jumps to.
    pub open spec fn symbol(self) -> Seq<char> {
        branch_symbol(self.function, self.label)
    }

    /// The assembly that the command stands for.
    pub open spec fn code(self) -> Seq<Line> {
        match self.kind {
            BranchingCommandType::IfGoto => if_goto_code(self.symbol()),
            BranchingCommandType::Goto => goto_code(self.symbol()),
            BranchingCommandType::Label => label_code(self.symbol()),
        }
    }

    /// The function part of a symbol: the enclosing function's name, and
    /// the empty text outside every function.
    pub open spec fn scope(function_name: Option<Seq<char>>) -> Seq<char> {
        match function_name {
            Some(name) => name,
            None => Seq::empty(),
        }
    }

    /// The command of kind `kind` that the capture groups of a matched
    /// line give: the first group holds the label.
    pub open spec fn from_groups(
        kind: BranchingCommandType,
        groups: Seq<Option<Seq<char>>>,
        function_name: Option<Seq<char>>,
    ) -> Result<Branching, ErrorKind> {
        if groups.len() > 1 && groups[1] is Some {
            Ok(Branching { kind, label: groups[1]->Some_0, function: Self::scope(function_name) })
        } else {
            Err(ErrorKind::Malformed)
        }
    }

    /// The command of kind `kind` that the line `command` holds.
    pub open spec fn read_as(
        kind: BranchingCommandType,
        command: Seq<char>,
        function_name: Option<Seq<char>>,
    ) -> Result<Branching, ErrorKind> {
        match regex_captures(kind.pattern(), command) {
            Some(groups) => Self::from_groups(kind, groups, function_name),
            None => Err(ErrorKind::Malformed),
        }
    }

    /// The command that the line `command` holds: that of the first kind,
    /// of conditional jump, jump and declaration, that the line has the
    /// form of.
    pub open spec fn read(command: Seq<char>, function_name: Option<Seq<char>>) -> Result<
        Branching,
        ErrorKind,
    > {
        if Self::read_as(BranchingCommandType::IfGoto, command, function_name) is Ok {
            Self::read_as(BranchingCommandType::IfGoto, command, function_name)
        } else if Self::read_as(BranchingCommandType::Goto, command, function_name) is Ok {
            Self::read_as(BranchingCommandType::Goto, command, function_name)
        } else {
            Self::read_as(BranchingCommandType::Label, command, function_name)
        }
    }
}

/// A branching command read from a source line.
pub struct BranchingCommand<'a> {
    label: String,
    file_name: &'a str,
    function_name: Option<&'a str>,
    command_type: BranchingCommandType,
}

impl<'a> View for BranchingCommand<'a> {
    type V = Branching;

    closed spec fn view(&self) -> Branching {
        Branching {
            kind: self.command_type,
            label: self.label@,
            function: Branching::scope(self.function_name.deep_view()),
        }
    }
}

impl<'a> BranchingCommand<'a> {
    /// Makes the command of kind `command_type` from the capture groups of
    /// a matched line.
    pub fn from_captures(
        command_type: BranchingCommandType,
        groups: Vec<Option<String>>,
        file_name: &'a str,
        function_name: Option<&'a str>,
    ) -> (made: Result<Self, ErrorKind>)
        ensures
            made matches Ok(command) ==> Branching::from_groups(
                command_type,
                groups.deep_view(),
                function_name.deep_view(),
            ) == Ok::<Branching, ErrorKind>(command@),
            made matches Err(kind) ==> Branching::from_groups(
                command_type,
                groups.deep_view(),
                function_name.deep_view(),
            ) == Err::<Branching, ErrorKind>(kind),
    {
        let mut groups = groups;
        let ghost given = groups.deep_view();
        assert(given.len() == groups@.len());
        if groups.len() < 2 {
            return Err(ErrorKind::Malformed);
        }
        assert(given[1] == groups@[1].deep_view());
        match groups.swap_remove(1) {
            Some(label) => Ok(BranchingCommand { label, file_name, function_name, command_type }),
            None => Err(ErrorKind::Malformed),
        }
    }

    /// The text of the form of the commands of kind `command_type`.
    fn pattern_of(command_type: BranchingCommandType) -> (pattern: &'static str)
        ensures
            pattern@ == command_type.pattern(),
    {
        match command_type {
            BranchingCommandType::IfGoto => IF_GOTO_PATTERN,
            BranchingCommandType::Goto => GOTO_PATTERN,
            BranchingCommandType::Label => LABEL_PATTERN,
        }
    }

    /// Reads `command` as a command of kind `command_type`.
    fn new_as(
        command_type: BranchingCommandType,
        command: &'a str,
        file_name: &'a str,
        function_name: Option<&'a str>,
    ) -> (made: Result<Self, ErrorKind>)
        ensures
            made matches Ok(command_read) ==> Branching::read_as(
                command_type,
                command@,
                function_name.deep_view(),
            ) == Ok::<Branching, ErrorKind>(command_read@),
            made matches Err(kind) ==> Branching::read_as(
                command_type,
                command@,
                function_name.deep_view(),
            ) == Err::<Branching, ErrorKind>(kind),
    {
        match captures(Self::pattern_of(command_type), command) {
            Some(groups) => Self::from_captures(command_type, groups, file_name, function_name),
            None => Err(ErrorKind::Malformed),
        }
    }

    /// Reads a branching command from the line `command`. `function_name`
    /// is the enclosing function, if there is one.
    pub fn new(command: &'a str, file_name: &'a str, function_name: Option<&'a str>) -> (made:
        Result<Self, ErrorKind>)
        ensures
            made matches Ok(command_read) ==> Branching::read(command@, function_name.deep_view())
                == Ok::<Branching, ErrorKind>(command_read@),
            made matches Err(kind) ==> Branching::read(command@, function_name.deep_view())
                == Err::<Branching, ErrorKind>(kind),
    {
        let if_goto = Self::new_as(BranchingCommandType::IfGoto, command, file_name, function_name);
        if if_goto.is_ok() {
            return if_goto;
        }
        let goto = Self::new_as(BranchingCommandType::Goto, command, file_name, function_name);
        if goto.is_ok() {
            return goto;
        }
        Self::new_as(BranchingCommandType::Label, command, file_name, function_name)
    }

    /// The symbol that the command declares or jumps to.
    fn symbol(&self) -> (symbol: String)
        ensures
            symbol@ == self@.symbol(),
    {
        let mut symbol = match self.function_name {
            Some(name) => String::from_str(name),
            None => String::new(),
        };
        symbol.append("$");
        symbol.append(self.label.as_str());
        symbol
    }

    /// Writes the assembly of a conditional jump.
    pub fn generate_if_goto(&self) -> (lines: Vec<String>)
        ensures
            lines.deep_view() == text_of(if_goto_code(self@.symbol())),
    {
        let symbol = self.symbol();
        let mut out = Listing::new();
        out.cell(Register::SP);
        out.compute(Dest::AM, Comp::MMinusOne, Jump::Null);
        out.compute(Dest::D, Comp::M, Jump::Null);
        out.symbol(symbol.as_str());
        out.compute(Dest::Null, Comp::D, Jump::JNE);
        out.lines
    }

    /// Writes the assembly of a jump.
    pub fn generate_goto(&self) -> (lines: Vec<String>)
        ensures
            lines.deep_view() == text_of(goto_code(self@.symbol())),
    {
        let symbol = self.symbol();
        let mut out = Listing::new();
        out.symbol(symbol.as_str());
        out.compute(Dest::Null, Comp::Zero, Jump::JMP);
        out.lines
    }

    /// Writes the assembly of a label declaration.
    pub fn generate_label(&self) -> (lines: Vec<String>)
        ensures
            lines.deep_view() == text_of(label_code(self@.symbol())),
    {
        let symbol = self.symbol();
        let mut out = Listing::new();
        out.label(symbol.as_str());
        out.lines
    }
}

impl<'a> Command for BranchingCommand<'a> {
    open spec fn code(&self) -> Seq<Line> {
        self@.code()
    }

    fn generate(&self) -> (lines: Vec<String>) {
        match self.command_type {
            BranchingCommandType::IfGoto => self.generate_if_goto(),
            BranchingCommandType::Goto => self.generate_goto(),
            BranchingCommandType::Label => self.generate_label(),
        }
    }
}

} // verus!
