//! Declaring, calling and leaving functions: the calling convention.

use vstd::prelude::*;
use vstd::string::*;
use crate::assembly::{text_of, Comp, Dest, Jump, Line, Listing, Operand, Register};
use crate::commands::branching::{goto_code, label_code};
use crate::commands::{Command, ErrorKind};
use crate::pattern::{captures, regex_captures};
use crate::text::{decimal, operand_value, parse_operand, to_decimal};

verus! {

/// The form of a function declaration: `function`, a name, and a word
/// for the count.
pub const FUNCTION_PATTERN: &'static str = r"^function\s+([\w\.]+)\s+(\S+)$";

/// The form of a return.
pub const RETURN_PATTERN: &'static str = r"^return$";

/// The form of a call: `call`, a name, and a word for the count.
pub const CALL_PATTERN: &'static str = r"^call\s+([\w\.]+)\s+(\S+)$";

/// The cells that a call saves on the stack: the return address and the
/// four segment pointers of the caller.
pub const FRAME_SIZE: u16 = 5;

/// The largest number that an address instruction can hold.
pub const MAX_CONSTANT: u16 = 32767;

/// The three commands of the calling convention.
#[derive(Clone, Copy, Debug, PartialEq, Eq, Structural)]
pub enum FunctionalCommandType {
    Call,
    Function,
    Return,
}

/// A command of the calling convention.
pub enum Functional {
    /// The entry of function `name`, which has `locals` local cells.
    Function { name: Seq<char>, locals: u16 },
    /// A call of `target` with `arguments` arguments on the stack, the
    /// `ordinal`-th call in the text of function `caller`.
    Call { target: Seq<char>, arguments: u16, caller: Seq<char>, ordinal: nat },
    /// The return to the caller.
    Return,
}

/// The symbol at which the `ordinal`-th call in function `caller` resumes.
pub open spec fn return_label(caller: Seq<char>, ordinal: nat) -> Seq<char> {
    caller + "$ret."@ + decimal(ordinal)
}

/// Pushing a zero: the assembly that makes one local cell.
pub open spec fn push_zero_code() -> Seq<Line> {
    seq![
        Line::Address(Operand::Cell(Register::SP)),
        Line::Compute(Dest::M, Comp::MPlusOne, Jump::Null),
        Line::Compute(Dest::A, Comp::MMinusOne, Jump::Null),
        Line::Compute(Dest::M, Comp::Zero, Jump::Null),
    ]
}

/// Pushing `locals` zeros.
pub open spec fn locals_code(locals: nat) -> Seq<Line>
    decreases locals,
{
    if locals == 0 {
        Seq::empty()
    } else {
        locals_code((locals - 1) as nat) + push_zero_code()
    }
}

/// The assembly of a function's entry: its label, then its local cells.
pub open spec fn function_code(name: Seq<char>, locals: u16) -> Seq<Line> {
    seq![Line::Label(name)] + locals_code(locals as nat)
}

/// Pushing a word: the address that `operand` loads where `from_memory`
/// is false, and what the cell at that address holds where it is true.
pub open spec fn push_word_code(operand: Operand, from_memory: bool) -> Seq<Line> {
    seq![
        Line::Address(operand),
        Line::Compute(
            Dest::D,
            if from_memory {
                Comp::M
            } else {
                Comp::A
            },
            Jump::Null,
        ),
        Line::Address(Operand::Cell(Register::SP)),
        Line::Compute(Dest::M, Comp::MPlusOne, Jump::Null),
        Line::Compute(Dest::A, Comp::MMinusOne, Jump::Null),
        Line::Compute(Dest::M, Comp::D, Jump::Null),
    ]
}

/// Entering a callee's frame: `ARG` points below the frame at the first of
/// `arguments` arguments, and `LCL` at the top of the stack.
pub open spec fn reposition_code(arguments: u16) -> Seq<Line> {
    seq![
        Line::Address(Operand::Constant((FRAME_SIZE + arguments) as u16)),
        Line::Compute(Dest::D, Comp::A, Jump::Null),
        Line::Address(Operand::Cell(Register::SP)),
        Line::Compute(Dest::D, Comp::MMinusD, Jump::Null),
        Line::Address(Operand::Cell(Register::ARG)),
        Line::Compute(Dest::M, Comp::D, Jump::Null),
        Line::Address(Operand::Cell(Register::SP)),
        Line::Compute(Dest::D, Comp::M, Jump::Null),
        Line::Address(Operand::Cell(Register::LCL)),
        Line::Compute(Dest::M, Comp::D, Jump::Null),
    ]
}

/// The assembly of a call: push the return address and the caller's
/// `LCL`, `ARG`, `THIS` and `THAT`; enter the callee's frame; jump to
/// `target`; declare the return address.
pub open spec fn call_code(target: Seq<char>, arguments: u16, resume: Seq<char>) -> Seq<Line> {
    push_word_code(Operand::Symbol(resume), false) + push_word_code(
        Operand::Cell(Register::LCL),
        true,
    ) + push_word_code(Operand::Cell(Register::ARG), true) + push_word_code(
        Operand::Cell(Register::THIS),
        true,
    ) + push_word_code(Operand::Cell(Register::THAT), true) + reposition_code(arguments)
        + goto_code(target) + label_code(resume)
}

/// Copying the word that lies `depth` cells below where `LCL` points into
/// the cell that `into` addresses.
pub open spec fn fetch_code(depth: u16, into: Operand) -> Seq<Line> {
    seq![
        Line::Address(Operand::Constant(depth)),
        Line::Compute(Dest::D, Comp::A, Jump::Null),
        Line::Address(Operand::Cell(Register::LCL)),
        Line::Compute(Dest::A, Comp::MMinusD, Jump::Null),
        Line::Compute(Dest::D, Comp::M, Jump::Null),
        Line::Address(into),
        Line::Compute(Dest::M, Comp::D, Jump::Null),
    ]
}

/// Copying the topmost stack cell to where `ARG` points.
pub open spec fn hand_back_code() -> Seq<Line> {
    seq![
        Line::Address(Operand::Cell(Register::SP)),
        Line::Compute(Dest::A, Comp::MMinusOne, Jump::Null),
        Line::Compute(Dest::D, Comp::M, Jump::Null),
        Line::Address(Operand::Cell(Register::ARG)),
        Line::Compute(Dest::A, Comp::M, Jump::Null),
        Line::Compute(Dest::M, Comp::D, Jump::Null),
    ]
}

/// Setting the stack pointer just above where `ARG` points.
pub open spec fn collapse_code() -> Seq<Line> {
    seq![
        Line::Address(Operand::Cell(Register::ARG)),
        Line::Compute(Dest::D, Comp::MPlusOne, Jump::Null),
        Line::Address(Operand::Cell(Register::SP)),
        Line::Compute(Dest::M, Comp::D, Jump::Null),
    ]
}

/// Jumping to the address that the scratch cell holds.
pub open spec fn leave_code() -> Seq<Line> {
    seq![
        Line::Address(Operand::Constant(13)),
        Line::Compute(Dest::A, Comp::M, Jump::Null),
        Line::Compute(Dest::Null, Comp::Zero, Jump::JMP),
    ]
}

/// The assembly of a return: keep the return address, which lies five
/// cells below `LCL`, in the scratch cell; put the returned value where
/// the first argument was; set the stack pointer just above it; restore
/// `THAT`, `THIS`, `ARG` and `LCL` from the frame, `LCL` last; jump to the
/// return address.
pub open spec fn return_code() -> Seq<Line> {
    fetch_code(5, Operand::Constant(13)) + hand_back_code() + collapse_code() + fetch_code(
        1,
        Operand::Cell(Register::THAT),
    ) + fetch_code(2, Operand::Cell(Register::THIS)) + fetch_code(
        3,
        Operand::Cell(Register::ARG),
    ) + fetch_code(4, Operand::Cell(Register::LCL)) + leave_code()
}

impl Functional {
    /// The assembly that the command stands for.
    pub open spec fn code(self) -> Seq<Line> {
        match self {
            Functional::Function { name, locals } => function_code(name, locals),
            Functional::Call { target, arguments, caller, ordinal } => call_code(
                target,
                arguments,
                return_label(caller, ordinal),
            ),
            Functional::Return => return_code(),
        }
    }

    /// The command of kind `kind` that the capture groups of a matched line
    /// give: the first group names the function, the second holds the
    /// count. `function_name` is the enclosing function, and `ret` the
    /// number of calls in it up to this line.
    ///
    /// The count must be a number of at most sixteen bits, and that of a
    /// call must leave room for the frame in an address instruction. Every
    /// command of this family needs an enclosing function.
    pub open spec fn from_groups(
        kind: FunctionalCommandType,
        groups: Seq<Option<Seq<char>>>,
        function_name: Option<Seq<char>>,
        ret: nat,
    ) -> Result<Functional, ErrorKind> {
        let count = if groups.len() > 2 && groups[2] is Some {
            operand_value(groups[2]->Some_0)
        } else {
            Some(0u16)
        };
        let target = if groups.len() > 1 {
            groups[1]
        } else {
            None
        };
        if count is None {
            Err(ErrorKind::InvalidOperand)
        } else if kind == FunctionalCommandType::Call && count->Some_0 > MAX_CONSTANT
            - FRAME_SIZE {
            Err(ErrorKind::InvalidOperand)
        } else if kind != FunctionalCommandType::Return && target is None {
            Err(ErrorKind::Malformed)
        } else if function_name is None {
            Err(ErrorKind::MissingContext)
        } else {
            Ok(
                match kind {
                    FunctionalCommandType::Function => Functional::Function {
                        name: target->Some_0,
                        locals: count->Some_0,
                    },
                    FunctionalCommandType::Call => Functional::Call {
                        target: target->Some_0,
                        arguments: count->Some_0,
                        caller: function_name->Some_0,
                        ordinal: ret,
                    },
                    FunctionalCommandType::Return => Functional::Return,
                },
            )
        }
    }

    /// The command that the line `command` holds: that of the first form,
    /// of declaration, return and call, that the line has.
    pub open spec fn read(command: Seq<char>, function_name: Option<Seq<char>>, ret: nat) -> Result<
        Functional,
        ErrorKind,
    > {
        if regex_captures(FUNCTION_PATTERN@, command) is Some {
            Self::from_groups(
                FunctionalCommandType::Function,
                regex_captures(FUNCTION_PATTERN@, command)->Some_0,
                function_name,
                ret,
            )
        } else if regex_captures(RETURN_PATTERN@, command) is Some {
            Self::from_groups(
                FunctionalCommandType::Return,
                regex_captures(RETURN_PATTERN@, command)->Some_0,
                function_name,
                ret,
            )
        } else if regex_captures(CALL_PATTERN@, command) is Some {
            Self::from_groups(
                FunctionalCommandType::Call,
                regex_captures(CALL_PATTERN@, command)->Some_0,
                function_name,
                ret,
            )
        } else {
            Err(ErrorKind::Malformed)
        }
    }
}

/// A command of the calling convention, read from a source line.
pub struct FunctionalCommand<'a> {
    file_name: &'a str,
    function_name: &'a str,
    calling_function: Option<String>,
    ret: usize,
    arg: u16,
    command_type: FunctionalCommandType,
}

impl<'a> View for FunctionalCommand<'a> {
    type V = Functional;

    closed spec fn view(&self) -> Functional {
        let target = match self.calling_function {
            Some(name) => name@,
            None => Seq::empty(),
        };
        match self.command_type {
            FunctionalCommandType::Function => Functional::Function {
                name: target,
                locals: self.arg,
            },
            FunctionalCommandType::Call => Functional::Call {
                target,
                arguments: self.arg,
                caller: self.function_name@,
                ordinal: self.ret as nat,
            },
            FunctionalCommandType::Return => Functional::Return,
        }
    }
}

impl<'a> FunctionalCommand<'a> {
    #[verifier::type_invariant]
    spec fn well_formed(&self) -> bool {
        &&& self.command_type != FunctionalCommandType::Return ==> self.calling_function is Some
        &&& self.command_type == FunctionalCommandType::Call ==> self.arg <= MAX_CONSTANT
            - FRAME_SIZE
    }

    /// Makes the command of kind `command_type` from the capture groups of
    /// a matched line.
    pub fn from_captures(
        command_type: FunctionalCommandType,
        groups: Vec<Option<String>>,
        file_name: &'a str,
        function_name: Option<&'a str>,
        ret: usize,
    ) -> (made: Result<Self, ErrorKind>)
        ensures
            made matches Ok(command) ==> Functional::from_groups(
                command_type,
                groups.deep_view(),
                function_name.deep_view(),
                ret as nat,
            ) == Ok::<Functional, ErrorKind>(command@),
            made matches Err(kind) ==> Functional::from_groups(
                command_type,
                groups.deep_view(),
                function_name.deep_view(),
                ret as nat,
            ) == Err::<Functional, ErrorKind>(kind),
    {
        let mut groups = groups;
        let ghost given = groups.deep_view();
        assert(given.len() == groups@.len());
        let arg: u16 = if groups.len() > 2 {
            assert(given[2] == groups@[2].deep_view());
            match &groups[2] {
                Some(digits) => match parse_operand(digits.as_str()) {
                    Some(value) => value,
                    None => {
                        return Err(ErrorKind::InvalidOperand);
                    },
                },
                None => 0,
            }
        } else {
            0
        };
        if matches!(command_type, FunctionalCommandType::Call) && arg > MAX_CONSTANT - FRAME_SIZE {
            return Err(ErrorKind::InvalidOperand);
        }
        let calling_function: Option<String> = if groups.len() > 1 {
            assert(given[1] == groups@[1].deep_view());
            groups.swap_remove(1)
        } else {
            None
        };
        if !matches!(command_type, FunctionalCommandType::Return) && calling_function.is_none() {
            return Err(ErrorKind::Malformed);
        }
        match function_name {
            Some(function_name) => Ok(
                FunctionalCommand {
                    file_name,
                    function_name,
                    calling_function,
                    ret,
                    arg,
                    command_type,
                },
            ),
            None => Err(ErrorKind::MissingContext),
        }
    }

    /// Reads a command of the calling convention from the line `command`.
    /// `function_name` is the enclosing function, and `ret` the number of
    /// calls in it up to this line.
    pub fn new(command: &'a str, file_name: &'a str, function_name: Option<&'a str>, ret: usize) -> (made:
        Result<Self, ErrorKind>)
        ensures
            made matches Ok(command_read) ==> Functional::read(
                command@,
                function_name.deep_view(),
                ret as nat,
            ) == Ok::<Functional, ErrorKind>(command_read@),
            made matches Err(kind) ==> Functional::read(
                command@,
                function_name.deep_view(),
                ret as nat,
            ) == Err::<Functional, ErrorKind>(kind),
    {
        if let Some(groups) = captures(FUNCTION_PATTERN, command) {
            return Self::from_captures(
                FunctionalCommandType::Function,
                groups,
                file_name,
                function_name,
                ret,
            );
        }
        if let Some(groups) = captures(RETURN_PATTERN, command) {
            return Self::from_captures(
                FunctionalCommandType::Return,
                groups,
                file_name,
                function_name,
                ret,
            );
        }
        if let Some(groups) = captures(CALL_PATTERN, command) {
            return Self::from_captures(
                FunctionalCommandType::Call,
                groups,
                file_name,
                function_name,
                ret,
            );
        }
        Err(ErrorKind::Malformed)
    }
}

impl<'a> FunctionalCommand<'a> {
    /// Writes the assembly of a function's entry.
    pub fn generate_function_command(&self) -> (lines: Vec<String>)
        requires
            self@ is Function,
        ensures
            lines.deep_view() == text_of(function_code(self@->name, self@->locals)),
    {
        proof {
            use_type_invariant(self);
        }
        let mut out = Listing::new();
        match &self.calling_function {
            Some(name) => out.label(name.as_str()),
            None => {},
        }
        let ghost entry = out.code@;
        let mut made: u16 = 0;
        while made < self.arg
            invariant
                out.wf(),
                made <= self.arg,
                out.code@ == entry + locals_code(made as nat),
            decreases self.arg - made,
        {
            out.cell(Register::SP);
            out.compute(Dest::M, Comp::MPlusOne, Jump::Null);
            out.compute(Dest::A, Comp::MMinusOne, Jump::Null);
            out.compute(Dest::M, Comp::Zero, Jump::Null);
            made = made + 1;
            assert(out.code@ =~= entry + locals_code(made as nat));
        }
        out.lines
    }

    /// Adds the push of the address of `symbol` to `out`.
    fn push_address(out: &mut Listing, symbol: &str)
        requires
            old(out).wf(),
        ensures
            final(out).wf(),
            final(out).code@ == old(out).code@ + push_word_code(Operand::Symbol(symbol@), false),
    {
        out.symbol(symbol);
        out.compute(Dest::D, Comp::A, Jump::Null);
        out.cell(Register::SP);
        out.compute(Dest::M, Comp::MPlusOne, Jump::Null);
        out.compute(Dest::A, Comp::MMinusOne, Jump::Null);
        out.compute(Dest::M, Comp::D, Jump::Null);
        assert(out.code@ =~= old(out).code@ + push_word_code(Operand::Symbol(symbol@), false));
    }

    /// Adds the push of what `cell` holds to `out`.
    fn push_cell(out: &mut Listing, cell: Register)
        requires
            old(out).wf(),
        ensures
            final(out).wf(),
            final(out).code@ == old(out).code@ + push_word_code(Operand::Cell(cell), true),
    {
        out.cell(cell);
        out.compute(Dest::D, Comp::M, Jump::Null);
        out.cell(Register::SP);
        out.compute(Dest::M, Comp::MPlusOne, Jump::Null);
        out.compute(Dest::A, Comp::MMinusOne, Jump::Null);
        out.compute(Dest::M, Comp::D, Jump::Null);
        assert(out.code@ =~= old(out).code@ + push_word_code(Operand::Cell(cell), true));
    }

    /// Adds to `out` the copy of the word `depth` cells below where `LCL`
    /// points into `cell`, or into the scratch cell where `cell` is none.
    fn fetch(out: &mut Listing, depth: u16, cell: Option<Register>)
        requires
            old(out).wf(),
        ensures
            final(out).wf(),
            final(out).code@ == old(out).code@ + fetch_code(
                depth,
                match cell {
                    Some(cell) => Operand::Cell(cell),
                    None => Operand::Constant(13),
                },
            ),
    {
        out.constant(depth);
        out.compute(Dest::D, Comp::A, Jump::Null);
        out.cell(Register::LCL);
        out.compute(Dest::A, Comp::MMinusD, Jump::Null);
        out.compute(Dest::D, Comp::M, Jump::Null);
        match cell {
            Some(cell) => out.cell(cell),
            None => out.constant(13),
        }
        out.compute(Dest::M, Comp::D, Jump::Null);
        assert(out.code@ =~= old(out).code@ + fetch_code(
            depth,
            match cell {
                Some(cell) => Operand::Cell(cell),
                None => Operand::Constant(13),
            },
        ));
    }

    /// Writes the assembly of a return.
    pub fn generate_return_command(&self) -> (lines: Vec<String>)
        ensures
            lines.deep_view() == text_of(return_code()),
    {
        let mut out = Listing::new();
        // the return address, at LCL - 5, goes to the scratch cell
        Self::fetch(&mut out, 5, None);
        assert(out.code@ =~= fetch_code(5, Operand::Constant(13)));
        // the returned value goes to argument 0
        let ghost saved = out.code@;
        out.cell(Register::SP);
        out.compute(Dest::A, Comp::MMinusOne, Jump::Null);
        out.compute(Dest::D, Comp::M, Jump::Null);
        out.cell(Register::ARG);
        out.compute(Dest::A, Comp::M, Jump::Null);
        out.compute(Dest::M, Comp::D, Jump::Null);
        assert(out.code@ =~= saved + hand_back_code());
        // SP = ARG + 1
        let ghost handed = out.code@;
        out.cell(Register::ARG);
        out.compute(Dest::D, Comp::MPlusOne, Jump::Null);
        out.cell(Register::SP);
        out.compute(Dest::M, Comp::D, Jump::Null);
        assert(out.code@ =~= handed + collapse_code());
        // THAT, THIS, ARG and LCL come back from the frame
        Self::fetch(&mut out, 1, Some(Register::THAT));
        Self::fetch(&mut out, 2, Some(Register::THIS));
        Self::fetch(&mut out, 3, Some(Register::ARG));
        Self::fetch(&mut out, 4, Some(Register::LCL));
        // jump to the return address
        let ghost restored = out.code@;
        out.constant(13);
        out.compute(Dest::A, Comp::M, Jump::Null);
        out.compute(Dest::Null, Comp::Zero, Jump::JMP);
        assert(out.code@ =~= restored + leave_code());
        out.lines
    }

    /// Writes the assembly of a call.
    pub fn generate_call_command(&self) -> (lines: Vec<String>)
        requires
            self@ is Call,
        ensures
            lines.deep_view() == text_of(
                call_code(
                    self@->target,
                    self@->arguments,
                    return_label(self@->caller, self@->ordinal),
                ),
            ),
    {
        proof {
            use_type_invariant(self);
        }
        let numeral = to_decimal(self.ret);
        let mut return_label = String::from_str(self.function_name);
        return_label.append("$ret.");
        return_label.append(numeral.as_str());
        let narg: u16 = FRAME_SIZE + self.arg;

        let mut out = Listing::new();
        // push the return address
        Self::push_address(&mut out, return_label.as_str());
        assert(out.code@ =~= push_word_code(Operand::Symbol(return_label@), false));
        // push LCL, ARG, THIS and THAT
        Self::push_cell(&mut out, Register::LCL);
        Self::push_cell(&mut out, Register::ARG);
        Self::push_cell(&mut out, Register::THIS);
        Self::push_cell(&mut out, Register::THAT);
        // ARG = SP - 5 - arguments
        let ghost frame = out.code@;
        out.constant(narg);
        out.compute(Dest::D, Comp::A, Jump::Null);
        out.cell(Register::SP);
        out.compute(Dest::D, Comp::MMinusD, Jump::Null);
        out.cell(Register::ARG);
        out.compute(Dest::M, Comp::D, Jump::Null);
        // LCL = SP
        out.cell(Register::SP);
        out.compute(Dest::D, Comp::M, Jump::Null);
        out.cell(Register::LCL);
        out.compute(Dest::M, Comp::D, Jump::Null);
        assert(out.code@ =~= frame + reposition_code(self.arg));
        // jump to the function
        let ghost entered = out.code@;
        match &self.calling_function {
            Some(target) => out.symbol(target.as_str()),
            None => {},
        }
        out.compute(Dest::Null, Comp::Zero, Jump::JMP);
        assert(out.code@ =~= entered + goto_code(self@->target));
        // the return address
        let ghost jumped = out.code@;
        out.label(return_label.as_str());
        assert(out.code@ =~= jumped + label_code(return_label@));
        out.lines
    }
}

impl<'a> Command for FunctionalCommand<'a> {
    open spec fn code(&self) -> Seq<Line> {
        self@.code()
    }

    fn generate(&self) -> (lines: Vec<String>) {
        match self.command_type {
            FunctionalCommandType::Call => self.generate_call_command(),
            FunctionalCommandType::Function => self.generate_function_command(),
            FunctionalCommandType::Return => self.generate_return_command(),
        }
    }
}

} // verus!
