//! The commands of the VM language and their translation.

pub mod arithmetic;
pub mod branching;
pub mod functional;
pub mod memory_access;

use vstd::prelude::*;
use crate::assembly::{text_of, Line};
use crate::commands::arithmetic::{Arithmetic, ArithmeticCommand, ArithmeticType};
use crate::commands::branching::{Branching, BranchingCommand};
use crate::commands::functional::{Functional, FunctionalCommand};
use crate::commands::memory_access::{MemoryAccess, MemoryAccessCommand};

verus! {

/// Why a source line is not translated.
#[derive(Clone, Copy, Debug, PartialEq, Eq, Structural)]
pub enum ErrorKind {
    /// The line has the form of no command.
    Malformed,
    /// The line has the form of a command, with an operand out of range.
    InvalidOperand,
    /// The command needs an enclosing function and there is none.
    MissingContext,
}

/// A command that can be translated.
pub trait Command {
    /// The assembly that the command stands for.
    spec fn code(&self) -> Seq<Line>;

    /// Writes the command's assembly, one line to a string.
    fn generate(&self) -> (lines: Vec<String>)
        ensures
            lines.deep_view() == text_of(self.code()),
    ;
}

/// A command of the VM language, as a value.
pub enum Instruction {
    Arithmetic(Arithmetic),
    MemoryAccess(MemoryAccess),
    Branching(Branching),
    Functional(Functional),
}

impl Instruction {
    /// The assembly that the command stands for.
    pub open spec fn code(self) -> Seq<Line> {
        match self {
            Instruction::Arithmetic(command) => command.code(),
            Instruction::MemoryAccess(command) => command.code(),
            Instruction::Branching(command) => command.code(),
            Instruction::Functional(command) => command.code(),
        }
    }

    /// The command that the line `command` holds, or why it holds none.
    ///
    /// The line stands at line `position` of `module`, in function
    /// `function_name`, after `ret` calls in that function. The families
    /// are asked in turn, arithmetic first, then memory access, branching
    /// and the calling convention; the first that knows the line's form
    /// decides. The line is malformed if none does.
    pub open spec fn read(
        command: Seq<char>,
        module: Seq<char>,
        function_name: Option<Seq<char>>,
        ret: nat,
        position: nat,
    ) -> Result<Instruction, ErrorKind> {
        if ArithmeticType::from_keyword(command) is Some {
            Ok(
                Instruction::Arithmetic(
                    Arithmetic {
                        op: ArithmeticType::from_keyword(command)->Some_0,
                        module,
                        position,
                    },
                ),
            )
        } else if MemoryAccess::read(command, module) != Err::<MemoryAccess, ErrorKind>(
            ErrorKind::Malformed,
        ) {
            match MemoryAccess::read(command, module) {
                Ok(access) => Ok(Instruction::MemoryAccess(access)),
                Err(kind) => Err(kind),
            }
        } else if Branching::read(command, function_name) != Err::<Branching, ErrorKind>(
            ErrorKind::Malformed,
        ) {
            match Branching::read(command, function_name) {
                Ok(branch) => Ok(Instruction::Branching(branch)),
                Err(kind) => Err(kind),
            }
        } else {
            match Functional::read(command, function_name, ret) {
                Ok(functional) => Ok(Instruction::Functional(functional)),
                Err(kind) => Err(kind),
            }
        }
    }
}

/// A command read from a source line: one of the four families.
pub enum CommandType<'a> {
    Arithmetic(ArithmeticCommand<'a>),
    MemoryAccess(MemoryAccessCommand<'a>),
    Branching(BranchingCommand<'a>),
    Functional(FunctionalCommand<'a>),
}

impl<'a> View for CommandType<'a> {
    type V = Instruction;

    open spec fn view(&self) -> Instruction {
        match self {
            CommandType::Arithmetic(command) => Instruction::Arithmetic(command@),
            CommandType::MemoryAccess(command) => Instruction::MemoryAccess(command@),
            CommandType::Branching(command) => Instruction::Branching(command@),
            CommandType::Functional(command) => Instruction::Functional(command@),
        }
    }
}

impl<'a> CommandType<'a> {
    /// Reads the command that the line `command` holds. The line must be
    /// free of comments and of surrounding blanks. It stands at line
    /// `position` of the module `file_name`, in function `function_name`,
    /// after `ret` calls in that function.
    pub fn new(
        command: &'a str,
        file_name: &'a str,
        function_name: Option<&'a str>,
        ret: usize,
        position: usize,
    ) -> (made: Result<Self, ErrorKind>)
        ensures
            made matches Ok(command_read) ==> Instruction::read(
                command@,
                file_name@,
                function_name.deep_view(),
                ret as nat,
                position as nat,
            ) == Ok::<Instruction, ErrorKind>(command_read@),
            made matches Err(kind) ==> Instruction::read(
                command@,
                file_name@,
                function_name.deep_view(),
                ret as nat,
                position as nat,
            ) == Err::<Instruction, ErrorKind>(kind),
    {
        match ArithmeticCommand::new(command, file_name, position) {
            Ok(arithmetic) => {
                return Ok(CommandType::Arithmetic(arithmetic));
            },
            Err(_) => {},
        }
        match MemoryAccessCommand::new(command, file_name) {
            Ok(access) => {
                return Ok(CommandType::MemoryAccess(access));
            },
            Err(ErrorKind::Malformed) => {},
            Err(kind) => {
                return Err(kind);
            },
        }
        match BranchingCommand::new(command, file_name, function_name) {
            Ok(branch) => {
                return Ok(CommandType::Branching(branch));
            },
            Err(ErrorKind::Malformed) => {},
            Err(kind) => {
                return Err(kind);
            },
        }
        match FunctionalCommand::new(command, file_name, function_name, ret) {
            Ok(functional) => Ok(CommandType::Functional(functional)),
            Err(kind) => Err(kind),
        }
    }
}

impl<'a> Command for CommandType<'a> {
    open spec fn code(&self) -> Seq<Line> {
        self@.code()
    }

    fn generate(&self) -> (lines: Vec<String>) {
        match self {
            CommandType::Arithmetic(command) => command.generate(),
            CommandType::MemoryAccess(command) => command.generate(),
            CommandType::Branching(command) => command.generate(),
            CommandType::Functional(command) => command.generate(),
        }
    }
}

} // verus!
