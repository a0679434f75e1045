//! Moving one cell between the top of the stack and a memory segment.

use vstd::prelude::*;
use vstd::string::*;
use crate::assembly::{text_of, Comp, Dest, Jump, Line, Listing, Operand, Register};
use crate::commands::{Command, ErrorKind};
use crate::pattern::{captures, regex_captures};
use crate::text::{decimal, operand_value, parse_operand, same_text, to_decimal};

verus! {

/// The form of a memory access: `push` or `pop`, a segment, and a word
/// for the index.
pub const MEMORY_ACCESS_PATTERN: &'static str =
    r"^(push|pop)\s+(argument|local|this|that|static|pointer|temp|constant)\s+(\S+)$";

/// The largest index of a memory access: the largest number that an
/// address instruction can hold.
pub const MAX_INDEX: u16 = 32767;

/// The first of the eight cells of the `temp` segment.
pub const TEMP_BASE: u16 = 5;

/// The number of cells of the `temp` segment.
pub const TEMP_SIZE: u16 = 8;

/// The eight memory segments.
#[derive(Clone, Copy, Debug, PartialEq, Eq, Structural)]
pub enum MemorySegment {
    Lcl,
    Arg,
    This,
    That,
    Pointer,
    Temp,
    Static,
    Constant,
}

/// The direction of a memory access.
#[derive(Clone, Copy, Debug, PartialEq, Eq, Structural)]
pub enum MemoryCommandType {
    Push,
    Pop,
}

impl MemorySegment {
    /// The segments that begin where a named cell points.
    pub open spec fn is_relative(self) -> bool {
        self == MemorySegment::Lcl || self == MemorySegment::Arg || self == MemorySegment::This
            || self == MemorySegment::That
    }

    /// The cell that holds the base address of a relative segment.
    pub open spec fn base(self) -> Register {
        match self {
            MemorySegment::Lcl => Register::LCL,
            MemorySegment::Arg => Register::ARG,
            MemorySegment::This => Register::THIS,
            _ => Register::THAT,
        }
    }

    /// The segment that `word` names.
    pub open spec fn from_keyword(word: Seq<char>) -> Option<MemorySegment> {
        if word == "argument"@ {
            Some(MemorySegment::Arg)
        } else if word == "local"@ {
            Some(MemorySegment::Lcl)
        } else if word == "this"@ {
            Some(MemorySegment::This)
        } else if word == "that"@ {
            Some(MemorySegment::That)
        } else if word == "static"@ {
            Some(MemorySegment::Static)
        } else if word == "pointer"@ {
            Some(MemorySegment::Pointer)
        } else if word == "temp"@ {
            Some(MemorySegment::Temp)
        } else if word == "constant"@ {
            Some(MemorySegment::Constant)
        } else {
            None
        }
    }

    /// Whether the segment has a cell of index `index`.
    pub open spec fn admits(self, index: u16) -> bool {
        &&& index <= MAX_INDEX
        &&& self == MemorySegment::Pointer ==> index <= 1
        &&& self == MemorySegment::Temp ==> index < TEMP_SIZE
    }
}

impl MemoryCommandType {
    /// The direction that `word` names.
    pub open spec fn from_keyword(word: Seq<char>) -> Option<MemoryCommandType> {
        if word == "push"@ {
            Some(MemoryCommandType::Push)
        } else if word == "pop"@ {
            Some(MemoryCommandType::Pop)
        } else {
            None
        }
    }
}

/// The cell that `pointer index` stands for: `THIS` for 0, `THAT` for 1.
pub open spec fn pointer_cell(index: u16) -> Register {
    if index == 0 {
        Register::THIS
    } else {
        Register::THAT
    }
}

/// The symbol of the static cell `index` of `module`.
pub open spec fn static_symbol(module: Seq<char>, index: u16) -> Seq<char> {
    module + "."@ + decimal(index as nat)
}

/// Pushing the data register: the end of every push.
pub open spec fn push_d_code() -> Seq<Line> {
    seq![
        Line::Address(Operand::Cell(Register::SP)),
        Line::Compute(Dest::M, Comp::MPlusOne, Jump::Null),
        Line::Compute(Dest::A, Comp::MMinusOne, Jump::Null),
        Line::Compute(Dest::M, Comp::D, Jump::Null),
    ]
}

/// Popping into the data register: the beginning of a pop to a cell whose
/// address is known when the program is assembled.
pub open spec fn pop_d_code() -> Seq<Line> {
    seq![
        Line::Address(Operand::Cell(Register::SP)),
        Line::Compute(Dest::AM, Comp::MMinusOne, Jump::Null),
        Line::Compute(Dest::D, Comp::M, Jump::Null),
    ]
}

/// Pushing cell `index` of the segment that `base` points to.
pub open spec fn segment_push_code(base: Register, index: u16) -> Seq<Line> {
    seq![
        Line::Address(Operand::Constant(index)),
        Line::Compute(Dest::D, Comp::A, Jump::Null),
        Line::Address(Operand::Cell(base)),
        Line::Compute(Dest::A, Comp::DPlusM, Jump::Null),
        Line::Compute(Dest::D, Comp::M, Jump::Null),
    ] + push_d_code()
}

/// Pushing the number `value`.
pub open spec fn constant_push_code(value: u16) -> Seq<Line> {
    seq![
        Line::Address(Operand::Constant(value)),
        Line::Compute(Dest::D, Comp::A, Jump::Null),
    ] + push_d_code()
}

/// Pushing the cell that `operand` addresses.
pub open spec fn direct_push_code(operand: Operand) -> Seq<Line> {
    seq![Line::Address(operand), Line::Compute(Dest::D, Comp::M, Jump::Null)] + push_d_code()
}

/// Popping into cell `index` of the segment that `base` points to; the
/// address of the cell waits in the scratch cell.
pub open spec fn segment_pop_code(base: Register, index: u16) -> Seq<Line> {
    seq![
        Line::Address(Operand::Constant(index)),
        Line::Compute(Dest::D, Comp::A, Jump::Null),
        Line::Address(Operand::Cell(base)),
        Line::Compute(Dest::D, Comp::DPlusM, Jump::Null),
        Line::Address(Operand::Cell(Register::R13)),
        Line::Compute(Dest::M, Comp::D, Jump::Null),
        Line::Address(Operand::Cell(Register::SP)),
        Line::Compute(Dest::AM, Comp::MMinusOne, Jump::Null),
        Line::Compute(Dest::D, Comp::M, Jump::Null),
        Line::Address(Operand::Cell(Register::R13)),
        Line::Compute(Dest::A, Comp::M, Jump::Null),
        Line::Compute(Dest::M, Comp::D, Jump::Null),
    ]
}

/// Popping into nothing: the topmost cell is dropped.
pub open spec fn constant_pop_code() -> Seq<Line> {
    seq![
        Line::Address(Operand::Cell(Register::SP)),
        Line::Compute(Dest::AM, Comp::MMinusOne, Jump::Null),
    ]
}

/// Popping into the cell that `operand` addresses.
pub open spec fn direct_pop_code(operand: Operand) -> Seq<Line> {
    pop_d_code() + seq![Line::Address(operand), Line::Compute(Dest::M, Comp::D, Jump::Null)]
}

/// A memory access: direction, segment and index, and the module whose
/// static cells it means.
pub struct MemoryAccess {
    pub mode: MemoryCommandType,
    pub segment: MemorySegment,
    pub index: u16,
    pub module: Seq<char>,
}

impl MemoryAccess {
    /// The segment has the cell.
    pub open spec fn wf(self) -> bool {
        self.segment.admits(self.index)
    }

    /// What addresses the cell, for the segments whose cells have an
    /// address that is known when the program is assembled.
    pub open spec fn operand(self) -> Operand {
        match self.segment {
            MemorySegment::Pointer => Operand::Cell(pointer_cell(self.index)),
            MemorySegment::Temp => Operand::Constant((TEMP_BASE + self.index) as u16),
            _ => Operand::Symbol(static_symbol(self.module, self.index)),
        }
    }

    /// The assembly that the command stands for.
    pub open spec fn code(self) -> Seq<Line> {
        match self.mode {
            MemoryCommandType::Push => if self.segment.is_relative() {
                segment_push_code(self.segment.base(), self.index)
            } else if self.segment == MemorySegment::Constant {
                constant_push_code(self.index)
            } else {
                direct_push_code(self.operand())
            },
            MemoryCommandType::Pop => if self.segment.is_relative() {
                segment_pop_code(self.segment.base(), self.index)
            } else if self.segment == MemorySegment::Constant {
                constant_pop_code()
            } else {
                direct_pop_code(self.operand())
            },
        }
    }

    /// The command that the capture groups of a matched line give: the
    /// first group names the direction, the second the segment, and the
    /// third holds the index, which must be a number that the segment
    /// admits.
    pub open spec fn from_groups(groups: Seq<Option<Seq<char>>>, module: Seq<char>) -> Result<
        MemoryAccess,
        ErrorKind,
    > {
        if groups.len() < 4 || groups[1] is None || groups[2] is None || groups[3] is None {
            Err(ErrorKind::Malformed)
        } else {
            let mode = MemoryCommandType::from_keyword(groups[1]->Some_0);
            let segment = MemorySegment::from_keyword(groups[2]->Some_0);
            let index = operand_value(groups[3]->Some_0);
            if mode is None || segment is None {
                Err(ErrorKind::Malformed)
            } else if index is None || !segment->Some_0.admits(index->Some_0) {
                Err(ErrorKind::InvalidOperand)
            } else {
                Ok(
                    MemoryAccess {
                        mode: mode->Some_0,
                        segment: segment->Some_0,
                        index: index->Some_0,
                        module,
                    },
                )
            }
        }
    }

    /// The command that the line `command` holds.
    pub open spec fn read(command: Seq<char>, module: Seq<char>) -> Result<MemoryAccess, ErrorKind> {
        match regex_captures(MEMORY_ACCESS_PATTERN@, command) {
            Some(groups) => Self::from_groups(groups, module),
            None => Err(ErrorKind::Malformed),
        }
    }
}

/// A memory access read from a source line.
pub struct MemoryAccessCommand<'a> {
    file_name: &'a str,
    command_type: MemoryCommandType,
    segment: MemorySegment,
    i: u16,
}

impl<'a> View for MemoryAccessCommand<'a> {
    type V = MemoryAccess;

    closed spec fn view(&self) -> MemoryAccess {
        MemoryAccess {
            mode: self.command_type,
            segment: self.segment,
            index: self.i,
            module: self.file_name@,
        }
    }
}

/// Reads the name of a direction.
fn read_mode(word: &str) -> (mode: Option<MemoryCommandType>)
    ensures
        mode == MemoryCommandType::from_keyword(word@),
{
    if same_text(word, "push") {
        Some(MemoryCommandType::Push)
    } else if same_text(word, "pop") {
        Some(MemoryCommandType::Pop)
    } else {
        None
    }
}

/// Reads the name of a segment.
fn read_segment(word: &str) -> (segment: Option<MemorySegment>)
    ensures
        segment == MemorySegment::from_keyword(word@),
{
    if same_text(word, "argument") {
        Some(MemorySegment::Arg)
    } else if same_text(word, "local") {
        Some(MemorySegment::Lcl)
    } else if same_text(word, "this") {
        Some(MemorySegment::This)
    } else if same_text(word, "that") {
        Some(MemorySegment::That)
    } else if same_text(word, "static") {
        Some(MemorySegment::Static)
    } else if same_text(word, "pointer") {
        Some(MemorySegment::Pointer)
    } else if same_text(word, "temp") {
        Some(MemorySegment::Temp)
    } else if same_text(word, "constant") {
        Some(MemorySegment::Constant)
    } else {
        None
    }
}

impl<'a> MemoryAccessCommand<'a> {
    #[verifier::type_invariant]
    spec fn well_formed(&self) -> bool {
        self.segment.admits(self.i)
    }

    /// Makes the command from the capture groups of a matched line.
    pub fn from_captures(groups: &Vec<Option<String>>, file_name: &'a str) -> (made: Result<
        Self,
        ErrorKind,
    >)
        ensures
            made matches Ok(command) ==> MemoryAccess::from_groups(groups.deep_view(), file_name@)
                == Ok::<MemoryAccess, ErrorKind>(command@),
            made matches Err(kind) ==> MemoryAccess::from_groups(groups.deep_view(), file_name@)
                == Err::<MemoryAccess, ErrorKind>(kind),
    {
        let ghost given = groups.deep_view();
        assert(given.len() == groups@.len());
        if groups.len() < 4 {
            return Err(ErrorKind::Malformed);
        }
        assert(given[1] == groups@[1].deep_view());
        assert(given[2] == groups@[2].deep_view());
        assert(given[3] == groups@[3].deep_view());
        let (mode_word, segment_word, digits) = match (&groups[1], &groups[2], &groups[3]) {
            (Some(mode_word), Some(segment_word), Some(digits)) => (mode_word, segment_word, digits),
            _ => {
                return Err(ErrorKind::Malformed);
            },
        };
        let command_type = match read_mode(mode_word.as_str()) {
            Some(command_type) => command_type,
            None => {
                return Err(ErrorKind::Malformed);
            },
        };
        let segment = match read_segment(segment_word.as_str()) {
            Some(segment) => segment,
            None => {
                return Err(ErrorKind::Malformed);
            },
        };
        let i: u16 = match parse_operand(digits.as_str()) {
            Some(i) => i,
            None => {
                return Err(ErrorKind::InvalidOperand);
            },
        };
        if i > MAX_INDEX {
            return Err(ErrorKind::InvalidOperand);
        }
        if matches!(segment, MemorySegment::Pointer) && i > 1 {
            return Err(ErrorKind::InvalidOperand);
        }
        if matches!(segment, MemorySegment::Temp) && i >= TEMP_SIZE {
            return Err(ErrorKind::InvalidOperand);
        }
        Ok(MemoryAccessCommand { file_name, command_type, segment, i })
    }

    /// Reads a memory access from the line `command`. `file_name` names the
    /// module, whose static cells the command means.
    pub fn new(command: &'a str, file_name: &'a str) -> (made: Result<Self, ErrorKind>)
        ensures
            made matches Ok(command_read) ==> MemoryAccess::read(command@, file_name@) == Ok::<
                MemoryAccess,
                ErrorKind,
            >(command_read@),
            made matches Err(kind) ==> MemoryAccess::read(command@, file_name@) == Err::<
                MemoryAccess,
                ErrorKind,
            >(kind),
    {
        match captures(MEMORY_ACCESS_PATTERN, command) {
            Some(groups) => Self::from_captures(&groups, file_name),
            None => Err(ErrorKind::Malformed),
        }
    }

    /// The cell that holds the base address of this command's segment.
    fn base(&self) -> (base: Register)
        ensures
            base == self@.segment.base(),
    {
        match self.segment {
            MemorySegment::Lcl => Register::LCL,
            MemorySegment::Arg => Register::ARG,
            MemorySegment::This => Register::THIS,
            _ => Register::THAT,
        }
    }

    /// The cell that this command's index names in the `pointer` segment.
    fn pointer(&self) -> (cell: Register)
        ensures
            cell == pointer_cell(self@.index),
    {
        if self.i == 0 {
            Register::THIS
        } else {
            Register::THAT
        }
    }

    /// The symbol of this command's static cell.
    fn static_name(&self) -> (symbol: String)
        ensures
            symbol@ == static_symbol(self@.module, self@.index),
    {
        let numeral = to_decimal(self.i as usize);
        let mut symbol = String::from_str(self.file_name);
        symbol.append(".");
        symbol.append(numeral.as_str());
        symbol
    }

    /// Adds the push of the data register to `out`.
    fn push_d(out: &mut Listing)
        requires
            old(out).wf(),
        ensures
            final(out).wf(),
            final(out).code@ == old(out).code@ + push_d_code(),
    {
        out.cell(Register::SP);
        out.compute(Dest::M, Comp::MPlusOne, Jump::Null);
        out.compute(Dest::A, Comp::MMinusOne, Jump::Null);
        out.compute(Dest::M, Comp::D, Jump::Null);
        assert(out.code@ =~= old(out).code@ + push_d_code());
    }

    /// Writes the push of a cell of `local`, `argument`, `this` or `that`.
    pub fn handle_segment_push(&self) -> (lines: Vec<String>)
        requires
            self@.segment.is_relative(),
        ensures
            lines.deep_view() == text_of(segment_push_code(self@.segment.base(), self@.index)),
    {
        let segment = self.base();
        let mut out = Listing::new();
        out.constant(self.i);
        out.compute(Dest::D, Comp::A, Jump::Null);
        out.cell(segment);
        out.compute(Dest::A, Comp::DPlusM, Jump::Null);
        out.compute(Dest::D, Comp::M, Jump::Null);
        Self::push_d(&mut out);
        out.lines
    }

    /// Writes the push of a number.
    pub fn handle_constant_push(&self) -> (lines: Vec<String>)
        ensures
            lines.deep_view() == text_of(constant_push_code(self@.index)),
    {
        let mut out = Listing::new();
        out.constant(self.i);
        out.compute(Dest::D, Comp::A, Jump::Null);
        Self::push_d(&mut out);
        out.lines
    }

    /// Writes the push of `THIS` or `THAT`.
    pub fn handle_pointer_push(&self) -> (lines: Vec<String>)
        ensures
            lines.deep_view() == text_of(
                direct_push_code(Operand::Cell(pointer_cell(self@.index))),
            ),
    {
        let segment = self.pointer();
        let mut out = Listing::new();
        out.cell(segment);
        out.compute(Dest::D, Comp::M, Jump::Null);
        Self::push_d(&mut out);
        out.lines
    }

    /// Writes the push of a static cell of the module.
    pub fn handle_static_push(&self) -> (lines: Vec<String>)
        ensures
            lines.deep_view() == text_of(
                direct_push_code(Operand::Symbol(static_symbol(self@.module, self@.index))),
            ),
    {
        let symbol = self.static_name();
        let mut out = Listing::new();
        out.symbol(symbol.as_str());
        out.compute(Dest::D, Comp::M, Jump::Null);
        Self::push_d(&mut out);
        out.lines
    }

    /// Writes the push of a cell of `temp`.
    pub fn handle_temp_push(&self) -> (lines: Vec<String>)
        requires
            self@.segment == MemorySegment::Temp,
        ensures
            lines.deep_view() == text_of(
                direct_push_code(Operand::Constant((TEMP_BASE + self@.index) as u16)),
            ),
    {
        proof {
            use_type_invariant(self);
        }
        let mut out = Listing::new();
        out.constant(self.i + TEMP_BASE);
        out.compute(Dest::D, Comp::M, Jump::Null);
        Self::push_d(&mut out);
        out.lines
    }

    /// Writes the pop into a cell of `local`, `argument`, `this` or `that`.
    pub fn handle_segment_pop(&self) -> (lines: Vec<String>)
        requires
            self@.segment.is_relative(),
        ensures
            lines.deep_view() == text_of(segment_pop_code(self@.segment.base(), self@.index)),
    {
        let segment = self.base();
        let mut out = Listing::new();
        out.constant(self.i);
        out.compute(Dest::D, Comp::A, Jump::Null);
        out.cell(segment);
        out.compute(Dest::D, Comp::DPlusM, Jump::Null);
        out.cell(Register::R13);
        out.compute(Dest::M, Comp::D, Jump::Null);
        out.cell(Register::SP);
        out.compute(Dest::AM, Comp::MMinusOne, Jump::Null);
        out.compute(Dest::D, Comp::M, Jump::Null);
        out.cell(Register::R13);
        out.compute(Dest::A, Comp::M, Jump::Null);
        out.compute(Dest::M, Comp::D, Jump::Null);
        out.lines
    }

    /// Writes the pop that drops the topmost cell.
    pub fn handle_constant_pop(&self) -> (lines: Vec<String>)
        ensures
            lines.deep_view() == text_of(constant_pop_code()),
    {
        let mut out = Listing::new();
        out.cell(Register::SP);
        out.compute(Dest::AM, Comp::MMinusOne, Jump::Null);
        out.lines
    }

    /// Adds the pop into the data register to `out`, which must be empty.
    fn pop_d(out: &mut Listing)
        requires
            old(out).wf(),
            old(out).code@ == Seq::<Line>::empty(),
        ensures
            final(out).wf(),
            final(out).code@ == pop_d_code(),
    {
        out.cell(Register::SP);
        out.compute(Dest::AM, Comp::MMinusOne, Jump::Null);
        out.compute(Dest::D, Comp::M, Jump::Null);
        assert(out.code@ =~= pop_d_code());
    }

    /// Writes the pop into `THIS` or `THAT`.
    pub fn handle_pointer_pop(&self) -> (lines: Vec<String>)
        ensures
            lines.deep_view() == text_of(direct_pop_code(Operand::Cell(pointer_cell(self@.index)))),
    {
        let segment = self.pointer();
        let mut out = Listing::new();
        Self::pop_d(&mut out);
        out.cell(segment);
        out.compute(Dest::M, Comp::D, Jump::Null);
        assert(out.code@ =~= direct_pop_code(Operand::Cell(pointer_cell(self@.index))));
        out.lines
    }

    /// Writes the pop into a static cell of the module.
    pub fn handle_static_pop(&self) -> (lines: Vec<String>)
        ensures
            lines.deep_view() == text_of(
                direct_pop_code(Operand::Symbol(static_symbol(self@.module, self@.index))),
            ),
    {
        let symbol = self.static_name();
        let mut out = Listing::new();
        Self::pop_d(&mut out);
        out.symbol(symbol.as_str());
        out.compute(Dest::M, Comp::D, Jump::Null);
        assert(out.code@ =~= direct_pop_code(
            Operand::Symbol(static_symbol(self@.module, self@.index)),
        ));
        out.lines
    }

    /// Writes the pop into a cell of `temp`.
    pub fn handle_temp_pop(&self) -> (lines: Vec<String>)
        requires
            self@.segment == MemorySegment::Temp,
        ensures
            lines.deep_view() == text_of(
                direct_pop_code(Operand::Constant((TEMP_BASE + self@.index) as u16)),
            ),
    {
        proof {
            use_type_invariant(self);
        }
        let mut out = Listing::new();
        Self::pop_d(&mut out);
        out.constant(self.i + TEMP_BASE);
        out.compute(Dest::M, Comp::D, Jump::Null);
        assert(out.code@ =~= direct_pop_code(Operand::Constant((TEMP_BASE + self@.index) as u16)));
        out.lines
    }
}

impl<'a> Command for MemoryAccessCommand<'a> {
    open spec fn code(&self) -> Seq<Line> {
        self@.code()
    }

    fn generate(&self) -> (lines: Vec<String>) {
        match self.command_type {
            MemoryCommandType::Push => match self.segment {
                MemorySegment::Lcl
                | MemorySegment::Arg
                | MemorySegment::This
                | MemorySegment::That => self.handle_segment_push(),
                MemorySegment::Pointer => self.handle_pointer_push(),
                MemorySegment::Temp => self.handle_temp_push(),
                MemorySegment::Static => self.handle_static_push(),
                MemorySegment::Constant => self.handle_constant_push(),
            },
            MemoryCommandType::Pop => match self.segment {
                MemorySegment::Lcl
                | MemorySegment::Arg
                | MemorySegment::This
                | MemorySegment::That => self.handle_segment_pop(),
                MemorySegment::Pointer => self.handle_pointer_pop(),
                MemorySegment::Temp => self.handle_temp_pop(),
                MemorySegment::Static => self.handle_static_pop(),
                MemorySegment::Constant => self.handle_constant_pop(),
            },
        }
    }
}

} // verus!
