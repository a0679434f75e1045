//! Scanning the lines of a module: which lines hold a command, what each
//! command is, and the function and call count that the scan has reached.

use vstd::prelude::*;
use vstd::string::*;
use crate::commands::functional::{CALL_PATTERN, FUNCTION_PATTERN};
use crate::assembly::text_of;
use crate::commands::{Command, CommandType, ErrorKind, Instruction};
use crate::pattern::{captures, regex_captures};

verus! {

/// Whether `c` is white space, as Unicode defines it.
pub open spec fn is_whitespace(c: char) -> bool {
    let code = c as int;
    ||| 0x09 <= code <= 0x0D
    ||| code == 0x20
    ||| code == 0x85
    ||| code == 0xA0
    ||| code == 0x1680
    ||| 0x2000 <= code <= 0x200A
    ||| code == 0x2028
    ||| code == 0x2029
    ||| code == 0x202F
    ||| code == 0x205F
    ||| code == 0x3000
}

/// Where the first comment marker `//` at or after `from` begins, or the
/// length of `line` where there is none.
pub open spec fn comment_start(line: Seq<char>, from: int) -> int
    decreases line.len() - from,
{
    if from < 0 || from + 1 >= line.len() {
        line.len() as int
    } else if line[from] == '/' && line[from + 1] == '/' {
        from
    } else {
        comment_start(line, from + 1)
    }
}

/// The first place at or after `from` that holds no white space, or the
/// length of `text` where there is none.
pub open spec fn leading(text: Seq<char>, from: int) -> int
    decreases text.len() - from,
{
    if 0 <= from < text.len() && is_whitespace(text[from]) {
        leading(text, from + 1)
    } else {
        from
    }
}

/// The end of `text` between `low` and `high` once the white space before
/// `high` is taken off.
pub open spec fn trailing(text: Seq<char>, low: int, high: int) -> int
    decreases high - low,
{
    if low < high <= text.len() && is_whitespace(text[high - 1]) {
        trailing(text, low, high - 1)
    } else {
        high
    }
}

/// `text` without the white space at its two ends.
pub open spec fn trim(text: Seq<char>) -> Seq<char> {
    let low = leading(text, 0);
    let high = trailing(text, low, text.len() as int);
    text.subrange(low, high)
}

/// The command on a line: what stands before the first `//`, trimmed.
pub open spec fn clean(line: Seq<char>) -> Seq<char> {
    trim(line.take(comment_start(line, 0)))
}

/// Before the comment there is no comment marker, and where the comment
/// is said to begin there is one.
pub proof fn lemma_comment_start(line: Seq<char>, from: int)
    requires
        0 <= from <= line.len(),
    ensures
        from <= comment_start(line, from) <= line.len(),
        forall|i: int|
            from <= i < comment_start(line, from) && i + 1 < line.len() ==> !(#[trigger] line[i]
                == '/' && line[i + 1] == '/'),
        comment_start(line, from) < line.len() ==> line[comment_start(line, from)] == '/'
            && line[comment_start(line, from) + 1] == '/',
    decreases line.len() - from,
{
    if from + 1 < line.len() && !(line[from] == '/' && line[from + 1] == '/') {
        lemma_comment_start(line, from + 1);
    }
}

/// Up to the first place that holds no white space there is only white
/// space.
pub proof fn lemma_leading(text: Seq<char>, from: int)
    requires
        0 <= from <= text.len(),
    ensures
        from <= leading(text, from) <= text.len(),
        forall|i: int| from <= i < leading(text, from) ==> is_whitespace(#[trigger] text[i]),
        leading(text, from) < text.len() ==> !is_whitespace(text[leading(text, from)]),
    decreases text.len() - from,
{
    if from < text.len() && is_whitespace(text[from]) {
        lemma_leading(text, from + 1);
    }
}

/// What is taken off the end is white space, and what is left does not
/// end in white space.
pub proof fn lemma_trailing(text: Seq<char>, low: int, high: int)
    requires
        0 <= low <= high <= text.len(),
    ensures
        low <= trailing(text, low, high) <= high,
        forall|i: int| trailing(text, low, high) <= i < high ==> is_whitespace(#[trigger] text[i]),
        low < trailing(text, low, high) ==> !is_whitespace(text[trailing(text, low, high) - 1]),
    decreases high - low,
{
    if low < high && is_whitespace(text[high - 1]) {
        lemma_trailing(text, low, high - 1);
    }
}

/// The command on a line is a part of the line that holds no comment
/// marker and neither begins nor ends with white space; what stands
/// before it on the line is white space.
pub proof fn lemma_clean(line: Seq<char>)
    ensures
        forall|i: int|
            0 <= i && i + 1 < clean(line).len() ==> !(#[trigger] clean(line)[i] == '/' && clean(
                line,
            )[i + 1] == '/'),
        clean(line).len() > 0 ==> !is_whitespace(clean(line)[0]) && !is_whitespace(
            clean(line).last(),
        ),
        ({
            let low = leading(line.take(comment_start(line, 0)), 0);
            &&& 0 <= low
            &&& low + clean(line).len() <= line.len()
            &&& clean(line) == line.subrange(low, low + clean(line).len())
            &&& forall|i: int| 0 <= i < low ==> is_whitespace(#[trigger] line[i])
        }),
{
    let end = comment_start(line, 0);
    lemma_comment_start(line, 0);
    let text = line.take(end);
    let low = leading(text, 0);
    lemma_leading(text, 0);
    let high = trailing(text, low, end);
    lemma_trailing(text, low, end);
    let command = clean(line);
    assert(command == text.subrange(low, high));
    assert(command =~= line.subrange(low, low + command.len()));
    assert forall|i: int| 0 <= i < low implies is_whitespace(#[trigger] line[i]) by {
        assert(text[i] == line[i]);
    }
    assert forall|i: int| 0 <= i && i + 1 < command.len() implies !(#[trigger] command[i] == '/'
        && command[i + 1] == '/') by {
        assert(command[i] == line[low + i]);
        assert(command[i + 1] == line[low + i + 1]);
    }
}

/// The first line at or after `from` that holds a command, or the number
/// of lines where there is none.
pub open spec fn next_command(lines: Seq<Seq<char>>, from: int) -> int
    decreases lines.len() - from,
{
    if 0 <= from < lines.len() && clean(lines[from]).len() == 0 {
        next_command(lines, from + 1)
    } else {
        from
    }
}

/// What a scan remembers between lines: the function whose text it is in,
/// and the number of calls that it has met in that function.
pub struct Context {
    pub function: Option<Seq<char>>,
    pub calls: nat,
}

impl Context {
    /// The context before the first line.
    pub open spec fn start() -> Context {
        Context { function: None, calls: 0 }
    }

    /// The function that `command` declares, if it declares one.
    pub open spec fn declared(command: Seq<char>) -> Option<Seq<char>> {
        match regex_captures(FUNCTION_PATTERN@, command) {
            Some(groups) => if groups.len() > 1 {
                groups[1]
            } else {
                None
            },
            None => None,
        }
    }

    /// Whether `command` is a call.
    pub open spec fn is_call(command: Seq<char>) -> bool {
        regex_captures(CALL_PATTERN@, command) is Some
    }

    /// The context in which `command` is read: a declaration enters its
    /// function and starts the count of calls again; a call counts.
    pub open spec fn after(self, command: Seq<char>) -> Context {
        let entered = match Self::declared(command) {
            Some(name) => Context { function: Some(name), calls: 0 },
            None => self,
        };
        if Self::is_call(command) {
            Context { function: entered.function, calls: entered.calls + 1 }
        } else {
            entered
        }
    }

    /// The context that a scan of the first `upto` lines ends in.
    pub open spec fn at(lines: Seq<Seq<char>>, upto: nat) -> Context
        decreases upto,
    {
        if upto == 0 || upto > lines.len() {
            Self::start()
        } else if clean(lines[upto - 1]).len() == 0 {
            Self::at(lines, (upto - 1) as nat)
        } else {
            Self::at(lines, (upto - 1) as nat).after(clean(lines[upto - 1]))
        }
    }
}

/// A scan of a module: its lines, its name, the number of lines that the
/// scan has passed, and the context that it is in.
pub struct Scan {
    pub lines: Seq<Seq<char>>,
    pub module: Seq<char>,
    pub cursor: nat,
    pub context: Context,
}

impl Scan {
    /// The cursor is inside the text, and the context is that of the lines
    /// passed.
    pub open spec fn wf(self) -> bool {
        &&& self.cursor <= self.lines.len()
        &&& self.context == Context::at(self.lines, self.cursor)
    }
}

/// The comment that stands before the assembly of `command` in the
/// translation of a module.
pub open spec fn heading(command: Seq<char>) -> Seq<char> {
    "// "@ + command
}

/// The command on line `line` of `module`, counted from one, as the scan
/// reads it.
pub open spec fn command_at(lines: Seq<Seq<char>>, module: Seq<char>, line: nat) -> Result<
    Instruction,
    ErrorKind,
>
    recommends
        1 <= line <= lines.len(),
{
    Instruction::read(
        clean(lines[line - 1]),
        module,
        Context::at(lines, line).function,
        Context::at(lines, line).calls,
        line,
    )
}

/// The translation of the first `upto` lines of `module`: for every line
/// that holds a command, a comment with the command and then the assembly
/// of the command; or, where a line holds what is no command, the kind of
/// the first such fault and the text that has it.
pub open spec fn translation(lines: Seq<Seq<char>>, module: Seq<char>, upto: nat) -> Result<
    Seq<Seq<char>>,
    (ErrorKind, Seq<char>),
>
    decreases upto,
{
    if upto == 0 || upto > lines.len() {
        Ok(Seq::empty())
    } else {
        match translation(lines, module, (upto - 1) as nat) {
            Err(fault) => Err(fault),
            Ok(before) => {
                let command = clean(lines[upto - 1]);
                if command.len() == 0 {
                    Ok(before)
                } else {
                    match command_at(lines, module, upto) {
                        Ok(instruction) => Ok(
                            before + seq![heading(command)] + text_of(instruction.code()),
                        ),
                        Err(kind) => Err((kind, command)),
                    }
                }
            },
        }
    }
}

/// Up to the next command the lines hold none, and where the next command
/// is said to be there is one.
pub proof fn lemma_next_command(lines: Seq<Seq<char>>, from: int)
    requires
        0 <= from <= lines.len(),
    ensures
        from <= next_command(lines, from) <= lines.len(),
        forall|line: int|
            from <= line < next_command(lines, from) ==> clean(#[trigger] lines[line]).len() == 0,
        next_command(lines, from) < lines.len() ==> clean(lines[next_command(lines, from)]).len()
            > 0,
    decreases lines.len() - from,
{
    if from < lines.len() && clean(lines[from]).len() == 0 {
        lemma_next_command(lines, from + 1);
    }
}

/// Lines that hold no command add nothing to the translation and leave
/// the context as it was.
pub proof fn lemma_blank_lines(lines: Seq<Seq<char>>, module: Seq<char>, from: nat, to: nat)
    requires
        from <= to <= lines.len(),
        forall|line: int| from <= line < to ==> clean(#[trigger] lines[line]).len() == 0,
    ensures
        translation(lines, module, to) == translation(lines, module, from),
        Context::at(lines, to) == Context::at(lines, from),
    decreases to - from,
{
    if from < to {
        lemma_blank_lines(lines, module, from, (to - 1) as nat);
        assert(clean(lines[to - 1]).len() == 0);
    }
}

/// The first fault is the one that the translation ends with.
pub proof fn lemma_fault_stays(lines: Seq<Seq<char>>, module: Seq<char>, from: nat, to: nat)
    requires
        from <= to <= lines.len(),
        translation(lines, module, from) is Err,
    ensures
        translation(lines, module, to) == translation(lines, module, from),
    decreases to - from,
{
    if from < to {
        lemma_fault_stays(lines, module, from, (to - 1) as nat);
    }
}

/// Why a module is not translated: the kind of fault, and the command
/// that has it.
pub struct TranslationError {
    pub kind: ErrorKind,
    pub line: String,
}

/// Whether `c` is white space.
fn whitespace(c: char) -> (blank: bool)
    ensures
        blank == is_whitespace(c),
{
    let code: u32 = c as u32;
    (0x09 <= code && code <= 0x0D) || code == 0x20 || code == 0x85 || code == 0xA0 || code
        == 0x1680 || (0x2000 <= code && code <= 0x200A) || code == 0x2028 || code == 0x2029 || code
        == 0x202F || code == 0x205F || code == 0x3000
}

/// The scanning driver of one module.
pub struct Parser {
    lines: Vec<String>,
    file_name: String,
    nth: usize,
    function_name: Option<String>,
    ret: usize,
}

impl View for Parser {
    type V = Scan;

    closed spec fn view(&self) -> Scan {
        Scan {
            lines: self.lines.deep_view(),
            module: self.file_name@,
            cursor: self.nth as nat,
            context: Context { function: self.function_name.deep_view(), calls: self.ret as nat },
        }
    }
}

impl Parser {
    #[verifier::type_invariant]
    spec fn in_bounds(&self) -> bool {
        &&& self.nth <= self.lines.len()
        &&& self.ret <= self.nth
    }

    /// Starts the scan of the module `file_name`, whose text is `lines`.
    pub fn new(file_name: String, lines: Vec<String>) -> (parser: Self)
        ensures
            parser@ == (Scan {
                lines: lines.deep_view(),
                module: file_name@,
                cursor: 0,
                context: Context::start(),
            }),
            parser@.wf(),
    {
        Parser { lines, file_name, nth: 0, function_name: None, ret: 0 }
    }

    /// The command on the line `command`: what stands before the first
    /// `//`, without the white space at its two ends.
    pub fn clean(command: &str) -> (cleaned: &str)
        ensures
            cleaned@ == clean(command@),
    {
        let len: usize = command.unicode_len();
        let mut end: usize = 0;
        let mut found: bool = false;
        while !found && end < len
            invariant
                len == command@.len(),
                end <= len,
                comment_start(command@, 0) == comment_start(command@, end as int),
                found ==> comment_start(command@, end as int) == end,
            decreases len - end + if found { 0int } else { 1int },
        {
            if end + 1 >= len {
                end = len;
            } else if command.get_char(end) == '/' && command.get_char(end + 1) == '/' {
                found = true;
            } else {
                end = end + 1;
            }
        }
        let ghost text = command@.take(end as int);
        let mut low: usize = 0;
        while low < end && whitespace(command.get_char(low))
            invariant
                len == command@.len(),
                low <= end <= len,
                text == command@.take(end as int),
                leading(text, 0) == leading(text, low as int),
            decreases end - low,
        {
            low = low + 1;
        }
        let mut high: usize = end;
        while low < high && whitespace(command.get_char(high - 1))
            invariant
                len == command@.len(),
                low <= high <= end <= len,
                text == command@.take(end as int),
                trailing(text, low as int, end as int) == trailing(text, low as int, high as int),
            decreases high - low,
        {
            high = high - 1;
        }
        assert(command@.subrange(low as int, high as int) =~= text.subrange(low as int, high as int));
        command.substring_char(low, high)
    }

    /// Whether a command is left. If one is, the scan passes it: the cursor
    /// stands behind its line, and the context is the one that the command
    /// is read in.
    pub fn has_more_command(&mut self) -> (more: bool)
        ensures
            more == (next_command(old(self)@.lines, old(self)@.cursor as int) < old(self)@.lines.len()),
            more ==> final(self)@ == (Scan {
                lines: old(self)@.lines,
                module: old(self)@.module,
                cursor: (next_command(old(self)@.lines, old(self)@.cursor as int) + 1) as nat,
                context: old(self)@.context.after(
                    clean(
                        old(self)@.lines[next_command(old(self)@.lines, old(self)@.cursor as int)],
                    ),
                ),
            }),
            !more ==> final(self)@ == old(self)@,
            more ==> old(self)@.cursor < final(self)@.cursor,
            final(self)@.cursor <= final(self)@.lines.len(),
            old(self)@.wf() ==> final(self)@.wf(),
    {
        proof {
            use_type_invariant(&*self);
        }
        let ghost lines = self.lines.deep_view();
        let ghost start = self.nth as int;
        assert(lines.len() == self.lines@.len());
        let mut at: usize = self.nth;
        while at < self.lines.len()
            invariant
                lines == self.lines.deep_view(),
                lines.len() == self.lines@.len(),
                start <= at <= lines.len(),
                next_command(lines, start) == next_command(lines, at as int),
                Context::at(lines, start as nat) == Context::at(lines, at as nat),
                *self == *old(self),
                start == self.nth,
                self.ret <= self.nth,
            decreases self.lines.len() - at,
        {
            assert(lines[at as int] == self.lines@[at as int]@);
            let command: &str = Self::clean(self.lines[at].as_str());
            if command.unicode_len() > 0 {
                let entered: Option<String> = match captures(FUNCTION_PATTERN, command) {
                    Some(groups) => if groups.len() > 1 {
                        let mut groups = groups;
                        let ghost given = groups.deep_view();
                        assert(given[1] == groups@[1].deep_view());
                        groups.swap_remove(1)
                    } else {
                        None
                    },
                    None => None,
                };
                let call: bool = captures(CALL_PATTERN, command).is_some();
                self.nth = at + 1;
                match entered {
                    Some(name) => {
                        self.function_name = Some(name);
                        self.ret = 0;
                    },
                    None => {},
                }
                if call {
                    self.ret = self.ret + 1;
                }
                return true;
            }
            at = at + 1;
        }
        false
    }

    /// The command that the scan has just passed, as text and as a value,
    /// or the fault in it.
    pub fn advance<'a>(&'a self) -> (read: Result<(String, CommandType<'a>), TranslationError>)
        requires
            self@.cursor >= 1,
        ensures
            self@.cursor <= self@.lines.len(),
            read matches Ok(pair) ==> pair.0@ == clean(self@.lines[self@.cursor - 1])
                && Instruction::read(
                pair.0@,
                self@.module,
                self@.context.function,
                self@.context.calls,
                self@.cursor,
            ) == Ok::<Instruction, ErrorKind>(pair.1@),
            read matches Err(fault) ==> fault.line@ == clean(self@.lines[self@.cursor - 1])
                && Instruction::read(
                fault.line@,
                self@.module,
                self@.context.function,
                self@.context.calls,
                self@.cursor,
            ) == Err::<Instruction, ErrorKind>(fault.kind),
    {
        proof {
            use_type_invariant(self);
        }
        assert(self.lines.deep_view()[self.nth - 1] == self.lines@[self.nth - 1]@);
        let command: &str = Self::clean(self.lines[self.nth - 1].as_str());
        let function_name: Option<&str> = match &self.function_name {
            Some(name) => Some(name.as_str()),
            None => None,
        };
        match CommandType::new(command, self.file_name.as_str(), function_name, self.ret, self.nth) {
            Ok(made) => Ok((String::from_str(command), made)),
            Err(kind) => Err(TranslationError { kind, line: String::from_str(command) }),
        }
    }
}

/// Translates the module `file_name`, whose text is `lines`: for every
/// line that holds a command, a comment with the command and then its
/// assembly. The first line that holds what is no command ends the
/// translation with the fault.
#[verifier::loop_isolation(false)]
pub fn translate(file_name: String, lines: Vec<String>) -> (translated: Result<
    Vec<String>,
    TranslationError,
>)
    ensures
        match translation(lines.deep_view(), file_name@, lines.len() as nat) {
            Ok(text) => translated is Ok && translated->Ok_0.deep_view() == text,
            Err(fault) => translated is Err && translated->Err_0.kind == fault.0
                && translated->Err_0.line@ == fault.1,
        },
{
    let ghost text = lines.deep_view();
    let ghost module = file_name@;
    assert(text.len() == lines@.len());
    let mut parser = Parser::new(file_name, lines);
    let mut out: Vec<String> = Vec::new();
    assert(out.deep_view() =~= Seq::<Seq<char>>::empty());
    proof {
        lemma_next_command(text, 0);
        lemma_blank_lines(text, module, 0, next_command(text, 0) as nat);
    }
    let mut more = parser.has_more_command();
    while more
        invariant
            parser@.wf(),
            parser@.lines == text,
            parser@.module == module,
            more ==> parser@.cursor >= 1 && clean(text[parser@.cursor - 1]).len() > 0
                && translation(text, module, (parser@.cursor - 1) as nat) == Ok::<
                Seq<Seq<char>>,
                (ErrorKind, Seq<char>),
            >(out.deep_view()),
            !more ==> translation(text, module, text.len()) == Ok::<
                Seq<Seq<char>>,
                (ErrorKind, Seq<char>),
            >(out.deep_view()),
        decreases
                text.len() - parser@.cursor + if more {
                    1int
                } else {
                    0int
                },
    {
        let ghost line = parser@.cursor;
        match parser.advance() {
            Ok((command, made)) => {
                let mut heading = String::from_str("// ");
                heading.append(command.as_str());
                let mut code = made.generate();
                let ghost written = out.deep_view();
                let ghost added = code.deep_view();
                out.push(heading);
                assert(out.deep_view() =~= written + seq![heading@]);
                let ghost headed = out.deep_view();
                let ghost head_strings = out@;
                let ghost code_strings = code@;
                out.append(&mut code);
                assert(out.deep_view() =~= headed + added) by {
                    assert(out@ == head_strings + code_strings);
                    assert(headed.len() == head_strings.len());
                    assert(added.len() == code_strings.len());
                    assert forall|i: int| 0 <= i < out@.len() implies out.deep_view()[i] == (headed
                        + added)[i] by {
                        assert(out.deep_view()[i] == out@[i]@);
                        if i < headed.len() {
                            assert(headed[i] == head_strings[i]@);
                        } else {
                            assert(added[i - headed.len()] == code_strings[i - headed.len()]@);
                        }
                    }
                }
                assert(translation(text, module, line) == Ok::<
                    Seq<Seq<char>>,
                    (ErrorKind, Seq<char>),
                >(out.deep_view()));
            },
            Err(fault) => {
                proof {
                    lemma_fault_stays(text, module, line, text.len());
                }
                return Err(fault);
            },
        }
        proof {
            lemma_next_command(text, line as int);
            lemma_blank_lines(text, module, line, next_command(text, line as int) as nat);
        }
        more = parser.has_more_command();
    }
    Ok(out)
}

} // verus!
