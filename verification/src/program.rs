//! The assembly of a whole module: how the lines that a translation puts
//! out make up one listing, in which the assembly of every command has its
//! place.

use vstd::prelude::*;
use crate::assembly::{text_of, Comp, Dest, Line};
use crate::machine::Program;
use crate::parser::{clean, command_at, heading, translation};

verus! {

/// The assembly of the first `upto` lines of `module`: that of each
/// command, one after the other. A line that holds what is no command
/// adds nothing.
pub open spec fn assembly(lines: Seq<Seq<char>>, module: Seq<char>, upto: nat) -> Seq<Line>
    decreases upto,
{
    if upto == 0 || upto > lines.len() {
        Seq::empty()
    } else {
        let before = assembly(lines, module, (upto - 1) as nat);
        if clean(lines[upto - 1]).len() == 0 {
            before
        } else {
            match command_at(lines, module, upto) {
                Ok(instruction) => before + instruction.code(),
                Err(_) => before,
            }
        }
    }
}

/// Whether `text` is a comment line.
pub open spec fn is_comment(text: Seq<char>) -> bool {
    text.len() >= 2 && text[0] == '/' && text[1] == '/'
}

/// `text` without its comment lines.
pub open spec fn without_comments(text: Seq<Seq<char>>) -> Seq<Seq<char>> {
    text.filter(|line: Seq<char>| !is_comment(line))
}

/// The destination part of an instruction is empty or begins with a
/// letter.
proof fn lemma_dest_text(dest: Dest)
    ensures
        dest.text().len() == 0 || dest.text()[0] != '/',
{
    reveal_strlit("");
    reveal_strlit("M=");
    reveal_strlit("D=");
    reveal_strlit("MD=");
    reveal_strlit("A=");
    reveal_strlit("AM=");
    reveal_strlit("AD=");
    reveal_strlit("AMD=");
}

/// The computation part of an instruction is not empty and does not begin
/// with a slash.
proof fn lemma_comp_text(comp: Comp)
    ensures
        comp.text().len() > 0,
        comp.text()[0] != '/',
{
    reveal_strlit("0");
    reveal_strlit("1");
    reveal_strlit("-1");
    reveal_strlit("D");
    reveal_strlit("A");
    reveal_strlit("M");
    reveal_strlit("!D");
    reveal_strlit("!A");
    reveal_strlit("!M");
    reveal_strlit("-D");
    reveal_strlit("-A");
    reveal_strlit("-M");
    reveal_strlit("D+1");
    reveal_strlit("A+1");
    reveal_strlit("M+1");
    reveal_strlit("D-1");
    reveal_strlit("A-1");
    reveal_strlit("M-1");
    reveal_strlit("D+A");
    reveal_strlit("D+M");
    reveal_strlit("D-A");
    reveal_strlit("D-M");
    reveal_strlit("A-D");
    reveal_strlit("M-D");
    reveal_strlit("D&A");
    reveal_strlit("D&M");
    reveal_strlit("D|A");
    reveal_strlit("D|M");
}

/// No line of assembly reads as a comment.
pub proof fn lemma_line_is_no_comment(line: Line)
    ensures
        !is_comment(line.text()),
{
    match line {
        Line::Address(operand) => {
            reveal_strlit("@");
            assert(line.text()[0] == '@');
        },
        Line::Label(symbol) => {
            reveal_strlit("(");
            assert(line.text()[0] == '(');
        },
        Line::Compute(dest, comp, jump) => {
            lemma_dest_text(dest);
            lemma_comp_text(comp);
            let text = line.text();
            if dest.text().len() == 0 {
                assert(text[0] == comp.text()[0]);
            } else {
                assert(text[0] == dest.text()[0]);
            }
        },
    }
}

/// The text of assembly holds no comment line.
pub proof fn lemma_code_keeps_its_text(code: Seq<Line>)
    ensures
        without_comments(text_of(code)) == text_of(code),
    decreases code.len(),
{
    reveal(Seq::filter);
    let text = text_of(code);
    if code.len() > 0 {
        lemma_code_keeps_its_text(code.drop_last());
        assert(text.drop_last() =~= text_of(code.drop_last()));
        lemma_line_is_no_comment(code.last());
        assert(text.last() == code.last().text());
        assert(text =~= text.drop_last().push(text.last()));
    }
}

/// What a translation puts out is, but for its comment lines, the text of
/// the module's assembly.
pub proof fn lemma_translation_is_assembly(lines: Seq<Seq<char>>, module: Seq<char>, upto: nat)
    requires
        upto <= lines.len(),
        translation(lines, module, upto) is Ok,
    ensures
        without_comments(translation(lines, module, upto)->Ok_0) == text_of(
            assembly(lines, module, upto),
        ),
    decreases upto,
{
    let keep = |line: Seq<char>| !is_comment(line);
    if upto == 0 {
        reveal(Seq::filter);
        assert(text_of(Seq::<Line>::empty()) =~= Seq::<Seq<char>>::empty());
    } else {
        lemma_translation_is_assembly(lines, module, (upto - 1) as nat);
        let command = clean(lines[upto - 1]);
        if command.len() > 0 {
            let before = translation(lines, module, (upto - 1) as nat)->Ok_0;
            let code = command_at(lines, module, upto)->Ok_0.code();
            let head = seq![heading(command)];
            reveal_strlit("// ");
            assert(is_comment(heading(command)));
            assert(head.filter(keep) =~= Seq::<Seq<char>>::empty()) by {
                reveal(Seq::filter);
                assert(head.drop_last() =~= Seq::<Seq<char>>::empty());
                assert(head.drop_last().filter(keep) =~= Seq::<Seq<char>>::empty());
            }
            lemma_code_keeps_its_text(code);
            Seq::filter_distributes_over_add(before, head, keep);
            Seq::filter_distributes_over_add(before + head, text_of(code), keep);
            assert(text_of(assembly(lines, module, (upto - 1) as nat) + code) =~= text_of(
                assembly(lines, module, (upto - 1) as nat),
            ) + text_of(code));
        }
    }
}

/// The assembly of a module grows line by line: that of fewer lines is
/// the beginning of that of more.
pub proof fn lemma_assembly_grows(lines: Seq<Seq<char>>, module: Seq<char>, fewer: nat, more: nat)
    requires
        fewer <= more <= lines.len(),
    ensures
        assembly(lines, module, fewer).len() <= assembly(lines, module, more).len(),
        assembly(lines, module, more).subrange(0, assembly(lines, module, fewer).len() as int)
            == assembly(lines, module, fewer),
    decreases more - fewer,
{
    let short = assembly(lines, module, fewer);
    if fewer < more {
        lemma_assembly_grows(lines, module, fewer, (more - 1) as nat);
        let middle = assembly(lines, module, (more - 1) as nat);
        let long = assembly(lines, module, more);
        assert(long.subrange(0, short.len() as int) =~= middle.subrange(0, short.len() as int));
    } else {
        assert(short.subrange(0, short.len() as int) =~= short);
    }
}

/// In a program whose listing is the assembly of a module, the assembly
/// of each command stands behind that of the lines before it.
pub proof fn lemma_command_in_program(
    p: Program,
    lines: Seq<Seq<char>>,
    module: Seq<char>,
    line: nat,
)
    requires
        p.listing == assembly(lines, module, lines.len()),
        1 <= line <= lines.len(),
        clean(lines[line - 1]).len() > 0,
        command_at(lines, module, line) is Ok,
    ensures
        p.holds(
            command_at(lines, module, line)->Ok_0.code(),
            assembly(lines, module, (line - 1) as nat).len() as int,
        ),
{
    let before = assembly(lines, module, (line - 1) as nat);
    let code = command_at(lines, module, line)->Ok_0.code();
    let upto = assembly(lines, module, line);
    assert(upto == before + code);
    lemma_assembly_grows(lines, module, line, lines.len());
    assert(p.listing.subrange(before.len() as int, (before.len() + code.len()) as int) =~= code) by {
        assert forall|i: int| 0 <= i < code.len() implies p.listing[before.len() + i]
            == code[i] by {
            assert(p.listing.subrange(0, upto.len() as int)[before.len() + i] == upto[before.len()
                + i]);
        }
    }
}

} // verus!
