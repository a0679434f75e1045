//! The symbols that the translation makes up, and which of them are sure
//! to differ.

use vstd::prelude::*;
use crate::assembly::{Line, Operand};
use crate::commands::arithmetic::{end_label, true_label, Arithmetic};
use crate::commands::branching::{branch_symbol, Branching, BranchingCommandType};
use crate::commands::functional::{return_label, Functional};
use crate::commands::Instruction;
use crate::commands::memory_access::static_symbol;
use crate::parser::{clean, command_at, Context};
use crate::text::{decimal, is_digit, lemma_decimal_injective, lemma_number_of_decimal};

verus! {

/// A text that ends in something other than a digit, followed by a
/// numeral, can be taken apart in one way only.
pub proof fn lemma_numbered_injective(a: Seq<char>, n: nat, b: Seq<char>, k: nat)
    requires
        a.len() > 0,
        !is_digit(a.last()),
        b.len() > 0,
        !is_digit(b.last()),
        a + decimal(n) == b + decimal(k),
    ensures
        a == b,
        n == k,
{
    let whole = a + decimal(n);
    let dn = decimal(n);
    let dk = decimal(k);
    lemma_number_of_decimal(n);
    lemma_number_of_decimal(k);
    assert(whole.len() == a.len() + dn.len());
    assert(whole.len() == b.len() + dk.len());
    if dn.len() < dk.len() {
        let i = a.len() - 1;
        assert(whole[i] == a.last());
        assert((b + dk)[i] == dk[i - b.len()]);
        assert(false);
    }
    if dk.len() < dn.len() {
        let i = b.len() - 1;
        assert((b + dk)[i] == b.last());
        assert(whole[i] == dn[i - a.len()]);
        assert(false);
    }
    assert(a =~= b) by {
        assert forall|i: int| 0 <= i < a.len() implies a[i] == b[i] by {
            assert(whole[i] == a[i]);
            assert((b + dk)[i] == b[i]);
        }
    }
    assert(dn =~= dk) by {
        assert forall|i: int| 0 <= i < dn.len() implies dn[i] == dk[i] by {
            assert(whole[a.len() + i] == dn[i]);
            assert((b + dk)[b.len() + i] == dk[i]);
        }
    }
    lemma_decimal_injective(n, k);
}

/// Texts that differ still differ when the same text follows each.
proof fn lemma_same_ending(a: Seq<char>, b: Seq<char>, ending: Seq<char>)
    requires
        a + ending == b + ending,
    ensures
        a == b,
{
    assert((a + ending).len() == a.len() + ending.len());
    assert((b + ending).len() == b.len() + ending.len());
    assert(a =~= b) by {
        assert forall|i: int| 0 <= i < a.len() implies a[i] == b[i] by {
            assert((a + ending)[i] == a[i]);
            assert((b + ending)[i] == b[i]);
        }
    }
}

/// The static cells of two modules, or two cells of one module, have
/// different symbols.
pub proof fn lemma_static_symbols_distinct(
    module: Seq<char>,
    index: u16,
    other_module: Seq<char>,
    other_index: u16,
)
    requires
        module != other_module || index != other_index,
    ensures
        static_symbol(module, index) != static_symbol(other_module, other_index),
{
    reveal_strlit(".");
    let dot = "."@;
    assert(dot.len() == 1 && dot[0] == '.');
    if static_symbol(module, index) == static_symbol(other_module, other_index) {
        assert((module + dot).last() == '.');
        assert((other_module + dot).last() == '.');
        lemma_numbered_injective(
            module + dot,
            index as nat,
            other_module + dot,
            other_index as nat,
        );
        lemma_same_ending(module, other_module, dot);
    }
}

/// Two calls that differ in their function or in their ordinal resume at
/// different symbols.
pub proof fn lemma_return_labels_distinct(
    caller: Seq<char>,
    ordinal: nat,
    other_caller: Seq<char>,
    other_ordinal: nat,
)
    requires
        caller != other_caller || ordinal != other_ordinal,
    ensures
        return_label(caller, ordinal) != return_label(other_caller, other_ordinal),
{
    reveal_strlit("$ret.");
    let infix = "$ret."@;
    assert(infix.len() == 5 && infix[4] == '.');
    if return_label(caller, ordinal) == return_label(other_caller, other_ordinal) {
        assert((caller + infix).last() == '.');
        assert((other_caller + infix).last() == '.');
        lemma_numbered_injective(caller + infix, ordinal, other_caller + infix, other_ordinal);
        lemma_same_ending(caller, other_caller, infix);
    }
}

/// The two symbols of a comparison differ from each other and from those
/// of every comparison on another line or in another module.
pub proof fn lemma_comparison_labels_distinct(
    module: Seq<char>,
    position: nat,
    other_module: Seq<char>,
    other_position: nat,
)
    ensures
        true_label(module, position) != end_label(other_module, other_position),
        module != other_module || position != other_position ==> true_label(module, position)
            != true_label(other_module, other_position) && end_label(module, position)
            != end_label(other_module, other_position),
{
    reveal_strlit("$true.");
    reveal_strlit("$end.");
    let on_true = "$true."@;
    let end = "$end."@;
    assert(on_true.len() == 6 && on_true[5] == '.' && on_true[4] == 'e');
    assert(end.len() == 5 && end[4] == '.' && end[3] == 'd');
    assert((module + on_true).last() == '.');
    assert((other_module + on_true).last() == '.');
    assert((module + end).last() == '.');
    assert((other_module + end).last() == '.');
    if true_label(module, position) == end_label(other_module, other_position) {
        lemma_numbered_injective(module + on_true, position, other_module + end, other_position);
        let a = module + on_true;
        let b = other_module + end;
        assert(a[a.len() - 2] == 'e');
        assert(b[b.len() - 2] == 'd');
    }
    if true_label(module, position) == true_label(other_module, other_position) {
        lemma_numbered_injective(
            module + on_true,
            position,
            other_module + on_true,
            other_position,
        );
        lemma_same_ending(module, other_module, on_true);
    }
    if end_label(module, position) == end_label(other_module, other_position) {
        lemma_numbered_injective(module + end, position, other_module + end, other_position);
        lemma_same_ending(module, other_module, end);
    }
}

/// A jump to a label, conditional or not, names the very symbol that the
/// declaration of that label in the same function declares: the name of
/// the function, `$`, and the label.
pub proof fn lemma_jump_names_label(function: Seq<char>, label: Seq<char>)
    ensures
        ({
            let symbol = function + "$"@ + label;
            &&& (Branching { kind: BranchingCommandType::Label, label, function }).code()
                == seq![Line::Label(symbol)]
            &&& (Branching { kind: BranchingCommandType::Goto, label, function }).code()[0]
                == Line::Address(Operand::Symbol(symbol))
            &&& (Branching { kind: BranchingCommandType::IfGoto, label, function }).code()[3]
                == Line::Address(Operand::Symbol(symbol))
        }),
{
}

/// Whether `text` holds no `$`.
pub open spec fn is_plain(text: Seq<char>) -> bool {
    forall|i: int| 0 <= i < text.len() ==> #[trigger] text[i] != '$'
}

/// Two labels that hold no `$` have different symbols unless they are the
/// same label of the same function.
pub proof fn lemma_branch_symbols_distinct(
    function: Seq<char>,
    label: Seq<char>,
    other_function: Seq<char>,
    other_label: Seq<char>,
)
    requires
        is_plain(label),
        is_plain(other_label),
        function != other_function || label != other_label,
    ensures
        branch_symbol(function, label) != branch_symbol(other_function, other_label),
{
    reveal_strlit("$");
    let mark = "$"@;
    assert(mark.len() == 1 && mark[0] == '$');
    let one = branch_symbol(function, label);
    let other = branch_symbol(other_function, other_label);
    if one == other {
        assert(one.len() == function.len() + 1 + label.len());
        assert(other.len() == other_function.len() + 1 + other_label.len());
        if label.len() < other_label.len() {
            let i = function.len() as int;
            assert(one[i] == '$');
            assert(other[i] == other_label[i - other_function.len() - 1]);
            assert(false);
        }
        if other_label.len() < label.len() {
            let i = other_function.len() as int;
            assert(other[i] == '$');
            assert(one[i] == label[i - function.len() - 1]);
            assert(false);
        }
        assert(function =~= other_function) by {
            assert forall|i: int| 0 <= i < function.len() implies function[i]
                == other_function[i] by {
                assert(one[i] == function[i]);
                assert(other[i] == other_function[i]);
            }
        }
        assert(label =~= other_label) by {
            assert forall|i: int| 0 <= i < label.len() implies label[i] == other_label[i] by {
                assert(one[function.len() + 1 + i] == label[i]);
                assert(other[function.len() + 1 + i] == other_label[i]);
            }
        }
    }
}

/// Whether no line from line `from` up to line `to`, counted from one,
/// declares a function.
pub open spec fn in_one_function(lines: Seq<Seq<char>>, from: nat, to: nat) -> bool {
    forall|line: int|
        from <= line <= to && 1 <= line <= lines.len() ==> clean(#[trigger] lines[line - 1]).len()
            == 0 || Context::declared(clean(lines[line - 1])) is None
}

/// Inside one function the scan stays in that function, and its count of
/// calls does not go down.
pub proof fn lemma_calls_do_not_decrease(lines: Seq<Seq<char>>, from: nat, to: nat)
    requires
        from <= to <= lines.len(),
        in_one_function(lines, from + 1, to),
    ensures
        Context::at(lines, to).function == Context::at(lines, from).function,
        Context::at(lines, from).calls <= Context::at(lines, to).calls,
    decreases to - from,
{
    if from < to {
        lemma_calls_do_not_decrease(lines, from, (to - 1) as nat);
        let line = lines[to - 1];
        assert(clean(line).len() == 0 || Context::declared(clean(line)) is None);
    }
}

/// Two calls in the text of one function have different ordinals, the
/// later call the larger, and resume at different symbols.
pub proof fn lemma_calls_are_numbered(lines: Seq<Seq<char>>, first: nat, second: nat)
    requires
        1 <= first < second <= lines.len(),
        clean(lines[second - 1]).len() > 0,
        Context::is_call(clean(lines[second - 1])),
        in_one_function(lines, first + 1, second),
    ensures
        Context::at(lines, second).function == Context::at(lines, first).function,
        Context::at(lines, first).calls < Context::at(lines, second).calls,
        forall|caller: Seq<char>|
            return_label(caller, Context::at(lines, first).calls) != #[trigger] return_label(
                caller,
                Context::at(lines, second).calls,
            ),
{
    lemma_calls_do_not_decrease(lines, first, (second - 1) as nat);
    let line = lines[second - 1];
    assert(clean(line).len() == 0 || Context::declared(clean(line)) is None);
    assert forall|caller: Seq<char>|
        return_label(caller, Context::at(lines, first).calls) != #[trigger] return_label(
            caller,
            Context::at(lines, second).calls,
        ) by {
        lemma_return_labels_distinct(
            caller,
            Context::at(lines, first).calls,
            caller,
            Context::at(lines, second).calls,
        );
    }
}

/// The four symbols of two comparisons: each comparison has two, and no
/// symbol of the one is a symbol of the other.
pub open spec fn jump_apart(one: Arithmetic, other: Arithmetic) -> bool {
    &&& true_label(one.module, one.position) != end_label(one.module, one.position)
    &&& true_label(other.module, other.position) != end_label(other.module, other.position)
    &&& true_label(one.module, one.position) != true_label(other.module, other.position)
    &&& true_label(one.module, one.position) != end_label(other.module, other.position)
    &&& end_label(one.module, one.position) != true_label(other.module, other.position)
    &&& end_label(one.module, one.position) != end_label(other.module, other.position)
}

/// Two arithmetic commands on different lines, or in modules of different
/// names, share no symbol.
pub proof fn lemma_comparisons_jump_apart(
    lines: Seq<Seq<char>>,
    module: Seq<char>,
    line: nat,
    other_lines: Seq<Seq<char>>,
    other_module: Seq<char>,
    other_line: nat,
)
    requires
        module != other_module || line != other_line,
        command_at(lines, module, line) matches Ok(Instruction::Arithmetic(_)),
        command_at(other_lines, other_module, other_line) matches Ok(Instruction::Arithmetic(_)),
    ensures
        ({
            let one = command_at(lines, module, line)->Ok_0->Arithmetic_0;
            let other = command_at(other_lines, other_module, other_line)->Ok_0->Arithmetic_0;
            &&& one.module == module && one.position == line
            &&& other.module == other_module && other.position == other_line
            &&& jump_apart(one, other)
        }),
{
    lemma_comparison_labels_distinct(module, line, other_module, other_line);
    lemma_comparison_labels_distinct(other_module, other_line, module, line);
    lemma_comparison_labels_distinct(module, line, module, line);
    lemma_comparison_labels_distinct(other_module, other_line, other_module, other_line);
}

/// Two calls in the text of one function of a module get the same caller
/// and different ordinals, the later call the larger, and so resume at
/// different symbols.
pub proof fn lemma_calls_resume_apart(
    lines: Seq<Seq<char>>,
    module: Seq<char>,
    first: nat,
    second: nat,
)
    requires
        1 <= first < second <= lines.len(),
        clean(lines[second - 1]).len() > 0,
        in_one_function(lines, first + 1, second),
        command_at(lines, module, first) matches Ok(
            Instruction::Functional(Functional::Call { .. }),
        ),
        command_at(lines, module, second) matches Ok(
            Instruction::Functional(Functional::Call { .. }),
        ),
    ensures
        ({
            let one = command_at(lines, module, first)->Ok_0->Functional_0;
            let other = command_at(lines, module, second)->Ok_0->Functional_0;
            &&& one->caller == other->caller
            &&& one->ordinal < other->ordinal
            &&& return_label(one->caller, one->ordinal) != return_label(
                other->caller,
                other->ordinal,
            )
        }),
{
    lemma_calls_are_numbered(lines, first, second);
    let one = command_at(lines, module, first)->Ok_0->Functional_0;
    let other = command_at(lines, module, second)->Ok_0->Functional_0;
    lemma_return_labels_distinct(one->caller, one->ordinal, other->caller, other->ordinal);
}

} // verus!
