//! The effect of the branching commands.

use vstd::prelude::*;
use crate::assembly::Register;
use crate::commands::branching::{branch_symbol, goto_code, if_goto_code, label_code};
use crate::machine::{falls_through, Machine, Program};

verus! {

/// A label declaration takes one step and changes nothing but the program
/// counter.
pub proof fn lemma_label_effect(p: Program, at: int, symbol: Seq<char>, m: Machine)
    requires
        p.holds(label_code(symbol), at),
        m.pc == at,
    ensures
        p.run(m, 1) == (Machine { pc: at + 1, ..m }),
{
    let code = label_code(symbol);
    assert(falls_through(code, 0, 1));
    p.lemma_run_pass(code, at, 0, 1, m);
    reveal_with_fuel(Program::pass, 2);
}

/// A jump takes two steps, goes to the address of its symbol and leaves
/// memory as it was.
pub proof fn lemma_goto_effect(p: Program, at: int, symbol: Seq<char>, m: Machine)
    requires
        p.holds(goto_code(symbol), at),
        m.pc == at,
    ensures
        p.run(m, 2).pc == p.symbol(symbol),
        p.run(m, 2).ram == m.ram,
{
    let code = goto_code(symbol);
    p.lemma_step_in(code, at, 0, m);
    let loaded = p.step(m);
    p.lemma_step_in(code, at, 1, loaded);
    reveal_with_fuel(Program::run, 3);
}

/// A jump to label `label` of function `function` goes to the place where
/// that function declares the label.
pub proof fn lemma_goto_reaches_label(
    p: Program,
    at: int,
    declared_at: int,
    function: Seq<char>,
    label: Seq<char>,
    m: Machine,
)
    requires
        p.linked(),
        p.holds(goto_code(branch_symbol(function, label)), at),
        p.holds(label_code(branch_symbol(function, label)), declared_at),
        m.pc == at,
    ensures
        p.run(m, 2).pc == declared_at,
        p.run(m, 2).ram == m.ram,
{
    let symbol = branch_symbol(function, label);
    lemma_goto_effect(p, at, symbol, m);
    p.lemma_label_in(label_code(symbol), declared_at, 0, symbol);
}

/// A conditional jump takes five steps. It pops the topmost stack cell,
/// goes to the address of its symbol if the cell held anything but zero
/// and on to the next line if not, and leaves the rest of memory as it
/// was.
pub proof fn lemma_if_goto_effect(p: Program, at: int, symbol: Seq<char>, m: Machine)
    requires
        p.holds(if_goto_code(symbol), at),
        m.pc == at,
        m.has_operands(1),
    ensures
        ({
            let end = p.run(m, 5);
            &&& end.pc == if m.stacked(1) != 0 {
                p.symbol(symbol) as int
            } else {
                at + 5
            }
            &&& end.sp() == m.sp() - 1
            &&& m.same_memory_but(end, Set::empty())
            &&& end.cell(Register::R13) == m.cell(Register::R13)
        }),
{
    let code = if_goto_code(symbol);
    assert(falls_through(code, 0, 4));
    p.lemma_run_pass(code, at, 0, 4, m);
    reveal_with_fuel(Program::pass, 5);
    let loaded = p.pass(code, 0, 4, m);
    p.lemma_step_in(code, at, 4, loaded);
    let end = p.step(loaded);
    assert(p.run(loaded, 1) == end) by {
        reveal_with_fuel(Program::run, 2);
    }
    p.lemma_run_split(m, 4, 1);
    assert forall|address: u16|
        address != Register::SP.address() && address != Register::R13.address()
            && !Set::<u16>::empty().contains(address) implies #[trigger] end.read(address)
        == m.read(address) by {}
}

} // verus!
