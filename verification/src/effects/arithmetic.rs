//! The stack effect of the arithmetic commands.

use vstd::prelude::*;
use crate::assembly::{signed, Register};
use crate::commands::arithmetic::{binary_code, comparison_code, truth, unary_code, ArithmeticType};
use crate::machine::{falls_through, Machine, Program};

verus! {

/// A binary operator takes thirteen steps. It replaces the two topmost
/// stack cells by its result, so that the stack is one cell lower, and
/// leaves the rest of memory as it was but for the scratch cell.
#[verifier::rlimit(50)]
pub proof fn lemma_binary_effect(p: Program, at: int, op: ArithmeticType, m: Machine)
    requires
        op.is_binary(),
        p.holds(binary_code(op), at),
        m.pc == at,
        m.has_operands(2),
    ensures
        ({
            let end = p.run(m, 13);
            &&& end.pc == at + 13
            &&& end.sp() == m.sp() - 1
            &&& end.stacked(1) == op.result(m.stacked(2), m.stacked(1))
            &&& m.same_memory_but(end, set![m.slot(2)])
        }),
{
    let code = binary_code(op);
    assert(falls_through(code, 0, 13));
    p.lemma_run_pass(code, at, 0, 13, m);
    reveal_with_fuel(Program::pass, 14);
    let end = p.pass(code, 0, 13, m);
    assert(end.sp() == m.sp() - 1);
    assert(end.stacked(1) == op.result(m.stacked(2), m.stacked(1)));
    assert forall|address: u16|
        address != Register::SP.address() && address != Register::R13.address() && !set![
            m.slot(2),
        ].contains(address) implies #[trigger] end.read(address) == m.read(address) by {}
}

/// A unary operator takes three steps. It replaces the topmost stack cell
/// by its result and leaves the rest of memory as it was, the stack
/// pointer too.
pub proof fn lemma_unary_effect(p: Program, at: int, op: ArithmeticType, m: Machine)
    requires
        op.is_unary(),
        p.holds(unary_code(op), at),
        m.pc == at,
        m.has_operands(1),
    ensures
        ({
            let end = p.run(m, 3);
            &&& end.pc == at + 3
            &&& end.sp() == m.sp()
            &&& end.stacked(1) == op.result(m.stacked(1), 0)
            &&& m.same_memory_but(end, set![m.slot(1)])
            &&& end.cell(Register::R13) == m.cell(Register::R13)
        }),
{
    let code = unary_code(op);
    assert(falls_through(code, 0, 3));
    p.lemma_run_pass(code, at, 0, 3, m);
    reveal_with_fuel(Program::pass, 4);
    let end = p.pass(code, 0, 3, m);
    assert forall|address: u16|
        address != Register::SP.address() && address != Register::R13.address() && !set![
            m.slot(1),
        ].contains(address) implies #[trigger] end.read(address) == m.read(address) by {}
}

/// The number of steps that a comparison takes: one less where it holds.
pub open spec fn comparison_steps(holds: bool) -> nat {
    if holds {
        14
    } else {
        15
    }
}

/// A comparison replaces the two topmost stack cells by the truth value of
/// what it finds, so that the stack is one cell lower, leaves the rest of
/// memory as it was, and ends behind its last line.
#[verifier::rlimit(50)]
pub proof fn lemma_comparison_effect(
    p: Program,
    at: int,
    op: ArithmeticType,
    on_true: Seq<char>,
    end: Seq<char>,
    m: Machine,
)
    requires
        op.is_comparison(),
        p.linked(),
        p.holds(comparison_code(op, on_true, end), at),
        m.pc == at,
        m.has_operands(2),
    ensures
        ({
            let holds = op.compares(m.stacked(2), m.stacked(1));
            let done = p.run(m, comparison_steps(holds));
            &&& done.pc == at + 19
            &&& done.sp() == m.sp() - 1
            &&& done.stacked(1) == truth(holds)
            &&& m.same_memory_but(done, set![m.slot(2)])
            &&& done.cell(Register::R13) == m.cell(Register::R13)
        }),
{
    let code = comparison_code(op, on_true, end);
    let holds = op.compares(m.stacked(2), m.stacked(1));
    reveal_with_fuel(Program::pass, 9);
    // the difference of the operands
    assert(falls_through(code, 0, 8));
    p.lemma_run_pass(code, at, 0, 8, m);
    let tested = p.pass(code, 0, 8, m);
    p.lemma_label_in(code, at, 14, on_true);
    p.lemma_label_in(code, at, 18, end);
    assert(tested.a == at + 14);
    // the jump
    p.lemma_step_in(code, at, 8, tested);
    let jumped = p.step(tested);
    assert(p.run(tested, 1) == jumped) by {
        reveal_with_fuel(Program::run, 2);
    }
    p.lemma_run_split(m, 8, 1);
    if holds {
        assert(jumped.pc == at + 14);
        assert(falls_through(code, 14, 19));
        p.lemma_run_pass(code, at, 14, 19, jumped);
        p.lemma_run_split(m, 9, 5);
        let done = p.pass(code, 14, 19, jumped);
        assert(done == p.run(m, 14));
        assert forall|address: u16|
            address != Register::SP.address() && address != Register::R13.address() && !set![
                m.slot(2),
            ].contains(address) implies #[trigger] done.read(address) == m.read(address) by {}
    } else {
        assert(jumped.pc == at + 9);
        assert(falls_through(code, 9, 13));
        p.lemma_run_pass(code, at, 9, 13, jumped);
        p.lemma_run_split(m, 9, 4);
        let written = p.pass(code, 9, 13, jumped);
        p.lemma_step_in(code, at, 13, written);
        let left = p.step(written);
        assert(p.run(written, 1) == left) by {
            reveal_with_fuel(Program::run, 2);
        }
        p.lemma_run_split(m, 13, 1);
        assert(left.pc == at + 18);
        assert(falls_through(code, 18, 19));
        p.lemma_run_pass(code, at, 18, 19, left);
        p.lemma_run_split(m, 14, 1);
        let done = p.pass(code, 18, 19, left);
        assert(done == p.run(m, 15));
        assert forall|address: u16|
            address != Register::SP.address() && address != Register::R13.address() && !set![
                m.slot(2),
            ].contains(address) implies #[trigger] done.read(address) == m.read(address) by {}
    }
}

/// What the comparisons find: `eq` finds two words equal exactly where
/// they are the same word. Where the difference of the two numbers that
/// the words stand for is itself such a number, `gt` finds the first
/// greater exactly where it is, and `lt` finds it less exactly where it is.
pub proof fn lemma_comparison_meaning(first: u16, second: u16)
    ensures
        ArithmeticType::Eq.compares(first, second) <==> first == second,
        -0x8000 <= signed(first) - signed(second) < 0x8000 ==> (ArithmeticType::Gt.compares(
            first,
            second,
        ) <==> signed(first) > signed(second)),
        -0x8000 <= signed(first) - signed(second) < 0x8000 ==> (ArithmeticType::Lt.compares(
            first,
            second,
        ) <==> signed(first) < signed(second)),
{
}

} // verus!
