//! The effect of the commands of the calling convention.

use vstd::prelude::*;
use crate::assembly::{wrap, Operand, Register};
use crate::commands::branching::{goto_code, label_code};
use crate::commands::functional::{
    call_code,
    collapse_code,
    fetch_code,
    function_code,
    hand_back_code,
    leave_code,
    locals_code,
    push_word_code,
    push_zero_code,
    reposition_code,
    return_code,
    FRAME_SIZE,
    MAX_CONSTANT,
};
use crate::effects::branching::lemma_goto_effect;
use crate::machine::{falls_through, Machine, Program, FIRST_FREE};

verus! {

/// The cells from `low` up to `high`.
pub open spec fn cells(low: int, high: int) -> Set<u16> {
    Set::new(|address: u16| low <= address < high)
}

/// Making `locals` local cells takes four lines each.
pub proof fn lemma_locals_length(locals: nat)
    ensures
        locals_code(locals).len() == 4 * locals,
    decreases locals,
{
    if locals > 0 {
        lemma_locals_length((locals - 1) as nat);
    }
}

/// Making `locals` local cells takes four steps each. The stack is
/// `locals` cells higher afterwards, the new cells hold zero, and the
/// rest of memory is as it was.
#[verifier::rlimit(50)]
pub proof fn lemma_locals_effect(p: Program, at: int, locals: nat, m: Machine)
    requires
        p.holds(locals_code(locals), at),
        m.pc == at,
        m.has_room(locals as int),
    ensures
        ({
            let end = p.run(m, 4 * locals);
            &&& end.pc == at + 4 * locals
            &&& end.sp() == m.sp() + locals
            &&& forall|address: u16|
                m.sp() <= address < m.sp() + locals ==> #[trigger] end.read(address) == 0
            &&& m.same_memory_but(end, cells(m.sp() as int, m.sp() + locals))
            &&& end.cell(Register::R13) == m.cell(Register::R13)
        }),
    decreases locals,
{
    if locals == 0 {
        assert(p.run(m, 0) == m);
    } else {
        let before = (locals - 1) as nat;
        let done: int = 4 * (before as int);
        let code = locals_code(locals);
        lemma_locals_length(before);
        assert(code.subrange(0, done) =~= locals_code(before));
        assert(code.subrange(done, code.len() as int) =~= push_zero_code());
        p.lemma_holds_part(code, at, 0, done);
        p.lemma_holds_part(code, at, done, code.len() as int);
        lemma_locals_effect(p, at, before, m);
        let middle = p.run(m, 4 * before);
        let last = push_zero_code();
        assert(falls_through(last, 0, 4));
        p.lemma_run_pass(last, at + done, 0, 4, middle);
        reveal_with_fuel(Program::pass, 5);
        p.lemma_run_split(m, 4 * before, 4);
        let end = p.pass(last, 0, 4, middle);
        assert(end == p.run(m, 4 * locals));
        assert forall|address: u16| m.sp() <= address < m.sp() + locals implies #[trigger] end.read(
            address,
        ) == 0 by {
            if address < m.sp() + before {
                assert(middle.read(address) == 0);
            }
        }
        assert forall|address: u16|
            address != Register::SP.address() && address != Register::R13.address() && !cells(
                m.sp() as int,
                m.sp() + locals,
            ).contains(address) implies #[trigger] end.read(address) == m.read(address) by {
            assert(!cells(m.sp() as int, m.sp() + before).contains(address));
            assert(middle.read(address) == m.read(address));
        }
    }
}

/// The entry of a function takes one step for its label and four for each
/// local cell. The stack is `locals` cells higher afterwards, the new
/// cells hold zero, and the rest of memory is as it was.
pub proof fn lemma_function_effect(p: Program, at: int, name: Seq<char>, locals: u16, m: Machine)
    requires
        p.holds(function_code(name, locals), at),
        m.pc == at,
        m.has_room(locals as int),
    ensures
        ({
            let end = p.run(m, (1 + 4 * locals) as nat);
            &&& end.pc == at + 1 + 4 * locals
            &&& end.sp() == m.sp() + locals
            &&& forall|address: u16|
                m.sp() <= address < m.sp() + locals ==> #[trigger] end.read(address) == 0
            &&& m.same_memory_but(end, cells(m.sp() as int, m.sp() + locals))
            &&& end.cell(Register::R13) == m.cell(Register::R13)
        }),
{
    let code = function_code(name, locals);
    lemma_locals_length(locals as nat);
    assert(code.subrange(1, code.len() as int) =~= locals_code(locals as nat));
    p.lemma_holds_part(code, at, 1, code.len() as int);
    p.lemma_step_in(code, at, 0, m);
    let entered = p.step(m);
    assert(p.run(m, 1) == entered) by {
        reveal_with_fuel(Program::run, 2);
    }
    lemma_locals_effect(p, at + 1, locals as nat, entered);
    p.lemma_run_split(m, 1, (4 * locals) as nat);
    let end = p.run(entered, (4 * locals) as nat);
    assert forall|address: u16|
        address != Register::SP.address() && address != Register::R13.address() && !cells(
            m.sp() as int,
            m.sp() + locals,
        ).contains(address) implies #[trigger] end.read(address) == m.read(address) by {
        assert(entered.read(address) == m.read(address));
    }
}

/// Pushing a word takes six steps. The word is in the cell above the old
/// stack, the stack pointer is one higher, and the rest of memory is as it
/// was.
pub proof fn lemma_push_word_effect(
    p: Program,
    at: int,
    operand: Operand,
    from_memory: bool,
    m: Machine,
)
    requires
        p.holds(push_word_code(operand, from_memory), at),
        m.pc == at,
        m.has_room(1),
    ensures
        ({
            let next = p.run(m, 6);
            let word = if from_memory {
                m.read(p.address(operand))
            } else {
                p.address(operand)
            };
            &&& next.pc == at + 6
            &&& forall|address: u16| #[trigger]
                next.read(address) == if address == m.sp() {
                    word
                } else if address == Register::SP.address() {
                    (m.sp() + 1) as u16
                } else {
                    m.read(address)
                }
        }),
{
    let code = push_word_code(operand, from_memory);
    assert(falls_through(code, 0, 6));
    p.lemma_run_pass(code, at, 0, 6, m);
    reveal_with_fuel(Program::pass, 7);
}

/// Entering the callee's frame takes ten steps and writes `ARG` and `LCL`.
#[verifier::rlimit(50)]
proof fn lemma_reposition_effect(p: Program, at: int, arguments: u16, m: Machine)
    requires
        p.holds(reposition_code(arguments), at),
        arguments <= MAX_CONSTANT - FRAME_SIZE,
        m.pc == at,
    ensures
        ({
            let next = p.run(m, 10);
            &&& next.pc == at + 10
            &&& forall|address: u16| #[trigger]
                next.read(address) == if address == Register::LCL.address() {
                    m.sp()
                } else if address == Register::ARG.address() {
                    wrap(m.sp() - (FRAME_SIZE + arguments))
                } else {
                    m.read(address)
                }
        }),
{
    let code = reposition_code(arguments);
    assert(falls_through(code, 0, 10));
    p.lemma_run_pass(code, at, 0, 10, m);
    reveal_with_fuel(Program::pass, 11);
}

/// The cells that a call writes besides the stack pointer: the five cells
/// of the frame, from `sp` on, and the named cells `LCL` and `ARG`.
pub open spec fn call_writes(sp: u16) -> Set<u16> {
    cells(sp as int, sp + FRAME_SIZE).insert(Register::LCL.address()).insert(
        Register::ARG.address(),
    )
}

/// A call takes forty-two steps to reach the called function. By then the
/// stack holds the frame: the place of the line after the call, where the
/// callee is to return, and the caller's `LCL`, `ARG`, `THIS` and `THAT`.
/// `ARG` points at the first argument, `LCL` at the top of the stack, and
/// the rest of memory is as it was.
#[verifier::rlimit(50)]
pub proof fn lemma_call_effect(
    p: Program,
    at: int,
    target: Seq<char>,
    arguments: u16,
    resume: Seq<char>,
    m: Machine,
)
    requires
        p.linked(),
        p.holds(call_code(target, arguments, resume), at),
        arguments <= MAX_CONSTANT - FRAME_SIZE,
        m.pc == at,
        m.has_room(FRAME_SIZE as int),
    ensures
        ({
            let end = p.run(m, 42);
            &&& end.pc == p.symbol(target)
            &&& end.sp() == m.sp() + FRAME_SIZE
            &&& end.stacked(5) == at + 42
            &&& end.stacked(4) == m.cell(Register::LCL)
            &&& end.stacked(3) == m.cell(Register::ARG)
            &&& end.stacked(2) == m.cell(Register::THIS)
            &&& end.stacked(1) == m.cell(Register::THAT)
            &&& end.cell(Register::ARG) == wrap(m.sp() - arguments)
            &&& end.cell(Register::LCL) == end.sp()
            &&& m.same_memory_but(end, call_writes(m.sp()))
            &&& end.cell(Register::R13) == m.cell(Register::R13)
        }),
{
    let sp = m.sp();
    let b0 = push_word_code(Operand::Symbol(resume), false);
    let b1 = push_word_code(Operand::Cell(Register::LCL), true);
    let b2 = push_word_code(Operand::Cell(Register::ARG), true);
    let b3 = push_word_code(Operand::Cell(Register::THIS), true);
    let b4 = push_word_code(Operand::Cell(Register::THAT), true);
    let b5 = reposition_code(arguments);
    let b6 = goto_code(target);
    let b7 = label_code(resume);
    p.lemma_holds_both(b0 + b1 + b2 + b3 + b4 + b5 + b6, b7, at);
    p.lemma_holds_both(b0 + b1 + b2 + b3 + b4 + b5, b6, at);
    p.lemma_holds_both(b0 + b1 + b2 + b3 + b4, b5, at);
    p.lemma_holds_both(b0 + b1 + b2 + b3, b4, at);
    p.lemma_holds_both(b0 + b1 + b2, b3, at);
    p.lemma_holds_both(b0 + b1, b2, at);
    p.lemma_holds_both(b0, b1, at);
    p.lemma_label_in(b7, at + 42, 0, resume);

    lemma_push_word_effect(p, at, Operand::Symbol(resume), false, m);
    let m1 = p.run(m, 6);
    assert(m1.sp() == sp + 1);
    lemma_push_word_effect(p, at + 6, Operand::Cell(Register::LCL), true, m1);
    let m2 = p.run(m1, 6);
    p.lemma_run_split(m, 6, 6);
    assert(m2.sp() == sp + 2);
    lemma_push_word_effect(p, at + 12, Operand::Cell(Register::ARG), true, m2);
    let m3 = p.run(m2, 6);
    p.lemma_run_split(m, 12, 6);
    assert(m3.sp() == sp + 3);
    lemma_push_word_effect(p, at + 18, Operand::Cell(Register::THIS), true, m3);
    let m4 = p.run(m3, 6);
    p.lemma_run_split(m, 18, 6);
    assert(m4.sp() == sp + 4);
    lemma_push_word_effect(p, at + 24, Operand::Cell(Register::THAT), true, m4);
    let m5 = p.run(m4, 6);
    p.lemma_run_split(m, 24, 6);
    assert(m5.sp() == sp + 5);
    lemma_reposition_effect(p, at + 30, arguments, m5);
    let m6 = p.run(m5, 10);
    p.lemma_run_split(m, 30, 10);
    lemma_goto_effect(p, at + 40, target, m6);
    let end = p.run(m6, 2);
    p.lemma_run_split(m, 40, 2);
    assert(end == p.run(m, 42));
    assert(forall|address: u16| end.read(address) == m6.read(address));
    assert(end.sp() == sp + 5);
    assert(end.read((sp + 4) as u16) == m.cell(Register::THAT));
    assert(end.read((sp + 3) as u16) == m.cell(Register::THIS));
    assert(end.read((sp + 2) as u16) == m.cell(Register::ARG));
    assert(end.read((sp + 1) as u16) == m.cell(Register::LCL));
    assert(end.read(sp) == at + 42);
    assert forall|address: u16|
        address != Register::SP.address() && address != Register::R13.address() && !call_writes(
            m.sp(),
        ).contains(address) implies #[trigger] end.read(address) == m.read(address) by {
        assert(!cells(sp as int, sp + FRAME_SIZE).contains(address));
        assert(m1.read(address) == m.read(address));
        assert(m2.read(address) == m1.read(address));
        assert(m3.read(address) == m2.read(address));
        assert(m4.read(address) == m3.read(address));
        assert(m5.read(address) == m4.read(address));
        assert(m6.read(address) == m5.read(address));
    }
}

/// Copying a word of the frame takes seven steps and writes one cell.
proof fn lemma_fetch_effect(p: Program, at: int, depth: u16, into: Operand, m: Machine)
    requires
        p.holds(fetch_code(depth, into), at),
        m.pc == at,
    ensures
        ({
            let next = p.run(m, 7);
            &&& next.pc == at + 7
            &&& forall|address: u16| #[trigger]
                next.read(address) == if address == p.address(into) {
                    m.read(wrap(m.cell(Register::LCL) - depth))
                } else {
                    m.read(address)
                }
        }),
{
    let code = fetch_code(depth, into);
    assert(falls_through(code, 0, 7));
    p.lemma_run_pass(code, at, 0, 7, m);
    reveal_with_fuel(Program::pass, 8);
}

/// Handing the topmost stack cell back takes six steps and writes the cell
/// where `ARG` points.
proof fn lemma_hand_back_effect(p: Program, at: int, m: Machine)
    requires
        p.holds(hand_back_code(), at),
        m.pc == at,
    ensures
        ({
            let next = p.run(m, 6);
            &&& next.pc == at + 6
            &&& forall|address: u16| #[trigger]
                next.read(address) == if address == m.cell(Register::ARG) {
                    m.read(wrap(m.sp() - 1))
                } else {
                    m.read(address)
                }
        }),
{
    let code = hand_back_code();
    assert(falls_through(code, 0, 6));
    p.lemma_run_pass(code, at, 0, 6, m);
    reveal_with_fuel(Program::pass, 7);
}

/// Setting the stack pointer above where `ARG` points takes four steps.
proof fn lemma_collapse_effect(p: Program, at: int, m: Machine)
    requires
        p.holds(collapse_code(), at),
        m.pc == at,
    ensures
        ({
            let next = p.run(m, 4);
            &&& next.pc == at + 4
            &&& forall|address: u16| #[trigger]
                next.read(address) == if address == Register::SP.address() {
                    wrap(m.cell(Register::ARG) + 1)
                } else {
                    m.read(address)
                }
        }),
{
    let code = collapse_code();
    assert(falls_through(code, 0, 4));
    p.lemma_run_pass(code, at, 0, 4, m);
    reveal_with_fuel(Program::pass, 5);
}

/// Jumping to the kept return address takes three steps.
proof fn lemma_leave_effect(p: Program, at: int, m: Machine)
    requires
        p.holds(leave_code(), at),
        m.pc == at,
    ensures
        p.run(m, 3).pc == m.cell(Register::R13),
        p.run(m, 3).ram == m.ram,
{
    let code = leave_code();
    assert(falls_through(code, 0, 2));
    p.lemma_run_pass(code, at, 0, 2, m);
    reveal_with_fuel(Program::pass, 3);
    let aimed = p.pass(code, 0, 2, m);
    p.lemma_step_in(code, at, 2, aimed);
    assert(p.run(aimed, 1) == p.step(aimed)) by {
        reveal_with_fuel(Program::run, 2);
    }
    p.lemma_run_split(m, 2, 1);
}

/// Whether state `m` is fit for a return: the cell where `ARG` points lies
/// above the named cells and below the five cells of the frame, which end
/// where `LCL` points, and the stack holds a value.
pub open spec fn in_frame(m: Machine) -> bool {
    &&& FIRST_FREE <= m.cell(Register::ARG)
    &&& m.cell(Register::ARG) + FRAME_SIZE <= m.cell(Register::LCL)
    &&& m.has_operands(1)
}

/// The cells that a return writes besides the stack pointer and the
/// scratch cell: the cell where `ARG` pointed, and the four segment
/// pointers.
pub open spec fn return_writes(argument: u16) -> Set<u16> {
    set![
        argument,
        Register::LCL.address(),
        Register::ARG.address(),
        Register::THIS.address(),
        Register::THAT.address(),
    ]
}

/// A return takes forty-eight steps. It goes to the address that the
/// frame holds five cells below `LCL`; the returned value, which was on
/// top of the stack, lies where `ARG` pointed, and the stack ends just
/// above it; `THAT`, `THIS`, `ARG` and `LCL` hold what the frame held one
/// to four cells below `LCL`; the rest of memory is as it was.
#[verifier::rlimit(50)]
pub proof fn lemma_return_effect(p: Program, at: int, m: Machine)
    requires
        p.holds(return_code(), at),
        m.pc == at,
        in_frame(m),
    ensures
        ({
            let end = p.run(m, 48);
            let frame = m.cell(Register::LCL);
            &&& end.pc == m.read((frame - 5) as u16)
            &&& end.sp() == m.cell(Register::ARG) + 1
            &&& end.stacked(1) == m.stacked(1)
            &&& end.cell(Register::THAT) == m.read((frame - 1) as u16)
            &&& end.cell(Register::THIS) == m.read((frame - 2) as u16)
            &&& end.cell(Register::ARG) == m.read((frame - 3) as u16)
            &&& end.cell(Register::LCL) == m.read((frame - 4) as u16)
            &&& m.same_memory_but(end, return_writes(m.cell(Register::ARG)))
        }),
{
    let frame = m.cell(Register::LCL);
    let argument = m.cell(Register::ARG);
    let b0 = fetch_code(5, Operand::Constant(13));
    let b1 = hand_back_code();
    let b2 = collapse_code();
    let b3 = fetch_code(1, Operand::Cell(Register::THAT));
    let b4 = fetch_code(2, Operand::Cell(Register::THIS));
    let b5 = fetch_code(3, Operand::Cell(Register::ARG));
    let b6 = fetch_code(4, Operand::Cell(Register::LCL));
    let b7 = leave_code();
    p.lemma_holds_both(b0 + b1 + b2 + b3 + b4 + b5 + b6, b7, at);
    p.lemma_holds_both(b0 + b1 + b2 + b3 + b4 + b5, b6, at);
    p.lemma_holds_both(b0 + b1 + b2 + b3 + b4, b5, at);
    p.lemma_holds_both(b0 + b1 + b2 + b3, b4, at);
    p.lemma_holds_both(b0 + b1 + b2, b3, at);
    p.lemma_holds_both(b0 + b1, b2, at);
    p.lemma_holds_both(b0, b1, at);

    lemma_fetch_effect(p, at, 5, Operand::Constant(13), m);
    let m1 = p.run(m, 7);
    lemma_hand_back_effect(p, at + 7, m1);
    let m2 = p.run(m1, 6);
    p.lemma_run_split(m, 7, 6);
    lemma_collapse_effect(p, at + 13, m2);
    let m3 = p.run(m2, 4);
    p.lemma_run_split(m, 13, 4);
    assert(m3.cell(Register::LCL) == frame);
    lemma_fetch_effect(p, at + 17, 1, Operand::Cell(Register::THAT), m3);
    let m4 = p.run(m3, 7);
    p.lemma_run_split(m, 17, 7);
    assert(m4.cell(Register::LCL) == frame);
    lemma_fetch_effect(p, at + 24, 2, Operand::Cell(Register::THIS), m4);
    let m5 = p.run(m4, 7);
    p.lemma_run_split(m, 24, 7);
    assert(m5.cell(Register::LCL) == frame);
    lemma_fetch_effect(p, at + 31, 3, Operand::Cell(Register::ARG), m5);
    let m6 = p.run(m5, 7);
    p.lemma_run_split(m, 31, 7);
    assert(m6.cell(Register::LCL) == frame);
    lemma_fetch_effect(p, at + 38, 4, Operand::Cell(Register::LCL), m6);
    let m7 = p.run(m6, 7);
    p.lemma_run_split(m, 38, 7);
    lemma_leave_effect(p, at + 45, m7);
    let end = p.run(m7, 3);
    p.lemma_run_split(m, 45, 3);
    assert(end == p.run(m, 48));
    assert(forall|address: u16| end.read(address) == m7.read(address));

    assert(m1.read(13) == m.read((frame - 5) as u16));
    assert(m7.read(13) == m1.read(13));
    assert(m2.read(argument) == m.stacked(1));
    assert(m7.read(argument) == m.stacked(1));
    assert(m7.read(0) == argument + 1);
    assert(m3.read((frame - 1) as u16) == m.read((frame - 1) as u16));
    assert(m4.read((frame - 2) as u16) == m.read((frame - 2) as u16));
    assert(m5.read((frame - 3) as u16) == m.read((frame - 3) as u16));
    assert(m6.read((frame - 4) as u16) == m.read((frame - 4) as u16));
    assert forall|address: u16|
        address != Register::SP.address() && address != Register::R13.address()
            && !return_writes(argument).contains(address) implies #[trigger] end.read(address)
        == m.read(address) by {
        assert(m1.read(address) == m.read(address));
        assert(m2.read(address) == m1.read(address));
        assert(m3.read(address) == m2.read(address));
        assert(m4.read(address) == m3.read(address));
        assert(m5.read(address) == m4.read(address));
        assert(m6.read(address) == m5.read(address));
        assert(m7.read(address) == m6.read(address));
    }
}

/// Whether `callee` is a state in which the function that `caller` called
/// forty-two steps before can return: `LCL` and `ARG` are as the call set
/// them, the five cells of the frame hold what the call put there, and the
/// stack holds a value.
pub open spec fn kept_frame(p: Program, caller: Machine, callee: Machine) -> bool {
    let entered = p.run(caller, 42);
    &&& callee.cell(Register::LCL) == entered.cell(Register::LCL)
    &&& callee.cell(Register::ARG) == entered.cell(Register::ARG)
    &&& forall|address: u16|
        caller.sp() <= address < caller.sp() + FRAME_SIZE ==> #[trigger] callee.read(address)
            == entered.read(address)
    &&& callee.has_operands(1)
}

/// The calling convention: where a caller with its arguments on the stack
/// makes a call, and the callee comes to its return with the frame kept,
/// the return goes to the line after the call; the arguments have given
/// way to the returned value, so that the stack pointer is that of the
/// caller before it pushed them, plus one; and `LCL`, `ARG`, `THIS` and
/// `THAT` are the caller's.
pub proof fn lemma_return_restores_caller(
    p: Program,
    call_at: int,
    return_at: int,
    target: Seq<char>,
    arguments: u16,
    resume: Seq<char>,
    caller: Machine,
    callee: Machine,
)
    requires
        p.linked(),
        p.holds(call_code(target, arguments, resume), call_at),
        p.holds(return_code(), return_at),
        arguments <= MAX_CONSTANT - FRAME_SIZE,
        caller.pc == call_at,
        caller.has_room(FRAME_SIZE as int),
        caller.has_operands(arguments as int),
        callee.pc == return_at,
        kept_frame(p, caller, callee),
    ensures
        ({
            let back = p.run(callee, 48);
            &&& back.pc == call_at + 42
            &&& back.sp() == caller.sp() - arguments + 1
            &&& back.stacked(1) == callee.stacked(1)
            &&& back.cell(Register::LCL) == caller.cell(Register::LCL)
            &&& back.cell(Register::ARG) == caller.cell(Register::ARG)
            &&& back.cell(Register::THIS) == caller.cell(Register::THIS)
            &&& back.cell(Register::THAT) == caller.cell(Register::THAT)
        }),
{
    lemma_call_effect(p, call_at, target, arguments, resume, caller);
    let entered = p.run(caller, 42);
    let sp = caller.sp();
    assert(entered.read(sp) == call_at + 42);
    assert(callee.read(sp) == entered.read(sp));
    assert(callee.read((sp + 1) as u16) == entered.read((sp + 1) as u16));
    assert(callee.read((sp + 2) as u16) == entered.read((sp + 2) as u16));
    assert(callee.read((sp + 3) as u16) == entered.read((sp + 3) as u16));
    assert(callee.read((sp + 4) as u16) == entered.read((sp + 4) as u16));
    lemma_return_effect(p, return_at, callee);
}

} // verus!
