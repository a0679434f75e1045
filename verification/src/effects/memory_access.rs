//! The stack effect of the memory-access commands.

use vstd::prelude::*;
use crate::assembly::{wrap, Operand, Register};
use crate::commands::memory_access::{
    constant_pop_code,
    constant_push_code,
    direct_pop_code,
    direct_push_code,
    segment_pop_code,
    segment_push_code,
    MemoryAccess,
    MemoryCommandType,
    MemorySegment,
};
use crate::machine::{falls_through, Machine, Program};

verus! {

/// The address of the cell that a command means, in a segment that has
/// cells: for a segment that begins where a named cell points, the index
/// is added to what that cell holds in state `m`.
pub open spec fn target(access: MemoryAccess, p: Program, m: Machine) -> u16 {
    if access.segment.is_relative() {
        wrap(access.index + m.cell(access.segment.base()))
    } else {
        p.address(access.operand())
    }
}

/// The word that a push puts on the stack: the index itself for
/// `constant`, and what the cell holds for the other segments.
pub open spec fn pushed(access: MemoryAccess, p: Program, m: Machine) -> u16 {
    if access.segment == MemorySegment::Constant {
        access.index
    } else {
        m.read(target(access, p, m))
    }
}

/// What a push leaves behind: the word `word` on a stack that is one
/// cell higher, and the rest of memory as it was, the scratch cell too.
pub open spec fn is_pushed(m: Machine, end: Machine, word: u16) -> bool {
    &&& end.sp() == m.sp() + 1
    &&& end.stacked(1) == word
    &&& m.same_memory_but(end, set![m.sp()])
    &&& end.cell(Register::R13) == m.cell(Register::R13)
}

/// The push of a cell of a segment that begins where a named cell points.
#[verifier::rlimit(50)]
proof fn lemma_segment_push_effect(p: Program, at: int, base: Register, index: u16, m: Machine)
    requires
        p.holds(segment_push_code(base, index), at),
        m.pc == at,
        m.has_room(1),
    ensures
        p.run(m, 9).pc == at + 9,
        is_pushed(m, p.run(m, 9), m.read(wrap(index + m.cell(base)))),
{
    let code = segment_push_code(base, index);
    assert(falls_through(code, 0, 9));
    p.lemma_run_pass(code, at, 0, 9, m);
    reveal_with_fuel(Program::pass, 10);
}

/// The push of a number.
proof fn lemma_constant_push_effect(p: Program, at: int, value: u16, m: Machine)
    requires
        p.holds(constant_push_code(value), at),
        m.pc == at,
        m.has_room(1),
    ensures
        p.run(m, 6).pc == at + 6,
        is_pushed(m, p.run(m, 6), value),
{
    let code = constant_push_code(value);
    assert(falls_through(code, 0, 6));
    p.lemma_run_pass(code, at, 0, 6, m);
    reveal_with_fuel(Program::pass, 7);
}

/// The push of the cell that `operand` addresses.
proof fn lemma_direct_push_effect(p: Program, at: int, operand: Operand, m: Machine)
    requires
        p.holds(direct_push_code(operand), at),
        m.pc == at,
        m.has_room(1),
    ensures
        p.run(m, 6).pc == at + 6,
        is_pushed(m, p.run(m, 6), m.read(p.address(operand))),
{
    let code = direct_push_code(operand);
    assert(falls_through(code, 0, 6));
    p.lemma_run_pass(code, at, 0, 6, m);
    reveal_with_fuel(Program::pass, 7);
}

/// A push takes as many steps as it has lines. It puts the word that it
/// means on the stack, which is one cell higher afterwards, and leaves the
/// rest of memory as it was, the scratch cell too.
pub proof fn lemma_push_effect(p: Program, at: int, access: MemoryAccess, m: Machine)
    requires
        access.mode == MemoryCommandType::Push,
        access.wf(),
        p.holds(access.code(), at),
        m.pc == at,
        m.has_room(1),
    ensures
        p.run(m, access.code().len()).pc == at + access.code().len(),
        is_pushed(m, p.run(m, access.code().len()), pushed(access, p, m)),
{
    if access.segment.is_relative() {
        lemma_segment_push_effect(p, at, access.segment.base(), access.index, m);
    } else if access.segment == MemorySegment::Constant {
        lemma_constant_push_effect(p, at, access.index, m);
    } else {
        lemma_direct_push_effect(p, at, access.operand(), m);
    }
}

/// The word at `address` after a pop in state `m`: the popped word in the
/// cell that the command means; the lowered stack pointer; for a segment
/// that begins where a named cell points, the address of the cell in the
/// scratch cell; and elsewhere the word that was there. Where these
/// coincide, the first that applies is the one.
pub open spec fn popped(access: MemoryAccess, p: Program, m: Machine, address: u16) -> u16 {
    if access.segment != MemorySegment::Constant && address == target(access, p, m) {
        m.stacked(1)
    } else if address == Register::SP.address() {
        (m.sp() - 1) as u16
    } else if access.segment.is_relative() && address == Register::R13.address() {
        target(access, p, m)
    } else {
        m.read(address)
    }
}

/// The pop into a cell of a segment that begins where a named cell
/// points.
#[verifier::rlimit(50)]
proof fn lemma_segment_pop_effect(p: Program, at: int, base: Register, index: u16, m: Machine)
    requires
        p.holds(segment_pop_code(base, index), at),
        m.pc == at,
        m.has_operands(1),
    ensures
        ({
            let end = p.run(m, 12);
            let cell = wrap(index + m.cell(base));
            &&& end.pc == at + 12
            &&& forall|address: u16| #[trigger]
                end.read(address) == if address == cell {
                    m.stacked(1)
                } else if address == Register::SP.address() {
                    (m.sp() - 1) as u16
                } else if address == Register::R13.address() {
                    cell
                } else {
                    m.read(address)
                }
        }),
{
    let code = segment_pop_code(base, index);
    assert(falls_through(code, 0, 12));
    p.lemma_run_pass(code, at, 0, 12, m);
    reveal_with_fuel(Program::pass, 13);
}

/// The pop that drops the topmost cell.
proof fn lemma_constant_pop_effect(p: Program, at: int, m: Machine)
    requires
        p.holds(constant_pop_code(), at),
        m.pc == at,
        m.has_operands(1),
    ensures
        ({
            let end = p.run(m, 2);
            &&& end.pc == at + 2
            &&& forall|address: u16| #[trigger]
                end.read(address) == if address == Register::SP.address() {
                    (m.sp() - 1) as u16
                } else {
                    m.read(address)
                }
        }),
{
    let code = constant_pop_code();
    assert(falls_through(code, 0, 2));
    p.lemma_run_pass(code, at, 0, 2, m);
    reveal_with_fuel(Program::pass, 3);
}

/// The pop into the cell that `operand` addresses.
proof fn lemma_direct_pop_effect(p: Program, at: int, operand: Operand, m: Machine)
    requires
        p.holds(direct_pop_code(operand), at),
        m.pc == at,
        m.has_operands(1),
    ensures
        ({
            let end = p.run(m, 5);
            &&& end.pc == at + 5
            &&& forall|address: u16| #[trigger]
                end.read(address) == if address == p.address(operand) {
                    m.stacked(1)
                } else if address == Register::SP.address() {
                    (m.sp() - 1) as u16
                } else {
                    m.read(address)
                }
        }),
{
    let code = direct_pop_code(operand);
    assert(falls_through(code, 0, 5));
    p.lemma_run_pass(code, at, 0, 5, m);
    reveal_with_fuel(Program::pass, 6);
}

/// A pop takes as many steps as it has lines, and leaves memory as
/// `popped` says: the stack is one cell lower and its topmost word is in
/// the cell that the command means, unless that cell is the stack pointer
/// itself.
pub proof fn lemma_pop_effect(p: Program, at: int, access: MemoryAccess, m: Machine)
    requires
        access.mode == MemoryCommandType::Pop,
        access.wf(),
        p.holds(access.code(), at),
        m.pc == at,
        m.has_operands(1),
    ensures
        ({
            let end = p.run(m, access.code().len());
            &&& end.pc == at + access.code().len()
            &&& forall|address: u16| #[trigger] end.read(address) == popped(access, p, m, address)
            &&& access.segment == MemorySegment::Constant || target(access, p, m)
                != Register::SP.address() ==> end.sp() == m.sp() - 1
        }),
{
    let end = p.run(m, access.code().len());
    if access.segment.is_relative() {
        lemma_segment_pop_effect(p, at, access.segment.base(), access.index, m);
    } else if access.segment == MemorySegment::Constant {
        lemma_constant_pop_effect(p, at, m);
    } else {
        lemma_direct_pop_effect(p, at, access.operand(), m);
    }
    assert forall|address: u16| #[trigger] end.read(address) == popped(access, p, m, address) by {}
}

/// A push followed by the pop of the same cell takes as many steps as the
/// two have lines and changes nothing that counts: the stack pointer and
/// the cell hold what they held, and so does the rest of memory but for the
/// scratch cell and the free cell above the stack.
#[verifier::rlimit(50)]
pub proof fn lemma_push_pop_round_trip(
    p: Program,
    at: int,
    segment: MemorySegment,
    index: u16,
    module: Seq<char>,
    m: Machine,
)
    requires
        segment.admits(index),
        p.holds(
            (MemoryAccess { mode: MemoryCommandType::Push, segment, index, module }).code() + (
            MemoryAccess { mode: MemoryCommandType::Pop, segment, index, module }).code(),
            at,
        ),
        m.pc == at,
        m.has_room(1),
    ensures
        ({
            let push = MemoryAccess { mode: MemoryCommandType::Push, segment, index, module };
            let pop = MemoryAccess { mode: MemoryCommandType::Pop, segment, index, module };
            let end = p.run(m, push.code().len() + pop.code().len());
            &&& end.pc == at + push.code().len() + pop.code().len()
            &&& end.sp() == m.sp()
            &&& segment != MemorySegment::Constant ==> end.read(target(push, p, m)) == m.read(
                target(push, p, m),
            )
            &&& m.same_memory_but(end, set![m.sp()])
        }),
{
    let push = MemoryAccess { mode: MemoryCommandType::Push, segment, index, module };
    let pop = MemoryAccess { mode: MemoryCommandType::Pop, segment, index, module };
    let both = push.code() + pop.code();
    let first = push.code().len();
    let second = pop.code().len();
    assert(both.subrange(0, first as int) =~= push.code());
    assert(both.subrange(first as int, both.len() as int) =~= pop.code());
    p.lemma_holds_part(both, at, 0, first as int);
    p.lemma_holds_part(both, at, first as int, both.len() as int);
    lemma_push_effect(p, at, push, m);
    let middle = p.run(m, first);
    assert(is_pushed(m, middle, pushed(push, p, m)));
    lemma_pop_effect(p, at + first, pop, middle);
    p.lemma_run_split(m, first, second);
    let end = p.run(middle, second);
    assert(target(pop, p, middle) == target(push, p, m));
    assert forall|address: u16|
        address != Register::SP.address() && address != Register::R13.address() && !set![
            m.sp(),
        ].contains(address) implies #[trigger] end.read(address) == m.read(address) by {
        assert(end.read(address) == popped(pop, p, middle, address));
    }
    assert(end.read(Register::SP.address()) == popped(pop, p, middle, Register::SP.address()));
    if segment != MemorySegment::Constant {
        let cell = target(push, p, m);
        assert(end.read(cell) == popped(pop, p, middle, cell));
    }
}

} // verus!
