//! A model of the target machine, against which the emitted assembly is
//! judged: two registers, a memory of sixteen-bit words, and a program
//! counter that walks a listing.
//!
//! The model keeps label declarations in the listing, where they take a
//! place and do nothing, and a symbol stands for the place of its
//! declaration. Memory has a cell for every sixteen-bit address. A symbol
//! is taken to be a name that an assembler does not know beforehand: one
//! that reads as a number or as the name of a cell is not modelled.

use vstd::prelude::*;
use crate::assembly::{Jump, Line, Operand, Register};

verus! {

/// The first address above the named cells.
pub const FIRST_FREE: u16 = 16;

/// The state of the machine.
pub struct Machine {
    /// The address register.
    pub a: u16,
    /// The data register.
    pub d: u16,
    /// The memory: the word at every address.
    pub ram: spec_fn(u16) -> u16,
    /// The place in the listing of the line to execute next.
    pub pc: int,
}

impl Machine {
    /// The word at `address`.
    pub open spec fn read(self, address: u16) -> u16 {
        (self.ram)(address)
    }

    /// The memory after `value` is written at `address`.
    pub open spec fn written(self, address: u16, value: u16) -> spec_fn(u16) -> u16 {
        |other: u16|
            if other == address {
                value
            } else {
                (self.ram)(other)
            }
    }

    /// What the named cell holds.
    pub open spec fn cell(self, cell: Register) -> u16 {
        self.read(cell.address())
    }

    /// The stack pointer: the address just above the topmost stack cell.
    pub open spec fn sp(self) -> u16 {
        self.cell(Register::SP)
    }

    /// The stack cell that lies `depth` cells below the stack pointer;
    /// the topmost is `slot(1)`.
    pub open spec fn slot(self, depth: int) -> u16 {
        (self.sp() - depth) as u16
    }

    /// What the stack cell `depth` cells below the stack pointer holds.
    pub open spec fn stacked(self, depth: int) -> u16 {
        self.read(self.slot(depth))
    }

    /// Whether the `count` topmost stack cells lie above the named cells.
    pub open spec fn has_operands(self, count: int) -> bool {
        FIRST_FREE + count <= self.sp()
    }

    /// Whether `count` cells can be pushed: the stack lies above the named
    /// cells and the cells to come have addresses.
    pub open spec fn has_room(self, count: int) -> bool {
        FIRST_FREE <= self.sp() && self.sp() + count <= u16::MAX
    }

    /// Whether `other` has the memory of `self` but for the named cells
    /// `SP` and `R13` and for the cells that `touched` holds.
    pub open spec fn same_memory_but(self, other: Machine, touched: Set<u16>) -> bool {
        forall|address: u16|
            address != Register::SP.address() && address != Register::R13.address()
                && !touched.contains(address) ==> #[trigger] other.read(address) == self.read(
                address,
            )
    }
}

/// A program: the lines of assembly, and the address that each symbol
/// stands for.
pub struct Program {
    /// The lines, label declarations among them.
    pub listing: Seq<Line>,
    /// The address that every symbol stands for.
    pub symbols: spec_fn(Seq<char>) -> u16,
}

impl Program {
    /// The address that `symbol` stands for.
    pub open spec fn symbol(self, symbol: Seq<char>) -> u16 {
        (self.symbols)(symbol)
    }

    /// Whether every label that the listing declares stands for the place
    /// of its declaration.
    pub open spec fn linked(self) -> bool {
        forall|place: int|
            0 <= place < self.listing.len() ==> match #[trigger] self.listing[place] {
                Line::Label(symbol) => self.symbol(symbol) == place,
                _ => true,
            }
    }

    /// Whether the listing holds `code` from place `at` on.
    pub open spec fn holds(self, code: Seq<Line>, at: int) -> bool {
        &&& 0 <= at
        &&& at + code.len() <= self.listing.len()
        &&& self.listing.subrange(at, at + code.len()) == code
    }

    /// The address that an operand loads.
    pub open spec fn address(self, operand: Operand) -> u16 {
        match operand {
            Operand::Constant(value) => value,
            Operand::Cell(cell) => cell.address(),
            Operand::Symbol(symbol) => self.symbol(symbol),
        }
    }

    /// The state after `line` is executed in state `m`.
    pub open spec fn execute(self, line: Line, m: Machine) -> Machine {
        match line {
            Line::Label(_) => Machine { pc: m.pc + 1, ..m },
            Line::Address(operand) => Machine { a: self.address(operand), pc: m.pc + 1, ..m },
            Line::Compute(dest, comp, jump) => {
                let value = comp.value(m.a, m.d, m.read(m.a));
                Machine {
                    a: if dest.writes_a() {
                        value
                    } else {
                        m.a
                    },
                    d: if dest.writes_d() {
                        value
                    } else {
                        m.d
                    },
                    ram: if dest.writes_m() {
                        m.written(m.a, value)
                    } else {
                        m.ram
                    },
                    pc: if jump.taken(value) {
                        m.a as int
                    } else {
                        m.pc + 1
                    },
                }
            },
        }
    }

    /// The state after one step: the line at the program counter is
    /// executed; outside the listing the machine stands still.
    pub open spec fn step(self, m: Machine) -> Machine {
        if 0 <= m.pc < self.listing.len() {
            self.execute(self.listing[m.pc], m)
        } else {
            m
        }
    }

    /// The state after `steps` steps.
    pub open spec fn run(self, m: Machine, steps: nat) -> Machine
        decreases steps,
    {
        if steps == 0 {
            m
        } else {
            self.run(self.step(m), (steps - 1) as nat)
        }
    }

    /// The state after the lines of `code` from `from` up to `to` are
    /// executed one after the other.
    pub open spec fn pass(self, code: Seq<Line>, from: int, to: int, m: Machine) -> Machine
        decreases to - from,
    {
        if from >= to {
            m
        } else {
            self.pass(code, from + 1, to, self.execute(code[from], m))
        }
    }

    /// Running is additive in the number of steps.
    pub proof fn lemma_run_split(self, m: Machine, first: nat, second: nat)
        ensures
            self.run(m, first + second) == self.run(self.run(m, first), second),
        decreases first,
    {
        if first > 0 {
            self.lemma_run_split(self.step(m), (first - 1) as nat, second);
            assert(self.run(m, first + second) == self.run(
                self.step(m),
                (first + second - 1) as nat,
            ));
        }
    }

    /// A step inside a stretch of the listing executes the line of the
    /// stretch.
    pub proof fn lemma_step_in(self, code: Seq<Line>, at: int, place: int, m: Machine)
        requires
            self.holds(code, at),
            0 <= place < code.len(),
            m.pc == at + place,
        ensures
            self.step(m) == self.execute(code[place], m),
    {
        assert(self.listing.subrange(at, at + code.len())[place] == self.listing[at + place]);
    }

    /// A label that the listing declares inside a stretch stands for its
    /// place.
    pub proof fn lemma_label_in(self, code: Seq<Line>, at: int, place: int, symbol: Seq<char>)
        requires
            self.linked(),
            self.holds(code, at),
            0 <= place < code.len(),
            code[place] == Line::Label(symbol),
        ensures
            self.symbol(symbol) == at + place,
    {
        assert(self.listing.subrange(at, at + code.len())[place] == self.listing[at + place]);
    }

    /// Where the listing holds two stretches joined, it holds each.
    pub proof fn lemma_holds_both(self, first: Seq<Line>, second: Seq<Line>, at: int)
        requires
            self.holds(first + second, at),
        ensures
            self.holds(first, at),
            self.holds(second, at + first.len()),
    {
        let both = first + second;
        assert(both.subrange(0, first.len() as int) =~= first);
        assert(both.subrange(first.len() as int, both.len() as int) =~= second);
        self.lemma_holds_part(both, at, 0, first.len() as int);
        self.lemma_holds_part(both, at, first.len() as int, both.len() as int);
    }

    /// A part of a stretch of the listing is a stretch of the listing.
    pub proof fn lemma_holds_part(self, code: Seq<Line>, at: int, from: int, to: int)
        requires
            self.holds(code, at),
            0 <= from <= to <= code.len(),
        ensures
            self.holds(code.subrange(from, to), at + from),
    {
        let part = code.subrange(from, to);
        assert(self.listing.subrange(at + from, at + from + part.len()) =~= part) by {
            assert forall|i: int| 0 <= i < part.len() implies self.listing.subrange(
                at + from,
                at + from + part.len(),
            )[i] == part[i] by {
                assert(self.listing.subrange(at, at + code.len())[from + i] == self.listing[at
                    + from + i]);
            }
        }
    }
}

/// Whether no line of `code` from `from` up to `to` can jump.
pub open spec fn falls_through(code: Seq<Line>, from: int, to: int) -> bool {
    forall|place: int|
        from <= place < to ==> match #[trigger] code[place] {
            Line::Compute(_, _, jump) => jump == Jump::Null,
            _ => true,
        }
}

impl Program {
    /// Running through a stretch of the listing that cannot jump executes
    /// its lines one after the other and ends behind it.
    pub proof fn lemma_run_pass(self, code: Seq<Line>, at: int, from: int, to: int, m: Machine)
        requires
            self.holds(code, at),
            0 <= from <= to <= code.len(),
            falls_through(code, from, to),
            m.pc == at + from,
        ensures
            self.run(m, (to - from) as nat) == self.pass(code, from, to, m),
            self.pass(code, from, to, m).pc == at + to,
        decreases to - from,
    {
        if from < to {
            self.lemma_step_in(code, at, from, m);
            let next = self.execute(code[from], m);
            assert(next.pc == m.pc + 1);
            self.lemma_run_pass(code, at, from + 1, to, next);
            assert(self.run(m, (to - from) as nat) == self.run(
                self.step(m),
                (to - from - 1) as nat,
            ));
        }
    }
}

} // verus!
