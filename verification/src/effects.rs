//! What the emitted assembly does to the machine: the stack effect of
//! every command.

pub mod arithmetic;
pub mod branching;
pub mod functional;
pub mod memory_access;
