//! Translation of a stack-oriented VM language into the assembly of a
//! 16-bit register machine.
//!
//! `parser` scans the lines of a module and `commands` reads and writes
//! out each command; `assembly` is the language they write. `machine` is a
//! model of the machine that runs it, `effects` says what each command's
//! assembly does there, `symbols` which of the made-up symbols differ, and
//! `program` how the assembly of a module hangs together.

pub mod args_parser;
pub mod assembly;
pub mod commands;
pub mod effects;
pub mod machine;
pub mod parser;
pub mod pattern;
pub mod program;
pub mod symbols;
pub mod text;
