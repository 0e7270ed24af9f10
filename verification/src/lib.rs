//! A verified virtual machine for a fixed binary instruction format over a
//! 15-bit addressable memory, an 8-slot register file, and an unbounded
//! last-in-first-out stack, all storing 16-bit unsigned words.
//!
//! The library holds the execution engine: instruction fetch, decode and
//! dispatch, operand-addressing resolution (literal vs. register vs. memory),
//! modulo-32768 arithmetic, and the per-opcode state transitions, including
//! control transfer and terminal conditions. Console and file input/output
//! stay outside: the engine reports what it needs (a character to print, a
//! character of input, a terminal condition) through a step outcome, and the
//! caller performs it.

pub mod math;

pub mod environment;

pub mod address;

pub mod machine;

pub mod operations;

pub mod loader;

pub mod laws;
