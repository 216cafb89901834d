//! A minimal stack-based bytecode virtual machine.
//!
//! The machine executes a fixed-size instruction store against an operand
//! stack and a small register file until a halt instruction or a fatal
//! fault occurs.  `opcode` defines the instruction encoding and the
//! mnemonic lookup table, `state` the mathematical model of the machine
//! and its transition function, `machine` the executable machine proved
//! against that model, and `laws` the properties that relate several
//! operations.

pub mod laws;
pub mod machine;
pub mod opcode;
pub mod state;
