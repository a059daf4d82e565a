//! Instruction-level model of an 8-bit AVR microcontroller: operand decoding,
//! the opcode table, the memory model and the execution engine.

pub mod alu;
pub mod bin_expr;
pub mod bits;
pub mod constraint;
pub mod controller;
pub mod device;
pub mod display;
pub mod error;
pub mod flag_formulas;
pub mod instruction;
pub mod machine;
pub mod memory;
pub mod opcode;
pub mod operand;
pub mod parser;
pub mod project;
pub mod register;
pub mod sim;
pub mod stack_laws;
pub mod text;
pub mod timing;
pub mod worker;
