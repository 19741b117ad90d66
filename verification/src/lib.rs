//! Instruction-dispatch core of a stack-based bytecode virtual machine.
//!
//! A [`class::frame::BytecodeFrame`] executes one method body against a shared
//! [`vastatrix::Vastatrix`] context. Every executable function is verified
//! against a mathematical model of the machine.

pub mod class;
pub mod error;
pub mod vastatrix;
