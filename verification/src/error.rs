//! The typed failures of the interpreter.

use vstd::prelude::*;

verus! {

/// Why an execution stopped without a result. Every failure is final: the
/// interpreter never recovers from one and never skips an instruction.
#[derive(Debug, Clone, Copy, PartialEq, Eq, Structural)]
pub enum ExecError {
    /// A constant-pool index is out of range, or the entry found at a
    /// resolution site is of the wrong variant.
    MalformedConstantPool,
    /// A constant load names an entry that is not an integer literal.
    UnsupportedConstant,
    /// An instruction needs more operands than the stack holds.
    StackUnderflow,
    /// The opcode byte is outside the supported set.
    UnimplementedOpcode { opcode: u8 },
    /// The instruction pointer, or an immediate operand, lies outside the
    /// bytecode.
    CodeOutOfBounds,
    /// A local slot outside the locals array is addressed, or more
    /// arguments arrive than there are slots.
    LocalOutOfBounds,
    /// A branch target is negative or does not fit the instruction pointer.
    BranchOutOfRange,
    /// An integer division by zero.
    DivisionByZero,
    /// No class is registered under the handle or the name.
    UnknownClass,
    /// The class has no method of that name and descriptor.
    UnknownMethod,
    /// The object store holds no instance under the handle.
    UnknownInstance,
    /// The instance has no field of that name.
    UnknownField,
    /// The object store cannot number another instance.
    StoreExhausted,
    /// The instruction budget of the context is used up.
    BudgetExhausted,
}

} // verus!
