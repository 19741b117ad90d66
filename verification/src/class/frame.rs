//! One method activation and the fetch-decode-execute loop that runs it.
//!
//! The meaning of every instruction is given by spec functions over a
//! mathematical picture of the frame ([`FrameState`]) and of the shared
//! context ([`World`]); the executable interpreter is proved to compute
//! exactly what they say.

use crate::class::entry_at;
use crate::class::member_class_at;
use crate::class::member_descriptor_at;
use crate::class::member_name_at;
use crate::class::class_name_at;
use crate::class::method::wrap_i32;
use crate::class::method::div_toward_zero;
use crate::class::method::Argument;
use crate::class::method::MethodType;
use crate::class::method_position;
use crate::class::pool_entry;
use crate::class::resolve_class_name;
use crate::class::resolve_member_class;
use crate::class::resolve_member_descriptor;
use crate::class::resolve_member_name;
use crate::class::Class;
use crate::class::ConstantsPoolInfo;
use crate::class::Method;
use crate::error::ExecError;
use crate::vastatrix::class_position;
use crate::vastatrix::default_fields;
use crate::vastatrix::field_read;
use crate::vastatrix::field_written;
use crate::vastatrix::initial_value;
use crate::vastatrix::named_class_position;
use crate::vastatrix::LoadedClass;
use crate::vastatrix::Vastatrix;
use crate::vastatrix::World;
use broom::Handle;
use std::collections::VecDeque;
use vstd::prelude::*;

verus! {

/// One activation as the instructions see it.
#[verifier::reject_recursive_types(T)]
#[verifier::ext_equal]
pub struct FrameState<T> {
    pub class_handle: Handle<T>,
    /// The name of the method that is running.
    pub method: String,
    /// The address of the next opcode byte.
    pub ip: int,
    pub code: Seq<u8>,
    pub locals: Seq<Argument>,
    /// The operand stack. Its last element is the top.
    pub stack: Seq<Argument>,
}

/// What one instruction does.
#[verifier::reject_recursive_types(T)]
pub enum Step<T> {
    /// The activation goes on in this state.
    Next { frame: FrameState<T>, world: World<T> },
    /// The activation ends with this value.
    Return { value: Argument, frame: FrameState<T>, world: World<T> },
    /// The interpreter stops.
    Fail { error: ExecError },
}

/// How an activation that ran to its end left things.
#[verifier::reject_recursive_types(T)]
pub struct Finished<T> {
    pub value: Argument,
    pub frame: FrameState<T>,
    pub world: World<T>,
}

/// The value that the integer literal `value` pushes.
pub open spec fn int_value(value: int) -> Argument {
    Argument { value: value as i32, kind: MethodType::Int }
}

/// The value that a method without a result hands back.
pub open spec fn void_value() -> Argument {
    Argument { value: 0, kind: MethodType::Void }
}

/// The signed 8-bit reading of a byte.
pub open spec fn signed_byte(b: u8) -> int {
    if b >= 0x80 {
        b - 0x100
    } else {
        b as int
    }
}

/// The signed 16-bit big-endian reading of two bytes.
pub open spec fn signed_pair(high: u8, low: u8) -> int {
    let raw = high * 0x100 + low;
    if raw >= 0x8000 {
        raw - 0x1_0000
    } else {
        raw
    }
}

/// The unsigned 16-bit big-endian reading of two bytes.
pub open spec fn unsigned_pair(high: u8, low: u8) -> int {
    high * 0x100 + low
}

/// The signed 32-bit reading of an unsigned 32-bit literal.
pub open spec fn signed_word(w: u32) -> int {
    if w >= 0x8000_0000 {
        w - 0x1_0000_0000
    } else {
        w as int
    }
}

/// Whether the instruction at `ip` has `count` immediate bytes in the code.
pub open spec fn has_operands<T>(f: FrameState<T>, count: int) -> bool {
    f.ip + count < f.code.len()
}

/// The `k`-th byte after the opcode.
pub open spec fn operand<T>(f: FrameState<T>, k: int) -> u8 {
    f.code[f.ip + k]
}

/// The state in which the activation goes on behind an instruction with
/// `count` immediate bytes.
pub open spec fn advance<T>(f: FrameState<T>, w: World<T>, count: int) -> Step<T> {
    if f.ip + count + 1 > u32::MAX {
        Step::Fail { error: ExecError::CodeOutOfBounds }
    } else {
        Step::Next { frame: FrameState { ip: f.ip + count + 1, ..f }, world: w }
    }
}

/// The state in which the activation goes on at `offset` bytes from the
/// branch instruction itself.
pub open spec fn jump<T>(f: FrameState<T>, w: World<T>, offset: int) -> Step<T> {
    if f.ip + offset < 0 || f.ip + offset > u32::MAX {
        Step::Fail { error: ExecError::BranchOutOfRange }
    } else {
        Step::Next { frame: FrameState { ip: f.ip + offset, ..f }, world: w }
    }
}

/// Pushes `value` behind an instruction with `count` immediate bytes.
pub open spec fn push_step<T>(f: FrameState<T>, w: World<T>, value: Argument, count: int) -> Step<
    T,
> {
    advance(FrameState { stack: f.stack.push(value), ..f }, w, count)
}

/// Copies local `slot` onto the stack.
pub open spec fn load_step<T>(f: FrameState<T>, w: World<T>, slot: int, count: int) -> Step<T> {
    if !(0 <= slot < f.locals.len()) {
        Step::Fail { error: ExecError::LocalOutOfBounds }
    } else {
        push_step(f, w, f.locals[slot], count)
    }
}

/// Pops the top of the stack into local `slot`.
pub open spec fn store_step<T>(f: FrameState<T>, w: World<T>, slot: int, count: int) -> Step<T> {
    if f.stack.len() < 1 {
        Step::Fail { error: ExecError::StackUnderflow }
    } else if !(0 <= slot < f.locals.len()) {
        Step::Fail { error: ExecError::LocalOutOfBounds }
    } else {
        advance(
            FrameState {
                locals: f.locals.update(slot, f.stack.last()),
                stack: f.stack.drop_last(),
                ..f
            },
            w,
            count,
        )
    }
}

/// Adds the signed immediate `delta` to local `slot`, wrapping; the tag of
/// the local stays.
pub open spec fn increment_step<T>(f: FrameState<T>, w: World<T>, slot: int, delta: int) -> Step<
    T,
> {
    if !(0 <= slot < f.locals.len()) {
        Step::Fail { error: ExecError::LocalOutOfBounds }
    } else {
        advance(
            FrameState {
                locals: f.locals.update(
                    slot,
                    Argument {
                        value: wrap_i32(f.locals[slot].value + delta) as i32,
                        kind: f.locals[slot].kind,
                    },
                ),
                ..f
            },
            w,
            2,
        )
    }
}

/// Removes the top of the stack.
pub open spec fn pop_step<T>(f: FrameState<T>, w: World<T>) -> Step<T> {
    if f.stack.len() < 1 {
        Step::Fail { error: ExecError::StackUnderflow }
    } else {
        advance(FrameState { stack: f.stack.drop_last(), ..f }, w, 0)
    }
}

/// Pushes a copy of the top of the stack.
pub open spec fn dup_step<T>(f: FrameState<T>, w: World<T>) -> Step<T> {
    if f.stack.len() < 1 {
        Step::Fail { error: ExecError::StackUnderflow }
    } else {
        push_step(f, w, f.stack.last(), 0)
    }
}

/// The four arithmetic instructions.
pub enum Arithmetic {
    Add,
    Sub,
    Mul,
    Div,
}

/// The exact integer result of `left op right`, before wrapping.
pub open spec fn exact_result(op: Arithmetic, left: int, right: int) -> int {
    match op {
        Arithmetic::Add => left + right,
        Arithmetic::Sub => left - right,
        Arithmetic::Mul => left * right,
        Arithmetic::Div => div_toward_zero(left, right),
    }
}

/// Pops the right operand, then the left one, and pushes the wrapped result
/// of `left op right`, tagged `Int`.
pub open spec fn arithmetic_step<T>(f: FrameState<T>, w: World<T>, op: Arithmetic) -> Step<T> {
    if f.stack.len() < 2 {
        Step::Fail { error: ExecError::StackUnderflow }
    } else {
        let right = f.stack[f.stack.len() - 1];
        let left = f.stack[f.stack.len() - 2];
        if op is Div && right.value == 0 {
            Step::Fail { error: ExecError::DivisionByZero }
        } else {
            push_step(
                FrameState { stack: f.stack.subrange(0, f.stack.len() - 2), ..f },
                w,
                int_value(wrap_i32(exact_result(op, left.value as int, right.value as int))),
                0,
            )
        }
    }
}

/// The unconditional branch.
pub open spec fn goto_step<T>(f: FrameState<T>, w: World<T>) -> Step<T> {
    if !has_operands(f, 2) {
        Step::Fail { error: ExecError::CodeOutOfBounds }
    } else {
        jump(f, w, signed_pair(operand(f, 1), operand(f, 2)))
    }
}

/// The conditional branch on integer greater-or-equal: pops the top (the
/// second value), then the next (the first value), and branches when the
/// first is at least the second.
pub open spec fn branch_ge_step<T>(f: FrameState<T>, w: World<T>) -> Step<T> {
    if !has_operands(f, 2) {
        Step::Fail { error: ExecError::CodeOutOfBounds }
    } else if f.stack.len() < 2 {
        Step::Fail { error: ExecError::StackUnderflow }
    } else {
        let second = f.stack[f.stack.len() - 1];
        let first = f.stack[f.stack.len() - 2];
        let popped = FrameState { stack: f.stack.subrange(0, f.stack.len() - 2), ..f };
        if first.value >= second.value {
            jump(popped, w, signed_pair(operand(f, 1), operand(f, 2)))
        } else {
            advance(popped, w, 2)
        }
    }
}

/// The integer return: pops one value and ends the activation with it.
pub open spec fn ireturn_step<T>(f: FrameState<T>, w: World<T>) -> Step<T> {
    if f.stack.len() < 1 {
        Step::Fail { error: ExecError::StackUnderflow }
    } else {
        Step::Return {
            value: f.stack.last(),
            frame: FrameState { stack: f.stack.drop_last(), ..f },
            world: w,
        }
    }
}

/// The void return: ends the activation at once, popping nothing.
pub open spec fn return_step<T>(f: FrameState<T>, w: World<T>) -> Step<T> {
    Step::Return { value: void_value(), frame: f, world: w }
}

/// The constant pool of the class that the frame belongs to.
pub open spec fn pool_of<T>(f: FrameState<T>, w: World<T>) -> Option<Seq<ConstantsPoolInfo>> {
    match class_position(w.classes, f.class_handle, 0) {
        Some(c) => Some(w.classes[c].class.constant_pool@),
        None => None,
    }
}

/// The constant load: pushes the literal of the Integer entry that the
/// one-byte index names.
pub open spec fn ldc_step<T>(f: FrameState<T>, w: World<T>) -> Step<T> {
    if !has_operands(f, 1) {
        Step::Fail { error: ExecError::CodeOutOfBounds }
    } else {
        match pool_of(f, w) {
            None => Step::Fail { error: ExecError::UnknownClass },
            Some(pool) => match entry_at(pool, operand(f, 1) as int) {
                None => Step::Fail { error: ExecError::MalformedConstantPool },
                Some(ConstantsPoolInfo::Integer { bytes }) => push_step(
                    f,
                    w,
                    int_value(signed_word(bytes)),
                    1,
                ),
                Some(_) => Step::Fail { error: ExecError::UnsupportedConstant },
            },
        }
    }
}

/// The name of the field that the FieldRef entry at `index` references.
pub open spec fn field_name_at(pool: Seq<ConstantsPoolInfo>, index: int) -> Option<String> {
    match entry_at(pool, index) {
        Some(ConstantsPoolInfo::FieldRef { .. }) => member_name_at(pool, index),
        _ => None,
    }
}

/// The field read: pops the object handle and pushes the field's value.
pub open spec fn getfield_step<T>(f: FrameState<T>, w: World<T>) -> Step<T> {
    if !has_operands(f, 2) {
        Step::Fail { error: ExecError::CodeOutOfBounds }
    } else if f.stack.len() < 1 {
        Step::Fail { error: ExecError::StackUnderflow }
    } else {
        match pool_of(f, w) {
            None => Step::Fail { error: ExecError::UnknownClass },
            Some(pool) => match field_name_at(
                pool,
                unsigned_pair(operand(f, 1), operand(f, 2)),
            ) {
                None => Step::Fail { error: ExecError::MalformedConstantPool },
                Some(name) => match field_read(w.store, f.stack.last().value as int, name@) {
                    Err(e) => Step::Fail { error: e },
                    Ok(v) => push_step(FrameState { stack: f.stack.drop_last(), ..f }, w, v, 2),
                },
            },
        }
    }
}

/// The field write: pops the value, then the object handle, and writes the
/// field.
pub open spec fn putfield_step<T>(f: FrameState<T>, w: World<T>) -> Step<T> {
    if !has_operands(f, 2) {
        Step::Fail { error: ExecError::CodeOutOfBounds }
    } else if f.stack.len() < 2 {
        Step::Fail { error: ExecError::StackUnderflow }
    } else {
        match pool_of(f, w) {
            None => Step::Fail { error: ExecError::UnknownClass },
            Some(pool) => match field_name_at(
                pool,
                unsigned_pair(operand(f, 1), operand(f, 2)),
            ) {
                None => Step::Fail { error: ExecError::MalformedConstantPool },
                Some(name) => {
                    let value = f.stack[f.stack.len() - 1];
                    let object = f.stack[f.stack.len() - 2].value as int;
                    if !(0 <= object < w.store.len()) {
                        Step::Fail { error: ExecError::UnknownInstance }
                    } else {
                        advance(
                            FrameState { stack: f.stack.subrange(0, f.stack.len() - 2), ..f },
                            World { store: field_written(w.store, object, name@, value), ..w },
                            2,
                        )
                    }
                },
            },
        }
    }
}

/// The instantiation: resolves the class name, has the registry prepare a
/// fresh instance, and pushes its handle, tagged with the class name.
pub open spec fn new_step<T>(f: FrameState<T>, w: World<T>) -> Step<T> {
    if !has_operands(f, 2) {
        Step::Fail { error: ExecError::CodeOutOfBounds }
    } else {
        match pool_of(f, w) {
            None => Step::Fail { error: ExecError::UnknownClass },
            Some(pool) => match class_name_at(
                pool,
                unsigned_pair(operand(f, 1), operand(f, 2)),
            ) {
                None => Step::Fail { error: ExecError::MalformedConstantPool },
                Some(name) => match named_class_position(w.classes, name@, 0) {
                    None => Step::Fail { error: ExecError::UnknownClass },
                    Some(k) => match class_position(w.classes, w.classes[k].handle, 0) {
                        None => Step::Fail { error: ExecError::UnknownClass },
                        Some(c) => if w.store.len() > i32::MAX {
                            Step::Fail { error: ExecError::StoreExhausted }
                        } else {
                            push_step(
                                f,
                                World {
                                    store: w.store.push(
                                        default_fields(w.classes[c].class.fields@),
                                    ),
                                    ..w
                                },
                                Argument {
                                    value: w.store.len() as i32,
                                    kind: MethodType::ClassReference { classpath: name },
                                },
                                2,
                            )
                        },
                    },
                },
            }
        }
    }
}

/// Where a method reference leads: the position of the class in the
/// registry and of the method in the class.
pub struct Target {
    pub class: int,
    pub method: int,
}

/// Resolves the MethodRef entry at `index`: the first registered class of
/// the referenced name, and in it the first method of the referenced name
/// and descriptor.
pub open spec fn resolve_spec<T>(
    classes: Seq<LoadedClass<T>>,
    pool: Seq<ConstantsPoolInfo>,
    index: int,
) -> Result<Target, ExecError> {
    match entry_at(pool, index) {
        Some(ConstantsPoolInfo::MethodRef { .. }) => match (
            member_class_at(pool, index),
            member_name_at(pool, index),
            member_descriptor_at(pool, index),
        ) {
            (Some(class_name), Some(name), Some(descriptor)) => match named_class_position(
                classes,
                class_name@,
                0,
            ) {
                None => Err(ExecError::UnknownClass),
                Some(k) => match method_position(
                    classes[k].class.methods@,
                    name@,
                    descriptor@,
                    0,
                ) {
                    None => Err(ExecError::UnknownMethod),
                    Some(m) => Ok(Target { class: k, method: m }),
                },
            },
            _ => Err(ExecError::MalformedConstantPool),
        },
        _ => Err(ExecError::MalformedConstantPool),
    }
}

/// The method that `target` stands for.
pub open spec fn target_method<T>(classes: Seq<LoadedClass<T>>, target: Target) -> Method {
    classes[target.class].class.methods@[target.method]
}

/// A fresh activation of the method at `target`: at its first byte, with an
/// empty stack and as many locals as the method declares, each holding the
/// initial value.
pub open spec fn activation<T>(classes: Seq<LoadedClass<T>>, target: Target) -> FrameState<T> {
    let method = target_method(classes, target);
    FrameState {
        class_handle: classes[target.class].handle,
        method: method.name,
        ip: 0,
        code: method.code@,
        locals: Seq::new(method.max_locals as nat, |i: int| initial_value()),
        stack: Seq::empty(),
    }
}

/// The frame with the incoming arguments copied into its first locals.
pub open spec fn with_args<T>(f: FrameState<T>, args: Seq<Argument>) -> FrameState<T> {
    FrameState {
        locals: Seq::new(
            f.locals.len(),
            |i: int| if i < args.len() {
                args[i]
            } else {
                f.locals[i]
            },
        ),
        ..f
    }
}

/// The stack after a call that took `count` operands and handed `value`
/// back: the operands are gone, and the value is pushed unless it is void.
pub open spec fn stack_after_call(stack: Seq<Argument>, count: int, value: Argument) -> Seq<
    Argument,
> {
    let rest = stack.subrange(0, stack.len() - count);
    if value.kind is Void {
        rest
    } else {
        rest.push(value)
    }
}

/// An invocation. The callee's parameters, and before them the receiver if
/// there is one, are taken off the stack and handed over in the order in
/// which they were pushed, which is the declared order; the callee runs to
/// its end; its result is pushed unless it is void.
pub open spec fn invoke_step<T>(f: FrameState<T>, w: World<T>, receiver: bool) -> Step<T>
    decreases w.budget, 3int,
{
    if !has_operands(f, 2) {
        Step::Fail { error: ExecError::CodeOutOfBounds }
    } else {
        match pool_of(f, w) {
            None => Step::Fail { error: ExecError::UnknownClass },
            Some(pool) => match resolve_spec(
                w.classes,
                pool,
                unsigned_pair(operand(f, 1), operand(f, 2)),
            ) {
                Err(e) => Step::Fail { error: e },
                Ok(target) => {
                    let count = target_method(w.classes, target).params@.len() + if receiver {
                        1int
                    } else {
                        0int
                    };
                    if f.stack.len() < count {
                        Step::Fail { error: ExecError::StackUnderflow }
                    } else {
                        let args = f.stack.subrange(f.stack.len() - count, f.stack.len() as int);
                        match exec_spec(activation(w.classes, target), args, w) {
                            Err(e) => Step::Fail { error: e },
                            Ok(done) => advance(
                                FrameState {
                                    stack: stack_after_call(f.stack, count, done.value),
                                    ..f
                                },
                                done.world,
                                2,
                            ),
                        }
                    }
                },
            },
        }
    }
}

/// What an invocation of the frame with `args` yields: the arguments are
/// copied into the first locals, then the frame runs to its end.
pub open spec fn exec_spec<T>(f: FrameState<T>, args: Seq<Argument>, w: World<T>) -> Result<
    Finished<T>,
    ExecError,
>
    decreases w.budget, 2int,
{
    if args.len() > f.locals.len() {
        Err(ExecError::LocalOutOfBounds)
    } else {
        run_spec(with_args(f, args), w)
    }
}

/// What the frame yields when it runs on from its state: instruction after
/// instruction until one returns or fails.
pub open spec fn run_spec<T>(f: FrameState<T>, w: World<T>) -> Result<Finished<T>, ExecError>
    decreases w.budget, 1int,
{
    match step_spec(f, w) {
        Step::Next { frame, world } => if world.budget < w.budget {
            run_spec(frame, world)
        } else {
            Err(ExecError::BudgetExhausted)
        },
        Step::Return { value, frame, world } => Ok(Finished { value, frame, world }),
        Step::Fail { error } => Err(error),
    }
}

/// What the instruction at the instruction pointer does. It costs one unit
/// of the budget, whatever it is.
pub open spec fn step_spec<T>(f: FrameState<T>, w: World<T>) -> Step<T>
    decreases w.budget, 0int,
{
    if w.budget == 0 {
        Step::Fail { error: ExecError::BudgetExhausted }
    } else if !(0 <= f.ip < f.code.len()) {
        Step::Fail { error: ExecError::CodeOutOfBounds }
    } else {
        let paid = World { budget: (w.budget - 1) as nat, ..w };
        let opcode = f.code[f.ip];
        match opcode {
            0x02 => push_step(f, paid, int_value(-1), 0),
            0x03 => push_step(f, paid, int_value(0), 0),
            0x04 => push_step(f, paid, int_value(1), 0),
            0x05 => push_step(f, paid, int_value(2), 0),
            0x06 => push_step(f, paid, int_value(3), 0),
            0x07 => push_step(f, paid, int_value(4), 0),
            0x08 => push_step(f, paid, int_value(5), 0),
            0x12 => ldc_step(f, paid),
            0x15 => if has_operands(f, 1) {
                load_step(f, paid, operand(f, 1) as int, 1)
            } else {
                Step::Fail { error: ExecError::CodeOutOfBounds }
            },
            0x1A => load_step(f, paid, 0, 0),
            0x1B => load_step(f, paid, 1, 0),
            0x1C => load_step(f, paid, 2, 0),
            0x1D => load_step(f, paid, 3, 0),
            0x2A => load_step(f, paid, 0, 0),
            0x36 => if has_operands(f, 1) {
                store_step(f, paid, operand(f, 1) as int, 1)
            } else {
                Step::Fail { error: ExecError::CodeOutOfBounds }
            },
            0x3B => store_step(f, paid, 0, 0),
            0x3C => store_step(f, paid, 1, 0),
            0x3D => store_step(f, paid, 2, 0),
            0x3E => store_step(f, paid, 3, 0),
            0x4B => store_step(f, paid, 0, 0),
            0x57 => pop_step(f, paid),
            0x59 => dup_step(f, paid),
            0x60 => arithmetic_step(f, paid, Arithmetic::Add),
            0x64 => arithmetic_step(f, paid, Arithmetic::Sub),
            0x68 => arithmetic_step(f, paid, Arithmetic::Mul),
            0x6C => arithmetic_step(f, paid, Arithmetic::Div),
            0x84 => if has_operands(f, 2) {
                increment_step(f, paid, operand(f, 1) as int, signed_byte(operand(f, 2)))
            } else {
                Step::Fail { error: ExecError::CodeOutOfBounds }
            },
            0xA2 => branch_ge_step(f, paid),
            0xA7 => goto_step(f, paid),
            0xAC => ireturn_step(f, paid),
            0xB1 => return_step(f, paid),
            0xB4 => getfield_step(f, paid),
            0xB5 => putfield_step(f, paid),
            0xB6 => invoke_step(f, paid, true),
            0xB7 => invoke_step(f, paid, true),
            0xB8 => invoke_step(f, paid, false),
            0xBB => new_step(f, paid),
            _ => Step::Fail { error: ExecError::UnimplementedOpcode { opcode } },
        }
    }
}

/// A callable unit: anything that can be invoked with arguments in a
/// context and hands one value back, void-tagged where it has no result.
pub trait Frame<T> {
    fn exec(&mut self, args: Vec<Argument>, running_in: &mut Vastatrix<T>) -> (r: Result<
        Argument,
        ExecError,
    >);
}

/// One activation of a bytecode method.
#[derive(Debug)]
#[verifier::reject_recursive_types(T)]
pub struct BytecodeFrame<T> {
    /// The handle of the class that owns the method.
    pub class_handle: Handle<T>,
    pub method: String,
    /// The address of the next opcode byte.
    pub ip: u32,
    pub code: Vec<u8>,
    pub locals: Vec<Argument>,
    /// The operand stack. Its back is the top: values are pushed and popped
    /// there and nowhere else.
    pub stack: VecDeque<Argument>,
}

impl<T> View for BytecodeFrame<T> {
    type V = FrameState<T>;

    open spec fn view(&self) -> FrameState<T> {
        FrameState {
            class_handle: self.class_handle,
            method: self.method,
            ip: self.ip as int,
            code: self.code@,
            locals: self.locals@,
            stack: self.stack@,
        }
    }
}

/// What one executed instruction reports: `Ok(None)` to go on, `Ok(Some(v))`
/// when the activation returns `v`.
pub type Stepped = Result<Option<Argument>, ExecError>;

/// Whether a report, with the frame and the context as the instruction left
/// them, is what `expected` says. Of a failure only the error is stated: the
/// interpreter is then dead, and the state it leaves means nothing.
pub open spec fn step_matches<T>(
    expected: Step<T>,
    r: Stepped,
    frame: FrameState<T>,
    world: World<T>,
) -> bool {
    match expected {
        Step::Next { frame: f, world: w } => r == Ok::<Option<Argument>, ExecError>(None)
            && frame == f && world == w,
        Step::Return { value, frame: f, world: w } => r == Ok::<Option<Argument>, ExecError>(
            Some(value),
        ) && frame == f && world == w,
        Step::Fail { error } => r == Err::<Option<Argument>, ExecError>(error),
    }
}

/// Reads two bytes as a signed 16-bit big-endian number.
fn read_signed_pair(high: u8, low: u8) -> (r: i32)
    ensures
        r == signed_pair(high, low),
{
    let raw: i32 = high as i32 * 0x100 + low as i32;
    if raw >= 0x8000 {
        raw - 0x1_0000
    } else {
        raw
    }
}

/// Reads two bytes as an unsigned 16-bit big-endian number.
fn read_unsigned_pair(high: u8, low: u8) -> (r: u16)
    ensures
        r == unsigned_pair(high, low),
{
    high as u16 * 0x100 + low as u16
}

impl<T> BytecodeFrame<T> {
    /// A frame at the first byte of `code`, with an empty stack.
    pub fn new(class_handle: Handle<T>, method: String, code: Vec<u8>, locals: Vec<Argument>) -> (r:
        Self)
        ensures
            r.class_handle == class_handle,
            r.method == method,
            r.ip == 0,
            r.code == code,
            r.locals == locals,
            r.stack@.len() == 0,
    {
        BytecodeFrame { class_handle, method, ip: 0, code, locals, stack: VecDeque::new() }
    }

    /// Whether the instruction at the instruction pointer has `count`
    /// immediate bytes in the code.
    fn operands_present(&self, count: u32) -> (r: bool)
        requires
            count <= 2,
        ensures
            r == has_operands(self@, count as int),
    {
        self.ip as u64 + (count as u64) < self.code.len() as u64
    }

    /// The `k`-th byte after the opcode.
    fn operand_byte(&self, k: u32) -> (r: u8)
        requires
            1 <= k <= 2,
            has_operands(self@, k as int),
        ensures
            r == operand(self@, k as int),
    {
        let length: usize = self.code.len();
        assert(self.ip + k < length);
        self.code[self.ip as usize + k as usize]
    }

    /// Moves the instruction pointer behind an instruction with `count`
    /// immediate bytes.
    fn advance(&mut self, count: u32, Ghost(w): Ghost<World<T>>) -> (r: Stepped)
        requires
            count <= 2,
        ensures
            step_matches(advance(old(self)@, w, count as int), r, final(self)@, w),
    {
        if self.ip > u32::MAX - count - 1 {
            return Err(ExecError::CodeOutOfBounds);
        }
        self.ip = self.ip + count + 1;
        Ok(None)
    }

    /// Moves the instruction pointer by `offset` bytes.
    fn jump(&mut self, offset: i32, Ghost(w): Ghost<World<T>>) -> (r: Stepped)
        requires
            -0x8000 <= offset < 0x8000,
        ensures
            step_matches(jump(old(self)@, w, offset as int), r, final(self)@, w),
    {
        let target: i64 = self.ip as i64 + offset as i64;
        if target < 0 || target > 0xffff_ffff {
            return Err(ExecError::BranchOutOfRange);
        }
        self.ip = target as u32;
        Ok(None)
    }

    /// Pushes `value` and moves on.
    fn push_value(&mut self, value: Argument, count: u32, Ghost(w): Ghost<World<T>>) -> (r:
        Stepped)
        requires
            count <= 2,
        ensures
            step_matches(push_step(old(self)@, w, value, count as int), r, final(self)@, w),
    {
        self.stack.push_back(value);
        self.advance(count, Ghost(w))
    }

    /// Copies a local onto the stack and moves on.
    fn load_local(&mut self, slot: usize, count: u32, Ghost(w): Ghost<World<T>>) -> (r: Stepped)
        requires
            count <= 2,
        ensures
            step_matches(load_step(old(self)@, w, slot as int, count as int), r, final(self)@, w),
    {
        if slot >= self.locals.len() {
            return Err(ExecError::LocalOutOfBounds);
        }
        let value = self.locals[slot].clone();
        self.push_value(value, count, Ghost(w))
    }

    /// Pops the top of the stack into a local and moves on.
    fn store_local(&mut self, slot: usize, count: u32, Ghost(w): Ghost<World<T>>) -> (r: Stepped)
        requires
            count <= 2,
        ensures
            step_matches(store_step(old(self)@, w, slot as int, count as int), r, final(self)@, w),
    {
        if self.stack.len() < 1 {
            return Err(ExecError::StackUnderflow);
        }
        if slot >= self.locals.len() {
            return Err(ExecError::LocalOutOfBounds);
        }
        let value = self.stack.pop_back().unwrap();
        self.locals.set(slot, value);
        self.advance(count, Ghost(w))
    }

    /// Adds a signed immediate to a local and moves on.
    fn increment_local(&mut self, slot: usize, delta: u8, Ghost(w): Ghost<World<T>>) -> (r:
        Stepped)
        ensures
            step_matches(
                increment_step(old(self)@, w, slot as int, signed_byte(delta)),
                r,
                final(self)@,
                w,
            ),
    {
        if slot >= self.locals.len() {
            return Err(ExecError::LocalOutOfBounds);
        }
        let signed: i32 = if delta >= 0x80 {
            delta as i32 - 0x100
        } else {
            delta as i32
        };
        let old_value: i32 = self.locals[slot].value;
        let kind = self.locals[slot].kind.clone();
        self.locals.set(slot, Argument::new(old_value.wrapping_add(signed), kind));
        self.advance(2, Ghost(w))
    }

    /// Removes the top of the stack and moves on.
    fn pop_top(&mut self, Ghost(w): Ghost<World<T>>) -> (r: Stepped)
        ensures
            step_matches(pop_step(old(self)@, w), r, final(self)@, w),
    {
        if self.stack.len() < 1 {
            return Err(ExecError::StackUnderflow);
        }
        self.stack.pop_back();
        self.advance(0, Ghost(w))
    }

    /// Pushes a copy of the top of the stack and moves on.
    fn duplicate_top(&mut self, Ghost(w): Ghost<World<T>>) -> (r: Stepped)
        ensures
            step_matches(dup_step(old(self)@, w), r, final(self)@, w),
    {
        if self.stack.len() < 1 {
            return Err(ExecError::StackUnderflow);
        }
        let value = self.stack[self.stack.len() - 1].clone();
        self.push_value(value, 0, Ghost(w))
    }

    /// Pops two operands, pushes the result and moves on.
    fn arithmetic(&mut self, op: Arithmetic, Ghost(w): Ghost<World<T>>) -> (r: Stepped)
        ensures
            step_matches(arithmetic_step(old(self)@, w, op), r, final(self)@, w),
    {
        if self.stack.len() < 2 {
            return Err(ExecError::StackUnderflow);
        }
        let right = self.stack.pop_back().unwrap();
        let left = self.stack.pop_back().unwrap();
        let result = match op {
            Arithmetic::Add => left.wrapping_iadd(right),
            Arithmetic::Sub => left.wrapping_isub(right),
            Arithmetic::Mul => left.wrapping_imul(right),
            Arithmetic::Div => {
                if right.value == 0 {
                    return Err(ExecError::DivisionByZero);
                }
                left.wrapping_idiv(right)
            },
        };
        assert(self.stack@ =~= old(self).stack@.subrange(0, old(self).stack@.len() - 2));
        self.push_value(result, 0, Ghost(w))
    }

    /// Branches unconditionally.
    fn goto(&mut self, Ghost(w): Ghost<World<T>>) -> (r: Stepped)
        ensures
            step_matches(goto_step(old(self)@, w), r, final(self)@, w),
    {
        if !self.operands_present(2) {
            return Err(ExecError::CodeOutOfBounds);
        }
        let offset = read_signed_pair(self.operand_byte(1), self.operand_byte(2));
        self.jump(offset, Ghost(w))
    }

    /// Pops two values and branches when the first is at least the second.
    fn branch_ge(&mut self, Ghost(w): Ghost<World<T>>) -> (r: Stepped)
        ensures
            step_matches(branch_ge_step(old(self)@, w), r, final(self)@, w),
    {
        if !self.operands_present(2) {
            return Err(ExecError::CodeOutOfBounds);
        }
        if self.stack.len() < 2 {
            return Err(ExecError::StackUnderflow);
        }
        let offset = read_signed_pair(self.operand_byte(1), self.operand_byte(2));
        let second = self.stack.pop_back().unwrap();
        let first = self.stack.pop_back().unwrap();
        assert(self.stack@ =~= old(self).stack@.subrange(0, old(self).stack@.len() - 2));
        if first >= second {
            self.jump(offset, Ghost(w))
        } else {
            self.advance(2, Ghost(w))
        }
    }

    /// Pops the result and ends the activation.
    fn return_int(&mut self, Ghost(w): Ghost<World<T>>) -> (r: Stepped)
        ensures
            step_matches(ireturn_step(old(self)@, w), r, final(self)@, w),
    {
        if self.stack.len() < 1 {
            return Err(ExecError::StackUnderflow);
        }
        let value = self.stack.pop_back().unwrap();
        Ok(Some(value))
    }
}

/// The parameter types of a resolved method, in declared order.
#[derive(Debug)]
pub struct Descriptor {
    pub types: Vec<MethodType>,
}

/// Reads an unsigned 32-bit literal as a signed one.
fn read_signed_word(w: u32) -> (r: i32)
    ensures
        r == signed_word(w),
{
    if w >= 0x8000_0000 {
        (w as i64 - 0x1_0000_0000) as i32
    } else {
        w as i32
    }
}

/// A locals array of `count` slots, each holding the initial value.
fn fresh_locals(count: u16) -> (r: Vec<Argument>)
    ensures
        r@ == Seq::new(count as nat, |i: int| initial_value()),
{
    let mut locals: Vec<Argument> = Vec::new();
    let mut i: u16 = 0;
    while i < count
        invariant
            i <= count,
            locals@ == Seq::new(i as nat, |j: int| initial_value()),
        decreases count - i,
    {
        locals.push(Argument::new(0, MethodType::Int));
        i += 1;
        assert(locals@ =~= Seq::new(i as nat, |j: int| initial_value()));
    }
    locals
}

/// A copy of a list of parameter types.
fn copy_types(types: &Vec<MethodType>) -> (r: Vec<MethodType>)
    ensures
        r@ == types@,
{
    let mut copy: Vec<MethodType> = Vec::new();
    let mut i: usize = 0;
    while i < types.len()
        invariant
            i <= types.len(),
            copy@ == types@.take(i as int),
        decreases types.len() - i,
    {
        copy.push(types[i].clone());
        i += 1;
        assert(copy@ =~= types@.take(i as int));
    }
    assert(types@.take(types@.len() as int) =~= types@);
    copy
}

/// A copy of a bytecode buffer.
fn copy_code(code: &Vec<u8>) -> (r: Vec<u8>)
    ensures
        r@ == code@,
{
    let mut copy: Vec<u8> = Vec::new();
    let mut i: usize = 0;
    while i < code.len()
        invariant
            i <= code.len(),
            copy@ == code@.take(i as int),
        decreases code.len() - i,
    {
        copy.push(code[i]);
        i += 1;
        assert(copy@ =~= code@.take(i as int));
    }
    assert(code@.take(code@.len() as int) =~= code@);
    copy
}

impl Class {
    /// Resolves the MethodRef entry at `method_ref` of this class's constant
    /// pool to a fresh activation of the referenced method and the method's
    /// descriptor.
    pub fn resolve_method<T>(&self, method_ref: u16, running_in: &Vastatrix<T>) -> (r: Result<
        (BytecodeFrame<T>, Descriptor),
        ExecError,
    >)
        ensures
            match resolve_spec(running_in.classes@, self.constant_pool@, method_ref as int) {
                Err(e) => r matches Err(got) && got == e,
                Ok(target) => r matches Ok(pair) && pair.0@ == activation(
                    running_in.classes@,
                    target,
                ) && pair.1.types@ == target_method(running_in.classes@, target).params@,
            },
    {
        let pool = &self.constant_pool;
        match pool_entry(pool, method_ref) {
            Some(ConstantsPoolInfo::MethodRef { .. }) => {},
            _ => { return Err(ExecError::MalformedConstantPool); },
        }
        let class_name = resolve_member_class(pool, method_ref);
        let name = resolve_member_name(pool, method_ref);
        let descriptor = resolve_member_descriptor(pool, method_ref);
        let (class_name, name, descriptor) = match (class_name, name, descriptor) {
            (Ok(c), Ok(n), Ok(d)) => (c, n, d),
            _ => { return Err(ExecError::MalformedConstantPool); },
        };
        let owner = match running_in.named_class_index(&class_name) {
            Some(k) => &running_in.classes[k],
            None => { return Err(ExecError::UnknownClass); },
        };
        let method = match owner.class.find_method(&name, &descriptor) {
            Some(m) => m,
            None => { return Err(ExecError::UnknownMethod); },
        };
        let frame = BytecodeFrame {
            class_handle: owner.handle,
            method: method.name.clone(),
            ip: 0,
            code: copy_code(&method.code),
            locals: fresh_locals(method.max_locals),
            stack: VecDeque::new(),
        };
        assert(frame@.stack =~= Seq::<Argument>::empty());
        Ok((frame, Descriptor { types: copy_types(&method.params) }))
    }
}

/// Whether a result, with the frame and the context as the invocation left
/// them, is what `expected` says. Of a failure only the error is stated.
pub open spec fn exec_matches<T>(
    expected: Result<Finished<T>, ExecError>,
    r: Result<Argument, ExecError>,
    frame: FrameState<T>,
    world: World<T>,
) -> bool {
    match expected {
        Ok(done) => r == Ok::<Argument, ExecError>(done.value) && frame == done.frame && world
            == done.world,
        Err(e) => r == Err::<Argument, ExecError>(e),
    }
}

impl<T> BytecodeFrame<T> {
    /// The constant pool of the class that the frame belongs to.
    fn frame_pool<'a>(&self, vm: &'a Vastatrix<T>) -> (r: Option<&'a Vec<ConstantsPoolInfo>>)
        ensures
            match pool_of(self@, vm@) {
                Some(pool) => r matches Some(got) && got@ == pool,
                None => r is None,
            },
    {
        match vm.get_class(self.class_handle) {
            Some(class) => Some(&class.constant_pool),
            None => None,
        }
    }

    /// The name of the field that the FieldRef entry at `index` references.
    fn field_name(pool: &Vec<ConstantsPoolInfo>, index: u16) -> (r: Option<String>)
        ensures
            r == field_name_at(pool@, index as int),
    {
        match pool_entry(pool, index) {
            Some(ConstantsPoolInfo::FieldRef { .. }) => {
                match resolve_member_name(pool, index) {
                    Ok(name) => Some(name),
                    Err(_) => None,
                }
            },
            _ => None,
        }
    }

    /// Pushes an integer literal of the constant pool and moves on.
    fn load_constant(&mut self, vm: &Vastatrix<T>) -> (r: Stepped)
        ensures
            step_matches(ldc_step(old(self)@, vm@), r, final(self)@, vm@),
    {
        if !self.operands_present(1) {
            return Err(ExecError::CodeOutOfBounds);
        }
        let index = self.operand_byte(1);
        let pool = match self.frame_pool(vm) {
            Some(pool) => pool,
            None => { return Err(ExecError::UnknownClass); },
        };
        match pool_entry(pool, index as u16) {
            None => Err(ExecError::MalformedConstantPool),
            Some(ConstantsPoolInfo::Integer { bytes }) => {
                let value = Argument::new(read_signed_word(*bytes), MethodType::Int);
                self.push_value(value, 1, Ghost(vm@))
            },
            Some(_) => Err(ExecError::UnsupportedConstant),
        }
    }

    /// Replaces the object handle on top of the stack by the value of one
    /// of the object's fields and moves on.
    fn get_field(&mut self, vm: &Vastatrix<T>) -> (r: Stepped)
        ensures
            step_matches(getfield_step(old(self)@, vm@), r, final(self)@, vm@),
    {
        if !self.operands_present(2) {
            return Err(ExecError::CodeOutOfBounds);
        }
        if self.stack.len() < 1 {
            return Err(ExecError::StackUnderflow);
        }
        let index = read_unsigned_pair(self.operand_byte(1), self.operand_byte(2));
        let pool = match self.frame_pool(vm) {
            Some(pool) => pool,
            None => { return Err(ExecError::UnknownClass); },
        };
        let name = match Self::field_name(pool, index) {
            Some(name) => name,
            None => { return Err(ExecError::MalformedConstantPool); },
        };
        let object = self.stack.pop_back().unwrap();
        match vm.get_field(object.value, &name) {
            Err(e) => Err(e),
            Ok(value) => self.push_value(value, 2, Ghost(vm@)),
        }
    }

    /// Pops a value and an object handle, writes one of the object's fields
    /// and moves on.
    fn put_field(&mut self, vm: &mut Vastatrix<T>) -> (r: Stepped)
        ensures
            step_matches(putfield_step(old(self)@, old(vm)@), r, final(self)@, final(vm)@),
            final(vm).budget == old(vm).budget,
    {
        if !self.operands_present(2) {
            return Err(ExecError::CodeOutOfBounds);
        }
        if self.stack.len() < 2 {
            return Err(ExecError::StackUnderflow);
        }
        let index = read_unsigned_pair(self.operand_byte(1), self.operand_byte(2));
        let name = match self.frame_pool(vm) {
            Some(pool) => match Self::field_name(pool, index) {
                Some(name) => name,
                None => { return Err(ExecError::MalformedConstantPool); },
            },
            None => { return Err(ExecError::UnknownClass); },
        };
        let value = self.stack.pop_back().unwrap();
        let object = self.stack.pop_back().unwrap();
        assert(self.stack@ =~= old(self).stack@.subrange(0, old(self).stack@.len() - 2));
        match vm.put_field(object.value, name, value) {
            Err(e) => Err(e),
            Ok(()) => {
                assert(vm@ =~= World {
                    store: field_written(old(vm)@.store, object.value as int, name@, value),
                    ..old(vm)@
                });
                self.advance(2, Ghost(vm@))
            },
        }
    }

    /// Has the registry prepare a fresh instance, pushes its handle and
    /// moves on.
    fn instantiate(&mut self, vm: &mut Vastatrix<T>) -> (r: Stepped)
        ensures
            step_matches(new_step(old(self)@, old(vm)@), r, final(self)@, final(vm)@),
            final(vm).budget == old(vm).budget,
    {
        if !self.operands_present(2) {
            return Err(ExecError::CodeOutOfBounds);
        }
        let index = read_unsigned_pair(self.operand_byte(1), self.operand_byte(2));
        let name = match self.frame_pool(vm) {
            Some(pool) => match resolve_class_name(pool, index) {
                Ok(name) => name,
                Err(_) => { return Err(ExecError::MalformedConstantPool); },
            },
            None => { return Err(ExecError::UnknownClass); },
        };
        let handle = match vm.load_or_get_class_handle(&name) {
            Ok(handle) => handle,
            Err(e) => { return Err(e); },
        };
        let object = match vm.prepare_instance(handle) {
            Ok(object) => object,
            Err(e) => { return Err(e); },
        };
        let value = Argument::new(object, MethodType::ClassReference { classpath: name });
        assert(vm@ =~= World {
            store: old(vm)@.store.push(
                default_fields(
                    old(vm)@.classes[class_position(old(vm)@.classes, handle, 0).unwrap()].class.fields@,
                ),
            ),
            ..old(vm)@
        });
        self.push_value(value, 2, Ghost(vm@))
    }
}

impl<T> BytecodeFrame<T> {
    /// Takes the `count` topmost values off the stack and hands them out in
    /// the order in which they were pushed.
    fn take_arguments(&mut self, count: usize) -> (r: Vec<Argument>)
        requires
            count <= old(self).stack@.len(),
        ensures
            r@ == old(self).stack@.subrange(
                old(self).stack@.len() - count,
                old(self).stack@.len() as int,
            ),
            final(self).stack@ == old(self).stack@.subrange(0, old(self).stack@.len() - count),
            final(self).class_handle == old(self).class_handle,
            final(self).method == old(self).method,
            final(self).ip == old(self).ip,
            final(self).code == old(self).code,
            final(self).locals == old(self).locals,
    {
        let at: usize = self.stack.len() - count;
        let mut taken = self.stack.split_off(at);
        let ghost all = taken@;
        let mut args: Vec<Argument> = Vec::new();
        while taken.len() > 0
            invariant
                args@ + taken@ == all,
            decreases taken@.len(),
        {
            let ghost rest = taken@;
            let value = taken.pop_front().unwrap();
            args.push(value);
            assert(args@ + taken@ =~= all) by {
                assert(args@.drop_last() + rest == all);
            }
        }
        assert(args@ =~= all) by {
            assert(taken@ =~= Seq::<Argument>::empty());
        }
        args
    }

    /// Invokes the method that a MethodRef entry references and moves on.
    fn invoke(&mut self, vm: &mut Vastatrix<T>, receiver: bool) -> (r: Stepped)
        ensures
            step_matches(invoke_step(old(self)@, old(vm)@, receiver), r, final(self)@, final(vm)@),
            r is Ok ==> final(vm).budget <= old(vm).budget,
        decreases old(vm).budget, 3int,
    {
        if !self.operands_present(2) {
            return Err(ExecError::CodeOutOfBounds);
        }
        let index = read_unsigned_pair(self.operand_byte(1), self.operand_byte(2));
        let resolved = match vm.get_class(self.class_handle) {
            Some(class) => class.resolve_method(index, vm),
            None => { return Err(ExecError::UnknownClass); },
        };
        let (mut callee, descriptor) = match resolved {
            Ok(pair) => pair,
            Err(e) => { return Err(e); },
        };
        let declared: usize = descriptor.types.len();
        let extra: usize = if receiver {
            1
        } else {
            0
        };
        if self.stack.len() < extra || self.stack.len() - extra < declared {
            return Err(ExecError::StackUnderflow);
        }
        let count: usize = declared + extra;
        let args = self.take_arguments(count);
        match callee.execute(args, vm) {
            Err(e) => Err(e),
            Ok(value) => {
                if !value.void() {
                    self.stack.push_back(value);
                }
                assert(self.stack@ =~= stack_after_call(old(self).stack@, count as int, value));
                self.advance(2, Ghost(vm@))
            },
        }
    }

    /// Executes the instruction at the instruction pointer.
    pub fn step(&mut self, vm: &mut Vastatrix<T>) -> (r: Stepped)
        ensures
            step_matches(step_spec(old(self)@, old(vm)@), r, final(self)@, final(vm)@),
            r is Ok ==> final(vm).budget < old(vm).budget,
        decreases old(vm).budget, 0int,
    {
        if vm.budget == 0 {
            return Err(ExecError::BudgetExhausted);
        }
        if self.ip as usize >= self.code.len() {
            return Err(ExecError::CodeOutOfBounds);
        }
        vm.budget = vm.budget - 1;
        let ghost paid = vm@;
        let opcode: u8 = self.code[self.ip as usize];
        match opcode {
            0x02 => self.push_value(Argument::new(-1, MethodType::Int), 0, Ghost(paid)),
            0x03 => self.push_value(Argument::new(0, MethodType::Int), 0, Ghost(paid)),
            0x04 => self.push_value(Argument::new(1, MethodType::Int), 0, Ghost(paid)),
            0x05 => self.push_value(Argument::new(2, MethodType::Int), 0, Ghost(paid)),
            0x06 => self.push_value(Argument::new(3, MethodType::Int), 0, Ghost(paid)),
            0x07 => self.push_value(Argument::new(4, MethodType::Int), 0, Ghost(paid)),
            0x08 => self.push_value(Argument::new(5, MethodType::Int), 0, Ghost(paid)),
            0x12 => self.load_constant(vm),
            0x15 => {
                if !self.operands_present(1) {
                    return Err(ExecError::CodeOutOfBounds);
                }
                let slot = self.operand_byte(1);
                self.load_local(slot as usize, 1, Ghost(paid))
            },
            0x1A => self.load_local(0, 0, Ghost(paid)),
            0x1B => self.load_local(1, 0, Ghost(paid)),
            0x1C => self.load_local(2, 0, Ghost(paid)),
            0x1D => self.load_local(3, 0, Ghost(paid)),
            0x2A => self.load_local(0, 0, Ghost(paid)),
            0x36 => {
                if !self.operands_present(1) {
                    return Err(ExecError::CodeOutOfBounds);
                }
                let slot = self.operand_byte(1);
                self.store_local(slot as usize, 1, Ghost(paid))
            },
            0x3B => self.store_local(0, 0, Ghost(paid)),
            0x3C => self.store_local(1, 0, Ghost(paid)),
            0x3D => self.store_local(2, 0, Ghost(paid)),
            0x3E => self.store_local(3, 0, Ghost(paid)),
            0x4B => self.store_local(0, 0, Ghost(paid)),
            0x57 => self.pop_top(Ghost(paid)),
            0x59 => self.duplicate_top(Ghost(paid)),
            0x60 => self.arithmetic(Arithmetic::Add, Ghost(paid)),
            0x64 => self.arithmetic(Arithmetic::Sub, Ghost(paid)),
            0x68 => self.arithmetic(Arithmetic::Mul, Ghost(paid)),
            0x6C => self.arithmetic(Arithmetic::Div, Ghost(paid)),
            0x84 => {
                if !self.operands_present(2) {
                    return Err(ExecError::CodeOutOfBounds);
                }
                let slot = self.operand_byte(1);
                let delta = self.operand_byte(2);
                self.increment_local(slot as usize, delta, Ghost(paid))
            },
            0xA2 => self.branch_ge(Ghost(paid)),
            0xA7 => self.goto(Ghost(paid)),
            0xAC => self.return_int(Ghost(paid)),
            0xB1 => Ok(Some(Argument::new(0, MethodType::Void))),
            0xB4 => self.get_field(vm),
            0xB5 => self.put_field(vm),
            0xB6 => self.invoke(vm, true),
            0xB7 => self.invoke(vm, true),
            0xB8 => self.invoke(vm, false),
            0xBB => self.instantiate(vm),
            _ => Err(ExecError::UnimplementedOpcode { opcode }),
        }
    }

    /// Runs the frame on from its state until an instruction returns or
    /// fails.
    pub fn run(&mut self, vm: &mut Vastatrix<T>) -> (r: Result<Argument, ExecError>)
        ensures
            exec_matches(run_spec(old(self)@, old(vm)@), r, final(self)@, final(vm)@),
            r is Ok ==> final(vm).budget <= old(vm).budget,
        decreases old(vm).budget, 1int,
    {
        loop
            invariant
                run_spec(self@, vm@) == run_spec(old(self)@, old(vm)@),
                vm.budget <= old(vm).budget,
            decreases vm.budget,
        {
            match self.step(vm) {
                Err(e) => { return Err(e); },
                Ok(Some(value)) => { return Ok(value); },
                Ok(None) => {},
            }
        }
    }

    /// Invokes the frame: copies the arguments into the first locals, then
    /// runs the frame to its end.
    pub fn execute(&mut self, args: Vec<Argument>, vm: &mut Vastatrix<T>) -> (r: Result<
        Argument,
        ExecError,
    >)
        ensures
            exec_matches(exec_spec(old(self)@, args@, old(vm)@), r, final(self)@, final(vm)@),
            r is Ok ==> final(vm).budget <= old(vm).budget,
        decreases old(vm).budget, 2int,
    {
        if args.len() > self.locals.len() {
            return Err(ExecError::LocalOutOfBounds);
        }
        let mut i: usize = 0;
        while i < args.len()
            invariant
                i <= args.len() <= self.locals.len(),
                self.locals@.len() == old(self).locals@.len(),
                forall|j: int| 0 <= j < i ==> self.locals@[j] == args@[j],
                forall|j: int| i <= j < self.locals@.len() ==> self.locals@[j] == old(self).locals@[j],
                self.class_handle == old(self).class_handle,
                self.method == old(self).method,
                self.ip == old(self).ip,
                self.code == old(self).code,
                self.stack == old(self).stack,
            decreases args.len() - i,
        {
            self.locals.set(i, args[i].clone());
            i += 1;
        }
        assert(self@ =~= with_args(old(self)@, args@));
        self.run(vm)
    }
}

impl<T> Frame<T> for BytecodeFrame<T> {
    /// Invokes the frame with `args` in the context `running_in`.
    fn exec(&mut self, args: Vec<Argument>, running_in: &mut Vastatrix<T>) -> (r: Result<
        Argument,
        ExecError,
    >)
        ensures
            exec_matches(
                exec_spec(old(self)@, args@, old(running_in)@),
                r,
                final(self)@,
                final(running_in)@,
            ),
    {
        self.execute(args, running_in)
    }
}

} // verus!
