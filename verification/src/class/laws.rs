//! What holds of every execution: the laws of the instruction set, proved
//! from the meaning of the instructions.

use crate::class::frame::activation;
use crate::class::frame::exact_result;
use crate::class::frame::exec_spec;
use crate::class::frame::has_operands;
use crate::class::frame::int_value;
use crate::class::frame::operand;
use crate::class::frame::pool_of;
use crate::class::frame::resolve_spec;
use crate::class::frame::run_spec;
use crate::class::frame::signed_pair;
use crate::class::frame::stack_after_call;
use crate::class::frame::step_spec;
use crate::class::frame::target_method;
use crate::class::frame::unsigned_pair;
use crate::class::frame::void_value;
use crate::class::frame::with_args;
use crate::class::frame::Arithmetic;
use crate::class::frame::FrameState;
use crate::class::frame::Step;
use crate::class::method::div_toward_zero;
use crate::class::method::wrap_i32;
use crate::class::method::Argument;
use crate::error::ExecError;
use crate::vastatrix::field_read;
use crate::vastatrix::field_written;
use crate::vastatrix::World;
use vstd::prelude::*;

verus! {

/// The context after an instruction was paid for.
pub open spec fn paid<T>(w: World<T>) -> World<T> {
    World { budget: (w.budget - 1) as nat, ..w }
}

/// Whether the frame can fetch an opcode and the context can pay for it.
pub open spec fn can_fetch<T>(f: FrameState<T>, w: World<T>) -> bool {
    w.budget > 0 && 0 <= f.ip < f.code.len()
}

/// The arithmetic that an opcode stands for.
pub open spec fn arithmetic_of(opcode: u8) -> Option<Arithmetic> {
    if opcode == 0x60 {
        Some(Arithmetic::Add)
    } else if opcode == 0x64 {
        Some(Arithmetic::Sub)
    } else if opcode == 0x68 {
        Some(Arithmetic::Mul)
    } else if opcode == 0x6C {
        Some(Arithmetic::Div)
    } else {
        None
    }
}

/// Wrapping lands in the signed 32-bit range, changes its argument by a
/// multiple of 2^32, and leaves alone what is in the range already.
pub proof fn law_wrap(x: int)
    ensures
        i32::MIN <= wrap_i32(x) <= i32::MAX,
        (wrap_i32(x) - x) % 0x1_0000_0000 == 0,
        i32::MIN <= x <= i32::MAX ==> wrap_i32(x) == x,
{
}

/// The one quotient of two 32-bit integers that leaves the range,
/// `i32::MIN / -1`, wraps to `i32::MIN`.
pub proof fn law_division_edge()
    ensures
        wrap_i32(div_toward_zero(i32::MIN as int, -1)) == i32::MIN,
{
}

/// Each of the four arithmetic instructions replaces the two topmost values
/// by the 32-bit wraparound of `second-popped op first-popped`, tagged
/// `Int`, and changes nothing else but the instruction pointer.
pub proof fn law_arithmetic<T>(f: FrameState<T>, w: World<T>)
    requires
        can_fetch(f, w),
        arithmetic_of(f.code[f.ip]) is Some,
        f.stack.len() >= 2,
        f.code[f.ip] == 0x6C ==> f.stack.last().value != 0,
        f.ip + 1 <= u32::MAX,
    ensures
        step_spec(f, w) == (Step::Next {
            frame: FrameState {
                ip: f.ip + 1,
                stack: f.stack.drop_last().drop_last().push(
                    int_value(
                        wrap_i32(
                            exact_result(
                                arithmetic_of(f.code[f.ip]).unwrap(),
                                f.stack.drop_last().last().value as int,
                                f.stack.last().value as int,
                            ),
                        ),
                    ),
                ),
                ..f
            },
            world: paid(w),
        }),
{
    assert(f.stack.drop_last().drop_last() =~= f.stack.subrange(0, f.stack.len() - 2));
}

/// Each small-integer push instruction pushes its literal, from -1 for
/// opcode 0x02 to 5 for opcode 0x08, and changes nothing else but the
/// instruction pointer.
pub proof fn law_push_literal<T>(f: FrameState<T>, w: World<T>)
    requires
        can_fetch(f, w),
        0x02 <= f.code[f.ip] <= 0x08,
        f.ip + 1 <= u32::MAX,
    ensures
        step_spec(f, w) == (Step::Next {
            frame: FrameState {
                ip: f.ip + 1,
                stack: f.stack.push(int_value(f.code[f.ip] - 3)),
                ..f
            },
            world: paid(w),
        }),
{
}

/// The slot that a store instruction at the instruction pointer writes, and
/// the number of its immediate bytes.
pub open spec fn store_form<T>(f: FrameState<T>) -> Option<(int, int)> {
    let opcode = f.code[f.ip];
    if opcode == 0x36 && has_operands(f, 1) {
        Some((operand(f, 1) as int, 1int))
    } else if 0x3B <= opcode <= 0x3E {
        Some((opcode - 0x3B, 0int))
    } else if opcode == 0x4B {
        Some((0int, 0int))
    } else {
        None
    }
}

/// The slot that a load instruction at the instruction pointer reads, and
/// the number of its immediate bytes.
pub open spec fn load_form<T>(f: FrameState<T>) -> Option<(int, int)> {
    let opcode = f.code[f.ip];
    if opcode == 0x15 && has_operands(f, 1) {
        Some((operand(f, 1) as int, 1int))
    } else if 0x1A <= opcode <= 0x1D {
        Some((opcode - 0x1A, 0int))
    } else if opcode == 0x2A {
        Some((0int, 0int))
    } else {
        None
    }
}

/// A store into a slot followed by a load from the same slot, in whatever
/// form each is written, leaves the stack as it was, with the stored value
/// on top again, and the value in the slot.
pub proof fn law_store_then_load<T>(f: FrameState<T>, w: World<T>)
    requires
        w.budget >= 2,
        0 <= f.ip < f.code.len(),
        store_form(f) is Some,
        f.ip + store_form(f).unwrap().1 + 1 < f.code.len(),
        load_form(FrameState { ip: f.ip + store_form(f).unwrap().1 + 1, ..f }) is Some,
        load_form(FrameState { ip: f.ip + store_form(f).unwrap().1 + 1, ..f }).unwrap().0
            == store_form(f).unwrap().0,
        f.ip + 4 <= u32::MAX,
        f.stack.len() >= 1,
        0 <= store_form(f).unwrap().0 < f.locals.len(),
    ensures
        step_spec(f, w) matches Step::Next { frame: stored, world: after_store }
            && step_spec(stored, after_store) matches Step::Next { frame: loaded, world: _ }
            && loaded.stack == f.stack
            && loaded.locals == f.locals.update(store_form(f).unwrap().0, f.stack.last()),
{
    let first = step_spec(f, w);
    let second = step_spec(first->Next_frame, first->Next_world);
    assert(second->Next_frame.stack =~= f.stack);
}

/// The unconditional branch at address `A` with the signed 16-bit
/// big-endian offset `S` goes on at exactly `A + S`, and changes nothing
/// else.
pub proof fn law_goto<T>(f: FrameState<T>, w: World<T>)
    requires
        can_fetch(f, w),
        f.code[f.ip] == 0xA7,
        has_operands(f, 2),
        0 <= f.ip + signed_pair(operand(f, 1), operand(f, 2)) <= u32::MAX,
    ensures
        step_spec(f, w) == (Step::Next {
            frame: FrameState { ip: f.ip + signed_pair(operand(f, 1), operand(f, 2)), ..f },
            world: paid(w),
        }),
{
}

/// The signed reading of two offset bytes covers the 16-bit range exactly:
/// `0x7FFF` is the largest forward offset, `0x8000` the largest backward
/// one, `0xFFFF` is -1.
pub proof fn law_offset_range(high: u8, low: u8)
    ensures
        -0x8000 <= signed_pair(high, low) <= 0x7fff,
        signed_pair(0x7f, 0xff) == 0x7fff,
        signed_pair(0x80, 0x00) == -0x8000,
        signed_pair(0xff, 0xff) == -1,
{
}

/// The conditional branch pops the second value, then the first, and goes
/// on at the branch target if the first is at least the second, behind the
/// instruction if it is not.
pub proof fn law_branch_ge<T>(f: FrameState<T>, w: World<T>)
    requires
        can_fetch(f, w),
        f.code[f.ip] == 0xA2,
        has_operands(f, 2),
        f.stack.len() >= 2,
        0 <= f.ip + signed_pair(operand(f, 1), operand(f, 2)) <= u32::MAX,
        f.ip + 3 <= u32::MAX,
    ensures
        step_spec(f, w) == (Step::Next {
            frame: FrameState {
                ip: if f.stack.drop_last().last().value >= f.stack.last().value {
                    f.ip + signed_pair(operand(f, 1), operand(f, 2))
                } else {
                    f.ip + 3
                },
                stack: f.stack.drop_last().drop_last(),
                ..f
            },
            world: paid(w),
        }),
{
    assert(f.stack.drop_last().drop_last() =~= f.stack.subrange(0, f.stack.len() - 2));
}

/// The integer return pops exactly one value and ends the activation with
/// it.
pub proof fn law_return_int<T>(f: FrameState<T>, w: World<T>)
    requires
        can_fetch(f, w),
        f.code[f.ip] == 0xAC,
        f.stack.len() >= 1,
    ensures
        step_spec(f, w) == (Step::Return {
            value: f.stack.last(),
            frame: FrameState { stack: f.stack.drop_last(), ..f },
            world: paid(w),
        }),
{
}

/// The void return ends the activation with the void value and pops
/// nothing.
pub proof fn law_return_void<T>(f: FrameState<T>, w: World<T>)
    requires
        can_fetch(f, w),
        f.code[f.ip] == 0xB1,
    ensures
        step_spec(f, w) == (Step::Return { value: void_value(), frame: f, world: paid(w) }),
{
}

/// Whether the opcode is one of the three invocations: virtual, special,
/// static.
pub open spec fn is_invocation(opcode: u8) -> bool {
    opcode == 0xB6 || opcode == 0xB7 || opcode == 0xB8
}

/// The number of operands that an invocation opcode takes besides the
/// declared parameters: one receiver for the virtual and the special
/// invocation, none for the static one.
pub open spec fn receivers(opcode: u8) -> int {
    if opcode == 0xB8 {
        0
    } else {
        1
    }
}

/// An invocation that goes on has taken exactly the callee's declared
/// number of parameters off the stack, and one more for the receiver if it
/// is virtual or special; it has handed them to the callee in the order in
/// which they were pushed; and it has pushed the callee's result unless
/// that is void.
pub proof fn law_invoke<T>(f: FrameState<T>, w: World<T>)
    requires
        can_fetch(f, w),
        is_invocation(f.code[f.ip]),
        step_spec(f, w) is Next,
    ensures
        has_operands(f, 2),
        pool_of(f, paid(w)) matches Some(pool) && resolve_spec(
            w.classes,
            pool,
            unsigned_pair(operand(f, 1), operand(f, 2)),
        ) matches Ok(target) && ({
            let count = target_method(w.classes, target).params@.len() + receivers(f.code[f.ip]);
            &&& count <= f.stack.len()
            &&& exec_spec(
                activation(w.classes, target),
                f.stack.subrange(f.stack.len() - count, f.stack.len() as int),
                paid(w),
            ) matches Ok(done) && step_spec(f, w)->Next_frame.stack == stack_after_call(
                f.stack,
                count,
                done.value,
            ) && step_spec(f, w)->Next_frame.stack.len() == f.stack.len() - count + if done.value.kind
                is Void {
                0int
            } else {
                1int
            }
        }),
{
}

/// A field write followed by a read of the same field of the same instance
/// yields the written value.
pub proof fn law_field_write_then_read(
    store: Seq<Map<Seq<char>, Argument>>,
    handle: int,
    name: Seq<char>,
    value: Argument,
)
    requires
        0 <= handle < store.len(),
    ensures
        field_read(field_written(store, handle, name, value), handle, name) == Ok::<
            Argument,
            ExecError,
        >(value),
{
}

/// Whether the opcode belongs to the supported set.
pub open spec fn supported(opcode: u8) -> bool {
    ||| 0x02 <= opcode <= 0x08
    ||| opcode == 0x12
    ||| opcode == 0x15
    ||| 0x1A <= opcode <= 0x1D
    ||| opcode == 0x2A
    ||| opcode == 0x36
    ||| 0x3B <= opcode <= 0x3E
    ||| opcode == 0x4B
    ||| opcode == 0x57
    ||| opcode == 0x59
    ||| opcode == 0x60
    ||| opcode == 0x64
    ||| opcode == 0x68
    ||| opcode == 0x6C
    ||| opcode == 0x84
    ||| opcode == 0xA2
    ||| opcode == 0xA7
    ||| opcode == 0xAC
    ||| opcode == 0xB1
    ||| 0xB4 <= opcode <= 0xB8
    ||| opcode == 0xBB
}

/// An opcode outside the supported set stops the interpreter with
/// `UnimplementedOpcode`: it is never skipped.
pub proof fn law_unknown_opcode<T>(f: FrameState<T>, w: World<T>)
    requires
        can_fetch(f, w),
        !supported(f.code[f.ip]),
    ensures
        step_spec(f, w) == (Step::<T>::Fail {
            error: ExecError::UnimplementedOpcode { opcode: f.code[f.ip] },
        }),
{
}

/// Whether `after` is a context that an execution can leave behind `before`:
/// less budget, the same class registry, and no instance lost.
pub open spec fn follows<T>(before: World<T>, after: World<T>) -> bool {
    &&& after.budget < before.budget
    &&& after.classes == before.classes
    &&& after.store.len() >= before.store.len()
}

/// Every instruction that does not fail uses up budget, leaves the class
/// registry alone and removes no instance from the object store.
pub proof fn law_step_pays<T>(f: FrameState<T>, w: World<T>)
    ensures
        step_spec(f, w) matches Step::Next { frame: _, world } ==> follows(w, world),
        step_spec(f, w) matches Step::Return { value: _, frame: _, world } ==> follows(w, world),
    decreases w.budget, 0int,
{
    if can_fetch(f, w) && is_invocation(f.code[f.ip]) && has_operands(f, 2) {
        let p = paid(w);
        match pool_of(f, p) {
            Some(pool) => match resolve_spec(
                p.classes,
                pool,
                unsigned_pair(operand(f, 1), operand(f, 2)),
            ) {
                Ok(target) => {
                    let count = target_method(p.classes, target).params@.len() + receivers(
                        f.code[f.ip],
                    );
                    if count <= f.stack.len() {
                        let args = f.stack.subrange(f.stack.len() - count, f.stack.len() as int);
                        let callee = activation(p.classes, target);
                        if args.len() <= callee.locals.len() {
                            law_run_pays(with_args(callee, args), p);
                        }
                    }
                },
                Err(_) => {},
            },
            None => {},
        }
    }
}

/// An activation that runs to its end uses up budget, leaves the class
/// registry alone and removes no instance from the object store.
pub proof fn law_run_pays<T>(f: FrameState<T>, w: World<T>)
    ensures
        run_spec(f, w) matches Ok(done) ==> follows(w, done.world),
    decreases w.budget, 1int,
{
    law_step_pays(f, w);
    match step_spec(f, w) {
        Step::Next { frame, world } => {
            law_run_pays(frame, world);
        },
        _ => {},
    }
}

} // verus!
