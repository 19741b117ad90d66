use broom::trace::Trace;
use broom::trace::Tracer;
use broom::Handle;
use broom::Heap;
use bytecode_frame::class::frame::BytecodeFrame;
use bytecode_frame::class::method::Argument;
use bytecode_frame::class::method::MethodType;
use bytecode_frame::class::Class;
use bytecode_frame::class::ConstantsPoolInfo;
use bytecode_frame::error::ExecError;
use bytecode_frame::vastatrix::Vastatrix;

/// What the garbage-collected heap of these tests holds.
struct Cell;

impl Trace<Cell> for Cell {
    fn trace(&self, _tracer: &mut Tracer<Cell>) {}
}

fn num(value: i32) -> Argument {
    Argument::new(value, MethodType::Int)
}

fn zeros(count: usize) -> Vec<Argument> {
    (0..count).map(|_| num(0)).collect()
}

fn machine() -> (Heap<Cell>, Handle<Cell>, Vastatrix<Cell>) {
    let mut heap = Heap::new();
    let handle = heap.insert_temp(Cell);
    let mut vm = Vastatrix::new(1_000);
    vm.register_class(
        handle,
        Class {
            constant_pool: vec![
                ConstantsPoolInfo::Utf8 { bytes: "Main".to_string() },
                ConstantsPoolInfo::Class { name_index: 1 },
                ConstantsPoolInfo::Integer { bytes: 100_000 },
                ConstantsPoolInfo::Integer { bytes: 0xffff_fffe },
            ],
            this_class: 2,
            fields: vec![],
            methods: vec![],
        },
    );
    (heap, handle, vm)
}

fn frame_at(
    handle: Handle<Cell>,
    code: Vec<u8>,
    ip: u32,
    locals: Vec<Argument>,
    stack: Vec<Argument>,
) -> BytecodeFrame<Cell> {
    let mut frame = BytecodeFrame::new(handle, "test".to_string(), code, locals);
    frame.ip = ip;
    frame.stack = stack.into();
    frame
}

fn payloads<'a>(values: impl IntoIterator<Item = &'a Argument>) -> Vec<i32> {
    values.into_iter().map(|v| v.value).collect()
}

fn after_arithmetic(opcode: u8, left: i32, right: i32) -> i32 {
    let (_heap, handle, mut vm) = machine();
    let mut frame = frame_at(handle, vec![opcode], 0, vec![], vec![num(9), num(left), num(right)]);
    assert_eq!(frame.step(&mut vm), Ok(None));
    assert_eq!(frame.ip, 1);
    assert_eq!(frame.stack.len(), 2);
    assert_eq!(frame.stack[0].value, 9);
    assert_eq!(frame.stack[1].kind, MethodType::Int);
    frame.stack[1].value
}

#[test]
fn iadd_is_left_plus_right_wrapped() {
    assert_eq!(after_arithmetic(0x60, 2, 3), 5);
    assert_eq!(after_arithmetic(0x60, i32::MAX, 1), i32::MIN);
    assert_eq!(after_arithmetic(0x60, i32::MIN, -1), i32::MAX);
}

#[test]
fn isub_is_left_minus_right_wrapped() {
    assert_eq!(after_arithmetic(0x64, 10, 3), 7);
    assert_eq!(after_arithmetic(0x64, 3, 10), -7);
    assert_eq!(after_arithmetic(0x64, i32::MIN, 1), i32::MAX);
    assert_eq!(after_arithmetic(0x64, i32::MAX, -1), i32::MIN);
}

#[test]
fn imul_is_left_times_right_wrapped() {
    assert_eq!(after_arithmetic(0x68, 6, -7), -42);
    assert_eq!(after_arithmetic(0x68, i32::MAX, 2), -2);
    assert_eq!(after_arithmetic(0x68, i32::MIN, -1), i32::MIN);
}

#[test]
fn idiv_is_left_by_right_toward_zero() {
    assert_eq!(after_arithmetic(0x6C, 7, 2), 3);
    assert_eq!(after_arithmetic(0x6C, 2, 7), 0);
    assert_eq!(after_arithmetic(0x6C, -7, 2), -3);
    assert_eq!(after_arithmetic(0x6C, i32::MIN, -1), i32::MIN);
}

#[test]
fn idiv_by_zero_fails() {
    let (_heap, handle, mut vm) = machine();
    let mut frame = frame_at(handle, vec![0x6C], 0, vec![], vec![num(1), num(0)]);
    assert_eq!(frame.step(&mut vm), Err(ExecError::DivisionByZero));
}

#[test]
fn arithmetic_needs_two_operands() {
    for opcode in [0x60u8, 0x64, 0x68, 0x6C] {
        let (_heap, handle, mut vm) = machine();
        let mut frame = frame_at(handle, vec![opcode], 0, vec![], vec![num(1)]);
        assert_eq!(frame.step(&mut vm), Err(ExecError::StackUnderflow));
    }
}

#[test]
fn push_literals_push_minus_one_to_five() {
    for (opcode, literal) in [(0x02u8, -1), (0x03, 0), (0x04, 1), (0x05, 2), (0x06, 3), (0x07, 4), (0x08, 5)] {
        let (_heap, handle, mut vm) = machine();
        let mut frame = frame_at(handle, vec![opcode], 0, zeros(2), vec![num(77)]);
        assert_eq!(frame.step(&mut vm), Ok(None));
        assert_eq!(payloads(&frame.stack), vec![77, literal]);
        assert_eq!(frame.stack[1].kind, MethodType::Int);
        assert_eq!(payloads(&frame.locals), vec![0, 0]);
        assert_eq!(frame.ip, 1);
        assert_eq!(vm.budget, 999);
    }
}

#[test]
fn store_then_load_every_form() {
    let stores: [(Vec<u8>, usize); 6] = [
        (vec![0x36, 4], 4),
        (vec![0x3B], 0),
        (vec![0x3C], 1),
        (vec![0x3D], 2),
        (vec![0x3E], 3),
        (vec![0x4B], 0),
    ];
    let loads: [(Vec<u8>, usize); 6] = [
        (vec![0x15, 4], 4),
        (vec![0x1A], 0),
        (vec![0x1B], 1),
        (vec![0x1C], 2),
        (vec![0x1D], 3),
        (vec![0x2A], 0),
    ];
    for (store, slot) in stores.iter() {
        for (load, read) in loads.iter() {
            if slot != read {
                continue;
            }
            let (_heap, handle, mut vm) = machine();
            let mut code = store.clone();
            code.extend(load.iter());
            let mut frame = frame_at(handle, code.clone(), 0, zeros(5), vec![num(8), num(-321)]);
            assert_eq!(frame.step(&mut vm), Ok(None));
            assert_eq!(payloads(&frame.stack), vec![8]);
            assert_eq!(frame.locals[*slot].value, -321);
            assert_eq!(frame.ip as usize, store.len());
            assert_eq!(frame.step(&mut vm), Ok(None));
            assert_eq!(payloads(&frame.stack), vec![8, -321]);
            assert_eq!(frame.ip as usize, code.len());
            for other in 0..5 {
                if other != *slot {
                    assert_eq!(frame.locals[other].value, 0);
                }
            }
        }
    }
}

#[test]
fn store_keeps_the_tag() {
    let (_heap, handle, mut vm) = machine();
    let reference = Argument::new(3, MethodType::ClassReference { classpath: "Main".to_string() });
    let mut frame = frame_at(handle, vec![0x4B, 0x2A], 0, zeros(1), vec![reference]);
    assert_eq!(frame.step(&mut vm), Ok(None));
    assert_eq!(frame.step(&mut vm), Ok(None));
    assert_eq!(frame.stack[0].kind, MethodType::ClassReference { classpath: "Main".to_string() });
    assert_eq!(frame.stack[0].value, 3);
}

#[test]
fn local_access_outside_the_array_fails() {
    let (_heap, handle, mut vm) = machine();
    let mut frame = frame_at(handle, vec![0x1D], 0, zeros(3), vec![]);
    assert_eq!(frame.step(&mut vm), Err(ExecError::LocalOutOfBounds));
    let mut frame = frame_at(handle, vec![0x36, 3], 0, zeros(3), vec![num(1)]);
    assert_eq!(frame.step(&mut vm), Err(ExecError::LocalOutOfBounds));
    let mut frame = frame_at(handle, vec![0x84, 3, 1], 0, zeros(3), vec![]);
    assert_eq!(frame.step(&mut vm), Err(ExecError::LocalOutOfBounds));
}

#[test]
fn store_on_an_empty_stack_fails() {
    let (_heap, handle, mut vm) = machine();
    let mut frame = frame_at(handle, vec![0x3B], 0, zeros(1), vec![]);
    assert_eq!(frame.step(&mut vm), Err(ExecError::StackUnderflow));
}

#[test]
fn pop_removes_the_top() {
    let (_heap, handle, mut vm) = machine();
    let mut frame = frame_at(handle, vec![0x57], 0, vec![], vec![num(1), num(2), num(3)]);
    assert_eq!(frame.step(&mut vm), Ok(None));
    assert_eq!(payloads(&frame.stack), vec![1, 2]);
    let mut frame = frame_at(handle, vec![0x57], 0, vec![], vec![]);
    assert_eq!(frame.step(&mut vm), Err(ExecError::StackUnderflow));
}

#[test]
fn dup_copies_the_most_recent_value() {
    let (_heap, handle, mut vm) = machine();
    let mut frame = frame_at(handle, vec![0x59], 0, vec![], vec![num(1), num(2), num(3)]);
    assert_eq!(frame.step(&mut vm), Ok(None));
    assert_eq!(payloads(&frame.stack), vec![1, 2, 3, 3]);
    let mut frame = frame_at(handle, vec![0x59], 0, vec![], vec![]);
    assert_eq!(frame.step(&mut vm), Err(ExecError::StackUnderflow));
}

#[test]
fn iinc_adds_a_signed_immediate() {
    let (_heap, handle, mut vm) = machine();
    let mut frame = frame_at(handle, vec![0x84, 1, 5, 0x84, 1, 0xFD, 0x84, 0, 0x80], 0, vec![num(i32::MIN), num(10)], vec![num(4)]);
    assert_eq!(frame.step(&mut vm), Ok(None));
    assert_eq!(frame.locals[1].value, 15);
    assert_eq!(frame.ip, 3);
    assert_eq!(frame.step(&mut vm), Ok(None));
    assert_eq!(frame.locals[1].value, 12);
    assert_eq!(frame.step(&mut vm), Ok(None));
    assert_eq!(frame.locals[0].value, i32::MAX - 127);
    assert_eq!(payloads(&frame.stack), vec![4]);
    assert_eq!(frame.ip, 9);
}

#[test]
fn iinc_wraps_upward() {
    let (_heap, handle, mut vm) = machine();
    let mut frame = frame_at(handle, vec![0x84, 0, 0x7F], 0, vec![num(i32::MAX)], vec![]);
    assert_eq!(frame.step(&mut vm), Ok(None));
    assert_eq!(frame.locals[0].value, i32::MIN + 126);
}

fn goto_from(address: u32, high: u8, low: u8) -> Result<u32, ExecError> {
    let (_heap, handle, mut vm) = machine();
    let mut code = vec![0u8; address as usize];
    code.extend([0xA7, high, low]);
    let mut frame = frame_at(handle, code, address, zeros(1), vec![num(6)]);
    match frame.step(&mut vm) {
        Ok(None) => {
            assert_eq!(payloads(&frame.stack), vec![6]);
            Ok(frame.ip)
        },
        Ok(Some(_)) => panic!("a branch does not return"),
        Err(e) => Err(e),
    }
}

#[test]
fn goto_lands_on_address_plus_offset() {
    assert_eq!(goto_from(0, 0x00, 0x03), Ok(3));
    assert_eq!(goto_from(10, 0x00, 0x05), Ok(15));
    assert_eq!(goto_from(10, 0xFF, 0xFB), Ok(5));
    assert_eq!(goto_from(10, 0xFF, 0xF6), Ok(0));
    assert_eq!(goto_from(10, 0x00, 0x00), Ok(10));
    assert_eq!(goto_from(7, 0x01, 0x00), Ok(263));
}

#[test]
fn goto_takes_the_boundary_offsets() {
    assert_eq!(goto_from(0, 0x7F, 0xFF), Ok(0x7FFF));
    assert_eq!(goto_from(0x8000, 0x80, 0x00), Ok(0));
    assert_eq!(goto_from(0x8003, 0x80, 0x00), Ok(3));
    assert_eq!(goto_from(1, 0xFF, 0xFF), Ok(0));
}

#[test]
fn goto_before_the_code_fails() {
    assert_eq!(goto_from(0, 0xFF, 0xFF), Err(ExecError::BranchOutOfRange));
    assert_eq!(goto_from(5, 0x80, 0x00), Err(ExecError::BranchOutOfRange));
}

#[test]
fn goto_without_its_offset_fails() {
    let (_heap, handle, mut vm) = machine();
    let mut frame = frame_at(handle, vec![0xA7, 0x00], 0, vec![], vec![]);
    assert_eq!(frame.step(&mut vm), Err(ExecError::CodeOutOfBounds));
}

fn branch_from(address: u32, first: i32, second: i32, high: u8, low: u8) -> u32 {
    let (_heap, handle, mut vm) = machine();
    let mut code = vec![0u8; address as usize];
    code.extend([0xA2, high, low]);
    let mut frame = frame_at(handle, code, address, vec![], vec![num(5), num(first), num(second)]);
    assert_eq!(frame.step(&mut vm), Ok(None));
    assert_eq!(payloads(&frame.stack), vec![5]);
    frame.ip
}

#[test]
fn branch_is_taken_when_first_is_at_least_second() {
    assert_eq!(branch_from(4, 7, 3, 0x00, 0x10), 20);
    assert_eq!(branch_from(4, 3, 3, 0x00, 0x10), 20);
    assert_eq!(branch_from(4, 7, 3, 0xFF, 0xFC), 0);
    assert_eq!(branch_from(4, i32::MAX, i32::MIN, 0x00, 0x09), 13);
}

#[test]
fn branch_is_not_taken_when_first_is_less() {
    assert_eq!(branch_from(4, 3, 7, 0x00, 0x10), 7);
    assert_eq!(branch_from(4, -1, 0, 0x00, 0x10), 7);
    assert_eq!(branch_from(4, i32::MIN, i32::MAX, 0xFF, 0xFC), 7);
}

#[test]
fn branch_needs_two_operands() {
    let (_heap, handle, mut vm) = machine();
    let mut frame = frame_at(handle, vec![0xA2, 0, 3], 0, vec![], vec![num(1)]);
    assert_eq!(frame.step(&mut vm), Err(ExecError::StackUnderflow));
}

#[test]
fn ireturn_pops_one_value_and_halts() {
    let (_heap, handle, mut vm) = machine();
    let mut frame = frame_at(handle, vec![0xAC, 0x04], 0, zeros(1), vec![num(1), num(2), num(3)]);
    let returned = frame.step(&mut vm);
    assert_eq!(returned, Ok(Some(num(3))));
    assert_eq!(returned.unwrap().unwrap().kind, MethodType::Int);
    assert_eq!(payloads(&frame.stack), vec![1, 2]);
    assert_eq!(frame.ip, 0);
}

#[test]
fn ireturn_on_an_empty_stack_fails() {
    let (_heap, handle, mut vm) = machine();
    let mut frame = frame_at(handle, vec![0xAC], 0, vec![], vec![]);
    assert_eq!(frame.step(&mut vm), Err(ExecError::StackUnderflow));
}

#[test]
fn return_halts_without_popping() {
    let (_heap, handle, mut vm) = machine();
    let mut frame = frame_at(handle, vec![0xB1, 0x04], 0, zeros(1), vec![num(1), num(2)]);
    let returned = frame.step(&mut vm).unwrap().unwrap();
    assert!(returned.void());
    assert_eq!(returned.value, 0);
    assert_eq!(payloads(&frame.stack), vec![1, 2]);
    let mut frame = frame_at(handle, vec![0xB1], 0, vec![], vec![]);
    assert!(frame.step(&mut vm).unwrap().unwrap().void());
    assert_eq!(frame.stack.len(), 0);
}

#[test]
fn unknown_opcodes_fail_and_do_not_advance() {
    let supported: [u8; 37] = [
        0x02, 0x03, 0x04, 0x05, 0x06, 0x07, 0x08, 0x12, 0x15, 0x1A, 0x1B, 0x1C, 0x1D, 0x2A, 0x36,
        0x3B, 0x3C, 0x3D, 0x3E, 0x4B, 0x57, 0x59, 0x60, 0x64, 0x68, 0x6C, 0x84, 0xA2, 0xA7, 0xAC,
        0xB1, 0xB4, 0xB5, 0xB6, 0xB7, 0xB8, 0xBB,
    ];
    let mut unknown = 0;
    for opcode in 0..=255u8 {
        if supported.contains(&opcode) {
            continue;
        }
        unknown += 1;
        let (_heap, handle, mut vm) = machine();
        let mut frame = frame_at(handle, vec![opcode, 0, 0, 0], 0, zeros(4), vec![num(1), num(2)]);
        assert_eq!(frame.step(&mut vm), Err(ExecError::UnimplementedOpcode { opcode }));
        assert_eq!(frame.ip, 0);
        assert_eq!(payloads(&frame.stack), vec![1, 2]);
    }
    assert_eq!(unknown, 256 - 37);
}

#[test]
fn fetch_outside_the_code_fails() {
    let (_heap, handle, mut vm) = machine();
    let mut frame = frame_at(handle, vec![0x04], 1, vec![], vec![]);
    assert_eq!(frame.step(&mut vm), Err(ExecError::CodeOutOfBounds));
    let mut frame = frame_at(handle, vec![], 0, vec![], vec![]);
    assert_eq!(frame.step(&mut vm), Err(ExecError::CodeOutOfBounds));
    let mut frame = frame_at(handle, vec![0x15], 0, zeros(1), vec![]);
    assert_eq!(frame.step(&mut vm), Err(ExecError::CodeOutOfBounds));
}

#[test]
fn an_empty_budget_stops_the_step() {
    let (_heap, handle, mut vm) = machine();
    vm.budget = 0;
    let mut frame = frame_at(handle, vec![0x04], 0, vec![], vec![]);
    assert_eq!(frame.step(&mut vm), Err(ExecError::BudgetExhausted));
    assert_eq!(frame.stack.len(), 0);
    vm.budget = 1;
    assert_eq!(frame.step(&mut vm), Ok(None));
    assert_eq!(vm.budget, 0);
}

#[test]
fn ldc_pushes_the_integer_literal() {
    let (_heap, handle, mut vm) = machine();
    let mut frame = frame_at(handle, vec![0x12, 3, 0x12, 4], 0, vec![], vec![]);
    assert_eq!(frame.step(&mut vm), Ok(None));
    assert_eq!(frame.ip, 2);
    assert_eq!(frame.step(&mut vm), Ok(None));
    assert_eq!(frame.ip, 4);
    assert_eq!(payloads(&frame.stack), vec![100_000, -2]);
    assert_eq!(frame.stack[0].kind, MethodType::Int);
}

#[test]
fn ldc_of_another_entry_is_unsupported() {
    let (_heap, handle, mut vm) = machine();
    let mut frame = frame_at(handle, vec![0x12, 1], 0, vec![], vec![]);
    assert_eq!(frame.step(&mut vm), Err(ExecError::UnsupportedConstant));
    let mut frame = frame_at(handle, vec![0x12, 2], 0, vec![], vec![]);
    assert_eq!(frame.step(&mut vm), Err(ExecError::UnsupportedConstant));
}

#[test]
fn ldc_outside_the_pool_is_malformed() {
    let (_heap, handle, mut vm) = machine();
    let mut frame = frame_at(handle, vec![0x12, 0], 0, vec![], vec![]);
    assert_eq!(frame.step(&mut vm), Err(ExecError::MalformedConstantPool));
    let mut frame = frame_at(handle, vec![0x12, 5], 0, vec![], vec![]);
    assert_eq!(frame.step(&mut vm), Err(ExecError::MalformedConstantPool));
}

#[test]
fn a_frame_of_an_unregistered_class_has_no_pool() {
    let (mut heap, _handle, mut vm) = machine();
    let stranger = heap.insert_temp(Cell);
    let mut frame = frame_at(stranger, vec![0x12, 3], 0, vec![], vec![]);
    assert_eq!(frame.step(&mut vm), Err(ExecError::UnknownClass));
}
