use simplevm::machine::{ExecEvent, StepEvent, VM};
use simplevm::state::{Fault, INSTRUCTION_CAPACITY, STACK_CAPACITY};

const BUDGET: usize = 100_000;

fn run(program: &[u8]) -> (VM, Result<ExecEvent, simplevm::machine::VmError>) {
    let mut vm = VM::new();
    vm.program(program).unwrap();
    let r = vm.execute(BUDGET);
    (vm, r)
}

#[test]
fn new_machine_is_zeroed() {
    let vm = VM::new();
    assert_eq!(vm.sp, 0);
    assert_eq!(vm.ip, 0);
    assert_eq!(vm.program_len, 0);
    assert!(vm.registers.iter().all(|&r| r == 0));
    assert!(vm.stack.iter().all(|&v| v == 0));
    assert!(vm.instructions.iter().all(|&b| b == 0));
    assert!(vm.output.is_empty());
}

#[test]
fn push_print_stop_emits_the_immediate() {
    let (vm, r) = run(&[1, 5, 0, 0, 0, 12, 13]);
    assert_eq!(r, Ok(ExecEvent::Halted));
    assert_eq!(vm.output, vec![5]);
    assert_eq!(vm.sp, 0);
}

#[test]
fn sub_takes_the_earlier_push_as_minuend() {
    let (vm, r) = run(&[1, 10, 0, 0, 0, 1, 3, 0, 0, 0, 9, 12, 13]);
    assert_eq!(r, Ok(ExecEvent::Halted));
    assert_eq!(vm.output, vec![7]);
}

#[test]
fn jz_to_an_address_outside_the_program_faults() {
    let (_, r) = run(&[1, 0, 0, 0, 0, 6, 99, 0, 12, 13]);
    let e = r.unwrap_err();
    assert_eq!(e.kind, Fault::InvalidJumpTarget);
    assert_eq!(e.ip, 5);
}

#[test]
fn unknown_opcode_faults_and_does_not_hang() {
    let (vm, r) = run(&[14]);
    let e = r.unwrap_err();
    assert_eq!(e.kind, Fault::InvalidOpcode);
    assert_eq!(e.ip, 0);
    assert_eq!(vm.ip, 0);
}

#[test]
fn push_value_then_pop_returns_the_value() {
    let mut vm = VM::new();
    vm.push_value(123_456).unwrap();
    assert_eq!(vm.sp, 1);
    assert_eq!(vm.pop().unwrap(), 123_456);
    assert_eq!(vm.sp, 0);
    vm.push_value(-1).unwrap();
    assert_eq!(vm.pop().unwrap(), -1);
    assert_eq!(vm.sp, 0);
}

#[test]
fn push_at_the_headroom_bound_overflows() {
    let mut vm = VM::new();
    vm.sp = STACK_CAPACITY - 2;
    let e = vm.push_value(1).unwrap_err();
    assert_eq!(e.kind, Fault::StackOverflow);
    assert_eq!(vm.sp, STACK_CAPACITY - 2);
    vm.sp = STACK_CAPACITY - 3;
    assert!(vm.push_value(1).is_ok());
}

#[test]
fn pop_on_an_empty_stack_underflows() {
    let mut vm = VM::new();
    let e = vm.pop().unwrap_err();
    assert_eq!(e.kind, Fault::StackUnderflow);
    assert_eq!(e.ip, 0);
}

#[test]
fn a_program_of_pushes_overflows_at_the_headroom_bound() {
    let mut program = Vec::new();
    for _ in 0..255 {
        program.extend_from_slice(&[1, 0, 0, 0, 0]);
    }
    program.push(13);
    let (vm, r) = run(&program);
    let e = r.unwrap_err();
    assert_eq!(e.kind, Fault::StackOverflow);
    assert_eq!(e.ip, 254 * 5);
    assert_eq!(vm.sp, 254);
}

#[test]
fn store_then_load_round_trips_through_a_register() {
    let (vm, r) = run(&[1, 7, 0, 0, 0, 4, 3, 3, 3, 12, 13]);
    assert_eq!(r, Ok(ExecEvent::Halted));
    assert_eq!(vm.output, vec![7]);
    assert_eq!(vm.registers[3], 7);
}

#[test]
fn a_register_index_outside_the_file_faults() {
    let (_, r) = run(&[1, 1, 0, 0, 0, 4, 16, 13]);
    let e = r.unwrap_err();
    assert_eq!(e.kind, Fault::InvalidRegister);
    assert_eq!(e.ip, 5);
}

#[test]
fn jmp_sets_the_instruction_pointer_to_the_target() {
    let (vm, r) = run(&[5, 5, 0, 0, 0, 13]);
    assert_eq!(r, Ok(ExecEvent::Halted));
    assert_eq!(vm.ip, 5);
}

#[test]
fn jz_jumps_exactly_when_the_popped_value_is_zero() {
    // Taken: PUSH 0, JZ to the STOP at 8.
    let (vm, r) = run(&[1, 0, 0, 0, 0, 6, 8, 0, 13]);
    assert_eq!(r, Ok(ExecEvent::Halted));
    assert_eq!(vm.ip, 8);
    assert_eq!(vm.sp, 0);
    // Not taken: PUSH 1, JZ skipped, the pointer advances by exactly 3.
    let (vm, r) = run(&[1, 1, 0, 0, 0, 6, 0, 0, 13]);
    assert_eq!(r, Ok(ExecEvent::Halted));
    assert_eq!(vm.ip, 8);
    assert_eq!(vm.sp, 0);
}

#[test]
fn jnz_jumps_exactly_when_the_popped_value_is_nonzero() {
    // Taken: PUSH 2, JNZ to the STOP at 8.
    let (vm, r) = run(&[1, 2, 0, 0, 0, 7, 8, 0, 13]);
    assert_eq!(r, Ok(ExecEvent::Halted));
    assert_eq!(vm.ip, 8);
    // Not taken: PUSH 0, JNZ skipped.
    let (vm, r) = run(&[1, 0, 0, 0, 0, 7, 0, 0, 13]);
    assert_eq!(r, Ok(ExecEvent::Halted));
    assert_eq!(vm.ip, 8);
}

#[test]
fn add_sums_the_two_topmost_values() {
    let (vm, r) = run(&[1, 30, 0, 0, 0, 1, 12, 0, 0, 0, 8, 12, 13]);
    assert_eq!(r, Ok(ExecEvent::Halted));
    assert_eq!(vm.output, vec![42]);
}

#[test]
fn mul_multiplies_the_two_topmost_values() {
    let (vm, r) = run(&[1, 6, 0, 0, 0, 1, 7, 0, 0, 0, 10, 12, 13]);
    assert_eq!(r, Ok(ExecEvent::Halted));
    assert_eq!(vm.output, vec![42]);
}

#[test]
fn div_takes_the_earlier_push_as_dividend() {
    let (vm, r) = run(&[1, 10, 0, 0, 0, 1, 3, 0, 0, 0, 11, 12, 13]);
    assert_eq!(r, Ok(ExecEvent::Halted));
    assert_eq!(vm.output, vec![3]);
}

#[test]
fn div_truncates_toward_zero() {
    // PUSH -7, PUSH 2, DIV.
    let (vm, r) = run(&[1, 249, 255, 255, 255, 1, 2, 0, 0, 0, 11, 12, 13]);
    assert_eq!(r, Ok(ExecEvent::Halted));
    assert_eq!(vm.output, vec![-3]);
}

#[test]
fn div_by_zero_faults() {
    let (_, r) = run(&[1, 10, 0, 0, 0, 1, 0, 0, 0, 0, 11, 12, 13]);
    let e = r.unwrap_err();
    assert_eq!(e.kind, Fault::DivideByZero);
    assert_eq!(e.ip, 10);
}

#[test]
fn dividing_the_smallest_value_by_minus_one_wraps() {
    // PUSH i32::MIN, PUSH -1, DIV.
    let (vm, r) = run(&[1, 0, 0, 0, 128, 1, 255, 255, 255, 255, 11, 12, 13]);
    assert_eq!(r, Ok(ExecEvent::Halted));
    assert_eq!(vm.output, vec![i32::MIN]);
}

#[test]
fn addition_wraps_on_overflow() {
    // PUSH i32::MAX, PUSH 1, ADD.
    let (vm, r) = run(&[1, 255, 255, 255, 127, 1, 1, 0, 0, 0, 8, 12, 13]);
    assert_eq!(r, Ok(ExecEvent::Halted));
    assert_eq!(vm.output, vec![i32::MIN]);
}

#[test]
fn negative_immediates_decode_little_endian() {
    let (vm, r) = run(&[1, 255, 255, 255, 255, 12, 13]);
    assert_eq!(r, Ok(ExecEvent::Halted));
    assert_eq!(vm.output, vec![-1]);
}

#[test]
fn pop_discards_the_top_of_the_stack() {
    let (vm, r) = run(&[1, 5, 0, 0, 0, 2, 13]);
    assert_eq!(r, Ok(ExecEvent::Halted));
    assert_eq!(vm.sp, 0);
    let (_, r) = run(&[2, 13]);
    let e = r.unwrap_err();
    assert_eq!(e.kind, Fault::StackUnderflow);
    assert_eq!(e.ip, 0);
}

#[test]
fn arithmetic_on_a_thin_stack_underflows() {
    let (_, r) = run(&[1, 5, 0, 0, 0, 9, 13]);
    let e = r.unwrap_err();
    assert_eq!(e.kind, Fault::StackUnderflow);
    assert_eq!(e.ip, 5);
}

#[test]
fn a_program_larger_than_the_store_is_rejected() {
    let mut vm = VM::new();
    let too_large = vec![0u8; INSTRUCTION_CAPACITY + 1];
    let e = vm.program(&too_large).unwrap_err();
    assert_eq!(e.kind, Fault::ProgramTooLarge);
    assert_eq!(vm.program_len, 0);
    let exact = vec![13u8; INSTRUCTION_CAPACITY];
    assert!(vm.program(&exact).is_ok());
    assert_eq!(vm.program_len, INSTRUCTION_CAPACITY);
}

#[test]
fn the_step_budget_stops_a_runaway_program() {
    let mut vm = VM::new();
    let r = vm.execute(5);
    assert_eq!(r, Ok(ExecEvent::OutOfSteps));
    assert_eq!(vm.ip, 5);
}

#[test]
fn nop_advances_by_one() {
    let (vm, r) = run(&[0, 0, 13]);
    assert_eq!(r, Ok(ExecEvent::Halted));
    assert_eq!(vm.ip, 2);
}

#[test]
fn jmp_outside_the_program_faults() {
    let (_, r) = run(&[5, 99, 0, 13]);
    let e = r.unwrap_err();
    assert_eq!(e.kind, Fault::InvalidJumpTarget);
    assert_eq!(e.ip, 0);
}

#[test]
fn jmp_to_the_loaded_length_itself_faults() {
    let (_, r) = run(&[5, 4, 0, 13]);
    let e = r.unwrap_err();
    assert_eq!(e.kind, Fault::InvalidJumpTarget);
    assert_eq!(e.ip, 0);
}

#[test]
fn reloading_a_program_zeroes_the_old_bytes() {
    let mut vm = VM::new();
    vm.program(&[1, 5, 0, 0, 0, 12, 13]).unwrap();
    vm.program(&[13]).unwrap();
    assert_eq!(vm.program_len, 1);
    assert_eq!(vm.instructions[1], 0);
    let r = vm.execute(BUDGET);
    assert_eq!(r, Ok(ExecEvent::Halted));
    assert!(vm.output.is_empty());
}

#[test]
fn a_loop_counts_down_to_zero() {
    // PUSH 3, STORE r0; then LOAD r0, PRINT, LOAD r0, PUSH 1, SUB,
    // STORE r0, LOAD r0, JNZ back to the loop head, STOP.
    let program = [
        1, 3, 0, 0, 0, // 0: PUSH 3
        4, 0, // 5: STORE r0
        3, 0, // 7: LOAD r0
        12, // 9: PRINT
        3, 0, // 10: LOAD r0
        1, 1, 0, 0, 0, // 12: PUSH 1
        9, // 17: SUB
        4, 0, // 18: STORE r0
        3, 0, // 20: LOAD r0
        7, 7, 0, // 22: JNZ 7
        13, // 25: STOP
    ];
    let (vm, r) = run(&program);
    assert_eq!(r, Ok(ExecEvent::Halted));
    assert_eq!(vm.output, vec![3, 2, 1]);
    assert_eq!(vm.registers[0], 0);
}

#[test]
fn an_instruction_running_past_the_store_faults() {
    // A full-capacity program of NOPs whose last bytes start a PUSH that
    // cannot fit before the end of the store.
    let mut program = vec![0u8; INSTRUCTION_CAPACITY];
    program[INSTRUCTION_CAPACITY - 3] = 1;
    let (_, r) = run(&program);
    let e = r.unwrap_err();
    assert_eq!(e.kind, Fault::InvalidJumpTarget);
    assert_eq!(e.ip, INSTRUCTION_CAPACITY - 3);
}

#[test]
fn running_off_the_end_of_the_store_faults() {
    // A full-capacity program of NOPs: the pointer slides to the end of
    // the store, and the fetch there faults rather than reading beyond it.
    let program = vec![0u8; INSTRUCTION_CAPACITY];
    let (vm, r) = run(&program);
    let e = r.unwrap_err();
    assert_eq!(e.kind, Fault::InvalidJumpTarget);
    assert_eq!(e.ip, INSTRUCTION_CAPACITY);
    assert_eq!(vm.ip, INSTRUCTION_CAPACITY);
}

#[test]
fn single_steps_expose_every_intermediate_state() {
    let mut vm = VM::new();
    vm.program(&[1, 5, 0, 0, 0, 12, 13]).unwrap();
    assert_eq!(vm.step(), Ok(StepEvent::Ran));
    assert_eq!((vm.ip, vm.sp), (5, 1));
    assert_eq!(vm.stack[0], 5);
    assert_eq!(vm.step(), Ok(StepEvent::Ran));
    assert_eq!((vm.ip, vm.sp), (6, 0));
    assert_eq!(vm.output, vec![5]);
    assert_eq!(vm.step(), Ok(StepEvent::Halted));
    assert_eq!(vm.ip, 6);
}
