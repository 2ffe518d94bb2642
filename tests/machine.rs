use vm_challenge::machine::{classify_line, Effect, ExecutionState, InputLine, Opcode, VM};
use vm_challenge::value::{Value, VmError};

const RUNNING: ExecutionState = ExecutionState::Running;
const COMPLETE: ExecutionState = ExecutionState::Complete;

/// Runs to completion, collecting the output characters.
fn output_of(vm: &mut VM) -> String {
    let mut out = String::new();
    loop {
        match vm.run(10_000).expect("no fault") {
            (ExecutionState::Complete, _) => return out,
            (_, Effect::Output(c)) => out.push(c),
            (_, Effect::Nothing) => panic!("program does not end"),
            (_, other) => panic!("unexpected effect {other:?}"),
        }
    }
}

#[test]
fn add_then_out_prints_sum() {
    // set r1 61; add r0 r1 4; out r0; halt
    let mut vm = VM::new(vec![1, 32769, 61, 9, 32768, 32769, 4, 19, 32768, 0]);
    assert_eq!(output_of(&mut vm), "A");
    // set r1 65; add r0 r1 4; out r0; halt
    let mut vm = VM::new(vec![1, 32769, 65, 9, 32768, 32769, 4, 19, 32768, 0]);
    assert_eq!(output_of(&mut vm), "E");
    assert_eq!(vm.snapshot().registers[0], 69);
}

#[test]
fn eq_sets_one_or_zero() {
    let mut vm = VM::new(vec![4, 32768, 7, 7, 0]);
    assert_eq!(vm.step(), Ok((RUNNING, Effect::Nothing)));
    assert_eq!(vm.snapshot().registers[0], 1);
    assert_eq!(vm.snapshot().pc, 4);
    let mut vm = VM::new(vec![4, 32768, 7, 8, 0]);
    vm.step().unwrap();
    assert_eq!(vm.snapshot().registers[0], 0);
}

#[test]
fn gt_compares_raw_cells() {
    let mut vm = VM::new(vec![5, 6, 9, 8, 0, 0, 0]);
    vm.step().unwrap();
    assert_eq!(vm.snapshot().memory[6], 1);
    let mut vm = VM::new(vec![5, 6, 8, 8, 0, 0, 7]);
    vm.step().unwrap();
    assert_eq!(vm.snapshot().memory[6], 0);
}

#[test]
fn unknown_opcode_is_skipped() {
    let mut vm = VM::new(vec![99, 0]);
    assert_eq!(vm.step(), Ok((RUNNING, Effect::UnknownOpcode(99))));
    assert_eq!(vm.snapshot().pc, 1);
    assert_eq!(vm.step(), Ok((COMPLETE, Effect::Nothing)));
}

#[test]
fn invalid_cell_as_opcode_is_skipped() {
    let mut vm = VM::new(vec![40000, 21, 0]);
    assert_eq!(vm.step(), Ok((RUNNING, Effect::UnknownOpcode(40000))));
    assert_eq!(vm.run(10), Ok((COMPLETE, Effect::Nothing)));
}

#[test]
fn ret_on_empty_stack_halts() {
    let mut vm = VM::new(vec![18]);
    assert_eq!(vm.step(), Ok((COMPLETE, Effect::Nothing)));
    assert_eq!(vm.snapshot().pc, 0);
}

#[test]
fn mod_by_zero_is_fatal() {
    let mut vm = VM::new(vec![11, 32768, 5, 0, 0]);
    assert_eq!(vm.step(), Err(VmError::DivisionByZero));
    let mut vm = VM::new(vec![11, 32768, 0, 0, 0]);
    assert_eq!(vm.step(), Err(VmError::DivisionByZero));
    assert_eq!(vm.snapshot().pc, 0);
    let mut vm = VM::new(vec![11, 32768, 17, 5, 0]);
    vm.step().unwrap();
    assert_eq!(vm.snapshot().registers[0], 2);
}

#[test]
fn selector_as_number_is_fatal() {
    // rmem r1 <- [5]; jmp r1; memory[5] holds a register selector
    let mut vm = VM::new(vec![15, 32769, 5, 6, 32769, 32770]);
    vm.step().unwrap();
    assert_eq!(vm.step(), Err(VmError::InvalidOperand(32770)));
    // wmem through the same selector
    let mut vm = VM::new(vec![15, 32769, 6, 16, 32769, 7, 32770]);
    vm.step().unwrap();
    assert_eq!(vm.step(), Err(VmError::InvalidOperand(32770)));
    // set with a plain number as register
    let mut vm = VM::new(vec![1, 3, 7]);
    assert_eq!(vm.step(), Err(VmError::InvalidOperand(3)));
}

#[test]
fn write_through_invalid_cell_is_fatal() {
    let mut vm = VM::new(vec![4, 40000, 1, 1]);
    assert_eq!(vm.step(), Err(VmError::InvalidAddress(40000)));
    let mut vm = VM::new(vec![4, 100, 1, 1]);
    assert_eq!(vm.step(), Err(VmError::OutOfBounds(100)));
}

#[test]
fn out_of_memory_is_fatal() {
    let mut vm = VM::new(vec![]);
    assert_eq!(vm.step(), Err(VmError::OutOfBounds(0)));
    let mut vm = VM::new(vec![9, 32768]);
    assert_eq!(vm.step(), Err(VmError::OutOfBounds(2)));
    let mut vm = VM::new(vec![6, 500]);
    vm.step().unwrap();
    assert_eq!(vm.step(), Err(VmError::OutOfBounds(500)));
}

#[test]
fn pop_on_empty_stack_is_fatal() {
    let mut vm = VM::new(vec![3, 32768]);
    assert_eq!(vm.step(), Err(VmError::StackUnderflow));
}

#[test]
fn push_then_pop_moves_value() {
    // push 42; pop r2; halt
    let mut vm = VM::new(vec![2, 42, 3, 32770, 0]);
    assert_eq!(vm.run(10), Ok((COMPLETE, Effect::Nothing)));
    let snap = vm.snapshot();
    assert_eq!(snap.registers[2], 42);
    assert!(snap.stack.is_empty());
}

#[test]
fn call_and_ret() {
    // call 4; halt; noop; out 'B'; ret
    let mut vm = VM::new(vec![17, 5, 0, 21, 21, 19, 66, 18]);
    vm.step().unwrap();
    assert_eq!(vm.snapshot().stack, vec![2]);
    assert_eq!(vm.snapshot().pc, 5);
    assert_eq!(output_of(&mut vm), "B");
    assert_eq!(vm.snapshot().pc, 2);
}

#[test]
fn jumps() {
    // jt 1 -> 5 ; jf 0 -> 8
    let mut vm = VM::new(vec![7, 1, 5, 0, 0, 8, 0, 8, 0]);
    vm.step().unwrap();
    assert_eq!(vm.snapshot().pc, 5);
    vm.step().unwrap();
    assert_eq!(vm.snapshot().pc, 8);
    // jt 0 falls through
    let mut vm = VM::new(vec![7, 0, 5, 0]);
    vm.step().unwrap();
    assert_eq!(vm.snapshot().pc, 3);
}

#[test]
fn arithmetic_and_bitwise_instructions() {
    let mut vm = VM::new(vec![
        10, 32768, 32767, 2, // mult r0 32767 2
        12, 32769, 12, 10, // and r1 12 10
        13, 32770, 12, 10, // or r2 12 10
        14, 32771, 0, // not r3 0
        0,
    ]);
    assert_eq!(vm.run(10), Ok((COMPLETE, Effect::Nothing)));
    let regs = vm.snapshot().registers;
    assert_eq!(&regs[..4], &[32766, 8, 14, 32767]);
}

#[test]
fn memory_read_and_write() {
    // wmem 7 99; rmem r0 7; halt
    let mut vm = VM::new(vec![16, 7, 99, 15, 32768, 7, 0, 0]);
    assert_eq!(vm.run(10), Ok((COMPLETE, Effect::Nothing)));
    let snap = vm.snapshot();
    assert_eq!(snap.memory[7], 99);
    assert_eq!(snap.registers[0], 99);
}

#[test]
fn out_rejects_non_characters() {
    let mut vm = VM::new(vec![19, 55296]);
    assert_eq!(vm.step(), Err(VmError::NotACharacter(55296)));
}

#[test]
fn input_is_requested_then_consumed() {
    // in r0; in r1; halt
    let mut vm = VM::new(vec![20, 32768, 20, 32769, 0]);
    assert_eq!(vm.step(), Ok((RUNNING, Effect::NeedInput)));
    assert_eq!(vm.snapshot().pc, 0);
    assert_eq!(vm.accept_line(b"h"), InputLine::Text);
    assert_eq!(vm.snapshot().input, vec![104, 10]);
    assert_eq!(vm.run(10), Ok((COMPLETE, Effect::Nothing)));
    let snap = vm.snapshot();
    assert_eq!(&snap.registers[..2], &[104, 10]);
    assert!(snap.input.is_empty());
}

#[test]
fn lines_are_classified() {
    assert_eq!(classify_line(b"save"), InputLine::Save);
    assert_eq!(classify_line(b"load"), InputLine::Load);
    assert_eq!(classify_line("caf\u{e9}".as_bytes()), InputLine::NonAscii);
    assert_eq!(classify_line(b"go north"), InputLine::Text);
    assert_eq!(classify_line(b""), InputLine::Text);
    assert_eq!(classify_line(b"saves"), InputLine::Text);
}

#[test]
fn control_lines_are_not_queued() {
    let mut vm = VM::new(vec![20, 32768, 0]);
    assert_eq!(vm.accept_line(b"save"), InputLine::Save);
    assert_eq!(vm.accept_line(b"load"), InputLine::Load);
    assert_eq!(vm.accept_line("\u{e9}".as_bytes()), InputLine::NonAscii);
    assert!(vm.snapshot().input.is_empty());
    vm.resume_after_load();
    assert_eq!(vm.snapshot().input, vec![108, 111, 111, 107, 10]);
}

#[test]
fn save_then_load_keeps_the_trace() {
    // echo three input characters: in r0; out r0; jmp 0
    let program = vec![20, 32768, 19, 32768, 6, 0];
    let mut a = VM::new(program);
    assert_eq!(a.step(), Ok((RUNNING, Effect::NeedInput)));
    a.accept_line(b"ab");
    a.step().unwrap();
    let mut b = VM::restore(a.snapshot());
    let mut out_a = String::new();
    let mut out_b = String::new();
    for (vm, out) in [(&mut a, &mut out_a), (&mut b, &mut out_b)] {
        for _ in 0..3 {
            if let Ok((_, Effect::Output(c))) = vm.run(10) {
                out.push(c);
            }
        }
    }
    assert_eq!(out_a, "ab\n");
    assert_eq!(out_a, out_b);
    let (sa, sb) = (a.snapshot(), b.snapshot());
    assert_eq!((sa.memory, sa.stack, sa.registers, sa.pc, sa.input), (sb.memory, sb.stack, sb.registers, sb.pc, sb.input));
}

#[test]
fn run_with_no_fuel_does_nothing() {
    let mut vm = VM::new(vec![0]);
    assert_eq!(vm.run(0), Ok((RUNNING, Effect::Nothing)));
    assert_eq!(vm.snapshot().pc, 0);
}

#[test]
fn opcodes_decode_with_arity() {
    assert_eq!(Opcode::from_cell(Value::mew(0)), Some(Opcode::Halt));
    assert_eq!(Opcode::from_cell(Value::mew(1)), Some(Opcode::SetRegister));
    assert_eq!(Opcode::from_cell(Value::mew(21)), Some(Opcode::Noop));
    assert_eq!(Opcode::from_cell(Value::mew(22)), None);
    assert_eq!(Opcode::from_cell(Value::mew(32768)), None);
    assert_eq!(Opcode::Add.num_args(), 3);
    assert_eq!(Opcode::Ret.num_args(), 0);
    assert_eq!(Opcode::Call.num_args(), 1);
    assert_eq!(Opcode::Wmem.num_args(), 2);
}
