use std::collections::VecDeque;
use vstd::prelude::*;

use crate::value::{
    add_cells, classify, is_char_code, mul_cells, not_cell, number_of, register_of, rem_cells,
    Value, ValueState, VmError,
};

verus! {

/// The instruction set.
#[derive(Debug, Clone, Copy, PartialEq, Eq, Structural)]
pub enum Opcode {
    Halt,
    SetRegister,
    Push,
    Pop,
    Eq,
    Gt,
    Jmp,
    Jt,
    Jf,
    Add,
    Mult,
    Mod,
    And,
    Or,
    Not,
    Rmem,
    Wmem,
    Call,
    Ret,
    Out,
    In,
    Noop,
}

/// The instruction that a raw cell encodes, if any.
pub open spec fn decode(raw: u16) -> Option<Opcode> {
    match raw {
        0 => Some(Opcode::Halt),
        1 => Some(Opcode::SetRegister),
        2 => Some(Opcode::Push),
        3 => Some(Opcode::Pop),
        4 => Some(Opcode::Eq),
        5 => Some(Opcode::Gt),
        6 => Some(Opcode::Jmp),
        7 => Some(Opcode::Jt),
        8 => Some(Opcode::Jf),
        9 => Some(Opcode::Add),
        10 => Some(Opcode::Mult),
        11 => Some(Opcode::Mod),
        12 => Some(Opcode::And),
        13 => Some(Opcode::Or),
        14 => Some(Opcode::Not),
        15 => Some(Opcode::Rmem),
        16 => Some(Opcode::Wmem),
        17 => Some(Opcode::Call),
        18 => Some(Opcode::Ret),
        19 => Some(Opcode::Out),
        20 => Some(Opcode::In),
        21 => Some(Opcode::Noop),
        _ => None,
    }
}

impl Opcode {
    /// Number of operand cells that follow the opcode cell.
    pub open spec fn arity(self) -> nat {
        match self {
            Opcode::Halt | Opcode::Ret | Opcode::Noop => 0,
            Opcode::Push | Opcode::Pop | Opcode::Jmp | Opcode::Call | Opcode::Out | Opcode::In => 1,
            Opcode::SetRegister | Opcode::Jt | Opcode::Jf | Opcode::Not | Opcode::Rmem | Opcode::Wmem => 2,
            Opcode::Eq | Opcode::Gt | Opcode::Add | Opcode::Mult | Opcode::Mod | Opcode::And
            | Opcode::Or => 3,
        }
    }

    pub fn num_args(&self) -> (r: usize)
        ensures
            r == self.arity(),
    {
        match self {
            Opcode::Halt | Opcode::Ret | Opcode::Noop => 0,
            Opcode::Push | Opcode::Pop | Opcode::Jmp | Opcode::Call | Opcode::Out | Opcode::In => 1,
            Opcode::SetRegister | Opcode::Jt | Opcode::Jf | Opcode::Not | Opcode::Rmem | Opcode::Wmem => 2,
            Opcode::Eq | Opcode::Gt | Opcode::Add | Opcode::Mult | Opcode::Mod | Opcode::And
            | Opcode::Or => 3,
        }
    }

    /// Decodes a raw cell; `None` for a cell that is no known opcode.
    pub fn from_cell(value: Value) -> (r: Option<Opcode>)
        ensures
            r == decode(value@),
    {
        match value.0 {
            0 => Some(Opcode::Halt),
            1 => Some(Opcode::SetRegister),
            2 => Some(Opcode::Push),
            3 => Some(Opcode::Pop),
            4 => Some(Opcode::Eq),
            5 => Some(Opcode::Gt),
            6 => Some(Opcode::Jmp),
            7 => Some(Opcode::Jt),
            8 => Some(Opcode::Jf),
            9 => Some(Opcode::Add),
            10 => Some(Opcode::Mult),
            11 => Some(Opcode::Mod),
            12 => Some(Opcode::And),
            13 => Some(Opcode::Or),
            14 => Some(Opcode::Not),
            15 => Some(Opcode::Rmem),
            16 => Some(Opcode::Wmem),
            17 => Some(Opcode::Call),
            18 => Some(Opcode::Ret),
            19 => Some(Opcode::Out),
            20 => Some(Opcode::In),
            21 => Some(Opcode::Noop),
            _ => None,
        }
    }
}

#[derive(Debug, Clone, Copy, PartialEq, Eq, Structural)]
pub enum ExecutionState {
    Running,
    Complete,
}

/// What the caller of a step has to do besides stepping again.
#[derive(Debug, Clone, Copy, PartialEq, Eq, Structural)]
pub enum Effect {
    Nothing,
    /// Write this character to the output stream.
    Output(char),
    /// The input queue is empty: supply a line, then step again.
    NeedInput,
    /// The cell at the program counter is no opcode; it was skipped.
    UnknownOpcode(u16),
}

/// Mathematical model of the whole machine.
pub struct MachineState {
    pub memory: Seq<u16>,
    pub stack: Seq<u16>,
    pub registers: Seq<u16>,
    pub pc: usize,
    pub input: Seq<u16>,
}

pub type Transition = Result<(MachineState, ExecutionState, Effect), VmError>;

/// The content of a value operand: a register selector stands for the
/// register's content, any other cell for itself.
pub open spec fn resolve(s: MachineState, raw: u16) -> u16 {
    match classify(raw) {
        ValueState::Register(i) => s.registers[i as int],
        _ => raw,
    }
}

/// The raw cell at offset `k` from the program counter.
pub open spec fn arg(s: MachineState, k: int) -> u16 {
    s.memory[s.pc + k]
}

/// The value operand at offset `k` from the program counter.
pub open spec fn operand(s: MachineState, k: int) -> u16 {
    resolve(s, arg(s, k))
}

/// The fault of writing through the destination cell `t`, if any.
pub open spec fn target_fault(s: MachineState, t: u16) -> Option<VmError> {
    match classify(t) {
        ValueState::Number(n) => if n < s.memory.len() {
            None
        } else {
            Some(VmError::OutOfBounds(n as usize))
        },
        ValueState::Register(_) => None,
        ValueState::Invalid => Some(VmError::InvalidAddress(t)),
    }
}

/// The state after writing `v` through the destination cell `t`.
pub open spec fn store(s: MachineState, t: u16, v: u16) -> MachineState {
    match classify(t) {
        ValueState::Number(n) => MachineState { memory: s.memory.update(n as int, v), ..s },
        ValueState::Register(i) => MachineState { registers: s.registers.update(i as int, v), ..s },
        ValueState::Invalid => s,
    }
}

/// The state with the program counter past the instruction `op`.
pub open spec fn advanced(s: MachineState, op: Opcode) -> MachineState {
    MachineState { pc: (s.pc + 1 + op.arity()) as usize, ..s }
}

pub open spec fn running(s: MachineState) -> Transition {
    Ok((s, ExecutionState::Running, Effect::Nothing))
}

/// Write `v` to the destination named by the first operand, then advance.
pub open spec fn write_step(s: MachineState, op: Opcode, v: u16) -> Transition {
    match target_fault(s, arg(s, 1)) {
        Some(e) => Err(e),
        None => running(advanced(store(s, arg(s, 1), v), op)),
    }
}

/// Continue at the number `raw` holds.
pub open spec fn jump_to(s: MachineState, raw: u16) -> Transition {
    match number_of(raw) {
        Ok(n) => running(MachineState { pc: n as usize, ..s }),
        Err(e) => Err(e),
    }
}

/// Conditional jump: taken when the condition's zero-ness is `on_zero`.
pub open spec fn branch(s: MachineState, op: Opcode, on_zero: bool) -> Transition {
    match number_of(operand(s, 1)) {
        Err(e) => Err(e),
        Ok(c) => if (c == 0) == on_zero {
            jump_to(s, operand(s, 2))
        } else {
            running(advanced(s, op))
        },
    }
}

/// The effect of the instruction `op` at the program counter, all of whose
/// operand cells lie inside memory.
pub open spec fn execute(s: MachineState, op: Opcode) -> Transition {
    match op {
        Opcode::Halt => Ok((s, ExecutionState::Complete, Effect::Nothing)),
        Opcode::SetRegister => match register_of(arg(s, 1)) {
            Err(e) => Err(e),
            Ok(i) => running(
                advanced(MachineState { registers: s.registers.update(i as int, operand(s, 2)), ..s }, op),
            ),
        },
        Opcode::Push => running(advanced(MachineState { stack: s.stack.push(operand(s, 1)), ..s }, op)),
        Opcode::Pop => if s.stack.len() == 0 {
            Err(VmError::StackUnderflow)
        } else {
            write_step(MachineState { stack: s.stack.drop_last(), ..s }, op, s.stack.last())
        },
        Opcode::Eq => write_step(s, op, if operand(s, 2) == operand(s, 3) { 1 } else { 0 }),
        Opcode::Gt => write_step(s, op, if operand(s, 2) > operand(s, 3) { 1 } else { 0 }),
        Opcode::Jmp => jump_to(s, operand(s, 1)),
        Opcode::Jt => branch(s, op, false),
        Opcode::Jf => branch(s, op, true),
        Opcode::Add => write_step(s, op, add_cells(operand(s, 2), operand(s, 3))),
        Opcode::Mult => write_step(s, op, mul_cells(operand(s, 2), operand(s, 3))),
        Opcode::Mod => match rem_cells(operand(s, 2), operand(s, 3)) {
            Err(e) => Err(e),
            Ok(v) => write_step(s, op, v),
        },
        Opcode::And => write_step(s, op, operand(s, 2) & operand(s, 3)),
        Opcode::Or => write_step(s, op, operand(s, 2) | operand(s, 3)),
        Opcode::Not => write_step(s, op, not_cell(operand(s, 2))),
        Opcode::Rmem => match number_of(operand(s, 2)) {
            Err(e) => Err(e),
            Ok(a) => if a >= s.memory.len() {
                Err(VmError::OutOfBounds(a as usize))
            } else {
                write_step(s, op, s.memory[a as int])
            },
        },
        Opcode::Wmem => match number_of(operand(s, 1)) {
            Err(e) => Err(e),
            Ok(a) => if a >= s.memory.len() {
                Err(VmError::OutOfBounds(a as usize))
            } else {
                running(advanced(MachineState { memory: s.memory.update(a as int, operand(s, 2)), ..s }, op))
            },
        },
        Opcode::Call => match number_of(operand(s, 1)) {
            Err(e) => Err(e),
            Ok(a) => running(
                MachineState { stack: s.stack.push((s.pc + 2) as u16), pc: a as usize, ..s },
            ),
        },
        Opcode::Ret => if s.stack.len() == 0 {
            Ok((s, ExecutionState::Complete, Effect::Nothing))
        } else {
            match number_of(s.stack.last()) {
                Err(e) => Err(e),
                Ok(a) => running(MachineState { stack: s.stack.drop_last(), pc: a as usize, ..s }),
            }
        },
        Opcode::Out => if is_char_code(operand(s, 1)) {
            Ok((advanced(s, op), ExecutionState::Running, Effect::Output((operand(s, 1) as u32) as char)))
        } else {
            Err(VmError::NotACharacter(operand(s, 1)))
        },
        Opcode::In => if s.input.len() == 0 {
            Ok((s, ExecutionState::Running, Effect::NeedInput))
        } else {
            write_step(MachineState { input: s.input.drop_first(), ..s }, op, s.input[0])
        },
        Opcode::Noop => running(advanced(s, op)),
    }
}

/// One fetch-decode-execute cycle. A fault leaves the state as it was.
pub open spec fn next(s: MachineState) -> Transition {
    if s.pc >= s.memory.len() {
        Err(VmError::OutOfBounds(s.pc))
    } else {
        match decode(s.memory[s.pc as int]) {
            None => Ok((
                MachineState { pc: (s.pc + 1) as usize, ..s },
                ExecutionState::Running,
                Effect::UnknownOpcode(s.memory[s.pc as int]),
            )),
            Some(op) => if s.pc + op.arity() >= s.memory.len() {
                Err(VmError::OutOfBounds(s.memory.len() as usize))
            } else {
                execute(s, op)
            },
        }
    }
}

/// Whether an executable outcome and final state are the ones `t` gives for
/// the start state `before`.
pub open spec fn agrees(
    t: Transition,
    before: MachineState,
    r: Result<(ExecutionState, Effect), VmError>,
    after: MachineState,
) -> bool {
    match t {
        Ok((s, st, e)) => r == Ok::<(ExecutionState, Effect), VmError>((st, e)) && after == s,
        Err(e) => r == Err::<(ExecutionState, Effect), VmError>(e) && after == before,
    }
}

/// Up to `fuel` cycles: stops at a fault, at completion, or at the first
/// cycle with an effect for the caller.
pub open spec fn run_spec(s: MachineState, fuel: nat) -> (
    MachineState,
    Result<(ExecutionState, Effect), VmError>,
)
    decreases fuel,
{
    if fuel == 0 {
        (s, Ok((ExecutionState::Running, Effect::Nothing)))
    } else {
        match next(s) {
            Err(e) => (s, Err(e)),
            Ok((t, st, eff)) => if st == ExecutionState::Complete || eff != Effect::Nothing {
                (t, Ok((st, eff)))
            } else {
                run_spec(t, (fuel - 1) as nat)
            },
        }
    }
}

/// How an interactive line is handled.
#[derive(Debug, Clone, Copy, PartialEq, Eq, Structural)]
pub enum InputLine {
    /// `save`: persist the whole machine.
    Save,
    /// `load`: replace the whole machine by the saved one.
    Load,
    /// A line with a byte outside ASCII: rejected.
    NonAscii,
    /// Any other line: queued as characters.
    Text,
}

pub open spec fn line_kind(line: Seq<u8>) -> InputLine {
    if line == seq![115u8, 97, 118, 101] {
        InputLine::Save
    } else if line == seq![108u8, 111, 97, 100] {
        InputLine::Load
    } else if exists|i: int| 0 <= i < line.len() && line[i] >= 128 {
        InputLine::NonAscii
    } else {
        InputLine::Text
    }
}

/// The cells queued for a line: its bytes, then a newline.
pub open spec fn line_cells(line: Seq<u8>) -> Seq<u16> {
    line.map_values(|b: u8| b as u16).push(10u16)
}

pub open spec fn with_line(s: MachineState, line: Seq<u8>) -> MachineState {
    MachineState { input: s.input + line_cells(line), ..s }
}

/// Classifies an interactive line.
pub fn classify_line(line: &[u8]) -> (r: InputLine)
    ensures
        r == line_kind(line@),
{
    let n = line.len();
    if n == 4 && line[0] == 115 && line[1] == 97 && line[2] == 118 && line[3] == 101 {
        assert(line@ =~= seq![115u8, 97, 118, 101]);
        return InputLine::Save;
    }
    if n == 4 && line[0] == 108 && line[1] == 111 && line[2] == 97 && line[3] == 100 {
        assert(line@ =~= seq![108u8, 111, 97, 100]);
        assert(line@ != seq![115u8, 97, 118, 101]) by {
            assert(line@[0] != seq![115u8, 97, 118, 101][0]);
        }
        return InputLine::Load;
    }
    assert(line@ != seq![115u8, 97, 118, 101]) by {
        if line@ == seq![115u8, 97, 118, 101] {
            assert(line@[0] == 115 && line@[1] == 97 && line@[2] == 118 && line@[3] == 101);
        }
    }
    assert(line@ != seq![108u8, 111, 97, 100]) by {
        if line@ == seq![108u8, 111, 97, 100] {
            assert(line@[0] == 108 && line@[1] == 111 && line@[2] == 97 && line@[3] == 100);
        }
    }
    let mut i: usize = 0;
    while i < n
        invariant
            n == line@.len(),
            i <= n,
            forall|j: int| 0 <= j < i ==> line@[j] < 128,
        decreases n - i,
    {
        if line[i] >= 128 {
            return InputLine::NonAscii;
        }
        i = i + 1;
    }
    InputLine::Text
}

/// A plain copy of the whole machine state, for persistence.
pub struct Snapshot {
    pub memory: Vec<u16>,
    pub stack: Vec<u16>,
    pub registers: [u16; 8],
    pub pc: usize,
    pub input: Vec<u16>,
}

impl View for Snapshot {
    type V = MachineState;

    open spec fn view(&self) -> MachineState {
        MachineState {
            memory: self.memory@,
            stack: self.stack@,
            registers: self.registers@,
            pc: self.pc,
            input: self.input@,
        }
    }
}

fn copy_cells(v: &Vec<u16>) -> (r: Vec<u16>)
    ensures
        r@ == v@,
{
    let mut r: Vec<u16> = Vec::new();
    let mut i: usize = 0;
    while i < v.len()
        invariant
            i <= v@.len(),
            r@ == v@.subrange(0, i as int),
        decreases v@.len() - i,
    {
        r.push(v[i]);
        i = i + 1;
    }
    assert(r@ =~= v@);
    r
}

/// The machine: memory image, stack, eight registers, program counter and
/// pending input.
pub struct VM {
    memory: Vec<u16>,
    stack: Vec<u16>,
    registers: [u16; 8],
    pc: usize,
    input: VecDeque<u16>,
}

impl View for VM {
    type V = MachineState;

    closed spec fn view(&self) -> MachineState {
        MachineState {
            memory: self.memory@,
            stack: self.stack@,
            registers: self.registers@,
            pc: self.pc,
            input: self.input@,
        }
    }
}

impl VM {
    pub fn new(memory: Vec<u16>) -> (r: VM)
        ensures
            r@ == (MachineState {
                memory: memory@,
                stack: Seq::empty(),
                registers: seq![0u16, 0, 0, 0, 0, 0, 0, 0],
                pc: 0,
                input: Seq::empty(),
            }),
    {
        let r = VM {
            memory,
            stack: Vec::new(),
            registers: [0u16, 0, 0, 0, 0, 0, 0, 0],
            pc: 0,
            input: VecDeque::new(),
        };
        assert(r.registers@ =~= seq![0u16, 0, 0, 0, 0, 0, 0, 0]);
        r
    }

    fn get_memory(&self, offset: usize) -> (r: Value)
        requires
            self.pc + offset < self@.memory.len(),
        ensures
            r@ == arg(self@, offset as int),
    {
        let len = self.memory.len();
        let at = self.pc + offset;
        Value(self.memory[at])
    }

    fn get_value(&self, offset: usize) -> (r: Value)
        requires
            self.pc + offset < self@.memory.len(),
        ensures
            r@ == operand(self@, offset as int),
    {
        let v = self.get_memory(offset);
        match v.get_value_state() {
            ValueState::Register(i) => Value(self.registers[i]),
            _ => v,
        }
    }

    fn check_target(&self, target: Value) -> (r: Option<VmError>)
        ensures
            r == target_fault(self@, target@),
    {
        match target.get_value_state() {
            ValueState::Number(n) => if (n as usize) < self.memory.len() {
                None
            } else {
                Some(VmError::OutOfBounds(n as usize))
            },
            ValueState::Register(_) => None,
            ValueState::Invalid => Some(VmError::InvalidAddress(target.0)),
        }
    }

    fn set_memory(&mut self, target: Value, value: Value)
        requires
            target_fault(old(self)@, target@) is None,
        ensures
            final(self)@ == store(old(self)@, target@, value@),
    {
        match target.get_value_state() {
            ValueState::Number(n) => self.memory.set(n as usize, value.0),
            ValueState::Register(i) => self.registers[i] = value.0,
            ValueState::Invalid => {},
        }
    }

    fn advance(&mut self, op: Opcode)
        requires
            old(self).pc + op.arity() < old(self)@.memory.len(),
        ensures
            final(self)@ == advanced(old(self)@, op),
    {
        let len = self.memory.len();
        self.pc = self.pc + op.num_args() + 1;
    }

    fn write_step(&mut self, op: Opcode, value: Value) -> (r: Result<(ExecutionState, Effect), VmError>)
        requires
            old(self).pc + op.arity() < old(self)@.memory.len(),
            op.arity() >= 1,
        ensures
            agrees(write_step(old(self)@, op, value@), old(self)@, r, final(self)@),
    {
        let target = self.get_memory(1);
        match self.check_target(target) {
            Some(e) => Err(e),
            None => {
                self.set_memory(target, value);
                self.advance(op);
                Ok((ExecutionState::Running, Effect::Nothing))
            },
        }
    }

    fn jump(&mut self, target: Value) -> (r: Result<(ExecutionState, Effect), VmError>)
        ensures
            agrees(jump_to(old(self)@, target@), old(self)@, r, final(self)@),
    {
        match target.to_number() {
            Ok(n) => {
                self.pc = n as usize;
                Ok((ExecutionState::Running, Effect::Nothing))
            },
            Err(e) => Err(e),
        }
    }

    fn branch(&mut self, op: Opcode, on_zero: bool) -> (r: Result<(ExecutionState, Effect), VmError>)
        requires
            old(self).pc + op.arity() < old(self)@.memory.len(),
            op.arity() == 2,
        ensures
            agrees(branch(old(self)@, op, on_zero), old(self)@, r, final(self)@),
    {
        match self.get_value(1).to_number() {
            Err(e) => Err(e),
            Ok(c) => if (c == 0) == on_zero {
                let target = self.get_value(2);
                self.jump(target)
            } else {
                self.advance(op);
                Ok((ExecutionState::Running, Effect::Nothing))
            },
        }
    }

    fn execute(&mut self, op: Opcode) -> (r: Result<(ExecutionState, Effect), VmError>)
        requires
            old(self).pc + op.arity() < old(self)@.memory.len(),
        ensures
            agrees(execute(old(self)@, op), old(self)@, r, final(self)@),
    {
        let ok = Ok((ExecutionState::Running, Effect::Nothing));
        match op {
            Opcode::Halt => Ok((ExecutionState::Complete, Effect::Nothing)),
            Opcode::SetRegister => match self.get_memory(1).to_register() {
                Err(e) => Err(e),
                Ok(i) => {
                    let v = self.get_value(2);
                    self.registers[i] = v.0;
                    self.advance(op);
                    ok
                },
            },
            Opcode::Push => {
                let v = self.get_value(1);
                self.stack.push(v.0);
                self.advance(op);
                ok
            },
            Opcode::Pop => {
                let len = self.stack.len();
                if len == 0 {
                    return Err(VmError::StackUnderflow);
                }
                if let Some(e) = self.check_target(self.get_memory(1)) {
                    return Err(e);
                }
                let v = self.stack[len - 1];
                self.stack.pop();
                self.write_step(op, Value(v))
            },
            Opcode::Eq => {
                let a = self.get_value(2);
                let b = self.get_value(3);
                let v: u16 = if a.0 == b.0 { 1 } else { 0 };
                self.write_step(op, Value(v))
            },
            Opcode::Gt => {
                let a = self.get_value(2);
                let b = self.get_value(3);
                let v: u16 = if a.0 > b.0 { 1 } else { 0 };
                self.write_step(op, Value(v))
            },
            Opcode::Jmp => {
                let target = self.get_value(1);
                self.jump(target)
            },
            Opcode::Jt => self.branch(op, false),
            Opcode::Jf => self.branch(op, true),
            Opcode::Add => {
                let v = self.get_value(2).add(self.get_value(3));
                self.write_step(op, v)
            },
            Opcode::Mult => {
                let v = self.get_value(2).mul(self.get_value(3));
                self.write_step(op, v)
            },
            Opcode::Mod => match self.get_value(2).rem(self.get_value(3)) {
                Err(e) => Err(e),
                Ok(v) => self.write_step(op, v),
            },
            Opcode::And => {
                let v = self.get_value(2).bitand(self.get_value(3));
                self.write_step(op, v)
            },
            Opcode::Or => {
                let v = self.get_value(2).bitor(self.get_value(3));
                self.write_step(op, v)
            },
            Opcode::Not => {
                let v = self.get_value(2).not();
                self.write_step(op, v)
            },
            Opcode::Rmem => match self.get_value(2).to_number() {
                Err(e) => Err(e),
                Ok(a) => if (a as usize) >= self.memory.len() {
                    Err(VmError::OutOfBounds(a as usize))
                } else {
                    let v = Value(self.memory[a as usize]);
                    self.write_step(op, v)
                },
            },
            Opcode::Wmem => match self.get_value(1).to_number() {
                Err(e) => Err(e),
                Ok(a) => if (a as usize) >= self.memory.len() {
                    Err(VmError::OutOfBounds(a as usize))
                } else {
                    let v = self.get_value(2);
                    self.memory.set(a as usize, v.0);
                    self.advance(op);
                    ok
                },
            },
            Opcode::Call => match self.get_value(1).to_number() {
                Err(e) => Err(e),
                Ok(a) => {
                    let len = self.memory.len();
                    let back = #[verifier::truncate] ((self.pc + 2) as u16);
                    self.stack.push(back);
                    self.pc = a as usize;
                    ok
                },
            },
            Opcode::Ret => {
                let len = self.stack.len();
                if len == 0 {
                    Ok((ExecutionState::Complete, Effect::Nothing))
                } else {
                    match Value(self.stack[len - 1]).to_number() {
                        Err(e) => Err(e),
                        Ok(a) => {
                            self.stack.pop();
                            self.pc = a as usize;
                            ok
                        },
                    }
                }
            },
            Opcode::Out => {
                let v = self.get_value(1);
                match v.to_ascii() {
                    Err(e) => Err(e),
                    Ok(c) => {
                        proof {
                            vstd::utf8::char_u32_cast(c, v@ as u32);
                        }
                        self.advance(op);
                        Ok((ExecutionState::Running, Effect::Output(c)))
                    },
                }
            },
            Opcode::In => {
                if self.input.len() == 0 {
                    return Ok((ExecutionState::Running, Effect::NeedInput));
                }
                if let Some(e) = self.check_target(self.get_memory(1)) {
                    return Err(e);
                }
                let v = self.input[0];
                self.input.pop_front();
                self.write_step(op, Value(v))
            },
            Opcode::Noop => {
                self.advance(op);
                ok
            },
        }
    }

    /// Performs one fetch-decode-execute cycle.
    pub fn step(&mut self) -> (r: Result<(ExecutionState, Effect), VmError>)
        ensures
            agrees(next(old(self)@), old(self)@, r, final(self)@),
    {
        let len = self.memory.len();
        if self.pc >= len {
            return Err(VmError::OutOfBounds(self.pc));
        }
        let cell = Value(self.memory[self.pc]);
        match Opcode::from_cell(cell) {
            None => {
                self.pc = self.pc + 1;
                Ok((ExecutionState::Running, Effect::UnknownOpcode(cell.0)))
            },
            Some(op) => {
                if op.num_args() >= len - self.pc {
                    return Err(VmError::OutOfBounds(len));
                }
                self.execute(op)
            },
        }
    }

    /// Steps until a fault, completion, an effect for the caller, or `fuel`
    /// cycles.
    pub fn run(&mut self, fuel: u64) -> (r: Result<(ExecutionState, Effect), VmError>)
        ensures
            (final(self)@, r) == run_spec(old(self)@, fuel as nat),
    {
        let mut left: u64 = fuel;
        while left > 0
            invariant
                run_spec(self@, left as nat) == run_spec(old(self)@, fuel as nat),
            decreases left,
        {
            match self.step() {
                Err(e) => return Err(e),
                Ok((st, eff)) => {
                    if st == ExecutionState::Complete || eff != Effect::Nothing {
                        return Ok((st, eff));
                    }
                },
            }
            left = left - 1;
        }
        Ok((ExecutionState::Running, Effect::Nothing))
    }

    fn enqueue_line(&mut self, line: &[u8])
        ensures
            final(self)@ == with_line(old(self)@, line@),
    {
        let ghost start = self@;
        let mut i: usize = 0;
        while i < line.len()
            invariant
                i <= line@.len(),
                self@ == (MachineState {
                    input: start.input + line@.subrange(0, i as int).map_values(|b: u8| b as u16),
                    ..start
                }),
            decreases line@.len() - i,
        {
            self.input.push_back(line[i] as u16);
            proof {
                let prefix = line@.subrange(0, i as int);
                let next_prefix = line@.subrange(0, i + 1);
                assert(next_prefix =~= prefix.push(line@[i as int]));
                assert(next_prefix.map_values(|b: u8| b as u16) =~= prefix.map_values(
                    |b: u8| b as u16,
                ).push(line@[i as int] as u16));
            }
            i = i + 1;
        }
        self.input.push_back(10u16);
        proof {
            assert(line@.subrange(0, line@.len() as int) =~= line@);
            assert(self@.input =~= start.input + line_cells(line@));
        }
    }

    /// Handles one interactive line: a plain ASCII line is queued with a
    /// trailing newline; `save`, `load` and rejected lines leave the machine
    /// as it is and are left to the caller.
    pub fn accept_line(&mut self, line: &[u8]) -> (r: InputLine)
        ensures
            r == line_kind(line@),
            final(self)@ == if r == InputLine::Text {
                with_line(old(self)@, line@)
            } else {
                old(self)@
            },
    {
        let kind = classify_line(line);
        if kind == InputLine::Text {
            self.enqueue_line(line);
        }
        kind
    }

    /// Queues the line `look`, the input that follows a restore.
    pub fn resume_after_load(&mut self)
        ensures
            final(self)@ == with_line(old(self)@, seq![108u8, 111, 111, 107]),
    {
        let look: [u8; 4] = [108u8, 111, 111, 107];
        assert(look@ =~= seq![108u8, 111, 111, 107]);
        self.enqueue_line(look.as_slice());
    }

    /// A copy of the whole state.
    pub fn snapshot(&self) -> (r: Snapshot)
        ensures
            r@ == self@,
    {
        let mut input: Vec<u16> = Vec::new();
        let mut i: usize = 0;
        while i < self.input.len()
            invariant
                i <= self.input@.len(),
                input@ == self.input@.subrange(0, i as int),
            decreases self.input@.len() - i,
        {
            input.push(self.input[i]);
            i = i + 1;
        }
        assert(input@ =~= self.input@);
        let r = Snapshot {
            memory: copy_cells(&self.memory),
            stack: copy_cells(&self.stack),
            registers: self.registers,
            pc: self.pc,
            input,
        };
        r
    }

    /// The machine a snapshot describes.
    pub fn restore(snap: Snapshot) -> (r: VM)
        ensures
            r@ == snap@,
    {
        let mut input: VecDeque<u16> = VecDeque::new();
        let mut i: usize = 0;
        while i < snap.input.len()
            invariant
                i <= snap.input@.len(),
                input@ == snap.input@.subrange(0, i as int),
            decreases snap.input@.len() - i,
        {
            input.push_back(snap.input[i]);
            i = i + 1;
        }
        assert(input@ =~= snap.input@);
        VM { memory: snap.memory, stack: snap.stack, registers: snap.registers, pc: snap.pc, input }
    }
}


/// Saving and loading reproduces the machine: the restored state equals the
/// saved one, so every later run and every later input line acts on it as on
/// a machine that was never saved.
pub proof fn lemma_save_load_round_trip(
    vm: &VM,
    snap: &Snapshot,
    restored: &VM,
    fuel: nat,
    line: Seq<u8>,
)
    requires
        snap@ == vm@,
        restored@ == snap@,
    ensures
        restored@ == vm@,
        run_spec(restored@, fuel) == run_spec(vm@, fuel),
        with_line(restored@, line) == with_line(vm@, line),
{
}

/// Equality on two value operands writes 1 when they are equal and 0 when
/// they differ.
pub proof fn lemma_eq_writes_flag(s: MachineState)
    requires
        s.pc + 3 < s.memory.len(),
        s.memory[s.pc as int] == 4,
        target_fault(s, arg(s, 1)) is None,
    ensures
        next(s) == running(
            advanced(
                store(s, arg(s, 1), if operand(s, 2) == operand(s, 3) { 1 } else { 0 }),
                Opcode::Eq,
            ),
        ),
{
}

/// A cell that is no opcode is skipped: execution goes on one cell later,
/// with a diagnostic.
pub proof fn lemma_unknown_opcode_skips(s: MachineState)
    requires
        s.pc < s.memory.len(),
        s.memory[s.pc as int] > 21,
    ensures
        next(s) == Ok::<(MachineState, ExecutionState, Effect), VmError>((
            MachineState { pc: (s.pc + 1) as usize, ..s },
            ExecutionState::Running,
            Effect::UnknownOpcode(s.memory[s.pc as int]),
        )),
{
}

/// A return with an empty stack completes the run without a fault.
pub proof fn lemma_ret_on_empty_stack_halts(s: MachineState)
    requires
        s.pc < s.memory.len(),
        s.memory[s.pc as int] == 18,
        s.stack.len() == 0,
    ensures
        next(s) == Ok::<(MachineState, ExecutionState, Effect), VmError>((
            s,
            ExecutionState::Complete,
            Effect::Nothing,
        )),
{
}

/// A remainder by zero is a fault, whatever the dividend.
pub proof fn lemma_mod_by_zero_faults(s: MachineState)
    requires
        s.pc + 3 < s.memory.len(),
        s.memory[s.pc as int] == 11,
        operand(s, 3) == 0,
    ensures
        next(s) == Err::<(MachineState, ExecutionState, Effect), VmError>(VmError::DivisionByZero),
{
}

/// A register selector where a plain number is needed (a jump target, a
/// memory address to write) is a fault.
pub proof fn lemma_selector_is_no_number(s: MachineState)
    requires
        s.pc + 2 < s.memory.len(),
        s.memory[s.pc as int] == 6 || s.memory[s.pc as int] == 16,
        32768 <= operand(s, 1) <= 32775,
    ensures
        next(s) == Err::<(MachineState, ExecutionState, Effect), VmError>(
            VmError::InvalidOperand(operand(s, 1)),
        ),
{
}

} // verus!
