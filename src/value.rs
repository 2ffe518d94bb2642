use vstd::prelude::*;

verus! {

/// Modulus of the machine's number space.
pub const MATH_MOD: u32 = 32768;

/// Mask that keeps the low fifteen bits of a cell.
pub const MATH_MASK: u16 = 0x7fff;

/// Faults that stop execution of the machine.
#[derive(Debug, Clone, Copy, PartialEq, Eq, Structural)]
pub enum VmError {
    /// The raw cell does not classify as the operand kind the instruction needs.
    InvalidOperand(u16),
    /// A write destination holds an invalid cell.
    InvalidAddress(u16),
    /// `pop` on an empty stack.
    StackUnderflow,
    /// `mod` with a zero divisor.
    DivisionByZero,
    /// An address at or past the end of memory.
    OutOfBounds(usize),
    /// A cell that is not the code point of a character.
    NotACharacter(u16),
}

/// The three readings of a raw cell.
#[derive(Debug, Clone, Copy, PartialEq, Eq, Structural)]
pub enum ValueState {
    Number(u16),
    Register(usize),
    Invalid,
}

/// The reading of a raw cell, decided by its range alone.
pub open spec fn classify(raw: u16) -> ValueState {
    if raw <= 32767 {
        ValueState::Number(raw)
    } else if raw <= 32775 {
        ValueState::Register((raw - 32768) as usize)
    } else {
        ValueState::Invalid
    }
}

/// Reduction of an integer into the machine's number space.
pub open spec fn modulo_reduce(x: int) -> u16 {
    (x % (MATH_MOD as int)) as u16
}

pub open spec fn add_cells(a: u16, b: u16) -> u16 {
    modulo_reduce(a + b)
}

pub open spec fn mul_cells(a: u16, b: u16) -> u16 {
    modulo_reduce(a * b)
}

pub open spec fn rem_cells(a: u16, b: u16) -> Result<u16, VmError> {
    if b == 0 {
        Err(VmError::DivisionByZero)
    } else {
        Ok(modulo_reduce((a % b) as int))
    }
}

pub open spec fn not_cell(a: u16) -> u16 {
    !a & MATH_MASK
}

/// The number a cell holds, or the fault of reading it as one.
pub open spec fn number_of(raw: u16) -> Result<u16, VmError> {
    match classify(raw) {
        ValueState::Number(n) => Ok(n),
        _ => Err(VmError::InvalidOperand(raw)),
    }
}

/// The register a cell selects, or the fault of reading it as a selector.
pub open spec fn register_of(raw: u16) -> Result<usize, VmError> {
    match classify(raw) {
        ValueState::Register(i) => Ok(i),
        _ => Err(VmError::InvalidOperand(raw)),
    }
}

/// Whether a cell is the code point of a character.
pub open spec fn is_char_code(raw: u16) -> bool {
    raw < 0xD800 || 0xE000 <= raw
}

/// One 16-bit machine cell.
#[derive(Debug, Clone, Copy, PartialEq, Eq, Structural)]
pub struct Value(pub u16);

impl View for Value {
    type V = u16;

    open spec fn view(&self) -> u16 {
        self.0
    }
}

/// Relies on `char::from_u32`: `Some` exactly for Unicode scalar values,
/// holding the character with that code point.
#[verifier::external_body]
fn char_from_u32(code: u32) -> (r: Option<char>)
    ensures
        r is Some <==> (code < 0xD800 || (0xE000 <= code && code <= 0x10FFFF)),
        r matches Some(c) ==> c as u32 == code,
{
    char::from_u32(code)
}

impl Value {
    pub fn mew(value: u16) -> (r: Value)
        ensures
            r@ == value,
    {
        Value(value)
    }

    pub fn get_value_state(self) -> (r: ValueState)
        ensures
            r == classify(self@),
    {
        if self.0 <= 32767 {
            ValueState::Number(self.0)
        } else if self.0 <= 32775 {
            ValueState::Register((self.0 - 32768) as usize)
        } else {
            ValueState::Invalid
        }
    }

    pub fn to_register(self) -> (r: Result<usize, VmError>)
        ensures
            r == register_of(self@),
            r matches Ok(i) ==> i < 8,
    {
        match self.get_value_state() {
            ValueState::Register(i) => Ok(i),
            _ => Err(VmError::InvalidOperand(self.0)),
        }
    }

    pub fn to_number(self) -> (r: Result<u16, VmError>)
        ensures
            r == number_of(self@),
            r matches Ok(n) ==> n <= 32767,
    {
        match self.get_value_state() {
            ValueState::Number(n) => Ok(n),
            _ => Err(VmError::InvalidOperand(self.0)),
        }
    }

    /// The character whose code point is the raw cell.
    pub fn to_ascii(self) -> (r: Result<char, VmError>)
        ensures
            r is Ok <==> is_char_code(self@),
            r matches Ok(c) ==> c as u32 == self@ as u32,
            r matches Err(e) ==> e == VmError::NotACharacter(self@),
    {
        match char_from_u32(self.0 as u32) {
            Some(c) => Ok(c),
            None => Err(VmError::NotACharacter(self.0)),
        }
    }

    fn mew_from_math(value: u32) -> (r: Value)
        ensures
            r@ == modulo_reduce(value as int),
    {
        Value((value % MATH_MOD) as u16)
    }

    fn math_value(self) -> (r: u32)
        ensures
            r == self@ as u32,
    {
        self.0 as u32
    }

    pub fn add(self, rhs: Value) -> (r: Value)
        ensures
            r@ == add_cells(self@, rhs@),
    {
        Self::mew_from_math(self.math_value() + rhs.math_value())
    }

    pub fn mul(self, rhs: Value) -> (r: Value)
        ensures
            r@ == mul_cells(self@, rhs@),
    {
        let a = self.math_value();
        let b = rhs.math_value();
        assert(a * b <= 65535 * 65535) by (nonlinear_arith)
            requires
                a <= 65535,
                b <= 65535,
        ;
        Self::mew_from_math(a * b)
    }

    /// Remainder of the raw cells, reduced; a zero divisor is a fault.
    pub fn rem(self, rhs: Value) -> (r: Result<Value, VmError>)
        ensures
            r matches Ok(v) ==> rem_cells(self@, rhs@) == Ok::<u16, VmError>(v@),
            r matches Err(e) ==> rem_cells(self@, rhs@) == Err::<u16, VmError>(e),
    {
        if rhs.0 == 0 {
            Err(VmError::DivisionByZero)
        } else {
            Ok(Self::mew_from_math((self.0 % rhs.0) as u32))
        }
    }

    pub fn bitand(self, rhs: Value) -> (r: Value)
        ensures
            r@ == self@ & rhs@,
    {
        Value(self.0 & rhs.0)
    }

    pub fn bitor(self, rhs: Value) -> (r: Value)
        ensures
            r@ == self@ | rhs@,
    {
        Value(self.0 | rhs.0)
    }

    /// Bitwise complement, masked to fifteen bits.
    pub fn not(self) -> (r: Value)
        ensures
            r@ == not_cell(self@),
            r@ <= 32767,
    {
        let x = self.0;
        let r = !x & MATH_MASK;
        assert(!x & 0x7fffu16 <= 32767) by (bit_vector);
        Value(r)
    }
}

/// Addition and multiplication of cells do not depend on operand order, and
/// addition is the sum reduced into the number space.
pub proof fn lemma_arith_commutes(a: u16, b: u16)
    ensures
        add_cells(a, b) == modulo_reduce(a + b),
        add_cells(a, b) == add_cells(b, a),
        mul_cells(a, b) == mul_cells(b, a),
{
    assert(a * b == b * a) by (nonlinear_arith);
}

/// Complementing a plain number twice gives the number back.
pub proof fn lemma_not_involutive(x: u16)
    requires
        x <= 32767,
    ensures
        not_cell(not_cell(x)) == x,
{
    assert(!(!x & 0x7fffu16) & 0x7fffu16 == x) by (bit_vector)
        requires
            x <= 32767u16,
    ;
}

/// Every cell has exactly one reading: the three ranges cover all 16-bit
/// values and do not overlap.
pub proof fn lemma_classify_partition(x: u16)
    ensures
        x <= 32767 <==> classify(x) == ValueState::Number(x),
        32768 <= x <= 32775 <==> classify(x) == ValueState::Register((x - 32768) as usize),
        32776 <= x <==> classify(x) == ValueState::Invalid,
        classify(x) matches ValueState::Register(i) ==> i < 8,
{
}

} // verus!
