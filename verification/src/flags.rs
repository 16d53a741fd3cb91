use vstd::prelude::*;

verus! {

/// The four status bits that a subtraction leaves behind.
#[derive(Clone, Copy, Debug, PartialEq, Eq, Structural)]
pub struct Flags {
    pub carry: bool,
    pub zero: bool,
    pub sign: bool,
    pub overflow: bool,
}

/// Bit 31 of `result`.
pub open spec fn result_sign(result: u64) -> bool {
    (result / 0x8000_0000) % 2 == 1
}

/// The flags after subtracting `operand2` from `operand1`, where the low 32
/// bits of `result` hold the difference: carry is the unsigned borrow, zero
/// and sign describe the truncated result, and overflow says that the
/// operands' signs differ and the result's sign is not that of `operand1`.
pub open spec fn flags_after_sub(operand1: u32, operand2: u32, result: u64) -> Flags {
    Flags {
        carry: operand1 < operand2,
        zero: result % 0x1_0000_0000 == 0,
        sign: result_sign(result),
        overflow: (operand1 >= 0x8000_0000) != (operand2 >= 0x8000_0000) && (operand1
            >= 0x8000_0000) != result_sign(result),
    }
}

/// The flags after comparing two double words: those of `a - b` taken
/// modulo 2^32.
pub open spec fn compare32(a: u32, b: u32) -> Flags {
    flags_after_sub(a, b, ((a - b) % 0x1_0000_0000) as u64)
}

/// The flags after comparing two bytes: carry is the unsigned borrow, zero
/// and sign describe `a - b` taken modulo 256, and overflow says that the
/// signed difference does not fit in a byte.
pub open spec fn compare8(a: u8, b: u8) -> Flags {
    let diff = (a - b) % 0x100;
    Flags {
        carry: a < b,
        zero: diff == 0,
        sign: diff >= 0x80,
        overflow: (a >= 0x80) != (b >= 0x80) && (a >= 0x80) != (diff >= 0x80),
    }
}

impl Flags {
    /// All four flags clear.
    pub fn new() -> (f: Flags)
        ensures
            f == (Flags { carry: false, zero: false, sign: false, overflow: false }),
    {
        Flags { carry: false, zero: false, sign: false, overflow: false }
    }

    /// Replaces all four flags by those of the subtraction.
    pub fn update_from_subtraction(&mut self, operand1: u32, operand2: u32, result: u64)
        ensures
            *final(self) == flags_after_sub(operand1, operand2, result),
    {
        let sign = (result / 0x8000_0000) % 2 == 1;
        let sign1 = operand1 >= 0x8000_0000;
        let sign2 = operand2 >= 0x8000_0000;
        self.carry = operand1 < operand2;
        self.zero = result % 0x1_0000_0000 == 0;
        self.sign = sign;
        self.overflow = sign1 != sign2 && sign1 != sign;
    }

    pub fn is_carry(&self) -> (b: bool)
        ensures
            b == self.carry,
    {
        self.carry
    }

    pub fn is_zero(&self) -> (b: bool)
        ensures
            b == self.zero,
    {
        self.zero
    }

    pub fn is_sign(&self) -> (b: bool)
        ensures
            b == self.sign,
    {
        self.sign
    }

    pub fn is_overflow(&self) -> (b: bool)
        ensures
            b == self.overflow,
    {
        self.overflow
    }
}

} // verus!
