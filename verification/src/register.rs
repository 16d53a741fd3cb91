use vstd::prelude::*;

verus! {

pub const REGISTERS_COUNT: usize = 8;

pub const EAX: usize = 0;
pub const ECX: usize = 1;
pub const EDX: usize = 2;
pub const EBX: usize = 3;
pub const ESP: usize = 4;
pub const EBP: usize = 5;
pub const ESI: usize = 6;
pub const EDI: usize = 7;

pub const AL: usize = EAX;
pub const CL: usize = ECX;
pub const DL: usize = EDX;
pub const BL: usize = EBX;

pub const AH: usize = AL + 4;
pub const CH: usize = CL + 4;
pub const DH: usize = DL + 4;
pub const BH: usize = BL + 4;

/// The eight 32-bit general-purpose registers, in encoding order.
pub struct Register {
    pub registers: [u32; 8],
}

impl View for Register {
    type V = Seq<u32>;

    open spec fn view(&self) -> Seq<u32> {
        self.registers@
    }
}

impl Register {
    /// A register file with every register zero.
    pub fn new() -> (r: Register)
        ensures
            r@ == Seq::new(8, |i: int| 0u32),
    {
        let r = Register { registers: [0u32; 8] };
        assert(r@ =~= Seq::new(8, |i: int| 0u32));
        r
    }

    /// The value of register `i`.
    pub fn get(&self, i: usize) -> (v: u32)
        requires
            i < 8,
        ensures
            v == self@[i as int],
    {
        self.registers[i]
    }

    /// Sets register `i` to `value` and leaves the other seven alone.
    pub fn set(&mut self, i: usize, value: u32)
        requires
            i < 8,
        ensures
            final(self)@ == old(self)@.update(i as int, value),
    {
        self.registers[i] = value;
    }
}

} // verus!
