use vstd::prelude::*;
use crate::bits::{byte_of, le32, lemma_le32_of_bytes, signed32, signed8, to_signed32, to_signed8, wrap32, wrapping_offset};
use crate::errors::Error;
use crate::flags::{compare32, compare8, flags_after_sub, Flags};
use crate::io::Ports;
use crate::memory::{read16_at, read32_at, write32_at, Memory};
use crate::register::Register;

verus! {

/// The whole processor state as plain mathematical values.
pub struct Machine {
    pub regs: Seq<u32>,
    pub flags: Flags,
    pub mem: Seq<u8>,
    pub eip: u32,
    pub input: Seq<u8>,
    pub output: Seq<u8>,
}

impl Machine {
    /// Eight registers, and a memory that 32-bit addresses can reach.
    pub open spec fn wf(self) -> bool {
        self.regs.len() == 8 && self.mem.len() <= 0xFFFF_FFFF
    }

    /// The 8-bit register `i`: the low byte of register `i` for `i < 4`,
    /// the second byte of register `i - 4` otherwise.
    pub open spec fn reg8(self, i: int) -> u8 {
        if i < 4 {
            byte_of(self.regs[i], 0)
        } else {
            byte_of(self.regs[i - 4], 1)
        }
    }

    pub open spec fn set_reg32(self, i: int, v: u32) -> Machine {
        Machine { regs: self.regs.update(i, v), ..self }
    }

    /// Replaces the one byte that the 8-bit register `i` names.
    pub open spec fn set_reg8(self, i: int, v: u8) -> Machine {
        if i < 4 {
            let r = self.regs[i];
            self.set_reg32(i, le32(v, byte_of(r, 1), byte_of(r, 2), byte_of(r, 3)))
        } else {
            let r = self.regs[i - 4];
            self.set_reg32(i - 4, le32(byte_of(r, 0), v, byte_of(r, 2), byte_of(r, 3)))
        }
    }

    pub open spec fn set_eip(self, eip: u32) -> Machine {
        Machine { eip, ..self }
    }

    pub open spec fn set_flags(self, flags: Flags) -> Machine {
        Machine { flags, ..self }
    }

    /// The instruction pointer moved forward over `n` fetched bytes.
    pub open spec fn advance(self, n: int) -> Machine {
        self.set_eip((self.eip + n) as u32)
    }

    /// The instruction pointer moved by a signed displacement, modulo 2^32.
    pub open spec fn jump(self, displacement: int) -> Machine {
        self.set_eip(wrap32(self.eip + displacement))
    }

    /// Whether `n` bytes can be fetched at the instruction pointer.
    pub open spec fn can_fetch(self, n: int) -> bool {
        self.eip + n <= self.mem.len()
    }

    /// The byte `off` bytes beyond the instruction pointer.
    pub open spec fn byte_at(self, off: int) -> u8 {
        self.mem[self.eip + off]
    }

    /// The little-endian double word `off` bytes beyond the instruction pointer.
    pub open spec fn dword_at(self, off: int) -> u32 {
        read32_at(self.mem, self.eip + off)
    }

    pub open spec fn esp(self) -> u32 {
        self.regs[4]
    }

    /// Whether the double word below the stack pointer lies in memory.
    pub open spec fn can_push(self) -> bool {
        wrap32(self.esp() - 4) + 4 <= self.mem.len()
    }

    /// The stack pointer lowered by four and `v` stored where it then points.
    pub open spec fn push(self, v: u32) -> Machine {
        let sp = wrap32(self.esp() - 4);
        Machine { regs: self.regs.update(4, sp), mem: write32_at(self.mem, sp as int, v), ..self }
    }

    /// Whether the double word at the stack pointer lies in memory.
    pub open spec fn can_pop(self) -> bool {
        self.esp() + 4 <= self.mem.len()
    }

    /// The double word at the stack pointer.
    pub open spec fn top(self) -> u32 {
        read32_at(self.mem, self.esp() as int)
    }

    /// The stack pointer raised by four.
    pub open spec fn pop(self) -> Machine {
        self.set_reg32(4, wrap32(self.esp() + 4))
    }
}

/// How a handler's result and the state it leaves relate to the outcome that
/// the instruction has on `before`: on success the state is the expected one;
/// on failure the error is the expected one and nothing but the instruction
/// pointer has changed.
pub open spec fn agrees(
    r: Result<(), Error>,
    before: Machine,
    after: Machine,
    expected: Result<Machine, Error>,
) -> bool {
    match r {
        Ok(()) => expected == Ok::<Machine, Error>(after),
        Err(e) => expected == Err::<Machine, Error>(e) && after == before.set_eip(after.eip),
    }
}

/// The processor: registers, flags, memory, instruction pointer and ports.
pub struct Emulator {
    pub registers: Register,
    pub flags: Flags,
    pub memory: Memory,
    pub eip: u32,
    pub ports: Ports,
}

impl View for Emulator {
    type V = Machine;

    open spec fn view(&self) -> Machine {
        Machine {
            regs: self.registers@,
            flags: self.flags,
            mem: self.memory@,
            eip: self.eip,
            input: self.ports.input@,
            output: self.ports.output@,
        }
    }
}

impl Emulator {
    /// A processor over `memory` with all registers zero but the stack
    /// pointer, all flags clear, and nothing waiting at or written to a port.
    pub fn new(memory: Memory, eip: u32, esp: u32) -> (emu: Emulator)
        ensures
            emu@.regs == Seq::new(8, |i: int| 0u32).update(4, esp),
            emu@.flags == (Flags { carry: false, zero: false, sign: false, overflow: false }),
            emu@.mem == memory@,
            emu@.eip == eip,
            emu@.input == Seq::<u8>::empty(),
            emu@.output == Seq::<u8>::empty(),
            emu@.wf(),
    {
        let mut registers = Register::new();
        registers.set(4, esp);
        let _ = memory.len();
        Emulator { registers, flags: Flags::new(), memory, eip, ports: Ports::new() }
    }

    /// The 32-bit register `i`, or `InvalidRegister` for an index beyond 7.
    pub fn get_register32(&self, i: usize) -> (r: Result<u32, Error>)
        ensures
            r is Ok <==> i < 8,
            r is Ok ==> r->Ok_0 == self@.regs[i as int],
            r is Err ==> r->Err_0 == Error::InvalidRegister,
    {
        if i < 8 {
            Ok(self.registers.get(i))
        } else {
            Err(Error::InvalidRegister)
        }
    }

    /// Sets the 32-bit register `i`, or fails with `InvalidRegister` and
    /// changes nothing for an index beyond 7.
    pub fn set_register32(&mut self, i: usize, value: u32) -> (r: Result<(), Error>)
        ensures
            r is Ok <==> i < 8,
            r is Ok ==> final(self)@ == old(self)@.set_reg32(i as int, value),
            r is Err ==> r->Err_0 == Error::InvalidRegister && final(self)@ == old(self)@,
    {
        if i < 8 {
            self.registers.set(i, value);
            Ok(())
        } else {
            Err(Error::InvalidRegister)
        }
    }

    /// The 8-bit register `i`: AL, CL, DL, BL, AH, CH, DH, BH in this order.
    pub fn get_register8(&self, i: usize) -> (v: u8)
        requires
            i < 8,
        ensures
            v == self@.reg8(i as int),
    {
        if i < 4 {
            (self.registers.get(i) % 0x100) as u8
        } else {
            ((self.registers.get(i - 4) / 0x100) % 0x100) as u8
        }
    }

    /// Sets the 8-bit register `i`; the other three bytes of the 32-bit
    /// register that holds it stay as they are.
    pub fn set_register8(&mut self, i: usize, value: u8)
        requires
            i < 8,
        ensures
            final(self)@ == old(self)@.set_reg8(i as int, value),
    {
        if i < 4 {
            let r = self.registers.get(i);
            proof {
                lemma_le32_of_bytes(r);
            }
            self.registers.set(i, r - (r % 0x100) + value as u32);
        } else {
            let r = self.registers.get(i - 4);
            proof {
                lemma_le32_of_bytes(r);
            }
            self.registers.set(i - 4, r - ((r / 0x100) % 0x100) * 0x100 + value as u32 * 0x100);
        }
    }

    /// Fetches the byte at the instruction pointer and steps over it.
    pub fn read_imm8(&mut self) -> (r: Result<u8, Error>)
        ensures
            r is Ok <==> old(self)@.can_fetch(1),
            r is Ok ==> r->Ok_0 == old(self)@.byte_at(0) && final(self)@ == old(self)@.advance(1)
                && old(self).eip + 1 <= 0xFFFF_FFFF,
            r is Err ==> r->Err_0 == Error::EndOfStream && final(self)@ == old(self)@,
    {
        let _ = self.memory.len();
        match self.memory.read8(self.eip) {
            Ok(v) => {
                self.eip = self.eip + 1;
                Ok(v)
            },
            Err(_) => Err(Error::EndOfStream),
        }
    }

    /// Fetches the little-endian word at the instruction pointer and steps over it.
    pub fn read_imm16(&mut self) -> (r: Result<u16, Error>)
        ensures
            r is Ok <==> old(self)@.can_fetch(2),
            r is Ok ==> r->Ok_0 == read16_at(old(self)@.mem, old(self).eip as int) && final(self)@
                == old(self)@.advance(2) && old(self).eip + 2 <= 0xFFFF_FFFF,
            r is Err ==> r->Err_0 == Error::EndOfStream && final(self)@ == old(self)@,
    {
        let _ = self.memory.len();
        match self.memory.read16(self.eip) {
            Ok(v) => {
                self.eip = self.eip + 2;
                Ok(v)
            },
            Err(_) => Err(Error::EndOfStream),
        }
    }

    /// Fetches the little-endian double word at the instruction pointer and
    /// steps over it.
    pub fn read_imm32(&mut self) -> (r: Result<u32, Error>)
        ensures
            r is Ok <==> old(self)@.can_fetch(4),
            r is Ok ==> r->Ok_0 == old(self)@.dword_at(0) && final(self)@ == old(self)@.advance(4)
                && old(self).eip + 4 <= 0xFFFF_FFFF,
            r is Err ==> r->Err_0 == Error::EndOfStream && final(self)@ == old(self)@,
    {
        let _ = self.memory.len();
        match self.memory.read32(self.eip) {
            Ok(v) => {
                self.eip = self.eip + 4;
                Ok(v)
            },
            Err(_) => Err(Error::EndOfStream),
        }
    }

    /// Fetches one byte as a signed number.
    pub fn read_imm8s(&mut self) -> (r: Result<i8, Error>)
        ensures
            r is Ok <==> old(self)@.can_fetch(1),
            r is Ok ==> r->Ok_0 == signed8(old(self)@.byte_at(0)) && final(self)@ == old(
                self,
            )@.advance(1) && old(self).eip + 1 <= 0xFFFF_FFFF,
            r is Err ==> r->Err_0 == Error::EndOfStream && final(self)@ == old(self)@,
    {
        match self.read_imm8() {
            Ok(v) => Ok(to_signed8(v)),
            Err(e) => Err(e),
        }
    }

    /// Fetches one double word as a signed number.
    pub fn read_imm32s(&mut self) -> (r: Result<i32, Error>)
        ensures
            r is Ok <==> old(self)@.can_fetch(4),
            r is Ok ==> r->Ok_0 == signed32(old(self)@.dword_at(0)) && final(self)@ == old(
                self,
            )@.advance(4) && old(self).eip + 4 <= 0xFFFF_FFFF,
            r is Err ==> r->Err_0 == Error::EndOfStream && final(self)@ == old(self)@,
    {
        match self.read_imm32() {
            Ok(v) => Ok(to_signed32(v)),
            Err(e) => Err(e),
        }
    }

    /// Moves the instruction pointer by a signed displacement, modulo 2^32.
    pub fn jump(&mut self, displacement: i32)
        ensures
            final(self)@ == old(self)@.jump(displacement as int),
    {
        self.eip = wrapping_offset(self.eip, displacement as i64);
    }

    /// Lowers the stack pointer by four and stores `value` there. Fails with
    /// `OutOfBounds`, changing nothing, where that double word is not in memory.
    pub fn push32(&mut self, value: u32) -> (r: Result<(), Error>)
        ensures
            r is Ok <==> old(self)@.can_push(),
            r is Ok ==> final(self)@ == old(self)@.push(value),
            r is Err ==> r->Err_0 == Error::OutOfBounds && final(self)@ == old(self)@,
    {
        let sp = wrapping_offset(self.registers.get(4), -4);
        match self.memory.write32(sp, value) {
            Ok(()) => {
                self.registers.set(4, sp);
                Ok(())
            },
            Err(e) => Err(e),
        }
    }

    /// Reads the double word at the stack pointer and raises the stack
    /// pointer by four. Fails with `OutOfBounds`, changing nothing, where that
    /// double word is not in memory.
    pub fn pop32(&mut self) -> (r: Result<u32, Error>)
        ensures
            r is Ok <==> old(self)@.can_pop(),
            r is Ok ==> r->Ok_0 == old(self)@.top() && final(self)@ == old(self)@.pop(),
            r is Err ==> r->Err_0 == Error::OutOfBounds && final(self)@ == old(self)@,
    {
        let sp = self.registers.get(4);
        match self.memory.read32(sp) {
            Ok(v) => {
                self.registers.set(4, wrapping_offset(sp, 4));
                Ok(v)
            },
            Err(e) => Err(e),
        }
    }

    /// Sets the flags as the subtraction `operand1 - operand2` leaves them,
    /// `result` holding the difference in its low 32 bits.
    pub fn update_eflag_sub(&mut self, operand1: u32, operand2: u32, result: u64)
        ensures
            final(self)@ == old(self)@.set_flags(flags_after_sub(operand1, operand2, result)),
    {
        self.flags.update_from_subtraction(operand1, operand2, result);
    }

    /// Sets the flags as comparing the double words `a` and `b` leaves them.
    pub fn update_eflag_sub32(&mut self, a: u32, b: u32)
        ensures
            final(self)@ == old(self)@.set_flags(compare32(a, b)),
    {
        let diff = wrapping_offset(a, -(b as i64));
        self.update_eflag_sub(a, b, diff as u64);
    }

    /// Sets the flags as comparing the bytes `a` and `b` leaves them. The
    /// bytes are moved to the top of a double word, so that the 32-bit rule
    /// sees their sign bits and their borrow.
    pub fn update_eflag_sub8(&mut self, a: u8, b: u8)
        ensures
            final(self)@ == old(self)@.set_flags(compare8(a, b)),
    {
        let wide1: u32 = a as u32 * 0x100_0000;
        let wide2: u32 = b as u32 * 0x100_0000;
        let diff: u32 = if a >= b {
            (a - b) as u32
        } else {
            a as u32 + 0x100 - b as u32
        };
        assert(diff == (a - b) % 0x100);
        let result: u64 = diff as u64 * 0x100_0000;
        assert((result / 0x8000_0000) % 2 == 1 <==> diff >= 0x80);
        assert(result % 0x1_0000_0000 == 0 <==> diff == 0);
        self.update_eflag_sub(wide1, wide2, result);
    }

    pub fn is_set_cf(&self) -> (b: bool)
        ensures
            b == self@.flags.carry,
    {
        self.flags.is_carry()
    }

    pub fn is_set_zf(&self) -> (b: bool)
        ensures
            b == self@.flags.zero,
    {
        self.flags.is_zero()
    }

    pub fn is_set_sf(&self) -> (b: bool)
        ensures
            b == self@.flags.sign,
    {
        self.flags.is_sign()
    }

    pub fn is_set_of(&self) -> (b: bool)
        ensures
            b == self@.flags.overflow,
    {
        self.flags.is_overflow()
    }
}

} // verus!
