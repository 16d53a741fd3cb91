use vstd::prelude::*;
use crate::bits::{signed32, signed8, wrap32, wrapping_offset};
use crate::emulator::{Emulator, Machine};
use crate::errors::Error;
use crate::memory::{read32_at, write32_at};

verus! {

/// Where the `rm` operand of an instruction lives.
#[derive(Clone, Copy, Debug, PartialEq, Eq, Structural)]
pub enum Operand {
    /// The register with this index.
    Register(usize),
    /// The memory at this effective address.
    Memory(u32),
}

/// A decoded ModRM byte: its three fields and the resolved `rm` operand.
#[derive(Clone, Copy, Debug)]
pub struct Modrm {
    pub mode: u8,
    pub reg: u8,
    pub rm: u8,
    pub operand: Operand,
}

/// Bits 7 and 6 of a ModRM byte.
pub open spec fn mode_of(b: u8) -> u8 {
    b / 64
}

/// Bits 5 to 3 of a ModRM byte.
pub open spec fn reg_of(b: u8) -> u8 {
    (b / 8) % 8
}

/// Bits 2 to 0 of a ModRM byte.
pub open spec fn rm_of(b: u8) -> u8 {
    b % 8
}

/// Every register form, and every memory form that needs no SIB byte.
pub open spec fn supported(b: u8) -> bool {
    mode_of(b) == 3 || rm_of(b) != 4
}

/// The number of displacement bytes that follow the ModRM byte.
pub open spec fn disp_width(b: u8) -> int {
    if mode_of(b) == 1 {
        1
    } else if mode_of(b) == 2 || (mode_of(b) == 0 && rm_of(b) == 5) {
        4
    } else {
        0
    }
}

/// Whether the displacement of ModRM byte `b` can be fetched by a machine
/// that stands just behind that byte.
pub open spec fn disp_present(s: Machine, b: u8) -> bool {
    disp_width(b) == 0 || s.can_fetch(disp_width(b))
}

/// The `rm` operand of ModRM byte `b`, for a machine whose instruction
/// pointer stands just behind that byte: a register in mode 3; otherwise the
/// memory at the base register plus the signed displacement, modulo 2^32, or
/// at the bare 32-bit displacement in mode 0 with `rm` 5.
pub open spec fn operand_of(s: Machine, b: u8) -> Operand {
    let base = s.regs[rm_of(b) as int];
    if mode_of(b) == 3 {
        Operand::Register(rm_of(b) as usize)
    } else if mode_of(b) == 1 {
        Operand::Memory(wrap32(base + signed8(s.byte_at(0))))
    } else if mode_of(b) == 2 {
        Operand::Memory(wrap32(base + signed32(s.dword_at(0))))
    } else if rm_of(b) == 5 {
        Operand::Memory(s.dword_at(0))
    } else {
        Operand::Memory(base)
    }
}

/// The decoding of ModRM byte `b` for a machine that stands just behind it.
pub open spec fn decoded(s: Machine, b: u8) -> Modrm {
    Modrm { mode: mode_of(b), reg: reg_of(b), rm: rm_of(b), operand: operand_of(s, b) }
}

/// Whether `width` bytes of the operand can be read and written.
pub open spec fn accessible(s: Machine, op: Operand, width: int) -> bool {
    match op {
        Operand::Register(i) => true,
        Operand::Memory(a) => a + width <= s.mem.len(),
    }
}

/// The 32-bit value of the operand.
pub open spec fn load32(s: Machine, op: Operand) -> u32 {
    match op {
        Operand::Register(i) => s.regs[i as int],
        Operand::Memory(a) => read32_at(s.mem, a as int),
    }
}

/// The 8-bit value of the operand.
pub open spec fn load8(s: Machine, op: Operand) -> u8 {
    match op {
        Operand::Register(i) => s.reg8(i as int),
        Operand::Memory(a) => s.mem[a as int],
    }
}

/// The machine with `v` stored in the operand.
pub open spec fn store32(s: Machine, op: Operand, v: u32) -> Machine {
    match op {
        Operand::Register(i) => s.set_reg32(i as int, v),
        Operand::Memory(a) => Machine { mem: write32_at(s.mem, a as int, v), ..s },
    }
}

impl Modrm {
    /// All three fields in range, and a register operand named by `rm`.
    pub open spec fn wf(&self) -> bool {
        &&& self.mode < 4
        &&& self.reg < 8
        &&& self.rm < 8
        &&& match self.operand {
            Operand::Register(i) => i < 8,
            Operand::Memory(a) => true,
        }
    }

    /// Decodes the ModRM byte `v`, which was just fetched, and fetches the
    /// displacement that its mode asks for. A form with a SIB byte fails with
    /// `UnimplementedAddressingMode`, a missing displacement with
    /// `EndOfStream`; neither changes anything.
    pub fn new(v: u8, emu: &mut Emulator) -> (r: Result<Modrm, Error>)
        ensures
            !supported(v) ==> r == Err::<Modrm, Error>(Error::UnimplementedAddressingMode),
            supported(v) && !disp_present(old(emu)@, v) ==> r == Err::<Modrm, Error>(
                Error::EndOfStream,
            ),
            supported(v) && disp_present(old(emu)@, v) ==> r == Ok::<Modrm, Error>(
                decoded(old(emu)@, v),
            ),
            r is Ok ==> r->Ok_0.wf() && final(emu)@ == old(emu)@.advance(disp_width(v)) && old(
                emu,
            ).eip + disp_width(v) <= 0xFFFF_FFFF,
            r is Err ==> final(emu)@ == old(emu)@,
    {
        let mode: u8 = v / 64;
        let reg: u8 = (v / 8) % 8;
        let rm: u8 = v % 8;
        if mode == 3 {
            return Ok(Modrm { mode, reg, rm, operand: Operand::Register(rm as usize) });
        }
        if rm == 4 {
            return Err(Error::UnimplementedAddressingMode);
        }
        let base = emu.registers.get(rm as usize);
        let address = if mode == 1 {
            let d = emu.read_imm8s()?;
            wrapping_offset(base, d as i64)
        } else if mode == 2 {
            let d = emu.read_imm32s()?;
            wrapping_offset(base, d as i64)
        } else if rm == 5 {
            emu.read_imm32()?
        } else {
            base
        };
        Ok(Modrm { mode, reg, rm, operand: Operand::Memory(address) })
    }

    /// The 8-bit register that the `reg` field names.
    pub fn get_r8(&self, emu: &Emulator) -> (v: u8)
        requires
            self.wf(),
        ensures
            v == emu@.reg8(self.reg as int),
    {
        emu.get_register8(self.reg as usize)
    }

    /// The 32-bit register that the `reg` field names.
    pub fn get_r32(&self, emu: &Emulator) -> (v: u32)
        requires
            self.wf(),
        ensures
            v == emu@.regs[self.reg as int],
    {
        emu.registers.get(self.reg as usize)
    }

    /// Sets the 8-bit register that the `reg` field names.
    pub fn set_r8(&self, emu: &mut Emulator, value: u8)
        requires
            self.wf(),
        ensures
            final(emu)@ == old(emu)@.set_reg8(self.reg as int, value),
    {
        emu.set_register8(self.reg as usize, value);
    }

    /// Sets the 32-bit register that the `reg` field names.
    pub fn set_r32(&self, emu: &mut Emulator, value: u32)
        requires
            self.wf(),
        ensures
            final(emu)@ == old(emu)@.set_reg32(self.reg as int, value),
    {
        emu.registers.set(self.reg as usize, value);
    }

    /// The 8-bit value of the `rm` operand, or `OutOfBounds` where it lies
    /// beyond memory.
    pub fn get_rm8(&self, emu: &Emulator) -> (r: Result<u8, Error>)
        requires
            self.wf(),
        ensures
            r is Ok <==> accessible(emu@, self.operand, 1),
            r is Ok ==> r->Ok_0 == load8(emu@, self.operand),
            r is Err ==> r->Err_0 == Error::OutOfBounds,
    {
        match self.operand {
            Operand::Register(i) => Ok(emu.get_register8(i)),
            Operand::Memory(a) => emu.memory.read8(a),
        }
    }

    /// The 32-bit value of the `rm` operand, or `OutOfBounds` where it lies
    /// beyond memory.
    pub fn get_rm32(&self, emu: &Emulator) -> (r: Result<u32, Error>)
        requires
            self.wf(),
        ensures
            r is Ok <==> accessible(emu@, self.operand, 4),
            r is Ok ==> r->Ok_0 == load32(emu@, self.operand),
            r is Err ==> r->Err_0 == Error::OutOfBounds,
    {
        match self.operand {
            Operand::Register(i) => Ok(emu.registers.get(i)),
            Operand::Memory(a) => emu.memory.read32(a),
        }
    }

    /// Stores `value` in the `rm` operand, or fails with `OutOfBounds`,
    /// changing nothing, where it lies beyond memory.
    pub fn set_rm32(&self, emu: &mut Emulator, value: u32) -> (r: Result<(), Error>)
        requires
            self.wf(),
        ensures
            r is Ok <==> accessible(old(emu)@, self.operand, 4),
            r is Ok ==> final(emu)@ == store32(old(emu)@, self.operand, value),
            r is Err ==> r->Err_0 == Error::OutOfBounds && final(emu)@ == old(emu)@,
    {
        match self.operand {
            Operand::Register(i) => {
                emu.registers.set(i, value);
                Ok(())
            },
            Operand::Memory(a) => emu.memory.write32(a, value),
        }
    }
}

} // verus!
