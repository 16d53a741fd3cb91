use vstd::prelude::*;
use crate::bios::{video, video_outcome};
use crate::bits::{extend8, sign_extend8, signed32, signed8, wrap32, wrapping_offset};
use crate::emulator::{agrees, Emulator, Machine};
use crate::errors::Error;
use crate::flags::{compare32, compare8};
use crate::io::{in8_rest, in8_value, io_in8, io_out8, SERIAL_PORT};
use crate::modrm::{accessible, decoded, disp_width, load32, load8, store32, supported, Modrm};

verus! {

/// The interrupt vector of the video service.
pub const VIDEO_VECTOR: u8 = 0x10;

/// Why the ModRM byte behind the opcode at the instruction pointer cannot
/// be decoded, if it cannot: a byte of the encoding is missing, or the byte
/// asks for an addressing form that is not supported.
pub open spec fn modrm_error(s: Machine) -> Option<Error> {
    if !s.can_fetch(2) {
        Some(Error::EndOfStream)
    } else if !supported(s.byte_at(1)) {
        Some(Error::UnimplementedAddressingMode)
    } else if !s.can_fetch(2 + disp_width(s.byte_at(1))) {
        Some(Error::EndOfStream)
    } else {
        None
    }
}

/// The decoded ModRM byte behind the opcode at the instruction pointer.
pub open spec fn modrm_at(s: Machine) -> Modrm {
    decoded(s.advance(2), s.byte_at(1))
}

/// The machine with the instruction pointer behind opcode, ModRM byte
/// and displacement.
pub open spec fn behind_modrm(s: Machine) -> Machine {
    s.advance(2 + disp_width(s.byte_at(1)))
}

/// The 32-bit register that the `reg` field of `m` names.
pub open spec fn r32(s: Machine, m: Modrm) -> u32 {
    s.regs[m.reg as int]
}

/// The register index that an opcode in `base .. base + 8` encodes.
pub open spec fn embedded_register(opcode: u8, base: u8) -> Option<int> {
    if base <= opcode && opcode - base < 8 {
        Some(opcode - base)
    } else {
        None
    }
}

/// The port that DX names.
pub open spec fn dx_port(s: Machine) -> u16 {
    (s.regs[2] % 0x1_0000) as u16
}

/// Fetches the opcode and the ModRM byte behind it, and decodes the latter.
pub fn fetch_modrm(emu: &mut Emulator) -> (r: Result<Modrm, Error>)
    ensures
        match r {
            Ok(m) => modrm_error(old(emu)@) is None && m == modrm_at(old(emu)@) && m.wf()
                && final(emu)@ == behind_modrm(old(emu)@),
            Err(e) => modrm_error(old(emu)@) == Some(e) && final(emu)@ == old(emu)@.set_eip(
                final(emu).eip,
            ),
        },
{
    let _ = emu.read_imm8()?;
    let v = emu.read_imm8()?;
    Modrm::new(v, emu)
}

/// Reads the opcode and the register index that it encodes above `base`.
pub fn fetch_register(emu: &mut Emulator, base: u8) -> (r: Result<usize, Error>)
    ensures
        match r {
            Ok(i) => old(emu)@.can_fetch(1) && embedded_register(old(emu)@.byte_at(0), base)
                == Some(i as int) && i < 8 && final(emu)@ == old(emu)@.advance(1) && old(
                emu,
            ).eip + 1 <= 0xFFFF_FFFF,
            Err(e) => final(emu)@ == old(emu)@.set_eip(final(emu).eip) && if !old(
                emu,
            )@.can_fetch(1) {
                e == Error::EndOfStream
            } else {
                e == Error::InvalidRegister && embedded_register(old(emu)@.byte_at(0), base)
                    is None
            },
        },
{
    let opcode = emu.read_imm8()?;
    if opcode >= base && opcode - base < 8 {
        Ok((opcode - base) as usize)
    } else {
        Err(Error::InvalidRegister)
    }
}

/// `jmp rel32`: the instruction pointer moves behind the five bytes of the
/// instruction and then by the signed displacement.
pub open spec fn jmp_rel32_outcome(s: Machine) -> Result<Machine, Error> {
    if !s.can_fetch(5) {
        Err(Error::EndOfStream)
    } else {
        Ok(s.advance(5).jump(signed32(s.dword_at(1))))
    }
}

/// Executes `jmp rel32` at the instruction pointer.
pub fn jmp_rel32(emu: &mut Emulator) -> (r: Result<(), Error>)
    ensures
        agrees(r, old(emu)@, final(emu)@, jmp_rel32_outcome(old(emu)@)),
{
    let _ = emu.read_imm8()?;
    let n = emu.read_imm32s()?;
    emu.jump(n);
    Ok(())
}

/// A two-byte conditional jump: behind the instruction, and on by the
/// signed 8-bit displacement where the condition holds.
pub open spec fn branch_outcome(s: Machine, taken: bool) -> Result<Machine, Error> {
    if !s.can_fetch(2) {
        Err(Error::EndOfStream)
    } else if taken {
        Ok(s.advance(2).jump(signed8(s.byte_at(1))))
    } else {
        Ok(s.advance(2))
    }
}

/// The condition of `jle`: signed less or equal.
pub open spec fn less_or_equal(s: Machine) -> bool {
    s.flags.zero || s.flags.sign != s.flags.overflow
}

fn branch(emu: &mut Emulator, taken: bool) -> (r: Result<(), Error>)
    ensures
        agrees(r, old(emu)@, final(emu)@, branch_outcome(old(emu)@, taken)),
{
    let _ = emu.read_imm8()?;
    let v = emu.read_imm8s()?;
    if taken {
        emu.jump(v as i32);
    }
    Ok(())
}

/// `js rel8`: jumps where the sign flag is set.
pub fn js(emu: &mut Emulator) -> (r: Result<(), Error>)
    ensures
        agrees(r, old(emu)@, final(emu)@, branch_outcome(old(emu)@, old(emu)@.flags.sign)),
{
    let taken = emu.is_set_sf();
    branch(emu, taken)
}

/// `jz rel8`: jumps where the zero flag is set.
pub fn jz(emu: &mut Emulator) -> (r: Result<(), Error>)
    ensures
        agrees(r, old(emu)@, final(emu)@, branch_outcome(old(emu)@, old(emu)@.flags.zero)),
{
    let taken = emu.is_set_zf();
    branch(emu, taken)
}

/// `jle rel8`: jumps where the zero flag is set or sign and overflow differ.
pub fn jle(emu: &mut Emulator) -> (r: Result<(), Error>)
    ensures
        agrees(r, old(emu)@, final(emu)@, branch_outcome(old(emu)@, less_or_equal(old(emu)@))),
{
    let taken = emu.is_set_zf() || (emu.is_set_sf() != emu.is_set_of());
    branch(emu, taken)
}

/// `cmp AL, imm8`: the flags of AL minus the immediate; nothing else changes.
pub open spec fn cmp_al_imm8_outcome(s: Machine) -> Result<Machine, Error> {
    if !s.can_fetch(2) {
        Err(Error::EndOfStream)
    } else {
        Ok(s.advance(2).set_flags(compare8(s.reg8(0), s.byte_at(1))))
    }
}

/// Executes `cmp AL, imm8` at the instruction pointer.
pub fn cmp_al_imm8(emu: &mut Emulator) -> (r: Result<(), Error>)
    ensures
        agrees(r, old(emu)@, final(emu)@, cmp_al_imm8_outcome(old(emu)@)),
{
    let _ = emu.read_imm8()?;
    let al = emu.get_register8(0);
    let v = emu.read_imm8()?;
    emu.update_eflag_sub8(al, v);
    Ok(())
}

/// `cmp r32, rm32`: the flags of the register minus the operand.
pub open spec fn cmp_r32_rm32_outcome(s: Machine) -> Result<Machine, Error> {
    let m = modrm_at(s);
    let t = behind_modrm(s);
    match modrm_error(s) {
        Some(e) => Err(e),
        None => if !accessible(t, m.operand, 4) {
            Err(Error::OutOfBounds)
        } else {
            Ok(t.set_flags(compare32(r32(t, m), load32(t, m.operand))))
        },
    }
}

/// Executes `cmp r32, rm32` at the instruction pointer.
pub fn cmp_r32_rm32(emu: &mut Emulator) -> (r: Result<(), Error>)
    ensures
        agrees(r, old(emu)@, final(emu)@, cmp_r32_rm32_outcome(old(emu)@)),
{
    let m = fetch_modrm(emu)?;
    let r = m.get_r32(emu);
    let rm = m.get_rm32(emu)?;
    emu.update_eflag_sub32(r, rm);
    Ok(())
}

/// `add rm32, r32`: the operand becomes the sum modulo 2^32; the flags stay.
pub open spec fn add_rm32_r32_outcome(s: Machine) -> Result<Machine, Error> {
    let m = modrm_at(s);
    let t = behind_modrm(s);
    match modrm_error(s) {
        Some(e) => Err(e),
        None => if !accessible(t, m.operand, 4) {
            Err(Error::OutOfBounds)
        } else {
            Ok(store32(t, m.operand, wrap32(load32(t, m.operand) + r32(t, m))))
        },
    }
}

/// Executes `add rm32, r32` at the instruction pointer.
pub fn add_rm32_r32(emu: &mut Emulator) -> (r: Result<(), Error>)
    ensures
        agrees(r, old(emu)@, final(emu)@, add_rm32_r32_outcome(old(emu)@)),
{
    let m = fetch_modrm(emu)?;
    let rm = m.get_rm32(emu)?;
    let reg = m.get_r32(emu);
    m.set_rm32(emu, wrapping_offset(rm, reg as i64))
}

/// `cmp rm32, imm8` behind its ModRM byte: the flags of the operand minus the
/// sign-extended immediate.
pub open spec fn cmp_rm32_imm8_outcome(s: Machine, m: Modrm) -> Result<Machine, Error> {
    if !accessible(s, m.operand, 4) {
        Err(Error::OutOfBounds)
    } else if !s.can_fetch(1) {
        Err(Error::EndOfStream)
    } else {
        Ok(s.advance(1).set_flags(compare32(load32(s, m.operand), extend8(s.byte_at(0)))))
    }
}

/// Executes `cmp rm32, imm8`, its ModRM byte already decoded.
pub fn cmp_rm32_imm8(emu: &mut Emulator, modrm: Modrm) -> (r: Result<(), Error>)
    requires
        modrm.wf(),
    ensures
        agrees(r, old(emu)@, final(emu)@, cmp_rm32_imm8_outcome(old(emu)@, modrm)),
{
    let rm = modrm.get_rm32(emu)?;
    let imm = emu.read_imm8s()?;
    emu.update_eflag_sub32(rm, sign_extend8(imm));
    Ok(())
}

/// `add rm32, imm8` behind its ModRM byte: the operand plus the sign-extended
/// immediate, modulo 2^32.
pub open spec fn add_rm32_imm8_outcome(s: Machine, m: Modrm) -> Result<Machine, Error> {
    if !accessible(s, m.operand, 4) {
        Err(Error::OutOfBounds)
    } else if !s.can_fetch(1) {
        Err(Error::EndOfStream)
    } else {
        Ok(
            store32(
                s.advance(1),
                m.operand,
                wrap32(load32(s, m.operand) + signed8(s.byte_at(0))),
            ),
        )
    }
}

/// Executes `add rm32, imm8`, its ModRM byte already decoded.
pub fn add_rm32_imm8(emu: &mut Emulator, modrm: Modrm) -> (r: Result<(), Error>)
    requires
        modrm.wf(),
    ensures
        agrees(r, old(emu)@, final(emu)@, add_rm32_imm8_outcome(old(emu)@, modrm)),
{
    let rm = modrm.get_rm32(emu)?;
    let imm = emu.read_imm8s()?;
    modrm.set_rm32(emu, wrapping_offset(rm, imm as i64))
}

/// `sub rm32, imm8` behind its ModRM byte: the operand minus the
/// sign-extended immediate. The difference is taken modulo 2^32, as the sums
/// are: a result below zero wraps round.
pub open spec fn sub_rm32_imm8_outcome(s: Machine, m: Modrm) -> Result<Machine, Error> {
    if !accessible(s, m.operand, 4) {
        Err(Error::OutOfBounds)
    } else if !s.can_fetch(1) {
        Err(Error::EndOfStream)
    } else {
        Ok(
            store32(
                s.advance(1),
                m.operand,
                wrap32(load32(s, m.operand) - signed8(s.byte_at(0))),
            ),
        )
    }
}

/// Executes `sub rm32, imm8`, its ModRM byte already decoded.
pub fn sub_rm32_imm8(emu: &mut Emulator, modrm: Modrm) -> (r: Result<(), Error>)
    requires
        modrm.wf(),
    ensures
        agrees(r, old(emu)@, final(emu)@, sub_rm32_imm8_outcome(old(emu)@, modrm)),
{
    let rm = modrm.get_rm32(emu)?;
    let imm = emu.read_imm8s()?;
    modrm.set_rm32(emu, wrapping_offset(rm, -(imm as i64)))
}

/// The group of opcode 0x83: `reg` 0 adds, 5 subtracts, 7 compares; any
/// other value is not an instruction.
pub open spec fn opcode_83_outcome(s: Machine) -> Result<Machine, Error> {
    let m = modrm_at(s);
    let t = behind_modrm(s);
    match modrm_error(s) {
        Some(e) => Err(e),
        None => if m.reg == 0 {
            add_rm32_imm8_outcome(t, m)
        } else if m.reg == 5 {
            sub_rm32_imm8_outcome(t, m)
        } else if m.reg == 7 {
            cmp_rm32_imm8_outcome(t, m)
        } else {
            Err(Error::UnimplementedOpcode)
        },
    }
}

/// Executes the instruction that the group 0x83 selects at the instruction pointer.
pub fn opcode_83(emu: &mut Emulator) -> (r: Result<(), Error>)
    ensures
        agrees(r, old(emu)@, final(emu)@, opcode_83_outcome(old(emu)@)),
{
    let m = fetch_modrm(emu)?;
    match m.reg {
        0 => add_rm32_imm8(emu, m),
        5 => sub_rm32_imm8(emu, m),
        7 => cmp_rm32_imm8(emu, m),
        _ => Err(Error::UnimplementedOpcode),
    }
}

/// `mov rm32, r32`: the operand becomes the register.
pub open spec fn mov_rm32_r32_outcome(s: Machine) -> Result<Machine, Error> {
    let m = modrm_at(s);
    let t = behind_modrm(s);
    match modrm_error(s) {
        Some(e) => Err(e),
        None => if !accessible(t, m.operand, 4) {
            Err(Error::OutOfBounds)
        } else {
            Ok(store32(t, m.operand, r32(t, m)))
        },
    }
}

/// Executes `mov rm32, r32` at the instruction pointer.
pub fn mov_rm32_r32(emu: &mut Emulator) -> (r: Result<(), Error>)
    ensures
        agrees(r, old(emu)@, final(emu)@, mov_rm32_r32_outcome(old(emu)@)),
{
    let m = fetch_modrm(emu)?;
    let reg = m.get_r32(emu);
    m.set_rm32(emu, reg)
}

/// `mov r8, rm8`: the 8-bit register becomes the 8-bit operand.
pub open spec fn mov_r8_rm8_outcome(s: Machine) -> Result<Machine, Error> {
    let m = modrm_at(s);
    let t = behind_modrm(s);
    match modrm_error(s) {
        Some(e) => Err(e),
        None => if !accessible(t, m.operand, 1) {
            Err(Error::OutOfBounds)
        } else {
            Ok(t.set_reg8(m.reg as int, load8(t, m.operand)))
        },
    }
}

/// Executes `mov r8, rm8` at the instruction pointer.
pub fn mov_r8_rm8(emu: &mut Emulator) -> (r: Result<(), Error>)
    ensures
        agrees(r, old(emu)@, final(emu)@, mov_r8_rm8_outcome(old(emu)@)),
{
    let m = fetch_modrm(emu)?;
    let rm = m.get_rm8(emu)?;
    m.set_r8(emu, rm);
    Ok(())
}

/// `mov r32, rm32`: the register becomes the operand.
pub open spec fn mov_r32_rm32_outcome(s: Machine) -> Result<Machine, Error> {
    let m = modrm_at(s);
    let t = behind_modrm(s);
    match modrm_error(s) {
        Some(e) => Err(e),
        None => if !accessible(t, m.operand, 4) {
            Err(Error::OutOfBounds)
        } else {
            Ok(t.set_reg32(m.reg as int, load32(t, m.operand)))
        },
    }
}

/// Executes `mov r32, rm32` at the instruction pointer.
pub fn mov_r32_rm32(emu: &mut Emulator) -> (r: Result<(), Error>)
    ensures
        agrees(r, old(emu)@, final(emu)@, mov_r32_rm32_outcome(old(emu)@)),
{
    let m = fetch_modrm(emu)?;
    let rm = m.get_rm32(emu)?;
    m.set_r32(emu, rm);
    Ok(())
}

/// `mov rm32, imm32`: the operand becomes the double word behind the
/// ModRM encoding.
pub open spec fn mov_rm32_imm32_outcome(s: Machine) -> Result<Machine, Error> {
    let m = modrm_at(s);
    let t = behind_modrm(s);
    match modrm_error(s) {
        Some(e) => Err(e),
        None => if !t.can_fetch(4) {
            Err(Error::EndOfStream)
        } else if !accessible(t, m.operand, 4) {
            Err(Error::OutOfBounds)
        } else {
            Ok(store32(t.advance(4), m.operand, t.dword_at(0)))
        },
    }
}

/// Executes `mov rm32, imm32` at the instruction pointer.
pub fn mov_rm32_imm32(emu: &mut Emulator) -> (r: Result<(), Error>)
    ensures
        agrees(r, old(emu)@, final(emu)@, mov_rm32_imm32_outcome(old(emu)@)),
{
    let m = fetch_modrm(emu)?;
    let imm = emu.read_imm32()?;
    m.set_rm32(emu, imm)
}

/// `mov r8, imm8`: the 8-bit register that the opcode encodes above 0xB0
/// becomes the immediate.
pub open spec fn mov_r8_imm8_outcome(s: Machine) -> Result<Machine, Error> {
    if !s.can_fetch(1) {
        Err(Error::EndOfStream)
    } else {
        match embedded_register(s.byte_at(0), 0xB0) {
            None => Err(Error::InvalidRegister),
            Some(i) => if !s.can_fetch(2) {
                Err(Error::EndOfStream)
            } else {
                Ok(s.advance(2).set_reg8(i, s.byte_at(1)))
            },
        }
    }
}

/// Executes `mov r8, imm8` at the instruction pointer.
pub fn mov_r8_imm8(emu: &mut Emulator) -> (r: Result<(), Error>)
    ensures
        agrees(r, old(emu)@, final(emu)@, mov_r8_imm8_outcome(old(emu)@)),
{
    let reg = fetch_register(emu, 0xB0)?;
    let imm = emu.read_imm8()?;
    emu.set_register8(reg, imm);
    Ok(())
}

/// `mov r32, imm32`: the register that the opcode encodes above 0xB8 becomes
/// the immediate.
pub open spec fn mov_r32_imm32_outcome(s: Machine) -> Result<Machine, Error> {
    if !s.can_fetch(1) {
        Err(Error::EndOfStream)
    } else {
        match embedded_register(s.byte_at(0), 0xB8) {
            None => Err(Error::InvalidRegister),
            Some(i) => if !s.can_fetch(5) {
                Err(Error::EndOfStream)
            } else {
                Ok(s.advance(5).set_reg32(i, s.dword_at(1)))
            },
        }
    }
}

/// Executes `mov r32, imm32` at the instruction pointer.
pub fn mov_r32_imm32(emu: &mut Emulator) -> (r: Result<(), Error>)
    ensures
        agrees(r, old(emu)@, final(emu)@, mov_r32_imm32_outcome(old(emu)@)),
{
    let reg = fetch_register(emu, 0xB8)?;
    let value = emu.read_imm32()?;
    emu.set_register32(reg, value)
}

/// `inc rm32` behind its ModRM byte: the operand plus one, modulo 2^32; the
/// flags stay.
pub open spec fn inc_rm32_outcome(s: Machine, m: Modrm) -> Result<Machine, Error> {
    if !accessible(s, m.operand, 4) {
        Err(Error::OutOfBounds)
    } else {
        Ok(store32(s, m.operand, wrap32(load32(s, m.operand) + 1)))
    }
}

/// Executes `inc rm32`, its ModRM byte already decoded.
pub fn inc_rm32(emu: &mut Emulator, modrm: Modrm) -> (r: Result<(), Error>)
    requires
        modrm.wf(),
    ensures
        agrees(r, old(emu)@, final(emu)@, inc_rm32_outcome(old(emu)@, modrm)),
{
    let rm = modrm.get_rm32(emu)?;
    modrm.set_rm32(emu, wrapping_offset(rm, 1))
}

/// The group of opcode 0xFF: `reg` 0 increments; any other value is not an
/// instruction.
pub open spec fn code_ff_outcome(s: Machine) -> Result<Machine, Error> {
    match modrm_error(s) {
        Some(e) => Err(e),
        None => if modrm_at(s).reg == 0 {
            inc_rm32_outcome(behind_modrm(s), modrm_at(s))
        } else {
            Err(Error::UnimplementedOpcode)
        },
    }
}

/// Executes the instruction that the group 0xFF selects at the instruction pointer.
pub fn code_ff(emu: &mut Emulator) -> (r: Result<(), Error>)
    ensures
        agrees(r, old(emu)@, final(emu)@, code_ff_outcome(old(emu)@)),
{
    let m = fetch_modrm(emu)?;
    match m.reg {
        0 => inc_rm32(emu, m),
        _ => Err(Error::UnimplementedOpcode),
    }
}

/// `inc r32`: the register that the opcode encodes above 0x40 plus one,
/// modulo 2^32; the flags stay.
pub open spec fn inc_r32_outcome(s: Machine) -> Result<Machine, Error> {
    if !s.can_fetch(1) {
        Err(Error::EndOfStream)
    } else {
        match embedded_register(s.byte_at(0), 0x40) {
            None => Err(Error::InvalidRegister),
            Some(i) => Ok(s.advance(1).set_reg32(i, wrap32(s.regs[i] + 1))),
        }
    }
}

/// Executes `inc r32` at the instruction pointer.
pub fn inc_r32(emu: &mut Emulator) -> (r: Result<(), Error>)
    ensures
        agrees(r, old(emu)@, final(emu)@, inc_r32_outcome(old(emu)@)),
{
    let reg = fetch_register(emu, 0x40)?;
    let v = emu.get_register32(reg)?;
    emu.set_register32(reg, wrapping_offset(v, 1))
}

/// `push r32`: pushes the register that the opcode encodes above 0x50.
pub open spec fn push_r32_outcome(s: Machine) -> Result<Machine, Error> {
    if !s.can_fetch(1) {
        Err(Error::EndOfStream)
    } else {
        match embedded_register(s.byte_at(0), 0x50) {
            None => Err(Error::InvalidRegister),
            Some(i) => if !s.advance(1).can_push() {
                Err(Error::OutOfBounds)
            } else {
                Ok(s.advance(1).push(s.regs[i]))
            },
        }
    }
}

/// Executes `push r32` at the instruction pointer.
pub fn push_r32(emu: &mut Emulator) -> (r: Result<(), Error>)
    ensures
        agrees(r, old(emu)@, final(emu)@, push_r32_outcome(old(emu)@)),
{
    let reg = fetch_register(emu, 0x50)?;
    let v = emu.get_register32(reg)?;
    emu.push32(v)
}

/// `pop r32`: pops into the register that the opcode encodes above 0x58.
pub open spec fn pop_r32_outcome(s: Machine) -> Result<Machine, Error> {
    if !s.can_fetch(1) {
        Err(Error::EndOfStream)
    } else {
        match embedded_register(s.byte_at(0), 0x58) {
            None => Err(Error::InvalidRegister),
            Some(i) => if !s.advance(1).can_pop() {
                Err(Error::OutOfBounds)
            } else {
                Ok(s.advance(1).pop().set_reg32(i, s.advance(1).top()))
            },
        }
    }
}

/// Executes `pop r32` at the instruction pointer.
pub fn pop_r32(emu: &mut Emulator) -> (r: Result<(), Error>)
    ensures
        agrees(r, old(emu)@, final(emu)@, pop_r32_outcome(old(emu)@)),
{
    let reg = fetch_register(emu, 0x58)?;
    let v = emu.pop32()?;
    emu.set_register32(reg, v)
}

/// `push imm8`: pushes the immediate, sign-extended to 32 bits.
pub open spec fn push_i8_outcome(s: Machine) -> Result<Machine, Error> {
    if !s.can_fetch(2) {
        Err(Error::EndOfStream)
    } else if !s.advance(2).can_push() {
        Err(Error::OutOfBounds)
    } else {
        Ok(s.advance(2).push(extend8(s.byte_at(1))))
    }
}

/// Executes `push imm8` at the instruction pointer.
pub fn push_i8(emu: &mut Emulator) -> (r: Result<(), Error>)
    ensures
        agrees(r, old(emu)@, final(emu)@, push_i8_outcome(old(emu)@)),
{
    let _ = emu.read_imm8()?;
    let v = emu.read_imm8s()?;
    emu.push32(sign_extend8(v))
}

/// `call rel32`: pushes the address behind the five bytes of the instruction
/// and moves on from there by the signed displacement.
pub open spec fn call_rel32_outcome(s: Machine) -> Result<Machine, Error> {
    if !s.can_fetch(5) {
        Err(Error::EndOfStream)
    } else if !s.advance(5).can_push() {
        Err(Error::OutOfBounds)
    } else {
        Ok(s.advance(5).push(s.advance(5).eip).jump(signed32(s.dword_at(1))))
    }
}

/// Executes `call rel32` at the instruction pointer.
pub fn call_rel32(emu: &mut Emulator) -> (r: Result<(), Error>)
    ensures
        agrees(r, old(emu)@, final(emu)@, call_rel32_outcome(old(emu)@)),
{
    let _ = emu.read_imm8()?;
    let addr = emu.read_imm32s()?;
    let v = emu.eip;
    emu.push32(v)?;
    emu.jump(addr);
    Ok(())
}

/// `leave`: the stack pointer becomes EBP, and EBP is popped from there.
pub open spec fn leave_outcome(s: Machine) -> Result<Machine, Error> {
    let t = s.advance(1).set_reg32(4, s.regs[5]);
    if !s.can_fetch(1) {
        Err(Error::EndOfStream)
    } else if !t.can_pop() {
        Err(Error::OutOfBounds)
    } else {
        Ok(t.pop().set_reg32(5, t.top()))
    }
}

/// Executes `leave` at the instruction pointer.
pub fn leave(emu: &mut Emulator) -> (r: Result<(), Error>)
    ensures
        agrees(r, old(emu)@, final(emu)@, leave_outcome(old(emu)@)),
{
    let _ = emu.read_imm8()?;
    let frame = emu.get_register32(5)?;
    let v = emu.memory.read32(frame)?;
    emu.set_register32(4, wrapping_offset(frame, 4))?;
    let r = emu.set_register32(5, v);
    proof {
        let t = old(emu)@.advance(1).set_reg32(4, old(emu)@.regs[5]);
        assert(emu@.regs =~= t.pop().set_reg32(5, t.top()).regs);
    }
    r
}

/// `int imm8`: the video service under its vector, a failure under any other.
pub open spec fn swi_outcome(s: Machine) -> Result<Machine, Error> {
    if !s.can_fetch(2) {
        Err(Error::EndOfStream)
    } else if s.byte_at(1) != VIDEO_VECTOR {
        Err(Error::UnimplementedInterruptVector)
    } else {
        video_outcome(s.advance(2))
    }
}

/// Executes `int imm8` at the instruction pointer.
pub fn swi(emu: &mut Emulator) -> (r: Result<(), Error>)
    ensures
        agrees(r, old(emu)@, final(emu)@, swi_outcome(old(emu)@)),
{
    let _ = emu.read_imm8()?;
    let index = emu.read_imm8()?;
    match index {
        0x10 => video(emu),
        _ => Err(Error::UnimplementedInterruptVector),
    }
}

/// `ret`: the instruction pointer is popped from the stack.
pub open spec fn ret_outcome(s: Machine) -> Result<Machine, Error> {
    if !s.can_fetch(1) {
        Err(Error::EndOfStream)
    } else if !s.can_pop() {
        Err(Error::OutOfBounds)
    } else {
        Ok(s.pop().set_eip(s.top()))
    }
}

/// Executes `ret` at the instruction pointer.
pub fn ret(emu: &mut Emulator) -> (r: Result<(), Error>)
    ensures
        agrees(r, old(emu)@, final(emu)@, ret_outcome(old(emu)@)),
{
    let _ = emu.read_imm8()?;
    let target = emu.pop32()?;
    emu.eip = target;
    Ok(())
}

/// `neg rm32` behind its ModRM byte: the operand becomes its two's
/// complement, zero minus the operand modulo 2^32.
pub open spec fn neg_outcome(s: Machine, m: Modrm) -> Result<Machine, Error> {
    if !accessible(s, m.operand, 4) {
        Err(Error::OutOfBounds)
    } else {
        Ok(store32(s, m.operand, wrap32(-load32(s, m.operand))))
    }
}

/// The group of opcode 0xF7: `reg` 3 negates; any other value is not an
/// instruction.
pub open spec fn opcode_f7_outcome(s: Machine) -> Result<Machine, Error> {
    match modrm_error(s) {
        Some(e) => Err(e),
        None => if modrm_at(s).reg == 3 {
            neg_outcome(behind_modrm(s), modrm_at(s))
        } else {
            Err(Error::UnimplementedOpcode)
        },
    }
}

/// Executes the instruction that the group 0xF7 selects at the instruction pointer.
pub fn opcode_f7(emu: &mut Emulator) -> (r: Result<(), Error>)
    ensures
        agrees(r, old(emu)@, final(emu)@, opcode_f7_outcome(old(emu)@)),
{
    let m = fetch_modrm(emu)?;
    match m.reg {
        3 => neg(emu, m),
        _ => Err(Error::UnimplementedOpcode),
    }
}

/// `in AL, DX`: AL becomes the byte read from the port that DX names.
pub open spec fn in_al_dx_outcome(s: Machine) -> Result<Machine, Error> {
    let t = s.advance(1);
    if !s.can_fetch(1) {
        Err(Error::EndOfStream)
    } else {
        match in8_value(t.input, dx_port(t)) {
            Err(e) => Err(e),
            Ok(v) => Ok((Machine { input: in8_rest(t.input, dx_port(t)), ..t }).set_reg8(0, v)),
        }
    }
}

/// Executes `in AL, DX` at the instruction pointer.
pub fn in_al_dx(emu: &mut Emulator) -> (r: Result<(), Error>)
    ensures
        agrees(r, old(emu)@, final(emu)@, in_al_dx_outcome(old(emu)@)),
{
    let _ = emu.read_imm8()?;
    let addr = (emu.get_register32(2)? % 0x1_0000) as u16;
    let value = io_in8(&mut emu.ports, addr)?;
    emu.set_register8(0, value);
    Ok(())
}

/// `out DX, AL`: AL goes out through the port that DX names.
pub open spec fn out_dx_al_outcome(s: Machine) -> Result<Machine, Error> {
    let t = s.advance(1);
    if !s.can_fetch(1) {
        Err(Error::EndOfStream)
    } else if dx_port(t) != SERIAL_PORT {
        Err(Error::UnimplementedPort)
    } else {
        Ok(Machine { output: t.output.push(t.reg8(0)), ..t })
    }
}

/// Executes `out DX, AL` at the instruction pointer.
pub fn out_dx_al(emu: &mut Emulator) -> (r: Result<(), Error>)
    ensures
        agrees(r, old(emu)@, final(emu)@, out_dx_al_outcome(old(emu)@)),
{
    let _ = emu.read_imm8()?;
    let addr = (emu.get_register32(2)? % 0x1_0000) as u16;
    let value = emu.get_register8(0);
    io_out8(&mut emu.ports, addr, value)
}

/// Executes `neg rm32`, its ModRM byte already decoded.
pub fn neg(emu: &mut Emulator, modrm: Modrm) -> (r: Result<(), Error>)
    requires
        modrm.wf(),
    ensures
        agrees(r, old(emu)@, final(emu)@, neg_outcome(old(emu)@, modrm)),
{
    let v = modrm.get_rm32(emu)?;
    modrm.set_rm32(emu, wrapping_offset(0, -(v as i64)))
}

} // verus!
