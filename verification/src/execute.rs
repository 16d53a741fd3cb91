use vstd::prelude::*;
use crate::emulator::{agrees, Emulator, Machine};
use crate::errors::Error;
use crate::instruction::{
    add_rm32_r32, add_rm32_r32_outcome, call_rel32, call_rel32_outcome, cmp_al_imm8,
    cmp_al_imm8_outcome, cmp_r32_rm32, cmp_r32_rm32_outcome, code_ff, code_ff_outcome, dx_port,
    in_al_dx, in_al_dx_outcome, inc_r32, inc_r32_outcome, jle, jmp_rel32, jmp_rel32_outcome, js,
    jz, branch_outcome, leave, leave_outcome, less_or_equal, mov_r32_imm32,
    mov_r32_imm32_outcome, mov_r32_rm32, mov_r32_rm32_outcome, mov_r8_imm8, mov_r8_imm8_outcome,
    mov_r8_rm8, mov_r8_rm8_outcome, mov_rm32_imm32, mov_rm32_imm32_outcome, mov_rm32_r32,
    mov_rm32_r32_outcome, opcode_83, opcode_83_outcome, opcode_f7, opcode_f7_outcome, out_dx_al,
    out_dx_al_outcome, pop_r32, pop_r32_outcome, push_i8, push_i8_outcome, push_r32,
    push_r32_outcome, ret, ret_outcome, swi, swi_outcome,
};
use crate::io::SERIAL_PORT;

verus! {

/// What the instruction with this opcode does to `s`; an opcode outside the
/// supported set fails.
pub open spec fn dispatch(s: Machine, opcode: u8) -> Result<Machine, Error> {
    if opcode == 0x01 {
        add_rm32_r32_outcome(s)
    } else if opcode == 0x3B {
        cmp_r32_rm32_outcome(s)
    } else if opcode == 0x3C {
        cmp_al_imm8_outcome(s)
    } else if 0x40 <= opcode <= 0x47 {
        inc_r32_outcome(s)
    } else if 0x50 <= opcode <= 0x57 {
        push_r32_outcome(s)
    } else if 0x58 <= opcode <= 0x5F {
        pop_r32_outcome(s)
    } else if opcode == 0x6A {
        push_i8_outcome(s)
    } else if opcode == 0x74 {
        branch_outcome(s, s.flags.zero)
    } else if opcode == 0x78 {
        branch_outcome(s, s.flags.sign)
    } else if opcode == 0x7E {
        branch_outcome(s, less_or_equal(s))
    } else if opcode == 0x83 {
        opcode_83_outcome(s)
    } else if opcode == 0x89 {
        mov_rm32_r32_outcome(s)
    } else if opcode == 0x8A {
        mov_r8_rm8_outcome(s)
    } else if opcode == 0x8B {
        mov_r32_rm32_outcome(s)
    } else if 0xB0 <= opcode <= 0xB7 {
        mov_r8_imm8_outcome(s)
    } else if 0xB8 <= opcode <= 0xBF {
        mov_r32_imm32_outcome(s)
    } else if opcode == 0xC3 {
        ret_outcome(s)
    } else if opcode == 0xC7 {
        mov_rm32_imm32_outcome(s)
    } else if opcode == 0xC9 {
        leave_outcome(s)
    } else if opcode == 0xCD {
        swi_outcome(s)
    } else if opcode == 0xE8 {
        call_rel32_outcome(s)
    } else if opcode == 0xE9 {
        jmp_rel32_outcome(s)
    } else if opcode == 0xEC {
        in_al_dx_outcome(s)
    } else if opcode == 0xEE {
        out_dx_al_outcome(s)
    } else if opcode == 0xF7 {
        opcode_f7_outcome(s)
    } else if opcode == 0xFF {
        code_ff_outcome(s)
    } else {
        Err(Error::UnimplementedOpcode)
    }
}

/// One round of fetch, decode and execute: the instruction whose opcode
/// stands at the instruction pointer, or `EndOfStream` where none stands there.
pub open spec fn step_outcome(s: Machine) -> Result<Machine, Error> {
    if !s.can_fetch(1) {
        Err(Error::EndOfStream)
    } else {
        dispatch(s, s.byte_at(0))
    }
}

/// The outcome of up to `n` rounds: the first failure, or the state after
/// all of them.
pub open spec fn run_outcome(s: Machine, n: nat) -> Result<Machine, Error>
    decreases n,
{
    if n == 0 {
        Ok(s)
    } else {
        match step_outcome(s) {
            Err(e) => Err(e),
            Ok(t) => run_outcome(t, (n - 1) as nat),
        }
    }
}

/// Where a run of up to `n` rounds comes to rest: the state in which its
/// first failing round starts, or the state after all of them.
pub open spec fn run_rest(s: Machine, n: nat) -> Machine
    decreases n,
{
    if n == 0 {
        s
    } else {
        match step_outcome(s) {
            Err(e) => s,
            Ok(t) => run_rest(t, (n - 1) as nat),
        }
    }
}

/// Whether the next instruction reads the serial port while no input waits.
pub open spec fn awaits_input(s: Machine) -> bool {
    s.can_fetch(1) && s.byte_at(0) == 0xEC && dx_port(s) == SERIAL_PORT && s.input.len() == 0
}

impl Emulator {
    /// Looks at the opcode at the instruction pointer without stepping over
    /// it, and runs the handler of that opcode, which fetches it again.
    pub fn step(&mut self) -> (r: Result<(), Error>)
        ensures
            agrees(r, old(self)@, final(self)@, step_outcome(old(self)@)),
    {
        let opcode = match self.memory.read8(self.eip) {
            Ok(b) => b,
            Err(_) => {
                return Err(Error::EndOfStream);
            },
        };
        match opcode {
            0x01 => add_rm32_r32(self),
            0x3B => cmp_r32_rm32(self),
            0x3C => cmp_al_imm8(self),
            0x40..=0x47 => inc_r32(self),
            0x50..=0x57 => push_r32(self),
            0x58..=0x5F => pop_r32(self),
            0x6A => push_i8(self),
            0x74 => jz(self),
            0x78 => js(self),
            0x7E => jle(self),
            0x83 => opcode_83(self),
            0x89 => mov_rm32_r32(self),
            0x8A => mov_r8_rm8(self),
            0x8B => mov_r32_rm32(self),
            0xB0..=0xB7 => mov_r8_imm8(self),
            0xB8..=0xBF => mov_r32_imm32(self),
            0xC3 => ret(self),
            0xC7 => mov_rm32_imm32(self),
            0xC9 => leave(self),
            0xCD => swi(self),
            0xE8 => call_rel32(self),
            0xE9 => jmp_rel32(self),
            0xEC => in_al_dx(self),
            0xEE => out_dx_al(self),
            0xF7 => opcode_f7(self),
            0xFF => code_ff(self),
            _ => Err(Error::UnimplementedOpcode),
        }
    }

    /// Runs up to `limit` instructions and stops at the first failure.
    /// Returns the failure, or `Ok` where all `limit` instructions ran. After
    /// a failure the state is the one in which the failing instruction
    /// started, but for the instruction pointer.
    pub fn run(&mut self, limit: u64) -> (r: Result<(), Error>)
        ensures
            match r {
                Ok(()) => run_outcome(old(self)@, limit as nat) == Ok::<Machine, Error>(
                    final(self)@,
                ),
                Err(e) => run_outcome(old(self)@, limit as nat) == Err::<Machine, Error>(e)
                    && final(self)@ == run_rest(old(self)@, limit as nat).set_eip(
                    final(self).eip,
                ),
            },
    {
        let mut done: u64 = 0;
        while done < limit
            invariant
                done <= limit,
                run_outcome(old(self)@, limit as nat) == run_outcome(
                    self@,
                    (limit - done) as nat,
                ),
                run_rest(old(self)@, limit as nat) == run_rest(self@, (limit - done) as nat),
            decreases limit - done,
        {
            match self.step() {
                Ok(()) => {},
                Err(e) => {
                    return Err(e);
                },
            }
            done = done + 1;
        }
        Ok(())
    }

    /// Whether the next instruction would read the serial port while no
    /// input waits there: the moment to feed the port before the next step.
    pub fn needs_input(&self) -> (b: bool)
        ensures
            b == awaits_input(self@),
    {
        match self.memory.read8(self.eip) {
            Ok(opcode) => opcode == 0xEC && self.registers.get(2) % 0x1_0000 == 0x03f8
                && self.ports.input.len() == 0,
            Err(_) => false,
        }
    }
}

} // verus!
