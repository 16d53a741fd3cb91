use vstd::prelude::*;
use crate::bits::{byte_of, lemma_bytes_of_le32, lemma_le32_of_bytes, signed32, signed8};
use crate::emulator::Machine;
use crate::errors::Error;
use crate::execute::step_outcome;
use crate::flags::{compare32, compare8};
use crate::instruction::{
    call_rel32_outcome, code_ff_outcome, modrm_at, modrm_error, opcode_83_outcome,
    opcode_f7_outcome, ret_outcome,
};
use crate::memory::lemma_read_after_write32;

verus! {

/// A 32-bit register holds what was last written to it, and writing one
/// register leaves the other seven alone.
pub proof fn lemma_register_write_read(s: Machine, i: int, v: u32)
    requires
        s.wf(),
        0 <= i < 8,
    ensures
        s.set_reg32(i, v).regs[i] == v,
        forall|j: int| 0 <= j < 8 && j != i ==> s.set_reg32(i, v).regs[j] == s.regs[j],
        s.set_reg32(i, v).wf(),
{
}

/// Writing the 8-bit register `i` changes exactly one byte: byte `i / 4` of
/// the 32-bit register `i % 4` becomes `v`, its other three bytes and the
/// other seven registers stay, and the 8-bit register then reads as `v`.
pub proof fn lemma_byte_register_write(s: Machine, i: int, v: u8)
    requires
        s.wf(),
        0 <= i < 8,
    ensures
        s.set_reg8(i, v).reg8(i) == v,
        byte_of(s.set_reg8(i, v).regs[i % 4], i / 4) == v,
        ({
            let after = s.set_reg8(i, v).regs[i % 4];
            let before = s.regs[i % 4];
            let position = i / 4;
            forall|k: int|
                0 <= k < 4 && k != position ==> #[trigger] byte_of(after, k) == byte_of(before, k)
        }),
        ({
            let owner = i % 4;
            forall|j: int|
                0 <= j < 8 && j != owner ==> #[trigger] s.set_reg8(i, v).regs[j] == s.regs[j]
        }),
{
    let r = s.regs[i % 4];
    lemma_bytes_of_le32(v, byte_of(r, 1), byte_of(r, 2), byte_of(r, 3));
    lemma_bytes_of_le32(byte_of(r, 0), v, byte_of(r, 2), byte_of(r, 3));
}

/// Writing an 8-bit register the value that it holds changes nothing.
pub proof fn lemma_byte_register_rewrite(s: Machine, i: int)
    requires
        s.wf(),
        0 <= i < 8,
    ensures
        s.set_reg8(i, s.reg8(i)) == s,
{
    lemma_le32_of_bytes(s.regs[i % 4]);
    assert(s.set_reg8(i, s.reg8(i)).regs =~= s.regs);
}

/// Wherever a push succeeds, the pop that follows succeeds, returns the
/// pushed value, and leaves every register, the stack pointer among them, as
/// it was before the push.
pub proof fn lemma_push_pop(s: Machine, v: u32)
    requires
        s.wf(),
        s.can_push(),
    ensures
        s.push(v).can_pop(),
        s.push(v).top() == v,
        s.push(v).pop().regs == s.regs,
        s.push(v).pop().eip == s.eip,
        s.push(v).pop().flags == s.flags,
{
    let sp = s.push(v).esp();
    lemma_read_after_write32(s.mem, sp as int, v);
    assert(s.push(v).pop().regs =~= s.regs);
}

/// Wherever a call succeeds and a return instruction can be fetched at its
/// target, that return succeeds and brings the instruction pointer to the
/// instruction just behind the call, with every register as before the call.
pub proof fn lemma_call_ret(s: Machine)
    requires
        s.wf(),
        call_rel32_outcome(s) is Ok,
        call_rel32_outcome(s)->Ok_0.can_fetch(1),
    ensures
        ret_outcome(call_rel32_outcome(s)->Ok_0) is Ok,
        ret_outcome(call_rel32_outcome(s)->Ok_0)->Ok_0.eip == s.eip + 5,
        ret_outcome(call_rel32_outcome(s)->Ok_0)->Ok_0.regs == s.regs,
{
    let t = s.advance(5);
    lemma_push_pop(t, t.eip);
    let c = call_rel32_outcome(s)->Ok_0;
    assert(c.pop().regs =~= s.regs);
}

/// After two double words were compared, the condition of `jle` holds exactly
/// where the first is less than or equal to the second, both read as signed.
pub proof fn lemma_jle_after_compare(a: u32, b: u32)
    ensures
        (compare32(a, b).zero || compare32(a, b).sign != compare32(a, b).overflow) <==> signed32(
            a,
        ) <= signed32(b),
        compare32(a, b).zero <==> a == b,
        compare32(a, b).carry <==> a < b,
{
}

/// After two bytes were compared, the condition of `jle` holds exactly where
/// the first is less than or equal to the second, both read as signed.
pub proof fn lemma_jle_after_byte_compare(a: u8, b: u8)
    ensures
        (compare8(a, b).zero || compare8(a, b).sign != compare8(a, b).overflow) <==> signed8(a)
            <= signed8(b),
        compare8(a, b).zero <==> a == b,
        compare8(a, b).carry <==> a < b,
{
}

/// An opcode group never falls back on another group's instruction: under
/// 0x83 only `reg` 0, 5 and 7 are instructions, under 0xFF only 0, under 0xF7
/// only 3. Any other value fails with `UnimplementedOpcode`.
pub proof fn lemma_group_unmapped(s: Machine)
    requires
        modrm_error(s) is None,
    ensures
        modrm_at(s).reg != 0 && modrm_at(s).reg != 5 && modrm_at(s).reg != 7
            ==> opcode_83_outcome(s) == Err::<Machine, Error>(Error::UnimplementedOpcode),
        modrm_at(s).reg != 0 ==> code_ff_outcome(s) == Err::<Machine, Error>(
            Error::UnimplementedOpcode,
        ),
        modrm_at(s).reg != 3 ==> opcode_f7_outcome(s) == Err::<Machine, Error>(
            Error::UnimplementedOpcode,
        ),
{
}

/// No instruction runs where no opcode can be fetched.
pub proof fn lemma_step_past_end(s: Machine)
    requires
        !s.can_fetch(1),
    ensures
        step_outcome(s) == Err::<Machine, Error>(Error::EndOfStream),
{
}

/// Only the compare instructions touch the flags: a step with any other
/// opcode, and the group 0x83 with `reg` other than 7, leaves them as they were.
pub proof fn lemma_flags_kept(s: Machine)
    requires
        s.wf(),
        step_outcome(s) is Ok,
        s.byte_at(0) != 0x3B,
        s.byte_at(0) != 0x3C,
        s.byte_at(0) == 0x83 ==> modrm_at(s).reg != 7,
    ensures
        step_outcome(s)->Ok_0.flags == s.flags,
{
}

} // verus!
