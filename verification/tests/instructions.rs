use x86emu::bios::{put_string, video, video_teltype};
use x86emu::emulator::Emulator;
use x86emu::errors::Error;
use x86emu::instruction::{
    add_rm32_imm8, add_rm32_r32, call_rel32, cmp_al_imm8, cmp_r32_rm32, cmp_rm32_imm8, code_ff,
    fetch_modrm, fetch_register, in_al_dx, inc_r32, inc_rm32, jle, jmp_rel32, js, jz, leave,
    mov_r32_imm32, mov_r32_rm32, mov_r8_imm8, mov_r8_rm8, mov_rm32_imm32, mov_rm32_r32, neg,
    opcode_83, opcode_f7, out_dx_al, pop_r32, push_i8, push_r32, ret, sub_rm32_imm8, swi,
};
use x86emu::memory::Memory;
use x86emu::modrm::Modrm;
use x86emu::register::{AH, AL, BL, EAX, EBP, EBX, ECX, EDX, ESP};

fn machine(code: &[u8], size: u32, esp: u32) -> Emulator {
    let mut memory = Memory::new(size);
    for (i, b) in code.iter().enumerate() {
        memory.write8(i as u32, *b).unwrap();
    }
    Emulator::new(memory, 0, esp)
}

fn flags(emu: &Emulator) -> (bool, bool, bool, bool) {
    (emu.is_set_cf(), emu.is_set_zf(), emu.is_set_sf(), emu.is_set_of())
}

#[test]
fn cmp_al_imm8_equal_sets_only_zero() {
    let mut emu = machine(&[0x3C, 0x05], 16, 0);
    emu.set_register8(AL, 5);
    assert_eq!(cmp_al_imm8(&mut emu), Ok(()));
    assert_eq!(flags(&emu), (false, true, false, false));
    assert_eq!(emu.eip, 2);
    assert_eq!(emu.get_register8(AL), 5);
}

#[test]
fn cmp_al_imm8_smaller_sets_carry_and_sign() {
    let mut emu = machine(&[0x3C, 0x05], 16, 0);
    emu.set_register8(AL, 3);
    assert_eq!(cmp_al_imm8(&mut emu), Ok(()));
    assert_eq!(flags(&emu), (true, false, true, false));
    assert_eq!(emu.get_register32(EAX), Ok(3));
}

#[test]
fn cmp_al_imm8_without_immediate_is_end_of_stream() {
    let mut emu = machine(&[0x3C], 1, 0);
    assert_eq!(cmp_al_imm8(&mut emu), Err(Error::EndOfStream));
    assert_eq!(flags(&emu), (false, false, false, false));
}

#[test]
fn jle_branches_when_zero_is_set() {
    let mut emu = machine(&[0x3C, 0x05, 0x7E, 0x10], 64, 0);
    emu.set_register8(AL, 5);
    cmp_al_imm8(&mut emu).unwrap();
    assert!(emu.is_set_zf());
    assert_eq!(jle(&mut emu), Ok(()));
    assert_eq!(emu.eip, 4 + 0x10);
}

#[test]
fn jle_branches_when_sign_differs_from_overflow() {
    let mut emu = machine(&[0x3C, 0x05, 0x7E, 0x10], 64, 0);
    emu.set_register8(AL, 3);
    cmp_al_imm8(&mut emu).unwrap();
    assert!(!emu.is_set_zf() && emu.is_set_sf() && !emu.is_set_of());
    assert_eq!(jle(&mut emu), Ok(()));
    assert_eq!(emu.eip, 4 + 0x10);
}

#[test]
fn jle_branches_on_overflow_without_sign() {
    let mut emu = machine(&[0x3B, 0xC1, 0x7E, 0x10], 64, 0);
    emu.set_register32(EAX, 0x8000_0000).unwrap();
    emu.set_register32(ECX, 1).unwrap();
    cmp_r32_rm32(&mut emu).unwrap();
    assert_eq!(flags(&emu), (false, false, false, true));
    assert_eq!(jle(&mut emu), Ok(()));
    assert_eq!(emu.eip, 4 + 0x10);
}

#[test]
fn jle_falls_through_when_greater() {
    let mut emu = machine(&[0x3C, 0x03, 0x7E, 0x10], 64, 0);
    emu.set_register8(AL, 5);
    cmp_al_imm8(&mut emu).unwrap();
    assert_eq!(flags(&emu), (false, false, false, false));
    assert_eq!(jle(&mut emu), Ok(()));
    assert_eq!(emu.eip, 4);
}

#[test]
fn jle_falls_through_when_sign_equals_overflow() {
    let mut emu = machine(&[0x3B, 0xC1, 0x7E, 0x10], 64, 0);
    emu.set_register32(EAX, 0x7FFF_FFFF).unwrap();
    emu.set_register32(ECX, 0xFFFF_FFFF).unwrap();
    cmp_r32_rm32(&mut emu).unwrap();
    assert_eq!(flags(&emu), (true, false, true, true));
    assert_eq!(jle(&mut emu), Ok(()));
    assert_eq!(emu.eip, 4);
}

#[test]
fn js_and_jz_follow_their_flag() {
    let mut emu = machine(&[0x78, 0x04, 0x74, 0x04, 0x78, 0xFC, 0x74, 0xFA], 64, 0);
    assert_eq!(js(&mut emu), Ok(()));
    assert_eq!(emu.eip, 2);
    assert_eq!(jz(&mut emu), Ok(()));
    assert_eq!(emu.eip, 4);
    emu.update_eflag_sub(3, 5, 0xFFFF_FFFE);
    assert_eq!(js(&mut emu), Ok(()));
    assert_eq!(emu.eip, 2);
    emu.eip = 6;
    assert_eq!(jz(&mut emu), Ok(()));
    assert_eq!(emu.eip, 8);
    emu.update_eflag_sub(5, 5, 0);
    emu.eip = 6;
    assert_eq!(jz(&mut emu), Ok(()));
    assert_eq!(emu.eip, 2);
    emu.eip = 4;
    assert_eq!(js(&mut emu), Ok(()));
    assert_eq!(emu.eip, 6);
}

#[test]
fn short_jump_backwards_wraps() {
    let mut emu = machine(&[0x74, 0x80], 64, 0);
    emu.update_eflag_sub(0, 0, 0);
    assert_eq!(jz(&mut emu), Ok(()));
    assert_eq!(emu.eip, 0xFFFF_FF82);
}

#[test]
fn jmp_rel32_adds_the_signed_displacement() {
    let mut emu = machine(&[0xE9, 0x10, 0x00, 0x00, 0x00], 64, 0);
    assert_eq!(jmp_rel32(&mut emu), Ok(()));
    assert_eq!(emu.eip, 0x15);
    let mut back = machine(&[0, 0, 0, 0, 0, 0, 0, 0, 0xE9, 0xF3, 0xFF, 0xFF, 0xFF], 64, 0);
    back.eip = 8;
    assert_eq!(jmp_rel32(&mut back), Ok(()));
    assert_eq!(back.eip, 0);
    let mut cut = machine(&[0xE9, 0x10, 0x00], 3, 0);
    assert_eq!(jmp_rel32(&mut cut), Err(Error::EndOfStream));
}

#[test]
fn cmp_r32_rm32_updates_flags_only() {
    let mut emu = machine(&[0x3B, 0xC1], 16, 0);
    emu.set_register32(EAX, 3).unwrap();
    emu.set_register32(ECX, 5).unwrap();
    assert_eq!(cmp_r32_rm32(&mut emu), Ok(()));
    assert_eq!(flags(&emu), (true, false, true, false));
    assert_eq!(emu.get_register32(EAX), Ok(3));
    assert_eq!(emu.get_register32(ECX), Ok(5));
    assert_eq!(emu.eip, 2);
}

#[test]
fn cmp_rm32_imm8_sign_extends() {
    let mut emu = machine(&[0x83, 0xF8, 0xFF], 16, 0);
    emu.set_register32(EAX, 0xFFFF_FFFF).unwrap();
    assert_eq!(opcode_83(&mut emu), Ok(()));
    assert_eq!(flags(&emu), (false, true, false, false));
    assert_eq!(emu.get_register32(EAX), Ok(0xFFFF_FFFF));
    assert_eq!(emu.eip, 3);
}

#[test]
fn cmp_rm32_imm8_after_its_modrm() {
    let mut emu = machine(&[0x05], 16, 0);
    emu.set_register32(EAX, 3).unwrap();
    let m = Modrm::new(0xF8, &mut emu).unwrap();
    assert_eq!(cmp_rm32_imm8(&mut emu, m), Ok(()));
    assert_eq!(flags(&emu), (true, false, true, false));
    assert_eq!(emu.eip, 1);
}

#[test]
fn add_rm32_r32_wraps_and_keeps_flags() {
    let mut emu = machine(&[0x01, 0xC8], 16, 0);
    emu.set_register32(EAX, 0xFFFF_FFFF).unwrap();
    emu.set_register32(ECX, 2).unwrap();
    assert_eq!(add_rm32_r32(&mut emu), Ok(()));
    assert_eq!(emu.get_register32(EAX), Ok(1));
    assert_eq!(emu.get_register32(ECX), Ok(2));
    assert_eq!(flags(&emu), (false, false, false, false));
}

#[test]
fn add_rm32_r32_to_memory() {
    let mut emu = machine(&[0x01, 0x4B, 0x04], 32, 0);
    emu.set_register32(EBX, 16).unwrap();
    emu.set_register32(ECX, 7).unwrap();
    emu.memory.write32(20, 35).unwrap();
    assert_eq!(add_rm32_r32(&mut emu), Ok(()));
    assert_eq!(emu.memory.read32(20), Ok(42));
    assert_eq!(emu.eip, 3);
    let mut out = machine(&[0x01, 0x4B, 0x04], 32, 0);
    out.set_register32(EBX, 30).unwrap();
    assert_eq!(add_rm32_r32(&mut out), Err(Error::OutOfBounds));
}

#[test]
fn group_83_adds_and_subtracts() {
    let mut emu = machine(&[0x83, 0xC0, 0x05, 0x83, 0xEC, 0x10, 0x83, 0xC0, 0xFF], 64, 0x40);
    assert_eq!(opcode_83(&mut emu), Ok(()));
    assert_eq!(emu.get_register32(EAX), Ok(5));
    assert_eq!(opcode_83(&mut emu), Ok(()));
    assert_eq!(emu.get_register32(ESP), Ok(0x30));
    assert_eq!(opcode_83(&mut emu), Ok(()));
    assert_eq!(emu.get_register32(EAX), Ok(4));
    assert_eq!(emu.eip, 9);
    assert_eq!(flags(&emu), (false, false, false, false));
}

#[test]
fn sub_rm32_imm8_wraps_below_zero() {
    let mut emu = machine(&[0x83, 0xE8, 0x01, 0x83, 0xE8, 0xFF], 16, 0);
    assert_eq!(opcode_83(&mut emu), Ok(()));
    assert_eq!(emu.get_register32(EAX), Ok(0xFFFF_FFFF));
    assert_eq!(opcode_83(&mut emu), Ok(()));
    assert_eq!(emu.get_register32(EAX), Ok(0));
}

#[test]
fn add_and_sub_after_their_modrm() {
    let mut emu = machine(&[0x7F, 0x80], 2, 0);
    emu.set_register32(EDX, 1).unwrap();
    let m = Modrm::new(0xC2, &mut emu).unwrap();
    assert_eq!(add_rm32_imm8(&mut emu, m), Ok(()));
    assert_eq!(emu.get_register32(EDX), Ok(0x80));
    assert_eq!(sub_rm32_imm8(&mut emu, m), Ok(()));
    assert_eq!(emu.get_register32(EDX), Ok(0x100));
    assert_eq!(add_rm32_imm8(&mut emu, m), Err(Error::EndOfStream));
}

#[test]
fn group_83_unmapped_sub_opcode_is_unimplemented() {
    for reg in [1u8, 2, 3, 4, 6] {
        let mut emu = machine(&[0x83, 0xC0 | (reg << 3), 0x05], 16, 0);
        emu.set_register32(EAX, 9).unwrap();
        assert_eq!(opcode_83(&mut emu), Err(Error::UnimplementedOpcode));
        assert_eq!(emu.get_register32(EAX), Ok(9));
        assert_eq!(flags(&emu), (false, false, false, false));
    }
}

#[test]
fn group_ff_and_f7_unmapped_sub_opcodes_are_unimplemented() {
    let mut emu = machine(&[0xFF, 0xC8], 16, 0);
    assert_eq!(code_ff(&mut emu), Err(Error::UnimplementedOpcode));
    let mut emu = machine(&[0xF7, 0xD0], 16, 0);
    emu.set_register32(EAX, 1).unwrap();
    assert_eq!(opcode_f7(&mut emu), Err(Error::UnimplementedOpcode));
    assert_eq!(emu.get_register32(EAX), Ok(1));
}

#[test]
fn mov_between_register_and_memory() {
    let mut emu = machine(&[0x89, 0x45, 0xFC, 0x8B, 0x4D, 0xFC, 0x8B, 0x15, 0x1C, 0, 0, 0], 64, 0);
    emu.set_register32(EBP, 0x20).unwrap();
    emu.set_register32(EAX, 0x1234_5678).unwrap();
    assert_eq!(mov_rm32_r32(&mut emu), Ok(()));
    assert_eq!(emu.memory.read32(0x1C), Ok(0x1234_5678));
    assert_eq!(mov_r32_rm32(&mut emu), Ok(()));
    assert_eq!(emu.get_register32(ECX), Ok(0x1234_5678));
    assert_eq!(mov_r32_rm32(&mut emu), Ok(()));
    assert_eq!(emu.get_register32(EDX), Ok(0x1234_5678));
    assert_eq!(emu.eip, 12);
    assert_eq!(flags(&emu), (false, false, false, false));
}

#[test]
fn mov_to_memory_out_of_bounds() {
    let mut emu = machine(&[0x89, 0x03, 0x8B, 0x03, 0x8B, 0x04], 16, 0);
    emu.set_register32(EBX, 14).unwrap();
    assert_eq!(mov_rm32_r32(&mut emu), Err(Error::OutOfBounds));
    emu.eip = 2;
    assert_eq!(mov_r32_rm32(&mut emu), Err(Error::OutOfBounds));
    emu.eip = 4;
    assert_eq!(mov_r32_rm32(&mut emu), Err(Error::UnimplementedAddressingMode));
}

#[test]
fn mov_r8_rm8_copies_one_byte() {
    let mut emu = machine(&[0x8A, 0xC1, 0x8A, 0x23], 16, 0);
    emu.set_register32(EAX, 0x1111_1111).unwrap();
    emu.set_register32(ECX, 0x2222_22AB).unwrap();
    emu.set_register32(EBX, 8).unwrap();
    emu.memory.write8(8, 0x5A).unwrap();
    assert_eq!(mov_r8_rm8(&mut emu), Ok(()));
    assert_eq!(emu.get_register32(EAX), Ok(0x1111_11AB));
    assert_eq!(mov_r8_rm8(&mut emu), Ok(()));
    assert_eq!(emu.get_register32(EAX), Ok(0x1111_5AAB));
}

#[test]
fn mov_rm32_imm32_stores_the_immediate() {
    let mut emu = machine(&[0xC7, 0x45, 0xFC, 0x78, 0x56, 0x34, 0x12, 0xC7, 0xC0, 1, 0, 0, 0], 64, 0);
    emu.set_register32(EBP, 0x30).unwrap();
    assert_eq!(mov_rm32_imm32(&mut emu), Ok(()));
    assert_eq!(emu.memory.read32(0x2C), Ok(0x1234_5678));
    assert_eq!(emu.eip, 7);
    assert_eq!(mov_rm32_imm32(&mut emu), Ok(()));
    assert_eq!(emu.get_register32(EAX), Ok(1));
    let mut cut = machine(&[0xC7, 0xC0, 1, 0], 4, 0);
    assert_eq!(mov_rm32_imm32(&mut cut), Err(Error::EndOfStream));
    assert_eq!(cut.get_register32(EAX), Ok(0));
}

#[test]
fn mov_immediate_to_the_encoded_register() {
    let mut emu = machine(&[0xB4, 0x0E, 0xB0, 0x41, 0xBB, 0x0A, 0, 0, 0, 0xBF, 1, 2, 3, 4], 16, 0);
    assert_eq!(mov_r8_imm8(&mut emu), Ok(()));
    assert_eq!(mov_r8_imm8(&mut emu), Ok(()));
    assert_eq!(emu.get_register32(EAX), Ok(0x0E41));
    assert_eq!(mov_r32_imm32(&mut emu), Ok(()));
    assert_eq!(emu.get_register32(EBX), Ok(0x0A));
    assert_eq!(mov_r32_imm32(&mut emu), Ok(()));
    assert_eq!(emu.get_register32(7), Ok(0x0403_0201));
    assert_eq!(emu.eip, 14);
}

#[test]
fn opcode_outside_the_register_range_is_invalid() {
    let mut emu = machine(&[0xAF, 0x01, 0xC0, 0, 0, 0, 0], 16, 8);
    assert_eq!(mov_r8_imm8(&mut emu), Err(Error::InvalidRegister));
    emu.eip = 0;
    assert_eq!(mov_r32_imm32(&mut emu), Err(Error::InvalidRegister));
    emu.eip = 2;
    assert_eq!(mov_r32_imm32(&mut emu), Err(Error::InvalidRegister));
    emu.eip = 1;
    assert_eq!(inc_r32(&mut emu), Err(Error::InvalidRegister));
    emu.eip = 1;
    assert_eq!(push_r32(&mut emu), Err(Error::InvalidRegister));
    emu.eip = 2;
    assert_eq!(pop_r32(&mut emu), Err(Error::InvalidRegister));
    for i in 0..8usize {
        assert_eq!(emu.get_register32(i), Ok(if i == ESP { 8 } else { 0 }));
    }
    emu.eip = 0;
    assert_eq!(fetch_register(&mut emu, 0xA8), Ok(7));
    assert_eq!(fetch_register(&mut emu, 0x02), Err(Error::InvalidRegister));
    emu.eip = 16;
    assert_eq!(fetch_register(&mut emu, 0x00), Err(Error::EndOfStream));
}

#[test]
fn inc_wraps_and_keeps_flags() {
    let mut emu = machine(&[0x41, 0xFF, 0xC1, 0x41], 16, 0);
    emu.set_register32(ECX, 0xFFFF_FFFE).unwrap();
    emu.update_eflag_sub(3, 5, 0xFFFF_FFFE);
    assert_eq!(inc_r32(&mut emu), Ok(()));
    assert_eq!(emu.get_register32(ECX), Ok(0xFFFF_FFFF));
    assert_eq!(code_ff(&mut emu), Ok(()));
    assert_eq!(emu.get_register32(ECX), Ok(0));
    assert_eq!(inc_r32(&mut emu), Ok(()));
    assert_eq!(emu.get_register32(ECX), Ok(1));
    assert_eq!(flags(&emu), (true, false, true, false));
    let m = Modrm::new(0xC1, &mut emu).unwrap();
    assert_eq!(inc_rm32(&mut emu, m), Ok(()));
    assert_eq!(emu.get_register32(ECX), Ok(2));
}

#[test]
fn push_and_pop_registers() {
    let mut emu = machine(&[0x50, 0x5B, 0x6A, 0xFE, 0x59, 0x6A, 0x7F], 64, 0x40);
    emu.set_register32(EAX, 0xAABB_CCDD).unwrap();
    assert_eq!(push_r32(&mut emu), Ok(()));
    assert_eq!(emu.get_register32(ESP), Ok(0x3C));
    assert_eq!(emu.memory.read32(0x3C), Ok(0xAABB_CCDD));
    assert_eq!(pop_r32(&mut emu), Ok(()));
    assert_eq!(emu.get_register32(EBX), Ok(0xAABB_CCDD));
    assert_eq!(emu.get_register32(ESP), Ok(0x40));
    assert_eq!(push_i8(&mut emu), Ok(()));
    assert_eq!(pop_r32(&mut emu), Ok(()));
    assert_eq!(emu.get_register32(ECX), Ok(0xFFFF_FFFE));
    assert_eq!(push_i8(&mut emu), Ok(()));
    assert_eq!(emu.memory.read32(0x3C), Ok(0x7F));
    assert_eq!(emu.eip, 7);
}

#[test]
fn push_and_pop_beyond_memory() {
    let mut emu = machine(&[0x50, 0x58, 0x6A, 0x01], 16, 0);
    assert_eq!(push_r32(&mut emu), Err(Error::OutOfBounds));
    emu.eip = 2;
    assert_eq!(push_i8(&mut emu), Err(Error::OutOfBounds));
    emu.set_register32(ESP, 16).unwrap();
    emu.eip = 1;
    assert_eq!(pop_r32(&mut emu), Err(Error::OutOfBounds));
    assert_eq!(emu.get_register32(ESP), Ok(16));
}

#[test]
fn call_then_ret_returns_behind_the_call() {
    let mut code = vec![0u8; 0x20];
    code[4] = 0xE8;
    code[5..9].copy_from_slice(&[0x0B, 0, 0, 0]);
    code[0x14] = 0xC3;
    let mut emu = machine(&code, 64, 0x40);
    emu.eip = 4;
    assert_eq!(call_rel32(&mut emu), Ok(()));
    assert_eq!(emu.eip, 0x14);
    assert_eq!(emu.get_register32(ESP), Ok(0x3C));
    assert_eq!(emu.memory.read32(0x3C), Ok(9));
    assert_eq!(ret(&mut emu), Ok(()));
    assert_eq!(emu.eip, 9);
    assert_eq!(emu.get_register32(ESP), Ok(0x40));
}

#[test]
fn call_backwards_then_ret() {
    let mut code = vec![0u8; 0x20];
    code[2] = 0xC3;
    code[0x10] = 0xE8;
    code[0x11..0x15].copy_from_slice(&[0xED, 0xFF, 0xFF, 0xFF]);
    let mut emu = machine(&code, 64, 0x40);
    emu.eip = 0x10;
    assert_eq!(call_rel32(&mut emu), Ok(()));
    assert_eq!(emu.eip, 2);
    assert_eq!(ret(&mut emu), Ok(()));
    assert_eq!(emu.eip, 0x15);
}

#[test]
fn call_and_ret_without_a_stack() {
    let mut emu = machine(&[0xE8, 1, 0, 0, 0, 0xC3], 16, 0);
    assert_eq!(call_rel32(&mut emu), Err(Error::OutOfBounds));
    assert_eq!(emu.get_register32(ESP), Ok(0));
    emu.eip = 5;
    emu.set_register32(ESP, 14).unwrap();
    assert_eq!(ret(&mut emu), Err(Error::OutOfBounds));
    let mut cut = machine(&[0xE8, 1, 0], 3, 0);
    assert_eq!(call_rel32(&mut cut), Err(Error::EndOfStream));
}

#[test]
fn leave_restores_the_frame() {
    let mut emu = machine(&[0xC9, 0xC9], 64, 0x10);
    emu.set_register32(EBP, 0x20).unwrap();
    emu.memory.write32(0x20, 0x38).unwrap();
    assert_eq!(leave(&mut emu), Ok(()));
    assert_eq!(emu.get_register32(ESP), Ok(0x24));
    assert_eq!(emu.get_register32(EBP), Ok(0x38));
    assert_eq!(emu.eip, 1);
    emu.set_register32(EBP, 0x3E).unwrap();
    assert_eq!(leave(&mut emu), Err(Error::OutOfBounds));
    assert_eq!(emu.get_register32(ESP), Ok(0x24));
    assert_eq!(emu.get_register32(EBP), Ok(0x3E));
}

#[test]
fn neg_is_twos_complement() {
    let mut emu = machine(&[0xF7, 0xD8, 0xF7, 0xD8, 0xF7, 0xD9, 0xF7, 0xDA], 16, 0);
    emu.set_register32(EAX, 5).unwrap();
    emu.set_register32(ECX, 0x8000_0000).unwrap();
    assert_eq!(opcode_f7(&mut emu), Ok(()));
    assert_eq!(emu.get_register32(EAX), Ok(0xFFFF_FFFB));
    assert_eq!(opcode_f7(&mut emu), Ok(()));
    assert_eq!(emu.get_register32(EAX), Ok(5));
    assert_eq!(opcode_f7(&mut emu), Ok(()));
    assert_eq!(emu.get_register32(ECX), Ok(0x8000_0000));
    assert_eq!(opcode_f7(&mut emu), Ok(()));
    assert_eq!(emu.get_register32(EDX), Ok(0));
    let m = Modrm::new(0xD8, &mut emu).unwrap();
    assert_eq!(neg(&mut emu, m), Ok(()));
    assert_eq!(emu.get_register32(EAX), Ok(0xFFFF_FFFB));
}

#[test]
fn fetch_modrm_reads_opcode_modrm_and_displacement() {
    let mut emu = machine(&[0x8B, 0x45, 0x08, 0x8B], 4, 0);
    emu.set_register32(EBP, 0x100).unwrap();
    let m = fetch_modrm(&mut emu).unwrap();
    assert_eq!((m.mode, m.reg, m.rm), (1, 0, 5));
    assert_eq!(emu.eip, 3);
    assert_eq!(fetch_modrm(&mut emu).err(), Some(Error::EndOfStream));
}

#[test]
fn out_dx_al_writes_to_the_serial_port() {
    let mut emu = machine(&[0xEE, 0xEE], 16, 0);
    emu.set_register32(EDX, 0x03F8).unwrap();
    emu.set_register8(AL, b'A');
    assert_eq!(out_dx_al(&mut emu), Ok(()));
    assert_eq!(emu.ports.output, vec![b'A']);
    assert_eq!(emu.get_register8(AL), b'A');
    emu.set_register32(EDX, 0xABCD_03F8).unwrap();
    emu.set_register8(AL, b'B');
    assert_eq!(out_dx_al(&mut emu), Ok(()));
    assert_eq!(emu.ports.output, vec![b'A', b'B']);
    assert_eq!(emu.eip, 2);
}

#[test]
fn out_dx_al_to_an_unknown_port_fails() {
    let mut emu = machine(&[0xEE], 16, 0);
    emu.set_register32(EDX, 0x03F9).unwrap();
    emu.set_register8(AL, b'A');
    assert_eq!(out_dx_al(&mut emu), Err(Error::UnimplementedPort));
    assert!(emu.ports.output.is_empty());
}

#[test]
fn in_al_dx_reads_the_serial_port() {
    let mut emu = machine(&[0xEC, 0xEC, 0xEC], 16, 0);
    emu.set_register32(EDX, 0x03F8).unwrap();
    emu.set_register32(EAX, 0x1122_3344).unwrap();
    emu.ports.feed(b'q');
    assert_eq!(in_al_dx(&mut emu), Ok(()));
    assert_eq!(emu.get_register32(EAX), Ok(0x1122_3300 + b'q' as u32));
    assert!(emu.ports.input.is_empty());
    assert_eq!(in_al_dx(&mut emu), Err(Error::EndOfStream));
    assert_eq!(emu.get_register8(AL), b'q');
    emu.set_register32(EDX, 0x0060).unwrap();
    emu.ports.feed(b'r');
    emu.eip = 2;
    assert_eq!(in_al_dx(&mut emu), Ok(()));
    assert_eq!(emu.get_register8(AL), 0);
    assert_eq!(emu.ports.input, vec![b'r']);
}

#[test]
fn teletype_wraps_the_character_in_its_colour() {
    let mut emu = machine(&[0xEE], 16, 0);
    emu.set_register32(EDX, 0x03F8).unwrap();
    emu.set_register8(AL, b'A');
    assert_eq!(out_dx_al(&mut emu), Ok(()));
    emu.set_register8(AH, 0x0E);
    emu.set_register8(BL, 0x0A);
    assert_eq!(video(&mut emu), Ok(()));
    let mut expected = vec![b'A'];
    expected.extend_from_slice(b"\x1b[32;1mA\x1b[0m");
    assert_eq!(emu.ports.output, expected);
}

#[test]
fn teletype_uses_every_base_colour() {
    let codes = [38u8, 34, 32, 36, 31, 35, 33, 37];
    for attr in 0..=255u8 {
        let mut emu = machine(&[], 16, 0);
        emu.set_register8(AL, b'z');
        emu.set_register8(BL, attr);
        video_teltype(&mut emu);
        let bright = if attr & 0x08 != 0 { 1 } else { 0 };
        let expected = format!("\x1b[{};{}mz\x1b[0m", codes[(attr & 7) as usize], bright);
        assert_eq!(emu.ports.output, expected.as_bytes().to_vec());
    }
}

#[test]
fn teletype_encodes_high_characters_in_two_bytes() {
    for ch in [0x00u8, 0x7F, 0x80, 0xBF, 0xC0, 0xE9, 0xFF] {
        let mut emu = machine(&[], 16, 0);
        emu.set_register8(AL, ch);
        emu.set_register8(BL, 0x04);
        video_teltype(&mut emu);
        let expected = format!("\x1b[31;0m{}\x1b[0m", ch as char);
        assert_eq!(emu.ports.output, expected.as_bytes().to_vec());
    }
}

#[test]
fn video_service_other_than_teletype_fails() {
    let mut emu = machine(&[], 16, 0);
    emu.set_register8(AH, 0x0F);
    emu.set_register8(AL, b'A');
    assert_eq!(video(&mut emu), Err(Error::UnimplementedInterruptVector));
    assert!(emu.ports.output.is_empty());
}

#[test]
fn put_string_appends_every_byte() {
    let mut emu = machine(&[], 16, 0);
    put_string(&mut emu, &b"hi".to_vec());
    put_string(&mut emu, &Vec::new());
    put_string(&mut emu, &vec![0xFF, 0x00]);
    assert_eq!(emu.ports.output, vec![b'h', b'i', 0xFF, 0x00]);
}

#[test]
fn swi_dispatches_on_the_vector() {
    let mut emu = machine(&[0xCD, 0x10, 0xCD, 0x21, 0xCD], 5, 0);
    emu.set_register8(AH, 0x0E);
    emu.set_register8(AL, b'!');
    emu.set_register8(BL, 0x07);
    assert_eq!(swi(&mut emu), Ok(()));
    assert_eq!(emu.ports.output, b"\x1b[37;0m!\x1b[0m".to_vec());
    assert_eq!(emu.eip, 2);
    assert_eq!(swi(&mut emu), Err(Error::UnimplementedInterruptVector));
    emu.eip = 4;
    assert_eq!(swi(&mut emu), Err(Error::EndOfStream));
    assert_eq!(emu.ports.output.len(), 12);
}
