use x86emu::emulator::Emulator;
use x86emu::errors::Error;
use x86emu::memory::Memory;
use x86emu::register::{AL, EAX, EBP, EBX, ECX, EDX, ESP};

fn load(code: &[u8], size: u32, esp: u32) -> Emulator {
    let mut image = code.to_vec();
    image.resize(size as usize, 0xF4);
    Emulator::new(Memory::from_bytes(image).unwrap(), 0, esp)
}

#[test]
fn step_runs_one_instruction() {
    let mut emu = load(&[0xB8, 0x29, 0, 0, 0, 0x40], 6, 0);
    assert_eq!(emu.step(), Ok(()));
    assert_eq!(emu.eip, 5);
    assert_eq!(emu.get_register32(EAX), Ok(0x29));
    assert_eq!(emu.step(), Ok(()));
    assert_eq!(emu.eip, 6);
    assert_eq!(emu.get_register32(EAX), Ok(0x2A));
    assert_eq!(emu.step(), Err(Error::EndOfStream));
    assert_eq!(emu.eip, 6);
}

#[test]
fn step_on_an_unknown_opcode_fails() {
    for op in [0x00u8, 0x0F, 0x48, 0x68, 0x88, 0x90, 0xEB, 0xF4] {
        let mut emu = load(&[op, 0xC0, 0, 0, 0, 0], 8, 8);
        assert_eq!(emu.step(), Err(Error::UnimplementedOpcode));
        assert_eq!(emu.eip, 0);
    }
}

#[test]
fn step_dispatches_every_supported_opcode() {
    let cases: [(&[u8], u32); 26] = [
        (&[0x01, 0xC8], 2),
        (&[0x3B, 0xC1], 2),
        (&[0x3C, 0x00], 2),
        (&[0x47], 1),
        (&[0x57], 1),
        (&[0x5F], 1),
        (&[0x6A, 0x01], 2),
        (&[0x74, 0x02], 2),
        (&[0x78, 0x02], 2),
        (&[0x7E, 0x02], 2),
        (&[0x83, 0xC0, 0x01], 3),
        (&[0x89, 0xC8], 2),
        (&[0x8A, 0xC8], 2),
        (&[0x8B, 0xC8], 2),
        (&[0xB7, 0x01], 2),
        (&[0xBF, 1, 0, 0, 0], 5),
        (&[0xC3], 0xF4F4_F4F4),
        (&[0xC7, 0xC0, 1, 0, 0, 0], 6),
        (&[0xC9], 1),
        (&[0xCD, 0x10], 2),
        (&[0xE8, 1, 0, 0, 0], 6),
        (&[0xE9, 1, 0, 0, 0], 6),
        (&[0xEC], 1),
        (&[0xEE], 1),
        (&[0xF7, 0xD8], 2),
        (&[0xFF, 0xC0], 2),
    ];
    for (code, eip) in cases {
        let mut emu = load(code, 64, 0x20);
        emu.set_register32(EBP, 0x10).unwrap();
        emu.set_register32(EDX, 0x3F8).unwrap();
        emu.set_register32(EAX, 0x0E00).unwrap();
        emu.ports.feed(b'k');
        assert_eq!(emu.step(), Ok(()), "opcode {:#x}", code[0]);
        assert_eq!(emu.eip, eip, "opcode {:#x}", code[0]);
    }
}

#[test]
fn run_stops_at_the_first_failure() {
    let program = [
        0xB8, 0x00, 0x00, 0x00, 0x00, // mov eax, 0
        0xB9, 0x05, 0x00, 0x00, 0x00, // mov ecx, 5
        0x01, 0xC8, // add eax, ecx
        0x83, 0xE9, 0x01, // sub ecx, 1
        0x83, 0xF9, 0x00, // cmp ecx, 0
        0x74, 0x05, // jz +5
        0xE9, 0xF1, 0xFF, 0xFF, 0xFF, // jmp -15
    ];
    let mut emu = load(&program, program.len() as u32, 0);
    assert_eq!(emu.run(1000), Err(Error::EndOfStream));
    assert_eq!(emu.get_register32(EAX), Ok(15));
    assert_eq!(emu.get_register32(ECX), Ok(0));
    assert_eq!(emu.eip, 25);
}

#[test]
fn run_stops_at_the_limit() {
    let mut emu = load(&[0x40, 0xE9, 0xFA, 0xFF, 0xFF, 0xFF], 6, 0);
    assert_eq!(emu.run(0), Ok(()));
    assert_eq!(emu.eip, 0);
    assert_eq!(emu.run(7), Ok(()));
    assert_eq!(emu.get_register32(EAX), Ok(4));
    assert_eq!(emu.eip, 1);
}

#[test]
fn run_calls_a_function_with_a_frame() {
    let program = [
        0x6A, 0x07, // push 7
        0xE8, 0x03, 0x00, 0x00, 0x00, // call +3
        0x5B, // pop ebx
        0x00, 0x00, // not reached, then unknown opcode
        0x55, // push ebp
        0x89, 0xE5, // mov ebp, esp
        0x8B, 0x45, 0x08, // mov eax, [ebp+8]
        0xF7, 0xD8, // neg eax
        0xC9, // leave
        0xC3, // ret
    ];
    let mut emu = load(&program, 0x80, 0x80);
    emu.set_register32(EBP, 0x1234).unwrap();
    assert_eq!(emu.run(100), Err(Error::UnimplementedOpcode));
    assert_eq!(emu.eip, 8);
    assert_eq!(emu.get_register32(EAX), Ok(0xFFFF_FFF9));
    assert_eq!(emu.get_register32(EBX), Ok(7));
    assert_eq!(emu.get_register32(EBP), Ok(0x1234));
    assert_eq!(emu.get_register32(ESP), Ok(0x80));
}

#[test]
fn run_prints_through_the_video_service() {
    let program = [
        0xB4, 0x0E, // mov ah, 0x0e
        0xB0, 0x41, // mov al, 'A'
        0xB3, 0x0A, // mov bl, 0x0a
        0xCD, 0x10, // int 0x10
        0xBA, 0xF8, 0x03, 0x00, 0x00, // mov edx, 0x3f8
        0xEE, // out dx, al
    ];
    let mut emu = load(&program, program.len() as u32, 0);
    assert_eq!(emu.run(10), Err(Error::EndOfStream));
    assert_eq!(emu.ports.output, b"\x1b[32;1mA\x1b[0mA".to_vec());
}

#[test]
fn needs_input_only_before_a_serial_read_without_input() {
    let mut emu = load(&[0xEC, 0xEE], 2, 0);
    assert!(!emu.needs_input());
    emu.set_register32(EDX, 0x3F8).unwrap();
    assert!(emu.needs_input());
    emu.ports.feed(b'x');
    assert!(!emu.needs_input());
    assert_eq!(emu.step(), Ok(()));
    assert_eq!(emu.get_register8(AL), b'x');
    assert!(!emu.needs_input());
    emu.eip = 2;
    assert!(!emu.needs_input());
}

#[test]
fn empty_memory_ends_at_once() {
    let m = Memory::from_bytes(Vec::new()).unwrap();
    assert_eq!(m.len(), 0);
    let mut emu = Emulator::new(m, 0, 0);
    assert_eq!(emu.step(), Err(Error::EndOfStream));
}
