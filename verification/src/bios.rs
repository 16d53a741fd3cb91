use vstd::prelude::*;
use crate::emulator::{agrees, Emulator, Machine};
use crate::errors::Error;
use crate::io::{io_out8, SERIAL_PORT};

verus! {

/// The video service that writes one character.
pub const TELETYPE: u8 = 0x0e;

/// The terminal colour code for each of the eight base colours.
pub open spec fn terminal_color(index: int) -> u8 {
    if index == 0 {
        38
    } else if index == 1 {
        34
    } else if index == 2 {
        32
    } else if index == 3 {
        36
    } else if index == 4 {
        31
    } else if index == 5 {
        35
    } else if index == 6 {
        33
    } else {
        37
    }
}

/// The bytes that encode the character with code `ch`: itself below 0x80,
/// two bytes from there on.
pub open spec fn char_bytes(ch: u8) -> Seq<u8> {
    if ch < 0x80 {
        seq![ch]
    } else {
        seq![(0xC0 + ch / 64) as u8, (0x80 + ch % 64) as u8]
    }
}

/// The control sequence that shows `ch` in the colour of `attribute`: escape,
/// `[`, the two decimal digits of the colour code that bits 0 to 2 select,
/// `;`, the brightness digit that bit 3 selects, `m`, the character, and the
/// reset sequence escape `[0m`.
pub open spec fn teletype_bytes(ch: u8, attribute: u8) -> Seq<u8> {
    let color = terminal_color((attribute % 8) as int);
    let bright: u8 = if (attribute / 8) % 2 == 1 {
        0x31
    } else {
        0x30
    };
    seq![0x1bu8, 0x5bu8, (0x30 + color / 10) as u8, (0x30 + color % 10) as u8, 0x3bu8, bright, 0x6du8]
        + char_bytes(ch) + seq![0x1bu8, 0x5bu8, 0x30u8, 0x6du8]
}

/// The machine after `bytes` went out through the serial port.
pub open spec fn emitted(s: Machine, bytes: Seq<u8>) -> Machine {
    Machine { output: s.output + bytes, ..s }
}

/// The machine after the teletype service: the control sequence for the
/// character in AL with the attribute in BL went out.
pub open spec fn teletype(s: Machine) -> Machine {
    emitted(s, teletype_bytes(s.reg8(0), s.reg8(3)))
}

/// What the video interrupt does: the teletype service where AH selects
/// it, a failure for every other service.
pub open spec fn video_outcome(s: Machine) -> Result<Machine, Error> {
    if s.reg8(4) == TELETYPE {
        Ok(teletype(s))
    } else {
        Err(Error::UnimplementedInterruptVector)
    }
}

fn color_code(index: u8) -> (c: u8)
    requires
        index < 8,
    ensures
        c == terminal_color(index as int),
{
    if index == 0 {
        38
    } else if index == 1 {
        34
    } else if index == 2 {
        32
    } else if index == 3 {
        36
    } else if index == 4 {
        31
    } else if index == 5 {
        35
    } else if index == 6 {
        33
    } else {
        37
    }
}

/// Runs the video service that AH selects.
pub fn video(emu: &mut Emulator) -> (r: Result<(), Error>)
    ensures
        agrees(r, old(emu)@, final(emu)@, video_outcome(old(emu)@)),
{
    let ah = emu.get_register8(4);
    if ah == TELETYPE {
        video_teltype(emu);
        Ok(())
    } else {
        Err(Error::UnimplementedInterruptVector)
    }
}

/// Writes the character in AL to the serial port, wrapped in the control
/// sequence for the colour in the low four bits of BL.
pub fn video_teltype(emu: &mut Emulator)
    ensures
        final(emu)@ == teletype(old(emu)@),
{
    let attribute = emu.get_register8(3);
    let ch = emu.get_register8(0);
    let color = color_code(attribute % 8);
    let bright: u8 = if (attribute / 8) % 2 == 1 {
        0x31
    } else {
        0x30
    };
    let mut s: Vec<u8> = Vec::new();
    s.push(0x1b);
    s.push(0x5b);
    s.push(0x30 + color / 10);
    s.push(0x30 + color % 10);
    s.push(0x3b);
    s.push(bright);
    s.push(0x6d);
    if ch < 0x80 {
        s.push(ch);
    } else {
        s.push(0xC0 + ch / 64);
        s.push(0x80 + ch % 64);
    }
    s.push(0x1b);
    s.push(0x5b);
    s.push(0x30);
    s.push(0x6d);
    assert(s@ =~= teletype_bytes(ch, attribute));
    put_string(emu, &s);
}

/// Sends the bytes of `s` to the serial port, one by one.
pub fn put_string(emu: &mut Emulator, s: &Vec<u8>)
    ensures
        final(emu)@ == emitted(old(emu)@, s@),
{
    let ghost before = emu@;
    let mut i: usize = 0;
    assert(emu@.output =~= before.output + s@.subrange(0, 0));
    while i < s.len()
        invariant
            i <= s.len(),
            emu@ == emitted(before, s@.subrange(0, i as int)),
        decreases s.len() - i,
    {
        let _ = io_out8(&mut emu.ports, SERIAL_PORT, s[i]);
        assert(emu@.output =~= before.output + s@.subrange(0, i + 1));
        i = i + 1;
    }
    assert(s@.subrange(0, i as int) =~= s@);
}

} // verus!
