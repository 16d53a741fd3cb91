use vstd::prelude::*;
use crate::errors::Error;

verus! {

/// The one port that a device answers: the serial console.
pub const SERIAL_PORT: u16 = 0x03f8;

/// The devices behind the I/O ports: bytes waiting to be read from the
/// serial console, oldest first, and the bytes written to it so far.
pub struct Ports {
    pub input: Vec<u8>,
    pub output: Vec<u8>,
}

/// What a read of port `addr` returns while `input` waits: the oldest waiting
/// byte on the serial port, zero on every other port.
pub open spec fn in8_value(input: Seq<u8>, addr: u16) -> Result<u8, Error> {
    if addr != SERIAL_PORT {
        Ok(0u8)
    } else if input.len() > 0 {
        Ok(input[0])
    } else {
        Err(Error::EndOfStream)
    }
}

/// The bytes still waiting after a read of port `addr`.
pub open spec fn in8_rest(input: Seq<u8>, addr: u16) -> Seq<u8> {
    if addr == SERIAL_PORT && input.len() > 0 {
        input.remove(0)
    } else {
        input
    }
}

impl Ports {
    /// No input waiting, nothing written.
    pub fn new() -> (p: Ports)
        ensures
            p.input@ == Seq::<u8>::empty(),
            p.output@ == Seq::<u8>::empty(),
    {
        Ports { input: Vec::new(), output: Vec::new() }
    }

    /// Queues one byte of serial input behind those already waiting.
    pub fn feed(&mut self, byte: u8)
        ensures
            final(self).input@ == old(self).input@.push(byte),
            final(self).output@ == old(self).output@,
    {
        self.input.push(byte);
    }
}

/// Reads one byte from port `addr`. The serial port hands out the oldest
/// waiting byte and fails with `EndOfStream` when none waits; any other port
/// reads as zero.
pub fn io_in8(ports: &mut Ports, addr: u16) -> (r: Result<u8, Error>)
    ensures
        r == in8_value(old(ports).input@, addr),
        final(ports).input@ == in8_rest(old(ports).input@, addr),
        final(ports).output@ == old(ports).output@,
{
    if addr != SERIAL_PORT {
        Ok(0)
    } else if ports.input.len() > 0 {
        Ok(ports.input.remove(0))
    } else {
        Err(Error::EndOfStream)
    }
}

/// Writes one byte to port `addr`. The serial port appends it to what was
/// written; a write to any other port fails with `UnimplementedPort`.
pub fn io_out8(ports: &mut Ports, addr: u16, value: u8) -> (r: Result<(), Error>)
    ensures
        r is Ok <==> addr == SERIAL_PORT,
        r is Ok ==> final(ports).output@ == old(ports).output@.push(value),
        r is Err ==> r->Err_0 == Error::UnimplementedPort && final(ports).output@ == old(
            ports,
        ).output@,
        final(ports).input@ == old(ports).input@,
{
    if addr == SERIAL_PORT {
        ports.output.push(value);
        Ok(())
    } else {
        Err(Error::UnimplementedPort)
    }
}

} // verus!
