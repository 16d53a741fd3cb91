use vstd::prelude::*;

verus! {

/// Every way in which an access, a fetch or a decode can fail.
#[derive(Clone, Copy, Debug, PartialEq, Eq, Structural)]
pub enum Error {
    /// A memory access reaches beyond the end of memory.
    OutOfBounds,
    /// A fetch asks for more bytes than remain, or the serial input is used up.
    EndOfStream,
    /// The opcode, or the sub-opcode of an opcode group, is not supported.
    UnimplementedOpcode,
    /// The ModRM byte selects an addressing form that is not supported.
    UnimplementedAddressingMode,
    /// The interrupt vector, or the service selected under it, is not supported.
    UnimplementedInterruptVector,
    /// A write goes to a port that no device answers.
    UnimplementedPort,
    /// A register index derived from the encoding lies outside `0..8`.
    InvalidRegister,
}

} // verus!
