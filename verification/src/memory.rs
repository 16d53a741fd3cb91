use vstd::prelude::*;
use crate::bits::{byte_of, le16, le32, lemma_le32_of_bytes};
use crate::errors::Error;

verus! {

/// The 16-bit little-endian value stored at `addr`.
pub open spec fn read16_at(mem: Seq<u8>, addr: int) -> u16 {
    le16(mem[addr], mem[addr + 1])
}

/// The 32-bit little-endian value stored at `addr`.
pub open spec fn read32_at(mem: Seq<u8>, addr: int) -> u32 {
    le32(mem[addr], mem[addr + 1], mem[addr + 2], mem[addr + 3])
}

/// `mem` with the two bytes of `v` stored at `addr`, low byte first.
pub open spec fn write16_at(mem: Seq<u8>, addr: int, v: u16) -> Seq<u8> {
    mem.update(addr, (v % 0x100) as u8).update(addr + 1, (v / 0x100) as u8)
}

/// `mem` with the four bytes of `v` stored at `addr`, low byte first.
pub open spec fn write32_at(mem: Seq<u8>, addr: int, v: u32) -> Seq<u8> {
    mem.update(addr, byte_of(v, 0)).update(addr + 1, byte_of(v, 1)).update(
        addr + 2,
        byte_of(v, 2),
    ).update(addr + 3, byte_of(v, 3))
}

/// A double word that was stored is read back, and the length stays.
pub proof fn lemma_read_after_write32(mem: Seq<u8>, addr: int, v: u32)
    requires
        0 <= addr,
        addr + 4 <= mem.len(),
    ensures
        read32_at(write32_at(mem, addr, v), addr) == v,
        write32_at(mem, addr, v).len() == mem.len(),
{
    lemma_le32_of_bytes(v);
}

/// A word that was stored is read back, and the length stays.
pub proof fn lemma_read_after_write16(mem: Seq<u8>, addr: int, v: u16)
    requires
        0 <= addr,
        addr + 2 <= mem.len(),
    ensures
        read16_at(write16_at(mem, addr, v), addr) == v,
        write16_at(mem, addr, v).len() == mem.len(),
{
}

/// A store of four bytes changes no byte outside them.
pub proof fn lemma_write32_elsewhere(mem: Seq<u8>, addr: int, v: u32, other: int)
    requires
        0 <= addr,
        addr + 4 <= mem.len(),
        0 <= other < mem.len(),
        other < addr || addr + 4 <= other,
    ensures
        write32_at(mem, addr, v)[other] == mem[other],
{
}

/// A fixed number of bytes, addressed from zero. The capacity never exceeds
/// what a 32-bit address can reach.
pub struct Memory {
    data: Vec<u8>,
}

impl View for Memory {
    type V = Seq<u8>;

    closed spec fn view(&self) -> Seq<u8> {
        self.data@
    }
}

impl Memory {
    #[verifier::type_invariant]
    spec fn fits(self) -> bool {
        self.data@.len() <= 0xFFFF_FFFF
    }

    /// A memory of `size` zero bytes.
    pub fn new(size: u32) -> (m: Memory)
        ensures
            m@ == Seq::new(size as nat, |i: int| 0u8),
    {
        let mut data: Vec<u8> = Vec::new();
        let mut n: u32 = 0;
        while n < size
            invariant
                n <= size,
                data@ == Seq::new(n as nat, |i: int| 0u8),
            decreases size - n,
        {
            data.push(0u8);
            n = n + 1;
            assert(data@ =~= Seq::new(n as nat, |i: int| 0u8));
        }
        Memory { data }
    }

    /// A memory that holds exactly the bytes of `image`; an image too large
    /// for a 32-bit address space is refused.
    pub fn from_bytes(image: Vec<u8>) -> (r: Result<Memory, Error>)
        ensures
            r is Ok <==> image@.len() <= 0xFFFF_FFFF,
            r is Ok ==> r->Ok_0@ == image@,
            r is Err ==> r->Err_0 == Error::OutOfBounds,
    {
        if image.len() > 0xFFFF_FFFF {
            Err(Error::OutOfBounds)
        } else {
            Ok(Memory { data: image })
        }
    }

    /// The capacity in bytes, which a 32-bit address can always reach.
    pub fn len(&self) -> (n: usize)
        ensures
            n == self@.len(),
            n <= 0xFFFF_FFFF,
    {
        proof {
            use_type_invariant(self);
        }
        self.data.len()
    }

    /// Whether the `width` bytes from `addr` on all lie inside the memory.
    pub fn in_bounds(&self, addr: u32, width: u32) -> (b: bool)
        requires
            width <= 4,
        ensures
            b == (addr + width <= self@.len()),
    {
        addr as u64 + width as u64 <= self.data.len() as u64
    }

    pub fn read8(&self, addr: u32) -> (r: Result<u8, Error>)
        ensures
            r is Ok <==> addr + 1 <= self@.len(),
            r is Ok ==> r->Ok_0 == self@[addr as int],
            r is Err ==> r->Err_0 == Error::OutOfBounds,
    {
        if !self.in_bounds(addr, 1) {
            return Err(Error::OutOfBounds);
        }
        Ok(self.data[addr as usize])
    }

    pub fn read16(&self, addr: u32) -> (r: Result<u16, Error>)
        ensures
            r is Ok <==> addr + 2 <= self@.len(),
            r is Ok ==> r->Ok_0 == read16_at(self@, addr as int),
            r is Err ==> r->Err_0 == Error::OutOfBounds,
    {
        if !self.in_bounds(addr, 2) {
            return Err(Error::OutOfBounds);
        }
        proof {
            use_type_invariant(&*self);
        }
        let a = addr as usize;
        let b0: u16 = self.data[a] as u16;
        let b1: u16 = self.data[a + 1] as u16;
        Ok(b0 + 0x100 * b1)
    }

    pub fn read32(&self, addr: u32) -> (r: Result<u32, Error>)
        ensures
            r is Ok <==> addr + 4 <= self@.len(),
            r is Ok ==> r->Ok_0 == read32_at(self@, addr as int),
            r is Err ==> r->Err_0 == Error::OutOfBounds,
    {
        if !self.in_bounds(addr, 4) {
            return Err(Error::OutOfBounds);
        }
        proof {
            use_type_invariant(&*self);
        }
        let a = addr as usize;
        let b0: u32 = self.data[a] as u32;
        let b1: u32 = self.data[a + 1] as u32;
        let b2: u32 = self.data[a + 2] as u32;
        let b3: u32 = self.data[a + 3] as u32;
        Ok(b0 + 0x100 * b1 + 0x1_0000 * b2 + 0x100_0000 * b3)
    }

    pub fn write8(&mut self, addr: u32, v: u8) -> (r: Result<(), Error>)
        ensures
            r is Ok <==> addr + 1 <= old(self)@.len(),
            r is Ok ==> final(self)@ == old(self)@.update(addr as int, v),
            r is Err ==> r->Err_0 == Error::OutOfBounds && final(self)@ == old(self)@,
    {
        if !self.in_bounds(addr, 1) {
            return Err(Error::OutOfBounds);
        }
        proof {
            use_type_invariant(&*self);
        }
        self.data[addr as usize] = v;
        Ok(())
    }

    pub fn write16(&mut self, addr: u32, v: u16) -> (r: Result<(), Error>)
        ensures
            r is Ok <==> addr + 2 <= old(self)@.len(),
            r is Ok ==> final(self)@ == write16_at(old(self)@, addr as int, v),
            r is Err ==> r->Err_0 == Error::OutOfBounds && final(self)@ == old(self)@,
    {
        if !self.in_bounds(addr, 2) {
            return Err(Error::OutOfBounds);
        }
        proof {
            use_type_invariant(&*self);
        }
        let a = addr as usize;
        self.data[a] = (v % 0x100) as u8;
        self.data[a + 1] = (v / 0x100) as u8;
        Ok(())
    }

    pub fn write32(&mut self, addr: u32, v: u32) -> (r: Result<(), Error>)
        ensures
            r is Ok <==> addr + 4 <= old(self)@.len(),
            r is Ok ==> final(self)@ == write32_at(old(self)@, addr as int, v),
            r is Err ==> r->Err_0 == Error::OutOfBounds && final(self)@ == old(self)@,
    {
        if !self.in_bounds(addr, 4) {
            return Err(Error::OutOfBounds);
        }
        proof {
            use_type_invariant(&*self);
        }
        let a = addr as usize;
        self.data[a] = (v % 0x100) as u8;
        self.data[a + 1] = ((v / 0x100) % 0x100) as u8;
        self.data[a + 2] = ((v / 0x1_0000) % 0x100) as u8;
        self.data[a + 3] = ((v / 0x100_0000) % 0x100) as u8;
        Ok(())
    }
}

} // verus!
