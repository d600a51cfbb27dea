use vstd::prelude::*;

use crate::arith::{le32_at, signed32, signed8, store_le32};
use crate::fault::Fault;

verus! {

/// A flat, byte-addressable store, addressed by unsigned 32-bit offsets and
/// read and written with little-endian multi-byte accessors.
pub struct Memory {
    v: Vec<u8>,
}

impl View for Memory {
    type V = Seq<u8>;

    closed spec fn view(&self) -> Seq<u8> {
        self.v@
    }
}

impl Memory {
    /// Every buffer this crate builds is addressable by `u32` offsets.
    pub open spec fn wf(self) -> bool {
        self@.len() <= 0xFFFF_FFFF
    }

    /// A zero-initialized buffer of `sz` bytes.
    pub fn new(sz: u32) -> (r: Self)
        ensures
            r.wf(),
            r@.len() == sz,
            forall|j: int| 0 <= j < sz ==> r@[j] == 0u8,
    {
        let mut v: Vec<u8> = Vec::new();
        while v.len() < sz as usize
            invariant
                v@.len() <= sz,
                forall|j: int| 0 <= j < v@.len() ==> v@[j] == 0u8,
            decreases sz as int - v@.len(),
        {
            v.push(0u8);
        }
        Memory { v }
    }

    /// The buffer size in bytes.
    pub fn size(&self) -> (r: u32)
        requires
            self.wf(),
        ensures
            r == self@.len(),
    {
        self.v.len() as u32
    }

    /// Copies `bin` into the buffer starting at offset `at`. Fails, leaving
    /// the buffer untouched, exactly when the image would not fit.
    pub fn load_bin(&mut self, bin: &[u8], at: usize) -> (r: Result<(), Fault>)
        ensures
            final(self).wf() == old(self).wf(),
            final(self)@.len() == old(self)@.len(),
            r is Ok <==> at + bin@.len() <= old(self)@.len(),
            r is Ok ==> forall|j: int|
                0 <= j < old(self)@.len() ==> final(self)@[j] == if at <= j < at + bin@.len() {
                    bin@[j - at]
                } else {
                    old(self)@[j]
                },
            r is Err ==> final(self)@ == old(self)@ && r->Err_0 == Fault::OutOfBounds,
    {
        let n: usize = self.v.len();
        if at > n || bin.len() > n - at {
            return Err(Fault::OutOfBounds);
        }
        let mut i: usize = 0;
        while i < bin.len()
            invariant
                i <= bin@.len(),
                at + bin@.len() <= n,
                n == self.v@.len(),
                self.v@.len() == old(self).v@.len(),
                forall|j: int|
                    0 <= j < self.v@.len() ==> self.v@[j] == if at <= j < at + i {
                        bin@[j - at]
                    } else {
                        old(self).v@[j]
                    },
            decreases bin@.len() - i,
        {
            self.v[at + i] = bin[i];
            i = i + 1;
        }
        Ok(())
    }

    /// One byte, unsigned.
    pub fn read_u8(&self, i: u32) -> (r: u8)
        requires
            i < self@.len(),
        ensures
            r == self@[i as int],
    {
        self.v[i as usize]
    }

    /// One byte, reinterpreted as a signed 8-bit value.
    pub fn read_i8(&self, i: u32) -> (r: i8)
        requires
            i < self@.len(),
        ensures
            r as int == signed8(self@[i as int]),
    {
        let b: u8 = self.v[i as usize];
        if b < 0x80 {
            b as i8
        } else {
            -((0xFFu8 - b) as i8) - 1
        }
    }

    /// Four bytes decoded little-endian, unsigned.
    pub fn read_u32(&self, i: u32) -> (r: u32)
        requires
            self.wf(),
            i + 4 <= self@.len(),
        ensures
            r == le32_at(self@, i as int),
    {
        let b0: u8 = self.v[i as usize];
        let b1: u8 = self.v[(i + 1) as usize];
        let b2: u8 = self.v[(i + 2) as usize];
        let b3: u8 = self.v[(i + 3) as usize];
        b0 as u32 + b1 as u32 * 0x100 + b2 as u32 * 0x1_0000 + b3 as u32 * 0x100_0000
    }

    /// Four bytes decoded little-endian, reinterpreted as a signed 32-bit
    /// value.
    pub fn read_i32(&self, i: u32) -> (r: i32)
        requires
            self.wf(),
            i + 4 <= self@.len(),
        ensures
            r as int == signed32(le32_at(self@, i as int)),
    {
        let u: u32 = self.read_u32(i);
        if u < 0x8000_0000 {
            u as i32
        } else {
            -((0xFFFF_FFFFu32 - u) as i32) - 1
        }
    }

    /// Encodes `v` little-endian at offsets `i..i+4`.
    pub fn write_u32(&mut self, i: u32, v: u32)
        requires
            old(self).wf(),
            i + 4 <= old(self)@.len(),
        ensures
            final(self)@ == store_le32(old(self)@, i as int, v as int),
            final(self).wf() == old(self).wf(),
    {
        self.v[i as usize] = (v % 0x100) as u8;
        self.v[(i + 1) as usize] = ((v / 0x100) % 0x100) as u8;
        self.v[(i + 2) as usize] = ((v / 0x1_0000) % 0x100) as u8;
        self.v[(i + 3) as usize] = ((v / 0x100_0000) % 0x100) as u8;
    }
}

} // verus!
