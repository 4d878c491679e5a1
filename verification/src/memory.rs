//! Flat byte-addressable storage.

use vstd::prelude::*;

verus! {

/// The big-endian 16-bit word made of the bytes `hi` and `lo`.
pub open spec fn word(hi: u8, lo: u8) -> u16 {
    (hi * 256 + lo) as u16
}

/// A byte store addressed from zero. Every access must stay below
/// `bytes().len()`.
pub trait Memory {
    /// The stored bytes, in address order.
    spec fn bytes(&self) -> Seq<u8>;

    /// Reads the big-endian word held at `idx` and `idx + 1`.
    fn get_u16(&self, idx: usize) -> (value: u16)
        requires
            idx + 1 < self.bytes().len(),
        ensures
            value == word(self.bytes()[idx as int], self.bytes()[idx + 1]),
    ;

    /// Writes `value` at `idx` and leaves every other byte alone.
    fn set_u8(&mut self, idx: usize, value: u8)
        requires
            idx < old(self).bytes().len(),
        ensures
            final(self).bytes() == old(self).bytes().update(idx as int, value),
    ;

    /// Reads the byte at `idx`.
    fn get_u8(&self, idx: usize) -> (value: u8)
        requires
            idx < self.bytes().len(),
        ensures
            value == self.bytes()[idx as int],
    ;

    /// Zeroes every byte; the size stays the same.
    fn clear(&mut self)
        ensures
            final(self).bytes() == Seq::new(old(self).bytes().len(), |a: int| 0u8),
    ;
}

/// Memory backed by a vector of bytes.
#[derive(Default)]
pub struct Data {
    pub data: Vec<u8>,
}

impl Data {
    /// A store of `size` zero bytes.
    pub fn new(size: usize) -> (memory: Data)
        ensures
            memory.data@ == Seq::new(size as nat, |a: int| 0u8),
    {
        let data: Vec<u8> = vec![0x0; size];
        assert(data@ =~= Seq::new(size as nat, |a: int| 0u8));
        Data { data }
    }
}

impl Memory for Data {
    open spec fn bytes(&self) -> Seq<u8> {
        self.data@
    }

    fn get_u16(&self, idx: usize) -> (value: u16) {
        assert(self.data@.len() == self.data.len());
        let hi: u16 = self.data[idx] as u16;
        let lo: u16 = self.data[idx + 1] as u16;
        assert(hi << 8 | lo == hi * 256 + lo) by (bit_vector)
            requires
                hi < 256,
                lo < 256,
        ;
        hi << 8 | lo
    }

    fn set_u8(&mut self, idx: usize, value: u8) {
        self.data[idx] = value;
    }

    fn get_u8(&self, idx: usize) -> (value: u8) {
        self.data[idx]
    }

    fn clear(&mut self) {
        let n: usize = self.data.len();
        let mut a: usize = 0;
        while a < n
            invariant
                a <= n,
                n == self.data.len(),
                forall|k: int| 0 <= k < a ==> self.data[k] == 0u8,
            decreases n - a,
        {
            self.data[a] = 0;
            a += 1;
        }
        assert(self.data@ =~= Seq::new(n as nat, |k: int| 0u8));
    }
}

} // verus!
