//! A linear array of bytes.

use vstd::prelude::*;

verus! {

/// A byte array of fixed length, viewed as the sequence of its bytes.
pub struct Memory {
    data: Vec<u8>,
}

impl Memory {
    /// The bytes held, by address.
    pub closed spec fn view(&self) -> Seq<u8> {
        self.data@
    }

    pub fn new(vec: Vec<u8>) -> (m: Memory)
        ensures
            m@ == vec@,
    {
        Memory { data: vec }
    }

    /// Sets every byte to zero and keeps the length.
    pub fn clear(&mut self)
        ensures
            final(self)@ == Seq::new(old(self)@.len(), |i: int| 0u8),
    {
        let n = self.data.len();
        let mut i: usize = 0;
        while i < n
            invariant
                i <= n,
                n == self.data@.len(),
                n == old(self)@.len(),
                forall|j: int| 0 <= j < i ==> self.data@[j] == 0u8,
            decreases n - i,
        {
            self.data[i] = 0;
            i += 1;
        }
        assert(self@ =~= Seq::new(old(self)@.len(), |i: int| 0u8));
    }

    /// The number of bytes, cut to 32 bits.
    pub fn capacity(&self) -> (n: u32)
        ensures
            n == self@.len() as u32,
            self@.len() <= u32::MAX ==> n == self@.len(),
    {
        self.data.len() as u32
    }

    /// Whether `address` is the address of a byte.
    pub fn contains(&self, address: u32) -> (inside: bool)
        ensures
            inside == (address < self@.len()),
    {
        (address as usize) < self.data.len()
    }

    pub fn load(&self, address: u32) -> (value: u8)
        requires
            address < self@.len(),
        ensures
            value == self@[address as int],
    {
        self.data[address as usize]
    }

    pub fn store(&mut self, address: u32, value: u8)
        requires
            address < old(self)@.len(),
        ensures
            final(self)@ == old(self)@.update(address as int, value),
    {
        self.data[address as usize] = value;
    }
}

} // verus!
