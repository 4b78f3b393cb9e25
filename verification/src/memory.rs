//! Flat 64 KiB CPU-visible memory.

use vstd::prelude::*;

verus! {

/// Number of addressable bytes.
pub const MEMORY_SIZE: usize = 0x10000;

/// The CPU's flat 64 KiB address space.
pub struct Memory {
    data: Vec<u8>,
}

/// Little-endian 16-bit value made of the bytes at `addr` and `addr + 1`
/// (the second address wraps around the top of the address space).
pub open spec fn spec_read_u16(m: Seq<u8>, addr: u16) -> u16 {
    (m[addr as int] + 256 * m[addr.wrapping_add(1) as int]) as u16
}

impl View for Memory {
    type V = Seq<u8>;

    closed spec fn view(&self) -> Seq<u8> {
        self.data@
    }
}

impl Memory {
    /// Every `Memory` holds exactly 64 KiB.
    pub open spec fn wf(&self) -> bool {
        self@.len() == MEMORY_SIZE
    }

    /// All-zero memory.
    pub fn new() -> (r: Memory)
        ensures
            r.wf(),
            forall|i: int| 0 <= i < MEMORY_SIZE ==> r@[i] == 0u8,
    {
        let mut data: Vec<u8> = Vec::new();
        let mut i: usize = 0;
        while i < MEMORY_SIZE
            invariant
                i <= MEMORY_SIZE,
                data@.len() == i,
                forall|j: int| 0 <= j < i ==> data@[j] == 0u8,
            decreases MEMORY_SIZE - i,
        {
            data.push(0);
            i = i + 1;
        }
        Memory { data }
    }

    pub fn read(&self, addr: u16) -> (r: u8)
        requires
            self.wf(),
        ensures
            r == self@[addr as int],
    {
        self.data[addr as usize]
    }

    pub fn write(&mut self, addr: u16, value: u8)
        requires
            old(self).wf(),
        ensures
            final(self).wf(),
            final(self)@ == old(self)@.update(addr as int, value),
    {
        self.data.set(addr as usize, value);
    }

    pub fn read_u16(&self, addr: u16) -> (r: u16)
        requires
            self.wf(),
        ensures
            r == spec_read_u16(self@, addr),
    {
        let lo = self.data[addr as usize] as u16;
        let hi = self.data[addr.wrapping_add(1) as usize] as u16;
        lo + 256 * hi
    }

    pub fn write_u16(&mut self, addr: u16, value: u16)
        requires
            old(self).wf(),
        ensures
            final(self).wf(),
            final(self)@ == old(self)@
                .update(addr as int, (value % 256) as u8)
                .update(addr.wrapping_add(1) as int, (value / 256) as u8),
            spec_read_u16(final(self)@, addr) == value,
    {
        let lo = (value % 256) as u8;
        let hi = (value / 256) as u8;
        self.data.set(addr as usize, lo);
        self.data.set(addr.wrapping_add(1) as usize, hi);
    }

    /// Copies `program` into memory starting at `start`; bytes that would
    /// fall past the top of the address space are dropped.
    pub fn load(&mut self, start: u16, program: &Vec<u8>)
        requires
            old(self).wf(),
        ensures
            final(self).wf(),
            forall|i: int|
                0 <= i < program@.len() && start + i < MEMORY_SIZE ==> final(self)@[start + i]
                    == program@[i],
            forall|j: int|
                0 <= j < MEMORY_SIZE && !(start <= j < start + program@.len()) ==> final(self)@[j]
                    == old(self)@[j],
    {
        let room = MEMORY_SIZE - start as usize;
        let n = if program.len() < room {
            program.len()
        } else {
            room
        };
        let mut i: usize = 0;
        while i < n
            invariant
                self.wf(),
                i <= n,
                n <= program@.len(),
                start + n <= MEMORY_SIZE,
                n == program@.len() || start + program@.len() > MEMORY_SIZE,
                forall|k: int| 0 <= k < i ==> self@[start + k] == program@[k],
                forall|j: int|
                    0 <= j < MEMORY_SIZE && !(start <= j < start + i) ==> self@[j] == old(self)@[j],
            decreases n - i,
        {
            self.data.set(start as usize + i, program[i]);
            i = i + 1;
        }
    }

    /// Resets every byte to zero.
    pub fn clear(&mut self)
        requires
            old(self).wf(),
        ensures
            final(self).wf(),
            forall|i: int| 0 <= i < MEMORY_SIZE ==> final(self)@[i] == 0u8,
    {
        let mut i: usize = 0;
        while i < MEMORY_SIZE
            invariant
                self.wf(),
                i <= MEMORY_SIZE,
                forall|j: int| 0 <= j < i ==> self@[j] == 0u8,
            decreases MEMORY_SIZE - i,
        {
            self.data.set(i, 0);
            i = i + 1;
        }
    }
}

} // verus!
