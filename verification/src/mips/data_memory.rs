//! The data memory of the processor: 1000 bytes, byte-addressable and
//! zero-initialized. Words are stored big-endian (most significant byte at the
//! lowest address) and word accesses require four-byte alignment.

use crate::word::{i32_of_u32, lemma_u32_of_i32, u32_of_i32};
use vstd::prelude::*;

verus! {

/// The number of bytes of data memory.
pub const MEM_SIZE: usize = 1000;

/// The signed word stored big-endian at the four bytes starting at `addr`.
pub open spec fn spec_word_at(mem: Seq<u8>, addr: int) -> i32
    recommends
        0 <= addr,
        addr + 4 <= mem.len(),
{
    i32_of_u32(
        (mem[addr] * 0x100_0000 + mem[addr + 1] * 0x1_0000 + mem[addr + 2] * 0x100 + mem[addr
            + 3]) as u32,
    )
}

/// The memory after storing the word big-endian at the four bytes starting at
/// `addr`.
pub open spec fn spec_write_word(mem: Seq<u8>, addr: int, data: i32) -> Seq<u8>
    recommends
        0 <= addr,
        addr + 4 <= mem.len(),
{
    let p = u32_of_i32(data);
    mem.update(addr, (p / 0x100_0000) as u8).update(addr + 1, ((p / 0x1_0000) % 0x100) as u8)
        .update(addr + 2, ((p / 0x100) % 0x100) as u8).update(addr + 3, (p % 0x100) as u8)
}

/// Storing a word and reading it back at the same address yields the word,
/// whatever the memory held before.
pub proof fn lemma_word_round_trip(mem: Seq<u8>, addr: int, data: i32)
    requires
        0 <= addr,
        addr + 4 <= mem.len(),
    ensures
        spec_word_at(spec_write_word(mem, addr, data), addr) == data,
{
    let p = u32_of_i32(data);
    lemma_byte_recomposition(p);
    lemma_u32_of_i32(data);
}

proof fn lemma_byte_recomposition(p: u32)
    ensures
        (p / 0x100_0000) * 0x100_0000 + ((p / 0x1_0000) % 0x100) * 0x1_0000 + ((p / 0x100) % 0x100)
            * 0x100 + (p % 0x100) == p,
        p / 0x100_0000 < 0x100,
{
    assert((p / 0x100_0000) * 0x100_0000 + ((p / 0x1_0000) % 0x100) * 0x1_0000 + ((p / 0x100)
        % 0x100) * 0x100 + (p % 0x100) == p) by (nonlinear_arith);
}

pub struct DataMemory {
    contents: Vec<u8>,
}

impl View for DataMemory {
    type V = Seq<u8>;

    /// The bytes of the memory, by address.
    closed spec fn view(&self) -> Seq<u8> {
        self.contents@
    }
}

impl DataMemory {
    pub open spec fn wf(&self) -> bool {
        self@.len() == MEM_SIZE
    }

    /// Every byte holds zero.
    pub open spec fn all_zero(&self) -> bool {
        forall|i: int| 0 <= i < self@.len() ==> self@[i] == 0
    }

    /// 1000 bytes of byte-addressable memory, each byte initialized to 0.
    pub fn new() -> (r: DataMemory)
        ensures
            r.wf(),
            r.all_zero(),
    {
        let mut contents: Vec<u8> = Vec::new();
        let mut i: usize = 0;
        while i < MEM_SIZE
            invariant
                i <= MEM_SIZE,
                contents@.len() == i,
                forall|j: int| 0 <= j < i ==> contents@[j] == 0,
            decreases MEM_SIZE - i,
        {
            contents.push(0);
            i = i + 1;
        }
        DataMemory { contents }
    }

    /// The byte at the index, or nothing when the index is out of range.
    pub fn get_byte(&self, idx: usize) -> (r: Option<u8>)
        ensures
            r == if idx < self@.len() {
                Some(self@[idx as int])
            } else {
                None::<u8>
            },
    {
        if idx >= self.contents.len() {
            return None;
        }
        Some(self.contents[idx])
    }

    /// The word stored big-endian at the address. Returns the value only when
    /// the read signal is set, the address is word-aligned and it is in range.
    pub fn get_word(&self, word_addr: usize, mem_read_sig: bool) -> (r: Option<i32>)
        requires
            self.wf(),
        ensures
            r == if mem_read_sig && word_addr % 4 == 0 && word_addr < MEM_SIZE {
                Some(spec_word_at(self@, word_addr as int))
            } else {
                None::<i32>
            },
    {
        if mem_read_sig {
            if word_addr % 4 == 0 && word_addr < self.contents.len() {
                let b0 = self.contents[word_addr] as u32;
                let b1 = self.contents[word_addr + 1] as u32;
                let b2 = self.contents[word_addr + 2] as u32;
                let b3 = self.contents[word_addr + 3] as u32;
                let word = b0 * 0x100_0000 + b1 * 0x1_0000 + b2 * 0x100 + b3;
                return Some(crate::word::from_bits(word));
            }
        }
        None
    }

    /// Stores the word big-endian at the address when the write signal is set.
    /// A misaligned address is a recoverable error; the caller guarantees that
    /// an aligned write never runs past the end of memory.
    pub fn write_word_to_address(&mut self, address: usize, data: i32, mem_write_sig: bool) -> (r:
        Result<(), &'static str>)
        requires
            old(self).wf(),
            mem_write_sig && address % 4 == 0 ==> address + 4 <= MEM_SIZE,
        ensures
            final(self).wf(),
            mem_write_sig && address % 4 != 0 ==> r is Err && final(self)@ == old(self)@,
            mem_write_sig && address % 4 == 0 ==> r is Ok && final(self)@ == spec_write_word(
                old(self)@,
                address as int,
                data,
            ),
            !mem_write_sig ==> r is Ok && final(self)@ == old(self)@,
    {
        if mem_write_sig {
            if address % 4 != 0 {
                return Err("Only allowed to write words on addresses that are multiples of 4.");
            }
            let p = crate::word::to_bits(data);
            proof {
                lemma_byte_recomposition(p);
            }
            self.contents.set(address, (p / 0x100_0000) as u8);
            self.contents.set(address + 1, ((p / 0x1_0000) % 0x100) as u8);
            self.contents.set(address + 2, ((p / 0x100) % 0x100) as u8);
            self.contents.set(address + 3, (p % 0x100) as u8);
        }
        Ok(())
    }

    /// Every byte paired with its address, in address order.
    pub fn get_contents(&self) -> (r: Vec<(u32, u8)>)
        requires
            self.wf(),
        ensures
            r@.len() == self@.len(),
            forall|i: int| 0 <= i < self@.len() ==> r@[i] == (i as u32, self@[i]),
    {
        let mut v: Vec<(u32, u8)> = Vec::new();
        let mut i: usize = 0;
        while i < self.contents.len()
            invariant
                self.wf(),
                i <= self@.len(),
                v@.len() == i,
                forall|j: int| 0 <= j < i ==> v@[j] == (j as u32, self@[j]),
            decreases self@.len() - i,
        {
            v.push((i as u32, self.contents[i]));
            i = i + 1;
        }
        v
    }

    /// Zeroes all 1000 bytes.
    pub fn reset_contents(&mut self)
        ensures
            final(self).wf(),
            final(self).all_zero(),
    {
        *self = DataMemory::new();
    }
}

} // verus!
