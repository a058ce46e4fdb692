//! Byte-addressable, big-endian memory with fallible word and doubleword
//! access. An access fails when any of its bytes lies past the end.

use vstd::prelude::*;

verus! {

/// The size of a freshly made memory, in bytes.
pub const CAPACITY_BYTES: usize = 64 * 1024;

/// Why a memory access failed.
#[derive(Clone, Copy, Debug, PartialEq, Eq, Structural)]
pub enum MemoryError {
    /// Some byte of the access at `address` lies past the end of memory.
    OutOfBounds { address: u64 },
}

/// The memory of the emulated machine.
#[derive(Clone, Debug)]
pub struct Memory {
    pub memory: Vec<u8>,
}

impl View for Memory {
    type V = Seq<u8>;

    open spec fn view(&self) -> Seq<u8> {
        self.memory@
    }
}

/// An access of `size` bytes at `address` lies within `mem`.
pub open spec fn fits(mem: Seq<u8>, address: u64, size: nat) -> bool {
    address + size <= mem.len()
}

/// The big-endian word made of four bytes.
pub open spec fn word_of(b: Seq<u8>) -> u32 {
    ((b[0] as u32) << 24u32) | ((b[1] as u32) << 16u32) | ((b[2] as u32) << 8u32) | (b[3] as u32)
}

/// The big-endian doubleword made of eight bytes.
pub open spec fn double_word_of(b: Seq<u8>) -> u64 {
    ((word_of(b.subrange(0, 4)) as u64) << 32u64) | (word_of(b.subrange(4, 8)) as u64)
}

/// The four bytes of a word, most significant first.
pub open spec fn word_bytes(d: u32) -> Seq<u8> {
    seq![(d >> 24u32) as u8, (d >> 16u32) as u8, (d >> 8u32) as u8, d as u8]
}

/// The eight bytes of a doubleword, most significant first.
pub open spec fn double_word_bytes(d: u64) -> Seq<u8> {
    word_bytes((d >> 32u64) as u32) + word_bytes(d as u32)
}

/// The word stored at `address`.
pub open spec fn word_at(mem: Seq<u8>, address: u64) -> u32 {
    word_of(mem.subrange(address as int, address + 4))
}

/// The doubleword stored at `address`.
pub open spec fn double_word_at(mem: Seq<u8>, address: u64) -> u64 {
    double_word_of(mem.subrange(address as int, address + 8))
}

/// `mem` with `bytes` written from `address` on.
pub open spec fn written(mem: Seq<u8>, address: u64, bytes: Seq<u8>) -> Seq<u8> {
    Seq::new(
        mem.len(),
        |i: int|
            if address <= i < address + bytes.len() {
                bytes[i - address]
            } else {
                mem[i]
            },
    )
}

/// Reading a word back gives the word that was written.
pub proof fn lemma_word_round_trip(d: u32)
    ensures
        word_of(word_bytes(d)) == d,
{
    assert(((((d >> 24u32) as u8) as u32) << 24u32) | ((((d >> 16u32) as u8) as u32) << 16u32) | ((
    ((d >> 8u32) as u8) as u32) << 8u32) | ((d as u8) as u32) == d) by (bit_vector);
}

/// Reading a doubleword back gives the doubleword that was written.
pub proof fn lemma_double_word_round_trip(d: u64)
    ensures
        double_word_of(double_word_bytes(d)) == d,
{
    let b = double_word_bytes(d);
    assert(b.subrange(0, 4) =~= word_bytes((d >> 32u64) as u32));
    assert(b.subrange(4, 8) =~= word_bytes(d as u32));
    lemma_word_round_trip((d >> 32u64) as u32);
    lemma_word_round_trip(d as u32);
    assert(((((d >> 32u64) as u32) as u64) << 32u64) | ((d as u32) as u64) == d) by (bit_vector);
}

impl Memory {
    /// A memory of [`CAPACITY_BYTES`] zero bytes.
    pub fn new() -> (m: Memory)
        ensures
            m@ == Seq::new(CAPACITY_BYTES as nat, |i: int| 0u8),
    {
        let mut memory: Vec<u8> = Vec::new();
        let mut i: usize = 0;
        while i < CAPACITY_BYTES
            invariant
                i <= CAPACITY_BYTES,
                memory@ == Seq::new(i as nat, |j: int| 0u8),
            decreases CAPACITY_BYTES - i,
        {
            memory.push(0u8);
            i = i + 1;
            assert(memory@ =~= Seq::new(i as nat, |j: int| 0u8));
        }
        Memory { memory }
    }

    /// Whether `size` bytes at `address` lie within memory.
    fn fits_at(&self, address: u64, size: u64) -> (r: bool)
        ensures
            r == fits(self@, address, size as nat),
            self@.len() <= usize::MAX,
    {
        let len = self.memory.len() as u64;
        address <= len && len - address >= size
    }

    /// Loads the big-endian word at `address`.
    pub fn load_word(&self, address: u64) -> (r: Result<u32, MemoryError>)
        ensures
            fits(self@, address, 4) ==> r == Ok::<u32, MemoryError>(word_at(self@, address)),
            !fits(self@, address, 4) ==> r == Err::<u32, MemoryError>(
                MemoryError::OutOfBounds { address },
            ),
    {
        if !self.fits_at(address, 4) {
            return Err(MemoryError::OutOfBounds { address });
        }
        let a = address as usize;
        let b0 = self.memory[a];
        let b1 = self.memory[a + 1];
        let b2 = self.memory[a + 2];
        let b3 = self.memory[a + 3];
        let r = ((b0 as u32) << 24u32) | ((b1 as u32) << 16u32) | ((b2 as u32) << 8u32) | (b3 as u32);
        Ok(r)
    }

    /// Loads the big-endian doubleword at `address`.
    pub fn load_double_word(&self, address: u64) -> (r: Result<u64, MemoryError>)
        ensures
            fits(self@, address, 8) ==> r == Ok::<u64, MemoryError>(
                double_word_at(self@, address),
            ),
            !fits(self@, address, 8) ==> r == Err::<u64, MemoryError>(
                MemoryError::OutOfBounds { address },
            ),
    {
        if !self.fits_at(address, 8) {
            return Err(MemoryError::OutOfBounds { address });
        }
        let high = match self.load_word(address) {
            Ok(w) => w,
            Err(e) => return Err(e),
        };
        let low = match self.load_word(address + 4) {
            Ok(w) => w,
            Err(e) => return Err(e),
        };
        proof {
            let b = self@.subrange(address as int, address + 8);
            assert(b.subrange(0, 4) =~= self@.subrange(address as int, address + 4));
            assert(b.subrange(4, 8) =~= self@.subrange(address + 4, address + 8));
        }
        Ok(((high as u64) << 32u64) | (low as u64))
    }

    /// Stores `data` as a big-endian word at `address`; on failure memory is
    /// unchanged.
    pub fn store_word(&mut self, address: u64, data: u32) -> (r: Result<(), MemoryError>)
        ensures
            fits(old(self)@, address, 4) ==> r is Ok && final(self)@ == written(
                old(self)@,
                address,
                word_bytes(data),
            ),
            !fits(old(self)@, address, 4) ==> r == Err::<(), MemoryError>(
                MemoryError::OutOfBounds { address },
            ) && final(self)@ == old(self)@,
    {
        if !self.fits_at(address, 4) {
            return Err(MemoryError::OutOfBounds { address });
        }
        let a = address as usize;
        self.memory.set(a, #[verifier::truncate] ((data >> 24u32) as u8));
        self.memory.set(a + 1, #[verifier::truncate] ((data >> 16u32) as u8));
        self.memory.set(a + 2, #[verifier::truncate] ((data >> 8u32) as u8));
        self.memory.set(a + 3, #[verifier::truncate] (data as u8));
        assert(self@ =~= written(old(self)@, address, word_bytes(data)));
        Ok(())
    }

    /// Stores `data` as a big-endian doubleword at `address`; on failure
    /// memory is unchanged.
    pub fn store_double_word(&mut self, address: u64, data: u64) -> (r: Result<(), MemoryError>)
        ensures
            fits(old(self)@, address, 8) ==> r is Ok && final(self)@ == written(
                old(self)@,
                address,
                double_word_bytes(data),
            ),
            !fits(old(self)@, address, 8) ==> r == Err::<(), MemoryError>(
                MemoryError::OutOfBounds { address },
            ) && final(self)@ == old(self)@,
    {
        if !self.fits_at(address, 8) {
            return Err(MemoryError::OutOfBounds { address });
        }
        let ghost old_mem = self@;
        let _ = self.store_word(address, #[verifier::truncate] ((data >> 32u64) as u32));
        let _ = self.store_word(address + 4, #[verifier::truncate] (data as u32));
        assert(self@ =~= written(old_mem, address, double_word_bytes(data)));
        Ok(())
    }
}

impl Default for Memory {
    fn default() -> (m: Memory)
        ensures
            m@ == Seq::new(CAPACITY_BYTES as nat, |i: int| 0u8),
    {
        Memory::new()
    }
}

} // verus!
