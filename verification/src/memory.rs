//! A flat, fixed-size byte store with little-endian 64-bit accessors.
//!
//! The store is a zero-initialized sequence of bytes addressed `0..size`,
//! where `size` is fixed at construction. Multi-byte values occupy 8
//! consecutive bytes in little-endian order, with no alignment requirement.
//! All accessors demand in-range addresses; a 64-bit access needs 8 bytes of
//! headroom.
use vstd::prelude::*;

verus! {

/// Reads the 8 bytes at `addr` as one little-endian 64-bit value.
pub open spec fn u64_from_le_at(mem: Seq<u8>, addr: int) -> u64 {
    (mem[addr] as u64) | ((mem[addr + 1] as u64) << 8) | ((mem[addr + 2] as u64) << 16)
        | ((mem[addr + 3] as u64) << 24) | ((mem[addr + 4] as u64) << 32)
        | ((mem[addr + 5] as u64) << 40) | ((mem[addr + 6] as u64) << 48)
        | ((mem[addr + 7] as u64) << 56)
}

/// The store after placing `value` at `addr` as 8 little-endian bytes.
pub open spec fn spec_write_u64_at(mem: Seq<u8>, addr: int, value: u64) -> Seq<u8> {
    mem.update(addr, value as u8).update(addr + 1, (value >> 8) as u8).update(
        addr + 2,
        (value >> 16) as u8,
    ).update(addr + 3, (value >> 24) as u8).update(addr + 4, (value >> 32) as u8).update(
        addr + 5,
        (value >> 40) as u8,
    ).update(addr + 6, (value >> 48) as u8).update(addr + 7, (value >> 56) as u8)
}

/// Writing a 64-bit value and reading it back at the same address yields the
/// value unchanged, for any address with 8 bytes of headroom.
pub proof fn lemma_write_u64_read_u64(mem: Seq<u8>, addr: int, value: u64)
    requires
        0 <= addr,
        addr + 8 <= mem.len(),
    ensures
        u64_from_le_at(spec_write_u64_at(mem, addr, value), addr) == value,
{
    let w = spec_write_u64_at(mem, addr, value);
    assert(w[addr] == value as u8);
    assert(w[addr + 1] == (value >> 8) as u8);
    assert(w[addr + 2] == (value >> 16) as u8);
    assert(w[addr + 3] == (value >> 24) as u8);
    assert(w[addr + 4] == (value >> 32) as u8);
    assert(w[addr + 5] == (value >> 40) as u8);
    assert(w[addr + 6] == (value >> 48) as u8);
    assert(w[addr + 7] == (value >> 56) as u8);
    assert(((value as u8) as u64) | ((((value >> 8) as u8) as u64) << 8) | ((((value >> 16) as u8)
        as u64) << 16) | ((((value >> 24) as u8) as u64) << 24) | ((((value >> 32) as u8) as u64)
        << 32) | ((((value >> 40) as u8) as u64) << 40) | ((((value >> 48) as u8) as u64) << 48) | (
    (((value >> 56) as u8) as u64) << 56) == value) by (bit_vector);
}

/// A fixed-size linear byte store.
pub struct Memory {
    memory: Vec<u8>,
}

impl View for Memory {
    type V = Seq<u8>;

    closed spec fn view(&self) -> Seq<u8> {
        self.memory@
    }
}

impl Memory {
    /// Allocates `size` zero-filled bytes.
    ///
    /// `size` must fit the host's addressing width; the store is meant for
    /// hosts whose addresses are at least 64 bits wide.
    pub fn new(size: u64) -> (m: Memory)
        requires
            size <= usize::MAX,
        ensures
            m@ == Seq::new(size as nat, |i: int| 0u8),
    {
        let len = size as usize;
        let mut memory: Vec<u8> = Vec::new();
        while memory.len() < len
            invariant
                memory@.len() <= len,
                forall|i: int| 0 <= i < memory@.len() ==> memory@[i] == 0u8,
            decreases len - memory@.len(),
        {
            memory.push(0);
        }
        proof {
            assert(memory@ =~= Seq::new(size as nat, |i: int| 0u8));
        }
        Memory { memory }
    }

    /// The store's size in bytes, fixed at construction.
    pub fn len(&self) -> (n: u64)
        ensures
            n == self@.len(),
    {
        self.memory.len() as u64
    }

    /// Returns the byte at `address`.
    pub fn read(&self, address: u64) -> (value: u8)
        requires
            address < self@.len(),
        ensures
            value == self@[address as int],
    {
        let n = self.memory.len();
        assert(address < n);
        self.memory[address as usize]
    }

    /// Stores `value` at `address`.
    pub fn write(&mut self, address: u64, value: u8)
        requires
            address < old(self)@.len(),
        ensures
            final(self)@ == old(self)@.update(address as int, value),
    {
        let n = self.memory.len();
        assert(address < n);
        self.memory.set(address as usize, value);
    }

    /// Reads the 8 consecutive bytes starting at `address`, little-endian.
    pub fn read_u64(&self, address: u64) -> (value: u64)
        requires
            address + 8 <= self@.len(),
        ensures
            value == u64_from_le_at(self@, address as int),
    {
        let n = self.memory.len();
        assert(address + 8 <= n);
        let b0 = self.read(address);
        let b1 = self.read(address + 1);
        let b2 = self.read(address + 2);
        let b3 = self.read(address + 3);
        let b4 = self.read(address + 4);
        let b5 = self.read(address + 5);
        let b6 = self.read(address + 6);
        let b7 = self.read(address + 7);
        (b0 as u64) | ((b1 as u64) << 8) | ((b2 as u64) << 16) | ((b3 as u64) << 24) | ((b4 as u64)
            << 32) | ((b5 as u64) << 40) | ((b6 as u64) << 48) | ((b7 as u64) << 56)
    }

    /// Writes `value` as 8 consecutive little-endian bytes starting at
    /// `address`.
    pub fn write_u64(&mut self, address: u64, value: u64)
        requires
            address + 8 <= old(self)@.len(),
        ensures
            final(self)@ == spec_write_u64_at(old(self)@, address as int, value),
            final(self)@.len() == old(self)@.len(),
    {
        let n = self.memory.len();
        assert(address + 8 <= n);
        self.write(address, #[verifier::truncate] (value as u8));
        self.write(address + 1, #[verifier::truncate] ((value >> 8) as u8));
        self.write(address + 2, #[verifier::truncate] ((value >> 16) as u8));
        self.write(address + 3, #[verifier::truncate] ((value >> 24) as u8));
        self.write(address + 4, #[verifier::truncate] ((value >> 32) as u8));
        self.write(address + 5, #[verifier::truncate] ((value >> 40) as u8));
        self.write(address + 6, #[verifier::truncate] ((value >> 48) as u8));
        self.write(address + 7, #[verifier::truncate] ((value >> 56) as u8));
    }
}

} // verus!
