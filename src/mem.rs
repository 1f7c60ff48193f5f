//! The flat 16-bit address space.
use vstd::prelude::*;

verus! {

/// Number of addressable bytes.
pub const MEM_SIZE: usize = 0x10000;

/// The address that follows `a`, wrapping at the top of the address space.
pub open spec fn next_addr(a: u16) -> int {
    (a + 1) % 0x10000
}

/// The little-endian word made of the bytes `lo` and `hi`.
pub open spec fn word(lo: u8, hi: u8) -> int {
    lo + 256 * hi
}

/// 64 KiB of memory. Every address holds a byte; a fresh memory reads zero
/// wherever no content was given.
pub struct Memory {
    ram: Vec<u8>,
}

impl View for Memory {
    type V = Seq<u8>;

    /// The byte at each of the 65536 addresses.
    open spec fn view(&self) -> Seq<u8> {
        Seq::new(MEM_SIZE as nat, |i: int| self.byte(i))
    }
}

impl Memory {
    #[verifier::type_invariant]
    spec fn inv(self) -> bool {
        self.ram@.len() == MEM_SIZE
    }

    /// The byte stored at address `i`.
    pub closed spec fn byte(&self, i: int) -> u8 {
        self.ram@[i]
    }

    /// A memory that holds `ram` from address 0 on, and zero above it; bytes
    /// beyond the address space are not kept.
    pub fn new(ram: Vec<u8>) -> (r: Self)
        ensures
            forall|i: int| 0 <= i < MEM_SIZE ==> #[trigger] r@[i] == if i < ram@.len() {
                ram@[i]
            } else {
                0u8
            },
    {
        let mut ram = ram;
        if ram.len() > MEM_SIZE {
            ram.truncate(MEM_SIZE);
        }
        let ghost given = ram@;
        while ram.len() < MEM_SIZE
            invariant
                ram@.len() <= MEM_SIZE,
                given.len() <= ram@.len(),
                forall|i: int| 0 <= i < given.len() ==> #[trigger] ram@[i] == given[i],
                forall|i: int| given.len() <= i < ram@.len() ==> #[trigger] ram@[i] == 0u8,
            decreases MEM_SIZE - ram.len(),
        {
            ram.push(0u8);
        }
        Memory { ram }
    }

    /// The whole address space, one byte per address.
    pub fn get(&self) -> (r: &[u8])
        ensures
            r@ == self@,
    {
        proof {
            use_type_invariant(self);
        }
        assert(self.ram@ =~= self@);
        self.ram.as_slice()
    }

    /// The byte at `addr`.
    pub fn load(&self, addr: u16) -> (r: u8)
        ensures
            r == self@[addr as int],
    {
        proof {
            use_type_invariant(self);
        }
        self.ram[addr as usize]
    }

    /// The little-endian word at `addr`; the high byte comes from the next
    /// address, wrapping at the top of the address space.
    pub fn load16(&self, addr: u16) -> (r: u16)
        ensures
            r == word(self@[addr as int], self@[next_addr(addr)]),
    {
        let l = self.load(addr) as u16;
        let h = self.load(addr.wrapping_add(1)) as u16;
        l + h * 256
    }

    /// Stores `v` at `addr`.
    pub fn store(&mut self, addr: u16, v: u8)
        ensures
            final(self)@ == old(self)@.update(addr as int, v),
        no_unwind
    {
        proof {
            use_type_invariant(&*self);
        }
        self.ram[addr as usize] = v;
        assert(self@ =~= old(self)@.update(addr as int, v));
    }

    /// Stores the word `v` little-endian at `addr` and the address after it.
    pub fn store16(&mut self, addr: u16, v: u16)
        ensures
            final(self)@ == old(self)@.update(addr as int, (v % 256) as u8).update(
                next_addr(addr),
                (v / 256) as u8,
            ),
    {
        let l = (v % 256) as u8;
        let h = (v / 256) as u8;
        self.store(addr, l);
        self.store(addr.wrapping_add(1), h);
    }
}

impl Default for Memory {
    /// A memory that reads zero everywhere.
    fn default() -> (r: Self)
        ensures
            forall|i: int| 0 <= i < MEM_SIZE ==> #[trigger] r@[i] == 0u8,
    {
        Memory::new(Vec::new())
    }
}

} // verus!
