//! The processor's directly addressable word store.

use vstd::prelude::*;

verus! {

/// Number of words a [`Memory`] holds. Addresses count words, not bytes.
pub const MEMORY_SIZE: usize = 5 * 1024 * 1024;

/// The contents of a store in which every word is zero.
pub open spec fn zeroed() -> Seq<u32> {
    Seq::new(MEMORY_SIZE as nat, |addr: int| 0u32)
}

/// What a load from `addr` yields when the store holds `words`: the word at
/// `addr`, or nothing at or beyond the capacity.
pub open spec fn load(words: Seq<u32>, addr: int) -> Option<u32> {
    if 0 <= addr < MEMORY_SIZE {
        Some(words[addr])
    } else {
        None
    }
}

/// The contents after `value` is stored at `addr`.
pub open spec fn store(words: Seq<u32>, addr: int, value: u32) -> Seq<u32> {
    words.update(addr, value)
}

/// A store that was refused because its address reached past the last word.
/// It reports the offending address and the range a store may use.
#[derive(Debug, Clone, Copy, PartialEq, Eq)]
pub struct WriteFault {
    /// The address that was asked for.
    pub addr: usize,
    /// The lowest address a store may use.
    pub first_valid: usize,
    /// The highest address a store may use.
    pub last_valid: usize,
}

/// The fault that a store to `addr` is, if it is one: every address at or
/// beyond the capacity, and no other.
pub open spec fn write_fault(addr: usize) -> Option<WriteFault> {
    if addr < MEMORY_SIZE {
        None
    } else {
        Some(WriteFault { addr, first_valid: 0, last_valid: (MEMORY_SIZE - 1) as usize })
    }
}

/// A fixed-capacity store of 32-bit words, addressed by word index.
pub struct Memory {
    data: Vec<u32>,
}

impl View for Memory {
    type V = Seq<u32>;

    closed spec fn view(&self) -> Seq<u32> {
        Seq::new(MEMORY_SIZE as nat, |addr: int| self.data@[addr])
    }
}

impl Memory {
    #[verifier::type_invariant]
    spec fn well_formed(&self) -> bool {
        self.data@.len() == MEMORY_SIZE
    }

    /// Returns a store with every word set to zero.
    pub fn new_empty() -> (mem: Self)
        ensures
            mem@ == zeroed(),
    {
        let data: Vec<u32> = vec![0u32; MEMORY_SIZE];
        Memory { data }
    }

    /// Resets every word to zero in place. All prior contents are lost.
    pub fn clear(&mut self)
        ensures
            final(self)@ == zeroed(),
    {
        proof {
            use_type_invariant(&*self);
        }
        let mut addr: usize = 0;
        while addr < MEMORY_SIZE
            invariant
                addr <= MEMORY_SIZE,
                self.data@.len() == MEMORY_SIZE,
                forall|i: int| 0 <= i < addr ==> self.data@[i] == 0u32,
            decreases MEMORY_SIZE - addr,
        {
            self.data[addr] = 0;
            addr = addr + 1;
        }
    }

    /// Stores `value` at `addr`, which must lie within the capacity. A store
    /// outside it is a fault of the emulation itself, never of the emulated
    /// program: nothing here carries it out, and the session has to halt.
    pub fn write(&mut self, addr: usize, value: u32)
        requires
            addr < MEMORY_SIZE,
        ensures
            final(self)@ == store(old(self)@, addr as int, value),
    {
        proof {
            use_type_invariant(&*self);
        }
        self.data[addr] = value;
    }

    /// Stores `value` at `addr` if it lies within the capacity. Otherwise
    /// nothing is stored and the fault is handed back with the valid range
    /// and the offending address. Such a fault is not a condition to recover
    /// from: the caller reports it and halts the session.
    pub fn checked_write(&mut self, addr: usize, value: u32) -> (outcome: Result<(), WriteFault>)
        ensures
            match outcome {
                Ok(_) => {
                    &&& write_fault(addr) is None
                    &&& final(self)@ == store(old(self)@, addr as int, value)
                },
                Err(fault) => {
                    &&& write_fault(addr) == Some(fault)
                    &&& final(self)@ == old(self)@
                },
            },
    {
        if addr < MEMORY_SIZE {
            self.write(addr, value);
            Ok(())
        } else {
            Err(WriteFault { addr, first_valid: 0, last_valid: MEMORY_SIZE - 1 })
        }
    }

    /// Reads the word at `addr`. An address at or beyond the capacity is
    /// answered with `None`; the contents are left as they are.
    pub fn read(&mut self, addr: usize) -> (word: Option<u32>)
        ensures
            final(self)@ == old(self)@,
            word == load(old(self)@, addr as int),
            addr >= MEMORY_SIZE ==> word is None,
    {
        proof {
            use_type_invariant(&*self);
        }
        if addr < MEMORY_SIZE {
            Some(self.data[addr])
        } else {
            None
        }
    }
}

/// Every store holds exactly `MEMORY_SIZE` words.
pub proof fn lemma_capacity(mem: Memory)
    ensures
        mem@.len() == MEMORY_SIZE,
{
}

/// A word stored at an address within the capacity is the word that a read
/// of that address yields afterwards.
pub proof fn lemma_write_then_read(mem: Memory, addr: usize, value: u32)
    requires
        addr < MEMORY_SIZE,
    ensures
        load(store(mem@, addr as int, value), addr as int) == Some(value),
{
    lemma_capacity(mem);
}

/// No address at or beyond the capacity holds a word. A read of one yields
/// nothing, whatever the store holds. A write to one is a fault that names
/// the address and the valid range: `write` admits no such address, and
/// `checked_write` hands the fault back without storing anything.
pub proof fn lemma_beyond_capacity(mem: Memory, addr: usize)
    requires
        addr >= MEMORY_SIZE,
    ensures
        load(mem@, addr as int) is None,
        write_fault(addr) == Some(
            WriteFault { addr, first_valid: 0, last_valid: (MEMORY_SIZE - 1) as usize },
        ),
{
}

/// After a clear, a read of any address within the capacity yields zero.
pub proof fn lemma_clear_then_read(addr: usize)
    requires
        addr < MEMORY_SIZE,
    ensures
        load(zeroed(), addr as int) == Some(0u32),
{
}

} // verus!
