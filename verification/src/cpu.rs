//! The processor's architectural state.

use vstd::prelude::*;
use crate::memory::lemma_capacity;
use crate::memory::zeroed;
use crate::memory::Memory;
use crate::memory::MEMORY_SIZE;

verus! {

/// The reset vector: the address the program counter holds after a reset,
/// where the firmware begins.
pub const BIOS_START: u32 = 0xbfc00000;

/// Size of one instruction in bytes. In MIPS it is always 4.
pub const INSTRUCTION_SIZE: u32 = 4;

/// Number of general-purpose registers.
pub const NUM_REGISTERS: usize = 32;

/// The register file with every register at zero.
pub open spec fn zero_registers() -> Seq<u32> {
    Seq::new(NUM_REGISTERS as nat, |index: int| 0u32)
}

/// The address that follows `pc` by one instruction. Past the top of the
/// 32-bit address space it wraps around to the bottom.
pub open spec fn next_pc(pc: u32) -> u32 {
    ((pc + INSTRUCTION_SIZE) % 0x1_0000_0000) as u32
}

/// What a processor's state consists of.
pub struct CpuState {
    /// Address of the next instruction.
    pub pc: u32,
    /// The `NUM_REGISTERS` general-purpose registers, in order.
    pub gprs: Seq<u32>,
    /// The HI register of multiply and divide results.
    pub hi: u32,
    /// The LO register of multiply and divide results.
    pub lo: u32,
    /// The words of the attached memory.
    pub memory: Seq<u32>,
}

/// The state right after a reset: the program counter at the reset vector,
/// every register and every word of memory at zero.
pub open spec fn reset_state() -> CpuState {
    CpuState { pc: BIOS_START, gprs: zero_registers(), hi: 0, lo: 0, memory: zeroed() }
}

/// A MIPS32 processor core together with the memory it owns.
pub struct CPU {
    /// Program counter.
    pc: u32,
    /// General-purpose registers.
    gprs: [u32; NUM_REGISTERS],
    /// Special HI register.
    hi: u32,
    /// Special LO register.
    lo: u32,
    /// Memory attached to the processor.
    memory: Memory,
}

impl View for CPU {
    type V = CpuState;

    closed spec fn view(&self) -> CpuState {
        CpuState {
            pc: self.pc,
            gprs: self.gprs@,
            hi: self.hi,
            lo: self.lo,
            memory: self.memory@,
        }
    }
}

impl CPU {
    /// A processor in its reset state.
    pub fn new() -> (cpu: Self)
        ensures
            cpu@ == reset_state(),
    {
        let cpu = CPU {
            pc: BIOS_START,
            gprs: [0u32; NUM_REGISTERS],
            hi: 0,
            lo: 0,
            memory: Memory::new_empty(),
        };
        assert(cpu@.gprs =~= zero_registers());
        cpu
    }

    /// Sets all general-purpose registers to zero. The program counter, HI,
    /// LO and the memory stay as they are.
    pub fn clear_registers(&mut self)
        ensures
            final(self)@ == (CpuState { gprs: zero_registers(), ..old(self)@ }),
    {
        self.gprs = [0u32; NUM_REGISTERS];
        assert(self@.gprs =~= zero_registers());
    }

    /// Advances the program counter by one instruction, wrapping around at
    /// the top of the address space. Nothing else changes, and an aligned
    /// program counter stays aligned.
    pub fn increment_pc(&mut self)
        ensures
            final(self)@ == (CpuState { pc: next_pc(old(self)@.pc), ..old(self)@ }),
            old(self)@.pc % INSTRUCTION_SIZE == 0 ==> final(self)@.pc % INSTRUCTION_SIZE == 0,
    {
        self.pc = self.pc.wrapping_add(INSTRUCTION_SIZE);
    }

    /// The program counter.
    pub fn pc(&self) -> (pc: u32)
        ensures
            pc == self@.pc,
    {
        self.pc
    }

    /// The general-purpose register at `index`, or `None` where there is no
    /// such register.
    pub fn gpr(&self, index: usize) -> (value: Option<u32>)
        ensures
            value == if index < NUM_REGISTERS {
                Some(self@.gprs[index as int])
            } else {
                None
            },
    {
        if index < NUM_REGISTERS {
            Some(self.gprs[index])
        } else {
            None
        }
    }

    /// The HI register.
    pub fn hi(&self) -> (hi: u32)
        ensures
            hi == self@.hi,
    {
        self.hi
    }

    /// The LO register.
    pub fn lo(&self) -> (lo: u32)
        ensures
            lo == self@.lo,
    {
        self.lo
    }

    /// Points the program counter at `pc`.
    pub fn set_pc(&mut self, pc: u32)
        ensures
            final(self)@ == (CpuState { pc, ..old(self)@ }),
    {
        self.pc = pc;
    }

    /// Puts `value` into the general-purpose register at `index`. Register 0
    /// is a register like the others here: whether it should always read as
    /// zero is left for the execution loop to decide.
    pub fn set_gpr(&mut self, index: usize, value: u32)
        requires
            index < NUM_REGISTERS,
        ensures
            final(self)@ == (CpuState {
                gprs: old(self)@.gprs.update(index as int, value),
                ..old(self)@
            }),
    {
        self.gprs[index] = value;
    }

    /// Puts `hi` into the HI register.
    pub fn set_hi(&mut self, hi: u32)
        ensures
            final(self)@ == (CpuState { hi, ..old(self)@ }),
    {
        self.hi = hi;
    }

    /// Puts `lo` into the LO register.
    pub fn set_lo(&mut self, lo: u32)
        ensures
            final(self)@ == (CpuState { lo, ..old(self)@ }),
    {
        self.lo = lo;
    }

    /// The attached memory, for loads and stores.
    pub fn memory_mut(&mut self) -> (memory: &mut Memory)
        ensures
            memory@ == old(self)@.memory,
            final(self)@ == (CpuState { memory: final(memory)@, ..old(self)@ }),
    {
        &mut self.memory
    }
}

/// Every processor has exactly `NUM_REGISTERS` general-purpose registers and
/// `MEMORY_SIZE` words of memory.
pub proof fn lemma_state_shape(cpu: CPU)
    ensures
        cpu@.gprs.len() == NUM_REGISTERS,
        cpu@.memory.len() == MEMORY_SIZE,
{
    lemma_capacity(cpu.memory);
}

} // verus!
