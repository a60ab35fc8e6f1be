use mips_core::cpu::BIOS_START;
use mips_core::cpu::CPU;
use mips_core::cpu::INSTRUCTION_SIZE;
use mips_core::cpu::NUM_REGISTERS;
use mips_core::memory::MEMORY_SIZE;

#[test]
fn constants_of_the_architecture() {
    assert_eq!(BIOS_START, 0xbfc0_0000);
    assert_eq!(INSTRUCTION_SIZE, 4);
    assert_eq!(NUM_REGISTERS, 32);
}

#[test]
fn new_starts_at_the_reset_vector_with_zero_registers() {
    let cpu = CPU::new();
    assert_eq!(cpu.pc(), 0xbfc0_0000);
    assert_eq!(cpu.hi(), 0);
    assert_eq!(cpu.lo(), 0);
    let mut index = 0;
    while index < 32 {
        assert_eq!(cpu.gpr(index), Some(0));
        index += 1;
    }
}

#[test]
fn new_has_zeroed_memory() {
    let mut cpu = CPU::new();
    assert_eq!(cpu.memory_mut().read(0), Some(0));
    assert_eq!(cpu.memory_mut().read(MEMORY_SIZE - 1), Some(0));
    assert_eq!(cpu.memory_mut().read(MEMORY_SIZE), None);
}

#[test]
fn gpr_beyond_the_last_register_is_none() {
    let cpu = CPU::new();
    assert_eq!(cpu.gpr(31), Some(0));
    assert_eq!(cpu.gpr(32), None);
    assert_eq!(cpu.gpr(usize::MAX), None);
}

#[test]
fn increment_pc_advances_by_one_instruction() {
    let mut cpu = CPU::new();
    cpu.increment_pc();
    assert_eq!(cpu.pc(), 0xbfc0_0004);
    cpu.increment_pc();
    assert_eq!(cpu.pc(), 0xbfc0_0008);
}

#[test]
fn increment_pc_wraps_to_zero_at_the_top() {
    let mut cpu = CPU::new();
    cpu.set_pc(0xffff_fffc);
    cpu.increment_pc();
    assert_eq!(cpu.pc(), 0);
}

#[test]
fn increment_pc_wraps_an_unaligned_counter_too() {
    let mut cpu = CPU::new();
    cpu.set_pc(0xffff_ffff);
    cpu.increment_pc();
    assert_eq!(cpu.pc(), 3);
}

#[test]
fn increment_pc_touches_nothing_else() {
    let mut cpu = CPU::new();
    cpu.set_gpr(1, 10);
    cpu.set_hi(20);
    cpu.set_lo(30);
    cpu.memory_mut().write(5, 40);
    cpu.increment_pc();
    assert_eq!(cpu.gpr(1), Some(10));
    assert_eq!(cpu.hi(), 20);
    assert_eq!(cpu.lo(), 30);
    assert_eq!(cpu.memory_mut().read(5), Some(40));
}

#[test]
fn clear_registers_zeroes_all_and_keeps_pc_hi_lo() {
    let mut cpu = CPU::new();
    let mut index = 0;
    while index < NUM_REGISTERS {
        cpu.set_gpr(index, 0x1000 + index as u32);
        index += 1;
    }
    cpu.set_pc(0x8000_1000);
    cpu.set_hi(0xaaaa_aaaa);
    cpu.set_lo(0x5555_5555);
    cpu.clear_registers();
    let mut index = 0;
    while index < NUM_REGISTERS {
        assert_eq!(cpu.gpr(index), Some(0));
        index += 1;
    }
    assert_eq!(cpu.pc(), 0x8000_1000);
    assert_eq!(cpu.hi(), 0xaaaa_aaaa);
    assert_eq!(cpu.lo(), 0x5555_5555);
}

#[test]
fn clear_registers_keeps_the_memory() {
    let mut cpu = CPU::new();
    cpu.memory_mut().write(12, 34);
    cpu.set_gpr(2, 56);
    cpu.clear_registers();
    assert_eq!(cpu.memory_mut().read(12), Some(34));
    assert_eq!(cpu.gpr(2), Some(0));
}

#[test]
fn set_gpr_changes_one_register() {
    let mut cpu = CPU::new();
    cpu.set_gpr(7, 70);
    cpu.set_gpr(31, 310);
    assert_eq!(cpu.gpr(7), Some(70));
    assert_eq!(cpu.gpr(31), Some(310));
    assert_eq!(cpu.gpr(6), Some(0));
    assert_eq!(cpu.gpr(8), Some(0));
    assert_eq!(cpu.pc(), BIOS_START);
}

#[test]
fn register_zero_holds_what_is_put_into_it() {
    let mut cpu = CPU::new();
    cpu.set_gpr(0, 99);
    assert_eq!(cpu.gpr(0), Some(99));
}

#[test]
fn setters_change_their_own_register_only() {
    let mut cpu = CPU::new();
    cpu.set_hi(1);
    assert_eq!((cpu.pc(), cpu.hi(), cpu.lo()), (BIOS_START, 1, 0));
    cpu.set_lo(2);
    assert_eq!((cpu.pc(), cpu.hi(), cpu.lo()), (BIOS_START, 1, 2));
    cpu.set_pc(3);
    assert_eq!((cpu.pc(), cpu.hi(), cpu.lo()), (3, 1, 2));
    assert_eq!(cpu.gpr(0), Some(0));
}

#[test]
fn memory_of_the_processor_round_trips() {
    let mut cpu = CPU::new();
    cpu.memory_mut().write(MEMORY_SIZE - 1, 0xcafe);
    assert_eq!(cpu.memory_mut().read(MEMORY_SIZE - 1), Some(0xcafe));
    cpu.memory_mut().clear();
    assert_eq!(cpu.memory_mut().read(MEMORY_SIZE - 1), Some(0));
    assert_eq!(cpu.pc(), BIOS_START);
}
