use nes_apu::cpu::{CpuMemory, CPU};

#[test]
fn memory_starts_empty_and_keeps_writes() {
    let mut mem = CpuMemory::new();
    assert_eq!(mem.read(0), 0);
    assert_eq!(mem.read(0xFFFF), 0);
    mem.write(0x1234, 0xAB);
    mem.write(0x1235, 0xCD);
    assert_eq!(mem.read(0x1234), 0xAB);
    assert_eq!(mem.read_w(0x1234), 0xCDAB);
    mem.write(0xFFFF, 0x11);
    mem.write(0x0000, 0x22);
    assert_eq!(mem.read_w(0xFFFF), 0x2211);
}

#[test]
fn power_on_registers() {
    let cpu = CPU::new(CpuMemory::new());
    assert_eq!((cpu.a, cpu.x, cpu.y), (0, 0, 0));
    assert_eq!(cpu.p, 0x24);
    assert_eq!(cpu.s, 0xFD);
    assert_eq!(cpu.pc, 0);
}

#[test]
fn init_sets_program_counter() {
    let mut cpu = CPU::new(CpuMemory::new());
    cpu.init();
    assert_eq!(cpu.pc, 0xC000);
    assert_eq!(cpu.p, 0x24);
    assert_eq!(cpu.s, 0xFD);
}

#[test]
fn cpu_reads_and_writes_memory() {
    let mut cpu = CPU::new(CpuMemory::new());
    cpu.write(0x0200, 0x7F);
    assert_eq!(cpu.read(0x0200), 0x7F);
    assert_eq!(cpu.pc, 0);
}

#[test]
fn absolute_jump() {
    let mut cpu = CPU::new(CpuMemory::new());
    cpu.init();
    cpu.write(0xC000, 0x4C);
    cpu.write(0xC001, 0xF5);
    cpu.write(0xC002, 0xC5);
    assert!(cpu.can_step());
    cpu.step();
    assert_eq!(cpu.pc, 0xC5F5);
    assert_eq!(cpu.s, 0xFD);
}

#[test]
fn indirect_jump() {
    let mut cpu = CPU::new(CpuMemory::new());
    cpu.init();
    cpu.write(0xC000, 0x6C);
    cpu.write(0xC001, 0x00);
    cpu.write(0xC002, 0x02);
    cpu.write(0x0200, 0x34);
    cpu.write(0x0201, 0x12);
    assert!(cpu.can_step());
    cpu.step();
    assert_eq!(cpu.pc, 0x1234);
}

#[test]
fn jump_wraps_around_the_address_space() {
    let mut cpu = CPU::new(CpuMemory::new());
    cpu.write(0xFFFF, 0x4C);
    cpu.write(0x0000, 0x10);
    cpu.write(0x0001, 0x20);
    cpu.pc = 0xFFFF;
    cpu.step();
    assert_eq!(cpu.pc, 0x2010);
}

#[test]
fn unsupported_opcode_is_reported() {
    let mut cpu = CPU::new(CpuMemory::new());
    cpu.init();
    assert!(!cpu.can_step());
    cpu.write(0xC000, 0xEA);
    assert!(!cpu.can_step());
}
