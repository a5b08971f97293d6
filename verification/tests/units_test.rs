use gbcore::cpu::CPU;
use gbcore::cpu_registers::{CPUFlags, CPURegisters, FLG_CARRY, FLG_HCARRY, FLG_SUB, FLG_ZERO};
use gbcore::emulation::Emulation;
use gbcore::gpu::GPU;
use gbcore::mbc::mbc0::MBC0;
use gbcore::mbc::{MBCBuilder, MBC};
use gbcore::mmu::{MemError, MMU};
use gbcore::ram::RAM;

fn rom_with_type(cart_type: u8) -> Vec<u8> {
    let mut rom = vec![0u8; 0x148];
    rom[0x147] = cart_type;
    rom
}

#[test]
fn test_registers_set_get_each() {
    let mut regs = CPURegisters::new();
    regs.set_a(0x11);
    assert_eq!(regs.get_a(), 0x11);
    regs.set_f(0x22);
    assert_eq!(regs.get_f(), 0x22);
    regs.set_b(0x33);
    assert_eq!(regs.get_b(), 0x33);
    regs.set_c(0x44);
    assert_eq!(regs.get_c(), 0x44);
    regs.set_d(0x55);
    assert_eq!(regs.get_d(), 0x55);
    regs.set_e(0x66);
    assert_eq!(regs.get_e(), 0x66);
    regs.set_h(0x77);
    assert_eq!(regs.get_h(), 0x77);
    regs.set_l(0x88);
    assert_eq!(regs.get_l(), 0x88);
    regs.set_sp(0xBEEF);
    assert_eq!(regs.get_sp(), 0xBEEF);
    regs.set_pc(0xCAFE);
    assert_eq!(regs.get_pc(), 0xCAFE);
}

#[test]
fn test_registers_initial_state() {
    let regs = CPURegisters::new();
    assert_eq!(regs.get_a(), 0);
    assert_eq!(regs.get_b(), 0);
    assert_eq!(regs.get_l(), 0);
    assert_eq!(regs.get_sp(), 0xFFFE);
    assert_eq!(regs.get_pc(), 0x0100);
}

#[test]
fn test_registers_pair_views() {
    let mut regs = CPURegisters::new();
    assert_eq!(regs.set_bc(0x1234), 0x1234);
    assert_eq!(regs.get_b(), 0x12);
    assert_eq!(regs.get_c(), 0x34);
    assert_eq!(regs.get_bc(), 0x1234);
    assert_eq!(regs.set_de(0xA5C3), 0xA5C3);
    assert_eq!(regs.get_d(), 0xA5);
    assert_eq!(regs.get_e(), 0xC3);
    assert_eq!(regs.get_de(), 0xA5C3);
    assert_eq!(regs.set_hl(0xFF01), 0xFF01);
    assert_eq!(regs.get_h(), 0xFF);
    assert_eq!(regs.get_l(), 0x01);
    assert_eq!(regs.get_hl(), 0xFF01);
    // Setting one half leaves the other untouched.
    regs.set_h(0x20);
    assert_eq!(regs.get_l(), 0x01);
    assert_eq!(regs.get_hl(), 0x2001);
}

#[test]
fn test_registers_pc_wraps() {
    let mut regs = CPURegisters::new();
    regs.set_pc(0xFFFF);
    assert_eq!(regs.inc_pc(), 0x0000);
    assert_eq!(regs.dec_pc(), 0xFFFF);
    regs.set_pc(0x0100);
    assert_eq!(regs.inc_pc(), 0x0101);
    assert_eq!(regs.dec_pc(), 0x0100);
}

#[test]
fn test_flags_mask_low_nibble() {
    let mut flg = CPUFlags::new();
    assert_eq!(flg.get_value(), 0);
    flg.set_value(0xFF);
    assert_eq!(flg.get_value(), 0xF0);
    flg.set_value(0xAB);
    assert_eq!(flg.get_value(), 0xA0);
    flg.set_value(0x0F);
    assert_eq!(flg.get_value(), 0x00);
    let from = CPUFlags::from_value(0x5C);
    assert_eq!(from.get_value(), 0x50);
}

#[test]
fn test_flags_named_predicates() {
    let mut flg = CPUFlags::new();
    assert_eq!(flg.set_flg_zero(true), FLG_ZERO);
    assert!(flg.get_flg_zero());
    assert_eq!(flg.set_flg_sub(true), FLG_ZERO | FLG_SUB);
    assert!(flg.get_flg_sub());
    assert_eq!(flg.set_flg_half_carry(true), FLG_ZERO | FLG_SUB | FLG_HCARRY);
    assert!(flg.get_flg_half_carry());
    assert_eq!(flg.set_flg_carry(true), FLG_ZERO | FLG_SUB | FLG_HCARRY | FLG_CARRY);
    assert!(flg.get_flg_carry());
    assert_eq!(flg.set_flg_zero(false), FLG_SUB | FLG_HCARRY | FLG_CARRY);
    assert!(!flg.get_flg_zero());
    let packed = CPUFlags::from_value(FLG_CARRY);
    assert!(packed.get_flg_carry());
    assert!(!packed.get_flg_zero());
    assert!(!packed.get_flg_sub());
    assert!(!packed.get_flg_half_carry());
}

#[test]
fn test_mbc0_read_and_bounds() {
    let mut rom = rom_with_type(0x00);
    rom[0] = 0xAA;
    rom[0x147] = 0x00;
    let mbc = MBC0::from_rom(&rom);
    assert_eq!(mbc.read(0x0000), Ok(0xAA));
    assert_eq!(mbc.read(0x0147), Ok(0x00));
    assert_eq!(mbc.read(0x0148), Err(MemError::BusFault));
    assert_eq!(mbc.read(0x3FFF), Err(MemError::BusFault));
}

#[test]
fn test_mbc0_rejects_writes() {
    let rom = rom_with_type(0x00);
    let mut mbc = MBC0::from_rom(&rom);
    // The ROM image is read-only: every write faults and the image
    // stays as it is.
    assert_eq!(mbc.write(0x0010, 0x7E), Err(MemError::BusFault));
    assert_eq!(mbc.read(0x0010), Ok(0x00));
    assert_eq!(mbc.write(0x0148, 0x7E), Err(MemError::BusFault));
}

#[test]
fn test_mbc0_empty() {
    let mbc = MBC0::new();
    assert_eq!(mbc.read(0), Err(MemError::BusFault));
    assert_eq!(mbc.get_type(), "MBC0 (ROM only)");
}

#[test]
fn test_mbc_builder_selects_variant() {
    let rom = rom_with_type(0x00);
    let built = MBCBuilder::from_rom(&rom);
    assert!(built.is_some());
    let mbc = built.unwrap();
    assert_eq!(mbc.get_type(), "MBC0 (ROM only)");
    assert_eq!(mbc.read(0x0147), Ok(0x00));

    let other = rom_with_type(0x01);
    assert!(MBCBuilder::from_rom(&other).is_none());
}

#[test]
fn test_mmu_write_read_round_trip() {
    let mut mmu = MMU::new();
    assert_eq!(mmu.rb(0x8000), Ok(0));
    assert_eq!(mmu.wb(0xC000, 0x5A), 0x5A);
    assert_eq!(mmu.rb(0xC000), Ok(0x5A));
    assert_eq!(mmu.rb(0xFFFF), Ok(0));
    assert_eq!(mmu.wb(0xFFFF, 0x01), 0x01);
    assert_eq!(mmu.rb(0xFFFF), Ok(0x01));
}

#[test]
fn test_mmu_rom_region_without_mbc() {
    let mmu = MMU::new();
    assert_eq!(mmu.rb(0x0000), Err(MemError::NoMbc));
    assert_eq!(mmu.rb(0x3FFF), Err(MemError::NoMbc));
    assert_eq!(mmu.rb(0x4000), Ok(0));
}

#[test]
fn test_mmu_reset_clears_memory() {
    let mut mmu = MMU::new();
    mmu.wb(0xC000, 0x77);
    mmu.reset();
    assert_eq!(mmu.rb(0xC000), Ok(0));
}

#[test]
fn test_mmu_read_rom_routes_rom_region() {
    let mut rom = rom_with_type(0x00);
    rom[0] = 0x3C;
    let mut mmu = MMU::new();
    mmu.read_rom(&rom);
    assert_eq!(mmu.rb(0x0000), Ok(0x3C));
    // Reads past the image's end fault even inside the ROM region.
    assert_eq!(mmu.rb(0x0200), Err(MemError::BusFault));
    // A write to the ROM region lands in the backing array and is
    // never read back through the ROM path.
    mmu.wb(0x0000, 0x99);
    assert_eq!(mmu.rb(0x0000), Ok(0x3C));
}

#[test]
fn test_mmu_read_rom_unknown_variant() {
    let rom = rom_with_type(0x01);
    let mut mmu = MMU::new();
    mmu.read_rom(&rom);
    assert_eq!(mmu.rb(0x0000), Err(MemError::NoMbc));
}

#[test]
fn test_cpu_exec_without_mbc_faults() {
    let mut cpu = CPU::new();
    // PC starts at 0x0100, inside the ROM region, with no controller.
    assert_eq!(cpu.exec_inst(), Err(MemError::NoMbc));
    // The failed fetch does not advance PC.
    assert_eq!(cpu.registers.get_pc(), 0x0100);
}

#[test]
fn test_cpu_exec_past_rom_end_faults() {
    let mut rom = rom_with_type(0x00);
    rom[0] = 0x00;
    let mut cpu = CPU::new();
    cpu.read_rom(&rom);
    cpu.registers.set_pc(0x0200);
    assert_eq!(cpu.exec_inst(), Err(MemError::BusFault));
}

#[test]
fn test_stub_units_build() {
    let _gpu = GPU::new();
    let _ram = RAM::new();
}

#[test]
fn test_emulation_from_rom() {
    let mut rom = rom_with_type(0x00);
    rom[0] = 0x3C;  // INC A
    let mut emulation = Emulation::from_rom(rom);
    assert_eq!(emulation.cpu.registers.get_pc(), 0x0100);
    assert_eq!(emulation.cpu.registers.get_sp(), 0xFFFE);
    assert_eq!(emulation.cpu.registers.get_a(), 0);
    assert_eq!(emulation.cpu.mmu.rb(0x0000), Ok(0x3C));
    emulation.cpu.registers.set_pc(0x0000);
    assert_eq!(emulation.cpu.exec_inst(), Ok(1));
    assert_eq!(emulation.cpu.registers.get_a(), 1);
}
