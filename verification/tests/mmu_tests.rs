use gbcore::Cartridge;
use gbcore::mmu::BIOS_DISABLE_REGISTER_ADDRESS;
use gbcore::mmu::BIOS_END_ADDRESS;
use gbcore::mmu::BIOS_SIZE;
use gbcore::mmu::BIOS_START_ADDRESS;
use gbcore::mmu::MMU;
use gbcore::util::Fault;
use gbcore::util::Memory;

fn mmu_with_cartridge(cartridge_value: u8) -> MMU {
    let cartridge = Cartridge::maybe_from_bytes(&[cartridge_value; 0x1000]).unwrap();
    let mut mmu = MMU::default();
    mmu.cartridge = Some(cartridge);
    mmu
}

#[test]
fn bios_disabling_works() {
    let cartridge_value = 0x01;
    let bios_value = 0x02;
    let cartridge = Cartridge::maybe_from_bytes(&[cartridge_value; 0x1000]).unwrap();
    let mut mmu = MMU::default();
    mmu.cartridge = Some(cartridge);
    mmu.bios = vec![bios_value; BIOS_SIZE];

    // by default the mmu should read from the bios
    assert_eq!(mmu.read(BIOS_START_ADDRESS), bios_value);
    assert_eq!(mmu.read(BIOS_END_ADDRESS), bios_value);
    assert_eq!(mmu.read(BIOS_END_ADDRESS + 1), cartridge_value);

    // but after we disable the bios
    assert_eq!(mmu.bios_enabled(), true);
    assert_eq!(mmu.read(BIOS_DISABLE_REGISTER_ADDRESS), 0x00);
    mmu.write(BIOS_DISABLE_REGISTER_ADDRESS, 0x01).unwrap();
    assert_eq!(mmu.read(BIOS_DISABLE_REGISTER_ADDRESS), 0x01);
    assert_eq!(mmu.bios_enabled(), false);

    // we should be reading from the cartridge
    assert_eq!(mmu.read(BIOS_START_ADDRESS), cartridge_value);
    assert_eq!(mmu.read(BIOS_END_ADDRESS), cartridge_value);
    assert_eq!(mmu.read(BIOS_END_ADDRESS + 1), cartridge_value);
}

#[test]
fn bios_disable_is_a_one_way_latch() {
    let mut mmu = mmu_with_cartridge(0x01);
    mmu.bios = vec![0x02; BIOS_SIZE];
    mmu.write(BIOS_DISABLE_REGISTER_ADDRESS, 0x01).unwrap();
    assert_eq!(mmu.read(BIOS_START_ADDRESS), 0x01);
    // clearing the register back to zero must not re-enable the overlay
    mmu.write(BIOS_DISABLE_REGISTER_ADDRESS, 0x00).unwrap();
    assert_eq!(mmu.read(BIOS_DISABLE_REGISTER_ADDRESS), 0x00);
    assert_eq!(mmu.bios_enabled(), false);
    assert_eq!(mmu.read(BIOS_START_ADDRESS), 0x01);
}

#[test]
fn every_address_reads_a_defined_byte() {
    let mmu = mmu_with_cartridge(0x01);
    let mut address: u16 = 0;
    loop {
        let _ = mmu.read(address);
        if address == 0xFFFF {
            break;
        }
        address += 1;
    }
    // also with no cartridge installed
    let empty = MMU::default();
    let mut address: u16 = 0;
    loop {
        let _ = empty.read(address);
        if address == 0xFFFF {
            break;
        }
        address += 1;
    }
    assert_eq!(empty.read(0x4000), 0xFF);
}

#[test]
fn work_ram_echo_aliases_both_ways() {
    let mut mmu = MMU::default();
    mmu.write(0xC123, 0x42).unwrap();
    assert_eq!(mmu.read(0xE123), 0x42);
    mmu.write(0xF456, 0x77).unwrap();
    assert_eq!(mmu.read(0xC456), 0x77);
    assert_eq!(mmu.read(0xD456), 0x77);
}

#[test]
fn work_ram_bank_one_aliases_bank_zero() {
    let mut mmu = MMU::default();
    mmu.write(0xC010, 0x55).unwrap();
    assert_eq!(mmu.read(0xD010), 0x55);
    mmu.write(0xDFFF, 0x66).unwrap();
    assert_eq!(mmu.read(0xCFFF), 0x66);
}

#[test]
fn unusable_window_reads_sentinel_and_ignores_writes() {
    let mut mmu = MMU::default();
    assert_eq!(mmu.read(0xFEA0), 0xFF);
    assert_eq!(mmu.read(0xFEFF), 0xFF);
    mmu.write(0xFEA0, 0x12).unwrap();
    assert_eq!(mmu.read(0xFEA0), 0xFF);
}

#[test]
fn external_ram_reads_sentinel() {
    let mmu = mmu_with_cartridge(0x01);
    assert_eq!(mmu.read(0xA000), 0xFF);
    assert_eq!(mmu.read(0xBFFF), 0xFF);
}

#[test]
fn external_ram_write_is_a_fault() {
    let mut mmu = mmu_with_cartridge(0x01);
    let r = mmu.write(0xA010, 0x42);
    assert_eq!(r, Err(Fault::UnimplementedWrite { address: 0xA010, value: 0x42 }));
    // the fault changes nothing
    assert_eq!(mmu.read(0xA010), 0xFF);
}

#[test]
fn rom_window_writes_are_no_ops() {
    let mut mmu = mmu_with_cartridge(0x01);
    mmu.write(0x0234, 0x99).unwrap();
    assert_eq!(mmu.read(0x0234), 0x01);
}

#[test]
fn owned_stores_read_back_written_bytes() {
    let mut mmu = MMU::default();
    mmu.write(0x8000, 0x11).unwrap();
    assert_eq!(mmu.read(0x8000), 0x11);
    mmu.write(0xFE00, 0x22).unwrap();
    assert_eq!(mmu.read(0xFE00), 0x22);
    mmu.write(0xFF00, 0x33).unwrap();
    assert_eq!(mmu.read(0xFF00), 0x33);
    mmu.write(0xFF80, 0x44).unwrap();
    assert_eq!(mmu.read(0xFF80), 0x44);
    mmu.write(0xFFFF, 0x55).unwrap();
    assert_eq!(mmu.read(0xFFFF), 0x55);
}

#[test]
fn vram_view_reflects_writes() {
    let mut mmu = MMU::default();
    mmu.write(0x8000, 0x0A).unwrap();
    mmu.write(0x9FFF, 0x0B).unwrap();
    let vram = mmu.vram();
    assert_eq!(vram.len(), 0x2000);
    assert_eq!(vram[0], 0x0A);
    assert_eq!(vram[0x1FFF], 0x0B);
}

#[test]
fn oversized_cartridge_image_is_rejected() {
    let image = vec![0u8; 0x10000];
    assert!(Cartridge::maybe_from_bytes(&image).is_none());
    let image = vec![0u8; 0xFFFF];
    assert!(Cartridge::maybe_from_bytes(&image).is_some());
}

#[test]
fn short_cartridge_image_is_zero_padded() {
    let cartridge = Cartridge::maybe_from_bytes(&[0x42; 0x100]).unwrap();
    let mut mmu = MMU::default();
    mmu.cartridge = Some(cartridge);
    mmu.write(BIOS_DISABLE_REGISTER_ADDRESS, 0x01).unwrap();
    assert_eq!(mmu.read(0x00FF), 0x42);
    assert_eq!(mmu.read(0x0100), 0x00);
    assert_eq!(mmu.read(0x7FFF), 0x00);
}

#[test]
fn cartridge_ram_capability_is_absent() {
    let mut cartridge = Cartridge::maybe_from_bytes(&[0x42; 0x10]).unwrap();
    assert_eq!(cartridge.read_ram(0x0000), 0xFF);
    assert_eq!(cartridge.read_ram(0x1FFF), 0xFF);
    let r = cartridge.write_ram(0x0010, 0x07);
    assert_eq!(r, Err(Fault::UnimplementedWrite { address: 0x0010, value: 0x07 }));
}
