use dmg_core::bus::MemoryBus;
use dmg_core::cartridge::Cartridge;
use dmg_core::cartridge_type::CartridgeType;
use dmg_core::destination::Destination;
use dmg_core::errors::EmuError;

fn sample_rom() -> Vec<u8> {
    let mut rom = vec![0u8; 0x8000];
    // title "TEST", NUL-trimmed
    rom[0x134] = b'T';
    rom[0x135] = b'E';
    rom[0x136] = b'S';
    rom[0x137] = b'T';
    rom[0x143] = 0x80; // CGB flag
    rom[0x144] = b'0';
    rom[0x145] = b'1';
    rom[0x146] = 0x03; // SGB flag
    rom[0x147] = 0x00; // ROM only
    rom[0x148] = 0x02;
    rom[0x149] = 0x01;
    rom[0x14A] = 0x01; // Overseas
    rom[0x14B] = 0x33;
    rom[0x14C] = 0x02;
    rom[0x14D] = 0x5A;
    rom[0x14E] = 0x12; // global checksum, big-endian
    rom[0x14F] = 0x34;
    rom
}

#[test]
fn cartridge_header_fields_decoded() {
    let cart = Cartridge::load(sample_rom()).unwrap();
    assert_eq!(cart.game_title, b"TEST".to_vec());
    assert_eq!(cart.cgb_flag, 0x80);
    assert_eq!(cart.licensee_code, b"01".to_vec());
    assert_eq!(cart.sgb_flag, 0x03);
    assert_eq!(cart.cartridge_type, CartridgeType::RomOnly);
    assert_eq!(cart.rom_size, 0x02);
    assert_eq!(cart.ram_size, 0x01);
    assert_eq!(cart.destination_code, Destination::Overseas);
    assert_eq!(cart.old_licensee_code, 0x33);
    assert_eq!(cart.mask_rom_version_number, 0x02);
    assert_eq!(cart.header_checksum, 0x5A);
    assert_eq!(cart.global_checksum, 0x1234);
}

#[test]
fn cartridge_short_image_rejected() {
    assert!(matches!(
        Cartridge::load(vec![0u8; 335]),
        Err(EmuError::InvalidHeader)
    ));
}

#[test]
fn cartridge_unknown_type_rejected() {
    let mut rom = sample_rom();
    rom[0x147] = 0x04; // unassigned
    assert!(matches!(Cartridge::load(rom), Err(EmuError::InvalidHeader)));
}

#[test]
fn cartridge_type_codes() {
    assert_eq!(CartridgeType::from_code(0x01), Some(CartridgeType::Mbc1));
    assert_eq!(CartridgeType::from_code(0x19), Some(CartridgeType::Mbc5));
    assert_eq!(
        CartridgeType::from_code(0xFF),
        Some(CartridgeType::Huc1RamBattery)
    );
    assert_eq!(CartridgeType::from_code(0x21), None);
}

#[test]
fn destination_codes() {
    assert_eq!(Destination::from_code(0), Destination::Japan);
    assert_eq!(Destination::from_code(1), Destination::Overseas);
    assert_eq!(Destination::from_code(9), Destination::Unknown(9));
}

#[test]
fn cartridge_serves_rom_reads_and_ignores_writes() {
    let mut rom = sample_rom();
    rom[0x1234] = 0x99;
    let mut cart = Cartridge::load(rom).unwrap();
    assert_eq!(cart.read(0x1234), 0x99);
    assert_eq!(cart.read(0xA000), 0xFF); // external RAM floats high
    cart.write(0x1234, 0x00);
    assert_eq!(cart.read(0x1234), 0x99);
}

#[test]
fn bus_routes_ram_regions() {
    let mut bus = MemoryBus::new(Cartridge::load(sample_rom()).unwrap());
    bus.write(0x8000, 0x11);
    assert_eq!(bus.read(0x8000), 0x11);
    bus.write(0xC123, 0x22);
    assert_eq!(bus.read(0xC123), 0x22);
    bus.write(0xFE00, 0x33);
    assert_eq!(bus.read(0xFE00), 0x33);
    bus.write(0xFF80, 0x44);
    assert_eq!(bus.read(0xFF80), 0x44);
    bus.write(0xFF42, 0x55);
    assert_eq!(bus.read(0xFF42), 0x55);
}

#[test]
fn bus_echo_ram_mirrors_work_ram() {
    let mut bus = MemoryBus::new(Cartridge::load(sample_rom()).unwrap());
    bus.write(0xE001, 0x77);
    assert_eq!(bus.read(0xC001), 0x77);
    bus.write(0xC002, 0x66);
    assert_eq!(bus.read(0xE002), 0x66);
}

#[test]
fn bus_unusable_region_floats_high() {
    let mut bus = MemoryBus::new(Cartridge::load(sample_rom()).unwrap());
    bus.write(0xFEA0, 0x12);
    assert_eq!(bus.read(0xFEA0), 0xFF);
    assert_eq!(bus.read(0xFEFF), 0xFF);
}

#[test]
fn bus_rom_writes_ignored() {
    let mut rom = sample_rom();
    rom[0x0200] = 0xAB;
    let mut bus = MemoryBus::new(Cartridge::load(rom).unwrap());
    bus.write(0x0200, 0x00);
    assert_eq!(bus.read(0x0200), 0xAB);
}

#[test]
fn interrupt_registers_mask_and_read_high() {
    let mut bus = MemoryBus::new(Cartridge::load(sample_rom()).unwrap());
    bus.write(0xFF0F, 0xFF);
    assert_eq!(bus.interrupt_flag(), 0x1F);
    assert_eq!(bus.read(0xFF0F), 0xFF); // 0x1F | 0xE0
    bus.write(0xFFFF, 0xE2);
    assert_eq!(bus.interrupt_enable(), 0x02);
    assert_eq!(bus.read(0xFFFF), 0xE2); // 0x02 | 0xE0
}

#[test]
fn request_interrupt_sets_bits_idempotently() {
    let mut bus = MemoryBus::new(Cartridge::load(sample_rom()).unwrap());
    bus.write(0xFF0F, 0x00);
    bus.request_interrupt(0x02);
    bus.request_interrupt(0x02);
    assert_eq!(bus.interrupt_flag(), 0x02);
    bus.request_interrupt(0xE1); // top bits are masked away
    assert_eq!(bus.interrupt_flag(), 0x03);
}

#[test]
fn post_boot_interrupt_flag() {
    let bus = MemoryBus::new(Cartridge::load(sample_rom()).unwrap());
    assert_eq!(bus.interrupt_flag(), 0x01);
    assert_eq!(bus.read(0xFF0F), 0xE1);
    assert_eq!(bus.interrupt_enable(), 0x00);
}
