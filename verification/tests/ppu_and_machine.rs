use dmg_core::bus::MemoryBus;
use dmg_core::cartridge::Cartridge;
use dmg_core::errors::EmuError;
use dmg_core::framebuffer::FrameBuffer;
use dmg_core::machine::Emulator;
use dmg_core::ppu::Ppu;

fn machine(program: &[u8]) -> Emulator {
    let mut rom = vec![0u8; 0x8000];
    for (i, &b) in program.iter().enumerate() {
        rom[0x100 + i] = b;
    }
    Emulator::new(Cartridge::load(rom).expect("valid header"))
}

#[test]
fn framebuffer_set_get_clear() {
    let mut fb = FrameBuffer::new();
    assert_eq!(fb.get(0, 0), 0);
    fb.set(159, 143, 3);
    assert_eq!(fb.get(159, 143), 3);
    fb.set(10, 20, 0xFE); // only the low two bits are kept
    assert_eq!(fb.get(10, 20), 2);
    fb.clear(1);
    assert_eq!(fb.get(159, 143), 1);
    assert_eq!(fb.get(0, 0), 1);
}

#[test]
fn shade_levels_map_to_gray() {
    assert_eq!(dmg_core::framebuffer::shade_level(0), 255);
    assert_eq!(dmg_core::framebuffer::shade_level(1), 170);
    assert_eq!(dmg_core::framebuffer::shade_level(2), 85);
    assert_eq!(dmg_core::framebuffer::shade_level(3), 0);
    assert_eq!(dmg_core::framebuffer::shade_level(7), 0);
}

#[test]
fn ppu_disabled_lcd_rests_at_line_zero() {
    let mut bus = MemoryBus::new(Cartridge::load(vec![0u8; 0x8000]).unwrap());
    let mut ppu = Ppu::new();
    bus.write(0xFF40, 0x00); // LCD off
    bus.write(0xFF44, 77);
    ppu.tick(456, &mut bus);
    assert_eq!(bus.read(0xFF44), 0);
    assert_eq!(ppu.mode, 0);
    assert_eq!(ppu.dot, 0);
    assert!(!ppu.frame_ready);
}

#[test]
fn ppu_reaches_vblank_and_raises_interrupt() {
    let mut bus = MemoryBus::new(Cartridge::load(vec![0u8; 0x8000]).unwrap());
    let mut ppu = Ppu::new();
    bus.write(0xFF40, 0x80); // LCD on, background off
    bus.write(0xFF0F, 0x00);
    // 144 visible lines of 456 dots each, then one dot into VBlank
    for _ in 0..144 {
        ppu.tick(456, &mut bus);
    }
    ppu.tick(1, &mut bus);
    assert_eq!(bus.read(0xFF44), 144);
    assert!(ppu.frame_ready);
    assert_eq!(bus.interrupt_flag() & 0x01, 0x01);
    let frame = ppu.take_frame().expect("frame ready");
    assert_eq!(frame.len(), 160 * 144);
    assert!(ppu.take_frame().is_none());
}

#[test]
fn ppu_line_counter_wraps_after_153() {
    let mut bus = MemoryBus::new(Cartridge::load(vec![0u8; 0x8000]).unwrap());
    let mut ppu = Ppu::new();
    bus.write(0xFF40, 0x80);
    for _ in 0..154 {
        ppu.tick(456, &mut bus);
    }
    assert_eq!(bus.read(0xFF44), 0);
}

#[test]
fn ppu_lyc_coincidence_bit() {
    let mut bus = MemoryBus::new(Cartridge::load(vec![0u8; 0x8000]).unwrap());
    let mut ppu = Ppu::new();
    bus.write(0xFF40, 0x80);
    bus.write(0xFF45, 1); // LYC = 1
    ppu.tick(456, &mut bus); // LY becomes 1
    assert_eq!(bus.read(0xFF44), 1);
    assert_eq!(bus.read(0xFF41) & 0x04, 0x04);
    ppu.tick(456, &mut bus); // LY becomes 2
    assert_eq!(bus.read(0xFF41) & 0x04, 0x00);
}

#[test]
fn ppu_renders_background_through_palette() {
    let mut bus = MemoryBus::new(Cartridge::load(vec![0u8; 0x8000]).unwrap());
    let mut ppu = Ppu::new();
    bus.write(0xFF40, 0x91); // LCD on, background on, unsigned tiles
    bus.write(0xFF47, 0xE4); // palette: identity 0,1,2,3
    // tile 0, row 0: all pixels colour 3
    bus.write(0x8000, 0xFF);
    bus.write(0x8001, 0xFF);
    // the background map already points every cell at tile 0
    ppu.tick(456, &mut bus); // renders line 0
    assert_eq!(ppu.framebuffer.get(0, 0), 3);
    assert_eq!(ppu.framebuffer.get(159, 0), 3);
    assert_eq!(ppu.framebuffer.get(0, 1), 0); // next line untouched
}

#[test]
fn run_frame_without_lcd_produces_no_frame() {
    let mut emu = machine(&[]); // NOPs everywhere
    let frame = emu.run_frame().unwrap();
    assert!(frame.is_none());
}

#[test]
fn run_frame_with_lcd_produces_frame() {
    let mut emu = machine(&[]);
    emu.bus.write(0xFF40, 0x80);
    let frame = emu.run_frame().unwrap().expect("vblank crossed");
    assert_eq!(frame.len(), 160 * 144);
    assert!(frame.iter().all(|&p| p <= 3));
}

#[test]
fn run_frame_reports_illegal_opcode() {
    let mut emu = machine(&[0xDB]);
    assert_eq!(
        emu.run_frame(),
        Err(EmuError::IllegalOpcode { opcode: 0xDB, pc: 0x0100 })
    );
}

#[test]
fn run_frame_stops_with_stopped_cpu() {
    let mut emu = machine(&[0x10, 0x00]);
    let r = emu.run_frame().unwrap();
    assert!(r.is_none());
    assert!(emu.cpu.stop);
}

#[test]
fn emulator_post_boot_state() {
    let emu = machine(&[]);
    assert_eq!(emu.cpu.pc, 0x0100);
    assert_eq!(emu.cpu.sp, 0xFFFE);
    assert!(!emu.cpu.ime);
    assert_eq!(emu.bus.interrupt_flag(), 0x01);
    assert_eq!(emu.bus.interrupt_enable(), 0x00);
}
