use dmg_core::bus::MemoryBus;
use dmg_core::cartridge::Cartridge;
use dmg_core::cpu::Cpu;
use dmg_core::errors::EmuError;

fn machine_with(program: &[u8]) -> (Cpu, MemoryBus) {
    let mut rom = vec![0u8; 0x8000];
    for (i, &b) in program.iter().enumerate() {
        rom[0x100 + i] = b;
    }
    let cart = Cartridge::load(rom).expect("valid header");
    let bus = MemoryBus::new(cart);
    let cpu = Cpu::new(&bus);
    (cpu, bus)
}

#[test]
fn half_carry_on_add() {
    let (mut cpu, mut bus) = machine_with(&[0x80]);
    cpu.a = 0x0F;
    cpu.b = 0x01;
    cpu.f = 0;
    let c = cpu.step(&mut bus).unwrap();
    assert_eq!(cpu.a, 0x10);
    assert_eq!(cpu.f, 0x20); // Z=0 N=0 H=1 C=0
    assert_eq!(cpu.pc, 0x0101);
    assert_eq!(c, 4);
}

#[test]
fn subtraction_borrow() {
    let (mut cpu, mut bus) = machine_with(&[0x90]);
    cpu.a = 0x10;
    cpu.b = 0x01;
    cpu.f = 0;
    cpu.step(&mut bus).unwrap();
    assert_eq!(cpu.a, 0x0F);
    assert_eq!(cpu.f, 0x60); // Z=0 N=1 H=1 C=0
}

#[test]
fn load_16bit_immediate_little_endian() {
    let (mut cpu, mut bus) = machine_with(&[0x01, 0x34, 0x12]);
    let c = cpu.step(&mut bus).unwrap();
    assert_eq!(cpu.b, 0x12);
    assert_eq!(cpu.c, 0x34);
    assert_eq!(cpu.pc, 0x0103);
    assert_eq!(c, 12);
}

#[test]
fn conditional_relative_jump_not_taken() {
    let (mut cpu, mut bus) = machine_with(&[0x20, 0xFE]);
    cpu.a = 0x00;
    cpu.f = 0x80; // Z set
    let c = cpu.step(&mut bus).unwrap();
    assert_eq!(cpu.pc, 0x0102);
    assert_eq!(c, 8);
}

#[test]
fn relative_jump_taken_backwards() {
    let (mut cpu, mut bus) = machine_with(&[0x18, 0xFE]);
    cpu.f = 0;
    let c = cpu.step(&mut bus).unwrap();
    assert_eq!(cpu.pc, 0x0100); // 0x102 - 2
    assert_eq!(c, 12);
}

#[test]
fn daa_after_add() {
    let (mut cpu, mut bus) = machine_with(&[0x80, 0x27]);
    cpu.a = 0x45;
    cpu.b = 0x38;
    cpu.f = 0;
    cpu.step(&mut bus).unwrap();
    assert_eq!(cpu.a, 0x7D);
    assert_eq!(cpu.f, 0x00); // H=0, C=0
    cpu.step(&mut bus).unwrap();
    assert_eq!(cpu.a, 0x83);
    assert_eq!(cpu.f, 0x00); // Z=0 H=0 C=0
}

#[test]
fn interrupt_dispatch_vblank() {
    let (mut cpu, mut bus) = machine_with(&[0x00]);
    cpu.ime = true;
    bus.write(0xFFFF, 0x01); // IE: VBlank
    bus.write(0xFF0F, 0x01); // IF: VBlank pending
    let c = cpu.step(&mut bus).unwrap();
    assert_eq!(c, 20);
    assert_eq!(cpu.pc, 0x0040);
    assert!(!cpu.ime);
    assert_eq!(bus.interrupt_flag(), 0x00);
    // the old PC 0x0100 was pushed, high byte first
    assert_eq!(cpu.sp, 0xFFFC);
    assert_eq!(bus.read(0xFFFD), 0x01);
    assert_eq!(bus.read(0xFFFC), 0x00);
}

#[test]
fn interrupt_priority_lowest_bit_first() {
    let (mut cpu, mut bus) = machine_with(&[0x00]);
    cpu.ime = true;
    bus.write(0xFFFF, 0x1F);
    bus.write(0xFF0F, 0x14); // Timer (bit 2) and Joypad (bit 4)
    cpu.step(&mut bus).unwrap();
    assert_eq!(cpu.pc, 0x0050); // Timer vector
    assert_eq!(bus.interrupt_flag(), 0x10); // Joypad still pending
}

#[test]
fn halt_wakes_on_pending_interrupt_without_ime() {
    let (mut cpu, mut bus) = machine_with(&[0x76, 0x04]);
    cpu.step(&mut bus).unwrap(); // HALT
    assert!(cpu.halt);
    bus.write(0xFF0F, 0x00);
    let c = cpu.step(&mut bus).unwrap(); // nothing pending: idle
    assert_eq!(c, 4);
    assert!(cpu.halt);
    bus.write(0xFFFF, 0x04);
    bus.write(0xFF0F, 0x04); // timer pending, IME off
    cpu.step(&mut bus).unwrap(); // halt cleared, INC B runs
    assert!(!cpu.halt);
    assert_eq!(cpu.b, 1);
    assert_eq!(bus.interrupt_flag(), 0x04); // not dispatched
}

#[test]
fn ei_delay_one_instruction() {
    let (mut cpu, mut bus) = machine_with(&[0xFB, 0x00, 0x00]);
    cpu.step(&mut bus).unwrap(); // EI
    assert!(!cpu.ime);
    assert!(cpu.ime_pending);
    cpu.step(&mut bus).unwrap(); // NOP; promotion happens after it
    assert!(cpu.ime);
    assert!(!cpu.ime_pending);
}

#[test]
fn di_cancels_pending_enable() {
    let (mut cpu, mut bus) = machine_with(&[0xFB, 0xF3, 0x00]);
    cpu.step(&mut bus).unwrap(); // EI
    cpu.step(&mut bus).unwrap(); // DI
    assert!(!cpu.ime);
    assert!(!cpu.ime_pending);
    cpu.step(&mut bus).unwrap(); // NOP
    assert!(!cpu.ime);
}

#[test]
fn reti_enables_immediately() {
    let (mut cpu, mut bus) = machine_with(&[0xD9]);
    cpu.sp = 0xC000;
    bus.write(0xC000, 0x34);
    bus.write(0xC001, 0x12);
    let c = cpu.step(&mut bus).unwrap();
    assert_eq!(c, 16);
    assert_eq!(cpu.pc, 0x1234);
    assert_eq!(cpu.sp, 0xC002);
    assert!(cpu.ime);
}

#[test]
fn stop_enters_stop_state_and_idles() {
    let (mut cpu, mut bus) = machine_with(&[0x10, 0x00]);
    let c = cpu.step(&mut bus).unwrap();
    assert_eq!(c, 4);
    assert!(cpu.stop);
    assert_eq!(cpu.pc, 0x0102);
    let c2 = cpu.step(&mut bus).unwrap();
    assert_eq!(c2, 0);
    assert_eq!(cpu.pc, 0x0102);
}

#[test]
fn malformed_stop_is_fatal() {
    let (mut cpu, mut bus) = machine_with(&[0x10, 0x01]);
    assert_eq!(cpu.step(&mut bus), Err(EmuError::MalformedStop));
}

#[test]
fn illegal_opcode_reports_byte_and_pc() {
    let (mut cpu, mut bus) = machine_with(&[0xD3]);
    assert_eq!(
        cpu.step(&mut bus),
        Err(EmuError::IllegalOpcode { opcode: 0xD3, pc: 0x0100 })
    );
}

#[test]
fn countdown_loop_program() {
    // LD B,5 ; loop: DEC B ; JR NZ,loop
    let (mut cpu, mut bus) = machine_with(&[0x06, 0x05, 0x05, 0x20, 0xFD]);
    cpu.f = 0;
    cpu.step(&mut bus).unwrap(); // LD B,5
    assert_eq!(cpu.b, 5);
    for _ in 0..4 {
        cpu.step(&mut bus).unwrap(); // DEC B
        cpu.step(&mut bus).unwrap(); // JR NZ taken
        assert_eq!(cpu.pc, 0x0102);
    }
    cpu.step(&mut bus).unwrap(); // DEC B reaches zero
    assert_eq!(cpu.b, 0);
    assert_eq!(cpu.f & 0x80, 0x80);
    let c = cpu.step(&mut bus).unwrap(); // JR NZ falls through
    assert_eq!(c, 8);
    assert_eq!(cpu.pc, 0x0105);
}

#[test]
fn register_to_register_moves() {
    let (mut cpu, mut bus) = machine_with(&[0x41, 0x7A, 0x67]); // LD B,C ; LD A,D ; LD H,A
    cpu.b = 0;
    cpu.c = 0x11;
    cpu.d = 0x22;
    let c1 = cpu.step(&mut bus).unwrap();
    assert_eq!(c1, 4);
    assert_eq!(cpu.b, 0x11);
    cpu.step(&mut bus).unwrap();
    assert_eq!(cpu.a, 0x22);
    cpu.step(&mut bus).unwrap();
    assert_eq!(cpu.h, 0x22);
}

#[test]
fn post_boot_register_state() {
    let (cpu, _bus) = machine_with(&[]);
    assert_eq!(cpu.a, 0x01);
    assert_eq!(cpu.f, 0x80); // header checksum byte is zero here
    assert_eq!(cpu.b, 0x00);
    assert_eq!(cpu.c, 0x13);
    assert_eq!(cpu.d, 0x00);
    assert_eq!(cpu.e, 0xD8);
    assert_eq!(cpu.h, 0x01);
    assert_eq!(cpu.l, 0x4D);
    assert_eq!(cpu.sp, 0xFFFE);
    assert_eq!(cpu.pc, 0x0100);
    assert!(!cpu.ime);
}
