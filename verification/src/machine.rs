//! The whole machine: CPU, bus and picture unit stepping in lockstep on the
//! shared dot clock, one video frame at a time.

use vstd::prelude::*;

use crate::bus::MemoryBus;
use crate::bus::bus_wf;
use crate::cartridge::Cartridge;
use crate::cpu::Cpu;
use crate::errors::EmuError;
use crate::framebuffer::SCREEN_H;
use crate::framebuffer::SCREEN_W;
use crate::ppu::Ppu;

verus! {

/// Dots in one video frame: 154 scanlines of 456 dots.
pub const CYCLES_PER_FRAME: u64 = 70224;

/// The emulator: the CPU, the bus it reads and writes, and the picture
/// unit fed by the cycles the CPU spends.
pub struct Emulator {
    /// The processor.
    pub cpu: Cpu,
    /// The memory fabric, owner of RAM, I/O and the cartridge.
    pub bus: MemoryBus,
    /// The picture unit.
    pub ppu: Ppu,
}

impl Emulator {
    /// Every component is well-formed.
    pub open spec fn wf(self) -> bool {
        &&& self.cpu.wf()
        &&& bus_wf(self.bus@)
        &&& self.ppu.wf()
    }

    /// Builds the machine around a cartridge, in the post-boot state: the
    /// registers hold the values the boot ROM leaves (H and C flags clear
    /// when the header checksum byte is zero), only the VBlank flag is
    /// pending and nothing is enabled.
    pub fn new(cartridge: Cartridge) -> (r: Emulator)
        ensures
            r.wf(),
            r.cpu == (Cpu {
                a: 0x01,
                f: if cartridge.header_checksum == 0 { 0x80u8 } else { 0xB0u8 },
                b: 0x00,
                c: 0x13,
                d: 0x00,
                e: 0xD8,
                h: 0x01,
                l: 0x4D,
                sp: 0xFFFE,
                pc: 0x0100,
                halt: false,
                stop: false,
                ime: false,
                ime_pending: false,
                cycles: 0,
            }),
            r.bus.cartridge == cartridge,
            r.bus@.rom == cartridge.game_data@,
            r.bus@.iff == 0x01,
            r.bus@.ie == 0x00,
            r.ppu.frame_ready == false,
            r.ppu.mode == 2 && r.ppu.dot == 0,
            forall|i: int| 0 <= i < r.ppu.framebuffer.pixels@.len()
                ==> r.ppu.framebuffer.pixels@[i] == 0,
    {
        let bus = MemoryBus::new(cartridge);
        let cpu = Cpu::new(&bus);
        Emulator { cpu, bus, ppu: Ppu::new() }
    }

    /// Runs one video frame: steps the CPU and advances the picture unit
    /// by the dots each instruction spent, until a frame's worth of dots is
    /// consumed or the CPU stops. Returns the finished framebuffer exactly
    /// when the frame crossed the vertical blank (the picture unit had a
    /// frame ready), and propagates a fatal CPU fault: a fault of `step` is
    /// the only error source.
    pub fn run_frame(&mut self) -> (r: Result<Option<Vec<u8>>, EmuError>)
        requires
            old(self).wf(),
        ensures
            final(self).wf(),
            r matches Ok(Some(frame)) ==> frame@.len() == SCREEN_W * SCREEN_H && forall|i: int|
                0 <= i < frame@.len() ==> #[trigger] frame@[i] <= 3,
            r matches Ok(Some(frame)) ==> frame@ == final(self).ppu.framebuffer.pixels@,
            r is Ok ==> final(self).ppu.frame_ready == false,
            r matches Err(e) ==> (e is IllegalOpcode || e is MalformedStop),
    {
        let mut spent: u64 = 0;
        while spent < CYCLES_PER_FRAME
            invariant
                self.cpu.wf(),
                bus_wf(self.bus@),
                self.ppu.wf(),
                spent <= CYCLES_PER_FRAME + 24,
            decreases CYCLES_PER_FRAME + 24 - spent,
        {
            let c = match self.cpu.step(&mut self.bus) {
                Ok(c) => c,
                Err(e) => {
                    return Err(e);
                },
            };
            if c == 0 {
                // the CPU is stopped: the host must leave the frame loop
                return Ok(self.ppu.take_frame());
            }
            self.ppu.tick(c as u64, &mut self.bus);
            spent = spent + c as u64;
        }
        Ok(self.ppu.take_frame())
    }
}

} // verus!
