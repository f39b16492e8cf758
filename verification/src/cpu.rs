//! The CPU: eight 8-bit registers, two 16-bit pointers, the interrupt
//! master-enable machinery and the halt/stop states. One `step` fetches,
//! decodes and executes a single instruction (or services an interrupt) and
//! returns its dot cost.

use vstd::prelude::*;

use crate::alu::wrap16;
use crate::bus::BusView;
use crate::bus::MemoryBus;
use crate::bus::bus_read;
use crate::bus::bus_wf;
use crate::bus::bus_write;
use crate::flags::flags_wf;

verus! {

/// The 16-bit value of a register pair: the first register in the upper
/// byte.
pub open spec fn word(hi: u8, lo: u8) -> u16 {
    (hi * 256 + lo) as u16
}

/// The upper byte of a 16-bit value.
pub open spec fn hi8(v: u16) -> u8 {
    (v / 256) as u8
}

/// The lower byte of a 16-bit value.
pub open spec fn lo8(v: u16) -> u8 {
    (v % 256) as u8
}

/// The dot costs a step may report: nothing (stopped), or one to six
/// machine cycles of four dots.
pub open spec fn cycles_ok(c: u8) -> bool {
    c == 0 || c == 4 || c == 8 || c == 12 || c == 16 || c == 20 || c == 24
}

/// The CPU state: registers, flags, pointers, interrupt machinery, and the
/// dot cost of the last step.
pub struct Cpu {
    /// Accumulator.
    pub a: u8,
    /// Flag register; the low nibble is always zero.
    pub f: u8,
    /// Register B.
    pub b: u8,
    /// Register C.
    pub c: u8,
    /// Register D.
    pub d: u8,
    /// Register E.
    pub e: u8,
    /// Register H.
    pub h: u8,
    /// Register L.
    pub l: u8,
    /// Stack pointer.
    pub sp: u16,
    /// Program counter.
    pub pc: u16,
    /// Waiting for an interrupt.
    pub halt: bool,
    /// Stopped until the host intervenes.
    pub stop: bool,
    /// Interrupt master enable.
    pub ime: bool,
    /// Set by EI; promoted to `ime` only after the next instruction.
    pub ime_pending: bool,
    /// Dots consumed by the last step.
    pub cycles: u8,
}

impl Cpu {
    /// The flag register keeps a zero low nibble and the last step cost is
    /// a valid dot count.
    pub open spec fn wf(self) -> bool {
        &&& flags_wf(self.f)
        &&& cycles_ok(self.cycles)
    }
}

/// The CPU with one 8-bit register replaced, by operand index:
/// 0 B, 1 C, 2 D, 3 E, 4 H, 5 L, 7 A (index 6 addresses memory through HL).
pub open spec fn with_reg8(c: Cpu, idx: u8, v: u8) -> Cpu {
    match idx {
        0 => Cpu { b: v, ..c },
        1 => Cpu { c: v, ..c },
        2 => Cpu { d: v, ..c },
        3 => Cpu { e: v, ..c },
        4 => Cpu { h: v, ..c },
        5 => Cpu { l: v, ..c },
        7 => Cpu { a: v, ..c },
        _ => c,
    }
}

/// The CPU with the BC register pair replaced.
pub open spec fn with_bc(c: Cpu, v: u16) -> Cpu {
    Cpu { b: hi8(v), c: lo8(v), ..c }
}

/// The CPU with the DE register pair replaced.
pub open spec fn with_de(c: Cpu, v: u16) -> Cpu {
    Cpu { d: hi8(v), e: lo8(v), ..c }
}

/// The CPU with the HL register pair replaced.
pub open spec fn with_hl(c: Cpu, v: u16) -> Cpu {
    Cpu { h: hi8(v), l: lo8(v), ..c }
}

/// The value of an 8-bit operand, by index; index 6 reads memory at HL.
pub open spec fn operand_val(c: Cpu, v: BusView, idx: u8) -> u8 {
    match idx {
        0 => c.b,
        1 => c.c,
        2 => c.d,
        3 => c.e,
        4 => c.h,
        5 => c.l,
        6 => bus_read(v, word(c.h, c.l)),
        _ => c.a,
    }
}

impl Cpu {
    /// The post-boot register state: the synthetic state the boot ROM leaves
    /// behind. H and C flags are clear when the cartridge header checksum
    /// byte is zero.
    pub fn new(bus: &MemoryBus) -> (r: Cpu)
        ensures
            r.wf(),
            r == (Cpu {
                a: 0x01,
                f: if bus.cartridge.header_checksum == 0 { 0x80u8 } else { 0xB0u8 },
                b: 0x00,
                c: 0x13,
                d: 0x00,
                e: 0xD8,
                h: 0x01,
                l: 0x4D,
                sp: 0xFFFE,
                pc: 0x0100,
                halt: false,
                stop: false,
                ime: false,
                ime_pending: false,
                cycles: 0,
            }),
    {
        let f: u8 = if bus.cartridge.header_checksum == 0 { 0x80 } else { 0xB0 };
        Cpu {
            a: 0x01,
            f,
            b: 0x00,
            c: 0x13,
            d: 0x00,
            e: 0xD8,
            h: 0x01,
            l: 0x4D,
            sp: 0xFFFE,
            pc: 0x0100,
            halt: false,
            stop: false,
            ime: false,
            ime_pending: false,
            cycles: 0,
        }
    }

    /// The BC register pair.
    pub fn bc(&self) -> (r: u16)
        ensures
            r == word(self.b, self.c),
    {
        self.b as u16 * 256 + self.c as u16
    }

    /// The DE register pair.
    pub fn de(&self) -> (r: u16)
        ensures
            r == word(self.d, self.e),
    {
        self.d as u16 * 256 + self.e as u16
    }

    /// The HL register pair.
    pub fn hl(&self) -> (r: u16)
        ensures
            r == word(self.h, self.l),
    {
        self.h as u16 * 256 + self.l as u16
    }

    /// The AF register pair: the accumulator over the flag byte.
    pub fn af(&self) -> (r: u16)
        ensures
            r == word(self.a, self.f),
    {
        self.a as u16 * 256 + self.f as u16
    }

    /// Replaces the BC register pair.
    pub fn set_bc(&mut self, v: u16)
        ensures
            *final(self) == (Cpu { b: hi8(v), c: lo8(v), ..*old(self) }),
    {
        self.b = (v / 256) as u8;
        self.c = (v % 256) as u8;
    }

    /// Replaces the DE register pair.
    pub fn set_de(&mut self, v: u16)
        ensures
            *final(self) == (Cpu { d: hi8(v), e: lo8(v), ..*old(self) }),
    {
        self.d = (v / 256) as u8;
        self.e = (v % 256) as u8;
    }

    /// Replaces the HL register pair.
    pub fn set_hl(&mut self, v: u16)
        ensures
            *final(self) == (Cpu { h: hi8(v), l: lo8(v), ..*old(self) }),
    {
        self.h = (v / 256) as u8;
        self.l = (v % 256) as u8;
    }

    /// Advances the program counter by one, wrapping modulo 2^16.
    pub(crate) fn inc_pc(&mut self)
        ensures
            *final(self) == (Cpu { pc: wrap16(old(self).pc + 1), ..*old(self) }),
    {
        self.pc = self.pc.wrapping_add(1);
    }

    /// Fetches the byte at PC and advances PC past it.
    pub(crate) fn fetch8(&mut self, bus: &MemoryBus) -> (r: u8)
        requires
            bus_wf(bus@),
        ensures
            r == bus_read(bus@, old(self).pc),
            *final(self) == (Cpu { pc: wrap16(old(self).pc + 1), ..*old(self) }),
    {
        let r = bus.read(self.pc);
        self.pc = self.pc.wrapping_add(1);
        r
    }

    /// Fetches the little-endian 16-bit immediate at PC and advances PC
    /// past it: the byte at PC is the low byte, the byte at PC+1 the high
    /// byte.
    pub(crate) fn fetch16(&mut self, bus: &MemoryBus) -> (r: u16)
        requires
            bus_wf(bus@),
        ensures
            r == word(bus_read(bus@, wrap16(old(self).pc + 1)), bus_read(bus@, old(self).pc)),
            *final(self) == (Cpu { pc: wrap16(old(self).pc + 2), ..*old(self) }),
    {
        let lo = self.fetch8(bus);
        let hi = self.fetch8(bus);
        hi as u16 * 256 + lo as u16
    }

    /// Reads the 8-bit operand with the given index; index 6 reads memory
    /// at HL.
    pub(crate) fn read_operand(&self, idx: u8, bus: &MemoryBus) -> (r: u8)
        requires
            idx < 8,
            bus_wf(bus@),
        ensures
            r == operand_val(*self, bus@, idx),
    {
        match idx {
            0 => self.b,
            1 => self.c,
            2 => self.d,
            3 => self.e,
            4 => self.h,
            5 => self.l,
            6 => bus.read(self.hl()),
            _ => self.a,
        }
    }

    /// Writes the 8-bit operand with the given index; index 6 writes memory
    /// at HL.
    pub(crate) fn write_operand(&mut self, idx: u8, v: u8, bus: &mut MemoryBus)
        requires
            idx < 8,
            bus_wf(old(bus)@),
        ensures
            bus_wf(final(bus)@),
            idx == 6 ==> *final(self) == *old(self) && final(bus)@ == bus_write(
                old(bus)@,
                word(old(self).h, old(self).l),
                v,
            ),
            idx != 6 ==> *final(self) == with_reg8(*old(self), idx, v) && final(bus)@ == old(
                bus,
            )@,
    {
        match idx {
            0 => self.b = v,
            1 => self.c = v,
            2 => self.d = v,
            3 => self.e = v,
            4 => self.h = v,
            5 => self.l = v,
            6 => {
                let addr = self.hl();
                bus.write(addr, v);
            },
            _ => self.a = v,
        }
    }

    /// Pushes a 16-bit value: the high byte at SP-1, the low byte at SP-2,
    /// SP moved down by two.
    pub(crate) fn push16(&mut self, v: u16, bus: &mut MemoryBus)
        requires
            bus_wf(old(bus)@),
        ensures
            bus_wf(final(bus)@),
            *final(self) == (Cpu { sp: wrap16(old(self).sp - 2), ..*old(self) }),
            final(bus)@ == bus_write(
                bus_write(old(bus)@, wrap16(old(self).sp - 1), hi8(v)),
                wrap16(old(self).sp - 2),
                lo8(v),
            ),
    {
        self.sp = self.sp.wrapping_sub(1);
        bus.write(self.sp, (v / 256) as u8);
        self.sp = self.sp.wrapping_sub(1);
        bus.write(self.sp, (v % 256) as u8);
    }

    /// Pops a 16-bit value: the low byte at SP, the high byte at SP+1, SP
    /// moved up by two.
    pub(crate) fn pop16(&mut self, bus: &MemoryBus) -> (r: u16)
        requires
            bus_wf(bus@),
        ensures
            r == word(bus_read(bus@, wrap16(old(self).sp + 1)), bus_read(bus@, old(self).sp)),
            *final(self) == (Cpu { sp: wrap16(old(self).sp + 2), ..*old(self) }),
    {
        let lo = bus.read(self.sp);
        self.sp = self.sp.wrapping_add(1);
        let hi = bus.read(self.sp);
        self.sp = self.sp.wrapping_add(1);
        hi as u16 * 256 + lo as u16
    }
}

} // verus!
