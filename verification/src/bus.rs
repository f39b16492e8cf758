//! The memory bus: routes 16-bit addresses to the RAM regions, the I/O
//! registers, the cartridge and the two interrupt registers. The whole bus
//! is modelled by a ghost view, and every read and write is specified
//! against that model.

use vstd::prelude::*;

use crate::cartridge::Cartridge;
use crate::cartridge::cart_read;

verus! {

/// The ghost model of the bus: the ROM image, the RAM regions, and the two
/// interrupt registers.
#[verifier::ext_equal]
pub struct BusView {
    /// The cartridge ROM bytes.
    pub rom: Seq<u8>,
    /// Video RAM, 0x8000..0xA000.
    pub vram: Seq<u8>,
    /// Work RAM, 0xC000..0xE000, echoed at 0xE000..0xFE00.
    pub wram: Seq<u8>,
    /// Object attribute memory, 0xFE00..0xFEA0.
    pub oam: Seq<u8>,
    /// High RAM, 0xFF80..0xFFFF.
    pub hram: Seq<u8>,
    /// I/O registers, 0xFF00..0xFF80; the interrupt flag lives apart.
    pub io: Seq<u8>,
    /// Interrupt-flag register, low 5 bits only.
    pub iff: u8,
    /// Interrupt-enable register, low 5 bits only.
    pub ie: u8,
}

/// Region sizes are fixed and the interrupt registers keep their top three
/// bits clear.
pub open spec fn bus_wf(v: BusView) -> bool {
    &&& v.vram.len() == 0x2000
    &&& v.wram.len() == 0x2000
    &&& v.oam.len() == 0xA0
    &&& v.hram.len() == 0x7F
    &&& v.io.len() == 0x80
    &&& v.iff < 0x20
    &&& v.ie < 0x20
}

/// What a bus read returns, region by region: ROM and external RAM through
/// the cartridge, echo RAM mirroring work RAM, the unusable region floating
/// high, and the interrupt registers reading with their top three bits set.
pub open spec fn bus_read(v: BusView, addr: u16) -> u8 {
    if addr < 0x8000 {
        cart_read(v.rom, addr)
    } else if addr < 0xA000 {
        v.vram[addr - 0x8000]
    } else if addr < 0xC000 {
        0xFF
    } else if addr < 0xE000 {
        v.wram[addr - 0xC000]
    } else if addr < 0xFE00 {
        v.wram[addr - 0xE000]
    } else if addr < 0xFEA0 {
        v.oam[addr - 0xFE00]
    } else if addr < 0xFF00 {
        0xFF
    } else if addr == 0xFF0F {
        (v.iff + 0xE0) as u8
    } else if addr < 0xFF80 {
        v.io[addr - 0xFF00]
    } else if addr < 0xFFFF {
        v.hram[addr - 0xFF80]
    } else {
        (v.ie + 0xE0) as u8
    }
}

/// What a bus write leaves behind, region by region: ROM and external RAM
/// writes are ignored (plain ROM cartridge), echo RAM writes land in work
/// RAM, unusable-region writes are discarded, and the interrupt registers
/// keep only their low 5 bits.
pub open spec fn bus_write(v: BusView, addr: u16, data: u8) -> BusView {
    if addr < 0x8000 {
        v
    } else if addr < 0xA000 {
        BusView { vram: v.vram.update(addr - 0x8000, data), ..v }
    } else if addr < 0xC000 {
        v
    } else if addr < 0xE000 {
        BusView { wram: v.wram.update(addr - 0xC000, data), ..v }
    } else if addr < 0xFE00 {
        BusView { wram: v.wram.update(addr - 0xE000, data), ..v }
    } else if addr < 0xFEA0 {
        BusView { oam: v.oam.update(addr - 0xFE00, data), ..v }
    } else if addr < 0xFF00 {
        v
    } else if addr == 0xFF0F {
        BusView { iff: (data % 32) as u8, ..v }
    } else if addr < 0xFF80 {
        BusView { io: v.io.update(addr - 0xFF00, data), ..v }
    } else if addr < 0xFFFF {
        BusView { hram: v.hram.update(addr - 0xFF80, data), ..v }
    } else {
        BusView { ie: (data % 32) as u8, ..v }
    }
}

/// The RAM addresses where a written byte is stored and read back verbatim:
/// video RAM, work RAM and its echo, object attribute memory, high RAM.
pub open spec fn plain_ram(addr: u16) -> bool {
    (0x8000 <= addr < 0xA000) || (0xC000 <= addr < 0xFEA0) || (0xFF80 <= addr < 0xFFFF)
}

/// The backing address of a RAM byte: echo RAM folds onto work RAM,
/// everything else backs itself.
pub open spec fn backing_addr(addr: u16) -> u16 {
    if 0xE000 <= addr < 0xFE00 {
        (addr - 0x2000) as u16
    } else {
        addr
    }
}

/// A write to plain RAM reads back verbatim at the same address.
pub proof fn lemma_plain_ram_write_read(v: BusView, addr: u16, data: u8)
    requires
        bus_wf(v),
        plain_ram(addr),
    ensures
        bus_read(bus_write(v, addr, data), addr) == data,
{
}

/// A write to plain RAM leaves every read whose backing address differs
/// unchanged.
pub proof fn lemma_plain_ram_write_frame(v: BusView, waddr: u16, data: u8, raddr: u16)
    requires
        bus_wf(v),
        plain_ram(waddr),
        backing_addr(waddr) != backing_addr(raddr),
    ensures
        bus_read(bus_write(v, waddr, data), raddr) == bus_read(v, raddr),
{
}

/// Writing the bus keeps it well-formed.
pub proof fn lemma_bus_write_wf(v: BusView, addr: u16, data: u8)
    requires
        bus_wf(v),
    ensures
        bus_wf(bus_write(v, addr, data)),
{
}

/// The interrupt registers always read as masked 5-bit values: their top
/// three bits are zero.
pub proof fn lemma_interrupt_regs_masked(v: BusView)
    requires
        bus_wf(v),
    ensures
        v.iff & 0xE0 == 0,
        v.ie & 0xE0 == 0,
{
    let iff = v.iff;
    let ie = v.ie;
    assert(iff < 0x20 ==> iff & 0xE0 == 0) by (bit_vector);
    assert(ie < 0x20 ==> ie & 0xE0 == 0) by (bit_vector);
}

/// A vector of `n` zero bytes.
fn zero_vec(n: usize) -> (v: Vec<u8>)
    ensures
        v@.len() == n,
        forall|i: int| 0 <= i < n ==> v@[i] == 0,
    decreases n,
{
    let mut v: Vec<u8> = Vec::new();
    let mut i: usize = 0;
    while i < n
        invariant
            i <= n,
            v@.len() == i,
            forall|j: int| 0 <= j < i ==> v@[j] == 0,
        decreases n - i,
    {
        v.push(0);
        i = i + 1;
    }
    v
}

/// The memory bus: owner of the RAM regions, the I/O registers, the
/// interrupt registers and the cartridge.
pub struct MemoryBus {
    /// The cartridge serving the ROM window.
    pub cartridge: Cartridge,
    /// Video RAM backing store.
    pub vram: Vec<u8>,
    /// Work RAM backing store.
    pub wram: Vec<u8>,
    /// Object attribute memory backing store.
    pub oam: Vec<u8>,
    /// High RAM backing store.
    pub hram: Vec<u8>,
    /// I/O register backing store.
    pub io: Vec<u8>,
    /// Stored interrupt-flag bits.
    pub if_reg: u8,
    /// Stored interrupt-enable bits.
    pub ie_reg: u8,
}

impl View for MemoryBus {
    type V = BusView;

    open spec fn view(&self) -> BusView {
        BusView {
            rom: self.cartridge.game_data@,
            vram: self.vram@,
            wram: self.wram@,
            oam: self.oam@,
            hram: self.hram@,
            io: self.io@,
            iff: self.if_reg,
            ie: self.ie_reg,
        }
    }
}

impl MemoryBus {
    /// Builds the bus around a cartridge: RAM zeroed, interrupt-enable
    /// clear, and the post-boot interrupt flag (only VBlank pending, as the
    /// boot ROM leaves it).
    pub fn new(cartridge: Cartridge) -> (r: MemoryBus)
        ensures
            bus_wf(r@),
            r.cartridge == cartridge,
            r@.rom == cartridge.game_data@,
            r@.iff == 0x01,
            r@.ie == 0x00,
            forall|i: int| 0 <= i < 0x2000 ==> r@.vram[i] == 0 && r@.wram[i] == 0,
            forall|i: int| 0 <= i < 0xA0 ==> r@.oam[i] == 0,
            forall|i: int| 0 <= i < 0x7F ==> r@.hram[i] == 0,
            forall|i: int| 0 <= i < 0x80 ==> r@.io[i] == 0,
    {
        MemoryBus {
            cartridge,
            vram: zero_vec(0x2000),
            wram: zero_vec(0x2000),
            oam: zero_vec(0xA0),
            hram: zero_vec(0x7F),
            io: zero_vec(0x80),
            if_reg: 0x01,
            ie_reg: 0x00,
        }
    }

    /// Serves a byte read as `bus_read` states, region by region.
    pub fn read(&self, addr: u16) -> (r: u8)
        requires
            bus_wf(self@),
        ensures
            r == bus_read(self@, addr),
    {
        if addr < 0x8000 {
            self.cartridge.read(addr)
        } else if addr < 0xA000 {
            self.vram[(addr - 0x8000) as usize]
        } else if addr < 0xC000 {
            0xFF
        } else if addr < 0xE000 {
            self.wram[(addr - 0xC000) as usize]
        } else if addr < 0xFE00 {
            self.wram[(addr - 0xE000) as usize]
        } else if addr < 0xFEA0 {
            self.oam[(addr - 0xFE00) as usize]
        } else if addr < 0xFF00 {
            0xFF
        } else if addr == 0xFF0F {
            self.if_reg + 0xE0
        } else if addr < 0xFF80 {
            self.io[(addr - 0xFF00) as usize]
        } else if addr < 0xFFFF {
            self.hram[(addr - 0xFF80) as usize]
        } else {
            self.ie_reg + 0xE0
        }
    }

    /// Accepts a byte write as `bus_write` states, region by region.
    pub fn write(&mut self, addr: u16, data: u8)
        requires
            bus_wf(old(self)@),
        ensures
            bus_wf(final(self)@),
            final(self)@ == bus_write(old(self)@, addr, data),
    {
        if addr < 0x8000 {
            self.cartridge.write(addr, data);
        } else if addr < 0xA000 {
            self.vram[(addr - 0x8000) as usize] = data;
        } else if addr < 0xC000 {
            self.cartridge.write(addr, data);
        } else if addr < 0xE000 {
            self.wram[(addr - 0xC000) as usize] = data;
        } else if addr < 0xFE00 {
            self.wram[(addr - 0xE000) as usize] = data;
        } else if addr < 0xFEA0 {
            self.oam[(addr - 0xFE00) as usize] = data;
        } else if addr < 0xFF00 {
            // unusable region: the write is discarded
        } else if addr == 0xFF0F {
            self.if_reg = data % 32;
        } else if addr < 0xFF80 {
            self.io[(addr - 0xFF00) as usize] = data;
        } else if addr < 0xFFFF {
            self.hram[(addr - 0xFF80) as usize] = data;
        } else {
            self.ie_reg = data % 32;
        }
        proof {
            assert(self@ =~= bus_write(old(self)@, addr, data));
        }
    }

    /// Sets the given low-5 interrupt bits in the interrupt flag; idempotent.
    pub fn request_interrupt(&mut self, flag_bit: u8)
        requires
            bus_wf(old(self)@),
        ensures
            bus_wf(final(self)@),
            final(self)@ == (BusView { iff: old(self)@.iff | (flag_bit % 32), ..old(self)@ }),
    {
        let bits = flag_bit % 32;
        self.if_reg = self.if_reg | bits;
        proof {
            let a = old(self)@.iff;
            assert(a < 0x20 && bits < 0x20 ==> (a | bits) < 0x20) by (bit_vector);
            assert(self@ =~= (BusView { iff: old(self)@.iff | (flag_bit % 32), ..old(self)@ }));
        }
    }

    /// The interrupt-flag register as stored: low 5 bits.
    pub fn interrupt_flag(&self) -> (r: u8)
        ensures
            r == self@.iff,
    {
        self.if_reg
    }

    /// The interrupt-enable register as stored: low 5 bits.
    pub fn interrupt_enable(&self) -> (r: u8)
        ensures
            r == self@.ie,
    {
        self.ie_reg
    }

    /// Replaces the stored interrupt flag, keeping only the low 5 bits.
    pub(crate) fn set_interrupt_flag(&mut self, value: u8)
        requires
            bus_wf(old(self)@),
        ensures
            bus_wf(final(self)@),
            final(self)@ == (BusView { iff: (value % 32) as u8, ..old(self)@ }),
    {
        self.if_reg = value % 32;
        proof {
            assert(self@ =~= (BusView { iff: (value % 32) as u8, ..old(self)@ }));
        }
    }
}

} // verus!
