//! The picture processing unit, at its bus-level boundary: it consumes the
//! dot budget the CPU produces, drives the LY and STAT registers, renders
//! the background one scanline at a time, and raises the VBlank interrupt
//! on the transition into the vertical blank.

use vstd::prelude::*;

use crate::bus::BusView;
use crate::bus::MemoryBus;
use crate::bus::bus_read;
use crate::bus::bus_wf;
use crate::bus::bus_write;
use crate::framebuffer::FrameBuffer;
use crate::framebuffer::SCREEN_W;

verus! {

/// Dots in one scanline.
pub const DOTS_PER_LINE: u16 = 456;

/// Dots of the object-search mode at the start of a visible line.
pub const OAM_DOTS: u16 = 80;

/// Dots of the pixel-transfer mode after the object search.
pub const XFER_DOTS: u16 = 172;

/// The address of the LCD control register.
pub const LCDC_ADDR: u16 = 0xFF40;

/// The address of the LCD status register.
pub const STAT_ADDR: u16 = 0xFF41;

/// The address of the background scroll-Y register.
pub const SCY_ADDR: u16 = 0xFF42;

/// The address of the background scroll-X register.
pub const SCX_ADDR: u16 = 0xFF43;

/// The address of the current-scanline register.
pub const LY_ADDR: u16 = 0xFF44;

/// The address of the scanline-compare register.
pub const LYC_ADDR: u16 = 0xFF45;

/// The address of the background palette register.
pub const BGP_ADDR: u16 = 0xFF47;

/// The STAT byte with its mode bits (the low two) replaced.
pub open spec fn stat_with_mode(stat: u8, mode: u8) -> u8 {
    (stat / 4 * 4 + mode) as u8
}

/// The STAT byte with its coincidence bit (bit 2) set or cleared.
pub open spec fn stat_with_coincidence(stat: u8, matched: bool) -> u8 {
    (stat - (stat / 4 % 2) * 4 + (if matched { 4int } else { 0int })) as u8
}

/// The background shade of column `x` on scanline `ly`: the scrolled
/// position picks a tile from the background map selected by LCDC bit 3,
/// the tile's row bytes come from the data area selected by LCDC bit 4
/// (unsigned from 0x8000, or signed around 0x9000), the two bit-planes
/// give a colour index, and the BGP palette maps it to a shade.
pub open spec fn bg_pixel(v: BusView, ly: u8, x: int) -> u8 {
    let lcdc = bus_read(v, LCDC_ADDR);
    let scx = bus_read(v, SCX_ADDR);
    let scy = bus_read(v, SCY_ADDR);
    let bgp = bus_read(v, BGP_ADDR);
    let bg_map_base: int = if lcdc / 8 % 2 == 1 {
        0x9C00
    } else {
        0x9800
    };
    let world_y = ly + scy;
    let tile_row = world_y / 8 % 32;
    let row_in_tile = world_y % 8;
    let world_x = x + scx;
    let tile_col = world_x / 8 % 32;
    let col_in_tile = world_x % 8;
    let tile_index = bus_read(v, (bg_map_base + tile_row * 32 + tile_col) as u16);
    let tile_addr: int = if lcdc / 16 % 2 == 1 {
        0x8000 + tile_index * 16
    } else if tile_index < 128 {
        0x9000 + tile_index * 16
    } else {
        0x8800 + (tile_index - 128) * 16
    };
    let lo = bus_read(v, (tile_addr + row_in_tile * 2) as u16);
    let hi = bus_read(v, (tile_addr + row_in_tile * 2 + 1) as u16);
    let m = crate::alu::bit_mask_val((7 - col_in_tile) as u8);
    let color_id = (hi / m % 2) * 2 + lo / m % 2;
    let palette_div: u8 = if color_id == 0 {
        1
    } else if color_id == 1 {
        4
    } else if color_id == 2 {
        16
    } else {
        64
    };
    bgp / palette_div % 4
}

/// The scanline machine's registers, apart from the framebuffer: the STAT
/// mode, the dot position, and the frame/line bookkeeping bits.
#[verifier::ext_equal]
pub struct PpuPhase {
    /// The current STAT mode.
    pub mode: u8,
    /// The dot position within the scanline.
    pub dot: u16,
    /// A finished frame is waiting.
    pub frame_ready: bool,
    /// The current visible line has been rendered.
    pub rendered: bool,
}

/// One dot of the scanline machine with the LCD on: the dot counter
/// advances; a line at or past 144 enters the vertical blank once (STAT
/// mode 1, the frame published, VBlank raised in IF); a visible line moves
/// through object search, transfer and horizontal blank, rendering once per
/// line; and at dot 456 the line ends, LY advances (wrapping after 153)
/// and the LYC coincidence bit is driven.
pub open spec fn dot_effect(ph: PpuPhase, v: BusView) -> (PpuPhase, BusView) {
    let dot2 = (ph.dot + 1) as u16;
    let ly = bus_read(v, LY_ADDR);
    let mid: (PpuPhase, BusView) = if ly >= 144 {
        if ph.mode != 1 {
            let v1 = bus_write(v, STAT_ADDR, stat_with_mode(bus_read(v, STAT_ADDR), 1));
            let v2 = BusView { iff: v1.iff | 1, ..v1 };
            (PpuPhase { mode: 1, dot: dot2, frame_ready: true, rendered: ph.rendered }, v2)
        } else {
            (PpuPhase { dot: dot2, ..ph }, v)
        }
    } else {
        let nm: u8 = if dot2 < OAM_DOTS {
            2
        } else if dot2 < OAM_DOTS + XFER_DOTS {
            3
        } else {
            0
        };
        let stepped: (u8, BusView, bool) = if nm != ph.mode {
            (
                nm,
                bus_write(v, STAT_ADDR, stat_with_mode(bus_read(v, STAT_ADDR), nm)),
                if nm == 3 {
                    false
                } else {
                    ph.rendered
                },
            )
        } else {
            (ph.mode, v, ph.rendered)
        };
        let rendered2 = if stepped.0 == 3 && !stepped.2 {
            true
        } else {
            stepped.2
        };
        (
            PpuPhase { mode: stepped.0, dot: dot2, frame_ready: ph.frame_ready, rendered: rendered2 },
            stepped.1,
        )
    };
    if dot2 >= DOTS_PER_LINE {
        let new_ly: u8 = if ly >= 153 {
            0
        } else {
            (ly + 1) as u8
        };
        let v2 = bus_write(mid.1, LY_ADDR, new_ly);
        let v3 = bus_write(
            v2,
            STAT_ADDR,
            stat_with_coincidence(bus_read(v2, STAT_ADDR), new_ly == bus_read(v2, LYC_ADDR)),
        );
        (PpuPhase { dot: 0, rendered: false, ..mid.0 }, v3)
    } else {
        mid
    }
}

/// `n` dots of the scanline machine, one after the other.
pub open spec fn dots_effect(ph: PpuPhase, v: BusView, n: nat) -> (PpuPhase, BusView)
    decreases n,
{
    if n == 0 {
        (ph, v)
    } else {
        let e = dot_effect(ph, v);
        dots_effect(e.0, e.1, (n - 1) as nat)
    }
}

/// A run of dots extended by one more dot at its end.
pub proof fn lemma_dots_effect_step(ph: PpuPhase, v: BusView, n: nat)
    ensures
        dots_effect(ph, v, n + 1).0 == dot_effect(
            dots_effect(ph, v, n).0,
            dots_effect(ph, v, n).1,
        ).0,
        dots_effect(ph, v, n + 1).1 == dot_effect(
            dots_effect(ph, v, n).0,
            dots_effect(ph, v, n).1,
        ).1,
    decreases n,
{
    reveal_with_fuel(dots_effect, 3);
    if n > 0 {
        let e1 = dot_effect(ph, v);
        lemma_dots_effect_step(e1.0, e1.1, (n - 1) as nat);
    }
}

/// The scanline-machine registers of a picture unit.
pub open spec fn phase_of(p: Ppu) -> PpuPhase {
    PpuPhase {
        mode: p.mode,
        dot: p.dot,
        frame_ready: p.frame_ready,
        rendered: p.rendered_this_line,
    }
}

/// The scanline-based picture unit.
pub struct Ppu {
    /// The frame being built.
    pub framebuffer: FrameBuffer,
    /// A finished frame is waiting to be taken.
    pub frame_ready: bool,
    /// The current STAT mode, 0..=3.
    pub mode: u8,
    /// The dot position within the current scanline.
    pub dot: u16,
    /// The current visible line has already been rendered.
    pub rendered_this_line: bool,
}

impl Ppu {
    /// The framebuffer is whole, the mode is a STAT mode and the dot
    /// position stays within one scanline.
    pub open spec fn wf(self) -> bool {
        &&& self.framebuffer.wf()
        &&& self.mode <= 3
        &&& self.dot < DOTS_PER_LINE
    }

    /// A picture unit at the top of the frame: object search, black
    /// screen, no frame ready.
    pub fn new() -> (r: Ppu)
        ensures
            r.wf(),
            r.frame_ready == false,
            r.mode == 2,
            r.dot == 0,
            r.rendered_this_line == false,
            forall|i: int| 0 <= i < r.framebuffer.pixels@.len() ==> r.framebuffer.pixels@[i] == 0,
    {
        Ppu {
            framebuffer: FrameBuffer::new(),
            frame_ready: false,
            mode: 2,
            dot: 0,
            rendered_this_line: false,
        }
    }

    /// Writes the given mode into the low two STAT bits.
    pub(crate) fn set_stat_mode(&self, bus: &mut MemoryBus, mode: u8)
        requires
            mode <= 3,
            bus_wf(old(bus)@),
        ensures
            bus_wf(final(bus)@),
            final(bus)@ == bus_write(
                old(bus)@,
                STAT_ADDR,
                stat_with_mode(bus_read(old(bus)@, STAT_ADDR), mode),
            ),
    {
        let stat = bus.read(STAT_ADDR);
        bus.write(STAT_ADDR, stat / 4 * 4 + mode);
    }

    /// Compares the new scanline against the compare register and drives
    /// the STAT coincidence bit.
    pub(crate) fn update_lyc(&self, bus: &mut MemoryBus, ly: u8)
        requires
            bus_wf(old(bus)@),
        ensures
            bus_wf(final(bus)@),
            final(bus)@ == bus_write(
                old(bus)@,
                STAT_ADDR,
                stat_with_coincidence(
                    bus_read(old(bus)@, STAT_ADDR),
                    ly == bus_read(old(bus)@, LYC_ADDR),
                ),
            ),
    {
        let lyc = bus.read(LYC_ADDR);
        let stat = bus.read(STAT_ADDR);
        let base = stat - (stat / 4 % 2) * 4;
        if ly == lyc {
            bus.write(STAT_ADDR, base + 4);
        } else {
            bus.write(STAT_ADDR, base);
        }
    }

    /// Renders the background pixels of one visible scanline into the
    /// framebuffer: every pixel of the row becomes its `bg_pixel` shade
    /// through the background palette; the other rows are untouched. A
    /// disabled background leaves the frame as it is.
    #[verifier::rlimit(100)]
    pub(crate) fn render_scanline(&mut self, bus: &MemoryBus, ly: u8)
        requires
            old(self).wf(),
            ly < 144,
            bus_wf(bus@),
        ensures
            final(self).wf(),
            final(self).frame_ready == old(self).frame_ready,
            final(self).mode == old(self).mode,
            final(self).dot == old(self).dot,
            final(self).rendered_this_line == old(self).rendered_this_line,
            final(self).framebuffer.pixels@.len() == old(self).framebuffer.pixels@.len(),
            forall|i: int|
                0 <= i < final(self).framebuffer.pixels@.len() && !(ly * SCREEN_W <= i < ly
                    * SCREEN_W + SCREEN_W) ==> final(self).framebuffer.pixels@[i] == old(
                    self,
                ).framebuffer.pixels@[i],
            bus_read(bus@, LCDC_ADDR) % 2 == 0 ==> final(self).framebuffer == old(
                self,
            ).framebuffer,
            bus_read(bus@, LCDC_ADDR) % 2 == 1 ==> forall|x: int|
                0 <= x < SCREEN_W ==> final(self).framebuffer.pixels@[ly * SCREEN_W + x]
                    == bg_pixel(bus@, ly, x),
    {
        let lcdc = bus.read(LCDC_ADDR);
        if lcdc % 2 == 0 {
            // background disabled
            return;
        }
        let scx = bus.read(SCX_ADDR);
        let scy = bus.read(SCY_ADDR);
        let bgp = bus.read(BGP_ADDR);

        // background map base: LCDC bit 3
        let bg_map_base: u16 = if lcdc / 8 % 2 == 1 {
            0x9C00
        } else {
            0x9800
        };
        // tile data addressing: LCDC bit 4 selects unsigned indexing
        let tile_data_unsigned = lcdc / 16 % 2 == 1;

        let y: u16 = ly as u16;
        let world_y: u16 = y + scy as u16;
        let tile_row: u16 = (world_y / 8) % 32;
        let row_in_tile: u16 = world_y % 8;

        let mut x: usize = 0;
        while x < SCREEN_W
            invariant
                x <= SCREEN_W,
                ly < 144,
                self.framebuffer.wf(),
                bus_wf(bus@),
                lcdc == bus_read(bus@, LCDC_ADDR),
                lcdc % 2 == 1,
                scx == bus_read(bus@, SCX_ADDR),
                scy == bus_read(bus@, SCY_ADDR),
                bgp == bus_read(bus@, BGP_ADDR),
                bg_map_base == (if lcdc / 8 % 2 == 1 { 0x9C00int } else { 0x9800int }),
                tile_data_unsigned == (lcdc / 16 % 2 == 1),
                world_y == ly + scy,
                tile_row == world_y / 8 % 32,
                row_in_tile == world_y % 8,
                tile_row < 32,
                row_in_tile < 8,
                self.framebuffer.pixels@.len() == old(self).framebuffer.pixels@.len(),
                self.frame_ready == old(self).frame_ready,
                self.mode == old(self).mode,
                self.dot == old(self).dot,
                self.rendered_this_line == old(self).rendered_this_line,
                forall|i: int|
                    0 <= i < self.framebuffer.pixels@.len() && !(ly * SCREEN_W <= i < ly * SCREEN_W
                        + SCREEN_W) ==> self.framebuffer.pixels@[i] == old(
                        self,
                    ).framebuffer.pixels@[i],
                forall|j: int|
                    0 <= j < x ==> self.framebuffer.pixels@[ly * SCREEN_W + j] == bg_pixel(
                        bus@,
                        ly,
                        j,
                    ),
            decreases SCREEN_W - x,
        {
            let world_x: u16 = (x as u16).wrapping_add(scx as u16);
            let tile_col: u16 = (world_x / 8) % 32;
            let col_in_tile: u16 = world_x % 8;

            let tile_index_addr: u16 = bg_map_base + tile_row * 32 + tile_col;
            let tile_index = bus.read(tile_index_addr);

            let tile_addr: u16 = if tile_data_unsigned {
                0x8000 + (tile_index as u16) * 16
            } else if tile_index < 128 {
                0x9000 + (tile_index as u16) * 16
            } else {
                0x8800 + (tile_index as u16 - 128) * 16
            };

            // two bytes per tile row
            let lo = bus.read(tile_addr + row_in_tile * 2);
            let hi = bus.read(tile_addr + row_in_tile * 2 + 1);

            // pixel bit, from 7 down to 0
            let bit: u8 = 7 - col_in_tile as u8;
            let mask = crate::alu::bit_mask(bit);
            let b0 = lo / mask % 2;
            let b1 = hi / mask % 2;
            let color_id = b1 * 2 + b0;

            // the palette maps each colour index to a shade
            let palette_div: u8 = if color_id == 0 {
                1
            } else if color_id == 1 {
                4
            } else if color_id == 2 {
                16
            } else {
                64
            };
            let shade = bgp / palette_div % 4;

            self.framebuffer.set(x, ly as usize, shade);
            x = x + 1;
        }
    }

    /// Consumes a dot budget. With the LCD off, the unit rests at the top
    /// of the frame with LY forced to zero. With it on, each dot advances
    /// the scanline state machine: the visible lines pass through object
    /// search, transfer (rendering once) and horizontal blank; line 144
    /// enters the vertical blank, publishes the finished frame and raises
    /// the VBlank interrupt; line 153 wraps back to zero.
    #[verifier::rlimit(100)]
    pub fn tick(&mut self, t_cycles: u64, bus: &mut MemoryBus)
        requires
            old(self).wf(),
            bus_wf(old(bus)@),
        ensures
            final(self).wf(),
            bus_wf(final(bus)@),
            old(self).frame_ready ==> final(self).frame_ready,
            ({
                let lcdc = bus_read(old(bus)@, LCDC_ADDR);
                lcdc / 128 % 2 == 0 ==> {
                    &&& final(self).mode == 0
                    &&& final(self).dot == 0
                    &&& final(self).frame_ready == old(self).frame_ready
                    &&& final(self).framebuffer == old(self).framebuffer
                    &&& final(bus)@ == bus_write(
                        bus_write(old(bus)@, LY_ADDR, 0),
                        STAT_ADDR,
                        stat_with_mode(bus_read(bus_write(old(bus)@, LY_ADDR, 0), STAT_ADDR), 0),
                    )
                }
            }),
            ({
                let lcdc = bus_read(old(bus)@, LCDC_ADDR);
                lcdc / 128 % 2 == 1 ==> ({
                    let e = dots_effect(phase_of(*old(self)), old(bus)@, t_cycles as nat);
                    &&& phase_of(*final(self)) == e.0
                    &&& final(bus)@ == e.1
                })
            }),
    {
        let lcdc = bus.read(LCDC_ADDR);
        if lcdc / 128 % 2 == 0 {
            self.mode = 0;
            self.dot = 0;
            self.rendered_this_line = false;
            bus.write(LY_ADDR, 0);
            self.set_stat_mode(bus, 0);
            return;
        }

        let mut dots: u64 = t_cycles;
        let ghost mut consumed: nat = 0;
        while dots > 0
            invariant
                self.wf(),
                bus_wf(bus@),
                old(self).frame_ready ==> self.frame_ready,
                consumed + dots == t_cycles,
                phase_of(*self) == dots_effect(phase_of(*old(self)), old(bus)@, consumed).0,
                bus@ == dots_effect(phase_of(*old(self)), old(bus)@, consumed).1,
            decreases dots,
        {
            proof {
                lemma_dots_effect_step(phase_of(*old(self)), old(bus)@, consumed);
            }
            let ghost ph_pre = phase_of(*self);
            let ghost v_pre = bus@;
            dots = dots - 1;
            self.dot = self.dot + 1;

            let ly = bus.read(LY_ADDR);

            if ly >= 144 {
                if self.mode != 1 {
                    self.mode = 1;
                    self.set_stat_mode(bus, 1);
                    self.frame_ready = true;
                    // VBlank is raised on the transition into line 144
                    bus.request_interrupt(0x01);
                }
            } else {
                let new_mode: u8 = if self.dot < OAM_DOTS {
                    2
                } else if self.dot < OAM_DOTS + XFER_DOTS {
                    3
                } else {
                    0
                };
                if new_mode != self.mode {
                    self.mode = new_mode;
                    self.set_stat_mode(bus, new_mode);
                    if new_mode == 3 {
                        self.rendered_this_line = false;
                    }
                }
                if self.mode == 3 && !self.rendered_this_line {
                    self.render_scanline(bus, ly);
                    self.rendered_this_line = true;
                }
            }

            if self.dot >= DOTS_PER_LINE {
                self.dot = 0;
                self.rendered_this_line = false;
                let mut new_ly = ly.wrapping_add(1);
                if new_ly > 153 {
                    new_ly = 0;
                }
                bus.write(LY_ADDR, new_ly);
                self.update_lyc(bus, new_ly);
            }
            proof {
                assert(phase_of(*self) == dot_effect(ph_pre, v_pre).0);
                assert(bus@ == dot_effect(ph_pre, v_pre).1);
                consumed = consumed + 1;
            }
        }
    }

    /// Hands out the finished frame once per vertical blank: a copy of the
    /// 160x144 shade indices, or nothing while the next frame is still
    /// being drawn.
    pub fn take_frame(&mut self) -> (r: Option<Vec<u8>>)
        requires
            old(self).wf(),
        ensures
            final(self).wf(),
            old(self).frame_ready ==> (r matches Some(frame) && frame@ == old(
                self,
            ).framebuffer.pixels@ && final(self).frame_ready == false),
            !old(self).frame_ready ==> r is None && *final(self) == *old(self),
            final(self).framebuffer == old(self).framebuffer,
    {
        if self.frame_ready {
            self.frame_ready = false;
            let mut out: Vec<u8> = Vec::new();
            let n = self.framebuffer.pixels.len();
            let mut i: usize = 0;
            while i < n
                invariant
                    i <= n,
                    n == self.framebuffer.pixels@.len(),
                    out@.len() == i,
                    forall|j: int| 0 <= j < i ==> out@[j] == self.framebuffer.pixels@[j],
                decreases n - i,
            {
                out.push(self.framebuffer.pixels[i]);
                i = i + 1;
            }
            proof {
                assert(out@ =~= self.framebuffer.pixels@);
            }
            Some(out)
        } else {
            None
        }
    }
}

} // verus!
