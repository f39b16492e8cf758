//! One CPU step: service a pending interrupt, honour the halt and stop
//! states, or fetch, decode and execute the instruction at PC — and
//! promote a delayed interrupt enable afterwards.

use vstd::prelude::*;

use crate::alu::bit_mask_val;
use crate::alu::wrap16;
use crate::bus::BusView;
use crate::bus::MemoryBus;
use crate::bus::bus_read;
use crate::bus::bus_wf;
use crate::cpu::Cpu;
use crate::cpu::cycles_ok;
use crate::effect::instr_effect;
use crate::errors::EmuError;
use crate::exec::instr_len;
use crate::exec::is_branching;
use crate::exec::is_illegal;
use crate::exec_high::pushed;

verus! {

/// The interrupt bits that are both pending and enabled.
pub open spec fn pending_bits(v: BusView) -> u8 {
    v.iff & v.ie
}

/// The lowest set bit of a 5-bit interrupt mask: the highest-priority
/// pending interrupt.
pub open spec fn lowest_bit(p: u8) -> u8 {
    if p % 2 == 1 {
        0
    } else if p / 2 % 2 == 1 {
        1
    } else if p / 4 % 2 == 1 {
        2
    } else if p / 8 % 2 == 1 {
        3
    } else {
        4
    }
}

/// The fixed service vector of an interrupt bit: 0x40, 0x48, 0x50, 0x58,
/// 0x60.
pub open spec fn int_vector(b: u8) -> u16 {
    (0x40 + 8 * b) as u16
}

impl Cpu {
    /// Executes the already-fetched opcode at PC. Fails exactly on the 11
    /// unused opcodes and on a STOP whose second byte is not zero.
    pub(crate) fn execute(&mut self, op: u8, bus: &mut MemoryBus) -> (r: Result<u8, EmuError>)
        requires
            old(self).wf(),
            bus_wf(old(bus)@),
        ensures
            final(self).wf(),
            bus_wf(final(bus)@),
            final(self).cycles == old(self).cycles,
            r is Ok <==> !(is_illegal(op) || (op == 0x10 && bus_read(
                old(bus)@,
                wrap16(old(self).pc + 1),
            ) != 0)),
            is_illegal(op) ==> r == Err::<u8, EmuError>(
                EmuError::IllegalOpcode { opcode: op, pc: old(self).pc },
            ),
            (op == 0x10 && bus_read(old(bus)@, wrap16(old(self).pc + 1)) != 0) ==> r == Err::<
                u8,
                EmuError,
            >(EmuError::MalformedStop),
            r matches Ok(c) ==> cycles_ok(c) && c >= 4,
            r is Ok && !is_branching(op) ==> final(self).pc == wrap16(
                old(self).pc + instr_len(op),
            ),
            final(self).halt == (old(self).halt || (r is Ok && op == 0x76)),
            r is Ok ==> final(self).stop == (old(self).stop || op == 0x10),
            r is Ok ==> final(self).ime == (if op == 0xF3 {
                false
            } else if op == 0xD9 {
                true
            } else {
                old(self).ime
            }),
            r is Ok ==> final(self).ime_pending == (if op == 0xF3 {
                false
            } else if op == 0xFB {
                true
            } else {
                old(self).ime_pending
            }),
            r matches Ok(c) ==> ({
                let e = instr_effect(*old(self), old(bus)@, op);
                *final(self) == e.cpu && final(bus)@ == e.bus && c == e.dots
            }),
    {
        if op == 0x76 {
            self.inc_pc();
            self.halt = true;
            Ok(4)
        } else if op < 0x40 {
            self.exec_low(op, bus)
        } else if op < 0x80 {
            Ok(self.exec_ld_rr(op, bus))
        } else if op < 0xC0 {
            Ok(self.exec_alu_r(op, bus))
        } else if op == 0xCB {
            Ok(self.exec_cb(bus))
        } else {
            self.exec_high(op, bus)
        }
    }

    /// One step of the CPU. In order: a stopped CPU does nothing and
    /// reports zero dots; a pending enabled interrupt leaves the halt state
    /// and, when the master enable is set, is dispatched for 20 dots
    /// (lowest bit first: its flag bit cleared, the master enable dropped,
    /// PC pushed and set to the service vector); a halted CPU idles for 4
    /// dots; otherwise the instruction at PC runs, and an interrupt enable
    /// that EI delayed is promoted after it.
    #[verifier::rlimit(100)]
    pub fn step(&mut self, bus: &mut MemoryBus) -> (r: Result<u8, EmuError>)
        requires
            old(self).wf(),
            bus_wf(old(bus)@),
        ensures
            final(self).wf(),
            bus_wf(final(bus)@),
            r matches Ok(c) ==> cycles_ok(c) && final(self).cycles == c,
            old(self).stop ==> r == Ok::<u8, EmuError>(0) && *final(self) == (Cpu {
                cycles: 0,
                ..*old(self)
            }) && final(bus)@ == old(bus)@,
            // interrupt dispatch
            (!old(self).stop && pending_bits(old(bus)@) != 0 && old(self).ime) ==> ({
                let b = lowest_bit(pending_bits(old(bus)@));
                &&& r == Ok::<u8, EmuError>(20)
                &&& *final(self) == (Cpu {
                    pc: int_vector(b),
                    sp: wrap16(old(self).sp - 2),
                    ime: false,
                    halt: false,
                    cycles: 20,
                    ..*old(self)
                })
                &&& final(bus)@ == pushed(
                    (BusView { iff: (old(bus)@.iff - bit_mask_val(b)) as u8, ..old(bus)@ }),
                    old(self).sp,
                    old(self).pc,
                )
            }),
            // halted with nothing pending: idle
            (!old(self).stop && pending_bits(old(bus)@) == 0 && old(self).halt) ==> r == Ok::<
                u8,
                EmuError,
            >(4) && *final(self) == (Cpu { cycles: 4, ..*old(self) }) && final(bus)@ == old(bus)@,
            // ordinary execution
            ({
                let p = pending_bits(old(bus)@);
                let op = bus_read(old(bus)@, old(self).pc);
                (!old(self).stop && !(p != 0 && old(self).ime) && !(p == 0 && old(self).halt))
                    ==> {
                    &&& (r is Ok <==> !(is_illegal(op) || (op == 0x10 && bus_read(
                        old(bus)@,
                        wrap16(old(self).pc + 1),
                    ) != 0)))
                    &&& (is_illegal(op) ==> r == Err::<u8, EmuError>(
                        EmuError::IllegalOpcode { opcode: op, pc: old(self).pc },
                    ))
                    &&& ((op == 0x10 && bus_read(old(bus)@, wrap16(old(self).pc + 1)) != 0) ==> r
                        == Err::<u8, EmuError>(EmuError::MalformedStop))
                    &&& (r matches Ok(c) ==> c >= 4)
                    &&& (r is Ok && !is_branching(op) ==> final(self).pc == wrap16(
                        old(self).pc + instr_len(op),
                    ))
                    &&& (r is Ok && op == 0x10 ==> final(self).stop)
                    &&& (r is Ok && op == 0x76 ==> final(self).halt)
                    &&& (r matches Ok(cyc) ==> ({
                        let entry = Cpu { halt: false, ..*old(self) };
                        let e = instr_effect(entry, old(bus)@, op);
                        let promoted = if old(self).ime_pending && e.cpu.ime_pending {
                            (Cpu { ime: true, ime_pending: false, ..e.cpu })
                        } else {
                            e.cpu
                        };
                        &&& *final(self) == (Cpu { cycles: cyc, ..promoted })
                        &&& final(bus)@ == e.bus
                        &&& cyc == e.dots
                    }))
                }
            }),
    {
        if self.stop {
            self.cycles = 0;
            return Ok(0);
        }
        let iff = bus.interrupt_flag();
        let ie = bus.interrupt_enable();
        let p = iff & ie;
        if p != 0 {
            self.halt = false;
            if self.ime {
                let (b, mask): (u8, u8) = if p % 2 == 1 {
                    (0, 1)
                } else if p / 2 % 2 == 1 {
                    (1, 2)
                } else if p / 4 % 2 == 1 {
                    (2, 4)
                } else if p / 8 % 2 == 1 {
                    (3, 8)
                } else {
                    (4, 16)
                };
                proof {
                    let pv = old(bus)@.iff & old(bus)@.ie;
                    let iv = old(bus)@.iff;
                    let ev = old(bus)@.ie;
                    assert(pv % 2 == 1 ==> iv % 2 == 1) by (bit_vector)
                        requires
                            pv == iv & ev,
                    ;
                    assert(pv / 2 % 2 == 1 ==> iv / 2 % 2 == 1) by (bit_vector)
                        requires
                            pv == iv & ev,
                    ;
                    assert(pv / 4 % 2 == 1 ==> iv / 4 % 2 == 1) by (bit_vector)
                        requires
                            pv == iv & ev,
                    ;
                    assert(pv / 8 % 2 == 1 ==> iv / 8 % 2 == 1) by (bit_vector)
                        requires
                            pv == iv & ev,
                    ;
                    assert(pv / 16 % 2 == 1 ==> iv / 16 % 2 == 1) by (bit_vector)
                        requires
                            pv == iv & ev,
                    ;
                    assert(pv < 32) by (bit_vector)
                        requires
                            pv == iv & ev,
                            iv < 32,
                    ;
                }
                bus.set_interrupt_flag(iff - mask);
                let pc0 = self.pc;
                self.push16(pc0, bus);
                self.pc = 0x40 + 8 * b as u16;
                self.ime = false;
                self.cycles = 20;
                return Ok(20);
            }
        }
        if self.halt {
            self.cycles = 4;
            return Ok(4);
        }
        let ei_pending = self.ime_pending;
        let op = bus.read(self.pc);
        match self.execute(op, bus) {
            Ok(c) => {
                if ei_pending && self.ime_pending {
                    self.ime = true;
                    self.ime_pending = false;
                }
                self.cycles = c;
                Ok(c)
            },
            Err(e) => Err(e),
        }
    }
}

} // verus!
