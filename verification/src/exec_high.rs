//! The opcode block 0xC0..0x100: stack pushes and pops, jumps, calls,
//! returns, restarts, the immediate arithmetic/logic forms, the high-page
//! loads, the stack-pointer arithmetic and the interrupt-enable
//! instructions. The 11 unused opcodes of this block fail with
//! `IllegalOpcode`.

use vstd::prelude::*;

use crate::alu::addsp_flags;
use crate::alu::addsp_val;
use crate::alu::alu_add8;
use crate::alu::alu_addsp;
use crate::alu::alu_and8;
use crate::alu::alu_or8;
use crate::alu::alu_sub8;
use crate::alu::alu_xor8;
use crate::alu::wrap16;
use crate::bus::MemoryBus;
use crate::bus::bus_read;
use crate::bus::bus_wf;
use crate::bus::bus_write;
use crate::cpu::Cpu;
use crate::cpu::cycles_ok;
use crate::cpu::hi8;
use crate::cpu::lo8;
use crate::cpu::with_bc;
use crate::cpu::with_de;
use crate::cpu::with_hl;
use crate::cpu::word;
use crate::errors::EmuError;
use crate::exec::alu_apply;
use crate::exec::instr_len;
use crate::exec::is_branching;
use crate::exec::is_illegal;
use crate::exec_low::cond_holds;

verus! {

/// The stack bytes written by a push: the high byte at SP-1, the low byte
/// at SP-2.
pub open spec fn pushed(v: BusView, sp: u16, val: u16) -> BusView {
    bus_write(bus_write(v, wrap16(sp - 1), hi8(val)), wrap16(sp - 2), lo8(val))
}

use crate::bus::BusView;

/// The 16-bit value a pop reads: the low byte at SP, the high byte at SP+1.
pub open spec fn popped(v: BusView, sp: u16) -> u16 {
    word(bus_read(v, wrap16(sp + 1)), bus_read(v, sp))
}

/// A push followed by a pop at the moved stack pointer returns the pushed
/// 16-bit value, as long as the two stack bytes lie in plain RAM. For the
/// AF pair, whose low byte always has a zero low nibble, the value also
/// survives the mask POP AF applies.
pub proof fn lemma_push_pop_roundtrip(v: BusView, sp: u16, val: u16)
    requires
        crate::bus::bus_wf(v),
        crate::bus::plain_ram(wrap16(sp - 1)),
        crate::bus::plain_ram(wrap16(sp - 2)),
    ensures
        popped(pushed(v, sp, val), wrap16(sp - 2)) == val,
        crate::flags::flags_wf(lo8(val)) ==> ({
            let got = popped(pushed(v, sp, val), wrap16(sp - 2));
            word(hi8(got), (lo8(got) / 16 * 16) as u8) == val
        }),
{
    let a1 = wrap16(sp - 1);
    let a2 = wrap16(sp - 2);
    assert(a1 >= 0x8000 && a2 >= 0x8000);
    assert(a2 == sp - 2 && a1 == sp - 1);
    let v1 = bus_write(v, a1, hi8(val));
    crate::bus::lemma_bus_write_wf(v, a1, hi8(val));
    let v2 = bus_write(v1, a2, lo8(val));
    crate::bus::lemma_plain_ram_write_read(v1, a2, lo8(val));
    crate::bus::lemma_plain_ram_write_read(v, a1, hi8(val));
    assert(crate::bus::backing_addr(a2) != crate::bus::backing_addr(a1));
    crate::bus::lemma_plain_ram_write_frame(v1, a2, lo8(val), a1);
    assert(wrap16(a2 + 1) == a1);
    assert(bus_read(v2, a2) == lo8(val));
    assert(bus_read(v2, a1) == hi8(val));
    assert(word(hi8(val), lo8(val)) == val);
}

impl Cpu {
    /// PUSH and POP of the four register pairs. POP AF masks the low nibble
    /// of the flag byte to zero.
    #[verifier::rlimit(100)]
    pub(crate) fn exec_push_pop(&mut self, op: u8, bus: &mut MemoryBus) -> (c: u8)
        requires
            op == 0xC1 || op == 0xD1 || op == 0xE1 || op == 0xF1 || op == 0xC5 || op == 0xD5
                || op == 0xE5 || op == 0xF5,
            old(self).wf(),
            bus_wf(old(bus)@),
        ensures
            final(self).wf(),
            bus_wf(final(bus)@),
            final(self).halt == old(self).halt,
            final(self).stop == old(self).stop,
            final(self).cycles == old(self).cycles,
            final(self).ime == old(self).ime,
            final(self).ime_pending == old(self).ime_pending,
            c == (if op % 16 == 5 { 16u8 } else { 12u8 }),
            final(self).pc == wrap16(old(self).pc + 1),
            // PUSH rr
            ({
                let moved = Cpu { pc: wrap16(old(self).pc + 1), sp: wrap16(old(self).sp - 2), ..*old(self) };
                &&& (op == 0xC5 ==> *final(self) == moved && final(bus)@ == pushed(
                    old(bus)@,
                    old(self).sp,
                    word(old(self).b, old(self).c),
                ))
                &&& (op == 0xD5 ==> *final(self) == moved && final(bus)@ == pushed(
                    old(bus)@,
                    old(self).sp,
                    word(old(self).d, old(self).e),
                ))
                &&& (op == 0xE5 ==> *final(self) == moved && final(bus)@ == pushed(
                    old(bus)@,
                    old(self).sp,
                    word(old(self).h, old(self).l),
                ))
                &&& (op == 0xF5 ==> *final(self) == moved && final(bus)@ == pushed(
                    old(bus)@,
                    old(self).sp,
                    word(old(self).a, old(self).f),
                ))
            }),
            // POP rr
            ({
                let v = popped(old(bus)@, old(self).sp);
                let moved = Cpu { pc: wrap16(old(self).pc + 1), sp: wrap16(old(self).sp + 2), ..*old(self) };
                &&& (op == 0xC1 ==> *final(self) == with_bc(moved, v))
                &&& (op == 0xD1 ==> *final(self) == with_de(moved, v))
                &&& (op == 0xE1 ==> *final(self) == with_hl(moved, v))
                &&& (op == 0xF1 ==> *final(self) == (Cpu {
                    a: hi8(v),
                    f: (lo8(v) / 16 * 16) as u8,
                    ..moved
                }))
                &&& (op % 16 == 1 ==> final(bus)@ == old(bus)@)
            }),
    {
        self.inc_pc();
        if op == 0xC5 {
            let v = self.bc();
            self.push16(v, bus);
            16
        } else if op == 0xD5 {
            let v = self.de();
            self.push16(v, bus);
            16
        } else if op == 0xE5 {
            let v = self.hl();
            self.push16(v, bus);
            16
        } else if op == 0xF5 {
            let v = self.af();
            self.push16(v, bus);
            16
        } else {
            let v = self.pop16(bus);
            if op == 0xC1 {
                self.set_bc(v);
            } else if op == 0xD1 {
                self.set_de(v);
            } else if op == 0xE1 {
                self.set_hl(v);
            } else {
                self.a = (v / 256) as u8;
                self.f = (v % 256) as u8 / 16 * 16;
            }
            12
        }
    }

    /// The absolute jumps: JP d16 (16 dots), the conditional forms (16
    /// taken, 12 not), and JP HL (4 dots).
    #[verifier::rlimit(100)]
    pub(crate) fn exec_jp(&mut self, op: u8, bus: &MemoryBus) -> (c: u8)
        requires
            op == 0xC3 || op == 0xC2 || op == 0xCA || op == 0xD2 || op == 0xDA || op == 0xE9,
            old(self).wf(),
            bus_wf(bus@),
        ensures
            final(self).wf(),
            final(self).halt == old(self).halt,
            final(self).stop == old(self).stop,
            final(self).cycles == old(self).cycles,
            final(self).ime == old(self).ime,
            final(self).ime_pending == old(self).ime_pending,
            cycles_ok(c) && c >= 4,
            ({
                let imm = word(
                    bus_read(bus@, wrap16(old(self).pc + 2)),
                    bus_read(bus@, wrap16(old(self).pc + 1)),
                );
                &&& (op == 0xC3 ==> *final(self) == (Cpu { pc: imm, ..*old(self) }) && c == 16)
                &&& (op == 0xE9 ==> *final(self) == (Cpu {
                    pc: word(old(self).h, old(self).l),
                    ..*old(self)
                }) && c == 4)
                &&& (op != 0xC3 && op != 0xE9 ==> ({
                    let taken = cond_holds(((op - 0xC2) / 8) as u8, old(self).f);
                    &&& (taken ==> *final(self) == (Cpu { pc: imm, ..*old(self) }) && c == 16)
                    &&& (!taken ==> *final(self) == (Cpu {
                        pc: wrap16(old(self).pc + 3),
                        ..*old(self)
                    }) && c == 12)
                }))
            }),
    {
        if op == 0xE9 {
            self.pc = self.hl();
            4
        } else {
            self.inc_pc();
            let imm = self.fetch16(bus);
            let taken = if op == 0xC3 {
                true
            } else {
                self.cond_eval((op - 0xC2) / 8)
            };
            if taken {
                self.pc = imm;
                16
            } else {
                12
            }
        }
    }

    /// The calls and restarts: CALL pushes the address after its three
    /// bytes and jumps (24 dots; a conditional form that stays costs 12);
    /// RST pushes the address after its one byte and jumps to its fixed
    /// vector (16 dots).
    #[verifier::rlimit(100)]
    pub(crate) fn exec_call_rst(&mut self, op: u8, bus: &mut MemoryBus) -> (c: u8)
        requires
            op == 0xCD || op == 0xC4 || op == 0xCC || op == 0xD4 || op == 0xDC || (op >= 0xC0 && op
                % 8 == 7),
            old(self).wf(),
            bus_wf(old(bus)@),
        ensures
            final(self).wf(),
            bus_wf(final(bus)@),
            final(self).halt == old(self).halt,
            final(self).stop == old(self).stop,
            final(self).cycles == old(self).cycles,
            final(self).ime == old(self).ime,
            final(self).ime_pending == old(self).ime_pending,
            cycles_ok(c) && c >= 4,
            // RST
            op % 8 == 7 ==> *final(self) == (Cpu {
                pc: (op - 0xC7) as u16,
                sp: wrap16(old(self).sp - 2),
                ..*old(self)
            }) && final(bus)@ == pushed(old(bus)@, old(self).sp, wrap16(old(self).pc + 1)) && c
                == 16,
            // CALL
            op % 8 != 7 ==> ({
                let imm = word(
                    bus_read(old(bus)@, wrap16(old(self).pc + 2)),
                    bus_read(old(bus)@, wrap16(old(self).pc + 1)),
                );
                let taken = op == 0xCD || cond_holds(((op - 0xC4) / 8) as u8, old(self).f);
                &&& (taken ==> *final(self) == (Cpu {
                    pc: imm,
                    sp: wrap16(old(self).sp - 2),
                    ..*old(self)
                }) && final(bus)@ == pushed(old(bus)@, old(self).sp, wrap16(old(self).pc + 3)) && c
                    == 24)
                &&& (!taken ==> *final(self) == (Cpu { pc: wrap16(old(self).pc + 3), ..*old(self) })
                    && final(bus)@ == old(bus)@ && c == 12)
            }),
    {
        if op % 8 == 7 {
            self.inc_pc();
            let ret = self.pc;
            self.push16(ret, bus);
            self.pc = (op - 0xC7) as u16;
            16
        } else {
            self.inc_pc();
            let imm = self.fetch16(bus);
            let taken = if op == 0xCD {
                true
            } else {
                self.cond_eval((op - 0xC4) / 8)
            };
            if taken {
                let ret = self.pc;
                self.push16(ret, bus);
                self.pc = imm;
                24
            } else {
                12
            }
        }
    }

    /// The returns: RET pops the return address (16 dots), the conditional
    /// forms cost 20 when taken and 8 when not, and RETI also raises the
    /// interrupt master enable at once, without the EI delay.
    #[verifier::rlimit(100)]
    pub(crate) fn exec_ret(&mut self, op: u8, bus: &MemoryBus) -> (c: u8)
        requires
            op == 0xC9 || op == 0xD9 || op == 0xC0 || op == 0xC8 || op == 0xD0 || op == 0xD8,
            old(self).wf(),
            bus_wf(bus@),
        ensures
            final(self).wf(),
            final(self).halt == old(self).halt,
            final(self).stop == old(self).stop,
            final(self).cycles == old(self).cycles,
            final(self).ime == (if op == 0xD9 { true } else { old(self).ime }),
            final(self).ime_pending == old(self).ime_pending,
            cycles_ok(c) && c >= 4,
            ({
                let v = popped(bus@, old(self).sp);
                let returned = Cpu { pc: v, sp: wrap16(old(self).sp + 2), ..*old(self) };
                &&& (op == 0xC9 ==> *final(self) == returned && c == 16)
                &&& (op == 0xD9 ==> *final(self) == (Cpu { ime: true, ..returned }) && c == 16)
                &&& (op != 0xC9 && op != 0xD9 ==> ({
                    let taken = cond_holds(((op - 0xC0) / 8) as u8, old(self).f);
                    &&& (taken ==> *final(self) == returned && c == 20)
                    &&& (!taken ==> *final(self) == (Cpu {
                        pc: wrap16(old(self).pc + 1),
                        ..*old(self)
                    }) && c == 8)
                }))
            }),
    {
        if op == 0xC9 {
            let v = self.pop16(bus);
            self.pc = v;
            16
        } else if op == 0xD9 {
            let v = self.pop16(bus);
            self.pc = v;
            self.ime = true;
            16
        } else {
            self.inc_pc();
            if self.cond_eval((op - 0xC0) / 8) {
                let v = self.pop16(bus);
                self.pc = v;
                20
            } else {
                8
            }
        }
    }

    /// The immediate arithmetic/logic forms: ADD, ADC, SUB, SBC, AND, XOR,
    /// OR and CP of the byte after the opcode; 8 dots.
    #[verifier::rlimit(100)]
    pub(crate) fn exec_alu_d8(&mut self, op: u8, bus: &MemoryBus) -> (c: u8)
        requires
            op >= 0xC0,
            op % 8 == 6,
            old(self).wf(),
            bus_wf(bus@),
        ensures
            final(self).wf(),
            c == 8,
            ({
                let oper = ((op - 0xC0) / 8) as u8;
                let v = bus_read(bus@, wrap16(old(self).pc + 1));
                *final(self) == (Cpu {
                    a: alu_apply(old(self).a, old(self).f, v, oper).0,
                    f: alu_apply(old(self).a, old(self).f, v, oper).1,
                    pc: wrap16(old(self).pc + 2),
                    ..*old(self)
                })
            }),
    {
        self.inc_pc();
        let v = self.fetch8(bus);
        let oper = (op - 0xC0) / 8;
        let a = self.a;
        let carry = self.c_flag();
        let (na, nf): (u8, u8) = if oper == 0 {
            alu_add8(a, v, false)
        } else if oper == 1 {
            alu_add8(a, v, carry)
        } else if oper == 2 {
            alu_sub8(a, v, false)
        } else if oper == 3 {
            alu_sub8(a, v, carry)
        } else if oper == 4 {
            alu_and8(a, v)
        } else if oper == 5 {
            alu_xor8(a, v)
        } else if oper == 6 {
            alu_or8(a, v)
        } else {
            let sub = alu_sub8(a, v, false);
            (a, sub.1)
        };
        self.a = na;
        self.f = nf;
        8
    }

    /// The high-page and absolute accumulator transfers: LDH through the
    /// 0xFF00 page by immediate offset or by register C, and the loads and
    /// stores through a 16-bit immediate address.
    #[verifier::rlimit(100)]
    pub(crate) fn exec_ldh(&mut self, op: u8, bus: &mut MemoryBus) -> (c: u8)
        requires
            op == 0xE0 || op == 0xF0 || op == 0xE2 || op == 0xF2 || op == 0xEA || op == 0xFA,
            old(self).wf(),
            bus_wf(old(bus)@),
        ensures
            final(self).wf(),
            bus_wf(final(bus)@),
            final(self).halt == old(self).halt,
            final(self).stop == old(self).stop,
            final(self).cycles == old(self).cycles,
            final(self).ime == old(self).ime,
            final(self).ime_pending == old(self).ime_pending,
            final(self).pc == wrap16(old(self).pc + instr_len(op)),
            c == (if op == 0xEA || op == 0xFA {
                16u8
            } else if op == 0xE0 || op == 0xF0 {
                12u8
            } else {
                8u8
            }),
            ({
                let d8 = bus_read(old(bus)@, wrap16(old(self).pc + 1));
                let imm = word(bus_read(old(bus)@, wrap16(old(self).pc + 2)), d8);
                &&& (op == 0xE0 ==> *final(self) == (Cpu {
                    pc: wrap16(old(self).pc + 2),
                    ..*old(self)
                }) && final(bus)@ == bus_write(old(bus)@, (0xFF00 + d8) as u16, old(self).a))
                &&& (op == 0xF0 ==> *final(self) == (Cpu {
                    a: bus_read(old(bus)@, (0xFF00 + d8) as u16),
                    pc: wrap16(old(self).pc + 2),
                    ..*old(self)
                }) && final(bus)@ == old(bus)@)
                &&& (op == 0xE2 ==> *final(self) == (Cpu {
                    pc: wrap16(old(self).pc + 1),
                    ..*old(self)
                }) && final(bus)@ == bus_write(old(bus)@, (0xFF00 + old(self).c) as u16, old(self).a))
                &&& (op == 0xF2 ==> *final(self) == (Cpu {
                    a: bus_read(old(bus)@, (0xFF00 + old(self).c) as u16),
                    pc: wrap16(old(self).pc + 1),
                    ..*old(self)
                }) && final(bus)@ == old(bus)@)
                &&& (op == 0xEA ==> *final(self) == (Cpu {
                    pc: wrap16(old(self).pc + 3),
                    ..*old(self)
                }) && final(bus)@ == bus_write(old(bus)@, imm, old(self).a))
                &&& (op == 0xFA ==> *final(self) == (Cpu {
                    a: bus_read(old(bus)@, imm),
                    pc: wrap16(old(self).pc + 3),
                    ..*old(self)
                }) && final(bus)@ == old(bus)@)
            }),
    {
        self.inc_pc();
        if op == 0xE0 {
            let d8 = self.fetch8(bus);
            bus.write(0xFF00 + d8 as u16, self.a);
            12
        } else if op == 0xF0 {
            let d8 = self.fetch8(bus);
            self.a = bus.read(0xFF00 + d8 as u16);
            12
        } else if op == 0xE2 {
            bus.write(0xFF00 + self.c as u16, self.a);
            8
        } else if op == 0xF2 {
            self.a = bus.read(0xFF00 + self.c as u16);
            8
        } else if op == 0xEA {
            let imm = self.fetch16(bus);
            bus.write(imm, self.a);
            16
        } else {
            let imm = self.fetch16(bus);
            self.a = bus.read(imm);
            16
        }
    }

    /// The stack-pointer arithmetic and interrupt-enable instructions:
    /// ADD SP,r8 and LD HL,SP+r8 (whose H and C come from the unsigned
    /// low-byte sum), LD SP,HL, DI (immediate) and EI (delayed one
    /// instruction).
    #[verifier::rlimit(100)]
    pub(crate) fn exec_sp_misc(&mut self, op: u8, bus: &MemoryBus) -> (c: u8)
        requires
            op == 0xE8 || op == 0xF8 || op == 0xF9 || op == 0xF3 || op == 0xFB,
            old(self).wf(),
            bus_wf(bus@),
        ensures
            final(self).wf(),
            final(self).halt == old(self).halt,
            final(self).stop == old(self).stop,
            final(self).cycles == old(self).cycles,
            cycles_ok(c) && c >= 4,
            final(self).pc == wrap16(old(self).pc + instr_len(op)),
            ({
                let n = bus_read(bus@, wrap16(old(self).pc + 1));
                &&& (op == 0xE8 ==> *final(self) == (Cpu {
                    sp: addsp_val(old(self).sp, n),
                    f: addsp_flags(old(self).sp, n),
                    pc: wrap16(old(self).pc + 2),
                    ..*old(self)
                }) && c == 16)
                &&& (op == 0xF8 ==> *final(self) == (Cpu {
                    f: addsp_flags(old(self).sp, n),
                    pc: wrap16(old(self).pc + 2),
                    ..with_hl(*old(self), addsp_val(old(self).sp, n))
                }) && c == 12)
                &&& (op == 0xF9 ==> *final(self) == (Cpu {
                    sp: word(old(self).h, old(self).l),
                    pc: wrap16(old(self).pc + 1),
                    ..*old(self)
                }) && c == 8)
                &&& (op == 0xF3 ==> *final(self) == (Cpu {
                    ime: false,
                    ime_pending: false,
                    pc: wrap16(old(self).pc + 1),
                    ..*old(self)
                }) && c == 4)
                &&& (op == 0xFB ==> *final(self) == (Cpu {
                    ime_pending: true,
                    pc: wrap16(old(self).pc + 1),
                    ..*old(self)
                }) && c == 4)
            }),
    {
        self.inc_pc();
        if op == 0xE8 {
            let n = self.fetch8(bus);
            let (nv, nf) = alu_addsp(self.sp, n);
            self.sp = nv;
            self.f = nf;
            16
        } else if op == 0xF8 {
            let n = self.fetch8(bus);
            let (nv, nf) = alu_addsp(self.sp, n);
            self.set_hl(nv);
            self.f = nf;
            12
        } else if op == 0xF9 {
            self.sp = self.hl();
            8
        } else if op == 0xF3 {
            self.ime = false;
            self.ime_pending = false;
            4
        } else {
            self.ime_pending = true;
            4
        }
    }

    /// One instruction of the block 0xC0..0x100 (the CB prefix excluded),
    /// routed to its family's function. Fails exactly on the 11 unused
    /// opcodes, reporting the offending byte and its address.
    #[verifier::rlimit(100)]
    pub(crate) fn exec_high(&mut self, op: u8, bus: &mut MemoryBus) -> (r: Result<u8, EmuError>)
        requires
            op >= 0xC0,
            op != 0xCB,
            old(self).wf(),
            bus_wf(old(bus)@),
        ensures
            final(self).wf(),
            bus_wf(final(bus)@),
            final(self).halt == old(self).halt,
            final(self).stop == old(self).stop,
            final(self).cycles == old(self).cycles,
            r is Ok <==> !is_illegal(op),
            is_illegal(op) ==> r == Err::<u8, EmuError>(
                EmuError::IllegalOpcode { opcode: op, pc: old(self).pc },
            ) && *final(self) == *old(self) && final(bus)@ == old(bus)@,
            r is Ok ==> final(self).ime == (if op == 0xF3 {
                false
            } else if op == 0xD9 {
                true
            } else {
                old(self).ime
            }),
            r is Ok ==> final(self).ime_pending == (if op == 0xF3 {
                false
            } else if op == 0xFB {
                true
            } else {
                old(self).ime_pending
            }),
            r matches Ok(c) ==> cycles_ok(c) && c >= 4,
            r is Ok && !is_branching(op) ==> final(self).pc == wrap16(
                old(self).pc + instr_len(op),
            ),
            r matches Ok(c) ==> ({
                let e = crate::effect::high_effect(*old(self), old(bus)@, op);
                *final(self) == e.cpu && final(bus)@ == e.bus && c == e.dots
            }),
    {
        if op == 0xD3 || op == 0xDB || op == 0xDD || op == 0xE3 || op == 0xE4 || op == 0xEB || op
            == 0xEC || op == 0xED || op == 0xF4 || op == 0xFC || op == 0xFD {
            Err(EmuError::IllegalOpcode { opcode: op, pc: self.pc })
        } else if op % 16 == 1 || op % 16 == 5 {
            Ok(self.exec_push_pop(op, bus))
        } else if op == 0xC3 || op == 0xC2 || op == 0xCA || op == 0xD2 || op == 0xDA || op == 0xE9 {
            Ok(self.exec_jp(op, bus))
        } else if op == 0xCD || op == 0xC4 || op == 0xCC || op == 0xD4 || op == 0xDC || op % 8
            == 7 {
            Ok(self.exec_call_rst(op, bus))
        } else if op == 0xC9 || op == 0xD9 || op == 0xC0 || op == 0xC8 || op == 0xD0 || op == 0xD8 {
            Ok(self.exec_ret(op, bus))
        } else if op % 8 == 6 {
            Ok(self.exec_alu_d8(op, bus))
        } else if op == 0xE0 || op == 0xF0 || op == 0xE2 || op == 0xF2 || op == 0xEA || op == 0xFA {
            Ok(self.exec_ldh(op, bus))
        } else {
            Ok(self.exec_sp_misc(op, bus))
        }
    }
}

} // verus!
