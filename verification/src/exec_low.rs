//! The irregular opcode block 0x00..0x40: immediate loads, 16-bit pointer
//! arithmetic, the accumulator rotates, relative jumps, BCD adjustment and
//! the flag instructions. The block decodes by column (the opcode modulo
//! 8), and every instruction's effect on registers, flags, memory, program
//! counter and dot cost is stated exactly on its column's function.

use vstd::prelude::*;

use crate::alu::add16_flags;
use crate::alu::add16_val;
use crate::alu::alu_add16;
use crate::alu::alu_daa;
use crate::alu::alu_dec8;
use crate::alu::alu_inc8;
use crate::alu::alu_rl;
use crate::alu::alu_rlc;
use crate::alu::alu_rr;
use crate::alu::alu_rrc;
use crate::alu::daa_flags;
use crate::alu::daa_val;
use crate::alu::dec8_flags;
use crate::alu::dec8_val;
use crate::alu::inc8_flags;
use crate::alu::inc8_val;
use crate::alu::rel_target;
use crate::alu::rl_val;
use crate::alu::rlc_carry;
use crate::alu::rlc_val;
use crate::alu::rr_val;
use crate::alu::rrc_carry;
use crate::alu::rrc_val;
use crate::alu::signed_val;
use crate::alu::wrap16;
use crate::bus::MemoryBus;
use crate::bus::bus_read;
use crate::bus::bus_wf;
use crate::bus::bus_write;
use crate::cpu::Cpu;
use crate::cpu::cycles_ok;
use crate::cpu::hi8;
use crate::cpu::lo8;
use crate::cpu::operand_val;
use crate::cpu::with_bc;
use crate::cpu::with_de;
use crate::cpu::with_hl;
use crate::cpu::with_reg8;
use crate::cpu::word;
use crate::errors::EmuError;
use crate::exec::instr_len;
use crate::exec::is_branching;
use crate::flags::flag_c;
use crate::flags::flag_z;
use crate::flags::flags_byte;
use crate::flags::make_flags;

verus! {

/// Whether a condition code holds: 0 NZ, 1 Z, 2 NC, 3 C.
pub open spec fn cond_holds(cc: u8, f: u8) -> bool {
    if cc == 0 {
        !flag_z(f)
    } else if cc == 1 {
        flag_z(f)
    } else if cc == 2 {
        !flag_c(f)
    } else {
        flag_c(f)
    }
}

/// Whether a relative jump is taken: JR at 0x18 always, the conditional
/// forms by their condition code.
pub open spec fn jr_taken(op: u8, f: u8) -> bool {
    if op == 0x18 {
        true
    } else {
        cond_holds(((op - 0x20) / 8) as u8, f)
    }
}

impl Cpu {
    /// Whether the given condition code holds of the flag register.
    pub(crate) fn cond_eval(&self, cc: u8) -> (r: bool)
        ensures
            r == cond_holds(cc, self.f),
    {
        if cc == 0 {
            !self.z_flag()
        } else if cc == 1 {
            self.z_flag()
        } else if cc == 2 {
            !self.c_flag()
        } else {
            self.c_flag()
        }
    }

    /// Column 0 of the low block: NOP, the SP store, STOP and the relative
    /// jumps. The one fallible instruction of the block is here: STOP
    /// demands a zero second byte.
    #[verifier::rlimit(100)]
    pub(crate) fn exec_low_zero(&mut self, op: u8, bus: &mut MemoryBus) -> (r: Result<
        u8,
        EmuError,
    >)
        requires
            op < 0x40,
            op % 8 == 0,
            old(self).wf(),
            bus_wf(old(bus)@),
        ensures
            final(self).wf(),
            bus_wf(final(bus)@),
            final(self).halt == old(self).halt,
            final(self).cycles == old(self).cycles,
            final(self).ime == old(self).ime,
            final(self).ime_pending == old(self).ime_pending,
            r is Ok ==> final(self).stop == (old(self).stop || op == 0x10),
            r is Ok <==> !(op == 0x10 && bus_read(old(bus)@, wrap16(old(self).pc + 1)) != 0),
            !(r is Ok) ==> r == Err::<u8, EmuError>(EmuError::MalformedStop),
            r matches Ok(c) ==> cycles_ok(c) && c >= 4,
            r is Ok && !is_branching(op) ==> final(self).pc == wrap16(
                old(self).pc + instr_len(op),
            ),
            // NOP
            op == 0x00 ==> *final(self) == (Cpu { pc: wrap16(old(self).pc + 1), ..*old(self) })
                && final(bus)@ == old(bus)@ && r == Ok::<u8, EmuError>(4),
            // LD (d16),SP: SP stored little-endian at the immediate address
            op == 0x08 ==> ({
                let imm = word(
                    bus_read(old(bus)@, wrap16(old(self).pc + 2)),
                    bus_read(old(bus)@, wrap16(old(self).pc + 1)),
                );
                &&& *final(self) == (Cpu { pc: wrap16(old(self).pc + 3), ..*old(self) })
                &&& final(bus)@ == bus_write(
                    bus_write(old(bus)@, imm, lo8(old(self).sp)),
                    wrap16(imm + 1),
                    hi8(old(self).sp),
                )
                &&& r == Ok::<u8, EmuError>(20)
            }),
            // STOP: enters the stop state; the second byte must be zero
            (op == 0x10 && r is Ok) ==> *final(self) == (Cpu {
                stop: true,
                pc: wrap16(old(self).pc + 2),
                ..*old(self)
            }) && final(bus)@ == old(bus)@ && r == Ok::<u8, EmuError>(4),
            // relative jumps: 12 dots taken, 8 not taken; the offset is
            // added after PC has passed the two-byte instruction
            (op == 0x18 || op == 0x20 || op == 0x28 || op == 0x30 || op == 0x38) ==> ({
                let off = bus_read(old(bus)@, wrap16(old(self).pc + 1));
                &&& final(bus)@ == old(bus)@
                &&& (jr_taken(op, old(self).f) ==> *final(self) == (Cpu {
                    pc: wrap16(old(self).pc + 2 + signed_val(off)),
                    ..*old(self)
                }) && r == Ok::<u8, EmuError>(12))
                &&& (!jr_taken(op, old(self).f) ==> *final(self) == (Cpu {
                    pc: wrap16(old(self).pc + 2),
                    ..*old(self)
                }) && r == Ok::<u8, EmuError>(8))
            }),
    {
        match op {
            0x00 => {
                self.inc_pc();
                Ok(4)
            },
            0x08 => {
                self.inc_pc();
                let addr = self.fetch16(bus);
                bus.write(addr, (self.sp % 256) as u8);
                bus.write(addr.wrapping_add(1), (self.sp / 256) as u8);
                Ok(20)
            },
            0x10 => {
                self.inc_pc();
                let n = self.fetch8(bus);
                if n != 0 {
                    return Err(EmuError::MalformedStop);
                }
                self.stop = true;
                Ok(4)
            },
            _ => {
                self.inc_pc();
                let off = self.fetch8(bus);
                let taken = if op == 0x18 {
                    true
                } else {
                    self.cond_eval((op - 0x20) / 8)
                };
                if taken {
                    self.pc = rel_target(self.pc, off);
                    Ok(12)
                } else {
                    Ok(8)
                }
            },
        }
    }

    /// Column 1 of the low block: the little-endian 16-bit immediate
    /// loads and ADD HL,rr.
    #[verifier::rlimit(100)]
    pub(crate) fn exec_low_ld16(&mut self, op: u8, bus: &MemoryBus) -> (c: u8)
        requires
            op < 0x40,
            op % 8 == 1,
            old(self).wf(),
            bus_wf(bus@),
        ensures
            final(self).wf(),
            final(self).halt == old(self).halt,
            final(self).stop == old(self).stop,
            final(self).cycles == old(self).cycles,
            final(self).ime == old(self).ime,
            final(self).ime_pending == old(self).ime_pending,
            cycles_ok(c) && c >= 4,
            final(self).pc == wrap16(old(self).pc + instr_len(op)),
            // 16-bit immediate loads, little-endian
            ({
                let imm = word(
                    bus_read(bus@, wrap16(old(self).pc + 2)),
                    bus_read(bus@, wrap16(old(self).pc + 1)),
                );
                let moved = Cpu { pc: wrap16(old(self).pc + 3), ..*old(self) };
                &&& (op == 0x01 ==> *final(self) == with_bc(moved, imm))
                &&& (op == 0x11 ==> *final(self) == with_de(moved, imm))
                &&& (op == 0x21 ==> *final(self) == with_hl(moved, imm))
                &&& (op == 0x31 ==> *final(self) == (Cpu { sp: imm, ..moved }))
                &&& (op % 16 == 1 ==> c == 12)
            }),
            // ADD HL,rr: N cleared, H and C from bits 11 and 15, Z kept
            ({
                let hl = word(old(self).h, old(self).l);
                let rr = if op == 0x09 {
                    word(old(self).b, old(self).c)
                } else if op == 0x19 {
                    word(old(self).d, old(self).e)
                } else if op == 0x29 {
                    hl
                } else {
                    old(self).sp
                };
                (op == 0x09 || op == 0x19 || op == 0x29 || op == 0x39) ==> *final(self) == (Cpu {
                    f: add16_flags(hl, rr, old(self).f),
                    pc: wrap16(old(self).pc + 1),
                    ..with_hl(*old(self), add16_val(hl, rr))
                }) && c == 8
            }),
    {
        if op % 16 == 1 {
            // LD rr,d16
            self.inc_pc();
            let v = self.fetch16(bus);
            if op == 0x01 {
                self.set_bc(v);
            } else if op == 0x11 {
                self.set_de(v);
            } else if op == 0x21 {
                self.set_hl(v);
            } else {
                self.sp = v;
            }
            12
        } else {
            // ADD HL,rr
            self.inc_pc();
            let rr = if op == 0x09 {
                self.bc()
            } else if op == 0x19 {
                self.de()
            } else if op == 0x29 {
                self.hl()
            } else {
                self.sp
            };
            let hl = self.hl();
            let (nv, nf) = alu_add16(hl, rr, self.f);
            self.set_hl(nv);
            self.f = nf;
            8
        }
    }

    /// Column 3 of the low block: the 16-bit increments and decrements,
    /// which touch no flag.
    #[verifier::rlimit(100)]
    pub(crate) fn exec_low_incdec16(&mut self, op: u8) -> (c: u8)
        requires
            op < 0x40,
            op % 8 == 3,
            old(self).wf(),
        ensures
            final(self).wf(),
            final(self).halt == old(self).halt,
            final(self).stop == old(self).stop,
            final(self).cycles == old(self).cycles,
            final(self).ime == old(self).ime,
            final(self).ime_pending == old(self).ime_pending,
            c == 8,
            final(self).pc == wrap16(old(self).pc + 1),
            ({
                let moved = Cpu { pc: wrap16(old(self).pc + 1), ..*old(self) };
                &&& (op == 0x03 ==> *final(self) == with_bc(
                    moved,
                    wrap16(word(old(self).b, old(self).c) + 1),
                ))
                &&& (op == 0x13 ==> *final(self) == with_de(
                    moved,
                    wrap16(word(old(self).d, old(self).e) + 1),
                ))
                &&& (op == 0x23 ==> *final(self) == with_hl(
                    moved,
                    wrap16(word(old(self).h, old(self).l) + 1),
                ))
                &&& (op == 0x33 ==> *final(self) == (Cpu { sp: wrap16(old(self).sp + 1), ..moved }))
                &&& (op == 0x0B ==> *final(self) == with_bc(
                    moved,
                    wrap16(word(old(self).b, old(self).c) - 1),
                ))
                &&& (op == 0x1B ==> *final(self) == with_de(
                    moved,
                    wrap16(word(old(self).d, old(self).e) - 1),
                ))
                &&& (op == 0x2B ==> *final(self) == with_hl(
                    moved,
                    wrap16(word(old(self).h, old(self).l) - 1),
                ))
                &&& (op == 0x3B ==> *final(self) == (Cpu { sp: wrap16(old(self).sp - 1), ..moved }))
            }),
    {
        self.inc_pc();
        if op == 0x03 {
            let v = self.bc();
            self.set_bc(v.wrapping_add(1));
        } else if op == 0x13 {
            let v = self.de();
            self.set_de(v.wrapping_add(1));
        } else if op == 0x23 {
            let v = self.hl();
            self.set_hl(v.wrapping_add(1));
        } else if op == 0x33 {
            self.sp = self.sp.wrapping_add(1);
        } else if op == 0x0B {
            let v = self.bc();
            self.set_bc(v.wrapping_sub(1));
        } else if op == 0x1B {
            let v = self.de();
            self.set_de(v.wrapping_sub(1));
        } else if op == 0x2B {
            let v = self.hl();
            self.set_hl(v.wrapping_sub(1));
        } else {
            self.sp = self.sp.wrapping_sub(1);
        }
        8
    }

    /// Column 2 of the low block: the stores of A through a register pair
    /// and the loads of A from one, with the HL post-increment and
    /// post-decrement forms.
    #[verifier::rlimit(100)]
    pub(crate) fn exec_low_mem(&mut self, op: u8, bus: &mut MemoryBus) -> (c: u8)
        requires
            op < 0x40,
            op % 8 == 2,
            old(self).wf(),
            bus_wf(old(bus)@),
        ensures
            final(self).wf(),
            bus_wf(final(bus)@),
            final(self).halt == old(self).halt,
            final(self).stop == old(self).stop,
            final(self).cycles == old(self).cycles,
            final(self).ime == old(self).ime,
            final(self).ime_pending == old(self).ime_pending,
            c == 8,
            final(self).pc == wrap16(old(self).pc + instr_len(op)),
            ({
                let moved = Cpu { pc: wrap16(old(self).pc + 1), ..*old(self) };
                let hl = word(old(self).h, old(self).l);
                &&& (op == 0x02 ==> *final(self) == moved && final(bus)@ == bus_write(
                    old(bus)@,
                    word(old(self).b, old(self).c),
                    old(self).a,
                ))
                &&& (op == 0x12 ==> *final(self) == moved && final(bus)@ == bus_write(
                    old(bus)@,
                    word(old(self).d, old(self).e),
                    old(self).a,
                ))
                &&& (op == 0x22 ==> *final(self) == with_hl(moved, wrap16(hl + 1)) && final(bus)@
                    == bus_write(old(bus)@, hl, old(self).a))
                &&& (op == 0x32 ==> *final(self) == with_hl(moved, wrap16(hl - 1)) && final(bus)@
                    == bus_write(old(bus)@, hl, old(self).a))
                &&& (op == 0x0A ==> *final(self) == (Cpu {
                    a: bus_read(old(bus)@, word(old(self).b, old(self).c)),
                    ..moved
                }) && final(bus)@ == old(bus)@)
                &&& (op == 0x1A ==> *final(self) == (Cpu {
                    a: bus_read(old(bus)@, word(old(self).d, old(self).e)),
                    ..moved
                }) && final(bus)@ == old(bus)@)
                &&& (op == 0x2A ==> *final(self) == (Cpu {
                    a: bus_read(old(bus)@, hl),
                    ..with_hl(moved, wrap16(hl + 1))
                }) && final(bus)@ == old(bus)@)
                &&& (op == 0x3A ==> *final(self) == (Cpu {
                    a: bus_read(old(bus)@, hl),
                    ..with_hl(moved, wrap16(hl - 1))
                }) && final(bus)@ == old(bus)@)
            }),
    {
        self.inc_pc();
        let addr = if op == 0x02 || op == 0x0A {
            self.bc()
        } else if op == 0x12 || op == 0x1A {
            self.de()
        } else {
            self.hl()
        };
        if op == 0x02 || op == 0x12 || op == 0x22 || op == 0x32 {
            bus.write(addr, self.a);
        } else {
            self.a = bus.read(addr);
        }
        if op == 0x22 || op == 0x2A {
            self.set_hl(addr.wrapping_add(1));
        } else if op == 0x32 || op == 0x3A {
            self.set_hl(addr.wrapping_sub(1));
        }
        8
    }

    /// Columns 4 to 6 of the low block: 8-bit INC and DEC (which keep the
    /// carry flag) and the 8-bit immediate loads, on registers or on memory
    /// through HL.
    #[verifier::rlimit(100)]
    pub(crate) fn exec_low_incdec(&mut self, op: u8, bus: &mut MemoryBus) -> (c: u8)
        requires
            op < 0x40,
            op % 8 == 4 || op % 8 == 5 || op % 8 == 6,
            old(self).wf(),
            bus_wf(old(bus)@),
        ensures
            final(self).wf(),
            bus_wf(final(bus)@),
            final(self).halt == old(self).halt,
            final(self).stop == old(self).stop,
            final(self).cycles == old(self).cycles,
            final(self).ime == old(self).ime,
            final(self).ime_pending == old(self).ime_pending,
            cycles_ok(c) && c >= 4,
            final(self).pc == wrap16(old(self).pc + instr_len(op)),
            // 8-bit INC: Z and H per result, N cleared, C kept
            op % 8 == 4 ==> ({
                let dst = (op / 8) as u8;
                let v = operand_val(*old(self), old(bus)@, dst);
                &&& (dst == 6 ==> *final(self) == (Cpu {
                    f: inc8_flags(v, old(self).f),
                    pc: wrap16(old(self).pc + 1),
                    ..*old(self)
                }) && final(bus)@ == bus_write(
                    old(bus)@,
                    word(old(self).h, old(self).l),
                    inc8_val(v),
                ) && c == 12)
                &&& (dst != 6 ==> *final(self) == (Cpu {
                    f: inc8_flags(v, old(self).f),
                    pc: wrap16(old(self).pc + 1),
                    ..with_reg8(*old(self), dst, inc8_val(v))
                }) && final(bus)@ == old(bus)@ && c == 4)
            }),
            // 8-bit DEC: Z and H per result, N set, C kept
            op % 8 == 5 ==> ({
                let dst = (op / 8) as u8;
                let v = operand_val(*old(self), old(bus)@, dst);
                &&& (dst == 6 ==> *final(self) == (Cpu {
                    f: dec8_flags(v, old(self).f),
                    pc: wrap16(old(self).pc + 1),
                    ..*old(self)
                }) && final(bus)@ == bus_write(
                    old(bus)@,
                    word(old(self).h, old(self).l),
                    dec8_val(v),
                ) && c == 12)
                &&& (dst != 6 ==> *final(self) == (Cpu {
                    f: dec8_flags(v, old(self).f),
                    pc: wrap16(old(self).pc + 1),
                    ..with_reg8(*old(self), dst, dec8_val(v))
                }) && final(bus)@ == old(bus)@ && c == 4)
            }),
            // LD r,d8
            op % 8 == 6 ==> ({
                let dst = (op / 8) as u8;
                let v = bus_read(old(bus)@, wrap16(old(self).pc + 1));
                let moved = Cpu { pc: wrap16(old(self).pc + 2), ..*old(self) };
                &&& (dst == 6 ==> *final(self) == moved && final(bus)@ == bus_write(
                    old(bus)@,
                    word(old(self).h, old(self).l),
                    v,
                ) && c == 12)
                &&& (dst != 6 ==> *final(self) == (Cpu {
                    pc: wrap16(old(self).pc + 2),
                    ..with_reg8(*old(self), dst, v)
                }) && final(bus)@ == old(bus)@ && c == 8)
            }),
    {
        self.inc_pc();
        let dst = op / 8;
        if op % 8 == 4 {
            let v = self.read_operand(dst, bus);
            let (nv, nf) = alu_inc8(v, self.f);
            self.write_operand(dst, nv, bus);
            self.f = nf;
            if dst == 6 {
                12
            } else {
                4
            }
        } else if op % 8 == 5 {
            let v = self.read_operand(dst, bus);
            let (nv, nf) = alu_dec8(v, self.f);
            self.write_operand(dst, nv, bus);
            self.f = nf;
            if dst == 6 {
                12
            } else {
                4
            }
        } else {
            let v = self.fetch8(bus);
            self.write_operand(dst, v, bus);
            if dst == 6 {
                12
            } else {
                8
            }
        }
    }

    /// Column 7 of the low block: the accumulator rotates (which always
    /// clear Z, N and H), DAA, CPL, SCF and CCF.
    #[verifier::rlimit(100)]
    pub(crate) fn exec_low_acc(&mut self, op: u8) -> (c: u8)
        requires
            op < 0x40,
            op % 8 == 7,
            old(self).wf(),
        ensures
            final(self).wf(),
            final(self).halt == old(self).halt,
            final(self).stop == old(self).stop,
            final(self).cycles == old(self).cycles,
            final(self).ime == old(self).ime,
            final(self).ime_pending == old(self).ime_pending,
            c == 4,
            final(self).pc == wrap16(old(self).pc + 1),
            ({
                let a = old(self).a;
                let moved_pc = wrap16(old(self).pc + 1);
                &&& (op == 0x07 ==> *final(self) == (Cpu {
                    a: rlc_val(a),
                    f: flags_byte(false, false, false, rlc_carry(a)),
                    pc: moved_pc,
                    ..*old(self)
                }))
                &&& (op == 0x0F ==> *final(self) == (Cpu {
                    a: rrc_val(a),
                    f: flags_byte(false, false, false, rrc_carry(a)),
                    pc: moved_pc,
                    ..*old(self)
                }))
                &&& (op == 0x17 ==> *final(self) == (Cpu {
                    a: rl_val(a, flag_c(old(self).f)),
                    f: flags_byte(false, false, false, rlc_carry(a)),
                    pc: moved_pc,
                    ..*old(self)
                }))
                &&& (op == 0x1F ==> *final(self) == (Cpu {
                    a: rr_val(a, flag_c(old(self).f)),
                    f: flags_byte(false, false, false, rrc_carry(a)),
                    pc: moved_pc,
                    ..*old(self)
                }))
                &&& (op == 0x27 ==> *final(self) == (Cpu {
                    a: daa_val(a, old(self).f),
                    f: daa_flags(a, old(self).f),
                    pc: moved_pc,
                    ..*old(self)
                }))
                &&& (op == 0x2F ==> *final(self) == (Cpu {
                    a: (255 - a) as u8,
                    f: flags_byte(flag_z(old(self).f), true, true, flag_c(old(self).f)),
                    pc: moved_pc,
                    ..*old(self)
                }))
                &&& (op == 0x37 ==> *final(self) == (Cpu {
                    f: flags_byte(flag_z(old(self).f), false, false, true),
                    pc: moved_pc,
                    ..*old(self)
                }))
                &&& (op == 0x3F ==> *final(self) == (Cpu {
                    f: flags_byte(flag_z(old(self).f), false, false, !flag_c(old(self).f)),
                    pc: moved_pc,
                    ..*old(self)
                }))
            }),
    {
        self.inc_pc();
        if op == 0x07 {
            let (nv, carry) = alu_rlc(self.a);
            self.a = nv;
            self.f = make_flags(false, false, false, carry);
        } else if op == 0x0F {
            let (nv, carry) = alu_rrc(self.a);
            self.a = nv;
            self.f = make_flags(false, false, false, carry);
        } else if op == 0x17 {
            let (nv, carry) = alu_rl(self.a, self.c_flag());
            self.a = nv;
            self.f = make_flags(false, false, false, carry);
        } else if op == 0x1F {
            let (nv, carry) = alu_rr(self.a, self.c_flag());
            self.a = nv;
            self.f = make_flags(false, false, false, carry);
        } else if op == 0x27 {
            let (na, nf) = alu_daa(self.a, self.f);
            self.a = na;
            self.f = nf;
        } else if op == 0x2F {
            self.a = 255 - self.a;
            let z = self.z_flag();
            let carry = self.c_flag();
            self.f = make_flags(z, true, true, carry);
        } else if op == 0x37 {
            let z = self.z_flag();
            self.f = make_flags(z, false, false, true);
        } else {
            let z = self.z_flag();
            let carry = self.c_flag();
            self.f = make_flags(z, false, false, !carry);
        }
        4
    }

    /// One instruction of the block 0x00..0x40, routed to its column's
    /// function. Fails only on a STOP whose second byte is not zero.
    #[verifier::rlimit(100)]
    pub(crate) fn exec_low(&mut self, op: u8, bus: &mut MemoryBus) -> (r: Result<u8, EmuError>)
        requires
            op < 0x40,
            old(self).wf(),
            bus_wf(old(bus)@),
        ensures
            final(self).wf(),
            bus_wf(final(bus)@),
            final(self).halt == old(self).halt,
            final(self).cycles == old(self).cycles,
            final(self).ime == old(self).ime,
            final(self).ime_pending == old(self).ime_pending,
            r is Ok ==> final(self).stop == (old(self).stop || op == 0x10),
            r is Ok <==> !(op == 0x10 && bus_read(old(bus)@, wrap16(old(self).pc + 1)) != 0),
            !(r is Ok) ==> r == Err::<u8, EmuError>(EmuError::MalformedStop),
            r matches Ok(c) ==> cycles_ok(c) && c >= 4,
            r is Ok && !is_branching(op) ==> final(self).pc == wrap16(
                old(self).pc + instr_len(op),
            ),
            r matches Ok(c) ==> ({
                let e = crate::effect::low_effect(*old(self), old(bus)@, op);
                *final(self) == e.cpu && final(bus)@ == e.bus && c == e.dots
            }),
    {
        let col = op % 8;
        if col == 0 {
            self.exec_low_zero(op, bus)
        } else if col == 1 {
            Ok(self.exec_low_ld16(op, bus))
        } else if col == 3 {
            Ok(self.exec_low_incdec16(op))
        } else if col == 2 {
            Ok(self.exec_low_mem(op, bus))
        } else if col == 7 {
            Ok(self.exec_low_acc(op))
        } else {
            Ok(self.exec_low_incdec(op, bus))
        }
    }
}

} // verus!
