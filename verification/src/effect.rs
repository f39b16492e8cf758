//! The meaning of one instruction, as one spec-level function: given the
//! CPU state (PC at the opcode) and the bus model, the CPU state, bus model
//! and dot cost after the instruction. `instr_effect` covers the whole
//! opcode space except the fatal cases (the 11 unused opcodes and a
//! malformed STOP), and the executable decoder is proved equal to it.

use vstd::prelude::*;

use crate::alu::add16_flags;
use crate::alu::add16_val;
use crate::alu::addsp_flags;
use crate::alu::addsp_val;
use crate::alu::daa_flags;
use crate::alu::daa_val;
use crate::alu::dec8_flags;
use crate::alu::dec8_val;
use crate::alu::inc8_flags;
use crate::alu::inc8_val;
use crate::alu::rl_val;
use crate::alu::rlc_carry;
use crate::alu::rlc_val;
use crate::alu::rr_val;
use crate::alu::rrc_carry;
use crate::alu::rrc_val;
use crate::alu::signed_val;
use crate::alu::wrap16;
use crate::bus::BusView;
use crate::bus::bus_read;
use crate::bus::bus_write;
use crate::cb::cb_apply;
use crate::cpu::Cpu;
use crate::cpu::hi8;
use crate::cpu::lo8;
use crate::cpu::operand_val;
use crate::cpu::with_bc;
use crate::cpu::with_de;
use crate::cpu::with_hl;
use crate::cpu::with_reg8;
use crate::cpu::word;
use crate::exec::alu_apply;
use crate::exec_high::popped;
use crate::exec_high::pushed;
use crate::exec_low::cond_holds;
use crate::exec_low::jr_taken;
use crate::flags::flag_c;
use crate::flags::flag_z;
use crate::flags::flags_byte;

verus! {

/// What one instruction leaves behind: the CPU, the bus, and its dot cost.
#[verifier::ext_equal]
pub struct StepEffect {
    /// The CPU after the instruction.
    pub cpu: Cpu,
    /// The bus after the instruction.
    pub bus: BusView,
    /// The instruction's dot cost.
    pub dots: u8,
}

/// HALT: enter the halt state.
pub open spec fn halt_effect(c: Cpu, v: BusView) -> StepEffect {
    StepEffect { cpu: Cpu { halt: true, pc: wrap16(c.pc + 1), ..c }, bus: v, dots: 4 }
}

/// The 8-bit transfer block 0x40..0xC0 (HALT excluded).
pub open spec fn ld_rr_effect(c: Cpu, v: BusView, op: u8) -> StepEffect {
    let src = (op % 8) as u8;
    let dst = ((op - 0x40) / 8) as u8;
    let val = operand_val(c, v, src);
    let dots = if src == 6 || dst == 6 {
        8u8
    } else {
        4u8
    };
    if dst == 6 {
        StepEffect {
            cpu: Cpu { pc: wrap16(c.pc + 1), ..c },
            bus: bus_write(v, word(c.h, c.l), val),
            dots,
        }
    } else {
        StepEffect { cpu: Cpu { pc: wrap16(c.pc + 1), ..with_reg8(c, dst, val) }, bus: v, dots }
    }
}

/// The arithmetic/logic block 0x80..0xC0.
pub open spec fn alu_r_effect(c: Cpu, v: BusView, op: u8) -> StepEffect {
    let idx = (op % 8) as u8;
    let oper = ((op - 0x80) / 8) as u8;
    let val = operand_val(c, v, idx);
    StepEffect {
        cpu: Cpu {
            a: alu_apply(c.a, c.f, val, oper).0,
            f: alu_apply(c.a, c.f, val, oper).1,
            pc: wrap16(c.pc + 1),
            ..c
        },
        bus: v,
        dots: if idx == 6 {
            8u8
        } else {
            4u8
        },
    }
}

/// The bit-manipulation prefix: the sub-opcode is the byte after 0xCB.
pub open spec fn cb_effect(c: Cpu, v: BusView) -> StepEffect {
    let cbop = bus_read(v, wrap16(c.pc + 1));
    let idx = (cbop % 8) as u8;
    let oper = (cbop / 8) as u8;
    let val = operand_val(c, v, idx);
    let res = cb_apply(val, c.f, oper);
    let dots = if idx == 6 {
        if 8 <= oper < 16 {
            12u8
        } else {
            16u8
        }
    } else {
        8u8
    };
    if idx == 6 && !(8 <= oper < 16) {
        StepEffect {
            cpu: Cpu { f: res.1, pc: wrap16(c.pc + 2), ..c },
            bus: bus_write(v, word(c.h, c.l), res.0),
            dots,
        }
    } else if idx == 6 {
        StepEffect { cpu: Cpu { f: res.1, pc: wrap16(c.pc + 2), ..c }, bus: v, dots }
    } else {
        StepEffect {
            cpu: Cpu { f: res.1, pc: wrap16(c.pc + 2), ..with_reg8(c, idx, res.0) },
            bus: v,
            dots,
        }
    }
}

/// Column 0 of the low block, in its successful outcomes: NOP, the SP
/// store, a well-formed STOP, and the relative jumps.
pub open spec fn low_zero_effect(c: Cpu, v: BusView, op: u8) -> StepEffect {
    if op == 0x00 {
        StepEffect { cpu: Cpu { pc: wrap16(c.pc + 1), ..c }, bus: v, dots: 4 }
    } else if op == 0x08 {
        let imm = word(bus_read(v, wrap16(c.pc + 2)), bus_read(v, wrap16(c.pc + 1)));
        StepEffect {
            cpu: Cpu { pc: wrap16(c.pc + 3), ..c },
            bus: bus_write(bus_write(v, imm, lo8(c.sp)), wrap16(imm + 1), hi8(c.sp)),
            dots: 20,
        }
    } else if op == 0x10 {
        StepEffect { cpu: Cpu { stop: true, pc: wrap16(c.pc + 2), ..c }, bus: v, dots: 4 }
    } else {
        let off = bus_read(v, wrap16(c.pc + 1));
        if jr_taken(op, c.f) {
            StepEffect { cpu: Cpu { pc: wrap16(c.pc + 2 + signed_val(off)), ..c }, bus: v, dots: 12 }
        } else {
            StepEffect { cpu: Cpu { pc: wrap16(c.pc + 2), ..c }, bus: v, dots: 8 }
        }
    }
}

/// Column 1 of the low block: LD rr,d16 and ADD HL,rr.
pub open spec fn low_ld16_effect(c: Cpu, v: BusView, op: u8) -> StepEffect {
    if op % 16 == 1 {
        let imm = word(bus_read(v, wrap16(c.pc + 2)), bus_read(v, wrap16(c.pc + 1)));
        let moved = Cpu { pc: wrap16(c.pc + 3), ..c };
        let cpu2 = if op == 0x01 {
            with_bc(moved, imm)
        } else if op == 0x11 {
            with_de(moved, imm)
        } else if op == 0x21 {
            with_hl(moved, imm)
        } else {
            Cpu { sp: imm, ..moved }
        };
        StepEffect { cpu: cpu2, bus: v, dots: 12 }
    } else {
        let hl = word(c.h, c.l);
        let rr = if op == 0x09 {
            word(c.b, c.c)
        } else if op == 0x19 {
            word(c.d, c.e)
        } else if op == 0x29 {
            hl
        } else {
            c.sp
        };
        StepEffect {
            cpu: Cpu {
                f: add16_flags(hl, rr, c.f),
                pc: wrap16(c.pc + 1),
                ..with_hl(c, add16_val(hl, rr))
            },
            bus: v,
            dots: 8,
        }
    }
}

/// Column 3 of the low block: the 16-bit increments and decrements.
pub open spec fn low_incdec16_effect(c: Cpu, v: BusView, op: u8) -> StepEffect {
    let moved = Cpu { pc: wrap16(c.pc + 1), ..c };
    let cpu2 = if op == 0x03 {
        with_bc(moved, wrap16(word(c.b, c.c) + 1))
    } else if op == 0x13 {
        with_de(moved, wrap16(word(c.d, c.e) + 1))
    } else if op == 0x23 {
        with_hl(moved, wrap16(word(c.h, c.l) + 1))
    } else if op == 0x33 {
        Cpu { sp: wrap16(c.sp + 1), ..moved }
    } else if op == 0x0B {
        with_bc(moved, wrap16(word(c.b, c.c) - 1))
    } else if op == 0x1B {
        with_de(moved, wrap16(word(c.d, c.e) - 1))
    } else if op == 0x2B {
        with_hl(moved, wrap16(word(c.h, c.l) - 1))
    } else {
        Cpu { sp: wrap16(c.sp - 1), ..moved }
    };
    StepEffect { cpu: cpu2, bus: v, dots: 8 }
}

/// Column 2 of the low block: the stores and loads of A through a pair.
pub open spec fn low_mem_effect(c: Cpu, v: BusView, op: u8) -> StepEffect {
    let moved = Cpu { pc: wrap16(c.pc + 1), ..c };
    let hl = word(c.h, c.l);
    if op == 0x02 {
        StepEffect { cpu: moved, bus: bus_write(v, word(c.b, c.c), c.a), dots: 8 }
    } else if op == 0x12 {
        StepEffect { cpu: moved, bus: bus_write(v, word(c.d, c.e), c.a), dots: 8 }
    } else if op == 0x22 {
        StepEffect { cpu: with_hl(moved, wrap16(hl + 1)), bus: bus_write(v, hl, c.a), dots: 8 }
    } else if op == 0x32 {
        StepEffect { cpu: with_hl(moved, wrap16(hl - 1)), bus: bus_write(v, hl, c.a), dots: 8 }
    } else if op == 0x0A {
        StepEffect { cpu: Cpu { a: bus_read(v, word(c.b, c.c)), ..moved }, bus: v, dots: 8 }
    } else if op == 0x1A {
        StepEffect { cpu: Cpu { a: bus_read(v, word(c.d, c.e)), ..moved }, bus: v, dots: 8 }
    } else if op == 0x2A {
        StepEffect {
            cpu: Cpu { a: bus_read(v, hl), ..with_hl(moved, wrap16(hl + 1)) },
            bus: v,
            dots: 8,
        }
    } else {
        StepEffect {
            cpu: Cpu { a: bus_read(v, hl), ..with_hl(moved, wrap16(hl - 1)) },
            bus: v,
            dots: 8,
        }
    }
}

/// Columns 4 to 6 of the low block: INC r, DEC r and LD r,d8.
pub open spec fn low_incdec_effect(c: Cpu, v: BusView, op: u8) -> StepEffect {
    let dst = (op / 8) as u8;
    if op % 8 == 4 {
        let val = operand_val(c, v, dst);
        if dst == 6 {
            StepEffect {
                cpu: Cpu { f: inc8_flags(val, c.f), pc: wrap16(c.pc + 1), ..c },
                bus: bus_write(v, word(c.h, c.l), inc8_val(val)),
                dots: 12,
            }
        } else {
            StepEffect {
                cpu: Cpu {
                    f: inc8_flags(val, c.f),
                    pc: wrap16(c.pc + 1),
                    ..with_reg8(c, dst, inc8_val(val))
                },
                bus: v,
                dots: 4,
            }
        }
    } else if op % 8 == 5 {
        let val = operand_val(c, v, dst);
        if dst == 6 {
            StepEffect {
                cpu: Cpu { f: dec8_flags(val, c.f), pc: wrap16(c.pc + 1), ..c },
                bus: bus_write(v, word(c.h, c.l), dec8_val(val)),
                dots: 12,
            }
        } else {
            StepEffect {
                cpu: Cpu {
                    f: dec8_flags(val, c.f),
                    pc: wrap16(c.pc + 1),
                    ..with_reg8(c, dst, dec8_val(val))
                },
                bus: v,
                dots: 4,
            }
        }
    } else {
        let val = bus_read(v, wrap16(c.pc + 1));
        if dst == 6 {
            StepEffect {
                cpu: Cpu { pc: wrap16(c.pc + 2), ..c },
                bus: bus_write(v, word(c.h, c.l), val),
                dots: 12,
            }
        } else {
            StepEffect {
                cpu: Cpu { pc: wrap16(c.pc + 2), ..with_reg8(c, dst, val) },
                bus: v,
                dots: 8,
            }
        }
    }
}

/// Column 7 of the low block: the accumulator rotates, DAA, CPL, SCF, CCF.
pub open spec fn low_acc_effect(c: Cpu, v: BusView, op: u8) -> StepEffect {
    let moved_pc = wrap16(c.pc + 1);
    let cpu2 = if op == 0x07 {
        Cpu { a: rlc_val(c.a), f: flags_byte(false, false, false, rlc_carry(c.a)), pc: moved_pc, ..c }
    } else if op == 0x0F {
        Cpu { a: rrc_val(c.a), f: flags_byte(false, false, false, rrc_carry(c.a)), pc: moved_pc, ..c }
    } else if op == 0x17 {
        Cpu {
            a: rl_val(c.a, flag_c(c.f)),
            f: flags_byte(false, false, false, rlc_carry(c.a)),
            pc: moved_pc,
            ..c
        }
    } else if op == 0x1F {
        Cpu {
            a: rr_val(c.a, flag_c(c.f)),
            f: flags_byte(false, false, false, rrc_carry(c.a)),
            pc: moved_pc,
            ..c
        }
    } else if op == 0x27 {
        Cpu { a: daa_val(c.a, c.f), f: daa_flags(c.a, c.f), pc: moved_pc, ..c }
    } else if op == 0x2F {
        Cpu {
            a: (255 - c.a) as u8,
            f: flags_byte(flag_z(c.f), true, true, flag_c(c.f)),
            pc: moved_pc,
            ..c
        }
    } else if op == 0x37 {
        Cpu { f: flags_byte(flag_z(c.f), false, false, true), pc: moved_pc, ..c }
    } else {
        Cpu { f: flags_byte(flag_z(c.f), false, false, !flag_c(c.f)), pc: moved_pc, ..c }
    };
    StepEffect { cpu: cpu2, bus: v, dots: 4 }
}

/// The irregular block 0x00..0x40, in its successful outcomes, by column.
pub open spec fn low_effect(c: Cpu, v: BusView, op: u8) -> StepEffect {
    let col = op % 8;
    if col == 0 {
        low_zero_effect(c, v, op)
    } else if col == 1 {
        low_ld16_effect(c, v, op)
    } else if col == 3 {
        low_incdec16_effect(c, v, op)
    } else if col == 2 {
        low_mem_effect(c, v, op)
    } else if col == 7 {
        low_acc_effect(c, v, op)
    } else {
        low_incdec_effect(c, v, op)
    }
}

/// PUSH and POP of the four register pairs.
pub open spec fn push_pop_effect(c: Cpu, v: BusView, op: u8) -> StepEffect {
    if op % 16 == 5 {
        let val = if op == 0xC5 {
            word(c.b, c.c)
        } else if op == 0xD5 {
            word(c.d, c.e)
        } else if op == 0xE5 {
            word(c.h, c.l)
        } else {
            word(c.a, c.f)
        };
        StepEffect {
            cpu: Cpu { pc: wrap16(c.pc + 1), sp: wrap16(c.sp - 2), ..c },
            bus: pushed(v, c.sp, val),
            dots: 16,
        }
    } else {
        let val = popped(v, c.sp);
        let moved = Cpu { pc: wrap16(c.pc + 1), sp: wrap16(c.sp + 2), ..c };
        let cpu2 = if op == 0xC1 {
            with_bc(moved, val)
        } else if op == 0xD1 {
            with_de(moved, val)
        } else if op == 0xE1 {
            with_hl(moved, val)
        } else {
            Cpu { a: hi8(val), f: (lo8(val) / 16 * 16) as u8, ..moved }
        };
        StepEffect { cpu: cpu2, bus: v, dots: 12 }
    }
}

/// The absolute jumps.
pub open spec fn jp_effect(c: Cpu, v: BusView, op: u8) -> StepEffect {
    let imm = word(bus_read(v, wrap16(c.pc + 2)), bus_read(v, wrap16(c.pc + 1)));
    if op == 0xE9 {
        StepEffect { cpu: Cpu { pc: word(c.h, c.l), ..c }, bus: v, dots: 4 }
    } else if op == 0xC3 || cond_holds(((op - 0xC2) / 8) as u8, c.f) {
        StepEffect { cpu: Cpu { pc: imm, ..c }, bus: v, dots: 16 }
    } else {
        StepEffect { cpu: Cpu { pc: wrap16(c.pc + 3), ..c }, bus: v, dots: 12 }
    }
}

/// The calls and restarts.
pub open spec fn call_rst_effect(c: Cpu, v: BusView, op: u8) -> StepEffect {
    if op % 8 == 7 {
        StepEffect {
            cpu: Cpu { pc: (op - 0xC7) as u16, sp: wrap16(c.sp - 2), ..c },
            bus: pushed(v, c.sp, wrap16(c.pc + 1)),
            dots: 16,
        }
    } else {
        let imm = word(bus_read(v, wrap16(c.pc + 2)), bus_read(v, wrap16(c.pc + 1)));
        if op == 0xCD || cond_holds(((op - 0xC4) / 8) as u8, c.f) {
            StepEffect {
                cpu: Cpu { pc: imm, sp: wrap16(c.sp - 2), ..c },
                bus: pushed(v, c.sp, wrap16(c.pc + 3)),
                dots: 24,
            }
        } else {
            StepEffect { cpu: Cpu { pc: wrap16(c.pc + 3), ..c }, bus: v, dots: 12 }
        }
    }
}

/// The returns.
pub open spec fn ret_effect(c: Cpu, v: BusView, op: u8) -> StepEffect {
    let val = popped(v, c.sp);
    let returned = Cpu { pc: val, sp: wrap16(c.sp + 2), ..c };
    if op == 0xC9 {
        StepEffect { cpu: returned, bus: v, dots: 16 }
    } else if op == 0xD9 {
        StepEffect { cpu: Cpu { ime: true, ..returned }, bus: v, dots: 16 }
    } else if cond_holds(((op - 0xC0) / 8) as u8, c.f) {
        StepEffect { cpu: returned, bus: v, dots: 20 }
    } else {
        StepEffect { cpu: Cpu { pc: wrap16(c.pc + 1), ..c }, bus: v, dots: 8 }
    }
}

/// The immediate arithmetic/logic forms.
pub open spec fn alu_d8_effect(c: Cpu, v: BusView, op: u8) -> StepEffect {
    let oper = ((op - 0xC0) / 8) as u8;
    let val = bus_read(v, wrap16(c.pc + 1));
    StepEffect {
        cpu: Cpu {
            a: alu_apply(c.a, c.f, val, oper).0,
            f: alu_apply(c.a, c.f, val, oper).1,
            pc: wrap16(c.pc + 2),
            ..c
        },
        bus: v,
        dots: 8,
    }
}

/// The high-page and absolute accumulator transfers.
pub open spec fn ldh_effect(c: Cpu, v: BusView, op: u8) -> StepEffect {
    let d8 = bus_read(v, wrap16(c.pc + 1));
    let imm = word(bus_read(v, wrap16(c.pc + 2)), d8);
    if op == 0xE0 {
        StepEffect {
            cpu: Cpu { pc: wrap16(c.pc + 2), ..c },
            bus: bus_write(v, (0xFF00 + d8) as u16, c.a),
            dots: 12,
        }
    } else if op == 0xF0 {
        StepEffect {
            cpu: Cpu { a: bus_read(v, (0xFF00 + d8) as u16), pc: wrap16(c.pc + 2), ..c },
            bus: v,
            dots: 12,
        }
    } else if op == 0xE2 {
        StepEffect {
            cpu: Cpu { pc: wrap16(c.pc + 1), ..c },
            bus: bus_write(v, (0xFF00 + c.c) as u16, c.a),
            dots: 8,
        }
    } else if op == 0xF2 {
        StepEffect {
            cpu: Cpu { a: bus_read(v, (0xFF00 + c.c) as u16), pc: wrap16(c.pc + 1), ..c },
            bus: v,
            dots: 8,
        }
    } else if op == 0xEA {
        StepEffect { cpu: Cpu { pc: wrap16(c.pc + 3), ..c }, bus: bus_write(v, imm, c.a), dots: 16 }
    } else {
        StepEffect { cpu: Cpu { a: bus_read(v, imm), pc: wrap16(c.pc + 3), ..c }, bus: v, dots: 16 }
    }
}

/// The stack-pointer arithmetic and interrupt-enable instructions.
pub open spec fn sp_misc_effect(c: Cpu, v: BusView, op: u8) -> StepEffect {
    let n = bus_read(v, wrap16(c.pc + 1));
    if op == 0xE8 {
        StepEffect {
            cpu: Cpu {
                sp: addsp_val(c.sp, n),
                f: addsp_flags(c.sp, n),
                pc: wrap16(c.pc + 2),
                ..c
            },
            bus: v,
            dots: 16,
        }
    } else if op == 0xF8 {
        StepEffect {
            cpu: Cpu {
                f: addsp_flags(c.sp, n),
                pc: wrap16(c.pc + 2),
                ..with_hl(c, addsp_val(c.sp, n))
            },
            bus: v,
            dots: 12,
        }
    } else if op == 0xF9 {
        StepEffect { cpu: Cpu { sp: word(c.h, c.l), pc: wrap16(c.pc + 1), ..c }, bus: v, dots: 8 }
    } else if op == 0xF3 {
        StepEffect {
            cpu: Cpu { ime: false, ime_pending: false, pc: wrap16(c.pc + 1), ..c },
            bus: v,
            dots: 4,
        }
    } else {
        StepEffect { cpu: Cpu { ime_pending: true, pc: wrap16(c.pc + 1), ..c }, bus: v, dots: 4 }
    }
}

/// The block 0xC0..0x100 in its successful outcomes (the CB prefix and the
/// 11 unused opcodes excluded), by family.
pub open spec fn high_effect(c: Cpu, v: BusView, op: u8) -> StepEffect {
    if op % 16 == 1 || op % 16 == 5 {
        push_pop_effect(c, v, op)
    } else if op == 0xC3 || op == 0xC2 || op == 0xCA || op == 0xD2 || op == 0xDA || op == 0xE9 {
        jp_effect(c, v, op)
    } else if op == 0xCD || op == 0xC4 || op == 0xCC || op == 0xD4 || op == 0xDC || op % 8 == 7 {
        call_rst_effect(c, v, op)
    } else if op == 0xC9 || op == 0xD9 || op == 0xC0 || op == 0xC8 || op == 0xD0 || op == 0xD8 {
        ret_effect(c, v, op)
    } else if op % 8 == 6 {
        alu_d8_effect(c, v, op)
    } else if op == 0xE0 || op == 0xF0 || op == 0xE2 || op == 0xF2 || op == 0xEA || op == 0xFA {
        ldh_effect(c, v, op)
    } else {
        sp_misc_effect(c, v, op)
    }
}

/// The effect of the instruction whose opcode byte is `op` at `c.pc`, for
/// every instruction that completes (everything but the 11 unused opcodes
/// and a STOP whose second byte is not zero).
pub open spec fn instr_effect(c: Cpu, v: BusView, op: u8) -> StepEffect {
    if op == 0x76 {
        halt_effect(c, v)
    } else if op < 0x40 {
        low_effect(c, v, op)
    } else if op < 0x80 {
        ld_rr_effect(c, v, op)
    } else if op < 0xC0 {
        alu_r_effect(c, v, op)
    } else if op == 0xCB {
        cb_effect(c, v)
    } else {
        high_effect(c, v, op)
    }
}

} // verus!
