//! The bit-manipulation prefix: the second opcode byte selects one of 256
//! sub-instructions, `operation * 8 + operand`. Operations 0..8 rotate and
//! shift, 8..16 test a bit, 16..24 clear one, 24..32 set one.

use vstd::prelude::*;

use crate::alu::alu_bit;
use crate::alu::alu_res;
use crate::alu::alu_rl;
use crate::alu::alu_rlc;
use crate::alu::alu_rr;
use crate::alu::alu_rrc;
use crate::alu::alu_set;
use crate::alu::alu_sla;
use crate::alu::alu_sra;
use crate::alu::alu_srl;
use crate::alu::alu_swap;
use crate::alu::bit_res_val;
use crate::alu::bit_set_val;
use crate::alu::bit_test;
use crate::alu::rl_val;
use crate::alu::rlc_carry;
use crate::alu::rlc_val;
use crate::alu::rr_val;
use crate::alu::rrc_carry;
use crate::alu::rrc_val;
use crate::alu::sla_val;
use crate::alu::sra_val;
use crate::alu::srl_val;
use crate::alu::swap_val;
use crate::alu::wrap16;
use crate::bus::MemoryBus;
use crate::bus::bus_read;
use crate::bus::bus_wf;
use crate::bus::bus_write;
use crate::cpu::Cpu;
use crate::cpu::operand_val;
use crate::cpu::with_reg8;
use crate::cpu::word;
use crate::flags::flag_c;
use crate::flags::flags_byte;

verus! {

/// What a bit-manipulation sub-instruction does to its operand and the
/// flags, by operation index: RLC, RRC, RL, RR, SLA, SRA, SWAP, SRL, then
/// BIT, RES and SET for each bit.
pub open spec fn cb_apply(v: u8, f: u8, oper: u8) -> (u8, u8) {
    if oper == 0 {
        (rlc_val(v), flags_byte(rlc_val(v) == 0, false, false, rlc_carry(v)))
    } else if oper == 1 {
        (rrc_val(v), flags_byte(rrc_val(v) == 0, false, false, rrc_carry(v)))
    } else if oper == 2 {
        (rl_val(v, flag_c(f)), flags_byte(rl_val(v, flag_c(f)) == 0, false, false, rlc_carry(v)))
    } else if oper == 3 {
        (rr_val(v, flag_c(f)), flags_byte(rr_val(v, flag_c(f)) == 0, false, false, rrc_carry(v)))
    } else if oper == 4 {
        (sla_val(v), flags_byte(sla_val(v) == 0, false, false, rlc_carry(v)))
    } else if oper == 5 {
        (sra_val(v), flags_byte(sra_val(v) == 0, false, false, rrc_carry(v)))
    } else if oper == 6 {
        (swap_val(v), flags_byte(swap_val(v) == 0, false, false, false))
    } else if oper == 7 {
        (srl_val(v), flags_byte(srl_val(v) == 0, false, false, rrc_carry(v)))
    } else if oper < 16 {
        (v, flags_byte(!bit_test(v, (oper - 8) as u8), false, true, flag_c(f)))
    } else if oper < 24 {
        (bit_res_val(v, (oper - 16) as u8), f)
    } else {
        (bit_set_val(v, (oper - 24) as u8), f)
    }
}

impl Cpu {
    /// Executes the instruction after a CB prefix byte at PC: steps past
    /// the prefix, reads the sub-opcode, and applies it to its operand.
    /// 8 dots on a register; on memory through HL, 12 for BIT and 16
    /// otherwise.
    #[verifier::rlimit(60)]
    pub(crate) fn exec_cb(&mut self, bus: &mut MemoryBus) -> (c: u8)
        requires
            old(self).wf(),
            bus_wf(old(bus)@),
        ensures
            final(self).wf(),
            bus_wf(final(bus)@),
            ({
                let cbop = bus_read(old(bus)@, wrap16(old(self).pc + 1));
                let idx = (cbop % 8) as u8;
                let oper = (cbop / 8) as u8;
                let v = operand_val(*old(self), old(bus)@, idx);
                let res = cb_apply(v, old(self).f, oper);
                &&& c == (if idx == 6 {
                    if 8 <= oper < 16 {
                        12u8
                    } else {
                        16u8
                    }
                } else {
                    8u8
                })
                &&& (idx == 6 && !(8 <= oper < 16) ==> *final(self) == (Cpu {
                    f: res.1,
                    pc: wrap16(old(self).pc + 2),
                    ..*old(self)
                }) && final(bus)@ == bus_write(old(bus)@, word(old(self).h, old(self).l), res.0))
                &&& (idx == 6 && 8 <= oper < 16 ==> *final(self) == (Cpu {
                    f: res.1,
                    pc: wrap16(old(self).pc + 2),
                    ..*old(self)
                }) && final(bus)@ == old(bus)@)
                &&& (idx != 6 ==> *final(self) == (Cpu {
                    f: res.1,
                    pc: wrap16(old(self).pc + 2),
                    ..with_reg8(*old(self), idx, res.0)
                }) && final(bus)@ == old(bus)@)
            }),
    {
        self.inc_pc();
        let cbop = self.fetch8(bus);
        let idx = cbop % 8;
        let oper = cbop / 8;
        let v = self.read_operand(idx, bus);
        if oper < 8 {
            let (nv, carry): (u8, bool) = if oper == 0 {
                alu_rlc(v)
            } else if oper == 1 {
                alu_rrc(v)
            } else if oper == 2 {
                alu_rl(v, self.c_flag())
            } else if oper == 3 {
                alu_rr(v, self.c_flag())
            } else if oper == 4 {
                alu_sla(v)
            } else if oper == 5 {
                alu_sra(v)
            } else if oper == 6 {
                (alu_swap(v), false)
            } else {
                alu_srl(v)
            };
            self.f = crate::flags::make_flags(nv == 0, false, false, carry);
            self.write_operand(idx, nv, bus);
            if idx == 6 {
                16
            } else {
                8
            }
        } else if oper < 16 {
            let set = alu_bit(v, oper - 8);
            let carry = self.c_flag();
            self.f = crate::flags::make_flags(!set, false, true, carry);
            if idx == 6 {
                12
            } else {
                8
            }
        } else if oper < 24 {
            let nv = alu_res(v, oper - 16);
            self.write_operand(idx, nv, bus);
            if idx == 6 {
                16
            } else {
                8
            }
        } else {
            let nv = alu_set(v, oper - 24);
            self.write_operand(idx, nv, bus);
            if idx == 6 {
                16
            } else {
                8
            }
        }
    }
}

} // verus!
