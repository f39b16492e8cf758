//! The instruction decoder: opcode lengths, the branching classification,
//! the unused opcodes, and the two regular decode blocks (the 8-bit
//! transfers at 0x40..0xC0 and the arithmetic/logic block at 0x80..0xC0).

use vstd::prelude::*;

use crate::alu::add8_flags;
use crate::alu::add8_val;
use crate::alu::alu_add8;
use crate::alu::alu_and8;
use crate::alu::alu_or8;
use crate::alu::alu_sub8;
use crate::alu::alu_xor8;
use crate::alu::and8_flags;
use crate::alu::or8_flags;
use crate::alu::sub8_flags;
use crate::alu::sub8_val;
use crate::alu::wrap16;
use crate::alu::xor8_flags;
use crate::bus::MemoryBus;
use crate::bus::bus_wf;
use crate::bus::bus_write;
use crate::cpu::Cpu;
use crate::cpu::operand_val;
use crate::cpu::with_reg8;
use crate::cpu::word;
use crate::flags::flag_c;

verus! {

/// The byte length of an instruction: one byte, or two or three with its
/// immediates. The CB prefix counts as one two-byte instruction.
pub open spec fn instr_len(op: u8) -> int {
    if 0x40 <= op < 0xC0 {
        1
    } else if op < 0x40 {
        if op % 16 == 1 || op == 0x08 {
            3
        } else if op % 8 == 6 || op == 0x10 || op == 0x18 || op == 0x20 || op == 0x28 || op == 0x30
            || op == 0x38 {
            2
        } else {
            1
        }
    } else {
        if op == 0xC2 || op == 0xC3 || op == 0xC4 || op == 0xCA || op == 0xCC || op == 0xCD
            || op == 0xD2 || op == 0xD4 || op == 0xDA || op == 0xDC || op == 0xEA || op == 0xFA {
            3
        } else if op == 0xC6 || op == 0xCB || op == 0xCE || op == 0xD6 || op == 0xDE || op == 0xE0
            || op == 0xE6 || op == 0xE8 || op == 0xEE || op == 0xF0 || op == 0xF6 || op == 0xF8
            || op == 0xFE {
            2
        } else {
            1
        }
    }
}

/// The instructions that may move the program counter somewhere other than
/// just past themselves: jumps, calls, returns and restarts.
pub open spec fn is_branching(op: u8) -> bool {
    ||| op == 0x18 || op == 0x20 || op == 0x28 || op == 0x30 || op == 0x38
    ||| op == 0xC3 || op == 0xC2 || op == 0xCA || op == 0xD2 || op == 0xDA || op == 0xE9
    ||| op == 0xCD || op == 0xC4 || op == 0xCC || op == 0xD4 || op == 0xDC
    ||| op == 0xC9 || op == 0xC0 || op == 0xC8 || op == 0xD0 || op == 0xD8 || op == 0xD9
    ||| (op >= 0xC0 && op % 8 == 7)
}

/// The 11 unused opcodes; executing one is a fatal fault.
pub open spec fn is_illegal(op: u8) -> bool {
    op == 0xD3 || op == 0xDB || op == 0xDD || op == 0xE3 || op == 0xE4 || op == 0xEB || op == 0xEC
        || op == 0xED || op == 0xF4 || op == 0xFC || op == 0xFD
}

/// What the regular arithmetic/logic block does to the accumulator and the
/// flags, by operation index: ADD, ADC, SUB, SBC, AND, XOR, OR, CP.
pub open spec fn alu_apply(a: u8, f: u8, v: u8, oper: u8) -> (u8, u8) {
    match oper {
        0 => (add8_val(a, v, false), add8_flags(a, v, false)),
        1 => (add8_val(a, v, flag_c(f)), add8_flags(a, v, flag_c(f))),
        2 => (sub8_val(a, v, false), sub8_flags(a, v, false)),
        3 => (sub8_val(a, v, flag_c(f)), sub8_flags(a, v, flag_c(f))),
        4 => ((a & v), and8_flags(a, v)),
        5 => ((a ^ v), xor8_flags(a, v)),
        6 => ((a | v), or8_flags(a, v)),
        _ => (a, sub8_flags(a, v, false)),
    }
}

/// XOR of the accumulator with itself always clears it and yields Z=1 with
/// N, H and C clear.
pub proof fn lemma_xor_a_clears(a: u8, f: u8)
    ensures
        alu_apply(a, f, a, 5).0 == 0,
        alu_apply(a, f, a, 5).1 == crate::flags::flags_byte(true, false, false, false),
{
    crate::alu::lemma_xor_self(a);
}

/// CP computes exactly the SUB flags and leaves the accumulator alone: the
/// discarded difference is the SUB value.
pub proof fn lemma_cp_matches_sub(a: u8, f: u8, v: u8)
    ensures
        alu_apply(a, f, v, 7).1 == alu_apply(a, f, v, 2).1,
        alu_apply(a, f, v, 7).0 == a,
        alu_apply(a, f, v, 2).0 == sub8_val(a, v, false),
{
}

impl Cpu {
    /// The zero flag of the flag register.
    pub fn z_flag(&self) -> (r: bool)
        ensures
            r == crate::flags::flag_z(self.f),
    {
        self.f / 0x80 % 2 == 1
    }

    /// The carry flag of the flag register.
    pub fn c_flag(&self) -> (r: bool)
        ensures
            r == flag_c(self.f),
    {
        self.f / 0x10 % 2 == 1
    }

    /// One instruction of the 8-bit transfer block 0x40..0xC0 (HALT at 0x76
    /// excluded): moves one 8-bit operand into another; 8 dots when memory
    /// is involved, 4 otherwise.
    pub(crate) fn exec_ld_rr(&mut self, op: u8, bus: &mut MemoryBus) -> (c: u8)
        requires
            0x40 <= op < 0x80,
            op != 0x76,
            old(self).wf(),
            bus_wf(old(bus)@),
        ensures
            final(self).wf(),
            bus_wf(final(bus)@),
            ({
                let src = (op % 8) as u8;
                let dst = ((op - 0x40) / 8) as u8;
                let v = operand_val(*old(self), old(bus)@, src);
                &&& c == (if src == 6 || dst == 6 { 8u8 } else { 4u8 })
                &&& (dst == 6 ==> *final(self) == (Cpu {
                    pc: wrap16(old(self).pc + 1),
                    ..*old(self)
                }) && final(bus)@ == bus_write(old(bus)@, word(old(self).h, old(self).l), v))
                &&& (dst != 6 ==> *final(self) == (Cpu {
                    pc: wrap16(old(self).pc + 1),
                    ..with_reg8(*old(self), dst, v)
                }) && final(bus)@ == old(bus)@)
            }),
    {
        self.inc_pc();
        let src = op % 8;
        let dst = (op - 0x40) / 8;
        let v = self.read_operand(src, bus);
        self.write_operand(dst, v, bus);
        if src == 6 || dst == 6 {
            8
        } else {
            4
        }
    }

    /// One instruction of the arithmetic/logic block 0x80..0xC0: applies
    /// ADD, ADC, SUB, SBC, AND, XOR, OR or CP of an 8-bit operand to the
    /// accumulator; 8 dots when memory is involved, 4 otherwise.
    pub(crate) fn exec_alu_r(&mut self, op: u8, bus: &MemoryBus) -> (c: u8)
        requires
            0x80 <= op < 0xC0,
            old(self).wf(),
            bus_wf(bus@),
        ensures
            final(self).wf(),
            ({
                let idx = (op % 8) as u8;
                let oper = ((op - 0x80) / 8) as u8;
                let v = operand_val(*old(self), bus@, idx);
                &&& c == (if idx == 6 { 8u8 } else { 4u8 })
                &&& *final(self) == (Cpu {
                    a: alu_apply(old(self).a, old(self).f, v, oper).0,
                    f: alu_apply(old(self).a, old(self).f, v, oper).1,
                    pc: wrap16(old(self).pc + 1),
                    ..*old(self)
                })
            }),
    {
        self.inc_pc();
        let idx = op % 8;
        let oper = (op - 0x80) / 8;
        let v = self.read_operand(idx, bus);
        let a = self.a;
        let carry = self.c_flag();
        let (na, nf): (u8, u8) = if oper == 0 {
            alu_add8(a, v, false)
        } else if oper == 1 {
            alu_add8(a, v, carry)
        } else if oper == 2 {
            alu_sub8(a, v, false)
        } else if oper == 3 {
            alu_sub8(a, v, carry)
        } else if oper == 4 {
            alu_and8(a, v)
        } else if oper == 5 {
            alu_xor8(a, v)
        } else if oper == 6 {
            alu_or8(a, v)
        } else {
            let sub = alu_sub8(a, v, false);
            (a, sub.1)
        };
        self.a = na;
        self.f = nf;
        if idx == 6 {
            8
        } else {
            4
        }
    }
}

} // verus!
