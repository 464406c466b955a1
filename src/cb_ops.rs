//! The bit-manipulation instructions behind the 0xCB prefix: rotates,
//! shifts, swap, and test, reset and set of one bit, over the eight operands.
use vstd::prelude::*;
use crate::bit_functions::{bit_is_set, reset};
use crate::cpu::{Reg8, Z80};
use crate::gameboy::{Gameboy, GbView};

verus! {

/// The 8-bit register an operand field names (field 6 is the byte at HL).
pub open spec fn reg_of(r: u8) -> Reg8 {
    if r == 0 {
        Reg8::B
    } else if r == 1 {
        Reg8::C
    } else if r == 2 {
        Reg8::D
    } else if r == 3 {
        Reg8::E
    } else if r == 4 {
        Reg8::H
    } else if r == 5 {
        Reg8::L
    } else {
        Reg8::A
    }
}

/// The register an operand field names.
pub fn reg_index(r: u8) -> (reg: Reg8)
    ensures
        reg == reg_of(r),
{
    if r == 0 {
        Reg8::B
    } else if r == 1 {
        Reg8::C
    } else if r == 2 {
        Reg8::D
    } else if r == 3 {
        Reg8::E
    } else if r == 4 {
        Reg8::H
    } else if r == 5 {
        Reg8::L
    } else {
        Reg8::A
    }
}

/// The result of rotate or shift `op` (RLC, RRC, RL, RR, SLA, SRA, SWAP,
/// SRL in that order) on `val`, with `c` the incoming carry flag.
pub open spec fn shift_result(op: u8, val: u8, c: bool) -> u8 {
    let v = val as int;
    let cin: int = if c {
        1
    } else {
        0
    };
    (if op == 0 {
        (v % 128) * 2 + v / 128
    } else if op == 1 {
        v / 2 + (v % 2) * 128
    } else if op == 2 {
        (v % 128) * 2 + cin
    } else if op == 3 {
        v / 2 + cin * 128
    } else if op == 4 {
        (v % 128) * 2
    } else if op == 5 {
        (v / 128) * 128 + v / 2
    } else if op == 6 {
        (v % 16) * 16 + v / 16
    } else {
        v / 2
    }) as u8
}

/// The carry out of rotate or shift `op`: the bit shifted out (SWAP clears it).
pub open spec fn shift_carry(op: u8, val: u8) -> bool {
    if op == 0 || op == 2 || op == 4 {
        val >= 128
    } else if op == 6 {
        false
    } else {
        val % 2 == 1
    }
}

/// Computes rotate or shift `op` on `val`: the result and the carry out.
pub fn shift(op: u8, val: u8, c: bool) -> (r: (u8, bool))
    requires
        op < 8,
    ensures
        r.0 == shift_result(op, val, c),
        r.1 == shift_carry(op, val),
{
    let cin: u8 = if c {
        1
    } else {
        0
    };
    let res: u8 = if op == 0 {
        (val % 128) * 2 + val / 128
    } else if op == 1 {
        val / 2 + (val % 2) * 128
    } else if op == 2 {
        (val % 128) * 2 + cin
    } else if op == 3 {
        val / 2 + cin * 128
    } else if op == 4 {
        (val % 128) * 2
    } else if op == 5 {
        (val / 128) * 128 + val / 2
    } else if op == 6 {
        (val % 16) * 16 + val / 16
    } else {
        val / 2
    };
    let carry = if op == 0 || op == 2 || op == 4 {
        val >= 128
    } else if op == 6 {
        false
    } else {
        val % 2 == 1
    };
    (res, carry)
}

/// The cycles of a prefixed instruction: 8, or 12 for a bit test of the byte
/// at HL, or 16 for any other instruction on the byte at HL.
pub open spec fn cb_cycles(code: u8) -> usize {
    if code & 7 != 6 {
        8
    } else if 0x40 <= code < 0x80 {
        12
    } else {
        16
    }
}

/// The fields of the prefixed opcodes built from an operand field.
pub proof fn lemma_cb_fields(r: u8)
    ensures
        r & 7 < 8,
        (r & 7) & 7 == r & 7,
        (0x08u8 | (r & 7)) & 7 == r & 7 && (0x08u8 | (r & 7)) < 0x40 && (0x08u8 | (r & 7)) / 8 == 1,
        (0x10u8 | (r & 7)) & 7 == r & 7 && (0x10u8 | (r & 7)) < 0x40 && (0x10u8 | (r & 7)) / 8 == 2,
        (0x18u8 | (r & 7)) & 7 == r & 7 && (0x18u8 | (r & 7)) < 0x40 && (0x18u8 | (r & 7)) / 8 == 3,
        (0x20u8 | (r & 7)) & 7 == r & 7 && (0x20u8 | (r & 7)) < 0x40 && (0x20u8 | (r & 7)) / 8 == 4,
        (0x28u8 | (r & 7)) & 7 == r & 7 && (0x28u8 | (r & 7)) < 0x40 && (0x28u8 | (r & 7)) / 8 == 5,
        (0x30u8 | (r & 7)) & 7 == r & 7 && (0x30u8 | (r & 7)) < 0x40 && (0x30u8 | (r & 7)) / 8 == 6,
        (0x38u8 | (r & 7)) & 7 == r & 7 && (0x38u8 | (r & 7)) < 0x40 && (0x38u8 | (r & 7)) / 8 == 7,
{
    assert(r & 7 < 8 && (r & 7) & 7 == r & 7 && (0x08u8 | (r & 7)) & 7 == r & 7 && (0x08u8 | (r
        & 7)) < 0x40 && (0x08u8 | (r & 7)) / 8 == 1 && (0x10u8 | (r & 7)) & 7 == r & 7 && (0x10u8
        | (r & 7)) < 0x40 && (0x10u8 | (r & 7)) / 8 == 2 && (0x18u8 | (r & 7)) & 7 == r & 7 && (
    0x18u8 | (r & 7)) < 0x40 && (0x18u8 | (r & 7)) / 8 == 3 && (0x20u8 | (r & 7)) & 7 == r & 7
        && (0x20u8 | (r & 7)) < 0x40 && (0x20u8 | (r & 7)) / 8 == 4 && (0x28u8 | (r & 7)) & 7 == r
        & 7 && (0x28u8 | (r & 7)) < 0x40 && (0x28u8 | (r & 7)) / 8 == 5 && (0x30u8 | (r & 7)) & 7
        == r & 7 && (0x30u8 | (r & 7)) < 0x40 && (0x30u8 | (r & 7)) / 8 == 6 && (0x38u8 | (r & 7))
        & 7 == r & 7 && (0x38u8 | (r & 7)) < 0x40 && (0x38u8 | (r & 7)) / 8 == 7) by (bit_vector);
}

impl GbView {
    /// The machine with its registers replaced.
    pub open spec fn with_cpu(self, cpu: Z80) -> GbView {
        GbView { cpu, ..self }
    }

    /// The operand an operand field names: a register, or the byte at HL.
    pub open spec fn operand(self, r: u8) -> u8 {
        if r == 6 {
            self.read(self.cpu.hl.value)
        } else {
            self.cpu.reg8(reg_of(r))
        }
    }

    /// The machine with `v` written to the operand an operand field names.
    pub open spec fn put_operand(self, r: u8, v: u8) -> GbView {
        if r == 6 {
            self.write(self.cpu.hl.value, v)
        } else {
            self.with_cpu(self.cpu.put8(reg_of(r), v))
        }
    }

    /// The machine after the prefixed instruction `code`.
    pub open spec fn cb_op(self, code: u8) -> GbView {
        let r = code & 7;
        let b = (code / 8) % 8;
        let val = self.operand(r);
        if code < 0x40 {
            let res = shift_result(code / 8, val, self.cpu.c_flag());
            let s = self.put_operand(r, res);
            s.with_cpu(s.cpu.with_flags(shift_carry(code / 8, val), false, false, res == 0))
        } else if code < 0x80 {
            self.with_cpu(self.cpu.with_flag(7, !bit_is_set(val, b)).with_flag(6, false).with_flag(5, true))
        } else if code < 0xC0 {
            self.put_operand(r, val & !(1u8 << b))
        } else {
            self.put_operand(r, val | (1u8 << b))
        }
    }
}

impl Gameboy {
    /// Reads the operand an operand field names.
    pub fn get_operand(&self, r: u8) -> (v: u8)
        requires
            self.wf(),
        ensures
            v == self@.operand(r),
    {
        if r == 6 {
            self.read(self.cpu.hl.full())
        } else {
            self.cpu.get8(reg_index(r))
        }
    }

    /// Writes the operand an operand field names.
    pub fn set_operand(&mut self, r: u8, v: u8)
        requires
            old(self).wf(),
        ensures
            final(self).wf(),
            final(self)@ == old(self)@.put_operand(r, v),
    {
        if r == 6 {
            self.write(self.cpu.hl.full(), v);
        } else {
            proof {
                crate::cpu::lemma_put8(self.cpu, reg_of(r), v);
            }
            self.cpu.set8(reg_index(r), v);
        }
    }

    /// Rotate or shift `op` of operand `r`; Z from the result, C the bit
    /// shifted out, N and H cleared.
    fn shift_operand(&mut self, op: u8, r: u8)
        requires
            old(self).wf(),
            op < 8,
        ensures
            final(self).wf(),
            final(self)@ == ({
                let val = old(self)@.operand(r);
                let res = shift_result(op, val, old(self)@.cpu.c_flag());
                let s = old(self)@.put_operand(r, res);
                s.with_cpu(s.cpu.with_flags(shift_carry(op, val), false, false, res == 0))
            }),
    {
        let val = self.get_operand(r);
        let (res, carry) = shift(op, val, self.cpu.c());
        self.set_operand(r, res);
        self.cpu.set_flags(carry, false, false, res == 0);
    }

    /// RLC: rotate left, bit 7 to carry and to bit 0.
    pub fn rlc(&mut self, r: u8)
        requires
            old(self).wf(),
        ensures
            final(self).wf(),
            final(self)@ == old(self)@.cb_op(r & 7),
    {
        proof {
            lemma_cb_fields(r);
        }
        self.shift_operand(0, r & 7);
    }

    /// RL: rotate left through the carry.
    pub fn rl(&mut self, r: u8)
        requires
            old(self).wf(),
        ensures
            final(self).wf(),
            final(self)@ == old(self)@.cb_op(0x10 | (r & 7)),
    {
        proof {
            lemma_cb_fields(r);
        }
        self.shift_operand(2, r & 7);
    }

    /// RRC: rotate right, bit 0 to carry and to bit 7.
    pub fn rrc(&mut self, r: u8)
        requires
            old(self).wf(),
        ensures
            final(self).wf(),
            final(self)@ == old(self)@.cb_op(0x08 | (r & 7)),
    {
        proof {
            lemma_cb_fields(r);
        }
        self.shift_operand(1, r & 7);
    }

    /// RR: rotate right through the carry.
    pub fn rr(&mut self, r: u8)
        requires
            old(self).wf(),
        ensures
            final(self).wf(),
            final(self)@ == old(self)@.cb_op(0x18 | (r & 7)),
    {
        proof {
            lemma_cb_fields(r);
        }
        self.shift_operand(3, r & 7);
    }

    /// SLA: shift left, bit 7 to carry.
    pub fn sla(&mut self, r: u8)
        requires
            old(self).wf(),
        ensures
            final(self).wf(),
            final(self)@ == old(self)@.cb_op(0x20 | (r & 7)),
    {
        proof {
            lemma_cb_fields(r);
        }
        self.shift_operand(4, r & 7);
    }

    /// SRA: shift right keeping bit 7, bit 0 to carry.
    pub fn sra(&mut self, r: u8)
        requires
            old(self).wf(),
        ensures
            final(self).wf(),
            final(self)@ == old(self)@.cb_op(0x28 | (r & 7)),
    {
        proof {
            lemma_cb_fields(r);
        }
        self.shift_operand(5, r & 7);
    }

    /// SWAP: exchange the nibbles; only Z can be set.
    pub fn swap(&mut self, r: u8)
        requires
            old(self).wf(),
        ensures
            final(self).wf(),
            final(self)@ == old(self)@.cb_op(0x30 | (r & 7)),
    {
        proof {
            lemma_cb_fields(r);
        }
        self.shift_operand(6, r & 7);
    }

    /// SRL: shift right, bit 0 to carry.
    pub fn srl(&mut self, r: u8)
        requires
            old(self).wf(),
        ensures
            final(self).wf(),
            final(self)@ == old(self)@.cb_op(0x38 | (r & 7)),
    {
        proof {
            lemma_cb_fields(r);
        }
        self.shift_operand(7, r & 7);
    }

    /// BIT: Z set when bit `bit` of `val` is clear; N cleared, H set, C kept.
    pub fn bit(&mut self, bit: u8, val: u8)
        requires
            bit < 8,
        ensures
            old(self).wf() ==> final(self).wf(),
            final(self)@ == old(self)@.with_cpu(
                old(self).cpu.with_flag(7, !bit_is_set(val, bit)).with_flag(6, false).with_flag(5, true),
            ),
    {
        self.cpu.set_z(!crate::bit_functions::test(val, bit));
        self.cpu.set_n(false);
        self.cpu.set_h(true);
    }

    /// Executes the prefixed instruction `code`.
    pub fn find_cb_op(&mut self, code: u8)
        requires
            old(self).wf(),
        ensures
            final(self).wf(),
            final(self)@ == old(self)@.cb_op(code),
    {
        let r = code & 7;
        let b = (code / 8) % 8;
        if code < 0x40 {
            assert(code & 7 < 8) by (bit_vector);
            self.shift_operand(code / 8, r);
        } else if code < 0x80 {
            let val = self.get_operand(r);
            self.bit(b, val);
        } else if code < 0xC0 {
            let val = self.get_operand(r);
            self.set_operand(r, reset(val, b));
        } else {
            let val = self.get_operand(r);
            self.set_operand(r, crate::bit_functions::set(val, b));
        }
    }
}

} // verus!
