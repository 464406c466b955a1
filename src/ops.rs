//! The main instruction table: fetch, decode by the opcode's fields, and
//! execute, with the per-opcode cycle costs and the taken-branch surcharges.
use vstd::prelude::*;
use crate::bus::add16;
use crate::cb_ops::cb_cycles;
use crate::cpu::{Clock, Pair, Reg8, Register, Z80};
use crate::gameboy::{Gameboy, GbView};

verus! {



/// Machine cycles (of four clock cycles) of each main-table opcode, before
/// any taken-branch surcharge.
pub const OPCODE_CYCLES: [u8; 256] = [
    1, 3, 2, 2, 1, 1, 2, 1, 5, 2, 2, 2, 1, 1, 2, 1,
    0, 3, 2, 2, 1, 1, 2, 1, 3, 2, 2, 2, 1, 1, 2, 1,
    2, 3, 2, 2, 1, 1, 2, 1, 2, 2, 2, 2, 1, 1, 2, 1,
    2, 3, 2, 2, 3, 3, 3, 1, 2, 2, 2, 2, 1, 1, 2, 1,
    1, 1, 1, 1, 1, 1, 2, 1, 1, 1, 1, 1, 1, 1, 2, 1,
    1, 1, 1, 1, 1, 1, 2, 1, 1, 1, 1, 1, 1, 1, 2, 1,
    1, 1, 1, 1, 1, 1, 2, 1, 1, 1, 1, 1, 1, 1, 2, 1,
    2, 2, 2, 2, 2, 2, 0, 2, 1, 1, 1, 1, 1, 1, 2, 1,
    1, 1, 1, 1, 1, 1, 2, 1, 1, 1, 1, 1, 1, 1, 2, 1,
    1, 1, 1, 1, 1, 1, 2, 1, 1, 1, 1, 1, 1, 1, 2, 1,
    1, 1, 1, 1, 1, 1, 2, 1, 1, 1, 1, 1, 1, 1, 2, 1,
    1, 1, 1, 1, 1, 1, 2, 1, 1, 1, 1, 1, 1, 1, 2, 1,
    2, 3, 3, 4, 3, 4, 2, 4, 2, 4, 3, 0, 3, 6, 2, 4,
    2, 3, 3, 0, 3, 4, 2, 4, 2, 4, 3, 0, 3, 0, 2, 4,
    3, 3, 2, 0, 0, 4, 2, 4, 4, 1, 4, 0, 0, 0, 2, 4,
    3, 3, 2, 1, 0, 4, 2, 4, 3, 2, 4, 1, 0, 0, 2, 4,
];

pub fn opcode_cycles(code: u8) -> (r: usize)
    ensures
        r == OPCODE_CYCLES@[code as int] * 4,
{
    (OPCODE_CYCLES[code as usize] as usize) * 4
}

/// `t + k` on the cycle counter, wrapping.
pub open spec fn add_cycles(t: usize, k: usize) -> usize {
    if t + k > usize::MAX {
        (t + k - usize::MAX - 1) as usize
    } else {
        (t + k) as usize
    }
}

/// `t + k` on the cycle counter, wrapping.
pub fn add_cycles_exec(t: usize, k: usize) -> (r: usize)
    ensures
        r == add_cycles(t, k),
{
    if t <= usize::MAX - k {
        t + k
    } else {
        t - (usize::MAX - k) - 1
    }
}

/// The register pair a 16-bit operand field names (3 is SP).
pub open spec fn rr_of(i: u8) -> Pair {
    if i == 0 {
        Pair::BC
    } else if i == 1 {
        Pair::DE
    } else if i == 2 {
        Pair::HL
    } else {
        Pair::SP
    }
}

/// The register pair a push or pop names (3 is AF).
pub open spec fn qq_of(i: u8) -> Pair {
    if i == 3 {
        Pair::AF
    } else {
        rr_of(i)
    }
}

pub fn rr_index(i: u8) -> (p: Pair)
    ensures
        p == rr_of(i),
{
    if i == 0 {
        Pair::BC
    } else if i == 1 {
        Pair::DE
    } else if i == 2 {
        Pair::HL
    } else {
        Pair::SP
    }
}

pub fn qq_index(i: u8) -> (p: Pair)
    ensures
        p == qq_of(i),
{
    if i == 3 {
        Pair::AF
    } else {
        rr_index(i)
    }
}

/// A relative jump's target: `pc` plus the byte read as a signed offset.
pub open spec fn relative(pc: u16, n: u8) -> u16 {
    if n < 128 {
        add16(pc, n as int)
    } else {
        add16(pc, n - 256)
    }
}

/// Whether branch condition `cc` (NZ, Z, NC, C) holds.
pub open spec fn cond(cpu: Z80, cc: u8) -> bool {
    if cc == 0 {
        !cpu.z_flag()
    } else if cc == 1 {
        cpu.z_flag()
    } else if cc == 2 {
        !cpu.c_flag()
    } else {
        cpu.c_flag()
    }
}

/// The first correction of DAA after an addition: add 0x60 when C is set or
/// the accumulator is above 0x99, and set C.
pub open spec fn daa_high(c: Z80) -> Z80 {
    if c.c_flag() || c.reg8(Reg8::A) > 0x99 {
        c.put8(Reg8::A, ((c.reg8(Reg8::A) + 0x60) % 256) as u8).with_flag(4, true)
    } else {
        c
    }
}

/// The second correction of DAA after an addition: add 0x06 when H is set
/// or the low digit is above 9, and clear H.
pub open spec fn daa_low(c: Z80) -> Z80 {
    if c.h_flag() || c.reg8(Reg8::A) % 16 > 9 {
        c.put8(Reg8::A, ((c.reg8(Reg8::A) + 0x06) % 256) as u8).with_flag(5, false)
    } else {
        c
    }
}

/// The correction of DAA after a subtraction, chosen by C and H.
pub open spec fn daa_sub(c: Z80) -> Z80 {
    if c.c_flag() && c.h_flag() {
        c.put8(Reg8::A, ((c.reg8(Reg8::A) + 0x9A) % 256) as u8).with_flag(5, false)
    } else if c.c_flag() {
        c.put8(Reg8::A, ((c.reg8(Reg8::A) + 0xA0) % 256) as u8)
    } else if c.h_flag() {
        c.put8(Reg8::A, ((c.reg8(Reg8::A) + 0xFA) % 256) as u8).with_flag(5, false)
    } else {
        c
    }
}

/// The accumulator after decimal adjustment, with its flags: the two
/// corrections after an addition (N clear) or the one after a subtraction,
/// then Z from the result.
pub open spec fn daa(c: Z80) -> Z80 {
    let c2 = if !c.n_flag() {
        daa_low(daa_high(c))
    } else {
        daa_sub(c)
    };
    c2.with_flag(7, c2.reg8(Reg8::A) == 0)
}

impl GbView {
    /// The machine with `k` more clock cycles charged to this instruction.
    pub open spec fn charge(self, k: usize) -> GbView {
        self.with_cpu(
            Z80 { clock: Clock { t: add_cycles(self.cpu.clock.t, k), ..self.cpu.clock }, ..self.cpu },
        )
    }

    /// The machine with pair `p` set to `w`.
    pub open spec fn set_pair(self, p: Pair, w: u16) -> GbView {
        self.with_cpu(self.cpu.with_pair(p, self.cpu.pair(p).with_full(w)))
    }

    /// The machine with the program counter set to `pc`.
    pub open spec fn jump_to(self, pc: u16) -> GbView {
        self.with_cpu(Z80 { pc, ..self.cpu })
    }

    /// An 8-bit arithmetic or logic operation of the accumulator with `v`.
    pub open spec fn alu(self, op: u8, v: u8) -> GbView {
        self.with_cpu(alu_spec(self.cpu, op, v))
    }

    /// INC of an operand: C is kept.
    pub open spec fn inc_operand(self, r: u8) -> GbView {
        let b = self.operand(r);
        let res = ((b + 1) % 256) as u8;
        let s = self.put_operand(r, res);
        s.with_cpu(s.cpu.with_flag(7, res == 0).with_flag(6, false).with_flag(5, b % 16 == 15))
    }

    /// DEC of an operand: C is kept.
    pub open spec fn dec_operand(self, r: u8) -> GbView {
        let b = self.operand(r);
        let res = ((b + 255) % 256) as u8;
        let s = self.put_operand(r, res);
        s.with_cpu(s.cpu.with_flag(7, res == 0).with_flag(6, true).with_flag(5, b % 16 == 0))
    }

    /// The 8-bit loads, arithmetic and increments that the opcode's fields
    /// select: LD r,r' (0x40-0x7F but HALT), ALU A,r (0x80-0xBF), INC r, DEC r
    /// and LD r,n (0x00-0x3F ending in 4, 5 or 6), and ALU A,n (0xC0-0xFF ending in 6).
    pub open spec fn op8(self, code: u8) -> GbView {
        if 0x40 <= code <= 0x7F {
            self.put_operand((code / 8) % 8, self.operand(code % 8))
        } else if 0x80 <= code <= 0xBF {
            self.alu((code / 8) % 8, self.operand(code % 8))
        } else if code < 0x40 && code % 8 == 4 {
            self.inc_operand(code / 8)
        } else if code < 0x40 && code % 8 == 5 {
            self.dec_operand(code / 8)
        } else if code < 0x40 {
            let (s, n) = self.fetch();
            s.put_operand(code / 8, n)
        } else {
            let (s, n) = self.fetch();
            s.alu((code / 8) % 8, n)
        }
    }

    /// The 16-bit loads and arithmetic that the opcode's fields select: LD
    /// rr,nn, INC rr, DEC rr, ADD HL,rr (0x00-0x3F ending in 1, 3, B, 9), and
    /// PUSH and POP (0xC0-0xFF ending in 5 and 1).
    pub open spec fn op16(self, code: u8) -> GbView {
        let i = (code / 16) % 4;
        if code < 0x40 && code % 16 == 1 {
            let (s, w) = self.fetch16();
            s.set_pair(rr_of(i), w)
        } else if code < 0x40 && code % 16 == 3 {
            self.set_pair(rr_of(i), ((self.cpu.pair(rr_of(i)).value + 1) % 65536) as u16)
        } else if code < 0x40 && code % 16 == 0xB {
            self.set_pair(rr_of(i), ((self.cpu.pair(rr_of(i)).value - 1) % 65536) as u16)
        } else if code < 0x40 {
            self.with_cpu(
                self.cpu.after_add_16(Pair::HL, self.cpu.hl.value, self.cpu.pair(rr_of(i)).value),
            )
        } else if code % 16 == 5 {
            self.push(self.cpu.pair(qq_of(i)).value)
        } else {
            let (s, w) = self.pop();
            s.set_pair(qq_of(i), w)
        }
    }

    /// The jumps: JR and JP, with or without a condition, and JP HL.
    pub open spec fn op_jump(self, code: u8) -> GbView {
        let cc = (code / 8) % 4;
        if code == 0x18 {
            let (s, n) = self.fetch();
            s.jump_to(relative(s.cpu.pc, n))
        } else if code < 0x40 {
            let (s, n) = self.fetch();
            if cond(s.cpu, cc) {
                s.jump_to(relative(s.cpu.pc, n)).charge(4)
            } else {
                s
            }
        } else if code == 0xC3 {
            let (s, w) = self.fetch16();
            s.jump_to(w)
        } else if code == 0xE9 {
            self.jump_to(self.cpu.hl.value)
        } else {
            let (s, w) = self.fetch16();
            if cond(s.cpu, cc) {
                s.jump_to(w).charge(4)
            } else {
                s
            }
        }
    }

    /// The calls, returns and restarts: CALL and RET, with or without a
    /// condition, RETI and RST.
    pub open spec fn op_call(self, code: u8) -> GbView {
        let cc = (code / 8) % 4;
        if code == 0xCD {
            let (s, w) = self.fetch16();
            s.call(w)
        } else if code == 0xC9 {
            self.ret()
        } else if code == 0xD9 {
            let s = self.ret();
            GbView { interrupts_enabling: true, ..s }
        } else if code % 8 == 7 {
            self.call((code - 0xC7) as u16)
        } else if code % 8 == 4 {
            let (s, w) = self.fetch16();
            if cond(s.cpu, cc) {
                s.call(w).charge(12)
            } else {
                s
            }
        } else {
            if cond(self.cpu, cc) {
                self.ret().charge(12)
            } else {
                self
            }
        }
    }

    /// The jumps, calls, returns and restarts.
    pub open spec fn op_flow(self, code: u8) -> GbView {
        if is_jump(code) {
            self.op_jump(code)
        } else {
            self.op_call(code)
        }
    }
}

impl GbView {
    /// The machine after STOP: the CPU stops; on colour hardware an armed
    /// speed switch toggles the speed and the CPU runs on; the byte after
    /// the opcode is skipped.
    pub open spec fn stop(self) -> GbView {
        let s = GbView { stopped: true, ..self };
        let s2 = if s.cgb_mode && s.prepare {
            GbView {
                prepare: false,
                speed: if s.speed == 0 {
                    1
                } else {
                    0
                },
                stopped: false,
                ..s
            }
        } else {
            s
        };
        s2.fetch().0
    }

    /// The loads and stores through BC, DE and HL.
    pub open spec fn op_mem_pair(self, code: u8) -> GbView {
        let a = self.cpu.reg8(Reg8::A);
        let bc = self.cpu.bc.value;
        let de = self.cpu.de.value;
        let hl = self.cpu.hl.value;
        let cin: int = if self.cpu.c_flag() {
            1
        } else {
            0
        };
        if code == 0x02 {
            self.write(bc, a)
        } else if code == 0x12 {
            self.write(de, a)
        } else if code == 0x0A {
            self.with_cpu(self.cpu.put8(Reg8::A, self.read(bc)))
        } else if code == 0x1A {
            self.with_cpu(self.cpu.put8(Reg8::A, self.read(de)))
        } else if code == 0x22 {
            self.write(hl, a).set_pair(Pair::HL, add16(hl, 1))
        } else if code == 0x32 {
            self.write(hl, a).set_pair(Pair::HL, add16(hl, -1))
        } else if code == 0x2A {
            self.with_cpu(self.cpu.put8(Reg8::A, self.read(hl))).set_pair(Pair::HL, add16(hl, 1))
        } else if code == 0x3A {
            self.with_cpu(self.cpu.put8(Reg8::A, self.read(hl))).set_pair(Pair::HL, add16(hl, -1))
        } else {
            self
        }
    }

    /// The loads and stores through an immediate address or the high page.
    pub open spec fn op_mem_direct(self, code: u8) -> GbView {
        let a = self.cpu.reg8(Reg8::A);
        let bc = self.cpu.bc.value;
        let de = self.cpu.de.value;
        let hl = self.cpu.hl.value;
        let cin: int = if self.cpu.c_flag() {
            1
        } else {
            0
        };
        if code == 0x08 {
            let (s, addr) = self.fetch16();
            let s1 = s.write(addr, s.cpu.sp.lo_spec());
            s1.write(add16(addr, 1), s1.cpu.sp.hi_spec())
        } else if code == 0xE0 {
            let (s, n) = self.fetch();
            s.write(add16(0xFF00, n as int), s.cpu.reg8(Reg8::A))
        } else if code == 0xF0 {
            let (s, n) = self.fetch();
            s.with_cpu(s.cpu.put8(Reg8::A, s.read_upper(add16(0xFF00, n as int))))
        } else if code == 0xE2 {
            self.write(add16(0xFF00, self.cpu.reg8(Reg8::C) as int), a)
        } else if code == 0xF2 {
            self.with_cpu(self.cpu.put8(Reg8::A, self.read(add16(0xFF00, self.cpu.reg8(Reg8::C) as int))))
        } else if code == 0xEA {
            let (s, addr) = self.fetch16();
            s.write(addr, a)
        } else if code == 0xFA {
            let (s, addr) = self.fetch16();
            s.with_cpu(s.cpu.put8(Reg8::A, s.read(addr)))
        } else {
            self
        }
    }

    /// The indirect and absolute loads and stores that fit no field pattern.
    pub open spec fn op_mem(self, code: u8) -> GbView {
        if code < 0x40 && code != 0x08 {
            self.op_mem_pair(code)
        } else {
            self.op_mem_direct(code)
        }
    }

    /// The register-only opcodes that fit no field pattern: accumulator rotates, DAA, CPL, SCF, CCF, HALT, STOP, the stack-pointer arithmetic, DI and EI; undefined opcodes change nothing.
    pub open spec fn op_reg(self, code: u8) -> GbView {
        let a = self.cpu.reg8(Reg8::A);
        let bc = self.cpu.bc.value;
        let de = self.cpu.de.value;
        let hl = self.cpu.hl.value;
        let cin: int = if self.cpu.c_flag() {
            1
        } else {
            0
        };
        if code == 0x07 {
            self.with_cpu(
                self.cpu.put8(Reg8::A, ((a % 128) * 2 + a / 128) as u8).with_flags(
                    a > 0x7F,
                    false,
                    false,
                    false,
                ),
            )
        } else if code == 0x17 {
            self.with_cpu(
                self.cpu.put8(Reg8::A, ((a % 128) * 2 + cin) as u8).with_flags(a > 0x7F, false, false, false),
            )
        } else if code == 0x0F {
            let r = (a / 2 + (a % 2) * 128) as u8;
            self.with_cpu(self.cpu.put8(Reg8::A, r).with_flags(r > 0x7F, false, false, false))
        } else if code == 0x1F {
            self.with_cpu(
                self.cpu.put8(Reg8::A, (a / 2 + cin * 128) as u8).with_flags(a % 2 == 1, false, false, false),
            )
        } else if code == 0x10 {
            self.stop()
        } else if code == 0x27 {
            self.with_cpu(daa(self.cpu))
        } else if code == 0x2F {
            self.with_cpu(self.cpu.put8(Reg8::A, 0xFF ^ a).with_flag(6, true).with_flag(5, true))
        } else if code == 0x37 {
            self.with_cpu(self.cpu.with_flag(6, false).with_flag(5, false).with_flag(4, true))
        } else if code == 0x3F {
            self.with_cpu(
                self.cpu.with_flag(6, false).with_flag(5, false).with_flag(4, !self.cpu.c_flag()),
            )
        } else if code == 0x76 {
            GbView { halted: true, ..self }
        } else if code == 0xE8 {
            let (s, n) = self.fetch();
            s.with_cpu(s.cpu.after_add_16_signed(Pair::SP, s.cpu.sp.value, #[verifier::truncate] (n as i8)))
        } else if code == 0xF8 {
            let (s, n) = self.fetch();
            s.with_cpu(s.cpu.after_add_16_signed(Pair::HL, s.cpu.sp.value, #[verifier::truncate] (n as i8)))
        } else if code == 0xF3 {
            GbView { interrupts_on: false, ..self }
        } else if code == 0xFB {
            GbView { interrupts_enabling: true, ..self }
        } else if code == 0xF9 {
            self.with_cpu(Z80 { sp: self.cpu.hl, ..self.cpu })
        } else {
            self
        }
    }

    /// The opcodes that fit no field pattern.
    pub open spec fn op_misc(self, code: u8) -> GbView {
        if is_mem_misc(code) {
            self.op_mem(code)
        } else {
            self.op_reg(code)
        }
    }

    /// The machine after executing main-table opcode `code`, its operands
    /// fetched from the program counter.
    pub open spec fn op(self, code: u8) -> GbView {
        if is_op8(code) {
            self.op8(code)
        } else if is_op16(code) {
            self.op16(code)
        } else if is_flow(code) {
            self.op_flow(code)
        } else if code == 0xCB {
            let (s, next) = self.fetch();
            s.charge(cb_cycles(next)).cb_op(next)
        } else {
            self.op_misc(code)
        }
    }

    /// One instruction: fetch the opcode, set the step's clock to its table
    /// cost, execute it; the cycles it took come with the machine.
    pub open spec fn execute(self) -> (GbView, usize) {
        let (s, code) = self.fetch();
        let s2 = s.with_cpu(
            Z80 { clock: Clock { t: (OPCODE_CYCLES@[code as int] * 4) as usize, ..s.cpu.clock }, ..s.cpu },
        );
        let s3 = s2.op(code);
        (s3, s3.cpu.clock.t)
    }
}

/// An 8-bit arithmetic or logic operation `op` (ADD, ADC, SUB, SBC, AND,
/// XOR, OR, CP) of the accumulator with `v`.
pub open spec fn alu_spec(c: Z80, op: u8, v: u8) -> Z80 {
    let a = c.reg8(Reg8::A);
    if op == 0 {
        c.after_add(Reg8::A, a, v, false)
    } else if op == 1 {
        c.after_add(Reg8::A, a, v, true)
    } else if op == 2 {
        c.after_sub(Reg8::A, a, v, false)
    } else if op == 3 {
        c.after_sub(Reg8::A, a, v, true)
    } else if op == 4 {
        c.after_logic(Reg8::A, a & v, true)
    } else if op == 5 {
        c.after_logic(Reg8::A, a ^ v, false)
    } else if op == 6 {
        c.after_logic(Reg8::A, a | v, false)
    } else {
        c.with_flags(a < v, a % 16 < v % 16, true, a == v)
    }
}

/// The opcodes `op_flow` covers.
pub open spec fn is_flow(code: u8) -> bool {
    code == 0x18 || code == 0x20 || code == 0x28 || code == 0x30 || code == 0x38 || code == 0xC3
        || code == 0xE9 || code == 0xCD || code == 0xC9 || code == 0xD9 || (code >= 0xC0 && (code
        % 8 == 7 || ((code % 8 == 2 || code % 8 == 4 || code % 8 == 0) && code % 64 < 0x20)))
}

/// The jumps among the opcodes `op_flow` covers.
pub open spec fn is_jump(code: u8) -> bool {
    code < 0x40 || code == 0xC3 || code == 0xE9 || code % 8 == 2
}

/// The memory-touching opcodes among those `op_misc` covers.
pub open spec fn is_mem_misc(code: u8) -> bool {
    code == 0x02 || code == 0x12 || code == 0x0A || code == 0x1A || code == 0x22 || code == 0x32
        || code == 0x2A || code == 0x3A || code == 0x08 || code == 0xE0 || code == 0xF0 || code
        == 0xE2 || code == 0xF2 || code == 0xEA || code == 0xFA
}

/// The opcodes `op8` covers.
pub open spec fn is_op8(code: u8) -> bool {
    (0x40 <= code <= 0xBF && code != 0x76) || (code < 0x40 && (code % 8 == 4 || code % 8 == 5
        || code % 8 == 6)) || (code >= 0xC0 && code % 8 == 6)
}

/// The opcodes `op16` covers.
pub open spec fn is_op16(code: u8) -> bool {
    (code < 0x40 && (code % 16 == 1 || code % 16 == 3 || code % 16 == 0xB || code % 16 == 9)) || (
    code >= 0xC0 && (code % 16 == 5 || code % 16 == 1))
}

pub fn in_op8(code: u8) -> (r: bool)
    ensures
        r == is_op8(code),
{
    (0x40 <= code && code <= 0xBF && code != 0x76) || (code < 0x40 && (code % 8 == 4 || code % 8
        == 5 || code % 8 == 6)) || (code >= 0xC0 && code % 8 == 6)
}

pub fn in_op16(code: u8) -> (r: bool)
    ensures
        r == is_op16(code),
{
    (code < 0x40 && (code % 16 == 1 || code % 16 == 3 || code % 16 == 0xB || code % 16 == 9)) || (
    code >= 0xC0 && (code % 16 == 5 || code % 16 == 1))
}

pub fn in_flow(code: u8) -> (r: bool)
    ensures
        r == is_flow(code),
{
    code == 0x18 || code == 0x20 || code == 0x28 || code == 0x30 || code == 0x38 || code == 0xC3
        || code == 0xE9 || code == 0xCD || code == 0xC9 || code == 0xD9 || (code >= 0xC0 && (code
        % 8 == 7 || ((code % 8 == 2 || code % 8 == 4 || code % 8 == 0) && code % 64 < 0x20)))
}

/// The cycles of a prefixed instruction.
pub fn cb_opcode_cycles(code: u8) -> (r: usize)
    ensures
        r == cb_cycles(code),
{
    if code & 7 != 6 {
        8
    } else if 0x40 <= code && code < 0x80 {
        12
    } else {
        16
    }
}

impl Z80 {
    /// Decimal adjust of the accumulator after a BCD add or subtract.
    pub fn daa(&mut self)
        ensures
            *final(self) == daa(*old(self)),
            old(self).wf() ==> final(self).wf(),
    {
        let n = self.n();
        if !n {
            self.daa_high();
            self.daa_low();
        } else {
            self.daa_sub();
        }
        let z = self.af.hi() == 0;
        self.set_z(z);
    }

    fn daa_high(&mut self)
        ensures
            *final(self) == daa_high(*old(self)),
            old(self).wf() ==> final(self).wf(),
    {
        let c = self.c();
        let a = self.af.hi();
        if c || a > 0x99 {
            self.set8(Reg8::A, ((a as u16 + 0x60) % 256) as u8);
            self.set_c(true);
        }
    }

    fn daa_low(&mut self)
        ensures
            *final(self) == daa_low(*old(self)),
            old(self).wf() ==> final(self).wf(),
    {
        let h = self.h();
        let a = self.af.hi();
        if h || a % 16 > 9 {
            self.set8(Reg8::A, ((a as u16 + 0x06) % 256) as u8);
            self.set_h(false);
        }
    }

    fn daa_sub(&mut self)
        ensures
            *final(self) == daa_sub(*old(self)),
            old(self).wf() ==> final(self).wf(),
    {
        let c = self.c();
        let h = self.h();
        let a = self.af.hi();
        if c && h {
            self.set8(Reg8::A, ((a as u16 + 0x9A) % 256) as u8);
            self.set_h(false);
        } else if c {
            self.set8(Reg8::A, ((a as u16 + 0xA0) % 256) as u8);
        } else if h {
            self.set8(Reg8::A, ((a as u16 + 0xFA) % 256) as u8);
            self.set_h(false);
        }
    }

    /// An 8-bit arithmetic or logic operation of the accumulator with `v`.
    pub fn alu(&mut self, op: u8, v: u8)
        ensures
            *final(self) == alu_spec(*old(self), op, v),
            old(self).wf() ==> final(self).wf(),
    {
        let a = self.af.hi();
        if op == 0 {
            self.add(Reg8::A, a, v, false);
        } else if op == 1 {
            self.add(Reg8::A, a, v, true);
        } else if op == 2 {
            self.sub(Reg8::A, a, v, false);
        } else if op == 3 {
            self.sub(Reg8::A, a, v, true);
        } else if op == 4 {
            self.and(Reg8::A, a, v);
        } else if op == 5 {
            self.xor(Reg8::A, a, v);
        } else if op == 6 {
            self.or(Reg8::A, a, v);
        } else {
            self.cp(a, v);
        }
    }

    /// Whether branch condition `cc` (NZ, Z, NC, C) holds.
    pub fn cond_holds(&self, cc: u8) -> (r: bool)
        ensures
            r == cond(*self, cc),
    {
        if cc == 0 {
            !self.z()
        } else if cc == 1 {
            self.z()
        } else if cc == 2 {
            !self.c()
        } else {
            self.c()
        }
    }
}

impl Gameboy {
    /// Charges `k` more clock cycles to this instruction.
    fn charge(&mut self, k: usize)
        requires
            old(self).wf(),
        ensures
            final(self).wf(),
            final(self)@ == old(self)@.charge(k),
    {
        self.cpu.clock.t = add_cycles_exec(self.cpu.clock.t, k);
    }

    /// An 8-bit arithmetic or logic operation of the accumulator with `v`.
    pub fn alu(&mut self, op: u8, v: u8)
        requires
            old(self).wf(),
        ensures
            final(self).wf(),
            final(self)@ == old(self)@.alu(op, v),
    {
        let mut cpu = self.cpu;
        cpu.alu(op, v);
        self.cpu = cpu;
    }

    /// INC of an operand.
    fn inc_operand(&mut self, r: u8)
        requires
            old(self).wf(),
        ensures
            final(self).wf(),
            final(self)@ == old(self)@.inc_operand(r),
    {
        let b = self.get_operand(r);
        let res = b.wrapping_add(1);
        self.set_operand(r, res);
        let mut cpu = self.cpu;
        cpu.set_z(res == 0);
        cpu.set_n(false);
        cpu.set_h(crate::bit_functions::half_carry_add(b, 1));
        self.cpu = cpu;
    }

    /// DEC of an operand.
    fn dec_operand(&mut self, r: u8)
        requires
            old(self).wf(),
        ensures
            final(self).wf(),
            final(self)@ == old(self)@.dec_operand(r),
    {
        let b = self.get_operand(r);
        let res = ((b as u16 + 255) % 256) as u8;
        self.set_operand(r, res);
        let mut cpu = self.cpu;
        cpu.set_z(res == 0);
        cpu.set_n(true);
        cpu.set_h(b % 16 == 0);
        self.cpu = cpu;
    }

    /// The 8-bit loads, arithmetic and increments.
    #[verifier::spinoff_prover]
    #[verifier::rlimit(100)]
    fn exec_op8(&mut self, code: u8)
        requires
            old(self).wf(),
            is_op8(code),
        ensures
            final(self).wf(),
            final(self)@ == old(self)@.op8(code),
    {
        if 0x40 <= code && code <= 0x7F {
            let v = self.get_operand(code % 8);
            self.set_operand((code / 8) % 8, v);
        } else if 0x80 <= code && code <= 0xBF {
            let v = self.get_operand(code % 8);
            self.alu((code / 8) % 8, v);
        } else if code < 0x40 && code % 8 == 4 {
            self.inc_operand(code / 8);
        } else if code < 0x40 && code % 8 == 5 {
            self.dec_operand(code / 8);
        } else if code < 0x40 {
            let n = self.pop_pc();
            self.set_operand(code / 8, n);
        } else {
            let n = self.pop_pc();
            self.alu((code / 8) % 8, n);
        }
    }

    /// The 16-bit loads and arithmetic, PUSH and POP.
    fn exec_op16(&mut self, code: u8)
        requires
            old(self).wf(),
            is_op16(code),
        ensures
            final(self).wf(),
            final(self)@ == old(self)@.op16(code),
    {
        let i = (code / 16) % 4;
        if code < 0x40 && code % 16 == 1 {
            let w = self.pop_pc16();
            self.cpu.set(rr_index(i), w);
        } else if code < 0x40 && code % 16 == 3 {
            let p = rr_index(i);
            let v = self.cpu.get16(p);
            let w = self.cpu.inc_16(v);
            self.cpu.set(p, w);
        } else if code < 0x40 && code % 16 == 0xB {
            let p = rr_index(i);
            let v = self.cpu.get16(p);
            let w = self.cpu.dec_16(v);
            self.cpu.set(p, w);
        } else if code < 0x40 {
            let hl = self.cpu.hl.full();
            let v = self.cpu.get16(rr_index(i));
            self.cpu.add_16(Pair::HL, hl, v);
        } else if code % 16 == 5 {
            let v = self.cpu.get16(qq_index(i));
            self.push_stack(v);
        } else {
            let w = self.pop_stack();
            self.cpu.set(qq_index(i), w);
        }
    }

    /// A relative jump's target from the current program counter.
    fn relative_target(&self, n: u8) -> (r: u16)
        ensures
            r == relative(self.cpu.pc, n),
    {
        let off: u16 = if n < 128 {
            n as u16
        } else {
            (n as u16) + 0xFF00
        };
        self.cpu.pc.wrapping_add(off)
    }

    /// The jumps.
    fn exec_jump(&mut self, code: u8)
        requires
            old(self).wf(),
            is_flow(code),
            is_jump(code),
        ensures
            final(self).wf(),
            final(self)@ == old(self)@.op_jump(code),
    {
        let cc = (code / 8) % 4;
        if code == 0x18 {
            let n = self.pop_pc();
            let t = self.relative_target(n);
            self.cpu.jump(t);
        } else if code < 0x40 {
            let n = self.pop_pc();
            let taken = self.cpu.cond_holds(cc);
            if taken {
                let t = self.relative_target(n);
                self.cpu.jump(t);
                self.charge(4);
            }
        } else if code == 0xC3 {
            let next = self.pop_pc16();
            self.cpu.jump(next);
        } else if code == 0xE9 {
            let next = self.cpu.hl.full();
            self.cpu.jump(next);
        } else {
            let next = self.pop_pc16();
            let taken = self.cpu.cond_holds(cc);
            if taken {
                self.cpu.jump(next);
                self.charge(4);
            }
        }
    }

    /// The calls, returns and restarts.
    fn exec_call(&mut self, code: u8)
        requires
            old(self).wf(),
            is_flow(code),
            !is_jump(code),
        ensures
            final(self).wf(),
            final(self)@ == old(self)@.op_call(code),
    {
        let cc = (code / 8) % 4;
        if code == 0xCD {
            let next = self.pop_pc16();
            self.call(next);
        } else if code == 0xC9 {
            self.ret();
        } else if code == 0xD9 {
            self.ret();
            self.interrupts_enabling = true;
        } else if code % 8 == 7 {
            self.call((code - 0xC7) as u16);
        } else if code % 8 == 4 {
            let next = self.pop_pc16();
            let taken = self.cpu.cond_holds(cc);
            if taken {
                self.call(next);
                self.charge(12);
            }
        } else {
            let taken = self.cpu.cond_holds(cc);
            if taken {
                self.ret();
                self.charge(12);
            }
        }
    }

    /// STOP's speed switch: an armed switch toggles the speed and lets the
    /// CPU run on.
    pub fn check_speed(&mut self)
        requires
            old(self).wf(),
        ensures
            final(self).wf(),
            final(self)@ == (if old(self)@.prepare {
                GbView {
                    prepare: false,
                    speed: if old(self)@.speed == 0 {
                        1
                    } else {
                        0
                    },
                    stopped: false,
                    ..old(self)@
                }
            } else {
                old(self)@
            }),
    {
        if self.memory.speed.prepare {
            self.memory.speed.prepare = false;
            self.memory.speed.current = if self.memory.speed.current == 0 {
                1
            } else {
                0
            };
            self.stopped = false;
        }
    }

    /// The indirect and absolute loads and stores.
    /// The loads and stores through BC, DE and HL.
    #[verifier::spinoff_prover]
    fn exec_mem_pair(&mut self, code: u8)
        requires
            old(self).wf(),
        ensures
            final(self).wf(),
            final(self)@ == old(self)@.op_mem_pair(code),
    {
        let a = self.cpu.af.hi();
        if code == 0x02 {
            self.write(self.cpu.bc.full(), a);
        } else if code == 0x12 {
            self.write(self.cpu.de.full(), a);
        } else if code == 0x0A {
            let v = self.read(self.cpu.bc.full());
            self.cpu.set8(Reg8::A, v);
        } else if code == 0x1A {
            let v = self.read(self.cpu.de.full());
            self.cpu.set8(Reg8::A, v);
        } else if code == 0x22 {
            let hl = self.cpu.hl.full();
            self.write(hl, a);
            self.cpu.hl.set_full(hl.wrapping_add(1));
        } else if code == 0x32 {
            let hl = self.cpu.hl.full();
            self.write(hl, a);
            self.cpu.hl.set_full(hl.wrapping_sub(1));
        } else if code == 0x2A {
            let hl = self.cpu.hl.full();
            let v = self.read(hl);
            self.cpu.set8(Reg8::A, v);
            self.cpu.hl.set_full(hl.wrapping_add(1));
        } else if code == 0x3A {
            let hl = self.cpu.hl.full();
            let v = self.read(hl);
            self.cpu.set8(Reg8::A, v);
            self.cpu.hl.set_full(hl.wrapping_sub(1));
        }
    }

    /// The loads and stores through an immediate address or the high page.
    #[verifier::spinoff_prover]
    fn exec_mem_direct(&mut self, code: u8)
        requires
            old(self).wf(),
        ensures
            final(self).wf(),
            final(self)@ == old(self)@.op_mem_direct(code),
    {
        let a = self.cpu.af.hi();
        if code == 0x08 {
            let address = self.pop_pc16();
            self.write(address, self.cpu.sp.lo());
            self.write(address.wrapping_add(1), self.cpu.sp.hi());
        } else if code == 0xE0 {
            let n = self.pop_pc();
            self.write(0xFF00 + (n as u16), self.cpu.af.hi());
        } else if code == 0xF0 {
            let n = self.pop_pc();
            let v = self.read_upper_ram(0xFF00 + (n as u16));
            self.cpu.set8(Reg8::A, v);
        } else if code == 0xE2 {
            self.write(0xFF00 + (self.cpu.bc.lo() as u16), a);
        } else if code == 0xF2 {
            let v = self.read(0xFF00 + (self.cpu.bc.lo() as u16));
            self.cpu.set8(Reg8::A, v);
        } else if code == 0xEA {
            let address = self.pop_pc16();
            self.write(address, a);
        } else if code == 0xFA {
            let address = self.pop_pc16();
            let v = self.read(address);
            self.cpu.set8(Reg8::A, v);
        }
    }

    /// The indirect and absolute loads and stores.
    fn exec_mem(&mut self, code: u8)
        requires
            old(self).wf(),
            is_mem_misc(code),
        ensures
            final(self).wf(),
            final(self)@ == old(self)@.op_mem(code),
    {
        if code < 0x40 && code != 0x08 {
            self.exec_mem_pair(code);
        } else {
            self.exec_mem_direct(code);
        }
    }

    #[verifier::spinoff_prover]
    #[verifier::rlimit(100)]
    fn exec_reg(&mut self, code: u8)
        requires
            old(self).wf(),
        ensures
            final(self).wf(),
            final(self)@ == old(self)@.op_reg(code),
    {
        let a = self.cpu.af.hi();
        if code == 0x07 {
            let result = (a % 128) * 2 + a / 128;
            self.cpu.set8(Reg8::A, result);
            self.cpu.set_flags(a > 0x7F, false, false, false);
        } else if code == 0x17 {
            let carry: u8 = if self.cpu.c() {
                1
            } else {
                0
            };
            let result = (a % 128) * 2 + carry;
            self.cpu.set8(Reg8::A, result);
            self.cpu.set_flags(a > 0x7F, false, false, false);
        } else if code == 0x0F {
            let result = a / 2 + (a % 2) * 128;
            self.cpu.set8(Reg8::A, result);
            self.cpu.set_flags(result > 0x7F, false, false, false);
        } else if code == 0x1F {
            let carry: u8 = if self.cpu.c() {
                0x80
            } else {
                0
            };
            let result = a / 2 + carry;
            self.cpu.set8(Reg8::A, result);
            self.cpu.set_flags(a % 2 == 1, false, false, false);
        } else if code == 0x10 {
            self.stopped = true;
            if self.cgb_mode {
                self.check_speed();
            }
            self.pop_pc();
        } else if code == 0x27 {
            self.cpu.daa();
        } else if code == 0x2F {
            self.cpu.set8(Reg8::A, 0xFF ^ a);
            self.cpu.set_n(true);
            self.cpu.set_h(true);
        } else if code == 0x37 {
            self.cpu.set_n(false);
            self.cpu.set_h(false);
            self.cpu.set_c(true);
        } else if code == 0x3F {
            let c = self.cpu.c();
            self.cpu.set_n(false);
            self.cpu.set_h(false);
            self.cpu.set_c(!c);
        } else if code == 0x76 {
            self.halted = true;
        } else if code == 0xE8 {
            let n = self.pop_pc();
            let sp = self.cpu.sp.full();
            self.cpu.add_16_signed(Pair::SP, sp, #[verifier::truncate] (n as i8));
        } else if code == 0xF8 {
            let n = self.pop_pc();
            let sp = self.cpu.sp.full();
            self.cpu.add_16_signed(Pair::HL, sp, #[verifier::truncate] (n as i8));
        } else if code == 0xF3 {
            self.interrupts_on = false;
        } else if code == 0xFB {
            self.interrupts_enabling = true;
        } else if code == 0xF9 {
            self.cpu.sp = Register { value: self.cpu.hl.value, mask: self.cpu.hl.mask };
        }
    }

    /// The opcodes that fit no field pattern.
    fn exec_misc(&mut self, code: u8)
        requires
            old(self).wf(),
        ensures
            final(self).wf(),
            final(self)@ == old(self)@.op_misc(code),
    {
        if code == 0x02 || code == 0x12 || code == 0x0A || code == 0x1A || code == 0x22 || code
            == 0x32 || code == 0x2A || code == 0x3A || code == 0x08 || code == 0xE0 || code == 0xF0
            || code == 0xE2 || code == 0xF2 || code == 0xEA || code == 0xFA {
            self.exec_mem(code);
        } else {
            self.exec_reg(code);
        }
    }

    /// Executes main-table opcode `code`, fetching its operands from the
    /// program counter.
    pub fn find_op(&mut self, code: u8)
        requires
            old(self).wf(),
        ensures
            final(self).wf(),
            final(self)@ == old(self)@.op(code),
    {
        if in_op8(code) {
            self.exec_op8(code);
        } else if in_op16(code) {
            self.exec_op16(code);
        } else if in_flow(code) {
            if code < 0x40 || code == 0xC3 || code == 0xE9 || code % 8 == 2 {
                self.exec_jump(code);
            } else {
                self.exec_call(code);
            }
        } else if code == 0xCB {
            let next = self.pop_pc();
            self.charge(cb_opcode_cycles(next));
            self.find_cb_op(next);
        } else {
            self.exec_misc(code);
        }
    }

    /// Fetches and executes one instruction; returns the clock cycles it took.
    pub fn execute_next_opcode(&mut self) -> (r: usize)
        requires
            old(self).wf(),
        ensures
            final(self).wf(),
            (final(self)@, r) == old(self)@.execute(),
    {
        let opcode = self.pop_pc();
        self.cpu.clock.t = opcode_cycles(opcode);
        self.find_op(opcode);
        self.cpu.clock.t
    }
}

} // verus!
