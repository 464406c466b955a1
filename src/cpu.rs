//! The register file and the arithmetic/logic micro-operations with their flag rules.
use vstd::prelude::*;
use crate::bit_functions::{b, half_carry_add, lemma_low_nibble, reset};

verus! {

/// The accumulated machine ("m") and clock ("t") cycle counts.
#[derive(Clone, Copy)]
pub struct Clock {
    pub m: usize,
    pub t: usize,
}

/// A 16-bit register pair that can be read and written as two bytes.
#[derive(Clone, Copy)]
pub struct Register {
    /// The value of the register.
    pub value: u16,
    /// A mask applied on every write when it is not zero (only the AF pair,
    /// whose flag byte keeps its low nibble at zero, has one).
    pub mask: u16,
}

/// The register pairs that an instruction can name as a 16-bit target.
#[derive(PartialEq, Eq, Structural, Clone, Copy, Debug)]
pub enum Pair {
    AF,
    BC,
    DE,
    HL,
    SP,
}

/// The 8-bit registers that an instruction can name as a target.
#[derive(PartialEq, Eq, Structural, Clone, Copy, Debug)]
pub enum Reg8 {
    A,
    B,
    C,
    D,
    E,
    H,
    L,
}

/// Applies a register mask to a word; a zero mask leaves it unchanged.
pub open spec fn apply_mask(v: u16, mask: u16) -> u16 {
    if mask != 0 {
        v & mask
    } else {
        v
    }
}

/// Bit `j` of a word.
pub open spec fn bit16(v: u16, j: u16) -> bool {
    (v >> j) & 1 == 1
}

/// The flag byte with bit `i` (taken modulo 8) set to `on`.
pub open spec fn flag_byte(lo: u8, i: u8, on: bool) -> u8 {
    if on {
        lo | (1u8 << (i % 8))
    } else {
        lo & !(1u8 << (i % 8))
    }
}

impl Register {
    pub open spec fn hi_spec(self) -> u8 {
        (self.value >> 8) as u8
    }

    pub open spec fn lo_spec(self) -> u8 {
        self.value as u8
    }

    /// The register after writing the whole word.
    pub open spec fn with_full(self, word: u16) -> Register {
        Register { value: apply_mask(word, self.mask), mask: self.mask }
    }

    /// The register after writing its low byte.
    pub open spec fn with_lo(self, byte: u8) -> Register {
        self.with_full((byte as u16) | (self.value & 0xFF00))
    }

    /// The register after writing its high byte.
    pub open spec fn with_hi(self, byte: u8) -> Register {
        self.with_full(((byte as u16) << 8) | (self.value & 0xFF))
    }

    /// A mask the register file allows: none, or the flag mask of AF.
    pub open spec fn mask_ok(self) -> bool {
        self.mask == 0 || self.mask == 0xFFF0
    }

    pub fn hi(&self) -> (r: u8)
        ensures
            r == self.hi_spec(),
    {
        (self.value >> 8) as u8
    }

    pub fn lo(&self) -> (r: u8)
        ensures
            r == self.lo_spec(),
    {
        self.value as u8
    }

    pub fn full(&self) -> (r: u16)
        ensures
            r == self.value,
    {
        self.value
    }

    pub fn set_lo(&mut self, byte: u8)
        ensures
            *final(self) == old(self).with_lo(byte),
    {
        self.value = (byte as u16) | (self.value & 0xFF00);
        self.update_mask()
    }

    pub fn set_hi(&mut self, byte: u8)
        ensures
            *final(self) == old(self).with_hi(byte),
    {
        self.value = ((byte as u16) << 8) | (self.value & 0xFF);
        self.update_mask();
    }

    pub fn set_full(&mut self, word: u16)
        ensures
            *final(self) == old(self).with_full(word),
    {
        self.value = word;
        self.update_mask()
    }

    /// Re-applies the mask to the current value.
    pub fn update_mask(&mut self)
        ensures
            *final(self) == old(self).with_full(old(self).value),
    {
        if self.mask != 0 {
            self.value = self.value & self.mask;
        }
    }

    pub fn new() -> (r: Register)
        ensures
            r.value == 0,
            r.mask == 0,
    {
        Register { value: 0, mask: 0 }
    }
}

/// Reading back the bytes of a register after a write, for the masks the
/// register file uses.
pub proof fn lemma_register_bytes(v: u16, mask: u16, x: u8)
    requires
        mask == 0 || mask == 0xFFF0,
    ensures
        (apply_mask(((x as u16) << 8) | (v & 0xFF), mask) >> 8) as u8 == x,
        mask == 0 ==> apply_mask(((x as u16) << 8) | (v & 0xFF), mask) as u8 == v as u8,
        mask == 0 ==> apply_mask((x as u16) | (v & 0xFF00), mask) as u8 == x,
        (apply_mask((x as u16) | (v & 0xFF00), mask) >> 8) as u8 == (v >> 8) as u8,
        mask == 0 ==> apply_mask(v, mask) == v,
{
    assert((((((x as u16) << 8) | (v & 0xFF)) >> 8) as u8 == x) && ((((((x as u16) << 8) | (v
        & 0xFF)) & 0xFFF0) >> 8) as u8 == x) && ((((x as u16) << 8) | (v & 0xFF)) as u8 == v as u8)
        && (((x as u16) | (v & 0xFF00)) as u8 == x) && ((((x as u16) | (v & 0xFF00)) >> 8) as u8
        == (v >> 8) as u8) && ((((((x as u16) | (v & 0xFF00)) & 0xFFF0) >> 8) as u8) == (v >> 8)
        as u8)) by (bit_vector);
}

/// Setting one flag bit through the low byte keeps the high byte and the
/// other flag bits.
pub proof fn lemma_flag_write(v: u16, mask: u16, i: u8, j: u8, on: bool)
    requires
        mask == 0 || mask == 0xFFF0,
        4 <= i < 8,
        4 <= j < 8,
    ensures
        bit16(apply_mask((flag_byte(v as u8, i, on) as u16) | (v & 0xFF00), mask), j as u16) == (
        if i == j {
            on
        } else {
            bit16(v, j as u16)
        }),
        (apply_mask((flag_byte(v as u8, i, on) as u16) | (v & 0xFF00), mask) >> 8) as u8 == (v
            >> 8) as u8,
{
    let ju = j as u16;
    if on {
        assert(mask == 0 || mask == 0xFFF0 ==> (((if mask != 0 { (((v as u8) | (1u8 << i)) as u16
            | (v & 0xFF00)) & mask } else { ((v as u8) | (1u8 << i)) as u16 | (v & 0xFF00) })
            >> ju) & 1 == 1) == (if i == j { true } else { (v >> ju) & 1 == 1 })) by (bit_vector)
            requires
                4 <= i < 8,
                4 <= j < 8,
                ju == j as u16,
        ;
        assert(mask == 0 || mask == 0xFFF0 ==> ((if mask != 0 { (((v as u8) | (1u8 << i)) as u16
            | (v & 0xFF00)) & mask } else { ((v as u8) | (1u8 << i)) as u16 | (v & 0xFF00) })
            >> 8) as u8 == (v >> 8) as u8) by (bit_vector);
    } else {
        assert(mask == 0 || mask == 0xFFF0 ==> (((if mask != 0 { (((v as u8) & !(1u8 << i)) as u16
            | (v & 0xFF00)) & mask } else { ((v as u8) & !(1u8 << i)) as u16 | (v & 0xFF00) })
            >> ju) & 1 == 1) == (if i == j { false } else { (v >> ju) & 1 == 1 })) by (bit_vector)
            requires
                4 <= i < 8,
                4 <= j < 8,
                ju == j as u16,
        ;
        assert(mask == 0 || mask == 0xFFF0 ==> ((if mask != 0 { (((v as u8) & !(1u8 << i)) as u16
            | (v & 0xFF00)) & mask } else { ((v as u8) & !(1u8 << i)) as u16 | (v & 0xFF00) })
            >> 8) as u8 == (v >> 8) as u8) by (bit_vector);
    }
}


/// The processor's registers: four pairs, the stack pointer, the program
/// counter, the divider's cycle accumulator and the clock of the last step.
#[derive(Clone, Copy)]
pub struct Z80 {
    pub af: Register,
    pub bc: Register,
    pub de: Register,
    pub hl: Register,
    pub pc: u16,
    pub sp: Register,
    pub divider: usize,
    pub clock: Clock,
}

impl Z80 {
    /// AF carries the flag mask and no other pair has one.
    pub open spec fn wf(self) -> bool {
        &&& self.af.mask == 0xFFF0
        &&& self.bc.mask == 0
        &&& self.de.mask == 0
        &&& self.hl.mask == 0
        &&& self.sp.mask == 0
    }

    pub open spec fn pair(self, p: Pair) -> Register {
        match p {
            Pair::AF => self.af,
            Pair::BC => self.bc,
            Pair::DE => self.de,
            Pair::HL => self.hl,
            Pair::SP => self.sp,
        }
    }

    pub open spec fn with_pair(self, p: Pair, r: Register) -> Z80 {
        match p {
            Pair::AF => Z80 { af: r, ..self },
            Pair::BC => Z80 { bc: r, ..self },
            Pair::DE => Z80 { de: r, ..self },
            Pair::HL => Z80 { hl: r, ..self },
            Pair::SP => Z80 { sp: r, ..self },
        }
    }

    /// The value of an 8-bit register.
    pub open spec fn reg8(self, r: Reg8) -> u8 {
        match r {
            Reg8::A => self.af.hi_spec(),
            Reg8::B => self.bc.hi_spec(),
            Reg8::C => self.bc.lo_spec(),
            Reg8::D => self.de.hi_spec(),
            Reg8::E => self.de.lo_spec(),
            Reg8::H => self.hl.hi_spec(),
            Reg8::L => self.hl.lo_spec(),
        }
    }

    /// The registers after writing an 8-bit register.
    #[verifier::opaque]
    pub open spec fn put8(self, r: Reg8, v: u8) -> Z80 {
        match r {
            Reg8::A => Z80 { af: self.af.with_hi(v), ..self },
            Reg8::B => Z80 { bc: self.bc.with_hi(v), ..self },
            Reg8::C => Z80 { bc: self.bc.with_lo(v), ..self },
            Reg8::D => Z80 { de: self.de.with_hi(v), ..self },
            Reg8::E => Z80 { de: self.de.with_lo(v), ..self },
            Reg8::H => Z80 { hl: self.hl.with_hi(v), ..self },
            Reg8::L => Z80 { hl: self.hl.with_lo(v), ..self },
        }
    }

    /// Bit `i` of the flag register.
    pub open spec fn flag(self, i: u8) -> bool {
        bit16(self.af.value, i as u16)
    }

    pub open spec fn z_flag(self) -> bool {
        self.flag(7)
    }

    pub open spec fn n_flag(self) -> bool {
        self.flag(6)
    }

    pub open spec fn h_flag(self) -> bool {
        self.flag(5)
    }

    pub open spec fn c_flag(self) -> bool {
        self.flag(4)
    }

    /// The registers after setting flag bit `i` to `on`.
    #[verifier::opaque]
    pub open spec fn with_flag(self, i: u8, on: bool) -> Z80 {
        Z80 { af: self.af.with_lo(flag_byte(self.af.lo_spec(), i, on)), ..self }
    }

    /// The registers after setting all four flags.
    #[verifier::opaque]
    pub open spec fn with_flags(self, c: bool, h: bool, n: bool, z: bool) -> Z80 {
        self.with_flag(7, z).with_flag(6, n).with_flag(5, h).with_flag(4, c)
    }

    /// The incoming carry of an add or subtract: the C flag when it is asked for.
    pub open spec fn carry_in(self, carry: bool) -> int {
        if carry && self.c_flag() {
            1
        } else {
            0
        }
    }

    /// The registers after `add`: the sum modulo 256 in `reg`, then Z, N, H, C.
    #[verifier::opaque]
    pub open spec fn after_add(self, reg: Reg8, a: u8, b: u8, carry: bool) -> Z80 {
        let cin = self.carry_in(carry);
        let r = ((a + b + cin) % 256) as u8;
        self.put8(reg, r).with_flags(a + b + cin > 255, a % 16 + b % 16 + cin > 15, false, r == 0)
    }

    /// The registers after `sub`: `a - b - carry` modulo 256 in `reg`, then the flags.
    #[verifier::opaque]
    pub open spec fn after_sub(self, reg: Reg8, a: u8, b: u8, carry: bool) -> Z80 {
        let cin = self.carry_in(carry);
        let r = ((a - b - cin) % 256) as u8;
        self.put8(reg, r).with_flags(a - b - cin < 0, a % 16 - b % 16 - cin < 0, true, r == 0)
    }

    /// The registers after a bitwise operation with result `r`: `and` sets H.
    #[verifier::opaque]
    pub open spec fn after_logic(self, reg: Reg8, r: u8, h: bool) -> Z80 {
        self.put8(reg, r).with_flags(false, h, false, r == 0)
    }

    /// The registers after `inc` of `byte` into `reg`: C is kept.
    #[verifier::opaque]
    pub open spec fn after_inc(self, reg: Reg8, byte: u8) -> Z80 {
        let r = ((byte + 1) % 256) as u8;
        self.put8(reg, r).with_flag(7, r == 0).with_flag(6, false).with_flag(5, byte % 16 == 15)
    }

    /// The registers after `dec` of `byte` into `reg`: C is kept.
    #[verifier::opaque]
    pub open spec fn after_dec(self, reg: Reg8, byte: u8) -> Z80 {
        let r = ((byte - 1) % 256) as u8;
        self.put8(reg, r).with_flag(7, r == 0).with_flag(6, true).with_flag(5, byte % 16 == 0)
    }

    /// The registers after the 16-bit add into pair `p`: Z is kept.
    #[verifier::opaque]
    pub open spec fn after_add_16(self, p: Pair, a: u16, b: u16) -> Z80 {
        let r = ((a + b) % 65536) as u16;
        let s = self.with_pair(p, self.pair(p).with_full(r));
        s.with_flag(6, false).with_flag(5, a % 4096 + b % 4096 > 4095).with_flag(4, a + b > 65535)
    }

    /// The registers after adding a signed byte to a word into pair `p`.
    #[verifier::opaque]
    pub open spec fn after_add_16_signed(self, p: Pair, a: u16, b: i8) -> Z80 {
        let r = ((a + b) % 65536) as u16;
        let tmp = a ^ (#[verifier::truncate] (b as u16)) ^ r;
        let s = self.with_pair(p, self.pair(p).with_full(r));
        s.with_flags(tmp & 0x100 == 0x100, tmp & 0x10 == 0x10, false, false)
    }

    pub fn init(&mut self, cgb: bool)
        ensures
            final(self).wf(),
            final(self).af.value == (if cgb { 0x1180u16 } else { 0x01B0u16 }),
            final(self).bc.value == 0,
            final(self).de.value == 0xFF56,
            final(self).hl.value == 0x000D,
            final(self).sp.value == 0xFFFE,
            final(self).pc == 0x100,
            final(self).divider == old(self).divider,
            final(self).clock == old(self).clock,
    {
        self.af.mask = 0xFFF0;
        self.af.set_full(if cgb { 0x1180 } else { 0x1B0 });
        self.bc.mask = 0;
        self.de.mask = 0;
        self.hl.mask = 0;
        self.sp.mask = 0;
        self.bc.set_full(0x0000);
        self.de.set_full(0xFF56);
        self.hl.set_full(0x000D);
        self.pc = 0x100;
        self.sp.set_full(0xFFFE);
        assert(0x1180u16 & 0xFFF0 == 0x1180u16 && 0x01B0u16 & 0xFFF0 == 0x01B0u16) by (bit_vector);
    }

    pub fn set_flag(&mut self, index: u8, on: bool)
        ensures
            *final(self) == old(self).with_flag(index, on),
            old(self).wf() ==> final(self).wf(),
    {
        reveal(Z80::with_flag);
        if on {
            let val = crate::bit_functions::set(self.af.lo(), index);
            self.af.set_lo(val)
        } else {
            let val = reset(self.af.lo(), index);
            self.af.set_lo(val);
        }
    }

    /// Sets the Z flag.
    pub fn set_z(&mut self, on: bool)
        ensures
            *final(self) == old(self).with_flag(7, on),
            old(self).wf() ==> final(self).wf(),
    {
        self.set_flag(7, on)
    }

    /// Sets the N flag.
    pub fn set_n(&mut self, on: bool)
        ensures
            *final(self) == old(self).with_flag(6, on),
            old(self).wf() ==> final(self).wf(),
    {
        self.set_flag(6, on)
    }

    /// Sets the H flag.
    pub fn set_h(&mut self, on: bool)
        ensures
            *final(self) == old(self).with_flag(5, on),
            old(self).wf() ==> final(self).wf(),
    {
        self.set_flag(5, on)
    }

    /// Sets the C flag.
    pub fn set_c(&mut self, on: bool)
        ensures
            *final(self) == old(self).with_flag(4, on),
            old(self).wf() ==> final(self).wf(),
    {
        self.set_flag(4, on)
    }

    pub fn set_flags(&mut self, c: bool, h: bool, n: bool, z: bool)
        ensures
            *final(self) == old(self).with_flags(c, h, n, z),
            old(self).wf() ==> final(self).wf(),
    {
        reveal(Z80::with_flags);
        self.set_z(z);
        self.set_n(n);
        self.set_h(h);
        self.set_c(c);
    }

    /// The Z flag.
    pub fn z(&self) -> (r: bool)
        ensures
            r == self.z_flag(),
    {
        (self.af.full() >> 7) & 1 == 1
    }

    /// The N flag.
    pub fn n(&self) -> (r: bool)
        ensures
            r == self.n_flag(),
    {
        (self.af.full() >> 6) & 1 == 1
    }

    /// The H flag.
    pub fn h(&self) -> (r: bool)
        ensures
            r == self.h_flag(),
    {
        (self.af.full() >> 5) & 1 == 1
    }

    /// The C flag.
    pub fn c(&self) -> (r: bool)
        ensures
            r == self.c_flag(),
    {
        (self.af.full() >> 4) & 1 == 1
    }

    /// Reads an 8-bit register.
    pub fn get8(&self, reg: Reg8) -> (r: u8)
        ensures
            r == self.reg8(reg),
    {
        match reg {
            Reg8::A => self.af.hi(),
            Reg8::B => self.bc.hi(),
            Reg8::C => self.bc.lo(),
            Reg8::D => self.de.hi(),
            Reg8::E => self.de.lo(),
            Reg8::H => self.hl.hi(),
            Reg8::L => self.hl.lo(),
        }
    }

    /// Writes an 8-bit register.
    pub fn set8(&mut self, reg: Reg8, val: u8)
        ensures
            *final(self) == old(self).put8(reg, val),
            old(self).wf() ==> final(self).wf(),
    {
        reveal(Z80::put8);
        match reg {
            Reg8::A => self.af.set_hi(val),
            Reg8::B => self.bc.set_hi(val),
            Reg8::C => self.bc.set_lo(val),
            Reg8::D => self.de.set_hi(val),
            Reg8::E => self.de.set_lo(val),
            Reg8::H => self.hl.set_hi(val),
            Reg8::L => self.hl.set_lo(val),
        }
    }

    /// Reads a register pair.
    pub fn get16(&self, pair: Pair) -> (r: u16)
        ensures
            r == self.pair(pair).value,
    {
        match pair {
            Pair::AF => self.af.full(),
            Pair::BC => self.bc.full(),
            Pair::DE => self.de.full(),
            Pair::HL => self.hl.full(),
            Pair::SP => self.sp.full(),
        }
    }

    /// Writes the high byte of a pair.
    pub fn set_hi(&mut self, reg: Pair, val: u8)
        ensures
            *final(self) == old(self).with_pair(reg, old(self).pair(reg).with_hi(val)),
            old(self).wf() ==> final(self).wf(),
    {
        match reg {
            Pair::AF => self.af.set_hi(val),
            Pair::BC => self.bc.set_hi(val),
            Pair::DE => self.de.set_hi(val),
            Pair::HL => self.hl.set_hi(val),
            Pair::SP => self.sp.set_hi(val),
        }
    }

    /// Writes the low byte of a pair.
    pub fn set_lo(&mut self, reg: Pair, val: u8)
        ensures
            *final(self) == old(self).with_pair(reg, old(self).pair(reg).with_lo(val)),
            old(self).wf() ==> final(self).wf(),
    {
        match reg {
            Pair::AF => self.af.set_lo(val),
            Pair::BC => self.bc.set_lo(val),
            Pair::DE => self.de.set_lo(val),
            Pair::HL => self.hl.set_lo(val),
            Pair::SP => self.sp.set_lo(val),
        }
    }

    /// Writes a whole pair.
    pub fn set(&mut self, reg: Pair, val: u16)
        ensures
            *final(self) == old(self).with_pair(reg, old(self).pair(reg).with_full(val)),
            old(self).wf() ==> final(self).wf(),
    {
        match reg {
            Pair::AF => self.af.set_full(val),
            Pair::BC => self.bc.set_full(val),
            Pair::DE => self.de.set_full(val),
            Pair::HL => self.hl.set_full(val),
            Pair::SP => self.sp.set_full(val),
        }
    }

    /// Adds `val1`, `val2` and, when `carry` is asked for, the C flag; the
    /// result goes to `reg`.
    pub fn add(&mut self, reg: Reg8, val1: u8, val2: u8, carry: bool)
        ensures
            *final(self) == old(self).after_add(reg, val1, val2, carry),
            old(self).wf() ==> final(self).wf(),
    {
        reveal(Z80::after_add);
        reveal(Z80::with_flags);
        let carry_bit = b(self.c() && carry);
        let result: u16 = (val1 as u16) + (val2 as u16) + (carry_bit as u16);
        let result_u8 = (result % 256) as u8;
        self.set8(reg, result_u8);
        proof {
            lemma_low_nibble(val1);
            lemma_low_nibble(val2);
        }
        let h = (val2 & 0xF) + (val1 & 0xF) + carry_bit > 0xF;
        self.set_flags(result > 0xFF, h, false, result_u8 == 0);
    }

    /// Subtracts `val2` and, when `carry` is asked for, the C flag from
    /// `val1`; the result goes to `reg`.
    pub fn sub(&mut self, reg: Reg8, val1: u8, val2: u8, carry: bool)
        ensures
            *final(self) == old(self).after_sub(reg, val1, val2, carry),
            old(self).wf() ==> final(self).wf(),
    {
        reveal(Z80::after_sub);
        reveal(Z80::with_flags);
        let carry_bit = b(self.c() && carry) as i16;
        let result: i16 = (val1 as i16) - (val2 as i16) - carry_bit;
        let result_u8 = if result < 0 {
            (result + 256) as u8
        } else {
            result as u8
        };
        self.set8(reg, result_u8);
        proof {
            lemma_low_nibble(val1);
            lemma_low_nibble(val2);
        }
        let h = ((val1 & 0x0F) as i16) - ((val2 & 0xF) as i16) - carry_bit < 0;
        self.set_flags(result < 0, h, true, result_u8 == 0);
    }

    /// Bitwise and into `reg`; sets H.
    pub fn and(&mut self, reg: Reg8, val1: u8, val2: u8)
        ensures
            *final(self) == old(self).after_logic(reg, val1 & val2, true),
            old(self).wf() ==> final(self).wf(),
    {
        reveal(Z80::after_logic);
        reveal(Z80::with_flags);
        let result = val1 & val2;
        self.set8(reg, result);
        self.set_flags(false, true, false, result == 0);
    }

    /// Bitwise or into `reg`.
    pub fn or(&mut self, reg: Reg8, val1: u8, val2: u8)
        ensures
            *final(self) == old(self).after_logic(reg, val1 | val2, false),
            old(self).wf() ==> final(self).wf(),
    {
        reveal(Z80::after_logic);
        reveal(Z80::with_flags);
        let result = val1 | val2;
        self.set8(reg, result);
        self.set_flags(false, false, false, result == 0);
    }

    /// Bitwise exclusive or into `reg`.
    pub fn xor(&mut self, reg: Reg8, val1: u8, val2: u8)
        ensures
            *final(self) == old(self).after_logic(reg, val1 ^ val2, false),
            old(self).wf() ==> final(self).wf(),
    {
        reveal(Z80::after_logic);
        reveal(Z80::with_flags);
        let result = val1 ^ val2;
        self.set8(reg, result);
        self.set_flags(false, false, false, result == 0);
    }

    /// Sets the flags of `val1 - val2` and discards the difference.
    pub fn cp(&mut self, val1: u8, val2: u8)
        ensures
            *final(self) == old(self).with_flags(val1 < val2, val1 % 16 < val2 % 16, true, val1 == val2),
            old(self).wf() ==> final(self).wf(),
    {
        reveal(Z80::with_flags);
        proof {
            lemma_low_nibble(val1);
            lemma_low_nibble(val2);
        }
        self.set_flags(val2 > val1, (val2 & 0x0F) > (val1 & 0x0F), true, val1 == val2);
    }

    /// Increments `byte` into `reg`; the C flag is left as it was.
    pub fn inc(&mut self, reg: Reg8, byte: u8)
        ensures
            *final(self) == old(self).after_inc(reg, byte),
            old(self).wf() ==> final(self).wf(),
    {
        reveal(Z80::after_inc);
        let result = byte.wrapping_add(1);
        self.set8(reg, result);
        self.set_z(result == 0);
        self.set_n(false);
        self.set_h(half_carry_add(byte, 1));
    }

    /// Decrements `byte` into `reg`; the C flag is left as it was.
    pub fn dec(&mut self, reg: Reg8, byte: u8)
        ensures
            *final(self) == old(self).after_dec(reg, byte),
            old(self).wf() ==> final(self).wf(),
    {
        reveal(Z80::after_dec);
        let result = byte.wrapping_sub(1);
        self.set8(reg, result);
        self.set_z(result == 0);
        self.set_n(true);
        proof {
            lemma_low_nibble(byte);
        }
        self.set_h(byte & 0x0f == 0);
    }

    /// Adds two words into pair `reg`; the Z flag is left as it was.
    pub fn add_16(&mut self, reg: Pair, val1: u16, val2: u16)
        ensures
            *final(self) == old(self).after_add_16(reg, val1, val2),
            old(self).wf() ==> final(self).wf(),
    {
        reveal(Z80::after_add_16);
        let result: u32 = (val1 as u32) + (val2 as u32);
        self.set(reg, (result % 65536) as u16);
        self.set_n(false);
        proof {
            assert(val1 & 0xFFF == val1 % 4096 && val2 & 0xFFF == val2 % 4096) by (bit_vector);
        }
        self.set_h((val1 & 0xFFF) + (val2 & 0xFFF) > 0xFFF);
        self.set_c(result > 0xFFFF);
    }

    /// Adds a signed byte to a word into pair `reg`; Z and N are cleared and
    /// H and C come from bits 4 and 8 of `val1 ^ val2 ^ result`.
    pub fn add_16_signed(&mut self, reg: Pair, val1: u16, val2: i8)
        ensures
            *final(self) == old(self).after_add_16_signed(reg, val1, val2),
            old(self).wf() ==> final(self).wf(),
    {
        reveal(Z80::after_add_16_signed);
        reveal(Z80::with_flags);
        let sum: i32 = (val1 as i32) + (val2 as i32);
        let result: u16 = if sum < 0 {
            (sum + 65536) as u16
        } else {
            (sum % 65536) as u16
        };
        self.set(reg, result);
        let tmp = val1 ^ (#[verifier::truncate] (val2 as u16)) ^ result;
        self.set_flags((tmp & 0x100) == 0x100, (tmp & 0x10) == 0x10, false, false);
    }

    pub fn inc_16(&self, byte: u16) -> (r: u16)
        ensures
            r == (byte + 1) % 65536,
    {
        byte.wrapping_add(1)
    }

    pub fn dec_16(&self, byte: u16) -> (r: u16)
        ensures
            r == (byte - 1) % 65536,
    {
        byte.wrapping_sub(1)
    }

    pub fn jump(&mut self, next: u16)
        ensures
            *final(self) == (Z80 { pc: next, ..*old(self) }),
    {
        self.pc = next;
    }

    pub fn new() -> (r: Z80)
        ensures
            r.wf(),
            r.af.value == 0 && r.bc.value == 0 && r.de.value == 0 && r.hl.value == 0,
            r.sp.value == 0,
            r.pc == 0,
            r.divider == 0,
            r.clock.m == 0 && r.clock.t == 0,
    {
        Z80 {
            af: Register { value: 0, mask: 0xFFF0 },
            bc: Register::new(),
            de: Register::new(),
            hl: Register::new(),
            pc: 0,
            sp: Register::new(),
            divider: 0,
            clock: Clock { m: 0, t: 0 },
        }
    }
}


/// Writing the high byte of AF keeps its flag bits.
pub proof fn lemma_hi_write_keeps_flags(v: u16, x: u8, j: u8)
    requires
        4 <= j < 8,
    ensures
        bit16(apply_mask(((x as u16) << 8) | (v & 0xFF), 0xFFF0), j as u16) == bit16(v, j as u16),
{
    let ju = j as u16;
    assert(((((((x as u16) << 8) | (v & 0xFF)) & 0xFFF0) >> ju) & 1 == 1) == ((v >> ju) & 1 == 1))
        by (bit_vector)
        requires
            4 <= ju < 8,
    ;
}

/// Setting flag bit `i` reads back as `on`, and keeps the other flag bits,
/// the accumulator and every other register.
pub proof fn lemma_with_flag(s: Z80, i: u8, on: bool)
    requires
        s.af.mask_ok(),
        4 <= i < 8,
    ensures
        s.with_flag(i, on).flag(i) == on,
        forall|j: u8| 4 <= j < 8 && j != i ==> #[trigger] s.with_flag(i, on).flag(j) == s.flag(j),
        s.with_flag(i, on).af.hi_spec() == s.af.hi_spec(),
        s.with_flag(i, on).af.mask == s.af.mask,
        s.with_flag(i, on).wf() == s.wf(),
{
    reveal(Z80::with_flag);
    lemma_flag_write(s.af.value, s.af.mask, i, i, on);
    assert forall|j: u8| 4 <= j < 8 && j != i implies #[trigger] s.with_flag(i, on).flag(j) == s.flag(
        j,
    ) by {
        lemma_flag_write(s.af.value, s.af.mask, i, j, on);
    }
}

/// The four flags written by `with_flags` read back, and the accumulator is kept.
pub proof fn lemma_with_flags(s: Z80, c: bool, h: bool, n: bool, z: bool)
    requires
        s.af.mask_ok(),
    ensures
        s.with_flags(c, h, n, z).z_flag() == z,
        s.with_flags(c, h, n, z).n_flag() == n,
        s.with_flags(c, h, n, z).h_flag() == h,
        s.with_flags(c, h, n, z).c_flag() == c,
        s.with_flags(c, h, n, z).af.hi_spec() == s.af.hi_spec(),
{
    reveal(Z80::with_flags);
    let s1 = s.with_flag(7, z);
    let s2 = s1.with_flag(6, n);
    let s3 = s2.with_flag(5, h);
    lemma_with_flag(s, 7, z);
    lemma_with_flag(s1, 6, n);
    lemma_with_flag(s2, 5, h);
    lemma_with_flag(s3, 4, c);
}

/// Writing an 8-bit register reads back, keeps the flags, and keeps the
/// well-formedness of the register file.
pub proof fn lemma_put8(s: Z80, reg: Reg8, v: u8)
    requires
        s.wf(),
    ensures
        s.put8(reg, v).reg8(reg) == v,
        s.put8(reg, v).wf(),
        forall|j: u8| 4 <= j < 8 ==> #[trigger] s.put8(reg, v).flag(j) == s.flag(j),
{
    reveal(Z80::put8);
    match reg {
        Reg8::A => {
            lemma_register_bytes(s.af.value, s.af.mask, v);
            assert forall|j: u8| 4 <= j < 8 implies #[trigger] s.put8(reg, v).flag(j) == s.flag(j) by {
                lemma_hi_write_keeps_flags(s.af.value, v, j);
            }
        },
        Reg8::B => lemma_register_bytes(s.bc.value, s.bc.mask, v),
        Reg8::C => lemma_register_bytes(s.bc.value, s.bc.mask, v),
        Reg8::D => lemma_register_bytes(s.de.value, s.de.mask, v),
        Reg8::E => lemma_register_bytes(s.de.value, s.de.mask, v),
        Reg8::H => lemma_register_bytes(s.hl.value, s.hl.mask, v),
        Reg8::L => lemma_register_bytes(s.hl.value, s.hl.mask, v),
    }
}

/// The flags of an 8-bit add without carry-in: Z exactly when the result is
/// zero, C exactly when the sum exceeds 255, H exactly when the low nibbles
/// carry; N is clear and the target holds the sum modulo 256.
pub proof fn lemma_add_flags(s: Z80, reg: Reg8, a: u8, b: u8)
    requires
        s.wf(),
    ensures
        s.after_add(reg, a, b, false).z_flag() == ((a + b) % 256 == 0),
        s.after_add(reg, a, b, false).c_flag() == (a + b > 255),
        s.after_add(reg, a, b, false).h_flag() == ((a & 0xF) + (b & 0xF) > 0xF),
        !s.after_add(reg, a, b, false).n_flag(),
        s.after_add(reg, a, b, false).reg8(reg) == (a + b) % 256,
{
    reveal(Z80::after_add);
    reveal(Z80::with_flags);
    let r = ((a + b) % 256) as u8;
    lemma_put8(s, reg, r);
    lemma_with_flags(s.put8(reg, r), a + b > 255, a % 16 + b % 16 > 15, false, r == 0);
    lemma_low_nibble(a);
    lemma_low_nibble(b);
    let t = s.put8(reg, r);
    reveal(Z80::with_flag);
    if reg == Reg8::A {
    } else {
        assert(t.with_flags(a + b > 255, a % 16 + b % 16 > 15, false, r == 0).reg8(reg) == t.reg8(reg));
    }
}

/// Subtracting `b` and then adding `b` back, both without carry-in, gives
/// back the starting byte.
pub proof fn lemma_sub_then_add(s: Z80, reg: Reg8, a: u8, b: u8)
    requires
        s.wf(),
    ensures
        ({
            let t = s.after_sub(reg, a, b, false);
            t.after_add(reg, t.reg8(reg), b, false).reg8(reg) == a
        }),
{
    reveal(Z80::after_sub);
    reveal(Z80::with_flags);
    let r = ((a - b) % 256) as u8;
    lemma_put8(s, reg, r);
    let t0 = s.put8(reg, r);
    lemma_with_flags(t0, a - b < 0, a % 16 - b % 16 < 0, true, r == 0);
    let t = s.after_sub(reg, a, b, false);
    reveal(Z80::with_flag);
    if reg != Reg8::A {
        assert(t.reg8(reg) == t0.reg8(reg));
    }
    assert(t.wf());
    lemma_add_flags(t, reg, r, b);
    assert((r + b) % 256 == a);
}

/// Decrementing a register leaves the C flag as it was.
pub proof fn lemma_dec_keeps_carry(s: Z80, reg: Reg8, byte: u8)
    requires
        s.wf(),
    ensures
        s.after_dec(reg, byte).c_flag() == s.c_flag(),
{
    reveal(Z80::after_dec);
    let r = ((byte - 1) % 256) as u8;
    lemma_put8(s, reg, r);
    let t = s.put8(reg, r);
    lemma_with_flag(t, 7, r == 0);
    lemma_with_flag(t.with_flag(7, r == 0), 6, true);
    lemma_with_flag(t.with_flag(7, r == 0).with_flag(6, true), 5, byte % 16 == 0);
}

} // verus!
