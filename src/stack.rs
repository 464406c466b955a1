//! Fetching from the program counter and the stack operations, through the bus.
use vstd::prelude::*;
use crate::bus::add16;
use crate::cpu::Z80;
use crate::gameboy::{Gameboy, GbView};

verus! {

impl GbView {
    /// The byte at the program counter, with the counter moved past it.
    pub open spec fn fetch(self) -> (GbView, u8) {
        (GbView { cpu: Z80 { pc: add16(self.cpu.pc, 1), ..self.cpu }, ..self }, self.read(self.cpu.pc))
    }

    /// The little-endian word at the program counter, with the counter moved past it.
    pub open spec fn fetch16(self) -> (GbView, u16) {
        let (s1, lo) = self.fetch();
        let (s2, hi) = s1.fetch();
        (s2, (hi as u16 * 256 + lo as u16) as u16)
    }

    /// The machine with the stack pointer set to `sp`.
    pub open spec fn with_sp(self, sp: u16) -> GbView {
        GbView { cpu: Z80 { sp: self.cpu.sp.with_full(sp), ..self.cpu }, ..self }
    }

    /// The machine after pushing `w`: high byte at SP-1, low byte at SP-2.
    pub open spec fn push(self, w: u16) -> GbView {
        let sp = self.cpu.sp.value;
        let s1 = self.write(add16(sp, -1), (w / 256) as u8);
        let s2 = s1.write(add16(sp, -2), (w % 256) as u8);
        s2.with_sp(add16(sp, -2))
    }

    /// The word on top of the stack, with the stack pointer moved past it.
    pub open spec fn pop(self) -> (GbView, u16) {
        let sp = self.cpu.sp.value;
        let lo = self.read(sp);
        let hi = self.read(add16(sp, 1));
        (self.with_sp(add16(sp, 2)), (hi as u16 * 256 + lo as u16) as u16)
    }

    /// The machine after a call: the return address pushed and `next` jumped to.
    pub open spec fn call(self, next: u16) -> GbView {
        let s = self.push(self.cpu.pc);
        GbView { cpu: Z80 { pc: next, ..s.cpu }, ..s }
    }

    /// The machine after a return: the program counter popped.
    pub open spec fn ret(self) -> GbView {
        let (s, w) = self.pop();
        GbView { cpu: Z80 { pc: w, ..s.cpu }, ..s }
    }
}

impl Gameboy {
    /// Reads the byte at the program counter and moves the counter past it.
    pub fn pop_pc(&mut self) -> (r: u8)
        requires
            old(self).wf(),
        ensures
            final(self).wf(),
            (final(self)@, r) == old(self)@.fetch(),
    {
        let opcode = self.read(self.cpu.pc);
        self.cpu.pc = self.cpu.pc.wrapping_add(1);
        opcode
    }

    /// Reads the little-endian word at the program counter.
    pub fn pop_pc16(&mut self) -> (r: u16)
        requires
            old(self).wf(),
        ensures
            final(self).wf(),
            (final(self)@, r) == old(self)@.fetch16(),
    {
        let byte_1 = self.pop_pc() as u16;
        let byte_2 = self.pop_pc() as u16;
        byte_2 * 256 + byte_1
    }

    /// Pops a word from the stack.
    pub fn pop_stack(&mut self) -> (r: u16)
        requires
            old(self).wf(),
        ensures
            final(self).wf(),
            (final(self)@, r) == old(self)@.pop(),
    {
        let sp = self.cpu.sp.full();
        let lo = self.read(sp) as u16;
        let hi = self.read(sp.wrapping_add(1)) as u16;
        self.cpu.sp.set_full(sp.wrapping_add(2));
        hi * 256 + lo
    }

    /// Pushes a word on the stack.
    pub fn push_stack(&mut self, addr: u16)
        requires
            old(self).wf(),
        ensures
            final(self).wf(),
            final(self)@ == old(self)@.push(addr),
    {
        let sp = self.cpu.sp.full();
        self.write(sp.wrapping_sub(1), (addr / 256) as u8);
        self.write(sp.wrapping_sub(2), (addr % 256) as u8);
        self.cpu.sp.set_full(sp.wrapping_sub(2));
    }

    /// Pushes the program counter and jumps to `next`.
    pub fn call(&mut self, next: u16)
        requires
            old(self).wf(),
        ensures
            final(self).wf(),
            final(self)@ == old(self)@.call(next),
    {
        self.push_stack(self.cpu.pc);
        self.cpu.pc = next;
    }

    /// Pops the program counter.
    pub fn ret(&mut self)
        requires
            old(self).wf(),
        ensures
            final(self).wf(),
            final(self)@ == old(self)@.ret(),
    {
        self.cpu.pc = self.pop_stack();
    }
}

} // verus!
