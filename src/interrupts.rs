//! The divider, the selectable timer, and the interrupt controller.
use vstd::prelude::*;
use crate::bit_functions::bit_is_set;
use crate::bus::add16;
use crate::cpu::Z80;
use crate::gameboy::{Gameboy, GbView};
use crate::memory::TAC;

verus! {

/// `a + b`, or the largest value when the sum does not fit.
pub open spec fn sat_add(a: usize, b: usize) -> usize {
    if a + b > usize::MAX {
        usize::MAX
    } else {
        (a + b) as usize
    }
}

/// `a + b`, or the largest value when the sum does not fit.
pub fn sat_add_exec(a: usize, b: usize) -> (r: usize)
    ensures
        r == sat_add(a, b),
{
    if a <= usize::MAX - b {
        a + b
    } else {
        usize::MAX
    }
}

impl GbView {
    /// The machine with bit `n` of the interrupt request register set; the
    /// register's three unused bits are stored set, as they read.
    pub open spec fn request(self, n: u8) -> GbView {
        GbView { ram: self.ram.update(0x0F, (self.ram[0x0F] | 0xE0) | (1u8 << (n % 8))), ..self }
    }

    /// The machine after the divider counts `cycles` more cycles.
    pub open spec fn divider(self, cycles: usize) -> GbView {
        let d = crate::ops::add_cycles(self.cpu.divider, cycles);
        if d >= 255 {
            GbView {
                cpu: Z80 { divider: (d - 255) as usize, ..self.cpu },
                ram: self.ram.update(0x04, ((self.ram[0x04] + 1) % 256) as u8),
                ..self
            }
        } else {
            GbView { cpu: Z80 { divider: d as usize, ..self.cpu }, ..self }
        }
    }

    /// Whether the timer control register enables the selectable timer.
    pub open spec fn timer_enabled(self) -> bool {
        bit_is_set(self.ram[0x07], 2)
    }

    /// The cycles per timer increment that the frequency field selects.
    pub open spec fn freq_count(self) -> usize {
        let f = self.ram[0x07] & 0x3;
        if f == 0 {
            1024
        } else if f == 1 {
            16
        } else if f == 2 {
            64
        } else {
            256
        }
    }

    /// One timer period: TIMA counts up, or on overflow reloads from TMA and
    /// requests the timer interrupt.
    pub open spec fn timer_step(self) -> GbView {
        let s = GbView { timer: (self.timer - self.freq_count()) as usize, ..self };
        if self.ram[0x05] == 0xFF {
            GbView { ram: s.ram.update(0x05, s.ram[0x06]), ..s }.request(2)
        } else {
            GbView { ram: s.ram.update(0x05, (self.ram[0x05] + 1) as u8), ..s }
        }
    }

    /// The machine after every whole timer period in the accumulated cycles has run.
    pub open spec fn drain(self) -> GbView
        decreases self.timer,
    {
        if self.timer < self.freq_count() {
            self
        } else {
            self.timer_step().drain()
        }
    }

    /// The machine after the divider and the timer count `cycles` cycles.
    pub open spec fn update_timers(self, cycles: usize) -> GbView {
        let s = self.divider(cycles);
        if s.timer_enabled() {
            GbView { timer: sat_add(s.timer, cycles), ..s }.drain()
        } else {
            s
        }
    }

    /// Whether interrupt `i` is both requested and enabled.
    pub open spec fn pending(self, i: u8) -> bool {
        bit_is_set(self.ram[0x0F] | 0xE0, i) && bit_is_set(self.ram[0xFF], i)
    }

    /// The lowest interrupt that is requested and enabled, or 5 if none is.
    pub open spec fn first_pending(self) -> u8 {
        if self.pending(0) {
            0
        } else if self.pending(1) {
            1
        } else if self.pending(2) {
            2
        } else if self.pending(3) {
            3
        } else if self.pending(4) {
            4
        } else {
            5
        }
    }

    /// The machine after interrupt `i` is taken: a halted CPU with the master
    /// enable clear only wakes; otherwise the enable and the request bit are
    /// cleared, the program counter is pushed, and the vector is jumped to.
    pub open spec fn service(self, i: u8) -> GbView {
        if !self.interrupts_on && (self.halted || self.stopped) {
            GbView { halted: false, stopped: false, ..self }
        } else {
            let s = GbView { interrupts_on: false, halted: false, stopped: false, ..self };
            let s2 = s.write(0xFF0F, (s.ram[0x0F] | 0xE0) & !(1u8 << (i % 8)));
            let s3 = s2.push(s2.cpu.pc);
            GbView {
                cpu: Z80 {
                    pc: if i < 5 {
                        (0x40 + 8 * i) as u16
                    } else {
                        0
                    },
                    ..s3.cpu
                },
                ..s3
            }
        }
    }

    /// One pass of interrupt processing, with the extra cycles it costs.
    pub open spec fn interrupts(self) -> (GbView, usize) {
        if self.interrupts_enabling {
            (GbView { interrupts_on: true, interrupts_enabling: false, ..self }, 0)
        } else if !self.interrupts_on && !self.halted && !self.stopped {
            (self, 0)
        } else {
            let i = self.first_pending();
            if i >= 5 {
                (self, 0)
            } else if !self.interrupts_on {
                (self.service(i), 0)
            } else {
                (self.service(i), 20)
            }
        }
    }
}

/// With the timer enabled at 16 cycles per count and no cycles pending, 16
/// more cycles count TIMA up by exactly one; from 0xFF, they reload it from
/// TMA and request the timer interrupt.
pub proof fn lemma_timer_period(g: GbView)
    requires
        g.ram.len() == 0x100,
        g.timer_enabled(),
        g.ram[0x07] & 0x3 == 1,
        g.timer == 0,
    ensures
        g.ram[0x05] < 0xFF ==> g.update_timers(16).ram[0x05] == g.ram[0x05] + 1,
        g.ram[0x05] == 0xFF ==> g.update_timers(16).ram[0x05] == g.ram[0x06],
        g.ram[0x05] == 0xFF ==> bit_is_set(g.update_timers(16).ram[0x0F], 2),
        g.update_timers(16).timer == 0,
{
    let s = g.divider(16);
    assert(s.ram[0x07] == g.ram[0x07]);
    assert(s.ram[0x05] == g.ram[0x05]);
    assert(s.ram[0x06] == g.ram[0x06]);
    let t = GbView { timer: sat_add(s.timer, 16), ..s };
    assert(t.freq_count() == 16);
    let u = t.timer_step();
    assert(u.timer == 0);
    assert(u.drain() == u);
    let x = s.ram[0x0F];
    assert((((x | 0xE0) | (1u8 << (2u8 % 8))) >> 2u8) & 1 == 1) by (bit_vector);
}

/// A write below the I/O registers leaves the I/O register file as it was.
pub proof fn lemma_store_keeps_io(g: GbView, addr: u16, value: u8)
    ensures
        g.store(addr, value).ram == g.ram,
        g.store(addr, value).cpu == g.cpu,
        g.store(addr, value).interrupts_on == g.interrupts_on,
{
    reveal(GbView::store);
}

/// A copy leaves the I/O register file as it was.
pub proof fn lemma_copy_keeps_io(g: GbView, src: u16, dst: u16, n: nat)
    ensures
        g.copy(src, dst, n).ram == g.ram,
        g.copy(src, dst, n).cpu == g.cpu,
        g.copy(src, dst, n).interrupts_on == g.interrupts_on,
    decreases n,
{
    if n > 0 {
        lemma_copy_keeps_io(g, src, dst, (n - 1) as nat);
        let p = g.copy(src, dst, (n - 1) as nat);
        lemma_store_keeps_io(p, add16(dst, n - 1), p.read(add16(src, n - 1)));
    }
}

/// A write to any other address leaves the interrupt request register and
/// the program counter as they were.
pub proof fn lemma_write_keeps_request(g: GbView, addr: u16, value: u8)
    requires
        addr != 0xFF0F,
        g.ram.len() == 0x100,
    ensures
        g.write(addr, value).ram[0x0F] == g.ram[0x0F],
        g.write(addr, value).ram.len() == 0x100,
        g.write(addr, value).cpu.pc == g.cpu.pc,
        g.write(addr, value).cpu.sp == g.cpu.sp,
        g.write(addr, value).interrupts_on == g.interrupts_on,
{
    reveal(GbView::write);
    reveal(GbView::write_upper);
    lemma_store_keeps_io(g, addr, value);
    lemma_copy_keeps_io(g, ((value as u16) * 256) as u16, 0xFE00, 0xA0);
    lemma_copy_keeps_io(g, g.hdma_source(), g.hdma_destination(), (((value & 0x7F) + 1) * 0x10) as u16 as nat);
}

/// With every interrupt enabled, VBlank and Timer requested and the master
/// enable set, one pass takes VBlank: the request register loses bit 0
/// only, the program counter goes to 0x40, the master enable is cleared and
/// the pass costs 20 cycles. (The stack writes must miss the request register.)
pub proof fn lemma_vblank_served_first(g: GbView)
    requires
        g.wf(),
        g.interrupts_on,
        !g.interrupts_enabling,
        g.ram[0xFF] == 0xFF,
        g.ram[0x0F] & 0x05 == 0x05,
        add16(g.cpu.sp.value, -1) != 0xFF0F,
        add16(g.cpu.sp.value, -2) != 0xFF0F,
    ensures
        g.interrupts().0.cpu.pc == 0x40,
        g.interrupts().1 == 20,
        !g.interrupts().0.interrupts_on,
        g.interrupts().0.read_upper(0xFF0F) == g.read_upper(0xFF0F) & 0xFE,
{
    let x = g.ram[0x0F];
    assert(((x | 0xE0) >> 0u8) & 1 == 1 && (0xFFu8 >> 0u8) & 1 == 1) by (bit_vector)
        requires
            x & 0x05 == 0x05,
    ;
    assert(g.first_pending() == 0);
    let s = GbView { interrupts_on: false, halted: false, stopped: false, ..g };
    let v = (s.ram[0x0F] | 0xE0) & !(1u8 << (0u8 % 8));
    reveal(GbView::write);
    reveal(GbView::write_upper);
    reveal(GbView::read_upper);
    let s2 = s.write(0xFF0F, v);
    assert(s2.ram[0x0F] == v);
    let sp = s2.cpu.sp.value;
    let s3 = s2.write(add16(sp, -1), (s2.cpu.pc / 256) as u8);
    lemma_write_keeps_request(s2, add16(sp, -1), (s2.cpu.pc / 256) as u8);
    lemma_write_keeps_request(s3, add16(sp, -2), (s2.cpu.pc % 256) as u8);
    assert(((((x | 0xE0) & !(1u8 << 0u8)) | 0xE0) == (x | 0xE0) & 0xFE)) by (bit_vector);
}

/// A halted CPU with the master enable clear and an interrupt requested and
/// enabled wakes up without jumping to a vector, without clearing the
/// request and without extra cycles.
pub proof fn lemma_halt_wakes_without_dispatch(g: GbView)
    requires
        g.halted,
        !g.interrupts_on,
        !g.interrupts_enabling,
        g.first_pending() < 5,
    ensures
        !g.interrupts().0.halted,
        g.interrupts().0.cpu == g.cpu,
        g.interrupts().0.ram == g.ram,
        g.interrupts().1 == 0,
{
}

impl Gameboy {
    /// Sets bit `interrupt` of the interrupt request register.
    pub fn request_interrupt(&mut self, interrupt: u8)
        requires
            old(self).wf(),
        ensures
            final(self).wf(),
            final(self)@ == old(self)@.request(interrupt),
    {
        let mut req = self.read_upper_ram(0xFF0F);
        req = crate::bit_functions::set(req, interrupt);
        self.write(0xFF0F, req);
        proof {
            reveal(GbView::read_upper);
            reveal(GbView::write);
            reveal(GbView::write_upper);
        }
    }

    /// Counts `cycles` on the divider; every 255 cycles the DIV register
    /// counts up by one.
    pub fn divider_register(&mut self, cycles: usize)
        requires
            old(self).wf(),
        ensures
            final(self).wf(),
            final(self)@ == old(self)@.divider(cycles),
    {
        self.cpu.divider = crate::ops::add_cycles_exec(self.cpu.divider, cycles);
        if self.cpu.divider >= 255 {
            self.cpu.divider = self.cpu.divider - 255;
            let v = self.memory.ram[0x04].wrapping_add(1);
            self.memory.ram.set(0x04, v);
        }
    }

    /// Whether the timer control register enables the selectable timer.
    pub fn is_clock_enabled(&self) -> (r: bool)
        requires
            self.wf(),
        ensures
            r == self@.timer_enabled(),
    {
        proof {
            reveal(GbView::read);
            reveal(GbView::read_upper);
        }
        crate::bit_functions::test(self.read(TAC), 2)
    }

    /// The timer control register's frequency field.
    pub fn get_clock_freq(&self) -> (r: u8)
        requires
            self.wf(),
        ensures
            r == self@.ram[0x07] & 0x3,
    {
        proof {
            reveal(GbView::read);
            reveal(GbView::read_upper);
        }
        self.read(TAC) & 0x3
    }

    /// The cycles per timer increment: 1024, 16, 64 or 256.
    pub fn get_clock_freq_count(&self) -> (r: usize)
        requires
            self.wf(),
        ensures
            r == self@.freq_count(),
    {
        match self.get_clock_freq() {
            0 => 1024,
            1 => 16,
            2 => 64,
            _ => 256,
        }
    }

    /// Counts `cycles` on the divider and, when enabled, on the selectable timer.
    pub fn update_timers(&mut self, cycles: usize)
        requires
            old(self).wf(),
        ensures
            final(self).wf(),
            final(self)@ == old(self)@.update_timers(cycles),
    {
        self.divider_register(cycles);
        if self.is_clock_enabled() {
            let freq = self.get_clock_freq_count();
            self.memory.timer.value = sat_add_exec(self.memory.timer.value, cycles);
            let ghost target = self@.drain();
            while self.memory.timer.value >= freq
                invariant
                    (GbView { timer: 0, ..self@ }).wf(),
                    freq == self@.freq_count(),
                    self@.drain() == target,
                decreases self.memory.timer.value,
            {
                self.memory.timer.value = self.memory.timer.value - freq;
                let tima = self.memory.ram[0x05];
                if tima == 0xFF {
                    let tma = self.memory.ram[0x06];
                    self.memory.ram.set(0x05, tma);
                    let req = crate::bit_functions::set(self.memory.ram[0x0F] | 0xE0, 2);
                    self.memory.ram.set(0x0F, req);
                } else {
                    self.memory.ram.set(0x05, tima + 1);
                }
            }
        }
    }

    /// Takes interrupt `interrupt`; its vector is 0x40 + 8 * `interrupt` for
    /// the five interrupts, and 0 for any other number.
    pub fn service_interrupt(&mut self, interrupt: u8)
        requires
            old(self).wf(),
        ensures
            final(self).wf(),
            final(self)@ == old(self)@.service(interrupt),
    {
        let vector: u16 = if interrupt < 5 {
            0x40 + 8 * (interrupt as u16)
        } else {
            0
        };
        if !self.interrupts_on && (self.halted || self.stopped) {
            self.halted = false;
            self.stopped = false;
            return ;
        }
        self.interrupts_on = false;
        self.halted = false;
        self.stopped = false;
        let mut req = self.memory.ram[0x0F] | 0xE0;
        req = crate::bit_functions::reset(req, interrupt);
        self.write(0xFF0F, req);
        self.push_stack(self.cpu.pc);
        self.cpu.pc = vector;
    }

    /// One pass of interrupt processing; returns the extra cycles taken.
    pub fn do_interrupts(&mut self) -> (r: usize)
        requires
            old(self).wf(),
        ensures
            final(self).wf(),
            (final(self)@, r) == old(self)@.interrupts(),
    {
        if self.interrupts_enabling {
            self.interrupts_on = true;
            self.interrupts_enabling = false;
            return 0;
        }
        if !self.interrupts_on && !self.halted && !self.stopped {
            return 0;
        }
        proof {
            reveal(GbView::read_upper);
        }
        let ghost start = self@;
        assert(start == old(self)@);
        let req = self.read_upper_ram(0xFF0F);
        let enabled = self.read_upper_ram(0xFFFF);
        let mut i: u8 = 0;
        while i < 5 && !(crate::bit_functions::test(req, i) && crate::bit_functions::test(enabled, i))
            invariant
                self.wf(),
                self@ == start,
                i <= 5,
                req == self@.ram[0x0F] | 0xE0,
                enabled == self@.ram[0xFF],
                forall|j: u8| j < i ==> !#[trigger] self@.pending(j),
            decreases 5 - i,
        {
            i = i + 1;
        }
        if i < 5 {
            assert(start.first_pending() == i);
            let dispatch = self.interrupts_on;
            self.service_interrupt(i);
            if dispatch {
                20
            } else {
                0
            }
        } else {
            0
        }
    }
}

} // verus!
