//! The machine: processor, memory unit and interrupt state, owned by one value.
use vstd::prelude::*;
use crate::cart::controller::{Cart, CartView};
use crate::cpu::Z80;
use crate::memory::MMU;
use crate::palette::{CGBPalette, PaletteView};
use crate::interrupts::{sat_add, sat_add_exec};
use crate::memory::CYCLES_FRAME;

verus! {

pub struct Gameboy {
    pub memory: MMU,
    pub cpu: Z80,
    pub paused: bool,
    /// Set by EI and RETI: the interrupt master enable turns on after one more step.
    pub interrupts_enabling: bool,
    /// The interrupt master enable.
    pub interrupts_on: bool,
    pub halted: bool,
    pub stopped: bool,
    pub cgb_mode: bool,
    pub bg_palette: CGBPalette,
    pub sprite_palette: CGBPalette,
}

/// The whole machine as plain values.
pub struct GbView {
    pub cpu: Z80,
    pub cart: CartView,
    pub title: Seq<u8>,
    pub filename: Seq<char>,
    pub mode: u8,
    pub cart_type: u8,
    pub timer: usize,
    pub joypad: u8,
    pub speed: u8,
    pub prepare: bool,
    pub ram: Seq<u8>,
    pub vram: Seq<u8>,
    pub vram_bank: u8,
    pub wram: Seq<u8>,
    pub wram_bank: u8,
    pub oam: Seq<u8>,
    pub hdma_len: u8,
    pub hdma_active: bool,
    pub paused: bool,
    pub interrupts_enabling: bool,
    pub interrupts_on: bool,
    pub halted: bool,
    pub stopped: bool,
    pub cgb_mode: bool,
    pub bg_palette: PaletteView,
    pub sprite_palette: PaletteView,
}

impl View for Gameboy {
    type V = GbView;

    open spec fn view(&self) -> GbView {
        GbView {
            cpu: self.cpu,
            cart: self.memory.cart.banking_controller@,
            title: self.memory.cart.title@,
            filename: self.memory.cart.filename@,
            mode: self.memory.cart.mode,
            cart_type: self.memory.cart.cart_type,
            timer: self.memory.timer.value,
            joypad: self.memory.input.mask,
            speed: self.memory.speed.current,
            prepare: self.memory.speed.prepare,
            ram: self.memory.ram@,
            vram: self.memory.vram@,
            vram_bank: self.memory.vram_bank,
            wram: self.memory.wram@,
            wram_bank: self.memory.wram_bank,
            oam: self.memory.oam@,
            hdma_len: self.memory.hdma_len,
            hdma_active: self.memory.hdma_active,
            paused: self.paused,
            interrupts_enabling: self.interrupts_enabling,
            interrupts_on: self.interrupts_on,
            halted: self.halted,
            stopped: self.stopped,
            cgb_mode: self.cgb_mode,
            bg_palette: self.bg_palette@,
            sprite_palette: self.sprite_palette@,
        }
    }
}

impl GbView {
    /// The sizes and ranges that every address computation relies on.
    pub open spec fn wf(self) -> bool {
        &&& self.ram.len() == 0x100
        &&& self.vram.len() == 0x4000
        &&& self.wram.len() == 0x9000
        &&& self.oam.len() == 0x100
        &&& self.vram_bank <= 1
        &&& self.wram_bank <= 7
        &&& self.speed <= 1
        &&& self.timer < 1024
        &&& self.cpu.wf()
    }
}

impl Gameboy {
    pub open spec fn wf(&self) -> bool {
        self@.wf()
    }

    /// Builds the machine around a loaded cartridge, with the registers as
    /// the boot program leaves them.
    pub fn new(cart: Cart) -> (r: Gameboy)
        ensures
            r.wf(),
            r.memory.cart == cart,
            r.cgb_mode == (cart.mode & 2 != 0),
            r.cpu.pc == 0x100,
            r.cpu.sp.value == 0xFFFE,
            r.cpu.af.value == (if r.cgb_mode { 0x1180u16 } else { 0x01B0u16 }),
            r.memory.wram_bank == 1,
            r.cpu.bc.value == 0 && r.cpu.de.value == 0xFF56 && r.cpu.hl.value == 0x000D,
            r.memory.ram@ == Seq::new(0x100, |i: int| 0u8)
                .update(0x04, 0x1E).update(0x05, 0x00).update(0x06, 0x00).update(0x07, 0xF8)
                .update(0x0F, 0xE1).update(0x10, 0x80).update(0x11, 0xBF).update(0x12, 0xF3)
                .update(0x14, 0xBF).update(0x16, 0x3F).update(0x17, 0x00).update(0x19, 0xBF)
                .update(0x1A, 0x7F).update(0x1B, 0xFF).update(0x1C, 0x9F).update(0x1E, 0xBF)
                .update(0x20, 0xFF).update(0x21, 0x00).update(0x22, 0x00).update(0x23, 0xBF)
                .update(0x24, 0x77).update(0x25, 0xF3).update(0x26, 0xF1).update(0x40, 0x91)
                .update(0x41, 0x85).update(0x42, 0x00).update(0x43, 0x00).update(0x45, 0x00)
                .update(0x47, 0xFC).update(0x48, 0xFF).update(0x49, 0xFF).update(0x4A, 0x00)
                .update(0x4B, 0x00).update(0xFF, 0x00),
            !r.paused && !r.halted && !r.stopped && !r.interrupts_on && !r.interrupts_enabling,
    {
        let mut cpu = Z80::new();
        let mut memory = MMU::new(cart);
        memory.init();
        let cgb_mode = memory.has_cgb_mode();
        cpu.init(cgb_mode);
        Gameboy {
            memory,
            cpu,
            paused: false,
            interrupts_enabling: false,
            interrupts_on: false,
            halted: false,
            stopped: false,
            cgb_mode,
            bg_palette: CGBPalette::new(),
            sprite_palette: CGBPalette::new(),
        }
    }
}

impl GbView {
    /// One step of the machine: an instruction, or four idle cycles while
    /// halted or stopped; then the timers count those cycles and one pass of
    /// interrupt processing runs. The cycles taken come with the machine.
    pub open spec fn step(self) -> (GbView, usize) {
        let (s1, c) = if self.halted || self.stopped {
            (self, 4usize)
        } else {
            self.execute()
        };
        let s2 = s1.update_timers(c);
        let (s3, extra) = s2.interrupts();
        (s3, sat_add(c, extra))
    }

    /// Steps until `budget` cycles have passed (or `budget` steps have run,
    /// which only a run of zero-cycle opcodes reaches).
    pub open spec fn frame(self, budget: usize, cycles: usize, steps: usize) -> (GbView, usize)
        decreases budget - steps,
    {
        if cycles >= budget || steps >= budget {
            (self, cycles)
        } else {
            let (s, c) = self.step();
            s.frame(budget, sat_add(cycles, c), (steps + 1) as usize)
        }
    }

    /// The machine with the button mask bit of `button` cleared (pressed)
    /// and the joypad interrupt requested.
    pub open spec fn press(self, button: u8) -> GbView {
        GbView { joypad: self.joypad & !(1u8 << (button % 8)), ..self }.request(4)
    }
}

impl Gameboy {
    /// One step of the machine; returns the cycles it took.
    pub fn step(&mut self) -> (r: usize)
        requires
            old(self).wf(),
        ensures
            final(self).wf(),
            (final(self)@, r) == old(self)@.step(),
    {
        let mut cycles_op: usize = 4;
        if !(self.halted || self.stopped) {
            cycles_op = self.execute_next_opcode();
        }
        self.update_timers(cycles_op);
        let extra = self.do_interrupts();
        sat_add_exec(cycles_op, extra)
    }

    /// Runs one frame's worth of cycles (twice as many at double speed);
    /// returns the cycles that passed. A paused machine does nothing.
    pub fn update(&mut self) -> (r: usize)
        requires
            old(self).wf(),
        ensures
            final(self).wf(),
            old(self).paused ==> final(self)@ == old(self)@ && r == 0,
            !old(self).paused ==> (final(self)@, r) == old(self)@.frame(
                (CYCLES_FRAME * (old(self).memory.speed.current as usize + 1)) as usize,
                0,
                0,
            ),
    {
        if self.paused {
            return 0;
        }
        let budget: usize = CYCLES_FRAME * (self.memory.speed.current as usize + 1);
        let ghost target = self@.frame(budget, 0, 0);
        let mut cycles: usize = 0;
        let mut steps: usize = 0;
        while cycles < budget && steps < budget
            invariant
                self.wf(),
                self@.frame(budget, cycles, steps) == target,
            decreases budget - steps,
        {
            let c = self.step();
            cycles = sat_add_exec(cycles, c);
            steps = steps + 1;
        }
        cycles
    }

    /// Presses a button: its mask bit clears and the joypad interrupt is requested.
    pub fn press_button(&mut self, button: u8)
        requires
            old(self).wf(),
        ensures
            final(self).wf(),
            final(self)@ == old(self)@.press(button),
    {
        self.memory.input.mask = crate::bit_functions::reset(self.memory.input.mask, button);
        self.request_interrupt(4);
    }

    /// Releases a button: its mask bit is set again.
    pub fn release_button(&mut self, button: u8)
        requires
            old(self).wf(),
        ensures
            final(self).wf(),
            final(self)@ == (GbView { joypad: old(self)@.joypad | (1u8 << (button % 8)), ..old(self)@ }),
    {
        self.memory.input.mask = crate::bit_functions::set(self.memory.input.mask, button);
    }
}

} // verus!
