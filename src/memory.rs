//! The memory unit's state: work, video and object RAM, the I/O register
//! file, the cartridge, and the timer, joypad and speed state it drives.
use vstd::prelude::*;
use crate::cart::controller::{Cart, CBG_MODE};
use crate::input::Input;

verus! {

pub const CLOCK_SPEED: usize = 4194304;

pub const FRAMES_PER_SECOND: usize = 60;

/// Machine cycles in one frame at normal speed.
pub const CYCLES_FRAME: usize = CLOCK_SPEED / FRAMES_PER_SECOND;

pub const DIV: u16 = 0xFF04;

pub const TIMA: u16 = 0xFF05;

pub const TMA: u16 = 0xFF06;

pub const TAC: u16 = 0xFF07;

pub type MemoryAddr = u16;

/// The selectable timer's accumulated cycles.
pub struct Timer {
    pub value: usize,
}

impl Timer {
    pub fn reset_timer(&mut self)
        ensures
            final(self).value == 0,
    {
        self.value = 0;
    }
}

/// The CPU speed (0 normal, 1 double) and whether a switch is armed.
pub struct Speed {
    pub current: u8,
    pub prepare: bool,
}

pub struct MMU {
    pub cart: Cart,
    pub timer: Timer,
    pub input: Input,
    pub speed: Speed,
    /// The I/O registers and high RAM, 0xFF00 to 0xFFFF.
    pub ram: Vec<u8>,
    pub vram: Vec<u8>,
    pub vram_bank: u8,
    pub wram: Vec<u8>,
    pub wram_bank: u8,
    pub oam: Vec<u8>,
    pub hdma_len: u8,
    pub hdma_active: bool,
}

impl MMU {
    /// The array sizes and bank ranges that every address computation relies on.
    pub open spec fn wf(self) -> bool {
        &&& self.ram@.len() == 0x100
        &&& self.vram@.len() == 0x4000
        &&& self.wram@.len() == 0x9000
        &&& self.oam@.len() == 0x100
        &&& self.vram_bank <= 1
        &&& self.wram_bank <= 7
        &&& self.speed.current <= 1
        &&& self.timer.value < 1024
    }

    /// Sets the I/O registers to the values they hold after the boot program.
    pub fn init(&mut self)
        requires
            old(self).wf(),
        ensures
            final(self).wf(),
            final(self).wram_bank == 1,
            final(self).cart == old(self).cart,
            final(self).timer == old(self).timer,
            final(self).input == old(self).input,
            final(self).speed == old(self).speed,
            final(self).vram == old(self).vram,
            final(self).wram == old(self).wram,
            final(self).oam == old(self).oam,
            final(self).vram_bank == old(self).vram_bank,
            final(self).hdma_len == old(self).hdma_len,
            final(self).hdma_active == old(self).hdma_active,
            final(self).ram@ == old(self).ram@
                .update(0x04, 0x1E).update(0x05, 0x00).update(0x06, 0x00).update(0x07, 0xF8)
                .update(0x0F, 0xE1).update(0x10, 0x80).update(0x11, 0xBF).update(0x12, 0xF3)
                .update(0x14, 0xBF).update(0x16, 0x3F).update(0x17, 0x00).update(0x19, 0xBF)
                .update(0x1A, 0x7F).update(0x1B, 0xFF).update(0x1C, 0x9F).update(0x1E, 0xBF)
                .update(0x20, 0xFF).update(0x21, 0x00).update(0x22, 0x00).update(0x23, 0xBF)
                .update(0x24, 0x77).update(0x25, 0xF3).update(0x26, 0xF1).update(0x40, 0x91)
                .update(0x41, 0x85).update(0x42, 0x00).update(0x43, 0x00).update(0x45, 0x00)
                .update(0x47, 0xFC).update(0x48, 0xFF).update(0x49, 0xFF).update(0x4A, 0x00)
                .update(0x4B, 0x00).update(0xFF, 0x00),
    {
        self.ram.set(0x04, 0x1E);
        self.ram.set(0x05, 0x00);
        self.ram.set(0x06, 0x00);
        self.ram.set(0x07, 0xF8);
        self.ram.set(0x0F, 0xE1);
        self.ram.set(0x10, 0x80);
        self.ram.set(0x11, 0xBF);
        self.ram.set(0x12, 0xF3);
        self.ram.set(0x14, 0xBF);
        self.ram.set(0x16, 0x3F);
        self.ram.set(0x17, 0x00);
        self.ram.set(0x19, 0xBF);
        self.ram.set(0x1A, 0x7F);
        self.ram.set(0x1B, 0xFF);
        self.ram.set(0x1C, 0x9F);
        self.ram.set(0x1E, 0xBF);
        self.ram.set(0x20, 0xFF);
        self.ram.set(0x21, 0x00);
        self.ram.set(0x22, 0x00);
        self.ram.set(0x23, 0xBF);
        self.ram.set(0x24, 0x77);
        self.ram.set(0x25, 0xF3);
        self.ram.set(0x26, 0xF1);
        self.ram.set(0x40, 0x91);
        self.ram.set(0x41, 0x85);
        self.ram.set(0x42, 0x00);
        self.ram.set(0x43, 0x00);
        self.ram.set(0x45, 0x00);
        self.ram.set(0x47, 0xFC);
        self.ram.set(0x48, 0xFF);
        self.ram.set(0x49, 0xFF);
        self.ram.set(0x4A, 0x00);
        self.ram.set(0x4B, 0x00);
        self.ram.set(0xFF, 0x00);
        self.wram_bank = 1;
    }

    pub fn new(cart: Cart) -> (r: MMU)
        ensures
            r.wf(),
            r.cart == cart,
            r.timer.value == 0,
            r.input.mask == 0xFF,
            r.speed.current == 0 && !r.speed.prepare,
            r.ram@ == Seq::new(0x100, |i: int| 0u8),
            r.vram@ == Seq::new(0x4000, |i: int| 0u8),
            r.wram@ == Seq::new(0x9000, |i: int| 0u8),
            r.oam@ == Seq::new(0x100, |i: int| 0u8),
            r.vram_bank == 0 && r.wram_bank == 0,
            r.hdma_len == 0 && !r.hdma_active,
    {
        let ram = vec![0u8; 0x100];
        let vram = vec![0u8; 0x4000];
        let wram = vec![0u8; 0x9000];
        let oam = vec![0u8; 0x100];
        assert(ram@ =~= Seq::new(0x100, |i: int| 0u8));
        assert(vram@ =~= Seq::new(0x4000, |i: int| 0u8));
        assert(wram@ =~= Seq::new(0x9000, |i: int| 0u8));
        assert(oam@ =~= Seq::new(0x100, |i: int| 0u8));
        MMU {
            cart,
            timer: Timer { value: 0 },
            input: Input { mask: 0xFF },
            speed: Speed { current: 0, prepare: false },
            ram,
            vram,
            vram_bank: 0,
            wram,
            wram_bank: 0,
            oam,
            hdma_len: 0,
            hdma_active: false,
        }
    }

    /// Whether the cartridge runs on the colour hardware.
    pub fn has_cgb_mode(&self) -> (r: bool)
        ensures
            r == (self.cart.mode & CBG_MODE != 0),
    {
        self.cart.mode & CBG_MODE != 0
    }
}

} // verus!
