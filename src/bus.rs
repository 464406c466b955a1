//! The address decoder: every 16-bit address reads and writes exactly one
//! backing store or I/O register, and the DMA engines copy through it.
use vstd::prelude::*;
use crate::cpu::Z80;
use crate::gameboy::{Gameboy, GbView};
use crate::input::joypad_spec;
use crate::memory::{DIV, TAC};

verus! {

/// `a + k` on 16-bit addresses, wrapping.
pub open spec fn add16(a: u16, k: int) -> u16 {
    ((a + k) % 65536) as u16
}

impl GbView {
    /// The byte a read of `addr` returns.
    #[verifier::opaque]
    pub open spec fn read(self, addr: u16) -> u8 {
        if addr <= 0x7FFF {
            self.cart.read(addr)
        } else if addr <= 0x9FFF {
            self.vram[(addr - 0x8000) + self.vram_bank * 0x2000]
        } else if addr <= 0xBFFF {
            self.cart.read(addr)
        } else if addr <= 0xCFFF {
            self.wram[addr - 0xC000]
        } else if addr <= 0xDFFF {
            self.wram[(addr - 0xC000) + self.wram_bank * 0x1000]
        } else if addr <= 0xFDFF {
            0xFF
        } else if addr <= 0xFE9F {
            self.oam[addr - 0xFE00]
        } else if addr <= 0xFEFF {
            0xFF
        } else {
            self.read_upper(addr)
        }
    }

    /// The byte a read of an I/O or high-RAM address returns.
    #[verifier::opaque]
    pub open spec fn read_upper(self, addr: u16) -> u8 {
        if addr == 0xFF00 {
            joypad_spec(self.joypad, self.ram[0])
        } else if (0xFF10 <= addr <= 0xFF26) || (0xFF30 <= addr <= 0xFF3F) || (0xFF72 <= addr
            <= 0xFF77) {
            0
        } else if addr == 0xFF0F {
            self.ram[0x0F] | 0xE0
        } else if addr == 0xFF68 {
            if self.cgb_mode {
                self.bg_palette.index
            } else {
                0
            }
        } else if addr == 0xFF69 {
            if self.cgb_mode {
                self.bg_palette.read()
            } else {
                0
            }
        } else if addr == 0xFF6A {
            if self.cgb_mode {
                self.sprite_palette.index
            } else {
                0
            }
        } else if addr == 0xFF6B {
            if self.cgb_mode {
                self.sprite_palette.read()
            } else {
                0
            }
        } else if addr == 0xFF4D {
            ((self.speed * 128) as u8) | (if self.prepare {
                1u8
            } else {
                0u8
            })
        } else if addr == 0xFF4F {
            self.vram_bank
        } else if addr == 0xFF70 {
            self.wram_bank
        } else {
            self.ram[addr - 0xFF00]
        }
    }

    /// The machine after writing `value` below the I/O registers.
    #[verifier::opaque]
    pub open spec fn store(self, addr: u16, value: u8) -> GbView {
        if addr <= 0x7FFF {
            GbView { cart: self.cart.write_rom(addr, value), ..self }
        } else if addr <= 0x9FFF {
            GbView { vram: self.vram.update((addr - 0x8000) + self.vram_bank * 0x2000, value), ..self }
        } else if addr <= 0xBFFF {
            GbView { cart: self.cart.write_ram(addr, value), ..self }
        } else if addr <= 0xCFFF {
            GbView { wram: self.wram.update(addr - 0xC000, value), ..self }
        } else if addr <= 0xDFFF {
            GbView { wram: self.wram.update((addr - 0xC000) + self.wram_bank * 0x1000, value), ..self }
        } else if 0xFE00 <= addr <= 0xFE9F {
            GbView { oam: self.oam.update(addr - 0xFE00, value), ..self }
        } else {
            self
        }
    }

    /// The machine after writing `value` to `addr`.
    #[verifier::opaque]
    pub open spec fn write(self, addr: u16, value: u8) -> GbView {
        if addr < 0xFF00 {
            self.store(addr, value)
        } else {
            self.write_upper(addr, value)
        }
    }

    /// The machine after writing an I/O or high-RAM address.
    #[verifier::opaque]
    pub open spec fn write_upper(self, addr: u16, value: u8) -> GbView {
        if (0xFF10 <= addr <= 0xFF26) || (0xFF30 <= addr <= 0xFF3F) || addr == 0xFF02 || (0xFF72
            <= addr <= 0xFF77) {
            self
        } else if addr == DIV {
            GbView { timer: 0, cpu: Z80 { divider: 0, ..self.cpu }, ram: self.ram.update(0x04, 0), ..self }
        } else if addr == TAC {
            let v = value | 0xF8;
            GbView {
                ram: self.ram.update(0x07, v),
                timer: if self.ram[0x07] & 0x3 != v & 0x3 {
                    0
                } else {
                    self.timer
                },
                ..self
            }
        } else if addr == 0xFF41 {
            GbView { ram: self.ram.update(0x41, value | 0x80), ..self }
        } else if addr == 0xFF44 {
            GbView { ram: self.ram.update(0x44, 0), ..self }
        } else if addr == 0xFF46 {
            self.copy(((value as u16) * 256) as u16, 0xFE00, 0xA0)
        } else if addr == 0xFF4D {
            if self.cgb_mode {
                GbView { prepare: (value >> 0u8) & 1 == 1, ..self }
            } else {
                self
            }
        } else if addr == 0xFF4F {
            if self.cgb_mode && !self.hdma_active {
                GbView { vram_bank: value & 0x1, ..self }
            } else {
                self
            }
        } else if addr == 0xFF55 {
            if self.cgb_mode {
                self.cgb_dma(value)
            } else {
                self
            }
        } else if addr == 0xFF68 {
            if self.cgb_mode {
                GbView { bg_palette: self.bg_palette.update_index(value), ..self }
            } else {
                self
            }
        } else if addr == 0xFF69 {
            if self.cgb_mode {
                GbView { bg_palette: self.bg_palette.write(value), ..self }
            } else {
                self
            }
        } else if addr == 0xFF6A {
            if self.cgb_mode {
                GbView { sprite_palette: self.sprite_palette.update_index(value), ..self }
            } else {
                self
            }
        } else if addr == 0xFF6B {
            if self.cgb_mode {
                GbView { sprite_palette: self.sprite_palette.write(value), ..self }
            } else {
                self
            }
        } else if addr == 0xFF70 {
            if self.cgb_mode {
                GbView {
                    wram_bank: if value & 0x7 == 0 {
                        1
                    } else {
                        value & 0x7
                    },
                    ..self
                }
            } else {
                self
            }
        } else {
            GbView { ram: self.ram.update(addr - 0xFF00, value), ..self }
        }
    }

    /// The machine after copying `n` bytes one by one from `src` to `dst`,
    /// each read seeing the writes before it.
    pub open spec fn copy(self, src: u16, dst: u16, n: nat) -> GbView
        decreases n,
    {
        if n == 0 {
            self
        } else {
            let p = self.copy(src, dst, (n - 1) as nat);
            p.store(add16(dst, n - 1), p.read(add16(src, n - 1)))
        }
    }

    /// The source address held in the HDMA registers, low nibble masked.
    pub open spec fn hdma_source(self) -> u16 {
        ((self.ram[0x51] as u16) * 256 + (self.ram[0x52] & 0xF0)) as u16
    }

    /// The video-RAM destination held in the HDMA registers.
    pub open spec fn hdma_destination(self) -> u16 {
        ((((self.ram[0x53] as u16) * 256 + self.ram[0x54]) as u16 & 0x1FF0) + 0x8000) as u16
    }

    /// The machine after a block of `len` bytes is copied by the HDMA engine,
    /// which then stores where the next block starts.
    pub open spec fn transfer(self, len: u16) -> GbView {
        let src = self.hdma_source();
        let dst = self.hdma_destination();
        let p = self.copy(src, dst, len as nat);
        let s2 = add16(src, len as int);
        let d2 = add16(dst, len as int);
        GbView {
            ram: p.ram.update(0x51, (s2 / 256) as u8).update(0x52, (s2 % 256) as u8).update(
                0x53,
                (d2 / 256) as u8,
            ).update(0x54, ((d2 % 256) as u8) & 0xF0),
            ..p
        }
    }

    /// The machine after a write to the HDMA trigger register.
    pub open spec fn cgb_dma(self, value: u8) -> GbView {
        if self.hdma_active && value < 0x80 {
            GbView { hdma_active: false, ram: self.ram.update(0x55, self.ram[0x55] | 0x80), ..self }
        } else if value < 0x80 {
            let t = self.transfer((((value & 0x7F) + 1) * 0x10) as u16);
            GbView { ram: t.ram.update(0x55, 0xFF), ..t }
        } else {
            GbView { hdma_len: value, hdma_active: true, ..self }
        }
    }

    /// The machine after one HBlank period of an armed HDMA transfer.
    pub open spec fn hdma_tick(self) -> GbView {
        if !self.hdma_active {
            self
        } else {
            let t = self.transfer(0x10);
            if t.hdma_len > 0 {
                GbView {
                    hdma_len: (t.hdma_len - 1) as u8,
                    ram: t.ram.update(0x55, (t.hdma_len - 1) as u8),
                    ..t
                }
            } else {
                GbView { hdma_active: false, ram: t.ram.update(0x55, 0xFF), ..t }
            }
        }
    }
}

/// Writing below the I/O registers keeps the machine well formed.
pub proof fn lemma_store_wf(g: GbView, addr: u16, value: u8)
    requires
        g.wf(),
    ensures
        g.store(addr, value).wf(),
{
    reveal(GbView::store);
}

/// Bounds of the masked destination address of the HDMA engine.
pub proof fn lemma_dest_mask(x: u16)
    ensures
        x & 0x1FF0 <= 0x1FF0,
{
    assert(x & 0x1FF0 <= 0x1FF0) by (bit_vector);
}

impl Gameboy {
    /// Reads the byte at `addr`.
    pub fn read(&self, addr: u16) -> (r: u8)
        requires
            self.wf(),
        ensures
            r == self@.read(addr),
    {
        reveal(GbView::read);
        if addr <= 0x7FFF {
            self.memory.cart.read(addr)
        } else if addr <= 0x9FFF {
            self.memory.vram[((addr - 0x8000) as usize) + (self.memory.vram_bank as usize) * 0x2000]
        } else if addr <= 0xBFFF {
            self.memory.cart.read(addr)
        } else if addr <= 0xCFFF {
            self.memory.wram[(addr - 0xC000) as usize]
        } else if addr <= 0xDFFF {
            self.memory.wram[((addr - 0xC000) as usize) + (self.memory.wram_bank as usize) * 0x1000]
        } else if addr <= 0xFDFF {
            0xFF
        } else if addr <= 0xFE9F {
            self.memory.oam[(addr - 0xFE00) as usize]
        } else if addr <= 0xFEFF {
            0xFF
        } else {
            self.read_upper_ram(addr)
        }
    }

    /// Reads an I/O register or high RAM.
    pub fn read_upper_ram(&self, addr: u16) -> (r: u8)
        requires
            self.wf(),
            addr >= 0xFF00,
        ensures
            r == self@.read_upper(addr),
    {
        reveal(GbView::read_upper);
        if addr == 0xFF00 {
            self.memory.input.joypad_value(self.memory.ram[0])
        } else if (0xFF10 <= addr && addr <= 0xFF26) || (0xFF30 <= addr && addr <= 0xFF3F) || (
        0xFF72 <= addr && addr <= 0xFF77) {
            0
        } else if addr == 0xFF0F {
            self.memory.ram[0x0F] | 0xE0
        } else if addr == 0xFF68 {
            if self.cgb_mode {
                self.bg_palette.index
            } else {
                0
            }
        } else if addr == 0xFF69 {
            if self.cgb_mode {
                self.bg_palette.read()
            } else {
                0
            }
        } else if addr == 0xFF6A {
            if self.cgb_mode {
                self.sprite_palette.index
            } else {
                0
            }
        } else if addr == 0xFF6B {
            if self.cgb_mode {
                self.sprite_palette.read()
            } else {
                0
            }
        } else if addr == 0xFF4D {
            (self.memory.speed.current * 128) | crate::bit_functions::b(self.memory.speed.prepare)
        } else if addr == 0xFF4F {
            self.memory.vram_bank
        } else if addr == 0xFF70 {
            self.memory.wram_bank
        } else {
            self.memory.ram[(addr - 0xFF00) as usize]
        }
    }

    /// Writes below the I/O registers: cartridge, video RAM, work RAM and
    /// object memory; the echo and unusable ranges ignore the write.
    fn write_lower(&mut self, addr: u16, value: u8)
        requires
            old(self).wf(),
            addr < 0xFF00,
        ensures
            final(self).wf(),
            final(self)@ == old(self)@.store(addr, value),
    {
        reveal(GbView::store);
        if addr <= 0x7FFF {
            self.memory.cart.write_rom(addr, value);
        } else if addr <= 0x9FFF {
            let i = ((addr - 0x8000) as usize) + (self.memory.vram_bank as usize) * 0x2000;
            self.memory.vram.set(i, value);
        } else if addr <= 0xBFFF {
            self.memory.cart.write_ram(addr, value);
        } else if addr <= 0xCFFF {
            self.memory.wram.set((addr - 0xC000) as usize, value);
        } else if addr <= 0xDFFF {
            let i = ((addr - 0xC000) as usize) + (self.memory.wram_bank as usize) * 0x1000;
            self.memory.wram.set(i, value);
        } else if 0xFE00 <= addr && addr <= 0xFE9F {
            self.memory.oam.set((addr - 0xFE00) as usize, value);
        }
    }

    /// Writes `value` to `addr`.
    pub fn write(&mut self, addr: u16, value: u8)
        requires
            old(self).wf(),
        ensures
            final(self).wf(),
            final(self)@ == old(self)@.write(addr, value),
    {
        reveal(GbView::write);
        if addr < 0xFF00 {
            self.write_lower(addr, value);
        } else {
            self.write_upper_ram(addr, value);
        }
    }

    /// Writes an I/O register or high RAM, with the register's side effect.
    pub fn write_upper_ram(&mut self, addr: u16, value: u8)
        requires
            old(self).wf(),
            addr >= 0xFF00,
        ensures
            final(self).wf(),
            final(self)@ == old(self)@.write_upper(addr, value),
    {
        reveal(GbView::write_upper);
        if (0xFF10 <= addr && addr <= 0xFF26) || (0xFF30 <= addr && addr <= 0xFF3F) || addr == 0xFF02
            || (0xFF72 <= addr && addr <= 0xFF77) {
        } else if addr == DIV {
            self.memory.timer.reset_timer();
            self.cpu.divider = 0;
            self.memory.ram.set(0x04, 0);
        } else if addr == TAC {
            let current_freq = self.memory.ram[0x07] & 0x3;
            self.memory.ram.set(0x07, value | 0xF8);
            let new_freq = self.memory.ram[0x07] & 0x3;
            if current_freq != new_freq {
                self.memory.timer.reset_timer();
            }
        } else if addr == 0xFF41 {
            self.memory.ram.set(0x41, value | 0x80);
        } else if addr == 0xFF44 {
            self.memory.ram.set(0x44, 0);
        } else if addr == 0xFF46 {
            self.dma_transfer(value);
        } else if addr == 0xFF4D {
            if self.cgb_mode {
                self.memory.speed.prepare = crate::bit_functions::test(value, 0);
            }
        } else if addr == 0xFF4F {
            if self.cgb_mode && !self.memory.hdma_active {
                self.memory.vram_bank = value & 0x1;
                assert(value & 0x1 <= 1) by (bit_vector);
            }
        } else if addr == 0xFF55 {
            if self.cgb_mode {
                self.cgb_dma_transfer(value);
            }
        } else if addr == 0xFF68 {
            if self.cgb_mode {
                self.bg_palette.update_index(value);
            }
        } else if addr == 0xFF69 {
            if self.cgb_mode {
                self.bg_palette.write(value);
            }
        } else if addr == 0xFF6A {
            if self.cgb_mode {
                self.sprite_palette.update_index(value);
            }
        } else if addr == 0xFF6B {
            if self.cgb_mode {
                self.sprite_palette.write(value);
            }
        } else if addr == 0xFF70 {
            if self.cgb_mode {
                assert(value & 0x7 <= 7) by (bit_vector);
                self.memory.wram_bank = value & 0x7;
                if self.memory.wram_bank == 0 {
                    self.memory.wram_bank = 1;
                }
            }
        } else {
            self.memory.ram.set((addr - 0xFF00) as usize, value);
        }
    }

    /// Copies `len` bytes from the HDMA source to its video-RAM destination
    /// and stores where the next block starts.
    fn transfer(&mut self, len: u16)
        requires
            old(self).wf(),
            len <= 0x800,
        ensures
            final(self).wf(),
            final(self)@ == old(self)@.transfer(len),
    {
        let ghost start = self@;
        let src: u16 = (self.memory.ram[0x51] as u16) * 256 + ((self.memory.ram[0x52] & 0xF0) as u16);
        let raw: u16 = (self.memory.ram[0x53] as u16) * 256 + (self.memory.ram[0x54] as u16);
        proof {
            lemma_dest_mask(raw);
        }
        let dst: u16 = (raw & 0x1FF0) + 0x8000;
        let mut source = src;
        let mut destination = dst;
        let mut i: u16 = 0;
        while i < len
            invariant
                self.wf(),
                i <= len <= 0x800,
                0x8000 <= dst <= 0x9FF0,
                src == start.hdma_source(),
                dst == start.hdma_destination(),
                source == add16(src, i as int),
                destination == dst + i,
                self@ == start.copy(src, dst, i as nat),
            decreases len - i,
        {
            let val = self.read(source);
            proof {
                lemma_store_wf(self@, destination, val);
            }
            self.write_lower(destination, val);
            destination = destination + 1;
            source = source.wrapping_add(1);
            i = i + 1;
        }
        self.memory.ram.set(0x51, (source / 256) as u8);
        self.memory.ram.set(0x52, (source % 256) as u8);
        self.memory.ram.set(0x53, (destination / 256) as u8);
        self.memory.ram.set(0x54, ((destination % 256) as u8) & 0xF0);
    }

    /// A write to the HDMA trigger: cancels an armed HBlank transfer, copies
    /// a block at once, or arms an HBlank transfer.
    pub fn cgb_dma_transfer(&mut self, value: u8)
        requires
            old(self).wf(),
        ensures
            final(self).wf(),
            final(self)@ == old(self)@.cgb_dma(value),
    {
        if self.memory.hdma_active && value < 0x80 {
            self.memory.hdma_active = false;
            let v = self.memory.ram[0x55] | 0x80;
            self.memory.ram.set(0x55, v);
            return ;
        }
        if value < 0x80 {
            let len: u16 = (((value & 0x7F) as u16) + 1) * 0x10;
            assert((value & 0x7F) <= 0x7F) by (bit_vector);
            self.transfer(len);
            self.memory.ram.set(0x55, 0xFF);
        } else {
            self.memory.hdma_len = value;
            self.memory.hdma_active = true;
        }
    }

    /// Copies 0xA0 bytes from `val * 0x100` to object memory.
    pub fn dma_transfer(&mut self, val: u8)
        requires
            old(self).wf(),
        ensures
            final(self).wf(),
            final(self)@ == old(self)@.copy(((val as u16) * 256) as u16, 0xFE00, 0xA0),
    {
        let ghost start = self@;
        let address: u16 = (val as u16) * 256;
        let mut i: u16 = 0;
        while i < 0xA0
            invariant
                self.wf(),
                i <= 0xA0,
                address == (val as u16) * 256,
                self@ == start.copy(address, 0xFE00, i as nat),
            decreases 0xA0 - i,
        {
            let v = self.read(address.wrapping_add(i));
            proof {
                lemma_store_wf(self@, (0xFE00 + i) as u16, v);
            }
            self.write_lower(0xFE00 + i, v);
            i = i + 1;
        }
    }

    /// One HBlank period of an armed HDMA transfer: sixteen bytes, then the
    /// length counter counts down, and the transfer ends when it is spent.
    pub fn hdma_transfer(&mut self)
        requires
            old(self).wf(),
        ensures
            final(self).wf(),
            final(self)@ == old(self)@.hdma_tick(),
    {
        if self.memory.hdma_active {
            self.transfer(0x10);
            if self.memory.hdma_len > 0 {
                self.memory.hdma_len = self.memory.hdma_len - 1;
                self.memory.ram.set(0x55, self.memory.hdma_len);
            } else {
                self.memory.ram.set(0x55, 0xFF);
                self.memory.hdma_active = false;
            }
        }
    }
}

} // verus!
