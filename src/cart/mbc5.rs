//! The fifth banking controller: a 9-bit ROM-bank register written through
//! two address ranges and a 4-bit RAM-bank register.
use vstd::prelude::*;
use crate::cart::{
    byte_at, byte_or_ff, lemma_bank_bits, ram_offset, ram_offset_of, store_at, BankingController,
};

verus! {

pub struct MBC5 {
    pub rom: Vec<u8>,
    pub rom_bank: u32,
    pub ram: Vec<u8>,
    pub ram_bank: u32,
    pub ram_enabled: bool,
}

impl MBC5 {
    /// Sixteen RAM banks of 0x2000 bytes, one for each value of the RAM-bank register.
    pub fn new(data: Vec<u8>) -> (r: MBC5)
        ensures
            r.rom@ == data@,
            r.rom_bank == 1,
            r.ram@ == Seq::new(0x20000, |i: int| 0u8),
            r.ram_bank == 0,
            !r.ram_enabled,
    {
        let ram = vec![0u8; 0x20000];
        assert(ram@ =~= Seq::new(0x20000, |i: int| 0u8));
        MBC5 { rom: data, rom_bank: 1, ram, ram_bank: 0, ram_enabled: false }
    }

    pub fn new_as_bc(data: Vec<u8>) -> (r: crate::cart::controller::Controller)
        ensures
            crate::cart::controller::kind_of(r) == 5,
            crate::cart::controller::rom_of(r) == data@,
            crate::cart::controller::is_fresh(r),
    {
        crate::cart::controller::Controller::Mbc5(MBC5::new(data))
    }
}

impl BankingController for MBC5 {
    open spec fn read_spec(&self, address: u16) -> u8 {
        if address <= 0x3FFF {
            byte_or_ff(self.rom@, address as int)
        } else if address <= 0x7FFF {
            byte_or_ff(self.rom@, (address - 0x4000) + self.rom_bank * 0x4000)
        } else {
            byte_or_ff(self.ram@, 0x2000 * self.ram_bank + ram_offset(address))
        }
    }

    open spec fn rom_written(&self, address: u16, value: u8) -> Self {
        if address <= 0x1FFF {
            if value & 0xF == 0xA {
                MBC5 { ram_enabled: true, ..*self }
            } else if value & 0xF == 0 {
                MBC5 { ram_enabled: false, ..*self }
            } else {
                *self
            }
        } else if address <= 0x3FFF {
            MBC5 { rom_bank: (self.rom_bank & 0x100) | (value as u32), ..*self }
        } else if address <= 0x5FFF {
            MBC5 { rom_bank: (self.rom_bank & 0xFF) | (((value & 0x01) as u32) << 8), ..*self }
        } else {
            MBC5 { ram_bank: (value & 0xF) as u32, ..*self }
        }
    }

    open spec fn ram_written(&self, next: &Self, address: u16, value: u8) -> bool {
        let index = 0x2000 * self.ram_bank + ram_offset(address);
        &&& next.rom == self.rom
        &&& next.rom_bank == self.rom_bank
        &&& next.ram_bank == self.ram_bank
        &&& next.ram_enabled == self.ram_enabled
        &&& next.ram@ == (if self.ram_enabled && index < self.ram@.len() {
            self.ram@.update(index, value)
        } else {
            self.ram@
        })
    }

    open spec fn save_spec(&self) -> Seq<u8> {
        self.ram@
    }

    open spec fn loaded(&self, next: &Self, data: Seq<u8>) -> bool {
        &&& next.rom == self.rom
        &&& next.rom_bank == self.rom_bank
        &&& next.ram_bank == self.ram_bank
        &&& next.ram_enabled == self.ram_enabled
        &&& next.ram@ == data
    }

    open spec fn same_state(&self, other: &Self) -> bool {
        self.loaded(other, self.ram@)
    }

    fn read(&self, address: u16) -> (r: u8) {
        if address <= 0x3FFF {
            byte_at(&self.rom, address as u64)
        } else if address <= 0x7FFF {
            byte_at(&self.rom, (address - 0x4000) as u64 + (self.rom_bank as u64) * 0x4000)
        } else {
            byte_at(&self.ram, 0x2000 * (self.ram_bank as u64) + ram_offset_of(address))
        }
    }

    fn write_rom(&mut self, address: u16, value: u8) {
        if address <= 0x1FFF {
            if value & 0xF == 0xA {
                self.ram_enabled = true;
            } else if value & 0xF == 0x0 {
                self.ram_enabled = false;
            }
        } else if address <= 0x3FFF {
            self.rom_bank = (self.rom_bank & 0x100) | (value as u32);
        } else if address <= 0x5FFF {
            self.rom_bank = (self.rom_bank & 0xFF) | (((value & 0x01) as u32) << 8);
        } else {
            self.ram_bank = (value & 0xF) as u32;
        }
    }

    fn write_ram(&mut self, address: u16, value: u8) {
        if self.ram_enabled {
            let index = 0x2000 * (self.ram_bank as u64) + ram_offset_of(address);
            store_at(&mut self.ram, index, value);
        }
    }

    fn get_save_data(&self) -> (r: Vec<u8>) {
        let r = self.ram.clone();
        assert(r@ =~= self.ram@);
        r
    }

    fn load_save_data(&mut self, data: Vec<u8>) {
        self.ram = data;
    }
}

} // verus!
