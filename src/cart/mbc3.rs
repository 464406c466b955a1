//! The third banking controller: a 7-bit ROM-bank register, RAM banks 0-3,
//! and clock registers selected through the RAM-bank register, with a latch.
use vstd::prelude::*;
use crate::cart::{byte_at, byte_or_ff, ram_offset, ram_offset_of, store_at, BankingController};

verus! {

/// The data resized to `n` bytes: cut, or padded with zeros.
pub open spec fn resized(data: Seq<u8>, n: nat) -> Seq<u8> {
    if data.len() >= n {
        data.subrange(0, n as int)
    } else {
        data + Seq::new((n - data.len()) as nat, |i: int| 0u8)
    }
}

pub struct MBC3 {
    pub rom: Vec<u8>,
    pub rom_bank: u32,
    pub ram: Vec<u8>,
    pub ram_bank: u32,
    pub ram_enabled: bool,
    pub clock: [u8; 16],
    pub latched_clock: [u8; 16],
    /// Whether reads of the clock registers return the latched snapshot.
    pub latched: bool,
    /// Whether the last write to the latch register was 0x00, so that a
    /// following 0x01 takes a snapshot.
    pub latch_pending: bool,
}

impl MBC3 {
    /// Bank 0 cannot be shown in the paged window: it selects bank 1.
    fn update_rom_bank(&mut self)
        ensures
            *final(self) == (MBC3 {
                rom_bank: if old(self).rom_bank == 0 {
                    1
                } else {
                    old(self).rom_bank
                },
                ..*old(self)
            }),
    {
        if self.rom_bank == 0x00 {
            self.rom_bank = 1;
        }
    }

    pub fn new(data: Vec<u8>) -> (r: MBC3)
        ensures
            r.rom@ == data@,
            r.rom_bank == 1,
            r.ram@ == Seq::new(0x8000, |i: int| 0u8),
            r.ram_bank == 0,
            !r.ram_enabled,
            r.clock@ == Seq::new(16, |i: int| 0u8),
            r.latched_clock@ == Seq::new(16, |i: int| 0u8),
            !r.latched,
            !r.latch_pending,
    {
        let ram = vec![0u8; 0x8000];
        assert(ram@ =~= Seq::new(0x8000, |i: int| 0u8));
        let clock = [0u8; 16];
        let latched_clock = [0u8; 16];
        assert(clock@ =~= Seq::new(16, |i: int| 0u8));
        assert(latched_clock@ =~= Seq::new(16, |i: int| 0u8));
        MBC3 {
            rom: data,
            rom_bank: 1,
            ram,
            ram_bank: 0,
            ram_enabled: false,
            clock,
            latched_clock,
            latched: false,
            latch_pending: false,
        }
    }

    pub fn new_as_bc(data: Vec<u8>) -> (r: crate::cart::controller::Controller)
        ensures
            crate::cart::controller::kind_of(r) == 3,
            crate::cart::controller::rom_of(r) == data@,
            crate::cart::controller::is_fresh(r),
    {
        crate::cart::controller::Controller::Mbc3(MBC3::new(data))
    }
}

impl BankingController for MBC3 {
    open spec fn read_spec(&self, address: u16) -> u8 {
        if address <= 0x3FFF {
            byte_or_ff(self.rom@, address as int)
        } else if address <= 0x7FFF {
            byte_or_ff(self.rom@, (address - 0x4000) + self.rom_bank * 0x4000)
        } else if self.ram_bank >= 4 {
            if self.latched {
                byte_or_ff(self.latched_clock@, self.ram_bank as int)
            } else {
                byte_or_ff(self.clock@, self.ram_bank as int)
            }
        } else {
            byte_or_ff(self.ram@, 0x2000 * self.ram_bank + ram_offset(address))
        }
    }

    open spec fn rom_written(&self, address: u16, value: u8) -> Self {
        if address <= 0x1FFF {
            if value & 0xF == 0xA {
                MBC3 { ram_enabled: true, ..*self }
            } else if value & 0xF == 0 {
                MBC3 { ram_enabled: false, ..*self }
            } else {
                *self
            }
        } else if address <= 0x3FFF {
            MBC3 {
                rom_bank: if value & 0x7F == 0 {
                    1
                } else {
                    (value & 0x7F) as u32
                },
                ..*self
            }
        } else if address <= 0x5FFF {
            MBC3 { ram_bank: value as u32, ..*self }
        } else if value == 0 {
            MBC3 { latch_pending: true, ..*self }
        } else if value == 1 && self.latch_pending {
            MBC3 { latched: true, latched_clock: self.clock, latch_pending: false, ..*self }
        } else {
            MBC3 { latch_pending: false, ..*self }
        }
    }

    open spec fn ram_written(&self, next: &Self, address: u16, value: u8) -> bool {
        let index = 0x2000 * self.ram_bank + ram_offset(address);
        &&& next.rom == self.rom
        &&& next.rom_bank == self.rom_bank
        &&& next.ram_bank == self.ram_bank
        &&& next.ram_enabled == self.ram_enabled
        &&& next.latched_clock == self.latched_clock
        &&& next.latched == self.latched
        &&& next.latch_pending == self.latch_pending
        &&& next.clock@ == (if self.ram_enabled && 4 <= self.ram_bank < 16 {
            self.clock@.update(self.ram_bank as int, value)
        } else {
            self.clock@
        })
        &&& next.ram@ == (if self.ram_enabled && self.ram_bank < 4 && index < self.ram@.len() {
            self.ram@.update(index, value)
        } else {
            self.ram@
        })
    }

    open spec fn save_spec(&self) -> Seq<u8> {
        self.ram@
    }

    /// The clock registers are not part of the save data; the RAM is kept at
    /// its full size.
    open spec fn loaded(&self, next: &Self, data: Seq<u8>) -> bool {
        &&& next.rom == self.rom
        &&& next.rom_bank == self.rom_bank
        &&& next.ram_bank == self.ram_bank
        &&& next.ram_enabled == self.ram_enabled
        &&& next.clock == self.clock
        &&& next.latched_clock == self.latched_clock
        &&& next.latched == self.latched
        &&& next.latch_pending == self.latch_pending
        &&& next.ram@ == resized(data, 0x8000)
    }

    open spec fn same_state(&self, other: &Self) -> bool {
        &&& other.rom == self.rom
        &&& other.rom_bank == self.rom_bank
        &&& other.ram_bank == self.ram_bank
        &&& other.ram_enabled == self.ram_enabled
        &&& other.clock@ == self.clock@
        &&& other.latched_clock@ == self.latched_clock@
        &&& other.latched == self.latched
        &&& other.latch_pending == self.latch_pending
        &&& other.ram@ == self.ram@
    }

    fn read(&self, address: u16) -> (r: u8) {
        if address <= 0x3FFF {
            byte_at(&self.rom, address as u64)
        } else if address <= 0x7FFF {
            byte_at(&self.rom, (address - 0x4000) as u64 + (self.rom_bank as u64) * 0x4000)
        } else if self.ram_bank >= 4 {
            if self.ram_bank >= 16 {
                0xFF
            } else if self.latched {
                self.latched_clock[self.ram_bank as usize]
            } else {
                self.clock[self.ram_bank as usize]
            }
        } else {
            byte_at(&self.ram, 0x2000 * (self.ram_bank as u64) + ram_offset_of(address))
        }
    }

    fn write_rom(&mut self, address: u16, value: u8) {
        if address <= 0x1FFF {
            if value & 0xF == 0xA {
                self.ram_enabled = true;
            } else if value & 0xF == 0x0 {
                self.ram_enabled = false;
            }
        } else if address <= 0x3FFF {
            self.rom_bank = (value & 0x7F) as u32;
            self.update_rom_bank()
        } else if address <= 0x5FFF {
            self.ram_bank = value as u32;
        } else {
            if value == 0x0 {
                self.latch_pending = true;
            } else if value == 0x1 && self.latch_pending {
                self.latched = true;
                self.latched_clock = self.clock;
                self.latch_pending = false;
            } else {
                self.latch_pending = false;
            }
        }
    }

    fn write_ram(&mut self, address: u16, value: u8) {
        if self.ram_enabled {
            if self.ram_bank >= 4 {
                if self.ram_bank < 16 {
                    self.clock[self.ram_bank as usize] = value;
                }
            } else {
                let index = 0x2000 * (self.ram_bank as u64) + ram_offset_of(address);
                store_at(&mut self.ram, index, value);
            }
        }
    }

    fn get_save_data(&self) -> (r: Vec<u8>) {
        let r = self.ram.clone();
        assert(r@ =~= self.ram@);
        r
    }

    fn load_save_data(&mut self, data: Vec<u8>) {
        self.ram = data;
        self.ram.resize(0x8000, 0);
        assert(self.ram@ =~= resized(data@, 0x8000));
    }
}

} // verus!
