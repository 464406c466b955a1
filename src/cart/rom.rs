//! A cartridge without banking: the ROM is mapped as it is.
use vstd::prelude::*;
use crate::cart::{byte_at, byte_or_ff, BankingController};

verus! {

pub struct ROM {
    pub rom: Vec<u8>,
}

impl ROM {
    pub fn new(data: Vec<u8>) -> (r: ROM)
        ensures
            r.rom@ == data@,
    {
        ROM { rom: data }
    }

    pub fn new_as_bc(data: Vec<u8>) -> (r: crate::cart::controller::Controller)
        ensures
            crate::cart::controller::kind_of(r) == 0,
            crate::cart::controller::rom_of(r) == data@,
    {
        crate::cart::controller::Controller::Rom(ROM::new(data))
    }
}

impl BankingController for ROM {
    open spec fn read_spec(&self, address: u16) -> u8 {
        byte_or_ff(self.rom@, address as int)
    }

    open spec fn rom_written(&self, address: u16, value: u8) -> Self {
        *self
    }

    open spec fn ram_written(&self, next: &Self, address: u16, value: u8) -> bool {
        next.rom@ == self.rom@
    }

    open spec fn save_spec(&self) -> Seq<u8> {
        Seq::empty()
    }

    open spec fn loaded(&self, next: &Self, data: Seq<u8>) -> bool {
        next.rom@ == self.rom@
    }

    open spec fn same_state(&self, other: &Self) -> bool {
        other.rom@ == self.rom@
    }

    fn read(&self, address: u16) -> (r: u8) {
        byte_at(&self.rom, address as u64)
    }

    fn write_rom(&mut self, _address: u16, _value: u8) {
    }

    fn write_ram(&mut self, _address: u16, _value: u8) {
    }

    fn get_save_data(&self) -> (r: Vec<u8>) {
        Vec::new()
    }

    fn load_save_data(&mut self, _data: Vec<u8>) {
    }
}

} // verus!
