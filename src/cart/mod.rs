//! Cartridge bank controllers: one type per controller chip, the tagged
//! union that the bus holds, and the cartridge built from a ROM image.
use vstd::prelude::*;

pub mod controller;
pub mod mbc1;
pub mod mbc2;
pub mod mbc3;
pub mod mbc5;
pub mod rom;

verus! {

/// Bounds of the bank numbers that the bank registers can hold.
pub proof fn lemma_bank_bits(x: u32, v: u8)
    ensures
        (x & 0xE0) | ((v & 0x1F) as u32) <= 0xFF,
        (x & 0x1F) | ((v & 0xE0) as u32) <= 0xFF,
        (x & 0x100) | (v as u32) <= 0x1FF,
        (x & 0xFF) | (((v & 0x01) as u32) << 8) <= 0x1FF,
        x & 0x1F <= 0x1F,
{
    assert(x & 0x1F <= 0x1F) by (bit_vector);
    assert((x & 0xE0) | ((v & 0x1F) as u32) <= 0xFF) by (bit_vector);
    assert((x & 0x1F) | ((v & 0xE0) as u32) <= 0xFF) by (bit_vector);
    assert((x & 0x100) | (v as u32) <= 0x1FF) by (bit_vector);
    assert((x & 0xFF) | (((v & 0x01) as u32) << 8) <= 0x1FF) by (bit_vector);
}

/// The byte at `i`, or the open-bus value 0xFF past the end of the data.
pub open spec fn byte_or_ff(s: Seq<u8>, i: int) -> u8 {
    if 0 <= i < s.len() {
        s[i]
    } else {
        0xFF
    }
}

/// Offset of an address into the external-RAM window, wrapping below 0xA000.
pub open spec fn ram_offset(address: u16) -> int {
    (address - 0xA000) % 65536
}

/// Bank numbers whose paged window would show bank 0 select the next bank.
pub open spec fn remap_bank(bank: u32) -> u32 {
    if bank == 0 || bank == 0x20 || bank == 0x40 || bank == 0x60 {
        (bank + 1) as u32
    } else {
        bank
    }
}

/// The byte at `i` of `v`, or 0xFF past its end.
pub fn byte_at(v: &Vec<u8>, i: u64) -> (r: u8)
    ensures
        r == byte_or_ff(v@, i as int),
{
    if i < v.len() as u64 {
        v[i as usize]
    } else {
        0xFF
    }
}

/// Writes `value` at `i` of `v` when `i` is inside it; otherwise nothing.
pub fn store_at(v: &mut Vec<u8>, i: u64, value: u8)
    ensures
        final(v)@ == (if i < old(v)@.len() {
            old(v)@.update(i as int, value)
        } else {
            old(v)@
        }),
{
    if i < v.len() as u64 {
        v[i as usize] = value;
    }
}

/// Offset of an address into the external-RAM window.
pub fn ram_offset_of(address: u16) -> (r: u64)
    ensures
        r == ram_offset(address),
        r < 65536,
{
    if address >= 0xA000 {
        (address - 0xA000) as u64
    } else {
        (address + 0x6000) as u64
    }
}

/// What every cartridge controller offers to the memory bus.
pub trait BankingController: Sized {
    /// The byte that a read of `address` returns.
    spec fn read_spec(&self, address: u16) -> u8;

    /// The controller after a write to its ROM area (its bank registers).
    spec fn rom_written(&self, address: u16, value: u8) -> Self;

    /// Whether `next` is this controller after a write to its RAM area.
    spec fn ram_written(&self, next: &Self, address: u16, value: u8) -> bool;

    /// The save data: the external RAM.
    spec fn save_spec(&self) -> Seq<u8>;

    /// Whether `next` is this controller after loading `data` as save data.
    spec fn loaded(&self, next: &Self, data: Seq<u8>) -> bool;

    /// Whether two controllers hold the same state.
    spec fn same_state(&self, other: &Self) -> bool;

    /// Reads ROM or RAM, depending on the address and the banking.
    fn read(&self, address: u16) -> (r: u8)
        ensures
            r == self.read_spec(address),
    ;

    /// Writes to the ROM area, which sets the bank registers.
    fn write_rom(&mut self, address: u16, value: u8)
        ensures
            *final(self) == old(self).rom_written(address, value),
    ;

    /// Writes to the external RAM, which may be banked.
    fn write_ram(&mut self, address: u16, value: u8)
        ensures
            old(self).ram_written(final(self), address, value),
    ;

    /// Returns the save data.
    fn get_save_data(&self) -> (r: Vec<u8>)
        ensures
            r@ == self.save_spec(),
    ;

    /// Loads save data.
    fn load_save_data(&mut self, data: Vec<u8>)
        ensures
            old(self).loaded(final(self), data@),
    ;
}

} // verus!
