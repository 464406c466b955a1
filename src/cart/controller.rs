//! The controller the cartridge holds, chosen from the header's type byte,
//! and the cartridge itself.
use vstd::prelude::*;
use crate::cart::mbc1::MBC1;
use crate::cart::mbc2::MBC2;
use crate::cart::mbc3::MBC3;
use crate::cart::mbc5::MBC5;
use crate::cart::rom::ROM;
use crate::cart::{byte_or_ff, ram_offset, remap_bank, BankingController};
use crate::cart::mbc3::resized;

verus! {

/// What a controller holds, as plain values: which chip it is (0 for plain
/// ROM, else the controller's number), its ROM and RAM, and its registers.
pub struct CartView {
    pub kind: u8,
    pub rom: Seq<u8>,
    pub rom_bank: u32,
    pub ram: Seq<u8>,
    pub ram_bank: u32,
    pub ram_enabled: bool,
    pub rom_banking: bool,
    pub clock: Seq<u8>,
    pub latched_clock: Seq<u8>,
    pub latched: bool,
    pub latch_pending: bool,
}

impl CartView {
    /// The byte that a read of `address` returns.
    pub open spec fn read(self, address: u16) -> u8 {
        if self.kind == 0 || address <= 0x3FFF {
            byte_or_ff(self.rom, address as int)
        } else if address <= 0x7FFF {
            byte_or_ff(self.rom, (address - 0x4000) + self.rom_bank * 0x4000)
        } else if self.kind == 2 {
            byte_or_ff(self.ram, ram_offset(address))
        } else if self.kind == 3 && self.ram_bank >= 4 {
            if self.latched {
                byte_or_ff(self.latched_clock, self.ram_bank as int)
            } else {
                byte_or_ff(self.clock, self.ram_bank as int)
            }
        } else {
            byte_or_ff(self.ram, 0x2000 * self.ram_bank + ram_offset(address))
        }
    }

    /// The controller after a write to its ROM area, which holds the bank
    /// registers, the RAM-enable latch and the mode or latch register.
    pub open spec fn write_rom(self, address: u16, value: u8) -> CartView {
        if self.kind == 0 {
            self
        } else if self.kind == 3 {
            if address <= 0x1FFF {
                if value & 0xF == 0xA {
                    CartView { ram_enabled: true, ..self }
                } else if value & 0xF == 0 {
                    CartView { ram_enabled: false, ..self }
                } else {
                    self
                }
            } else if address <= 0x3FFF {
                CartView {
                    rom_bank: if value & 0x7F == 0 {
                        1
                    } else {
                        (value & 0x7F) as u32
                    },
                    ..self
                }
            } else if address <= 0x5FFF {
                CartView { ram_bank: value as u32, ..self }
            } else if value == 0 {
                CartView { latch_pending: true, ..self }
            } else if value == 1 && self.latch_pending {
                CartView { latched: true, latched_clock: self.clock, latch_pending: false, ..self }
            } else {
                CartView { latch_pending: false, ..self }
            }
        } else if address <= 0x1FFF {
            if self.kind == 2 && address & 0x100 != 0 {
                self
            } else if value & 0xF == 0xA {
                CartView { ram_enabled: true, ..self }
            } else if value & 0xF == 0 {
                CartView { ram_enabled: false, ..self }
            } else {
                self
            }
        } else if self.kind == 2 {
            if address <= 0x3FFF && address & 0x100 == 0x100 {
                CartView {
                    rom_bank: remap_bank((self.rom_bank & 0xE0) | ((value & 0x1F) as u32)),
                    ..self
                }
            } else {
                self
            }
        } else if self.kind == 5 {
            if address <= 0x3FFF {
                CartView { rom_bank: (self.rom_bank & 0x100) | (value as u32), ..self }
            } else if address <= 0x5FFF {
                CartView {
                    rom_bank: (self.rom_bank & 0xFF) | (((value & 0x01) as u32) << 8),
                    ..self
                }
            } else {
                CartView { ram_bank: (value & 0xF) as u32, ..self }
            }
        } else if address <= 0x3FFF {
            CartView {
                rom_bank: remap_bank((self.rom_bank & 0xE0) | ((value & 0x1F) as u32)),
                ..self
            }
        } else if address <= 0x5FFF {
            if self.rom_banking {
                CartView {
                    rom_bank: remap_bank((self.rom_bank & 0x1F) | ((value & 0xE0) as u32)),
                    ..self
                }
            } else {
                CartView { ram_bank: (value & 0x3) as u32, ..self }
            }
        } else if value & 0x1 == 0 {
            CartView { rom_banking: true, ram_bank: 0, ..self }
        } else {
            CartView { rom_banking: false, rom_bank: remap_bank(self.rom_bank & 0x1F), ..self }
        }
    }

    /// The RAM after a write at `address` while the RAM is enabled.
    pub open spec fn ram_store(self, address: u16, value: u8) -> Seq<u8> {
        let index = if self.kind == 2 {
            ram_offset(address)
        } else {
            0x2000 * self.ram_bank + ram_offset(address)
        };
        if index < self.ram.len() && !(self.kind == 3 && self.ram_bank >= 4) {
            self.ram.update(index, if self.kind == 2 { value & 0xF } else { value })
        } else {
            self.ram
        }
    }

    /// The controller after a write to its RAM area.
    pub open spec fn write_ram(self, address: u16, value: u8) -> CartView {
        if self.kind == 0 || !self.ram_enabled {
            self
        } else if self.kind == 3 && self.ram_bank >= 4 {
            CartView {
                clock: if self.ram_bank < 16 {
                    self.clock.update(self.ram_bank as int, value)
                } else {
                    self.clock
                },
                ..self
            }
        } else {
            CartView { ram: self.ram_store(address, value), ..self }
        }
    }

    /// The controller after loading save data.
    pub open spec fn load(self, data: Seq<u8>) -> CartView {
        if self.kind == 0 {
            self
        } else if self.kind == 3 {
            CartView { ram: resized(data, 0x8000), ..self }
        } else {
            CartView { ram: data, ..self }
        }
    }

    /// The save data.
    pub open spec fn save(self) -> Seq<u8> {
        if self.kind == 0 {
            Seq::empty()
        } else {
            self.ram
        }
    }
}

/// One variant per controller chip.
pub enum Controller {
    Rom(ROM),
    Mbc1(MBC1),
    Mbc2(MBC2),
    Mbc3(MBC3),
    Mbc5(MBC5),
}

impl View for Controller {
    type V = CartView;

    open spec fn view(&self) -> CartView {
        match self {
            Controller::Rom(m) => CartView {
                kind: 0,
                rom: m.rom@,
                rom_bank: 0,
                ram: Seq::empty(),
                ram_bank: 0,
                ram_enabled: false,
                rom_banking: false,
                clock: Seq::empty(),
                latched_clock: Seq::empty(),
                latched: false,
                latch_pending: false,
            },
            Controller::Mbc1(m) => CartView {
                kind: 1,
                rom: m.rom@,
                rom_bank: m.rom_bank,
                ram: m.ram@,
                ram_bank: m.ram_bank,
                ram_enabled: m.ram_enabled,
                rom_banking: m.rom_banking,
                clock: Seq::empty(),
                latched_clock: Seq::empty(),
                latched: false,
                latch_pending: false,
            },
            Controller::Mbc2(m) => CartView {
                kind: 2,
                rom: m.rom@,
                rom_bank: m.rom_bank,
                ram: m.ram@,
                ram_bank: 0,
                ram_enabled: m.ram_enabled,
                rom_banking: false,
                clock: Seq::empty(),
                latched_clock: Seq::empty(),
                latched: false,
                latch_pending: false,
            },
            Controller::Mbc3(m) => CartView {
                kind: 3,
                rom: m.rom@,
                rom_bank: m.rom_bank,
                ram: m.ram@,
                ram_bank: m.ram_bank,
                ram_enabled: m.ram_enabled,
                rom_banking: false,
                clock: m.clock@,
                latched_clock: m.latched_clock@,
                latched: m.latched,
                latch_pending: m.latch_pending,
            },
            Controller::Mbc5(m) => CartView {
                kind: 5,
                rom: m.rom@,
                rom_bank: m.rom_bank,
                ram: m.ram@,
                ram_bank: m.ram_bank,
                ram_enabled: m.ram_enabled,
                rom_banking: false,
                clock: Seq::empty(),
                latched_clock: Seq::empty(),
                latched: false,
                latch_pending: false,
            },
        }
    }
}

/// The controller's own description of each operation agrees with its view.
pub proof fn lemma_view_agrees(c: Controller, next: Controller, address: u16, value: u8, data: Seq<u8>)
    ensures
        c.read_spec(address) == c@.read(address),
        c.save_spec() == c@.save(),
        c.rom_written(address, value)@ == c@.write_rom(address, value),
        c.ram_written(&next, address, value) ==> next@ == c@.write_ram(address, value),
        c.loaded(&next, data) ==> next@ == c@.load(data),
{
    if let Controller::Mbc3(m) = c {
        assert(c.rom_written(address, value)@.clock =~= c@.write_rom(address, value).clock);
        assert(c.rom_written(address, value)@.latched_clock =~= c@.write_rom(address, value).latched_clock);
    }
    if c.ram_written(&next, address, value) {
        match (c, next) {
            (Controller::Mbc3(m), Controller::Mbc3(n)) => {
                assert(next@.ram =~= c@.write_ram(address, value).ram);
                assert(next@.clock =~= c@.write_ram(address, value).clock);
            },
            _ => {
                assert(next@.ram =~= c@.write_ram(address, value).ram);
            },
        }
    }
    if c.loaded(&next, data) {
        match (c, next) {
            (Controller::Mbc3(m), Controller::Mbc3(n)) => {
                assert(next@.clock =~= c@.load(data).clock);
                assert(next@.latched_clock =~= c@.load(data).latched_clock);
            },
            _ => {},
        }
    }
}

impl BankingController for Controller {
    open spec fn read_spec(&self, address: u16) -> u8 {
        match self {
            Controller::Rom(c) => c.read_spec(address),
            Controller::Mbc1(c) => c.read_spec(address),
            Controller::Mbc2(c) => c.read_spec(address),
            Controller::Mbc3(c) => c.read_spec(address),
            Controller::Mbc5(c) => c.read_spec(address),
        }
    }

    open spec fn rom_written(&self, address: u16, value: u8) -> Self {
        match self {
            Controller::Rom(c) => Controller::Rom(c.rom_written(address, value)),
            Controller::Mbc1(c) => Controller::Mbc1(c.rom_written(address, value)),
            Controller::Mbc2(c) => Controller::Mbc2(c.rom_written(address, value)),
            Controller::Mbc3(c) => Controller::Mbc3(c.rom_written(address, value)),
            Controller::Mbc5(c) => Controller::Mbc5(c.rom_written(address, value)),
        }
    }

    open spec fn ram_written(&self, next: &Self, address: u16, value: u8) -> bool {
        match (self, next) {
            (Controller::Rom(c), Controller::Rom(d)) => c.ram_written(d, address, value),
            (Controller::Mbc1(c), Controller::Mbc1(d)) => c.ram_written(d, address, value),
            (Controller::Mbc2(c), Controller::Mbc2(d)) => c.ram_written(d, address, value),
            (Controller::Mbc3(c), Controller::Mbc3(d)) => c.ram_written(d, address, value),
            (Controller::Mbc5(c), Controller::Mbc5(d)) => c.ram_written(d, address, value),
            _ => false,
        }
    }

    open spec fn save_spec(&self) -> Seq<u8> {
        match self {
            Controller::Rom(c) => c.save_spec(),
            Controller::Mbc1(c) => c.save_spec(),
            Controller::Mbc2(c) => c.save_spec(),
            Controller::Mbc3(c) => c.save_spec(),
            Controller::Mbc5(c) => c.save_spec(),
        }
    }

    open spec fn loaded(&self, next: &Self, data: Seq<u8>) -> bool {
        match (self, next) {
            (Controller::Rom(c), Controller::Rom(d)) => c.loaded(d, data),
            (Controller::Mbc1(c), Controller::Mbc1(d)) => c.loaded(d, data),
            (Controller::Mbc2(c), Controller::Mbc2(d)) => c.loaded(d, data),
            (Controller::Mbc3(c), Controller::Mbc3(d)) => c.loaded(d, data),
            (Controller::Mbc5(c), Controller::Mbc5(d)) => c.loaded(d, data),
            _ => false,
        }
    }

    open spec fn same_state(&self, other: &Self) -> bool {
        match (self, other) {
            (Controller::Rom(c), Controller::Rom(d)) => c.same_state(d),
            (Controller::Mbc1(c), Controller::Mbc1(d)) => c.same_state(d),
            (Controller::Mbc2(c), Controller::Mbc2(d)) => c.same_state(d),
            (Controller::Mbc3(c), Controller::Mbc3(d)) => c.same_state(d),
            (Controller::Mbc5(c), Controller::Mbc5(d)) => c.same_state(d),
            _ => false,
        }
    }

    fn read(&self, address: u16) -> (r: u8) {
        match self {
            Controller::Rom(c) => c.read(address),
            Controller::Mbc1(c) => c.read(address),
            Controller::Mbc2(c) => c.read(address),
            Controller::Mbc3(c) => c.read(address),
            Controller::Mbc5(c) => c.read(address),
        }
    }

    fn write_rom(&mut self, address: u16, value: u8) {
        match self {
            Controller::Rom(c) => c.write_rom(address, value),
            Controller::Mbc1(c) => c.write_rom(address, value),
            Controller::Mbc2(c) => c.write_rom(address, value),
            Controller::Mbc3(c) => c.write_rom(address, value),
            Controller::Mbc5(c) => c.write_rom(address, value),
        }
    }

    fn write_ram(&mut self, address: u16, value: u8) {
        match self {
            Controller::Rom(c) => c.write_ram(address, value),
            Controller::Mbc1(c) => c.write_ram(address, value),
            Controller::Mbc2(c) => c.write_ram(address, value),
            Controller::Mbc3(c) => c.write_ram(address, value),
            Controller::Mbc5(c) => c.write_ram(address, value),
        }
    }

    fn get_save_data(&self) -> (r: Vec<u8>) {
        match self {
            Controller::Rom(c) => c.get_save_data(),
            Controller::Mbc1(c) => c.get_save_data(),
            Controller::Mbc2(c) => c.get_save_data(),
            Controller::Mbc3(c) => c.get_save_data(),
            Controller::Mbc5(c) => c.get_save_data(),
        }
    }

    fn load_save_data(&mut self, data: Vec<u8>) {
        match self {
            Controller::Rom(c) => c.load_save_data(data),
            Controller::Mbc1(c) => c.load_save_data(data),
            Controller::Mbc2(c) => c.load_save_data(data),
            Controller::Mbc3(c) => c.load_save_data(data),
            Controller::Mbc5(c) => c.load_save_data(data),
        }
    }
}


/// The header byte at `i`, or 0 when the image is shorter.
pub open spec fn header_byte(rom: Seq<u8>, i: int) -> u8 {
    if 0 <= i < rom.len() {
        rom[i]
    } else {
        0
    }
}

/// The chip a header type byte selects: 0 for plain ROM, else the number of
/// the banking controller.
pub open spec fn kind_for(flag: u8) -> u8 {
    if flag == 0x00 || flag == 0x08 || flag == 0x09 || flag == 0x0B || flag == 0x0C || flag
        == 0x0D {
        0
    } else if flag <= 0x03 {
        1
    } else if flag <= 0x06 {
        2
    } else if flag <= 0x13 {
        3
    } else if flag <= 0x17 {
        1
    } else if flag <= 0x1F {
        5
    } else {
        1
    }
}

/// The chip a controller is.
pub open spec fn kind_of(c: Controller) -> u8 {
    match c {
        Controller::Rom(_) => 0,
        Controller::Mbc1(_) => 1,
        Controller::Mbc2(_) => 2,
        Controller::Mbc3(_) => 3,
        Controller::Mbc5(_) => 5,
    }
}

/// The ROM image a controller was made from.
pub open spec fn rom_of(c: Controller) -> Seq<u8> {
    match c {
        Controller::Rom(m) => m.rom@,
        Controller::Mbc1(m) => m.rom@,
        Controller::Mbc2(m) => m.rom@,
        Controller::Mbc3(m) => m.rom@,
        Controller::Mbc5(m) => m.rom@,
    }
}

/// The controller a fresh cartridge starts with: bank 1 paged in, RAM bank
/// 0, RAM disabled, and the banking mode or clock latch off.
pub open spec fn is_fresh(c: Controller) -> bool {
    match c {
        Controller::Rom(_) => true,
        Controller::Mbc1(m) => m.rom_bank == 1 && m.ram_bank == 0 && !m.ram_enabled
            && !m.rom_banking && m.ram@ == Seq::new(0x8000, |i: int| 0u8),
        Controller::Mbc2(m) => m.rom_bank == 1 && !m.ram_enabled && m.ram@ == Seq::new(
            0x2000,
            |i: int| 0u8,
        ),
        Controller::Mbc3(m) => m.rom_bank == 1 && m.ram_bank == 0 && !m.ram_enabled && !m.latched
            && !m.latch_pending
            && m.ram@ == Seq::new(0x8000, |i: int| 0u8) && m.clock@ == Seq::new(16, |i: int| 0u8)
            && m.latched_clock@ == Seq::new(16, |i: int| 0u8),
        Controller::Mbc5(m) => m.rom_bank == 1 && m.ram_bank == 0 && !m.ram_enabled && m.ram@
            == Seq::new(0x20000, |i: int| 0u8),
    }
}

/// The title: the non-NUL bytes of header bytes 0x134 to 0x141.
pub open spec fn title_of(rom: Seq<u8>) -> Seq<u8> {
    title_prefix(rom, 14)
}

/// The non-NUL bytes among the first `n` title bytes.
pub open spec fn title_prefix(rom: Seq<u8>, n: int) -> Seq<u8>
    decreases n,
{
    if n <= 0 {
        Seq::empty()
    } else if header_byte(rom, 0x134 + n - 1) != 0 {
        title_prefix(rom, n - 1).push(header_byte(rom, 0x134 + n - 1))
    } else {
        title_prefix(rom, n - 1)
    }
}

/// The hardware mode the header's byte 0x143 asks for.
pub open spec fn mode_for(b: u8) -> u8 {
    if b == 0x80 {
        BOTH_MODE
    } else if b == 0xC0 {
        CBG_MODE
    } else {
        GB_MODE
    }
}

/// Type bytes of controllers with battery-backed RAM.
pub open spec fn battery_backed(flag: u8) -> bool {
    flag == 0x03 || flag == 0x06 || flag == 0x09 || flag == 0x0D || flag == 0x0F || flag == 0x10
        || flag == 0x13 || flag == 0x17 || flag == 0x1B || flag == 0x1E || flag == 0xFF
}

pub const GB_MODE: u8 = 1;

pub const CBG_MODE: u8 = 2;

pub const BOTH_MODE: u8 = 3;

/// A loaded cartridge: its controller, its title and the hardware it asks for.
pub struct Cart {
    pub banking_controller: Controller,
    pub title: Vec<u8>,
    pub filename: String,
    pub mode: u8,
    pub cart_type: u8,
}

/// Reads a header byte, or 0 past the end of a short image.
fn header_at(rom: &Vec<u8>, i: usize) -> (r: u8)
    ensures
        r == header_byte(rom@, i as int),
{
    if i < rom.len() {
        rom[i]
    } else {
        0
    }
}

impl Cart {
    pub fn read(&self, address: u16) -> (r: u8)
        ensures
            r == self.banking_controller@.read(address),
    {
        proof {
            lemma_view_agrees(self.banking_controller, self.banking_controller, address, 0, Seq::empty());
        }
        self.banking_controller.read(address)
    }

    pub fn write_rom(&mut self, address: u16, value: u8)
        ensures
            final(self).banking_controller@ == old(self).banking_controller@.write_rom(address, value),
            final(self).title == old(self).title,
            final(self).filename == old(self).filename,
            final(self).mode == old(self).mode,
            final(self).cart_type == old(self).cart_type,
    {
        proof {
            lemma_view_agrees(self.banking_controller, self.banking_controller, address, value, Seq::empty());
        }
        self.banking_controller.write_rom(address, value);
    }

    pub fn write_ram(&mut self, address: u16, value: u8)
        ensures
            final(self).banking_controller@ == old(self).banking_controller@.write_ram(address, value),
            final(self).title == old(self).title,
            final(self).filename == old(self).filename,
            final(self).mode == old(self).mode,
            final(self).cart_type == old(self).cart_type,
    {
        let ghost before = self.banking_controller;
        self.banking_controller.write_ram(address, value);
        proof {
            lemma_view_agrees(before, self.banking_controller, address, value, Seq::empty());
        }
    }

    /// The save data of the controller.
    pub fn get_save_date(&self) -> (r: Vec<u8>)
        ensures
            r@ == self.banking_controller@.save(),
    {
        proof {
            lemma_view_agrees(self.banking_controller, self.banking_controller, 0, 0, Seq::empty());
        }
        self.banking_controller.get_save_data()
    }

    /// Loads save data, as read from the save file, into the controller.
    pub fn load_save_data(&mut self, data: Vec<u8>)
        ensures
            final(self).banking_controller@ == old(self).banking_controller@.load(data@),
            final(self).title == old(self).title,
            final(self).filename == old(self).filename,
            final(self).mode == old(self).mode,
            final(self).cart_type == old(self).cart_type,
    {
        let ghost before = self.banking_controller;
        let ghost d = data@;
        self.banking_controller.load_save_data(data);
        proof {
            lemma_view_agrees(before, self.banking_controller, 0, 0, d);
        }
    }

    /// Whether the controller keeps its RAM on a battery, so that a save file
    /// belongs to it.
    pub fn has_battery(&self) -> (r: bool)
        ensures
            r == battery_backed(self.cart_type),
    {
        let flag = self.cart_type;
        flag == 0x3 || flag == 0x6 || flag == 0x9 || flag == 0xD || flag == 0xF || flag == 0x10
            || flag == 0x13 || flag == 0x17 || flag == 0x1B || flag == 0x1E || flag == 0xFF
    }

    /// The controller that a header type byte selects.
    pub fn get_banking_controller(flag: u8, rom: Vec<u8>) -> (r: Controller)
        ensures
            kind_of(r) == kind_for(flag),
            rom_of(r) == rom@,
            is_fresh(r),
    {
        match flag {
            0x00 | 0x08 | 0x09 | 0x0B | 0x0C | 0x0D => ROM::new_as_bc(rom),
            0..=0x03 => MBC1::new_as_bc(rom),
            0x04..=0x06 => MBC2::new_as_bc(rom),
            0x07..=0x13 => MBC3::new_as_bc(rom),
            0x14..=0x17 => MBC1::new_as_bc(rom),
            0x18..=0x1F => MBC5::new_as_bc(rom),
            _ => MBC1::new_as_bc(rom),
        }
    }

    /// Builds the cartridge from its ROM image; `filename` names the image
    /// so that its save file can be found beside it.
    pub fn new(filename: &str, rom: Vec<u8>) -> (r: Cart)
        ensures
            r.mode == mode_for(header_byte(rom@, 0x143)),
            r.cart_type == header_byte(rom@, 0x147),
            kind_of(r.banking_controller) == kind_for(header_byte(rom@, 0x147)),
            rom_of(r.banking_controller) == rom@,
            is_fresh(r.banking_controller),
            r.title@ == title_of(rom@),
            r.filename@ == filename@,
    {
        let mode_byte = header_at(&rom, 0x143);
        let mode = if mode_byte == 0x80 {
            BOTH_MODE
        } else if mode_byte == 0xC0 {
            CBG_MODE
        } else {
            GB_MODE
        };
        let flag = header_at(&rom, 0x147);
        let mut title: Vec<u8> = Vec::new();
        let mut i: usize = 0x134;
        while i < 0x142
            invariant
                0x134 <= i <= 0x142,
                title@ == title_prefix(rom@, i - 0x134),
            decreases 0x142 - i,
        {
            let chr = header_at(&rom, i);
            if chr != 0x00 {
                title.push(chr);
            }
            i += 1;
        }
        let banking_controller = Cart::get_banking_controller(flag, rom);
        Cart { banking_controller, title, filename: filename.to_owned(), mode, cart_type: flag }
    }
}

/// The controller keeps its save data at the size it reports: the clock
/// chip's RAM stays at its full 0x8000 bytes.
pub open spec fn save_size_ok(c: Controller) -> bool {
    match c {
        Controller::Mbc3(m) => m.ram@.len() == 0x8000,
        _ => true,
    }
}

/// Whether writes to the external RAM are taken.
pub open spec fn ram_on(c: Controller) -> bool {
    match c {
        Controller::Rom(_) => false,
        Controller::Mbc1(m) => m.ram_enabled,
        Controller::Mbc2(m) => m.ram_enabled,
        Controller::Mbc3(m) => m.ram_enabled,
        Controller::Mbc5(m) => m.ram_enabled,
    }
}

/// Whether the RAM byte that `address` selects exists, in a controller
/// whose RAM holds whole bytes.
pub open spec fn byte_ram_at(c: Controller, address: u16) -> bool {
    match c {
        Controller::Mbc1(m) => 0x2000 * m.ram_bank + ram_offset(address) < m.ram@.len(),
        Controller::Mbc3(m) => m.ram_bank < 4 && 0x2000 * m.ram_bank + ram_offset(address)
            < m.ram@.len(),
        Controller::Mbc5(m) => 0x2000 * m.ram_bank + ram_offset(address) < m.ram@.len(),
        _ => false,
    }
}

/// Loading the save data that a controller gives leaves the controller as it was.
pub proof fn lemma_save_round_trip(c: Controller, next: Controller)
    requires
        save_size_ok(c),
        c.loaded(&next, c.save_spec()),
    ensures
        c.same_state(&next),
{
    match c {
        Controller::Mbc3(m) => {
            if let Controller::Mbc3(n) = next {
                assert(m.ram@.subrange(0, 0x8000) =~= m.ram@);
            }
        },
        _ => {},
    }
}

/// Writing 0xA to the RAM-enable range and then a byte to 0xA000 reads back
/// that byte, wherever the selected RAM bank holds address 0xA000.
pub proof fn lemma_enabled_ram_reads_back(c: Controller, next: Controller, value: u8)
    requires
        byte_ram_at(c.rom_written(0x0000, 0x0A), 0xA000),
        c.rom_written(0x0000, 0x0A).ram_written(&next, 0xA000, value),
    ensures
        next.read_spec(0xA000) == value,
{
    assert(0x0Au8 & 0xF == 0xA && 0x0Au8 & 0xA != 0) by (bit_vector);
}

/// With the RAM disabled, a write to the RAM area changes nothing.
pub proof fn lemma_disabled_ram_write_is_noop(c: Controller, next: Controller, address: u16, value: u8)
    requires
        !ram_on(c),
        c.ram_written(&next, address, value),
    ensures
        c.same_state(&next),
        forall|a: u16| #[trigger] next.read_spec(a) == c.read_spec(a),
{
}

/// On the controllers with a 5-bit low ROM-bank register, a bank-register
/// write whose combined bank number is 0x20 selects bank 0x21; so do 0x00,
/// 0x40 and 0x60 select the bank above.
pub proof fn lemma_bank_0x20_selects_0x21(m: MBC1, address: u16, value: u8)
    requires
        0x2000 <= address <= 0x3FFF ==> (m.rom_bank & 0xE0) | ((value & 0x1F) as u32) == 0x20,
        0x4000 <= address <= 0x5FFF ==> m.rom_banking && (m.rom_bank & 0x1F) | ((value & 0xE0)
            as u32) == 0x20,
        0x2000 <= address <= 0x5FFF,
    ensures
        m.rom_written(address, value).rom_bank == 0x21,
{
}

/// Whether a bank number is one that the paged window cannot show.
pub open spec fn hidden_bank(bank: u32) -> bool {
    bank == 0 || bank == 0x20 || bank == 0x40 || bank == 0x60
}

/// On the first banking controller no write to the ROM area selects a bank
/// that the paged window cannot show, once the bank in use is a visible one:
/// every write that changes the bank register ends with the remap.
pub proof fn lemma_bank_stays_visible(m: MBC1, address: u16, value: u8)
    requires
        !hidden_bank(m.rom_bank),
    ensures
        !hidden_bank(m.rom_written(address, value).rom_bank),
{
}

/// The clock latch: writing 0x00 then 0x01 to the latch register takes a
/// snapshot of the clock registers, and reads of a clock register then
/// return the snapshot, whatever is written to the live registers after.
pub proof fn lemma_clock_latch(m: MBC3, bank: u8, value: u8)
    requires
        4 <= bank < 16,
    ensures
        ({
            let l = m.rom_written(0x6000, 0).rom_written(0x6000, 1);
            &&& l.latched
            &&& l.latched_clock == m.clock
            &&& l.rom_written(0x4000, bank).read_spec(0xA000) == m.clock@[bank as int]
        }),
        forall|n: MBC3|
            m.latched && 4 <= m.ram_bank < 16 && #[trigger] m.ram_written(&n, 0xA000, value)
                ==> n.read_spec(0xA000) == m.read_spec(0xA000),
{
}

/// On the clock controller the RAM-enable latch takes a 4-bit match: low
/// nibble 0xA enables, 0x0 disables, any other value leaves it alone.
pub proof fn lemma_mbc3_enable_match(m: MBC3, address: u16, value: u8)
    requires
        address <= 0x1FFF,
    ensures
        m.rom_written(address, value).ram_enabled == (if value & 0xF == 0xA {
            true
        } else if value & 0xF == 0 {
            false
        } else {
            m.ram_enabled
        }),
{
}

/// The same remap on the 4-bit-RAM controller, whose bank register is
/// written through the addresses with bit 8 set.
pub proof fn lemma_mbc2_bank_0x20_selects_0x21(m: MBC2, address: u16, value: u8)
    requires
        0x2000 <= address <= 0x3FFF,
        address & 0x100 == 0x100,
        (m.rom_bank & 0xE0) | ((value & 0x1F) as u32) == 0x20,
    ensures
        m.rom_written(address, value).rom_bank == 0x21,
{
}

} // verus!
