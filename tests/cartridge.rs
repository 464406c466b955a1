use gb_core::cart::controller::{Cart, Controller};
use gb_core::cart::mbc1::MBC1;
use gb_core::cart::mbc2::MBC2;
use gb_core::cart::mbc3::MBC3;
use gb_core::cart::mbc5::MBC5;
use gb_core::cart::rom::ROM;
use gb_core::cart::BankingController;

fn banked_rom() -> Vec<u8> {
    let mut rom = vec![0u8; 0x4000 * 0x40];
    for bank in 0..0x40usize {
        rom[bank * 0x4000] = bank as u8;
    }
    rom
}

#[test]
fn bank_0x20_selects_0x21() {
    let mut m = MBC1::new(banked_rom());
    m.write_rom(0x6000, 0x00);
    m.write_rom(0x4000, 0x20);
    assert_eq!(m.rom_bank, 0x21);
    m.write_rom(0x2000, 0x00);
    assert_eq!(m.rom_bank, 0x21);
    assert_eq!(m.read(0x4000), 0x21);
    let mut fresh = MBC1::new(banked_rom());
    fresh.write_rom(0x2000, 0x20);
    assert_eq!(fresh.rom_bank, 0x01);
    fresh.write_rom(0x2000, 0x05);
    assert_eq!(fresh.read(0x4000), 0x05);
}

#[test]
fn mbc2_bank_register_needs_bit_8() {
    let mut m = MBC2::new(banked_rom());
    m.write_rom(0x2000, 0x03);
    assert_eq!(m.rom_bank, 1);
    m.write_rom(0x2100, 0x03);
    assert_eq!(m.rom_bank, 3);
    m.write_rom(0x2100, 0x00);
    assert_eq!(m.rom_bank, 1);
}

#[test]
fn ram_enable_then_write_reads_back() {
    let mut controllers = vec![
        MBC1::new_as_bc(banked_rom()),
        MBC3::new_as_bc(banked_rom()),
        MBC5::new_as_bc(banked_rom()),
    ];
    for c in controllers.iter_mut() {
        c.write_ram(0xA000, 0x42);
        assert_eq!(c.read(0xA000), 0x00);
        c.write_rom(0x0000, 0x0A);
        c.write_ram(0xA000, 0x42);
        assert_eq!(c.read(0xA000), 0x42);
    }
}

#[test]
fn mbc2_ram_holds_nibbles() {
    let mut m = MBC2::new(banked_rom());
    m.write_rom(0x0000, 0x0A);
    m.write_ram(0xA000, 0x42);
    assert_eq!(m.read(0xA000), 0x02);
}

#[test]
fn ram_disable_drops_writes() {
    let mut m = MBC1::new(banked_rom());
    m.write_rom(0x0000, 0x0A);
    m.write_ram(0xA001, 0x11);
    m.write_rom(0x0000, 0x00);
    m.write_ram(0xA001, 0x22);
    assert_eq!(m.read(0xA001), 0x11);
}

#[test]
fn mbc3_clock_registers_and_latch() {
    let mut m = MBC3::new(banked_rom());
    m.write_rom(0x0000, 0x0A);
    m.write_rom(0x4000, 0x08);
    m.write_ram(0xA000, 0x2A);
    assert_eq!(m.read(0xA000), 0x2A);
    m.write_rom(0x6000, 0x00);
    m.write_rom(0x6000, 0x01);
    assert!(m.latched);
    m.write_ram(0xA000, 0x05);
    assert_eq!(m.read(0xA000), 0x2A);
    assert_eq!(m.clock[8], 0x05);
    m.write_rom(0x6000, 0x00);
    m.write_rom(0x6000, 0x01);
    assert_eq!(m.read(0xA000), 0x05);
    m.write_rom(0x2000, 0x00);
    assert_eq!(m.rom_bank, 1);
}

#[test]
fn mbc3_latch_needs_zero_then_one() {
    let mut m = MBC3::new(banked_rom());
    m.write_rom(0x0000, 0x0A);
    m.write_rom(0x4000, 0x09);
    m.write_ram(0xA000, 0x11);
    m.write_rom(0x6000, 0x01);
    assert!(!m.latched);
    m.write_rom(0x6000, 0x00);
    m.write_rom(0x6000, 0x02);
    m.write_rom(0x6000, 0x01);
    assert!(!m.latched);
    assert_eq!(m.read(0xA000), 0x11);
}

#[test]
fn mbc3_ram_enable_is_a_nibble_match() {
    let mut m = MBC3::new(banked_rom());
    m.write_rom(0x0000, 0x02);
    assert!(!m.ram_enabled);
    m.write_ram(0xA000, 0x42);
    assert_eq!(m.read(0xA000), 0x00);
    m.write_rom(0x0000, 0x1A);
    assert!(m.ram_enabled);
    m.write_rom(0x0000, 0x08);
    assert!(m.ram_enabled);
    m.write_rom(0x0000, 0x00);
    assert!(!m.ram_enabled);
}

#[test]
fn mbc1_mode_write_remaps_the_bank() {
    let mut m = MBC1::new(banked_rom());
    m.write_rom(0x6000, 0x00);
    m.write_rom(0x4000, 0x80);
    m.write_rom(0x2000, 0x00);
    assert_eq!(m.rom_bank, 0x80);
    m.write_rom(0x6000, 0x01);
    assert_eq!(m.rom_bank, 0x01);
    assert_eq!(m.read(0x4000), 0x01);
}

#[test]
fn mbc5_nine_bit_bank() {
    let mut m = MBC5::new(banked_rom());
    m.write_rom(0x2000, 0x05);
    m.write_rom(0x3000, 0x00);
    assert_eq!(m.rom_bank, 0x00);
    m.write_rom(0x4000, 0x01);
    assert_eq!(m.rom_bank, 0x100);
    m.write_rom(0x2000, 0x07);
    assert_eq!(m.rom_bank, 0x107);
    assert_eq!(m.read(0x4000), 0xFF);
}

#[test]
fn save_round_trip_for_every_controller() {
    let mut controllers = vec![
        ROM::new_as_bc(banked_rom()),
        MBC1::new_as_bc(banked_rom()),
        MBC2::new_as_bc(banked_rom()),
        MBC3::new_as_bc(banked_rom()),
        MBC5::new_as_bc(banked_rom()),
    ];
    for c in controllers.iter_mut() {
        c.write_rom(0x0000, 0x0A);
        c.write_ram(0xA010, 0x07);
        let before: Vec<u8> = (0xA000..0xA020u16).map(|a| c.read(a)).collect();
        let save = c.get_save_data();
        c.load_save_data(save.clone());
        let after: Vec<u8> = (0xA000..0xA020u16).map(|a| c.read(a)).collect();
        assert_eq!(before, after);
        assert_eq!(c.get_save_data(), save);
    }
}

#[test]
fn mbc3_save_data_is_resized() {
    let mut m = MBC3::new(banked_rom());
    m.load_save_data(vec![1, 2, 3]);
    assert_eq!(m.get_save_data().len(), 0x8000);
    assert_eq!(m.ram[2], 3);
    assert_eq!(m.ram[3], 0);
}

#[test]
fn reads_past_the_image_are_open_bus() {
    let m = ROM::new(vec![1, 2, 3]);
    assert_eq!(m.read(0x0002), 3);
    assert_eq!(m.read(0x0100), 0xFF);
}

#[test]
fn cartridge_header() {
    let mut rom = vec![0u8; 0x8000];
    let title = b"TETRIS\0\0DX";
    rom[0x134..0x134 + title.len()].copy_from_slice(title);
    rom[0x143] = 0x80;
    rom[0x147] = 0x03;
    let cart = Cart::new("game.gb", rom);
    assert_eq!(cart.title, b"TETRISDX".to_vec());
    assert_eq!(cart.mode, 3);
    assert!(cart.has_battery());
    assert!(matches!(cart.banking_controller, Controller::Mbc1(_)));
    let empty = Cart::new("missing.gb", Vec::new());
    assert_eq!(empty.mode, 1);
    assert!(matches!(empty.banking_controller, Controller::Rom(_)));
    assert!(empty.title.is_empty());
    assert_eq!(empty.read(0x0000), 0xFF);
}

#[test]
fn controller_selection_by_type_byte() {
    let kinds = [
        (0x00u8, 0u8), (0x01, 1), (0x03, 1), (0x05, 2), (0x06, 2), (0x08, 0), (0x0F, 3), (0x13, 3),
        (0x19, 5), (0x1E, 5), (0xFF, 1),
    ];
    for (flag, kind) in kinds {
        let got = match Cart::get_banking_controller(flag, vec![0u8; 0x100]) {
            Controller::Rom(_) => 0,
            Controller::Mbc1(_) => 1,
            Controller::Mbc2(_) => 2,
            Controller::Mbc3(_) => 3,
            Controller::Mbc5(_) => 5,
        };
        assert_eq!(got, kind, "type byte {:#x}", flag);
    }
}
