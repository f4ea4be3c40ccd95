#![allow(unused_imports, dead_code, unused_mut, unused_variables)]

use nes::emulator::flags::Flags;
use nes::emulator::ppu::Ppu;
use nes::emulator::ppu::VBLANK_STARTED;
use nes::emulator::ppu::VRAM_INCREMENT;
use nes::emulator::rom::Mirroring;
use nes::emulator::rom::CHR_ROM_PAGE_SIZE;

fn default_ppu(mirroring: Mirroring) -> Ppu {
    Ppu::new(vec![2; 1 * CHR_ROM_PAGE_SIZE], mirroring)
}

#[test]
fn test_write_address() {
    let mut ppu = default_ppu(Mirroring::HORIZONTAL);

    ppu.write_address(0x20);
    ppu.write_address(0x30);

    let expected = "0x2030";
    assert_eq!(format!("0x{:04X}", ppu.address.value()), expected);
}

#[test]
fn test_increment_address_controller_unset() {
    let mut ppu = default_ppu(Mirroring::HORIZONTAL);

    ppu.write_address(0x20);
    ppu.write_address(0x00);

    ppu.address.next(Flags::empty());

    let expected = "0x2001";
    assert_eq!(format!("0x{:04X}", ppu.address.value()), expected);
}

#[test]
fn test_increment_address_controller_unset_overflow() {
    let mut ppu = default_ppu(Mirroring::HORIZONTAL);

    ppu.write_address(0x20);
    ppu.write_address(0xFF);

    ppu.address.next(Flags::empty());

    let expected = "0x2100";
    assert_eq!(format!("0x{:04X}", ppu.address.value()), expected);
}

#[test]
fn test_increment_address_controller_set() {
    let mut ppu = default_ppu(Mirroring::HORIZONTAL);

    ppu.write_address(0x10);
    ppu.write_address(0x00);

    ppu.address.next(Flags::from_bits_truncate(VRAM_INCREMENT));

    let expected = "0x1020";
    assert_eq!(format!("0x{:04X}", ppu.address.value()), expected);
}

#[test]
fn test_horizontal_mirroring() {
    let mut ppu = default_ppu(Mirroring::HORIZONTAL);

    ppu.write_address(0x20);
    ppu.write_address(0x00);

    ppu.write_data(0x01);

    ppu.write_address(0x24);
    ppu.write_address(0x01);

    ppu.write_data(0x02);

    ppu.write_address(0x28);
    ppu.write_address(0x00);

    ppu.write_data(0x01);

    ppu.write_address(0x2C);
    ppu.write_address(0x01);

    ppu.write_data(0x02);

    let expected = "1 2 \n1 2";
    assert_eq!(format!("{} {} \n{} {}", ppu.vram[0], ppu.vram[1], ppu.vram[0x400], ppu.vram[0x401]), expected);
}

#[test]
fn test_vertical_mirroring() {
    let mut ppu = default_ppu(Mirroring::VERTICAL);

    ppu.write_address(0x20);
    ppu.write_address(0x00);

    ppu.write_data(0x01);

    ppu.write_address(0x24);
    ppu.write_address(0x00);

    ppu.write_data(0x02);

    ppu.write_address(0x28);
    ppu.write_address(0x01);

    ppu.write_data(0x01);

    ppu.write_address(0x2C);
    ppu.write_address(0x01);

    ppu.write_data(0x02);

    let expected = "1 1 \n2 2";
    assert_eq!(format!("{} {} \n{} {}", ppu.vram[0], ppu.vram[1], ppu.vram[0x400], ppu.vram[0x401]), expected);
}

#[test]
fn test_vram_write_0x2000() {
    let mut ppu = default_ppu(Mirroring::HORIZONTAL);

    ppu.write_address(0x20);
    ppu.write_address(0x00);

    ppu.write_data(0x01);

    let expected = "1\n";
    assert_eq!(format!("{:#?}\n", ppu.vram[0]), expected);
}

#[test]
fn test_vram_read_0x2000() {
    let mut ppu = default_ppu(Mirroring::HORIZONTAL);

    ppu.write_address(0x20);
    ppu.write_address(0x00);

    ppu.write_data(0x01);

    ppu.write_address(0x20);
    ppu.write_address(0x00);

    ppu.read_data(); // Dummy read

    let expected = "1\n";
    assert_eq!(format!("{:#?}\n", ppu.read_data()), expected);
}

#[test]
fn test_palette_read() {
    let mut ppu = default_ppu(Mirroring::HORIZONTAL);

    ppu.write_address(0x3F);
    ppu.write_address(0x00);

    ppu.write_data(0x01);

    let expected = "1\n";
    assert_eq!(format!("{:#?}\n", ppu.palette_table[0]), expected);
}

#[test]
fn test_palette_read_mirroring() {
    let mut ppu = default_ppu(Mirroring::HORIZONTAL);

    ppu.write_address(0x3F);
    ppu.write_address(0x10);

    ppu.write_data(0x01);

    let expected = "1\n";
    assert_eq!(format!("{:#?}\n", ppu.palette_table[0]), expected);
}

#[test]
fn test_read_status_reset() {
    let mut ppu = default_ppu(Mirroring::HORIZONTAL);

    ppu.write_scroll(0x03);
    ppu.write_scroll(0x07);

    let expected = "3 7";
    assert_eq!(format!("{} {}", ppu.scroll.x, ppu.scroll.y), expected);
}

#[test]
fn test_read_status() {
    let mut ppu = default_ppu(Mirroring::HORIZONTAL);

    ppu.status.insert(VBLANK_STARTED);
    ppu.scroll.latch = true;
    ppu.address.latch = true;

    ppu.read_status();

    let expected = "00000000 false false";
    assert_eq!(format!("{:08b} {} {}", ppu.status.bits(), ppu.scroll.latch, ppu.address.latch), expected);
}
