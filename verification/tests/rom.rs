#![allow(unused_imports, dead_code, unused_mut, unused_variables)]

use nes::emulator::rom::Mirroring;
use nes::emulator::rom::Rom;
use nes::emulator::rom::CHR_ROM_PAGE_SIZE;
use nes::emulator::rom::PRG_ROM_PAGE_SIZE;

const HEADER_LEN: usize = 16;

const NES_HEADER: [u8; 4] = [0x4E, 0x45, 0x53, 0x1A];

struct TestRom {
    nes_header: [u8; 4],
    num_prg_rom: u8,
    num_chr_rom: u8,
    num_prg_ram: u8,
    flags_6: u8,
    flags_7: u8,
    trainer: Option<Vec<u8>>,
}

impl TestRom {
    fn get_header(&self) -> [u8; 16] {
        let mut header = [0; 16];
        header[0..4].copy_from_slice(&self.nes_header);
        header[4] = self.num_prg_rom;
        header[5] = self.num_chr_rom;
        header[6] = self.flags_6;
        header[7] = self.flags_7;
        header[8] = self.num_prg_ram;
        header
    }

    fn get_size(&self) -> usize {
        let mut size = HEADER_LEN;
        if self.trainer.is_some() {
            size += 512;
        }
        size += self.num_prg_rom as usize * PRG_ROM_PAGE_SIZE;
        size += self.num_chr_rom as usize * CHR_ROM_PAGE_SIZE;
        size
    }

    fn test_rom_raw(&self) -> Vec<u8> {
        let mut rom = Vec::with_capacity(self.get_size());
        rom.extend_from_slice(&self.get_header());
        if let Some(trainer) = &self.trainer {
            rom.extend_from_slice(trainer);
        }
        rom.extend(vec![1; self.num_prg_rom as usize * PRG_ROM_PAGE_SIZE]);
        rom.extend(vec![2; self.num_chr_rom as usize * CHR_ROM_PAGE_SIZE]);
        rom
    }
}

#[test]
fn test_invalid_nes_header() {
    let header = [0x4E, 0x45, 0x53, 0x1B];
    let num_prg_banks = 1;
    let num_chr_banks = 2;
    let flags_6 = 0b0000_0000;
    let flags_7 = 0b0000_0000;

    let rom = TestRom {
        nes_header: header,
        num_prg_rom: num_prg_banks,
        num_chr_rom: num_chr_banks,
        num_prg_ram: 0,
        flags_6,
        flags_7,
        trainer: None,
    };

    let cartridge = rom.test_rom_raw();
    let rom = Rom::new(cartridge);

    let expected = "Err(\n    \"Invalid NES Header\",\n)\n";
    assert_eq!(format!("{:#?}\n", rom), expected);
}

#[test]
fn test_invalid_nes_version() {
    let header = NES_HEADER;
    let num_prg_banks = 1;
    let num_chr_banks = 2;
    let flags_6 = 0b0000_0000;
    let flags_7 = 0b0000_1100;

    let rom = TestRom {
        nes_header: header,
        num_prg_rom: num_prg_banks,
        num_chr_rom: num_chr_banks,
        num_prg_ram: 0,
        flags_6,
        flags_7,
        trainer: None,
    };

    let cartridge = rom.test_rom_raw();
    let rom = Rom::new(cartridge);

    let expected = "Err(\n    \"Unsupported NES Version\",\n)\n";
    assert_eq!(format!("{:#?}\n", rom), expected);
}

#[test]
fn test_vertical_monitor() {
    let header = NES_HEADER;
    let num_prg_banks = 1;
    let num_chr_banks = 2;
    let flags_6 = 0b0000_0001;
    let flags_7 = 0b0000_0000;

    let rom = TestRom {
        nes_header: header,
        num_prg_rom: num_prg_banks,
        num_chr_rom: num_chr_banks,
        num_prg_ram: 0,
        flags_6,
        flags_7,
        trainer: None,
    };

    let cartridge = rom.test_rom_raw();
    let rom = Rom::new(cartridge).unwrap();

    let expected = "VERTICAL\n";
    assert_eq!(format!("{:#?}\n", rom.screen_mirroring), expected);
}
