//! Cartridge images: the sixteen-byte header and the three regions that the
//! bus consumes.

use vstd::prelude::*;
use vstd::slice::slice_subrange;
use vstd::slice::slice_to_vec;

verus! {

/// How the video unit's four logical name tables fold onto its two physical ones.
#[derive(Debug, PartialEq, Eq, Clone, Copy, Structural)]
pub enum Mirroring {
    VERTICAL,
    HORIZONTAL,
    FOURSCREEN,
}

/// A parsed cartridge.
#[derive(Debug, PartialEq)]
pub struct Rom {
    pub prg_rom: Vec<u8>,
    pub chr_rom: Vec<u8>,
    pub mapper: u8,
    pub screen_mirroring: Mirroring,
}

pub const PRG_ROM_PAGE_SIZE: usize = 0x4000;

pub const CHR_ROM_PAGE_SIZE: usize = 0x2000;

pub const HEADER_LEN: usize = 16;

pub const TRAINER_LEN: usize = 512;

/// The image opens with the four magic bytes `N`, `E`, `S`, end-of-file.
pub open spec fn header_ok(image: Seq<u8>) -> bool {
    image[0] == 0x4E && image[1] == 0x45 && image[2] == 0x53 && image[3] == 0x1A
}

/// The image is of the first format version.
pub open spec fn version_ok(image: Seq<u8>) -> bool {
    image[7] & 0b0000_1100 == 0
}

/// Length of the program region, in bytes.
pub open spec fn prg_len(image: Seq<u8>) -> int {
    image[4] as int * 0x4000
}

/// Length of the character region, in bytes.
pub open spec fn chr_len(image: Seq<u8>) -> int {
    image[5] as int * 0x2000
}

/// Offset of the program region: after the header and the optional trainer.
pub open spec fn prg_start(image: Seq<u8>) -> int {
    if image[6] & 0b0000_0100 != 0 {
        528
    } else {
        16
    }
}

/// Offset of the character region, which follows the program region.
pub open spec fn chr_start(image: Seq<u8>) -> int {
    prg_start(image) + prg_len(image)
}

/// Mapper number: low nibble from flag byte 6, high nibble from flag byte 7.
pub open spec fn mapper_of(image: Seq<u8>) -> u8 {
    (image[6] >> 4) | (image[7] & 0b1111_0000)
}

/// Mirroring mode: the vertical bit wins over the four-screen bit.
pub open spec fn mirroring_of(image: Seq<u8>) -> Mirroring {
    if image[6] & 0b0000_0001 != 0 {
        Mirroring::VERTICAL
    } else if image[6] & 0b0000_1000 != 0 {
        Mirroring::FOURSCREEN
    } else {
        Mirroring::HORIZONTAL
    }
}

/// The program region of an image.
pub open spec fn prg_of(image: Seq<u8>) -> Seq<u8> {
    image.subrange(prg_start(image), chr_start(image))
}

/// The character region of an image.
pub open spec fn chr_of(image: Seq<u8>) -> Seq<u8> {
    image.subrange(chr_start(image), chr_start(image) + chr_len(image))
}

/// The image is long enough for every byte that parsing looks at: the magic
/// bytes; with a valid magic, the rest of the header fields; and with a
/// supported version, both regions that the header announces.
pub open spec fn image_complete(image: Seq<u8>) -> bool {
    &&& image.len() >= 4
    &&& header_ok(image) ==> image.len() >= 8
    &&& header_ok(image) && version_ok(image) ==> image.len() >= chr_start(image) + chr_len(image)
}

impl Rom {
    /// Decides `image_complete`.
    pub fn complete(cartridge: &Vec<u8>) -> (r: bool)
        ensures
            r == image_complete(cartridge@),
    {
        if cartridge.len() < 4 {
            return false;
        }
        if !(cartridge[0] == 0x4E && cartridge[1] == 0x45 && cartridge[2] == 0x53 && cartridge[3]
            == 0x1A) {
            return true;
        }
        if cartridge.len() < 8 {
            return false;
        }
        if cartridge[7] & 0b0000_1100 != 0 {
            return true;
        }
        let prg: usize = cartridge[4] as usize * PRG_ROM_PAGE_SIZE;
        let chr: usize = cartridge[5] as usize * CHR_ROM_PAGE_SIZE;
        let start: usize = if cartridge[6] & 0b0000_0100 != 0 {
            HEADER_LEN + TRAINER_LEN
        } else {
            HEADER_LEN
        };
        cartridge.len() >= start + prg + chr
    }

    /// Parses a cartridge image.
    ///
    /// A wrong magic is reported first, then an unsupported version; otherwise
    /// the two regions are cut out of the image as the header lays them out.
    pub fn new(cartridge: Vec<u8>) -> (r: Result<Rom, String>)
        requires
            image_complete(cartridge@),
        ensures
            match r {
                Ok(rom) => {
                    &&& header_ok(cartridge@)
                    &&& version_ok(cartridge@)
                    &&& rom.prg_rom@ == prg_of(cartridge@)
                    &&& rom.chr_rom@ == chr_of(cartridge@)
                    &&& rom.mapper == mapper_of(cartridge@)
                    &&& rom.screen_mirroring == mirroring_of(cartridge@)
                },
                Err(e) => {
                    ||| !header_ok(cartridge@) && e@ == "Invalid NES Header"@
                    ||| header_ok(cartridge@) && !version_ok(cartridge@) && e@
                        == "Unsupported NES Version"@
                },
            },
    {
        if !(cartridge[0] == 0x4E && cartridge[1] == 0x45 && cartridge[2] == 0x53 && cartridge[3]
            == 0x1A) {
            return Err("Invalid NES Header".to_string());
        }
        let prg_rom_size: usize = cartridge[4] as usize * PRG_ROM_PAGE_SIZE;
        let chr_rom_size: usize = cartridge[5] as usize * CHR_ROM_PAGE_SIZE;

        let flag_6: u8 = cartridge[6];
        let flag_7: u8 = cartridge[7];

        let mapper: u8 = (flag_6 >> 4) | (flag_7 & 0b1111_0000);

        let screen_mirroring = if flag_6 & 0b0000_0001 != 0 {
            Mirroring::VERTICAL
        } else if flag_6 & 0b0000_1000 != 0 {
            Mirroring::FOURSCREEN
        } else {
            Mirroring::HORIZONTAL
        };

        let trainer_exists = flag_6 & 0b0000_0100 != 0;

        let prg_rom_start: usize = if trainer_exists {
            HEADER_LEN + TRAINER_LEN
        } else {
            HEADER_LEN
        };
        let chr_rom_start: usize = prg_rom_start + prg_rom_size;

        if flag_7 & 0b0000_1100 != 0 {
            return Err("Unsupported NES Version".to_string());
        }
        let bytes = cartridge.as_slice();
        Ok(
            Rom {
                prg_rom: slice_to_vec(slice_subrange(bytes, prg_rom_start, chr_rom_start)),
                chr_rom: slice_to_vec(
                    slice_subrange(bytes, chr_rom_start, chr_rom_start + chr_rom_size),
                ),
                mapper,
                screen_mirroring,
            },
        )
    }
}

} // verus!
