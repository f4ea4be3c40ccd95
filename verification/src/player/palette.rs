//! Which colours a tile or a sprite is drawn with, and the drawing of a
//! whole picture from the video unit's memory.

use vstd::prelude::*;
use crate::emulator::flags::raised;
use crate::emulator::ppu::Ppu;
use crate::emulator::ppu::PpuView;
use crate::emulator::ppu::BACKGROUND;
use crate::emulator::ppu::SPRITES_ADDR;
use crate::player::player::sprite_painted;
use crate::player::player::tile_painted;
use crate::player::player::tile_start;
use crate::player::player::Frame;

verus! {

/// Tiles in the visible part of a name table: 30 rows of 32.
pub const FIRST_TABLE_END: usize = 0x03c0;

/// Sprites in object memory, four bytes each.
pub const SPRITES: usize = 64;

/// The colour that palette cell `cell` names among the console's 64.
pub open spec fn colour_of(ppu: PpuView, colours: Seq<(u8, u8, u8)>, cell: int) -> (u8, u8, u8) {
    colours[(ppu.palette_table[cell] & 0x3F) as int]
}

/// Which of the four background palettes the tile in column `x`, row `y`
/// uses: two bits of the attribute byte that covers its four-by-four
/// block of tiles, chosen by the tile's quarter of the block.
pub open spec fn bg_palette_number(ppu: PpuView, x: int, y: int) -> u8 {
    let attribute = ppu.vram[0x3c0 + y / 4 * 8 + x / 4];
    let quarter = (y % 4 / 2) * 2 + x % 4 / 2;
    (attribute >> ((quarter * 2) as u8)) & 0b11
}

/// The four colours of a background tile: the shared backdrop, then the
/// three colours of the tile's palette.
pub open spec fn bg_palette(
    ppu: PpuView,
    colours: Seq<(u8, u8, u8)>,
    x: int,
    y: int,
) -> Seq<(u8, u8, u8)> {
    let start = 1 + bg_palette_number(ppu, x, y) as int * 4;
    seq![
        colour_of(ppu, colours, 0),
        colour_of(ppu, colours, start),
        colour_of(ppu, colours, start + 1),
        colour_of(ppu, colours, start + 2),
    ]
}

/// The four colours of a sprite; the first stands for transparency and
/// is never painted.
pub open spec fn sprite_palette(
    ppu: PpuView,
    colours: Seq<(u8, u8, u8)>,
    palette_idx: u8,
) -> Seq<(u8, u8, u8)> {
    let start = 0x11 + palette_idx as int * 4;
    seq![
        (0u8, 0u8, 0u8),
        colour_of(ppu, colours, start),
        colour_of(ppu, colours, start + 1),
        colour_of(ppu, colours, start + 2),
    ]
}

/// The pattern table that the control register selects with `mask`.
pub open spec fn bank_of(ppu: PpuView, mask: u8) -> int {
    if raised(ppu.controller, mask) {
        1
    } else {
        0
    }
}

/// The sixteen bytes of tile `tile_n` of a pattern table.
pub open spec fn tile_of(ppu: PpuView, bank: int, tile_n: int) -> Seq<u8> {
    ppu.chr_rom.subrange(tile_start(bank, tile_n), tile_start(bank, tile_n) + 16)
}

/// The first `n` tiles of the first name table painted, row by row.
pub open spec fn background_painted(
    data: Seq<u8>,
    ppu: PpuView,
    colours: Seq<(u8, u8, u8)>,
    n: nat,
) -> Seq<u8>
    decreases n,
{
    if n == 0 {
        data
    } else {
        let i = n - 1;
        tile_painted(
            background_painted(data, ppu, colours, i as nat),
            tile_of(ppu, bank_of(ppu, BACKGROUND), ppu.vram[i] as int),
            i % 32,
            i / 32,
            bg_palette(ppu, colours, i % 32, i / 32),
            64,
        )
    }
}

/// The last `n` sprites of object memory painted, the last one first, so
/// that a sprite with a lower number covers one with a higher number.
pub open spec fn sprites_painted(
    data: Seq<u8>,
    ppu: PpuView,
    colours: Seq<(u8, u8, u8)>,
    n: nat,
) -> Seq<u8>
    decreases n,
{
    if n == 0 {
        data
    } else {
        let i = (64 - n) * 4;
        sprite_painted(
            sprites_painted(data, ppu, colours, (n - 1) as nat),
            tile_of(ppu, bank_of(ppu, SPRITES_ADDR), ppu.oam_data[i + 1] as int),
            ppu.oam_data[i + 3] as int,
            ppu.oam_data[i] as int,
            ppu.oam_data[i + 2],
            sprite_palette(ppu, colours, ppu.oam_data[i + 2] & 0b11),
            64,
        )
    }
}

/// The picture of the video unit's memory: the background first, then
/// the sprites over it.
pub open spec fn rendered(data: Seq<u8>, ppu: PpuView, colours: Seq<(u8, u8, u8)>) -> Seq<u8> {
    sprites_painted(background_painted(data, ppu, colours, 0x3c0), ppu, colours, 64)
}

/// Looks a palette cell's colour up.
pub fn colour(ppu: &Ppu, colours: &[(u8, u8, u8); 64], cell: usize) -> (r: (u8, u8, u8))
    requires
        cell < 32,
    ensures
        r == colour_of(ppu@, colours@, cell as int),
{
    let entry = ppu.palette_table[cell];
    assert(entry & 0x3F < 64) by (bit_vector);
    colours[(entry & 0x3F) as usize]
}

/// The four colours of the background tile in column `x`, row `y`.
pub fn palette_bg(ppu: &Ppu, colours: &[(u8, u8, u8); 64], x: usize, y: usize) -> (r: [(
    u8,
    u8,
    u8,
); 4])
    requires
        x < 32,
        y < 30,
    ensures
        r@ == bg_palette(ppu@, colours@, x as int, y as int),
{
    let attribute = ppu.vram[0x3c0 + y / 4 * 8 + x / 4];
    let quarter = (y % 4 / 2) * 2 + x % 4 / 2;
    let shift = (quarter * 2) as u8;
    assert(shift < 8 ==> (attribute >> shift) & 0b11 < 4) by (bit_vector);
    let start = 1 + ((attribute >> shift) & 0b11) as usize * 4;
    let r = [
        colour(ppu, colours, 0),
        colour(ppu, colours, start),
        colour(ppu, colours, start + 1),
        colour(ppu, colours, start + 2),
    ];
    assert(r@ =~= bg_palette(ppu@, colours@, x as int, y as int));
    r
}

/// The four colours of a sprite.
pub fn palette_sprite(ppu: &Ppu, colours: &[(u8, u8, u8); 64], palette_idx: u8) -> (r: [(
    u8,
    u8,
    u8,
); 4])
    requires
        palette_idx < 4,
    ensures
        r@ == sprite_palette(ppu@, colours@, palette_idx),
{
    let start = 0x11 + palette_idx as usize * 4;
    let r = [
        (0, 0, 0),
        colour(ppu, colours, start),
        colour(ppu, colours, start + 1),
        colour(ppu, colours, start + 2),
    ];
    assert(r@ =~= sprite_palette(ppu@, colours@, palette_idx));
    r
}

impl Frame {
    /// Draws the picture of the video unit's memory: the tiles of the
    /// first name table, then the sprites over them.
    pub fn render(&mut self, ppu: &Ppu, colours: &[(u8, u8, u8); 64])
        requires
            ppu@.chr_rom.len() >= 0x2000,
        ensures
            final(self)@ == rendered(old(self)@, ppu@, colours@),
    {
        let bank_bg: usize = if !ppu.controller.contains(BACKGROUND) {
            0
        } else {
            1
        };
        let mut i: usize = 0;
        while i < FIRST_TABLE_END
            invariant
                0 <= i <= FIRST_TABLE_END,
                ppu@.chr_rom.len() >= 0x2000,
                bank_bg == bank_of(ppu@, BACKGROUND),
                self@ == background_painted(old(self)@, ppu@, colours@, i as nat),
            decreases FIRST_TABLE_END - i,
        {
            let tile_n = ppu.vram[i] as usize;
            let palette = palette_bg(ppu, colours, i % 32, i / 32);
            self.render_tile(&ppu.chr_rom, bank_bg, tile_n, i % 32, i / 32, palette);
            i = i + 1;
        }
        let bank_sprite: usize = if !ppu.controller.contains(SPRITES_ADDR) {
            0
        } else {
            1
        };
        let ghost background = self@;
        let mut done: usize = 0;
        while done < SPRITES
            invariant
                0 <= done <= SPRITES,
                ppu@.chr_rom.len() >= 0x2000,
                bank_sprite == bank_of(ppu@, SPRITES_ADDR),
                self@ == sprites_painted(background, ppu@, colours@, done as nat),
            decreases SPRITES - done,
        {
            let i = (SPRITES - 1 - done) * 4;
            let y = ppu.oam_data[i] as usize;
            let x = ppu.oam_data[i + 3] as usize;
            let tile_n = ppu.oam_data[i + 1] as usize;
            let attributes = ppu.oam_data[i + 2];
            assert(attributes & 0b11 < 4) by (bit_vector);
            let palette = palette_sprite(ppu, colours, attributes & 0b11);
            self.render_sprite(&ppu.chr_rom, bank_sprite, tile_n, x, y, attributes, palette);
            done = done + 1;
        }
    }
}

} // verus!
