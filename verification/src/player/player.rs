//! The frame buffer: one picture of 256 by 240 pixels, three bytes a pixel,
//! and the painting of pattern tiles into it.

use vstd::prelude::*;

verus! {

/// Pixels in a row.
pub const WIDTH: usize = 256;

/// Rows in a picture.
pub const HEIGHT: usize = 240;

/// Bytes in a pixel: red, green, blue.
pub const RGB_DATA_LEN: usize = 3;

/// Bytes in a picture.
pub const FRAME_LEN: usize = 184320;

/// A picture, row by row.
pub struct Frame {
    pub data: Vec<u8>,
}

impl View for Frame {
    type V = Seq<u8>;

    open spec fn view(&self) -> Seq<u8> {
        self.data@
    }
}

/// Where the pixel in column `x` of row `y` starts.
pub open spec fn pixel_base(x: int, y: int) -> int {
    (y * 256 + x) * 3
}

/// The picture with one pixel painted. A pixel that does not lie wholly
/// inside the picture's bytes is not painted at all.
pub open spec fn painted(data: Seq<u8>, x: int, y: int, rgb: (u8, u8, u8)) -> Seq<u8> {
    let base = pixel_base(x, y);
    if base + 2 < data.len() {
        data.update(base, rgb.0).update(base + 1, rgb.1).update(base + 2, rgb.2)
    } else {
        data
    }
}

/// Bytes in a pattern tile: two bit planes of eight rows each.
pub const TILE_LEN: usize = 16;

/// Where the second pattern table starts.
pub const RIGHT_BANK_START: usize = 0x1000;

/// Flips a sprite top to bottom.
pub const FLIP_VERTICAL: u8 = 0b1000_0000;

/// Flips a sprite left to right.
pub const FLIP_HORIZONTAL: u8 = 0b0100_0000;

/// Where tile `tile_n` of a pattern table starts in the character data.
pub open spec fn tile_start(bank: int, tile_n: int) -> int {
    if bank == 0 {
        tile_n * 16
    } else {
        0x1000 + tile_n * 16
    }
}

/// The colour number of one pixel of a tile: bit 0 from the first bit
/// plane, bit 1 from the second. Column 0 is the leftmost pixel and the
/// highest bit of the row's two bytes.
pub open spec fn tile_pixel(tile: Seq<u8>, row: int, column: int) -> u8 {
    let shift = (7 - column) as u8;
    ((tile[row] >> shift) & 1) | (((tile[row + 8] >> shift) & 1) << 1u8)
}

/// The first `n` pixels of a background tile painted, row by row and
/// within a row from right to left, each in the palette colour of its
/// number. The tile covers the eight-by-eight cell at column `x`, row `y`
/// of the picture's grid of cells.
pub open spec fn tile_painted(
    data: Seq<u8>,
    tile: Seq<u8>,
    x: int,
    y: int,
    palette: Seq<(u8, u8, u8)>,
    n: nat,
) -> Seq<u8>
    decreases n,
{
    if n == 0 {
        data
    } else {
        let k = n - 1;
        let row = k / 8;
        let column = 7 - k % 8;
        painted(
            tile_painted(data, tile, x, y, palette, k as nat),
            x * 8 + column,
            y * 8 + row,
            palette[tile_pixel(tile, row, column) as int],
        )
    }
}

/// The first `n` pixels of a sprite painted onto the picture at pixel
/// `(x, y)`. Colour number 0 is transparent: such a pixel is left as it
/// is. The attribute byte may flip the sprite in either direction.
pub open spec fn sprite_painted(
    data: Seq<u8>,
    tile: Seq<u8>,
    x: int,
    y: int,
    attributes: u8,
    palette: Seq<(u8, u8, u8)>,
    n: nat,
) -> Seq<u8>
    decreases n,
{
    if n == 0 {
        data
    } else {
        let k = n - 1;
        let row = k / 8;
        let column = 7 - k % 8;
        let before = sprite_painted(data, tile, x, y, attributes, palette, k as nat);
        let value = tile_pixel(tile, row, column);
        if value == 0 {
            before
        } else {
            painted(
                before,
                if attributes & FLIP_HORIZONTAL != 0 {
                    x + 7 - column
                } else {
                    x + column
                },
                if attributes & FLIP_VERTICAL != 0 {
                    y + 7 - row
                } else {
                    y + row
                },
                palette[value as int],
            )
        }
    }
}

/// Reads the colour number of one pixel of the tile that starts at `start`.
pub fn read_tile_pixel(chr_rom: &Vec<u8>, start: usize, row: usize, column: usize) -> (r: u8)
    requires
        start + 16 <= chr_rom@.len(),
        row < 8,
        column < 8,
    ensures
        r == tile_pixel(chr_rom@.subrange(start as int, start + 16), row as int, column as int),
        r < 4,
{
    let len = chr_rom.len();
    let upper = chr_rom[start + row];
    let lower = chr_rom[start + row + 8];
    let shift = (7 - column) as u8;
    assert(shift < 8 ==> ((upper >> shift) & 1) | (((lower >> shift) & 1) << 1u8) < 4)
        by (bit_vector);
    ((upper >> shift) & 1) | (((lower >> shift) & 1) << 1u8)
}

impl Frame {
    /// A black picture.
    pub fn new() -> (r: Frame)
        ensures
            r@ == Seq::new(184320, |i: int| 0u8),
    {
        let mut data: Vec<u8> = Vec::new();
        let mut i: usize = 0;
        while i < FRAME_LEN
            invariant
                0 <= i <= FRAME_LEN,
                data@ == Seq::new(i as nat, |j: int| 0u8),
            decreases FRAME_LEN - i,
        {
            data.push(0);
            i = i + 1;
            assert(data@ =~= Seq::new(i as nat, |j: int| 0u8));
        }
        Frame { data }
    }

    /// Paints one pixel.
    pub fn update_pixel(&mut self, x: usize, y: usize, rgb: (u8, u8, u8))
        ensures
            final(self)@ == painted(old(self)@, x as int, y as int, rgb),
    {
        let len = self.data.len();
        let row = match y.checked_mul(WIDTH) {
            Some(v) => v,
            None => {
                return ;
            },
        };
        let cell = match row.checked_add(x) {
            Some(v) => v,
            None => {
                return ;
            },
        };
        let base = match cell.checked_mul(RGB_DATA_LEN) {
            Some(v) => v,
            None => {
                return ;
            },
        };
        let last = match base.checked_add(2) {
            Some(v) => v,
            None => {
                return ;
            },
        };
        if last < len {
            self.data.set(base, rgb.0);
            self.data.set(base + 1, rgb.1);
            self.data.set(base + 2, rgb.2);
        }
    }
}

impl Frame {
    /// Paints a background tile into the cell at column `x`, row `y` of
    /// the picture's grid of eight-by-eight cells.
    pub fn render_tile(
        &mut self,
        chr_rom: &Vec<u8>,
        bank: usize,
        tile_n: usize,
        x: usize,
        y: usize,
        palette: [(u8, u8, u8); 4],
    )
        requires
            tile_start(bank as int, tile_n as int) + 16 <= chr_rom@.len(),
            x * 8 + 8 <= usize::MAX,
            y * 8 + 8 <= usize::MAX,
        ensures
            final(self)@ == tile_painted(
                old(self)@,
                chr_rom@.subrange(
                    tile_start(bank as int, tile_n as int),
                    tile_start(bank as int, tile_n as int) + 16,
                ),
                x as int,
                y as int,
                palette@,
                64,
            ),
    {
        let len = chr_rom.len();
        let bank_start: usize = if bank == 0 {
            0
        } else {
            RIGHT_BANK_START
        };
        let start = bank_start + tile_n * TILE_LEN;
        let ghost tile = chr_rom@.subrange(start as int, start + 16);
        let mut i: usize = 0;
        while i < 8
            invariant
                0 <= i <= 8,
                start + 16 <= chr_rom@.len(),
                x * 8 + 8 <= usize::MAX,
                y * 8 + 8 <= usize::MAX,
                tile == chr_rom@.subrange(start as int, start + 16),
                self@ == tile_painted(
                    old(self)@,
                    tile,
                    x as int,
                    y as int,
                    palette@,
                    (i * 8) as nat,
                ),
            decreases 8 - i,
        {
            let mut done: usize = 0;
            while done < 8
                invariant
                    0 <= done <= 8,
                    0 <= i < 8,
                    start + 16 <= chr_rom@.len(),
                    x * 8 + 8 <= usize::MAX,
                    y * 8 + 8 <= usize::MAX,
                    tile == chr_rom@.subrange(start as int, start + 16),
                    self@ == tile_painted(
                        old(self)@,
                        tile,
                        x as int,
                        y as int,
                        palette@,
                        (i * 8 + done) as nat,
                    ),
                decreases 8 - done,
            {
                let j = 7 - done;
                let value = read_tile_pixel(chr_rom, start, i, j);
                let rgb = palette[value as usize];
                assert((i * 8 + done) / 8 == i && (i * 8 + done) % 8 == done);
                self.update_pixel(x * 8 + j, y * 8 + i, rgb);
                done = done + 1;
            }
            i = i + 1;
        }
    }

    /// Paints a sprite with its top left corner at pixel `(x, y)`.
    pub fn render_sprite(
        &mut self,
        chr_rom: &Vec<u8>,
        bank: usize,
        tile_n: usize,
        x: usize,
        y: usize,
        attributes: u8,
        palette: [(u8, u8, u8); 4],
    )
        requires
            tile_start(bank as int, tile_n as int) + 16 <= chr_rom@.len(),
            x + 8 <= usize::MAX,
            y + 8 <= usize::MAX,
        ensures
            final(self)@ == sprite_painted(
                old(self)@,
                chr_rom@.subrange(
                    tile_start(bank as int, tile_n as int),
                    tile_start(bank as int, tile_n as int) + 16,
                ),
                x as int,
                y as int,
                attributes,
                palette@,
                64,
            ),
    {
        let flip_vertical = attributes & FLIP_VERTICAL != 0;
        let flip_horizontal = attributes & FLIP_HORIZONTAL != 0;
        let len = chr_rom.len();
        let bank_start: usize = if bank == 0 {
            0
        } else {
            RIGHT_BANK_START
        };
        let start = bank_start + tile_n * TILE_LEN;
        let ghost tile = chr_rom@.subrange(start as int, start + 16);
        let mut i: usize = 0;
        while i < 8
            invariant
                0 <= i <= 8,
                start + 16 <= chr_rom@.len(),
                x + 8 <= usize::MAX,
                y + 8 <= usize::MAX,
                flip_vertical == (attributes & FLIP_VERTICAL != 0),
                flip_horizontal == (attributes & FLIP_HORIZONTAL != 0),
                tile == chr_rom@.subrange(start as int, start + 16),
                self@ == sprite_painted(
                    old(self)@,
                    tile,
                    x as int,
                    y as int,
                    attributes,
                    palette@,
                    (i * 8) as nat,
                ),
            decreases 8 - i,
        {
            let mut done: usize = 0;
            while done < 8
                invariant
                    0 <= done <= 8,
                    0 <= i < 8,
                    start + 16 <= chr_rom@.len(),
                    x + 8 <= usize::MAX,
                    y + 8 <= usize::MAX,
                    flip_vertical == (attributes & FLIP_VERTICAL != 0),
                    flip_horizontal == (attributes & FLIP_HORIZONTAL != 0),
                    tile == chr_rom@.subrange(start as int, start + 16),
                    self@ == sprite_painted(
                        old(self)@,
                        tile,
                        x as int,
                        y as int,
                        attributes,
                        palette@,
                        (i * 8 + done) as nat,
                    ),
                decreases 8 - done,
            {
                let j = 7 - done;
                let value = read_tile_pixel(chr_rom, start, i, j);
                assert((i * 8 + done) / 8 == i && (i * 8 + done) % 8 == done);
                if value != 0 {
                    let rgb = palette[value as usize];
                    let frame_x = if flip_horizontal {
                        x + 7 - j
                    } else {
                        x + j
                    };
                    let frame_y = if flip_vertical {
                        y + 7 - i
                    } else {
                        y + i
                    };
                    self.update_pixel(frame_x, frame_y, rgb);
                }
                done = done + 1;
            }
            i = i + 1;
        }
    }
}

} // verus!
