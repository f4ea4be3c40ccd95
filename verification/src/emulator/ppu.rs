//! The video unit's register block, as the bus sees it: the control, mask and
//! status registers, object memory, the scroll and address latches, the data
//! port with its read buffer, and the dot clock.

use vstd::prelude::*;
use crate::emulator::flags::Flags;
use crate::emulator::flags::raised;
use crate::emulator::flags::put;
use crate::emulator::interrupts::Interrupt;
use crate::emulator::interrupts::INTERRUPTS;
use crate::emulator::rom::Mirroring;

verus! {

pub const NMI_INTERRUPT: u8 = 0b1000_0000;

pub const MASTER_SLAVE: u8 = 0b0100_0000;

pub const SPRITE_SIZE: u8 = 0b0010_0000;

pub const BACKGROUND: u8 = 0b0001_0000;

pub const SPRITES_ADDR: u8 = 0b0000_1000;

pub const VRAM_INCREMENT: u8 = 0b0000_0100;

pub const NAME_TABLE_0: u8 = 0b0000_0010;

pub const NAME_TABLE_1: u8 = 0b0000_0001;

pub const EMPHASIZE_BLUE: u8 = 0b1000_0000;

pub const EMPHASIZE_GREEN: u8 = 0b0100_0000;

pub const EMPHASIZE_RED: u8 = 0b0010_0000;

pub const SPRITE_ENABLE: u8 = 0b0001_0000;

pub const BG_ENABLE: u8 = 0b0000_1000;

pub const SPRITE_LEFTMOST: u8 = 0b0000_0100;

pub const BG_LEFTMOST: u8 = 0b0000_0010;

pub const GREYSCALE: u8 = 0b0000_0001;

pub const VBLANK_STARTED: u8 = 0b1000_0000;

pub const SPRITE_0: u8 = 0b0100_0000;

pub const SPRITE_OVERFLOW: u8 = 0b0010_0000;

/// Dots in one scanline.
pub const DOTS_PER_LINE: usize = 341;

/// The scanline on which vertical blanking starts.
pub const VBLANK_LINE: u16 = 241;

/// Scanlines in one frame.
pub const LINES_PER_FRAME: u16 = 262;

/// The scroll latch: two writes fill x, then y.
#[derive(Clone, Copy, Debug, PartialEq, Eq, Structural)]
pub struct Scroll {
    pub x: u8,
    pub y: u8,
    pub latch: bool,
}

/// The address latch: two writes fill the high byte, then the low byte.
#[derive(Clone, Copy, Debug, PartialEq, Eq, Structural)]
pub struct Address {
    pub h: u8,
    pub l: u8,
    pub latch: bool,
}

/// The latched address, folded into the unit's 14-bit address space.
pub open spec fn address_value(a: Address) -> u16 {
    ((a.h as int * 256 + a.l as int) % 0x4000) as u16
}

/// How far one access of the data port moves the address.
pub open spec fn address_step(controller: u8) -> u8 {
    if raised(controller, VRAM_INCREMENT) {
        0x20
    } else {
        1
    }
}

/// The address after one access of the data port: a 16-bit increment, which
/// carries from the low byte into the high byte and wraps at the top.
pub open spec fn address_next(a: Address, controller: u8) -> Address {
    let sum = a.h as int * 256 + a.l as int + address_step(controller) as int;
    Address { h: ((sum / 256) % 256) as u8, l: (sum % 256) as u8, ..a }
}

impl Address {
    /// The latched address, folded into the unit's 14-bit address space.
    pub fn value(&self) -> (r: u16)
        ensures
            r == address_value(*self),
    {
        let h = self.h;
        let l = self.l;
        let r = (((h as u16) << 8) | (l as u16)) & 0x3FFF;
        assert((((h as u16) << 8) | (l as u16)) & 0x3FFF == ((h as u16) * 256 + (l as u16))
            % 0x4000) by (bit_vector);
        r
    }

    /// Moves the address on after one access of the data port.
    pub fn next(&mut self, controller: Flags)
        ensures
            *final(self) == address_next(*old(self), controller@),
    {
        let inc: u8 = if controller.contains(VRAM_INCREMENT) {
            0x20
        } else {
            1
        };
        if self.l > self.l.wrapping_add(inc) {
            self.h = self.h.wrapping_add(1);
        }
        self.l = self.l.wrapping_add(inc);
    }
}

/// The register block as plain values.
pub struct PpuView {
    pub chr_rom: Seq<u8>,
    pub mirroring: Mirroring,
    pub palette_table: Seq<u8>,
    pub vram: Seq<u8>,
    pub buffer: u8,
    pub controller: u8,
    pub mask: u8,
    pub status: u8,
    pub oam_addr: u8,
    pub oam_data: Seq<u8>,
    pub scroll: Scroll,
    pub address: Address,
    pub scanline: u16,
    pub cycles: usize,
    pub interrupt: Option<Interrupt>,
    pub frame: bool,
}

/// The video unit's register block.
pub struct Ppu {
    pub chr_rom: Vec<u8>,
    pub mirroring: Mirroring,
    pub palette_table: [u8; 32],
    pub vram: [u8; 2048],
    pub buffer: u8,
    pub controller: Flags,
    pub mask: Flags,
    pub status: Flags,
    pub oam_addr: u8,
    pub oam_data: [u8; 256],
    pub scroll: Scroll,
    pub address: Address,
    /// Current scanline, below `LINES_PER_FRAME`.
    pub scanline: u16,
    /// Current dot within the scanline, below `DOTS_PER_LINE`.
    pub cycles: usize,
    /// The interrupt that the unit is asking for, if any.
    pub interrupt: Option<Interrupt>,
    /// Raised when a frame has been completed; lowered by `frame_ready`.
    pub frame: bool,
}

impl View for Ppu {
    type V = PpuView;

    open spec fn view(&self) -> PpuView {
        PpuView {
            chr_rom: self.chr_rom@,
            mirroring: self.mirroring,
            palette_table: self.palette_table@,
            vram: self.vram@,
            buffer: self.buffer,
            controller: self.controller@,
            mask: self.mask@,
            status: self.status@,
            oam_addr: self.oam_addr,
            oam_data: self.oam_data@,
            scroll: self.scroll,
            address: self.address,
            scanline: self.scanline,
            cycles: self.cycles,
            interrupt: self.interrupt,
            frame: self.frame,
        }
    }
}

/// The dot clock stands inside a line, and the line inside a frame.
pub open spec fn ppu_wf(p: PpuView) -> bool {
    &&& p.cycles < 341
    &&& p.scanline < 262
    &&& p.palette_table.len() == 32
    &&& p.vram.len() == 2048
    &&& p.oam_data.len() == 256
}

/// The block as it is after power-up, around the given character data.
pub open spec fn ppu_initial(chr_rom: Seq<u8>, mirroring: Mirroring) -> PpuView {
    PpuView {
        chr_rom,
        mirroring,
        palette_table: Seq::new(32, |i: int| 0u8),
        vram: Seq::new(2048, |i: int| 0u8),
        buffer: 0,
        controller: 0,
        mask: 0,
        status: 0,
        oam_addr: 0,
        oam_data: Seq::new(256, |i: int| 0u8),
        scroll: Scroll { x: 0, y: 0, latch: false },
        address: Address { h: 0, l: 0, latch: false },
        scanline: 0,
        cycles: 0,
        interrupt: None,
        frame: false,
    }
}

/// Where a name-table address (`0x2000..0x3000`) lands in the 2 KiB of video
/// memory. Vertical mirroring folds the lower pair of tables onto the upper
/// pair; horizontal mirroring folds each right table onto its left neighbour.
pub open spec fn mirror(mirroring: Mirroring, addr: u16) -> u16 {
    let idx = addr as int - 0x2000;
    match mirroring {
        Mirroring::VERTICAL => (idx % 0x800) as u16,
        Mirroring::HORIZONTAL => ((idx / 0x800) * 0x400 + idx % 0x400) as u16,
        Mirroring::FOURSCREEN => 0,
    }
}

/// The palette cell behind a palette address (`0x3F00..0x3F20`); the four
/// sprite backdrop entries are kept in cells 0, 4, 8 and 12.
pub open spec fn palette_index(addr: u16) -> int {
    if addr == 0x3F10 || addr == 0x3F14 || addr == 0x3F18 || addr == 0x3F1C {
        addr as int - 0x3F10
    } else {
        addr as int - 0x3F00
    }
}

/// A status read reports the register, then ends vertical blanking and
/// resets both write latches.
pub open spec fn ppu_read_status(p: PpuView) -> (PpuView, u8) {
    (
        PpuView {
            status: put(p.status, VBLANK_STARTED, false),
            scroll: Scroll { latch: false, ..p.scroll },
            address: Address { latch: false, ..p.address },
            ..p
        },
        p.status,
    )
}

/// The data port can serve a read at the latched address: pattern data that
/// the cartridge supplies, a name table under two-table mirroring, or a
/// palette cell.
pub open spec fn data_readable(p: PpuView) -> bool {
    let addr = address_value(p.address);
    ||| addr < 0x2000 && addr < p.chr_rom.len()
    ||| 0x2000 <= addr < 0x3000 && p.mirroring != Mirroring::FOURSCREEN
    ||| 0x3F00 <= addr < 0x3F20
}

/// A data read. Pattern and name-table reads answer with the buffer and
/// refill it from memory; palette reads answer at once. The address moves on.
pub open spec fn ppu_read_data(p: PpuView) -> (PpuView, u8) {
    let addr = address_value(p.address);
    let moved = address_next(p.address, p.controller);
    if addr < 0x2000 {
        (PpuView { buffer: p.chr_rom[addr as int], address: moved, ..p }, p.buffer)
    } else if addr < 0x3000 {
        (
            PpuView { buffer: p.vram[mirror(p.mirroring, addr) as int], address: moved, ..p },
            p.buffer,
        )
    } else {
        (PpuView { address: moved, ..p }, p.palette_table[palette_index(addr)])
    }
}

/// The data port can show what a read would answer, without performing it.
pub open spec fn data_peekable(p: PpuView) -> bool {
    let addr = address_value(p.address);
    addr < 0x3000 || 0x3F00 <= addr < 0x3F20
}

/// What a data read would answer.
pub open spec fn ppu_peek_data(p: PpuView) -> u8 {
    let addr = address_value(p.address);
    if addr < 0x3000 {
        p.buffer
    } else {
        p.palette_table[palette_index(addr)]
    }
}

/// The data port can take a write at the latched address: a name table under
/// two-table mirroring, or a palette cell.
pub open spec fn data_writable(p: PpuView) -> bool {
    let addr = address_value(p.address);
    ||| 0x2000 <= addr < 0x3000 && p.mirroring != Mirroring::FOURSCREEN
    ||| 0x3F00 <= addr < 0x3F20
}

/// A data write stores the byte at the latched address and moves the address on.
pub open spec fn ppu_write_data(p: PpuView, value: u8) -> PpuView {
    let addr = address_value(p.address);
    let moved = address_next(p.address, p.controller);
    if addr < 0x3000 {
        PpuView {
            vram: p.vram.update(mirror(p.mirroring, addr) as int, value),
            address: moved,
            ..p
        }
    } else {
        PpuView {
            palette_table: p.palette_table.update(palette_index(addr), value),
            address: moved,
            ..p
        }
    }
}

/// A write to object memory stores at the object address and advances it.
pub open spec fn ppu_write_oam_data(p: PpuView, value: u8) -> PpuView {
    PpuView {
        oam_data: p.oam_data.update(p.oam_addr as int, value),
        oam_addr: p.oam_addr.wrapping_add(1),
        ..p
    }
}

/// A whole page written to object memory: byte `k` of the page lands
/// `k` cells after the object address, wrapping round the 256 cells, and
/// the object address ends where it began.
pub open spec fn ppu_write_oam_dma(p: PpuView, page: Seq<u8>) -> PpuView {
    PpuView { oam_data: Seq::new(256, |j: int| page[(j - p.oam_addr as int) % 256]), ..p }
}

/// A scroll write fills x on the first write and y on the second.
pub open spec fn ppu_write_scroll(p: PpuView, value: u8) -> PpuView {
    PpuView {
        scroll: if p.scroll.latch {
            Scroll { y: value, latch: false, ..p.scroll }
        } else {
            Scroll { x: value, latch: true, ..p.scroll }
        },
        ..p
    }
}

/// An address write fills the high byte on the first write and the low byte
/// on the second.
pub open spec fn ppu_write_address(p: PpuView, value: u8) -> PpuView {
    PpuView {
        address: if p.address.latch {
            Address { l: value, latch: false, ..p.address }
        } else {
            Address { h: value, latch: true, ..p.address }
        },
        ..p
    }
}

/// The end of one scanline: the dot clock gives up a line's worth of dots
/// and the line counter advances. Entering the blanking line raises the
/// blanking flag and, if the control register asks for it, the interrupt;
/// running off the last line starts the next frame.
pub open spec fn ppu_line(p: PpuView) -> PpuView {
    let line = p.scanline as int + 1;
    let blank = line == 241;
    let wrap = line >= 262;
    PpuView {
        cycles: (p.cycles - 341) as usize,
        scanline: if wrap { 0u16 } else { line as u16 },
        status: if wrap {
            put(p.status, VBLANK_STARTED, false)
        } else if blank {
            put(p.status, VBLANK_STARTED, true)
        } else {
            p.status
        },
        interrupt: if blank && raised(p.controller, NMI_INTERRUPT) {
            Some(Interrupt { interrupt: INTERRUPTS::NMI, addr: 0xFFFA, cycles: 2 })
        } else {
            p.interrupt
        },
        frame: p.frame || wrap,
        ..p
    }
}

/// Ends scanlines until the dot clock stands inside a line again.
pub open spec fn ppu_settle(p: PpuView) -> PpuView
    decreases p.cycles,
{
    if p.cycles >= 341 && p.scanline < 262 {
        ppu_settle(ppu_line(p))
    } else {
        p
    }
}

/// The clock advanced by `dots`.
pub open spec fn ppu_tick(p: PpuView, dots: usize) -> PpuView {
    ppu_settle(PpuView { cycles: (p.cycles + dots) as usize, ..p })
}

/// However far the clock is advanced, it comes to stand inside a line and
/// the line inside a frame; the dots are conserved: what the clock shows
/// afterwards, counted in dots since the start of a frame, is what it
/// showed before plus the dots added, modulo the 89342 dots of a frame.
pub proof fn lemma_tick_keeps_time(p: PpuView, dots: usize)
    requires
        ppu_wf(p),
        p.cycles + dots <= usize::MAX,
    ensures
        ppu_wf(ppu_tick(p, dots)),
        ppu_tick(p, dots).scanline * 341 + ppu_tick(p, dots).cycles == (p.scanline * 341
            + p.cycles + dots) % 89342,
{
    lemma_settle_keeps_time(PpuView { cycles: (p.cycles + dots) as usize, ..p });
}

/// The same for a clock that has run past the end of its line.
pub proof fn lemma_settle_keeps_time(p: PpuView)
    requires
        p.scanline < 262,
        p.palette_table.len() == 32,
        p.vram.len() == 2048,
        p.oam_data.len() == 256,
    ensures
        ppu_wf(ppu_settle(p)),
        ppu_settle(p).scanline * 341 + ppu_settle(p).cycles == (p.scanline * 341 + p.cycles)
            % 89342,
    decreases p.cycles,
{
    if p.cycles >= 341 {
        let q = ppu_line(p);
        lemma_settle_keeps_time(q);
        let before = p.scanline * 341 + p.cycles;
        let after = q.scanline * 341 + q.cycles;
        assert(after == before || after == before - 89342);
    }
}

impl Ppu {
    /// Whether the clock stands inside a line and the line inside a frame.
    pub open spec fn wf(&self) -> bool {
        ppu_wf(self@)
    }

    /// The register block after power-up.
    pub fn new(chr_rom: Vec<u8>, mirroring: Mirroring) -> (r: Ppu)
        ensures
            r@ == ppu_initial(chr_rom@, mirroring),
            r.wf(),
    {
        let r = Ppu {
            chr_rom,
            mirroring,
            palette_table: [0u8; 32],
            vram: [0u8; 2048],
            buffer: 0,
            controller: Flags::empty(),
            mask: Flags::empty(),
            status: Flags::empty(),
            oam_addr: 0,
            oam_data: [0u8; 256],
            scroll: Scroll { x: 0, y: 0, latch: false },
            address: Address { h: 0, l: 0, latch: false },
            scanline: 0,
            cycles: 0,
            interrupt: None,
            frame: false,
        };
        assert(r@.palette_table =~= Seq::new(32, |i: int| 0u8));
        assert(r@.vram =~= Seq::new(2048, |i: int| 0u8));
        assert(r@.oam_data =~= Seq::new(256, |i: int| 0u8));
        r
    }

    /// Reads the status register.
    pub fn read_status(&mut self) -> (r: u8)
        ensures
            (final(self)@, r) == ppu_read_status(old(self)@),
    {
        let status = self.status.bits();

        self.status.remove(VBLANK_STARTED);
        self.scroll.latch = false;
        self.address.latch = false;

        status
    }

    /// Reads the cell of object memory under the object address.
    pub fn read_oam_data(&self) -> (r: u8)
        ensures
            r == self@.oam_data[self@.oam_addr as int],
    {
        self.oam_data[self.oam_addr as usize]
    }

    /// Decides `data_readable`.
    pub fn can_read_data(&self) -> (r: bool)
        ensures
            r == data_readable(self@),
    {
        let addr = self.address.value();
        (addr < 0x2000 && (addr as usize) < self.chr_rom.len()) || (0x2000 <= addr && addr
            < 0x3000 && !matches!(self.mirroring, Mirroring::FOURSCREEN)) || (0x3F00 <= addr
            && addr < 0x3F20)
    }

    /// Reads the data port.
    pub fn read_data(&mut self) -> (r: u8)
        requires
            data_readable(old(self)@),
        ensures
            (final(self)@, r) == ppu_read_data(old(self)@),
    {
        let addr = self.address.value();
        let value: u8;

        if addr <= 0x1FFF {
            value = self.buffer;
            self.buffer = self.chr_rom[addr as usize];
        } else if addr <= 0x2FFF {
            value = self.buffer;
            self.buffer = self.vram[self.mirror_vram(addr) as usize];
        } else if addr == 0x3F10 || addr == 0x3F14 || addr == 0x3F18 || addr == 0x3F1C {
            value = self.palette_table[(addr - 0x3f10) as usize];
        } else {
            value = self.palette_table[(addr - 0x3f00) as usize];
        }
        self.address.next(self.controller);
        value
    }

    /// Writes the control register. Changing it once interrupts on vertical
    /// blanking have been switched on is not supported.
    pub fn write_controller(&mut self, value: u8)
        requires
            !raised(old(self)@.controller, NMI_INTERRUPT),
        ensures
            final(self)@ == (PpuView { controller: value, ..old(self)@ }),
    {
        self.controller = Flags::from_bits_truncate(value);
    }

    /// Writes the mask register.
    pub fn write_mask(&mut self, value: u8)
        ensures
            final(self)@ == (PpuView { mask: value, ..old(self)@ }),
    {
        self.mask = Flags::from_bits_truncate(value);
    }

    /// Sets the object address.
    pub fn write_oam_addr(&mut self, value: u8)
        ensures
            final(self)@ == (PpuView { oam_addr: value, ..old(self)@ }),
    {
        self.oam_addr = value;
    }

    /// Writes one byte of object memory.
    pub fn write_oam_data(&mut self, value: u8)
        ensures
            final(self)@ == ppu_write_oam_data(old(self)@, value),
    {
        self.oam_data[self.oam_addr as usize] = value;
        self.oam_addr = self.oam_addr.wrapping_add(1);
    }

    /// Writes the scroll register.
    pub fn write_scroll(&mut self, value: u8)
        ensures
            final(self)@ == ppu_write_scroll(old(self)@, value),
    {
        if self.scroll.latch {
            self.scroll.y = value;
        } else {
            self.scroll.x = value;
        }
        self.scroll.latch = !self.scroll.latch;
    }

    /// Writes the address register.
    pub fn write_address(&mut self, value: u8)
        ensures
            final(self)@ == ppu_write_address(old(self)@, value),
    {
        if self.address.latch {
            self.address.l = value;
        } else {
            self.address.h = value;
        }
        self.address.latch = !self.address.latch;
    }

    /// Decides `data_writable`.
    pub fn can_write_data(&self) -> (r: bool)
        ensures
            r == data_writable(self@),
    {
        let addr = self.address.value();
        (0x2000 <= addr && addr < 0x3000 && !matches!(self.mirroring, Mirroring::FOURSCREEN))
            || (0x3F00 <= addr && addr < 0x3F20)
    }

    /// Writes the data port.
    pub fn write_data(&mut self, value: u8)
        requires
            data_writable(old(self)@),
        ensures
            final(self)@ == ppu_write_data(old(self)@, value),
    {
        let addr = self.address.value();

        if addr <= 0x2FFF {
            let cell = self.mirror_vram(addr);
            self.vram[cell as usize] = value;
        } else if addr == 0x3F10 || addr == 0x3F14 || addr == 0x3F18 || addr == 0x3F1C {
            self.palette_table[(addr - 0x3f10) as usize] = value;
        } else {
            self.palette_table[(addr - 0x3f00) as usize] = value;
        }
        self.address.next(self.controller);
    }

    /// Writes a whole page to object memory, starting at the object address.
    pub fn write_oam_dma(&mut self, oam: &[u8; 256])
        ensures
            final(self)@ == ppu_write_oam_dma(old(self)@, oam@),
    {
        let ghost start = self.oam_addr as int;
        let ghost before = self@;
        let mut i: usize = 0;
        while i < 256
            invariant
                0 <= i <= 256,
                start == before.oam_addr,
                self@ == (PpuView {
                    oam_data: self@.oam_data,
                    oam_addr: ((start + i) % 256) as u8,
                    ..before
                }),
                self@.oam_data.len() == 256,
                forall|j: int|
                    0 <= j < 256 ==> #[trigger] self@.oam_data[j] == if (j - start) % 256 < i {
                        oam@[(j - start) % 256]
                    } else {
                        before.oam_data[j]
                    },
            decreases 256 - i,
        {
            self.write_oam_data(oam[i]);
            i = i + 1;
        }
        assert(self@.oam_data =~= Seq::new(256, |j: int| oam@[(j - start) % 256]));
    }

    /// Where a name-table address lands in video memory.
    pub fn mirror_vram(&self, addr: u16) -> (r: u16)
        requires
            0x2000 <= addr < 0x3000,
            self.mirroring != Mirroring::FOURSCREEN,
        ensures
            r == mirror(self.mirroring, addr),
            r < 0x800,
    {
        let vram_idx: u16 = addr - 0x2000;
        let grid_idx: u16 = vram_idx / 0x400;
        match self.mirroring {
            Mirroring::HORIZONTAL => {
                if grid_idx == 0 {
                    vram_idx
                } else if grid_idx == 1 || grid_idx == 2 {
                    vram_idx - 0x400
                } else {
                    vram_idx - 0x800
                }
            },
            Mirroring::VERTICAL => {
                if grid_idx == 0 || grid_idx == 1 {
                    vram_idx
                } else {
                    vram_idx - 0x800
                }
            },
            Mirroring::FOURSCREEN => 0,
        }
    }

    /// Advances the dot clock.
    pub fn tick(&mut self, cycles: usize)
        requires
            old(self).wf(),
            old(self).cycles + cycles <= usize::MAX,
        ensures
            final(self)@ == ppu_tick(old(self)@, cycles),
            final(self).wf(),
    {
        self.cycles = self.cycles + cycles;
        while self.cycles >= DOTS_PER_LINE
            invariant
                self.scanline < 262,
                self@.palette_table.len() == 32,
                self@.vram.len() == 2048,
                self@.oam_data.len() == 256,
                ppu_settle(self@) == ppu_tick(old(self)@, cycles),
            decreases self.cycles,
        {
            self.cycles = self.cycles - DOTS_PER_LINE;
            self.scanline = self.scanline + 1;
            if self.scanline == VBLANK_LINE {
                self.status.insert(VBLANK_STARTED);
                if self.controller.contains(NMI_INTERRUPT) {
                    self.interrupt = Some(Interrupt::new_nmi());
                }
            }
            if self.scanline >= LINES_PER_FRAME {
                self.scanline = 0;
                self.status.remove(VBLANK_STARTED);
                self.frame = true;
            }
        }
    }

    /// Withdraws the unit's request for an interrupt.
    pub fn handled_interrupt(&mut self)
        ensures
            final(self)@ == (PpuView { interrupt: None, ..old(self)@ }),
    {
        self.interrupt = None;
    }

    /// Reports whether a frame has been completed since the last call.
    pub fn frame_ready(&mut self) -> (r: bool)
        ensures
            r == old(self).frame,
            final(self)@ == (PpuView { frame: false, ..old(self)@ }),
    {
        let ready = self.frame;
        self.frame = false;
        ready
    }

    /// Shows the status register without the side effects of reading it.
    pub fn read_status_debugging(&self) -> (r: u8)
        ensures
            r == self@.status,
    {
        self.status.bits()
    }

    /// Decides `data_peekable`.
    pub fn can_peek_data(&self) -> (r: bool)
        ensures
            r == data_peekable(self@),
    {
        let addr = self.address.value();
        addr < 0x3000 || (0x3F00 <= addr && addr < 0x3F20)
    }

    /// Shows what a read of the data port would answer.
    pub fn read_data_debugging(&self) -> (r: u8)
        requires
            data_peekable(self@),
        ensures
            r == ppu_peek_data(self@),
    {
        let addr = self.address.value();

        if addr <= 0x2FFF {
            self.buffer
        } else if addr == 0x3F10 || addr == 0x3F14 || addr == 0x3F18 || addr == 0x3F1C {
            self.palette_table[(addr - 0x3f10) as usize]
        } else {
            self.palette_table[(addr - 0x3f00) as usize]
        }
    }
}

} // verus!
