//! Address decoding: which cell or register each of the 65536 addresses
//! reaches, for reads and for writes.

use vstd::prelude::*;
use crate::emulator::bus::latch;
use crate::emulator::bus::rom_index;
use crate::emulator::bus::rom_readable;
use crate::emulator::bus::Bus;
use crate::emulator::bus::bus_wf;
use crate::emulator::bus::BusView;
use crate::emulator::cpu::cpu_read;
use crate::emulator::cpu::cpu_read16;
use crate::emulator::cpu::cpu_wf;
use crate::emulator::cpu::cpu_write;
use crate::emulator::cpu::cpu_write16;
use crate::emulator::cpu::Cpu;
use crate::emulator::cpu::CpuView;
use crate::emulator::bus::Fault;
use crate::emulator::flags::raised;
use crate::emulator::joypad::joypad_read;
use crate::emulator::joypad::joypad_write;
use crate::emulator::ppu::data_peekable;
use crate::emulator::ppu::data_readable;
use crate::emulator::ppu::data_writable;
use crate::emulator::ppu::ppu_peek_data;
use crate::emulator::ppu::ppu_read_data;
use crate::emulator::ppu::ppu_read_status;
use crate::emulator::ppu::ppu_write_address;
use crate::emulator::ppu::ppu_write_data;
use crate::emulator::ppu::ppu_write_oam_data;
use crate::emulator::ppu::ppu_write_oam_dma;
use crate::emulator::ppu::ppu_write_scroll;
use crate::emulator::ppu::PpuView;
use crate::emulator::ppu::NMI_INTERRUPT;

verus! {

pub const RAM: u16 = 0x0000;

pub const RAM_MIRRORS_END: u16 = 0x1FFF;

pub const PPU_REGISTERS_MIRRORS_START: u16 = 0x2008;

pub const PPU_REGISTERS_MIRRORS_END: u16 = 0x3FFF;

pub const ROM: u16 = 0x8000;

pub const ROM_MIRRORS_END: u16 = 0xFFFF;

pub const PPU_CONTROLLER: u16 = 0x2000;

pub const PPU_MASK: u16 = 0x2001;

pub const PPU_STATUS: u16 = 0x2002;

pub const PPU_OAM_ADDR: u16 = 0x2003;

pub const PPU_OAM_DATA: u16 = 0x2004;

pub const PPU_SCROLL: u16 = 0x2005;

pub const PPU_ADDRESS: u16 = 0x2006;

pub const PPU_DATA: u16 = 0x2007;

pub const OAM_DMA: u16 = 0x4014;

pub const JOYPAD_1: u16 = 0x4016;

/// The 16-bit value with the given low and high bytes.
pub open spec fn word(lo: u8, hi: u8) -> u16 {
    (lo as int + hi as int * 256) as u16
}

/// The low byte of a 16-bit value.
pub open spec fn low_byte(w: u16) -> u8 {
    (w as int % 256) as u8
}

/// The high byte of a 16-bit value.
pub open spec fn high_byte(w: u16) -> u8 {
    (w as int / 256) as u8
}

/// Puts two bytes together, low byte first.
pub fn make_word(lo: u8, hi: u8) -> (w: u16)
    ensures
        w == word(lo, hi),
{
    let w = (lo as u16) | ((hi as u16) << 8);
    assert((lo as u16) | ((hi as u16) << 8) == (lo as u16) + (hi as u16) * 256) by (bit_vector);
    w
}

/// Takes a 16-bit value apart, low byte first.
pub fn split_word(w: u16) -> (r: (u8, u8))
    ensures
        r.0 == low_byte(w),
        r.1 == high_byte(w),
        word(r.0, r.1) == w,
{
    let lo = (w & 0xFF) as u8;
    let hi = (w >> 8) as u8;
    assert(w & 0xFF == w % 256 && w >> 8 == w / 256) by (bit_vector);
    (lo, hi)
}

/// The address that a peripheral-register mirror stands for: every address
/// of `0x2008..=0x3FFF` reaches the register of `0x2000..=0x2007` that
/// shares its low three bits. Other addresses stand for themselves.
pub open spec fn canonical(addr: u16) -> u16 {
    if 0x2008 <= addr <= 0x3FFF {
        (0x2000 + addr as int % 8) as u16
    } else {
        addr
    }
}

/// The cell of work memory behind an address of the mirror window
/// (`0x0000..=0x1FFF`).
pub open spec fn ram_cell(addr: u16) -> int {
    addr as int % 0x800
}

/// A read. Work memory and program data answer with the cell; the input
/// port and the video status and data ports answer and change state;
/// object memory answers with the addressed cell. A port or program cell
/// that cannot serve the read answers 0 and records a fault. Every other
/// address answers 0.
#[verifier::opaque]
pub open spec fn bus_read(b: BusView, addr: u16) -> (BusView, u8) {
    let a = canonical(addr);
    if a <= RAM_MIRRORS_END {
        (b, b.cpu_vram[ram_cell(a)])
    } else if a == JOYPAD_1 {
        let (j, v) = joypad_read(b.joypad);
        (BusView { joypad: j, ..b }, v)
    } else if a == PPU_STATUS {
        let (p, v) = ppu_read_status(b.ppu);
        (BusView { ppu: p, ..b }, v)
    } else if a == PPU_OAM_DATA {
        (b, b.ppu.oam_data[b.ppu.oam_addr as int])
    } else if a == PPU_DATA {
        if data_readable(b.ppu) {
            let (p, v) = ppu_read_data(b.ppu);
            (BusView { ppu: p, ..b }, v)
        } else {
            (latch(b, Fault::PpuData), 0)
        }
    } else if a >= ROM {
        if rom_readable(b.prg_rom, a) {
            (b, b.prg_rom[rom_index(b.prg_rom.len(), a)])
        } else {
            (latch(b, Fault::RomRead), 0)
        }
    } else {
        (b, 0)
    }
}

/// What a read would answer, with no effect on any state; 0 where a read
/// would record a fault.
pub open spec fn bus_peek(b: BusView, addr: u16) -> u8 {
    let a = canonical(addr);
    if a <= RAM_MIRRORS_END {
        b.cpu_vram[ram_cell(a)]
    } else if a == JOYPAD_1 {
        b.joypad.buffer
    } else if a == PPU_STATUS {
        b.ppu.status
    } else if a == PPU_OAM_DATA {
        b.ppu.oam_data[b.ppu.oam_addr as int]
    } else if a == PPU_DATA {
        if data_peekable(b.ppu) {
            ppu_peek_data(b.ppu)
        } else {
            0
        }
    } else if a >= ROM {
        if rom_readable(b.prg_rom, a) {
            b.prg_rom[rom_index(b.prg_rom.len(), a)]
        } else {
            0
        }
    } else {
        0
    }
}

/// The first `n` reads of a sprite transfer from the page at `base`: the
/// bus after them, and the bytes they answered, in order.
pub open spec fn dma_fetch(b: BusView, base: u16, n: nat) -> (BusView, Seq<u8>)
    decreases n,
{
    if n == 0 {
        (b, Seq::empty())
    } else {
        let (b1, bytes) = dma_fetch(b, base, (n - 1) as nat);
        let (b2, v) = bus_read(b1, (base + n - 1) as u16);
        (b2, bytes.push(v))
    }
}

/// A sprite transfer: 256 reads from the page that `page` names, then the
/// bytes handed to object memory in one go.
pub open spec fn bus_dma(b: BusView, page: u8) -> BusView {
    let (b1, bytes) = dma_fetch(b, (page as int * 256) as u16, 256);
    BusView { ppu: ppu_write_oam_dma(b1.ppu, bytes), ..b1 }
}

/// A write. Work memory stores the byte; the input port and the video
/// registers take it; the transfer port starts a sprite transfer. A write
/// into the program window, or one that a video register cannot take,
/// changes nothing and records a fault. Every other address ignores it.
#[verifier::opaque]
pub open spec fn bus_write(b: BusView, addr: u16, data: u8) -> BusView {
    let a = canonical(addr);
    if a <= RAM_MIRRORS_END {
        BusView { cpu_vram: b.cpu_vram.update(ram_cell(a), data), ..b }
    } else if a == JOYPAD_1 {
        BusView { joypad: joypad_write(b.joypad, data), ..b }
    } else if a == PPU_CONTROLLER {
        if !raised(b.ppu.controller, NMI_INTERRUPT) {
            BusView { ppu: PpuView { controller: data, ..b.ppu }, ..b }
        } else {
            latch(b, Fault::PpuController)
        }
    } else if a == PPU_MASK {
        BusView { ppu: PpuView { mask: data, ..b.ppu }, ..b }
    } else if a == PPU_OAM_ADDR {
        BusView { ppu: PpuView { oam_addr: data, ..b.ppu }, ..b }
    } else if a == PPU_OAM_DATA {
        BusView { ppu: ppu_write_oam_data(b.ppu, data), ..b }
    } else if a == PPU_SCROLL {
        BusView { ppu: ppu_write_scroll(b.ppu, data), ..b }
    } else if a == PPU_ADDRESS {
        BusView { ppu: ppu_write_address(b.ppu, data), ..b }
    } else if a == PPU_DATA {
        if data_writable(b.ppu) {
            BusView { ppu: ppu_write_data(b.ppu, data), ..b }
        } else {
            latch(b, Fault::PpuData)
        }
    } else if a == OAM_DMA {
        bus_dma(b, data)
    } else if a >= ROM {
        latch(b, Fault::RomWrite)
    } else {
        b
    }
}

/// No read changes work memory or the cartridge's program data, and a
/// fault on record stays on record.
pub proof fn lemma_read_keeps_memory(b: BusView, addr: u16)
    ensures
        bus_read(b, addr).0.cpu_vram == b.cpu_vram,
        bus_read(b, addr).0.prg_rom == b.prg_rom,
        b.fault is Some ==> bus_read(b, addr).0.fault == b.fault,
        bus_wf(b) ==> bus_wf(bus_read(b, addr).0),
{
    reveal(bus_read);
}

/// The reads of a sprite transfer answer one byte each; they change
/// neither work memory nor program data, and a fault on record stays.
pub proof fn lemma_dma_fetch_keeps_memory(b: BusView, base: u16, n: nat)
    ensures
        dma_fetch(b, base, n).1.len() == n,
        dma_fetch(b, base, n).0.cpu_vram == b.cpu_vram,
        dma_fetch(b, base, n).0.prg_rom == b.prg_rom,
        b.fault is Some ==> dma_fetch(b, base, n).0.fault == b.fault,
        bus_wf(b) ==> bus_wf(dma_fetch(b, base, n).0),
    decreases n,
{
    if n > 0 {
        lemma_dma_fetch_keeps_memory(b, base, (n - 1) as nat);
        lemma_read_keeps_memory(dma_fetch(b, base, (n - 1) as nat).0, (base + n - 1) as u16);
    }
}

/// The cartridge's program data is read-only: no write through the bus
/// changes it, wherever the write goes. A fault on record stays on record.
pub proof fn lemma_write_keeps_program_data(b: BusView, addr: u16, data: u8)
    ensures
        bus_write(b, addr, data).prg_rom == b.prg_rom,
        b.fault is Some ==> bus_write(b, addr, data).fault == b.fault,
        bus_wf(b) ==> bus_wf(bus_write(b, addr, data)),
        canonical(addr) >= ROM ==> bus_write(b, addr, data) == latch(b, Fault::RomWrite),
{
    reveal(bus_write);
    lemma_dma_fetch_keeps_memory(b, (data as int * 256) as u16, 256);
}

/// Work memory is mirrored: a byte written through any address of
/// `0x0000..=0x1FFF` is read back through every address of that window
/// that names the same cell, and the read changes nothing.
pub proof fn lemma_ram_mirrors(b: BusView, written: u16, read: u16, value: u8)
    requires
        bus_wf(b),
        written <= RAM_MIRRORS_END,
        read <= RAM_MIRRORS_END,
        ram_cell(written) == ram_cell(read),
    ensures
        bus_read(bus_write(b, written, value), read) == (bus_write(b, written, value), value),
{
    reveal(bus_read);
    reveal(bus_write);
}

/// A write to work memory leaves every other cell as it was.
pub proof fn lemma_ram_write_is_local(b: BusView, written: u16, read: u16, value: u8)
    requires
        bus_wf(b),
        written <= RAM_MIRRORS_END,
        read <= RAM_MIRRORS_END,
        ram_cell(written) != ram_cell(read),
    ensures
        bus_read(bus_write(b, written, value), read).1 == bus_read(b, read).1,
{
    reveal(bus_read);
    reveal(bus_write);
}

/// Byte and 16-bit access to an address space. A 16-bit value lies low
/// byte first, and its second byte at the next address, which wraps at the
/// top of the space.
pub trait Mem: View + Sized {
    /// The state after a read of `addr`, and the byte read.
    spec fn read_model(s: Self::V, addr: u16) -> (Self::V, u8);

    /// The state after a write of `value` to `addr`.
    spec fn write_model(s: Self::V, addr: u16, value: u8) -> Self::V;

    fn mem_read(&mut self, addr: u16) -> (v: u8)
        ensures
            (final(self)@, v) == Self::read_model(old(self)@, addr),
    ;

    fn mem_write(&mut self, addr: u16, value: u8)
        ensures
            final(self)@ == Self::write_model(old(self)@, addr, value),
    ;

    fn mem_read_u16(&mut self, addr: u16) -> (v: u16)
        ensures
            ({
                let low = Self::read_model(old(self)@, addr);
                let high = Self::read_model(low.0, addr.wrapping_add(1));
                final(self)@ == high.0 && v == word(low.1, high.1)
            }),
    {
        let lo = self.mem_read(addr);
        let hi = self.mem_read(addr.wrapping_add(1));
        make_word(lo, hi)
    }

    fn mem_write_u16(&mut self, addr: u16, value: u16)
        ensures
            final(self)@ == Self::write_model(
                Self::write_model(old(self)@, addr, low_byte(value)),
                addr.wrapping_add(1),
                high_byte(value),
            ),
    {
        let (lo, hi) = split_word(value);
        self.mem_write(addr, lo);
        self.mem_write(addr.wrapping_add(1), hi);
    }
}

/// Folds a peripheral-register mirror onto the register it stands for.
pub fn fold_mirror(addr: u16) -> (a: u16)
    ensures
        a == canonical(addr),
{
    if PPU_REGISTERS_MIRRORS_START <= addr && addr <= PPU_REGISTERS_MIRRORS_END {
        assert(0x2008 <= addr <= 0x3FFF ==> addr & 0x2007 == 0x2000 + addr % 8) by (bit_vector);
        addr & 0b00100000_00000111
    } else {
        addr
    }
}

impl Bus {
    /// Runs the 256 reads of a sprite transfer and hands the bytes to object memory.
    fn oam_dma(&mut self, page: u8)
        ensures
            final(self)@ == bus_dma(old(self)@, page),
            old(self).wf() ==> final(self).wf(),
    {
        let mut buffer = [0u8; 256];
        let hi: u16 = (page as u16) * 256;
        let mut i: usize = 0;
        while i < 256
            invariant
                0 <= i <= 256,
                hi == page as int * 256,
                dma_fetch(old(self)@, hi, i as nat) == (self@, buffer@.subrange(0, i as int)),
                old(self).wf() ==> self.wf(),
            decreases 256 - i,
        {
            let v = self.mem_read(hi + i as u16);
            buffer[i] = v;
            i = i + 1;
            assert(buffer@.subrange(0, i as int) =~= buffer@.subrange(0, i - 1).push(v));
        }
        assert(buffer@.subrange(0, 256) =~= buffer@);
        self.ppu.write_oam_dma(&buffer);
    }

    /// Shows what a read would answer, with no effect on any state.
    pub fn mem_read_debugging(&self, addr: u16) -> (v: u8)
        ensures
            v == bus_peek(self@, addr),
    {
        let a = fold_mirror(addr);
        if a <= RAM_MIRRORS_END {
            assert(a & 0x7FF == a % 0x800) by (bit_vector);
            self.cpu_vram[(a & 0b111_11111111) as usize]
        } else if a == JOYPAD_1 {
            self.joypad.read_debugging()
        } else if a == PPU_STATUS {
            self.ppu.read_status_debugging()
        } else if a == PPU_OAM_DATA {
            self.ppu.read_oam_data()
        } else if a == PPU_DATA {
            if self.ppu.can_peek_data() {
                self.ppu.read_data_debugging()
            } else {
                0
            }
        } else if a >= ROM {
            if self.can_read_rom(a) {
                self.read_rom(a)
            } else {
                0
            }
        } else {
            0
        }
    }
}

impl Mem for Bus {
    open spec fn read_model(s: BusView, addr: u16) -> (BusView, u8) {
        bus_read(s, addr)
    }

    open spec fn write_model(s: BusView, addr: u16, value: u8) -> BusView {
        bus_write(s, addr, value)
    }

    fn mem_read(&mut self, addr: u16) -> (v: u8)
        ensures
            old(self).wf() ==> final(self).wf(),
    {
        reveal(bus_read);
        let a = fold_mirror(addr);
        if a <= RAM_MIRRORS_END {
            assert(a & 0x7FF == a % 0x800) by (bit_vector);
            self.cpu_vram[(a & 0b111_11111111) as usize]
        } else if a == JOYPAD_1 {
            self.joypad.read()
        } else if a == PPU_STATUS {
            self.ppu.read_status()
        } else if a == PPU_OAM_DATA {
            self.ppu.read_oam_data()
        } else if a == PPU_DATA {
            if self.ppu.can_read_data() {
                self.ppu.read_data()
            } else {
                self.raise(Fault::PpuData);
                0
            }
        } else if a >= ROM {
            if self.can_read_rom(a) {
                self.read_rom(a)
            } else {
                self.raise(Fault::RomRead);
                0
            }
        } else {
            0
        }
    }

    fn mem_write(&mut self, addr: u16, data: u8)
        ensures
            old(self).wf() ==> final(self).wf(),
    {
        reveal(bus_write);
        let a = fold_mirror(addr);
        if a <= RAM_MIRRORS_END {
            assert(a & 0x7FF == a % 0x800) by (bit_vector);
            self.cpu_vram[(a & 0b111_11111111) as usize] = data;
        } else if a == JOYPAD_1 {
            self.joypad.write(data);
        } else if a == PPU_CONTROLLER {
            if !self.ppu.controller.contains(NMI_INTERRUPT) {
                self.ppu.write_controller(data);
            } else {
                self.raise(Fault::PpuController);
            }
        } else if a == PPU_MASK {
            self.ppu.write_mask(data);
        } else if a == PPU_OAM_ADDR {
            self.ppu.write_oam_addr(data);
        } else if a == PPU_OAM_DATA {
            self.ppu.write_oam_data(data);
        } else if a == PPU_SCROLL {
            self.ppu.write_scroll(data);
        } else if a == PPU_ADDRESS {
            self.ppu.write_address(data);
        } else if a == PPU_DATA {
            if self.ppu.can_write_data() {
                self.ppu.write_data(data);
            } else {
                self.raise(Fault::PpuData);
            }
        } else if a == OAM_DMA {
            self.oam_dma(data);
        } else if a >= ROM {
            self.raise(Fault::RomWrite);
        }
    }
}

impl Mem for Cpu {
    open spec fn read_model(s: CpuView, addr: u16) -> (CpuView, u8) {
        cpu_read(s, addr)
    }

    open spec fn write_model(s: CpuView, addr: u16, value: u8) -> CpuView {
        cpu_write(s, addr, value)
    }

    fn mem_read(&mut self, addr: u16) -> (v: u8)
        ensures
            old(self).wf() ==> final(self).wf(),
    {
        self.bus.mem_read(addr)
    }

    fn mem_write(&mut self, addr: u16, data: u8)
        ensures
            old(self).wf() ==> final(self).wf(),
    {
        self.bus.mem_write(addr, data)
    }

    fn mem_read_u16(&mut self, pos: u16) -> (v: u16)
        ensures
            (final(self)@, v) == cpu_read16(old(self)@, pos),
            old(self).wf() ==> final(self).wf(),
    {
        let lo = self.bus.mem_read(pos);
        let hi = self.bus.mem_read(pos.wrapping_add(1));
        make_word(lo, hi)
    }

    fn mem_write_u16(&mut self, pos: u16, data: u16)
        ensures
            final(self)@ == cpu_write16(old(self)@, pos, data),
            old(self).wf() ==> final(self).wf(),
    {
        let (lo, hi) = split_word(data);
        self.bus.mem_write(pos, lo);
        self.bus.mem_write(pos.wrapping_add(1), hi);
    }
}

/// The page that holds the stack.
pub const STACK: u16 = 0x0100;

/// The address of the stack cell that the stack pointer names.
pub open spec fn stack_cell(sp: u8) -> u16 {
    (0x0100 + sp as int) as u16
}

/// A push stores at the cell that the stack pointer names, then moves the
/// pointer down; the pointer wraps within the stack page.
pub open spec fn push8(s: CpuView, value: u8) -> CpuView {
    CpuView {
        stack_pointer: s.stack_pointer.wrapping_sub(1),
        ..cpu_write(s, stack_cell(s.stack_pointer), value)
    }
}

/// A pop moves the stack pointer up, then reads the cell that it names.
pub open spec fn pop8(s: CpuView) -> (CpuView, u8) {
    let sp = s.stack_pointer.wrapping_add(1);
    cpu_read(CpuView { stack_pointer: sp, ..s }, stack_cell(sp))
}

/// A 16-bit push: the high byte goes first, so the value lies in memory
/// low byte first.
pub open spec fn push16(s: CpuView, value: u16) -> CpuView {
    push8(push8(s, high_byte(value)), low_byte(value))
}

/// A 16-bit pop: the low byte comes first.
pub open spec fn pop16(s: CpuView) -> (CpuView, u16) {
    let (s1, lo) = pop8(s);
    let (s2, hi) = pop8(s1);
    (s2, word(lo, hi))
}

/// The stack lives in page 1 of work memory: a push changes the cell
/// that the stack pointer names and the pointer, and nothing else.
pub proof fn lemma_push_writes_work_memory(s: CpuView, value: u8)
    requires
        cpu_wf(s),
    ensures
        push8(s, value) == (CpuView {
            stack_pointer: s.stack_pointer.wrapping_sub(1),
            bus: BusView {
                cpu_vram: s.bus.cpu_vram.update(0x100 + s.stack_pointer as int, value),
                ..s.bus
            },
            ..s
        }),
        cpu_wf(push8(s, value)),
{
    reveal(bus_write);
}

/// A pop answers the cell above the one that the stack pointer names, and
/// changes the pointer and nothing else.
pub proof fn lemma_pop_reads_work_memory(s: CpuView)
    requires
        cpu_wf(s),
    ensures
        pop8(s) == (
            CpuView { stack_pointer: s.stack_pointer.wrapping_add(1), ..s },
            s.bus.cpu_vram[0x100 + s.stack_pointer.wrapping_add(1) as int],
        ),
{
    reveal(bus_read);
}

/// A pop right after a push answers the pushed byte and leaves the stack
/// pointer where it was before the push.
pub proof fn lemma_push_pop8(s: CpuView, value: u8)
    requires
        cpu_wf(s),
    ensures
        pop8(push8(s, value)).1 == value,
        pop8(push8(s, value)).0.stack_pointer == s.stack_pointer,
        pop8(push8(s, value)).0 == (CpuView {
            stack_pointer: s.stack_pointer,
            ..push8(s, value)
        }),
{
    lemma_push_writes_work_memory(s, value);
    lemma_pop_reads_work_memory(push8(s, value));
}

/// A 16-bit pop right after a 16-bit push answers the pushed value and
/// leaves the stack pointer where it was before the push.
pub proof fn lemma_push_pop16(s: CpuView, value: u16)
    requires
        cpu_wf(s),
    ensures
        pop16(push16(s, value)).1 == value,
        pop16(push16(s, value)).0.stack_pointer == s.stack_pointer,
{
    let s1 = push8(s, high_byte(value));
    let s2 = push8(s1, low_byte(value));
    lemma_push_writes_work_memory(s, high_byte(value));
    lemma_push_writes_work_memory(s1, low_byte(value));
    lemma_pop_reads_work_memory(s2);
    lemma_pop_reads_work_memory(pop8(s2).0);
    assert(word(low_byte(value), high_byte(value)) == value);
}

/// A stack of bytes inside an address space. A 16-bit value is pushed high
/// byte first and popped low byte first.
pub trait Stack: View + Sized {
    /// The state after a push of `value`.
    spec fn push_model(s: Self::V, value: u8) -> Self::V;

    /// The state after a pop, and the byte popped.
    spec fn pop_model(s: Self::V) -> (Self::V, u8);

    fn stack_push_u16(&mut self, value: u16)
        ensures
            final(self)@ == Self::push_model(
                Self::push_model(old(self)@, high_byte(value)),
                low_byte(value),
            ),
    ;

    fn stack_pop_u16(&mut self) -> (v: u16)
        ensures
            ({
                let low = Self::pop_model(old(self)@);
                let high = Self::pop_model(low.0);
                final(self)@ == high.0 && v == word(low.1, high.1)
            }),
    ;

    fn stack_pop_u8(&mut self) -> (v: u8)
        ensures
            (final(self)@, v) == Self::pop_model(old(self)@),
    ;

    fn stack_push_u8(&mut self, value: u8)
        ensures
            final(self)@ == Self::push_model(old(self)@, value),
    ;
}

impl Stack for Cpu {
    open spec fn push_model(s: CpuView, value: u8) -> CpuView {
        push8(s, value)
    }

    open spec fn pop_model(s: CpuView) -> (CpuView, u8) {
        pop8(s)
    }

    fn stack_push_u16(&mut self, value: u16)
        ensures
            final(self)@ == push16(old(self)@, value),
            old(self).wf() ==> final(self).wf(),
    {
        let (lo, hi) = split_word(value);
        self.stack_push_u8(hi);
        self.stack_push_u8(lo);
    }

    fn stack_pop_u16(&mut self) -> (v: u16)
        ensures
            (final(self)@, v) == pop16(old(self)@),
            old(self).wf() ==> final(self).wf(),
    {
        let lo = self.stack_pop_u8();
        let hi = self.stack_pop_u8();
        make_word(lo, hi)
    }

    fn stack_pop_u8(&mut self) -> (v: u8)
        ensures
            old(self).wf() ==> final(self).wf(),
    {
        self.stack_pointer = self.stack_pointer.wrapping_add(1);
        self.mem_read(STACK + self.stack_pointer as u16)
    }

    fn stack_push_u8(&mut self, value: u8)
        ensures
            old(self).wf() ==> final(self).wf(),
    {
        self.mem_write(STACK + self.stack_pointer as u16, value);
        self.stack_pointer = self.stack_pointer.wrapping_sub(1);
    }
}

} // verus!
