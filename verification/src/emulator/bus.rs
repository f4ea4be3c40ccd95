//! The address bus: work memory, the cartridge's program data, the two
//! peripherals, and a latch for the first access that could not be served.

use vstd::prelude::*;
use crate::emulator::flags::Flags;
use crate::emulator::joypad::Joypad;
use crate::emulator::ppu::ppu_initial;
use crate::emulator::ppu::ppu_tick;
use crate::emulator::ppu::ppu_wf;
use crate::emulator::ppu::Ppu;
use crate::emulator::ppu::PpuView;
use crate::emulator::rom::Mirroring;
use crate::emulator::rom::Rom;

verus! {

/// Cells of work memory.
pub const BUS_ADDRESS_SPACE: usize = 0x800;

/// Peripheral dots per processor cycle.
pub const DOTS_PER_CYCLE: usize = 3;

/// Why the machine stopped serving accesses.
#[derive(Clone, Copy, Debug, PartialEq, Eq, Structural)]
pub enum Fault {
    /// A write into the cartridge's program window.
    RomWrite,
    /// A read of the program window beyond what the cartridge supplies.
    RomRead,
    /// An access of the video data port at an address that it cannot serve.
    PpuData,
    /// A write to the video control register that it does not support.
    PpuController,
}

/// The bus as plain values.
pub struct BusView {
    pub cpu_vram: Seq<u8>,
    pub prg_rom: Seq<u8>,
    pub ppu: PpuView,
    pub joypad: Joypad,
    pub fault: Option<Fault>,
}

/// The address bus.
pub struct Bus {
    pub cpu_vram: [u8; 2048],
    pub prg_rom: Vec<u8>,
    pub ppu: Ppu,
    pub joypad: Joypad,
    /// The first fault since construction, if any. Once set it stays.
    pub fault: Option<Fault>,
}

impl View for Bus {
    type V = BusView;

    open spec fn view(&self) -> BusView {
        BusView {
            cpu_vram: self.cpu_vram@,
            prg_rom: self.prg_rom@,
            ppu: self.ppu@,
            joypad: self.joypad,
            fault: self.fault,
        }
    }
}

/// Work memory has its 2 KiB and the video unit is well formed.
pub open spec fn bus_wf(b: BusView) -> bool {
    b.cpu_vram.len() == 2048 && ppu_wf(b.ppu)
}

/// The bus after power-up, around the given cartridge regions.
pub open spec fn bus_initial(prg_rom: Seq<u8>, chr_rom: Seq<u8>, mirroring: Mirroring) -> BusView {
    BusView {
        cpu_vram: Seq::new(2048, |i: int| 0u8),
        prg_rom,
        ppu: ppu_initial(chr_rom, mirroring),
        joypad: Joypad { strobe: false, cursor: 0, state: Flags { bits: 0 }, buffer: 0 },
        fault: None,
    }
}

/// The cell of program data behind an address of the program window
/// (`0x8000` and up): the offset into the window, folded into the lower
/// half where the cartridge supplies a single 16 KiB bank.
pub open spec fn rom_index(prg_len: nat, addr: u16) -> int {
    let offset = addr as int - 0x8000;
    if prg_len == 0x4000 {
        offset % 0x4000
    } else {
        offset
    }
}

/// The cartridge supplies the cell behind `addr`.
pub open spec fn rom_readable(prg_rom: Seq<u8>, addr: u16) -> bool {
    addr >= 0x8000 && rom_index(prg_rom.len(), addr) < prg_rom.len()
}

/// Records `f` unless an earlier fault is already on record.
pub open spec fn latch(b: BusView, f: Fault) -> BusView {
    BusView {
        fault: if b.fault is None {
            Some(f)
        } else {
            b.fault
        },
        ..b
    }
}

impl Bus {
    /// Whether the bus is well formed.
    pub open spec fn wf(&self) -> bool {
        bus_wf(self@)
    }

    /// Builds the bus around a parsed cartridge.
    pub fn new(rom: Rom) -> (r: Bus)
        ensures
            r@ == bus_initial(rom.prg_rom@, rom.chr_rom@, rom.screen_mirroring),
            r.wf(),
    {
        let r = Bus {
            cpu_vram: [0u8; 2048],
            ppu: Ppu::new(rom.chr_rom, rom.screen_mirroring),
            prg_rom: rom.prg_rom,
            joypad: Joypad::new(),
            fault: None,
        };
        assert(r@.cpu_vram =~= Seq::new(2048, |i: int| 0u8));
        r
    }

    /// Decides `rom_readable`.
    pub fn can_read_rom(&self, addr: u16) -> (r: bool)
        ensures
            r == rom_readable(self@.prg_rom, addr),
    {
        if addr < 0x8000 {
            return false;
        }
        let mut offset: u16 = addr - 0x8000;
        if self.prg_rom.len() == 0x4000 && offset >= 0x4000 {
            offset = offset % 0x4000;
        }
        (offset as usize) < self.prg_rom.len()
    }

    /// Reads program data through the program window.
    pub fn read_rom(&self, addr: u16) -> (r: u8)
        requires
            rom_readable(self@.prg_rom, addr),
        ensures
            r == self@.prg_rom[rom_index(self@.prg_rom.len(), addr)],
    {
        let mut addr = addr;
        addr -= 0x8000;
        if self.prg_rom.len() == 0x4000 && addr >= 0x4000 {
            addr = addr % 0x4000;
        }
        self.prg_rom[addr as usize]
    }

    /// Advances the video unit's clock by three dots per processor cycle.
    pub fn tick(&mut self, cycles: usize)
        requires
            old(self).wf(),
            cycles * 3 + 341 <= usize::MAX,
        ensures
            final(self)@ == (BusView {
                ppu: ppu_tick(old(self)@.ppu, (cycles * 3) as usize),
                ..old(self)@
            }),
            final(self).wf(),
    {
        self.ppu.tick(cycles * DOTS_PER_CYCLE);
    }

    /// Records a fault unless an earlier one is already on record.
    pub fn raise(&mut self, f: Fault)
        ensures
            final(self)@ == latch(old(self)@, f),
    {
        if self.fault.is_none() {
            self.fault = Some(f);
        }
    }
}

} // verus!
