//! The processor: its registers, its view of the bus, and power-up.

use vstd::prelude::*;
use crate::emulator::bus::bus_initial;
use crate::emulator::bus::bus_wf;
use crate::emulator::bus::rom_readable;
use crate::emulator::bus::rom_index;
use crate::emulator::bus::Bus;
use crate::emulator::bus::BusView;
use crate::emulator::bus::Fault;
use crate::emulator::flags::Flags;
use crate::emulator::instructions::step_model;
use crate::emulator::interrupts::Interrupt;
use crate::emulator::memory::bus_read;
use crate::emulator::memory::bus_write;
use crate::emulator::memory::high_byte;
use crate::emulator::memory::low_byte;
use crate::emulator::memory::word;
use crate::emulator::memory::Mem;
use crate::emulator::ppu::ppu_tick;
use crate::emulator::rom::chr_of;
use crate::emulator::rom::header_ok;
use crate::emulator::rom::image_complete;
use crate::emulator::rom::mirroring_of;
use crate::emulator::rom::prg_of;
use crate::emulator::rom::version_ok;
use crate::emulator::rom::Rom;

verus! {

pub const NEGATIVE: u8 = 0b1000_0000;

pub const OVERFLOW: u8 = 0b0100_0000;

pub const BREAKONE: u8 = 0b0010_0000;

pub const BREAKTWO: u8 = 0b0001_0000;

pub const DECIMAL: u8 = 0b0000_1000;

pub const INTERDIS: u8 = 0b0000_0100;

pub const ZERO: u8 = 0b0000_0010;

pub const CARRY: u8 = 0b0000_0001;

/// Where the address of the first instruction is stored.
pub const RESET_VECTOR: u16 = 0xFFFC;

/// The stack pointer after power-up.
pub const STACK_RESET: u8 = 0xfd;

/// The status after power-up: the unused bit and interrupt-disable.
pub const STATUS_RESET: u8 = 0b0010_0100;

/// What a reset costs, in cycles.
pub const RESET_CYCLES: usize = 7;

/// Where `load` puts a program, as the processor addresses it.
pub const ROM_START: u16 = 0x8600;

/// The processor as plain values.
pub struct CpuView {
    pub accumulator: u8,
    pub register_x: u8,
    pub register_y: u8,
    pub stack_pointer: u8,
    pub program_counter: u16,
    pub status: u8,
    pub cycles: usize,
    pub bus: BusView,
    pub interrupt: Option<Interrupt>,
}

/// The processor.
pub struct Cpu {
    pub accumulator: u8,
    pub register_x: u8,
    pub register_y: u8,
    pub stack_pointer: u8,
    pub program_counter: u16,
    pub status: Flags,
    /// Cycles spent so far; wraps at the top of its range.
    pub cycles: usize,
    pub bus: Bus,
    /// The interrupt that was delivered last and not yet acknowledged.
    pub interrupt: Option<Interrupt>,
}

impl View for Cpu {
    type V = CpuView;

    open spec fn view(&self) -> CpuView {
        CpuView {
            accumulator: self.accumulator,
            register_x: self.register_x,
            register_y: self.register_y,
            stack_pointer: self.stack_pointer,
            program_counter: self.program_counter,
            status: self.status@,
            cycles: self.cycles,
            bus: self.bus@,
            interrupt: self.interrupt,
        }
    }
}

/// The processor is well formed when its bus is.
pub open spec fn cpu_wf(s: CpuView) -> bool {
    bus_wf(s.bus)
}

/// A read through the processor's bus.
pub open spec fn cpu_read(s: CpuView, addr: u16) -> (CpuView, u8) {
    let (b, v) = bus_read(s.bus, addr);
    (CpuView { bus: b, ..s }, v)
}

/// A write through the processor's bus.
pub open spec fn cpu_write(s: CpuView, addr: u16, value: u8) -> CpuView {
    CpuView { bus: bus_write(s.bus, addr, value), ..s }
}

/// A 16-bit read: two reads, low byte first.
pub open spec fn cpu_read16(s: CpuView, addr: u16) -> (CpuView, u16) {
    let (s1, lo) = cpu_read(s, addr);
    let (s2, hi) = cpu_read(s1, addr.wrapping_add(1));
    (s2, word(lo, hi))
}

/// A 16-bit write: two writes, low byte first.
pub open spec fn cpu_write16(s: CpuView, addr: u16, value: u16) -> CpuView {
    cpu_write(cpu_write(s, addr, low_byte(value)), addr.wrapping_add(1), high_byte(value))
}

/// `n` cycles spent: the counter advances, and the video clock by three
/// dots for each cycle.
pub open spec fn charge(s: CpuView, n: usize) -> CpuView {
    CpuView {
        cycles: s.cycles.wrapping_add(n),
        bus: BusView { ppu: ppu_tick(s.bus.ppu, (n * 3) as usize), ..s.bus },
        ..s
    }
}

/// The processor after power-up, before its first reset.
pub open spec fn cpu_initial(bus: BusView) -> CpuView {
    CpuView {
        accumulator: 0,
        register_x: 0,
        register_y: 0,
        stack_pointer: STACK_RESET,
        program_counter: 0,
        status: STATUS_RESET,
        cycles: 0,
        bus,
        interrupt: None,
    }
}

/// A reset: registers and status return to their power-up values, the
/// cycle counter restarts at the cost of the reset, and execution
/// continues at the address stored in the reset vector.
pub open spec fn cpu_reset(s: CpuView) -> CpuView {
    let cleared = CpuView {
        accumulator: 0,
        register_x: 0,
        register_y: 0,
        stack_pointer: STACK_RESET,
        status: STATUS_RESET,
        cycles: 0,
        ..s
    };
    let (s1, pc) = cpu_read16(charge(cleared, RESET_CYCLES), RESET_VECTOR);
    CpuView { program_counter: pc, ..s1 }
}

/// A program of `n` bytes fits into program data of `prg_len` bytes: the
/// cartridge supplies one 16 KiB bank or at least two, and the program ends
/// before the interrupt vectors.
pub open spec fn load_fits(prg_len: nat, n: nat) -> bool {
    ||| prg_len == 0x4000 && n <= 0x39FA
    ||| prg_len >= 0x8000 && n <= 0x79FA
}

/// Program data with `program` placed where the processor finds it at
/// `ROM_START`, and `ROM_START` stored in the reset vector, low byte first.
pub open spec fn loaded(prg_rom: Seq<u8>, program: Seq<u8>) -> Seq<u8> {
    let vector = rom_index(prg_rom.len(), RESET_VECTOR);
    Seq::new(
        prg_rom.len(),
        |j: int|
            if 0x600 <= j < 0x600 + program.len() {
                program[j - 0x600]
            } else if j == vector {
                0x00u8
            } else if j == vector + 1 {
                0x86u8
            } else {
                prg_rom[j]
            },
    )
}

/// The processor after `load`.
pub open spec fn cpu_load(s: CpuView, program: Seq<u8>) -> CpuView {
    CpuView { bus: BusView { prg_rom: loaded(s.bus.prg_rom, program), ..s.bus }, ..s }
}

/// A loaded program is what the processor reads at `ROM_START`, and a
/// reset after the load starts it.
pub proof fn lemma_load_is_visible(s: CpuView, program: Seq<u8>, i: int)
    requires
        load_fits(s.bus.prg_rom.len(), program.len()),
        0 <= i < program.len(),
    ensures
        cpu_read(cpu_load(s, program), (ROM_START + i) as u16) == (
            cpu_load(s, program),
            program[i],
        ),
        cpu_read16(cpu_load(s, program), RESET_VECTOR) == (cpu_load(s, program), ROM_START),
{
    reveal(bus_read);
    let after = cpu_load(s, program);
    assert(cpu_read(after, RESET_VECTOR) == (after, 0x00u8));
    assert(cpu_read(after, 0xFFFDu16) == (after, 0x86u8));
    assert(RESET_VECTOR.wrapping_add(1) == 0xFFFDu16);
}

/// Up to `limit` instructions: the state they lead to, how many were
/// executed, and whether execution stopped of itself within them.
pub open spec fn run_model(s: CpuView, limit: nat) -> (CpuView, nat, bool)
    decreases limit,
{
    if limit == 0 {
        (s, 0, false)
    } else {
        let (s1, go) = step_model(s);
        if go {
            let (s2, n, stopped) = run_model(s1, (limit - 1) as nat);
            (s2, (n + 1) as nat, stopped)
        } else {
            (s1, 1, true)
        }
    }
}

impl Cpu {
    /// Whether the processor is well formed.
    pub open spec fn wf(&self) -> bool {
        cpu_wf(self@)
    }

    /// Decides `wf`.
    pub fn well_formed(&self) -> (r: bool)
        ensures
            r == self.wf(),
    {
        self.bus.ppu.cycles < 341 && self.bus.ppu.scanline < 262
    }

    /// Builds a processor around a bus.
    pub fn new(bus: Bus) -> (r: Cpu)
        ensures
            r@ == cpu_initial(bus@),
    {
        Cpu {
            accumulator: 0,
            register_x: 0,
            register_y: 0,
            stack_pointer: STACK_RESET,
            status: Flags::from_bits_truncate(STATUS_RESET),
            program_counter: 0,
            bus,
            cycles: 0,
            interrupt: None,
        }
    }

    /// Spends `n` cycles.
    pub fn charge(&mut self, n: usize)
        requires
            old(self).wf(),
            n * 3 + 341 <= usize::MAX,
        ensures
            final(self)@ == charge(old(self)@, n),
            final(self).wf(),
    {
        self.cycles = self.cycles.wrapping_add(n);
        self.bus.tick(n);
    }

    /// Resets the processor.
    pub fn reset(&mut self)
        requires
            old(self).wf(),
        ensures
            final(self)@ == cpu_reset(old(self)@),
            final(self).wf(),
    {
        self.accumulator = 0;
        self.register_x = 0;
        self.register_y = 0;
        self.stack_pointer = STACK_RESET;
        self.status = Flags::from_bits_truncate(STATUS_RESET);
        self.cycles = 0;

        self.charge(RESET_CYCLES);

        self.program_counter = self.mem_read_u16(RESET_VECTOR);
    }

    /// Swaps in the cartridge that `program` holds and resets, or reports
    /// why the image was not accepted and leaves the processor as it was.
    pub fn load_cartridge(&mut self, program: Vec<u8>) -> (r: Result<(), String>)
        requires
            old(self).wf(),
            image_complete(program@),
        ensures
            match r {
                Ok(_) => {
                    &&& header_ok(program@)
                    &&& version_ok(program@)
                    &&& final(self)@ == cpu_reset(
                        CpuView {
                            bus: bus_initial(
                                prg_of(program@),
                                chr_of(program@),
                                mirroring_of(program@),
                            ),
                            ..old(self)@
                        },
                    )
                },
                Err(e) => {
                    &&& final(self)@ == old(self)@
                    &&& {
                        ||| !header_ok(program@) && e@ == "Invalid NES Header"@
                        ||| header_ok(program@) && !version_ok(program@) && e@
                            == "Unsupported NES Version"@
                    }
                },
            },
            final(self).wf(),
    {
        match Rom::new(program) {
            Ok(cartridge) => {
                self.bus = Bus::new(cartridge);
                self.reset();
                Ok(())
            },
            Err(e) => Err(e),
        }
    }

    /// Places a program in the cartridge's program data, for a harness
    /// that has no cartridge image to parse.
    pub fn load(&mut self, program: Vec<u8>)
        requires
            load_fits(old(self)@.bus.prg_rom.len(), program@.len()),
        ensures
            final(self)@ == cpu_load(old(self)@, program@),
    {
        let n = program.len();
        let vector: usize = if self.bus.prg_rom.len() == 0x4000 {
            0x3FFC
        } else {
            0x7FFC
        };
        let ghost before = self@;
        let mut i: usize = 0;
        while i < n
            invariant
                0 <= i <= n,
                n == program@.len(),
                load_fits(before.bus.prg_rom.len(), n as nat),
                self@ == (CpuView {
                    bus: BusView { prg_rom: self@.bus.prg_rom, ..before.bus },
                    ..before
                }),
                self@.bus.prg_rom.len() == before.bus.prg_rom.len(),
                forall|j: int|
                    0 <= j < self@.bus.prg_rom.len() ==> #[trigger] self@.bus.prg_rom[j] == if 0x600
                        <= j < 0x600 + i {
                        program@[j - 0x600]
                    } else {
                        before.bus.prg_rom[j]
                    },
            decreases n - i,
        {
            self.bus.prg_rom.set(0x600 + i, program[i]);
            i = i + 1;
        }
        self.bus.prg_rom.set(vector, 0x00);
        self.bus.prg_rom.set(vector + 1, 0x86);
        assert(self@.bus.prg_rom =~= loaded(before.bus.prg_rom, program@));
    }

    /// Executes instructions until one stops execution or `limit` of them
    /// are done; answers how many were executed and whether execution stopped.
    pub fn run(&mut self, limit: usize) -> (r: (usize, bool))
        requires
            old(self).wf(),
        ensures
            (final(self)@, r.0 as nat, r.1) == run_model(old(self)@, limit as nat),
            final(self).wf(),
    {
        let mut steps: usize = 0;
        let mut stopped = false;
        while !stopped && steps < limit
            invariant
                self.wf(),
                steps <= limit,
                run_model(old(self)@, limit as nat) == if stopped {
                    (self@, steps as nat, true)
                } else {
                    let (s, n, halt) = run_model(self@, (limit - steps) as nat);
                    (s, (n + steps) as nat, halt)
                },
            decreases limit - steps + if stopped { 0int } else { 1int },
        {
            let ghost here = self@;
            let ghost left = (limit - steps) as nat;
            assert(run_model(here, left) == {
                let (s1, go) = step_model(here);
                if go {
                    let (s2, n, halt) = run_model(s1, (left - 1) as nat);
                    (s2, (n + 1) as nat, halt)
                } else {
                    (s1, 1, true)
                }
            });
            let go = self.step();
            steps = steps + 1;
            stopped = !go;
        }
        (steps, stopped)
    }

    /// Like `run`, with `callback` called on the processor before each
    /// instruction. A callback that only looks at the processor leaves the
    /// run as `run` would have it; one that changes the processor must keep
    /// it well formed.
    pub fn run_with_callback<F>(&mut self, limit: usize, mut callback: F) -> (r: (usize, bool))
        where F: FnMut(&mut Cpu)
        requires
            old(self).wf(),
            forall|c: &mut Cpu| mut_ref_current(c).wf() ==> #[trigger] callback.requires((c,)),
            forall|c: &mut Cpu|
                mut_ref_current(c).wf() && #[trigger] callback.ensures((c,), ()) ==> mut_ref_future(
                    c,
                ).wf(),
        ensures
            final(self).wf(),
            r.0 <= limit,
            r.1 || r.0 == limit,
            (forall|c: &mut Cpu| #[trigger]
                callback.ensures((c,), ()) ==> mut_ref_future(c)@ == mut_ref_current(c)@) ==> (
            final(self)@,
            r.0 as nat,
            r.1,
            ) == run_model(old(self)@, limit as nat),
    {
        let ghost looks = forall|c: &mut Cpu| #[trigger]
            callback.ensures((c,), ()) ==> mut_ref_future(c)@ == mut_ref_current(c)@;
        let mut steps: usize = 0;
        let mut stopped = false;
        while !stopped && steps < limit
            invariant
                self.wf(),
                steps <= limit,
                looks == (forall|c: &mut Cpu| #[trigger]
                    callback.ensures((c,), ()) ==> mut_ref_future(c)@ == mut_ref_current(c)@),
                forall|c: &mut Cpu| mut_ref_current(c).wf() ==> #[trigger] callback.requires((c,)),
                forall|c: &mut Cpu|
                    mut_ref_current(c).wf() && #[trigger] callback.ensures((c,), ())
                        ==> mut_ref_future(c).wf(),
                looks ==> run_model(old(self)@, limit as nat) == if stopped {
                    (self@, steps as nat, true)
                } else {
                    let (s, n, halt) = run_model(self@, (limit - steps) as nat);
                    (s, (n + steps) as nat, halt)
                },
            decreases limit - steps + if stopped { 0int } else { 1int },
        {
            let ghost before = self@;
            callback(self);
            assert(looks ==> self@ == before);
            let ghost here = self@;
            let ghost left = (limit - steps) as nat;
            assert(run_model(here, left) == {
                let (s1, go) = step_model(here);
                if go {
                    let (s2, n, halt) = run_model(s1, (left - 1) as nat);
                    (s2, (n + 1) as nat, halt)
                } else {
                    (s1, 1, true)
                }
            });
            let go = self.step();
            steps = steps + 1;
            stopped = !go;
        }
        (steps, stopped)
    }

    /// `load`, `reset`, then `run`.
    pub fn load_and_run(&mut self, program: Vec<u8>, limit: usize) -> (r: (usize, bool))
        requires
            old(self).wf(),
            load_fits(old(self)@.bus.prg_rom.len(), program@.len()),
        ensures
            (final(self)@, r.0 as nat, r.1) == run_model(
                cpu_reset(cpu_load(old(self)@, program@)),
                limit as nat,
            ),
            final(self).wf(),
    {
        self.load(program);
        self.reset();
        self.run(limit)
    }

    /// The first fault that the bus recorded, if any.
    pub fn fault(&self) -> (r: Option<Fault>)
        ensures
            r == self@.bus.fault,
    {
        self.bus.fault
    }
}

} // verus!
