//! Interrupt sources: where each one's handler address is stored and what
//! entering it costs.

use vstd::prelude::*;
use crate::emulator::bus::BusView;
use crate::emulator::cpu::charge;
use crate::emulator::cpu::cpu_read;
use crate::emulator::cpu::cpu_read16;
use crate::emulator::cpu::cpu_wf;
use crate::emulator::cpu::Cpu;
use crate::emulator::cpu::CpuView;
use crate::emulator::cpu::BREAKONE;
use crate::emulator::cpu::BREAKTWO;
use crate::emulator::cpu::INTERDIS;
use crate::emulator::flags::put;
use crate::emulator::instructions::pulled_status;
use crate::emulator::instructions::pushed_status;
use crate::emulator::instructions::rti_model;
use crate::emulator::memory::high_byte;
use crate::emulator::memory::lemma_pop_reads_work_memory;
use crate::emulator::memory::lemma_push_writes_work_memory;
use crate::emulator::memory::lemma_read_keeps_memory;
use crate::emulator::memory::low_byte;
use crate::emulator::memory::pop8;
use crate::emulator::memory::push16;
use crate::emulator::memory::word;
use crate::emulator::memory::push8;
use crate::emulator::memory::Mem;
use crate::emulator::memory::Stack;
use crate::emulator::ppu::ppu_settle;
use crate::emulator::ppu::Ppu;
use crate::emulator::ppu::PpuView;

verus! {

/// The three sources.
#[derive(Clone, Copy, Debug, PartialEq, Eq, Structural)]
pub enum INTERRUPTS {
    NMI,
    IRQ,
    FRMFIN,
}

/// One source, its vector address and its base cycle cost.
#[derive(Clone, Copy, Debug, PartialEq, Eq, Structural)]
pub struct Interrupt {
    pub interrupt: INTERRUPTS,
    pub addr: u16,
    pub cycles: usize,
}

impl Interrupt {
    /// The non-maskable interrupt.
    pub fn new_nmi() -> (r: Interrupt)
        ensures
            r == (Interrupt { interrupt: INTERRUPTS::NMI, addr: 0xFFFA, cycles: 2 }),
    {
        Interrupt { interrupt: INTERRUPTS::NMI, addr: 0xFFFA, cycles: 2 }
    }

    /// The maskable interrupt.
    pub fn new_irq() -> (r: Interrupt)
        ensures
            r == (Interrupt { interrupt: INTERRUPTS::IRQ, addr: 0xFFFE, cycles: 2 }),
    {
        Interrupt { interrupt: INTERRUPTS::IRQ, addr: 0xFFFE, cycles: 2 }
    }

    /// The end of a frame, which restarts from the reset vector.
    pub fn new_frmfin() -> (r: Interrupt)
        ensures
            r == (Interrupt { interrupt: INTERRUPTS::FRMFIN, addr: 0xFFFC, cycles: 7 }),
    {
        Interrupt { interrupt: INTERRUPTS::FRMFIN, addr: 0xFFFC, cycles: 7 }
    }
}

/// What entering an interrupt handler costs, in cycles.
pub const ENTRY_CYCLES: usize = 2;

/// Delivery of an interrupt: the program counter is pushed, then the
/// status with both break bits set in the pushed copy;
/// interrupt-disable is set and the entry cost charged; execution
/// continues at the address stored in the source's vector, and the source is
/// kept as the pending marker.
pub open spec fn interrupt_model(s: CpuView, interrupt: Interrupt) -> CpuView {
    let s1 = push16(s, s.program_counter);
    let s2 = push8(s1, put(put(s1.status, BREAKONE, true), BREAKTWO, true));
    let s3 = CpuView { status: put(s2.status, INTERDIS, true), ..s2 };
    let (s4, pc) = cpu_read16(charge(s3, ENTRY_CYCLES), interrupt.addr);
    CpuView { program_counter: pc, interrupt: Some(interrupt), ..s4 }
}

/// Acknowledgement of the pending interrupt by processor and video unit.
pub open spec fn acknowledged(s: CpuView) -> CpuView {
    CpuView {
        interrupt: None,
        bus: BusView { ppu: PpuView { interrupt: None, ..s.bus.ppu }, ..s.bus },
        ..s
    }
}

/// The return-from-interrupt operation undoes a delivery: execution is
/// back at the interrupted address with the stack pointer where it was,
/// and the status is the pushed one as a pull reads it.
pub proof fn lemma_return_undoes_delivery(s: CpuView, interrupt: Interrupt)
    requires
        cpu_wf(s),
    ensures
        rti_model(interrupt_model(s, interrupt)).program_counter == s.program_counter,
        rti_model(interrupt_model(s, interrupt)).stack_pointer == s.stack_pointer,
        rti_model(interrupt_model(s, interrupt)).status == pulled_status(pushed_status(s.status)),
{
    let pc = s.program_counter;
    let s0 = push8(s, high_byte(pc));
    let s1 = push8(s0, low_byte(pc));
    let p = pushed_status(s1.status);
    let s2 = push8(s1, p);
    let s3 = CpuView { status: put(s2.status, INTERDIS, true), ..s2 };
    let s4 = charge(s3, ENTRY_CYCLES);
    let entered = interrupt_model(s, interrupt);
    lemma_push_writes_work_memory(s, high_byte(pc));
    lemma_push_writes_work_memory(s0, low_byte(pc));
    lemma_push_writes_work_memory(s1, p);
    lemma_read_keeps_memory(s4.bus, interrupt.addr);
    lemma_read_keeps_memory(cpu_read(s4, interrupt.addr).0.bus, interrupt.addr.wrapping_add(1));
    assert(entered.bus.cpu_vram == s2.bus.cpu_vram);
    assert(entered.stack_pointer == s2.stack_pointer);
    assert(cpu_wf(entered)) by {
        reveal_with_fuel(ppu_settle, 2);
    }
    lemma_pop_reads_work_memory(entered);
    let t1 = pop8(entered).0;
    lemma_pop_reads_work_memory(t1);
    let t2 = pop8(t1).0;
    lemma_pop_reads_work_memory(t2);
    assert(word(low_byte(pc), high_byte(pc)) == pc);
}

impl Cpu {
    /// Delivers an interrupt.
    pub fn interrupt(&mut self, interrupt: Interrupt)
        requires
            old(self).wf(),
        ensures
            final(self)@ == interrupt_model(old(self)@, interrupt),
            final(self).wf(),
    {
        self.stack_push_u16(self.program_counter);

        let mut p = self.status;
        p.insert(BREAKONE);
        p.insert(BREAKTWO);
        self.stack_push_u8(p.bits());

        self.status.insert(INTERDIS);

        self.charge(ENTRY_CYCLES);

        self.program_counter = self.mem_read_u16(interrupt.addr);
        self.interrupt = Some(interrupt);
    }

    /// Clears the pending marker. Status and program counter are restored
    /// by the return-from-interrupt operation of the interrupted program,
    /// not here.
    pub fn return_from_interrupt(&mut self)
        ensures
            final(self)@ == (CpuView { interrupt: None, ..old(self)@ }),
    {
        self.interrupt = None;
    }

    /// With an interrupt pending, acknowledges it and hands out the video
    /// unit for drawing; without one, does nothing.
    pub fn ppu_ready(&mut self) -> (r: Option<&Ppu>)
        ensures
            r is Some <==> old(self)@.interrupt is Some,
            final(self)@ == if old(self)@.interrupt is Some {
                acknowledged(old(self)@)
            } else {
                old(self)@
            },
            r matches Some(ppu) ==> ppu@ == final(self)@.bus.ppu,
    {
        if self.interrupt.is_some() {
            self.return_from_interrupt();
            self.bus.ppu.handled_interrupt();
            Some(&self.bus.ppu)
        } else {
            None
        }
    }
}

} // verus!
