//! Reads that leave the machine as it is.

use vstd::prelude::*;
use crate::emulator::cpu::Cpu;
use crate::emulator::cpu::CpuView;
use crate::emulator::memory::bus_peek;
use crate::emulator::memory::make_word;
use crate::emulator::memory::word;

verus! {

/// What a read through the processor's bus would answer.
pub open spec fn peek(s: CpuView, addr: u16) -> u8 {
    bus_peek(s.bus, addr)
}

/// What a 16-bit read through the processor's bus would answer.
pub open spec fn peek16(s: CpuView, addr: u16) -> u16 {
    word(peek(s, addr), peek(s, addr.wrapping_add(1)))
}

impl Cpu {
    /// Shows what a read would answer, with no effect on any state.
    pub fn mem_read_debugging(&self, addr: u16) -> (v: u8)
        ensures
            v == peek(self@, addr),
    {
        self.bus.mem_read_debugging(addr)
    }

    /// Shows what a 16-bit read would answer, with no effect on any state.
    pub fn mem_read_debugging_u16(&self, addr: u16) -> (v: u16)
        ensures
            v == peek16(self@, addr),
    {
        let lo = self.mem_read_debugging(addr);
        let hi = self.mem_read_debugging(addr.wrapping_add(1));
        make_word(lo, hi)
    }
}

} // verus!
