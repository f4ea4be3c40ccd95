//! Addressing modes: how an instruction finds the address of its operand.

use vstd::prelude::*;
use crate::emulator::cpu::cpu_read;
use crate::emulator::cpu::cpu_read16;
use crate::emulator::cpu::Cpu;
use crate::emulator::cpu::CpuView;
use crate::emulator::memory::high_byte;
use crate::emulator::memory::low_byte;
use crate::emulator::memory::make_word;
use crate::emulator::memory::split_word;
use crate::emulator::memory::word;
use crate::emulator::memory::Mem;

verus! {

/// The addressing modes.
#[derive(Clone, Copy, Debug, PartialEq, Eq, Structural)]
#[allow(non_camel_case_types)]
pub enum AddressingMode {
    Immediate,
    ZeroPage,
    ZeroPage_X,
    ZeroPage_Y,
    Absolute,
    Absolute_X,
    Absolute_Y,
    Indirect_X,
    Indirect_Y,
    Relative,
    NoneAddressing,
    Accumulator,
    Implied,
    JumpIndirect,
    Jump,
}

/// How many operand bytes follow the operation byte.
pub open spec fn operand_len(mode: AddressingMode) -> int {
    match mode {
        AddressingMode::Accumulator | AddressingMode::Implied | AddressingMode::NoneAddressing => 0,
        AddressingMode::Absolute
        | AddressingMode::Absolute_X
        | AddressingMode::Absolute_Y
        | AddressingMode::Jump
        | AddressingMode::JumpIndirect => 2,
        _ => 1,
    }
}

/// Whether the mode names a memory operand at all.
pub open spec fn has_operand(mode: AddressingMode) -> bool {
    operand_len(mode) > 0
}

/// Whether two addresses lie in one 256-byte page.
pub open spec fn same_page(a: u16, b: u16) -> bool {
    high_byte(a) == high_byte(b)
}

/// A branch offset as a 16-bit addend: the byte read as a signed number.
pub open spec fn branch_offset(rel: u8) -> u16 {
    if rel < 0x80 {
        rel as u16
    } else {
        (0xFF00 + rel as int) as u16
    }
}

/// Where the high byte of an indirect jump's target is fetched from: one
/// past the pointer, but without leaving the pointer's page.
pub open spec fn jump_high_cell(pointer: u16) -> u16 {
    word(low_byte(pointer).wrapping_add(1), high_byte(pointer))
}

/// Operand resolution with the program counter on the first operand
/// byte: the state after the reads it takes, the operand's address if the
/// mode names one, the number of operand bytes, and whether indexing (or a
/// branch, measured from the next instruction) left the page.
#[verifier::opaque]
pub open spec fn resolve(s: CpuView, mode: AddressingMode) -> (CpuView, (Option<u16>, u16, bool)) {
    let pc = s.program_counter;
    match mode {
        AddressingMode::Immediate => (s, (Some(pc), 1, false)),
        AddressingMode::ZeroPage => {
            let (s1, pos) = cpu_read(s, pc);
            (s1, (Some(pos as u16), 1, false))
        },
        AddressingMode::ZeroPage_X => {
            let (s1, pos) = cpu_read(s, pc);
            (s1, (Some(pos.wrapping_add(s.register_x) as u16), 1, false))
        },
        AddressingMode::ZeroPage_Y => {
            let (s1, pos) = cpu_read(s, pc);
            (s1, (Some(pos.wrapping_add(s.register_y) as u16), 1, false))
        },
        AddressingMode::Absolute | AddressingMode::Jump => {
            let (s1, pos) = cpu_read16(s, pc);
            (s1, (Some(pos), 2, false))
        },
        AddressingMode::Absolute_X => {
            let (s1, pos) = cpu_read16(s, pc);
            let addr = pos.wrapping_add(s.register_x as u16);
            (s1, (Some(addr), 2, !same_page(pos, addr)))
        },
        AddressingMode::Absolute_Y => {
            let (s1, pos) = cpu_read16(s, pc);
            let addr = pos.wrapping_add(s.register_y as u16);
            (s1, (Some(addr), 2, !same_page(pos, addr)))
        },
        AddressingMode::Indirect_X => {
            let (s1, pos) = cpu_read(s, pc);
            let ptr = pos.wrapping_add(s.register_x);
            let (s2, lo) = cpu_read(s1, ptr as u16);
            let (s3, hi) = cpu_read(s2, ptr.wrapping_add(1) as u16);
            (s3, (Some(word(lo, hi)), 1, false))
        },
        AddressingMode::Indirect_Y => {
            let (s1, pos) = cpu_read(s, pc);
            let (s2, lo) = cpu_read(s1, pos as u16);
            let (s3, hi) = cpu_read(s2, pos.wrapping_add(1) as u16);
            let ptr = word(lo, hi);
            let addr = ptr.wrapping_add(s.register_y as u16);
            (s3, (Some(addr), 1, !same_page(ptr, addr)))
        },
        AddressingMode::Relative => {
            let (s1, rel) = cpu_read(s, pc);
            let next = pc.wrapping_add(1);
            let addr = next.wrapping_add(branch_offset(rel));
            (s1, (Some(addr), 1, !same_page(next, addr)))
        },
        AddressingMode::JumpIndirect => {
            let (s1, pointer) = cpu_read16(s, pc);
            let (s2, lo) = cpu_read(s1, pointer);
            let (s3, hi) = cpu_read(s2, jump_high_cell(pointer));
            (s3, (Some(word(lo, hi)), 2, false))
        },
        AddressingMode::Accumulator | AddressingMode::Implied | AddressingMode::NoneAddressing => (
            s,
            (None, 0, false),
        ),
    }
}

/// Decides `same_page`.
pub fn in_same_page(a: u16, b: u16) -> (r: bool)
    ensures
        r == same_page(a, b),
{
    assert((a & 0xFF00) == (b & 0xFF00) <==> a / 256 == b / 256) by (bit_vector);
    (a & 0xFF00) == (b & 0xFF00)
}

/// Reads a branch offset as a signed number and widens it.
pub fn widen_offset(rel: u8) -> (r: u16)
    ensures
        r == branch_offset(rel),
{
    if rel < 0x80 {
        rel as u16
    } else {
        0xFF00 + rel as u16
    }
}

impl Cpu {
    /// Resolves the operand of the instruction whose operand bytes start
    /// at the program counter.
    pub fn get_operand_address(&mut self, mode: &AddressingMode) -> (r: (Option<u16>, u16, bool))
        ensures
            (final(self)@, r) == resolve(old(self)@, *mode),
            r.0 is Some <==> has_operand(*mode),
            r.1 == operand_len(*mode),
            old(self).wf() ==> final(self).wf(),
    {
        reveal(resolve);
        match mode {
            AddressingMode::Immediate => {
                let addr = self.program_counter;
                (Some(addr), 1, false)
            },
            AddressingMode::ZeroPage => {
                let addr = self.mem_read(self.program_counter) as u16;
                (Some(addr), 1, false)
            },
            AddressingMode::Absolute | AddressingMode::Jump => {
                let addr = self.mem_read_u16(self.program_counter);
                (Some(addr), 2, false)
            },
            AddressingMode::ZeroPage_X => {
                let pos = self.mem_read(self.program_counter);
                let addr = pos.wrapping_add(self.register_x);
                (Some(addr as u16), 1, false)
            },
            AddressingMode::ZeroPage_Y => {
                let pos = self.mem_read(self.program_counter);
                let addr = pos.wrapping_add(self.register_y);
                (Some(addr as u16), 1, false)
            },
            AddressingMode::Absolute_X => {
                let pos = self.mem_read_u16(self.program_counter);
                let addr = pos.wrapping_add(self.register_x as u16);
                let crossed_page = !in_same_page(pos, addr);
                (Some(addr), 2, crossed_page)
            },
            AddressingMode::Absolute_Y => {
                let pos = self.mem_read_u16(self.program_counter);
                let addr = pos.wrapping_add(self.register_y as u16);
                let crossed_page = !in_same_page(pos, addr);
                (Some(addr), 2, crossed_page)
            },
            AddressingMode::Indirect_X => {
                let pos = self.mem_read(self.program_counter);
                let ptr = pos.wrapping_add(self.register_x);

                let lo = self.mem_read(ptr as u16);
                let hi = self.mem_read(ptr.wrapping_add(1) as u16);
                (Some(make_word(lo, hi)), 1, false)
            },
            AddressingMode::Indirect_Y => {
                let pos = self.mem_read(self.program_counter);
                let lo = self.mem_read(pos as u16);
                let hi = self.mem_read(pos.wrapping_add(1) as u16);
                let ptr = make_word(lo, hi);

                let addr = ptr.wrapping_add(self.register_y as u16);
                let crossed_page = !in_same_page(ptr, addr);

                (Some(addr), 1, crossed_page)
            },
            AddressingMode::Relative => {
                let relative = self.mem_read(self.program_counter);
                let next = self.program_counter.wrapping_add(1);
                let addr = next.wrapping_add(widen_offset(relative));
                let crossed_page = !in_same_page(next, addr);
                (Some(addr), 1, crossed_page)
            },
            AddressingMode::Accumulator => (None, 0, false),
            AddressingMode::Implied => (None, 0, false),
            AddressingMode::JumpIndirect => {
                let pos = self.mem_read_u16(self.program_counter);
                let (pos_lo, pos_hi) = split_word(pos);
                let lo = self.mem_read(pos);
                let hi = self.mem_read(make_word(pos_lo.wrapping_add(1), pos_hi));
                (Some(make_word(lo, hi)), 2, false)
            },
            AddressingMode::NoneAddressing => (None, 0, false),
        }
    }
}

} // verus!
