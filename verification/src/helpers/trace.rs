//! The trace line: one line of text for the instruction that the processor
//! is about to execute and the registers it will execute it with.

use vstd::prelude::*;
use crate::emulator::addressing_modes::jump_high_cell;
use crate::emulator::addressing_modes::operand_len;
use crate::emulator::addressing_modes::AddressingMode;
use crate::emulator::cpu::Cpu;
use crate::emulator::cpu::run_model;
use crate::emulator::cpu::CpuView;
use crate::emulator::instructions::step_model;
use crate::emulator::memory::make_word;
use crate::emulator::memory::split_word;
use crate::emulator::memory::word;
use crate::emulator::opcodes::code_name;
use crate::emulator::opcodes::lookup;
use crate::emulator::opcodes::opcode_entry;
use crate::emulator::opcodes::Code;
use crate::helpers::debugging::peek;
use crate::helpers::text::decimal;
use crate::helpers::text::hex2;
use crate::helpers::text::hex4;
use crate::helpers::text::hex_min2;
use crate::helpers::text::pad_left;
use crate::helpers::text::pad_right;
use crate::helpers::text::push_all;
use crate::helpers::text::push_decimal;
use crate::helpers::text::push_decimal_padded;
use crate::helpers::text::push_hex2;
use crate::helpers::text::push_hex4;
use crate::helpers::text::push_hex_min2;
use crate::helpers::text::push_padded;
use crate::helpers::text::push_str;
use crate::helpers::text::to_string;

verus! {

/// Width of the column that shows the instruction's bytes.
pub const BYTES_WIDTH: usize = 8;

/// Width of the column that shows the instruction in assembly.
pub const ASSEMBLY_WIDTH: usize = 31;

/// Width of each of the video clock's two numbers.
pub const CLOCK_WIDTH: usize = 3;

/// The first operand byte of the instruction at the program counter.
pub open spec fn operand_low(s: CpuView) -> u8 {
    peek(s, s.program_counter.wrapping_add(1))
}

/// The second operand byte of the instruction at the program counter.
pub open spec fn operand_high(s: CpuView) -> u8 {
    peek(s, s.program_counter.wrapping_add(2))
}

/// The instruction's bytes in hexadecimal, each followed by a space unless
/// it is the third.
pub open spec fn bytes_text(s: CpuView, opcode: u8, mode: AddressingMode) -> Seq<char> {
    if operand_len(mode) == 0 {
        hex2(opcode) + "  "@
    } else if operand_len(mode) == 1 {
        hex2(opcode) + " "@ + hex2(operand_low(s)) + " "@
    } else {
        hex2(opcode) + " "@ + hex2(operand_low(s)) + " "@ + hex2(operand_high(s))
    }
}

/// The instruction in assembly: the mnemonic, the operand as the mode
/// writes it, the addresses that resolution passes through and the byte
/// found at the end. No state is changed to find them.
pub open spec fn assembly_text(s: CpuView, code: Code, mode: AddressingMode) -> Seq<char> {
    let name = code_name(code);
    let lsb = operand_low(s);
    let msb = operand_high(s);
    let absolute = word(lsb, msb);
    match mode {
        AddressingMode::Implied => name,
        AddressingMode::Accumulator => name + " A"@,
        AddressingMode::Immediate => name + " #$"@ + hex2(lsb),
        AddressingMode::Relative => name + " $"@ + hex_min2(
            s.program_counter.wrapping_add(2).wrapping_add(lsb as u16),
        ),
        AddressingMode::ZeroPage => name + " $"@ + hex2(lsb) + " = "@ + hex2(peek(s, lsb as u16)),
        AddressingMode::ZeroPage_X => {
            let cell = lsb.wrapping_add(s.register_x);
            name + " $"@ + hex2(lsb) + ",X @ "@ + hex2(cell) + " = "@ + hex2(peek(s, cell as u16))
        },
        AddressingMode::ZeroPage_Y => {
            let cell = lsb.wrapping_add(s.register_y);
            name + " $"@ + hex2(lsb) + ",Y @ "@ + hex2(cell) + " = "@ + hex2(peek(s, cell as u16))
        },
        AddressingMode::Absolute => name + " $"@ + hex2(msb) + hex2(lsb) + " = "@ + hex2(
            peek(s, absolute),
        ),
        AddressingMode::Absolute_X => {
            let cell = absolute.wrapping_add(s.register_x as u16);
            name + " $"@ + hex2(msb) + hex2(lsb) + ",X @ "@ + hex4(cell) + " = "@ + hex2(
                peek(s, cell),
            )
        },
        AddressingMode::Absolute_Y => {
            let cell = absolute.wrapping_add(s.register_y as u16);
            name + " $"@ + hex2(msb) + hex2(lsb) + ",Y @ "@ + hex4(cell) + " = "@ + hex2(
                peek(s, cell),
            )
        },
        AddressingMode::Indirect_X => {
            let pointer = lsb.wrapping_add(s.register_x);
            let cell = word(peek(s, pointer as u16), peek(s, pointer.wrapping_add(1) as u16));
            name + " ($"@ + hex2(lsb) + ",X) @ "@ + hex2(pointer) + " = "@ + hex4(cell) + " = "@
                + hex2(peek(s, cell))
        },
        AddressingMode::Indirect_Y => {
            let base = word(peek(s, lsb as u16), peek(s, lsb.wrapping_add(1) as u16));
            let cell = base.wrapping_add(s.register_y as u16);
            name + " ($"@ + hex2(lsb) + "),Y = "@ + hex4(base) + " @ "@ + hex4(cell) + " = "@
                + hex2(peek(s, cell))
        },
        AddressingMode::JumpIndirect => {
            let target = word(peek(s, absolute), peek(s, jump_high_cell(absolute)));
            name + " ($"@ + hex2(msb) + hex2(lsb) + ") = "@ + hex4(target)
        },
        AddressingMode::Jump => name + " $"@ + hex2(msb) + hex2(lsb),
        AddressingMode::NoneAddressing => Seq::empty(),
    }
}

/// The first part of the trace line: the program counter, the
/// instruction's bytes, the instruction in assembly, and the registers.
pub open spec fn registers_text(s: CpuView) -> Seq<char> {
    let opcode = peek(s, s.program_counter);
    let entry = opcode_entry(opcode);
    hex4(s.program_counter) + "  "@ + pad_right(bytes_text(s, opcode, entry.mode), 8) + " "@
        + pad_right(assembly_text(s, entry.code, entry.mode), 31) + "  A:"@ + hex2(s.accumulator)
        + " X:"@ + hex2(s.register_x) + " Y:"@ + hex2(s.register_y) + " P:"@ + hex2(s.status)
        + " SP:"@ + hex2(s.stack_pointer)
}

/// The second part of the trace line: the video clock's scanline and dot,
/// and the cycles spent so far.
pub open spec fn clock_text(s: CpuView) -> Seq<char> {
    " PPU:"@ + pad_left(decimal(s.bus.ppu.scanline as nat), 3) + ","@ + pad_left(
        decimal(s.bus.ppu.cycles as nat),
        3,
    ) + " CYC:"@ + decimal(s.cycles as nat)
}

/// The trace line.
pub open spec fn trace_text(s: CpuView) -> Seq<char> {
    registers_text(s) + clock_text(s)
}

/// The instruction's bytes in hexadecimal.
fn instruction_bytes(cpu: &Cpu, opcode: u8, mode: AddressingMode) -> (r: Vec<char>)
    ensures
        r@ == bytes_text(cpu@, opcode, mode),
{
    let pc = cpu.program_counter;
    let mut out: Vec<char> = Vec::new();
    push_hex2(&mut out, opcode);
    assert(out@ =~= hex2(opcode));
    match mode {
        AddressingMode::Accumulator | AddressingMode::Implied | AddressingMode::NoneAddressing => {
            push_str(&mut out, "  ");
        },
        AddressingMode::Absolute
        | AddressingMode::Absolute_X
        | AddressingMode::Absolute_Y
        | AddressingMode::Jump
        | AddressingMode::JumpIndirect => {
            push_str(&mut out, " ");
            push_hex2(&mut out, cpu.mem_read_debugging(pc.wrapping_add(1)));
            push_str(&mut out, " ");
            push_hex2(&mut out, cpu.mem_read_debugging(pc.wrapping_add(2)));
        },
        _ => {
            push_str(&mut out, " ");
            push_hex2(&mut out, cpu.mem_read_debugging(pc.wrapping_add(1)));
            push_str(&mut out, " ");
        },
    }
    out
}

/// The instruction in assembly.
fn instruction_assembly(cpu: &Cpu, code: Code, mode: AddressingMode) -> (r: Vec<char>)
    ensures
        r@ == assembly_text(cpu@, code, mode),
{
    let pc = cpu.program_counter;
    let x = cpu.register_x;
    let y = cpu.register_y;
    let lsb = cpu.mem_read_debugging(pc.wrapping_add(1));
    let msb = cpu.mem_read_debugging(pc.wrapping_add(2));
    let absolute = make_word(lsb, msb);
    let mut out: Vec<char> = Vec::new();
    if matches!(mode, AddressingMode::NoneAddressing) {
        assert(out@ =~= Seq::<char>::empty());
        return out;
    }
    push_str(&mut out, code.name());
    assert(out@ =~= code_name(code));
    match mode {
        AddressingMode::Implied => {},
        AddressingMode::Accumulator => {
            push_str(&mut out, " A");
        },
        AddressingMode::Immediate => {
            push_str(&mut out, " #$");
            push_hex2(&mut out, lsb);
        },
        AddressingMode::Relative => {
            let address_after_offset = pc.wrapping_add(2).wrapping_add(lsb as u16);
            push_str(&mut out, " $");
            push_hex_min2(&mut out, address_after_offset);
        },
        AddressingMode::ZeroPage => {
            let value_at_address = cpu.mem_read_debugging(lsb as u16);
            push_str(&mut out, " $");
            push_hex2(&mut out, lsb);
            push_str(&mut out, " = ");
            push_hex2(&mut out, value_at_address);
        },
        AddressingMode::ZeroPage_X => {
            let offset = lsb.wrapping_add(x);
            let val_at_offset = cpu.mem_read_debugging(offset as u16);
            push_str(&mut out, " $");
            push_hex2(&mut out, lsb);
            push_str(&mut out, ",X @ ");
            push_hex2(&mut out, offset);
            push_str(&mut out, " = ");
            push_hex2(&mut out, val_at_offset);
        },
        AddressingMode::ZeroPage_Y => {
            let offset = lsb.wrapping_add(y);
            let val_at_offset = cpu.mem_read_debugging(offset as u16);
            push_str(&mut out, " $");
            push_hex2(&mut out, lsb);
            push_str(&mut out, ",Y @ ");
            push_hex2(&mut out, offset);
            push_str(&mut out, " = ");
            push_hex2(&mut out, val_at_offset);
        },
        AddressingMode::Absolute => {
            let val_at_address = cpu.mem_read_debugging(absolute);
            push_str(&mut out, " $");
            push_hex2(&mut out, msb);
            push_hex2(&mut out, lsb);
            push_str(&mut out, " = ");
            push_hex2(&mut out, val_at_address);
        },
        AddressingMode::Absolute_X => {
            let address_after_offset = absolute.wrapping_add(x as u16);
            let val_at_offset = cpu.mem_read_debugging(address_after_offset);
            push_str(&mut out, " $");
            push_hex2(&mut out, msb);
            push_hex2(&mut out, lsb);
            push_str(&mut out, ",X @ ");
            push_hex4(&mut out, address_after_offset);
            push_str(&mut out, " = ");
            push_hex2(&mut out, val_at_offset);
        },
        AddressingMode::Absolute_Y => {
            let address_after_offset = absolute.wrapping_add(y as u16);
            let val_at_offset = cpu.mem_read_debugging(address_after_offset);
            push_str(&mut out, " $");
            push_hex2(&mut out, msb);
            push_hex2(&mut out, lsb);
            push_str(&mut out, ",Y @ ");
            push_hex4(&mut out, address_after_offset);
            push_str(&mut out, " = ");
            push_hex2(&mut out, val_at_offset);
        },
        AddressingMode::Indirect_Y => {
            let address_at_offset = make_word(
                cpu.mem_read_debugging(lsb as u16),
                cpu.mem_read_debugging(lsb.wrapping_add(1) as u16),
            );
            let address_after_offset = address_at_offset.wrapping_add(y as u16);
            let value_at_address = cpu.mem_read_debugging(address_after_offset);
            push_str(&mut out, " ($");
            push_hex2(&mut out, lsb);
            push_str(&mut out, "),Y = ");
            push_hex4(&mut out, address_at_offset);
            push_str(&mut out, " @ ");
            push_hex4(&mut out, address_after_offset);
            push_str(&mut out, " = ");
            push_hex2(&mut out, value_at_address);
        },
        AddressingMode::Indirect_X => {
            let address_after_offset = lsb.wrapping_add(x);
            let address_at_offset = make_word(
                cpu.mem_read_debugging(address_after_offset as u16),
                cpu.mem_read_debugging(address_after_offset.wrapping_add(1) as u16),
            );
            let value_at_address = cpu.mem_read_debugging(address_at_offset);
            push_str(&mut out, " ($");
            push_hex2(&mut out, lsb);
            push_str(&mut out, ",X) @ ");
            push_hex2(&mut out, address_after_offset);
            push_str(&mut out, " = ");
            push_hex4(&mut out, address_at_offset);
            push_str(&mut out, " = ");
            push_hex2(&mut out, value_at_address);
        },
        AddressingMode::JumpIndirect => {
            let (low, high) = split_word(absolute);
            let address_after_boundary = make_word(
                cpu.mem_read_debugging(absolute),
                cpu.mem_read_debugging(make_word(low.wrapping_add(1), high)),
            );
            push_str(&mut out, " ($");
            push_hex2(&mut out, msb);
            push_hex2(&mut out, lsb);
            push_str(&mut out, ") = ");
            push_hex4(&mut out, address_after_boundary);
        },
        AddressingMode::Jump => {
            push_str(&mut out, " $");
            push_hex2(&mut out, msb);
            push_hex2(&mut out, lsb);
        },
        AddressingMode::NoneAddressing => {},
    }
    out
}

/// The first part of the trace line, as characters.
fn registers_line(cpu: &Cpu) -> (r: Vec<char>)
    ensures
        r@ == registers_text(cpu@),
{
    let pc = cpu.program_counter;
    let code = cpu.mem_read_debugging(pc);
    let opcode = lookup(code);
    let bytes = instruction_bytes(cpu, code, opcode.mode);
    let assembly = instruction_assembly(cpu, opcode.code, opcode.mode);

    let mut out: Vec<char> = Vec::new();
    push_hex4(&mut out, pc);
    assert(out@ =~= hex4(pc));
    push_str(&mut out, "  ");
    push_padded(&mut out, &bytes, BYTES_WIDTH);
    push_str(&mut out, " ");
    push_padded(&mut out, &assembly, ASSEMBLY_WIDTH);
    push_str(&mut out, "  A:");
    push_hex2(&mut out, cpu.accumulator);
    push_str(&mut out, " X:");
    push_hex2(&mut out, cpu.register_x);
    push_str(&mut out, " Y:");
    push_hex2(&mut out, cpu.register_y);
    push_str(&mut out, " P:");
    push_hex2(&mut out, cpu.status.bits());
    push_str(&mut out, " SP:");
    push_hex2(&mut out, cpu.stack_pointer);
    out
}

/// The second part of the trace line, as characters.
fn clock_line(cpu: &Cpu) -> (r: Vec<char>)
    ensures
        r@ == clock_text(cpu@),
{
    let mut out: Vec<char> = Vec::new();
    push_str(&mut out, " PPU:");
    assert(out@ =~= " PPU:"@);
    push_decimal_padded(&mut out, cpu.bus.ppu.scanline as usize, CLOCK_WIDTH);
    push_str(&mut out, ",");
    push_decimal_padded(&mut out, cpu.bus.ppu.cycles, CLOCK_WIDTH);
    push_str(&mut out, " CYC:");
    push_decimal(&mut out, cpu.cycles);
    out
}

/// The trace line without the clock columns: program counter, bytes,
/// assembly and registers.
pub fn trace_registers(cpu: &Cpu) -> (r: String)
    ensures
        r@ == registers_text(cpu@),
{
    let line = registers_line(cpu);
    to_string(&line)
}

/// The trace line for the instruction that the processor is about to execute.
pub fn trace(cpu: &Cpu) -> (r: String)
    ensures
        r@ == trace_text(cpu@),
{
    let mut line = registers_line(cpu);
    let clock = clock_line(cpu);
    push_all(&mut line, &clock);
    to_string(&line)
}

/// The trace of a run of up to `limit` instructions: the line for each
/// instruction, taken just before it executes, the one that stops the run
/// included.
pub open spec fn trace_log(s: CpuView, limit: nat) -> Seq<Seq<char>>
    decreases limit,
{
    if limit == 0 {
        Seq::empty()
    } else {
        let (s1, go) = step_model(s);
        seq![trace_text(s)] + if go {
            trace_log(s1, (limit - 1) as nat)
        } else {
            Seq::empty()
        }
    }
}

/// A run and its trace are determined by the state they start from: the
/// registers, the status, the cycle counter and everything behind the bus.
/// Two processors that agree on these run alike, line for line.
pub proof fn lemma_trace_is_reproducible(a: CpuView, b: CpuView, limit: nat)
    requires
        a == b,
    ensures
        run_model(a, limit) == run_model(b, limit),
        trace_log(a, limit) == trace_log(b, limit),
        trace_log(a, limit).len() == run_model(a, limit).1,
    decreases limit,
{
    if limit > 0 {
        let (s1, go) = step_model(a);
        if go {
            lemma_trace_is_reproducible(s1, s1, (limit - 1) as nat);
        }
    }
}

/// Runs up to `limit` instructions and answers the trace of the run.
pub fn run_traced(cpu: &mut Cpu, limit: usize) -> (log: Vec<String>)
    requires
        old(cpu).wf(),
    ensures
        final(cpu).wf(),
        final(cpu)@ == run_model(old(cpu)@, limit as nat).0,
        log@.len() == trace_log(old(cpu)@, limit as nat).len(),
        forall|i: int|
            0 <= i < log@.len() ==> (#[trigger] log@[i])@ == trace_log(old(cpu)@, limit as nat)[i],
{
    let mut log: Vec<String> = Vec::new();
    let mut steps: usize = 0;
    let mut stopped = false;
    let ghost mut lines: Seq<Seq<char>> = Seq::empty();
    while !stopped && steps < limit
        invariant
            cpu.wf(),
            steps <= limit,
            log@.len() == lines.len(),
            forall|i: int| 0 <= i < log@.len() ==> (#[trigger] log@[i])@ == lines[i],
            trace_log(old(cpu)@, limit as nat) == lines + if stopped {
                Seq::empty()
            } else {
                trace_log(cpu@, (limit - steps) as nat)
            },
            run_model(old(cpu)@, limit as nat).0 == if stopped {
                cpu@
            } else {
                run_model(cpu@, (limit - steps) as nat).0
            },
        decreases limit - steps + if stopped { 0int } else { 1int },
    {
        let ghost here = cpu@;
        let ghost left = (limit - steps) as nat;
        let ghost rest = if step_model(here).1 {
            trace_log(step_model(here).0, (left - 1) as nat)
        } else {
            Seq::empty()
        };
        assert(trace_log(here, left) == seq![trace_text(here)] + rest);
        assert(run_model(here, left).0 == if step_model(here).1 {
            run_model(step_model(here).0, (left - 1) as nat).0
        } else {
            step_model(here).0
        });
        let line = trace(cpu);
        log.push(line);
        proof {
            assert(lines + (seq![trace_text(here)] + rest) =~= lines.push(trace_text(here)) + rest);
            lines = lines.push(trace_text(here));
        }
        let go = cpu.step();
        steps = steps + 1;
        stopped = !go;
    }
    proof {
        assert(lines + Seq::<Seq<char>>::empty() =~= lines);
        if !stopped {
            assert(trace_log(cpu@, 0) =~= Seq::<Seq<char>>::empty());
        }
    }
    log
}

} // verus!
