//! Instruction semantics: what each operation does to the registers, the
//! status flags and memory, and what it costs.

use vstd::prelude::*;
use crate::emulator::addressing_modes::has_operand;
use crate::emulator::addressing_modes::resolve;
use crate::emulator::addressing_modes::same_page;
use crate::emulator::addressing_modes::AddressingMode;
use crate::emulator::cpu::charge;
use crate::emulator::cpu::cpu_read;
use crate::emulator::cpu::cpu_write;
use crate::emulator::cpu::Cpu;
use crate::emulator::cpu::CpuView;
use crate::emulator::cpu::BREAKONE;
use crate::emulator::cpu::BREAKTWO;
use crate::emulator::cpu::CARRY;
use crate::emulator::cpu::DECIMAL;
use crate::emulator::cpu::INTERDIS;
use crate::emulator::cpu::NEGATIVE;
use crate::emulator::cpu::OVERFLOW;
use crate::emulator::cpu::ZERO;
use crate::emulator::flags::lemma_put_keeps_others;
use crate::emulator::flags::lemma_put_reads_back;
use crate::emulator::flags::put;
use crate::emulator::flags::raised;
use crate::emulator::flags::Flags;
use crate::emulator::memory::high_byte;
use crate::emulator::memory::pop16;
use crate::emulator::memory::pop8;
use crate::emulator::memory::push16;
use crate::emulator::memory::push8;
use crate::emulator::memory::split_word;
use crate::emulator::memory::Mem;
use crate::emulator::memory::Stack;
use crate::emulator::opcodes::lookup;
use crate::emulator::opcodes::opcode_entry;
use crate::emulator::opcodes::Code;

verus! {

/// The status with Zero and Negative set from a result: Zero iff the
/// result is 0, Negative iff its bit 7 is set.
pub open spec fn zn(status: u8, value: u8) -> u8 {
    put(put(status, ZERO, value == 0), NEGATIVE, value >= 0x80)
}

/// The accumulator loaded with `value`, and Zero and Negative set from it.
pub open spec fn with_a(s: CpuView, value: u8) -> CpuView {
    CpuView { accumulator: value, status: zn(s.status, value), ..s }
}

/// Index register X loaded with `value`, and Zero and Negative set from it.
pub open spec fn with_x(s: CpuView, value: u8) -> CpuView {
    CpuView { register_x: value, status: zn(s.status, value), ..s }
}

/// Index register Y loaded with `value`, and Zero and Negative set from it.
pub open spec fn with_y(s: CpuView, value: u8) -> CpuView {
    CpuView { register_y: value, status: zn(s.status, value), ..s }
}

/// The status with one flag switched.
pub open spec fn with_flag(s: CpuView, mask: u8, on: bool) -> CpuView {
    CpuView { status: put(s.status, mask, on), ..s }
}

/// The bitwise complement of a byte.
pub open spec fn complement(value: u8) -> u8 {
    (255 - value) as u8
}

/// A byte moved one place to the left, with `carry` entering at bit 0.
pub open spec fn rotl(value: u8, carry: bool) -> u8 {
    ((value as int * 2) % 256 + if carry { 1int } else { 0int }) as u8
}

/// A byte moved one place to the right, with `carry` entering at bit 7.
pub open spec fn rotr(value: u8, carry: bool) -> u8 {
    (value as int / 2 + if carry { 128int } else { 0int }) as u8
}

/// Whether an addition left the signed range: the result's sign differs
/// from the sign of both addends.
pub open spec fn overflowed(a: u8, m: u8, result: u8) -> bool {
    (result ^ a) & (result ^ m) & 0x80 != 0
}

/// The sum of the accumulator, `m` and the carry, as a number.
pub open spec fn sum_of(s: CpuView, m: u8) -> int {
    s.accumulator as int + m as int + if raised(s.status, CARRY) { 1int } else { 0int }
}

/// Addition: the low eight bits of the sum, with Carry set iff the sum
/// exceeds `0xFF` and Overflow set iff it left the signed range.
pub open spec fn addition(s: CpuView, m: u8) -> (CpuView, u8) {
    let sum = sum_of(s, m);
    let result = (sum % 256) as u8;
    (
        CpuView {
            status: put(
                put(s.status, CARRY, sum > 0xFF),
                OVERFLOW,
                overflowed(s.accumulator, m, result),
            ),
            ..s
        },
        result,
    )
}

/// Addition into the accumulator.
pub open spec fn accumulate(s: CpuView, m: u8) -> CpuView {
    let (s1, result) = addition(s, m);
    with_a(s1, result)
}

/// A comparison: the flags of `reg - m`, with Carry set iff no borrow was needed.
pub open spec fn compare(s: CpuView, reg: u8, m: u8) -> CpuView {
    CpuView { status: put(zn(s.status, reg.wrapping_sub(m)), CARRY, reg >= m), ..s }
}

/// A shift to the left: bit 7 leaves into Carry.
pub open spec fn asl_model(s: CpuView, value: u8) -> (CpuView, u8) {
    let r = rotl(value, false);
    (CpuView { status: zn(put(s.status, CARRY, value >= 0x80), r), ..s }, r)
}

/// A shift to the right: bit 0 leaves into Carry.
pub open spec fn lsr_model(s: CpuView, value: u8) -> (CpuView, u8) {
    let r = rotr(value, false);
    (CpuView { status: zn(put(s.status, CARRY, value % 2 == 1), r), ..s }, r)
}

/// A rotation to the left through Carry.
pub open spec fn rol_model(s: CpuView, value: u8) -> (CpuView, u8) {
    let r = rotl(value, raised(s.status, CARRY));
    (CpuView { status: zn(put(s.status, CARRY, value >= 0x80), r), ..s }, r)
}

/// A rotation to the right through Carry.
pub open spec fn ror_model(s: CpuView, value: u8) -> (CpuView, u8) {
    let r = rotr(value, raised(s.status, CARRY));
    (CpuView { status: zn(put(s.status, CARRY, value % 2 == 1), r), ..s }, r)
}

/// The status as it is pushed: with both break bits set.
pub open spec fn pushed_status(status: u8) -> u8 {
    put(put(status, BREAKONE, true), BREAKTWO, true)
}

/// The status as it is pulled: the break bit dropped, the unused bit set.
pub open spec fn pulled_status(status: u8) -> u8 {
    put(put(status, BREAKTWO, false), BREAKONE, true)
}

/// Loads the accumulator.
pub open spec fn lda_model(s: CpuView, addr: u16) -> CpuView {
    let (s1, v) = cpu_read(s, addr);
    with_a(s1, v)
}

/// Loads index register X.
pub open spec fn ldx_model(s: CpuView, addr: u16) -> CpuView {
    let (s1, v) = cpu_read(s, addr);
    with_x(s1, v)
}

/// Loads index register Y.
pub open spec fn ldy_model(s: CpuView, addr: u16) -> CpuView {
    let (s1, v) = cpu_read(s, addr);
    with_y(s1, v)
}

/// Stores the accumulator.
pub open spec fn sta_model(s: CpuView, addr: u16) -> CpuView {
    cpu_write(s, addr, s.accumulator)
}

/// Stores index register X.
pub open spec fn stx_model(s: CpuView, addr: u16) -> CpuView {
    cpu_write(s, addr, s.register_x)
}

/// Stores index register Y.
pub open spec fn sty_model(s: CpuView, addr: u16) -> CpuView {
    cpu_write(s, addr, s.register_y)
}

/// Adds memory and the carry to the accumulator.
pub open spec fn adc_model(s: CpuView, addr: u16) -> CpuView {
    let (s1, m) = cpu_read(s, addr);
    accumulate(s1, m)
}

/// Subtracts memory and the borrow from the accumulator: an addition of the
/// complement.
pub open spec fn sbc_model(s: CpuView, addr: u16) -> CpuView {
    let (s1, m) = cpu_read(s, addr);
    accumulate(s1, complement(m))
}

/// Increments a memory cell.
pub open spec fn inc_model(s: CpuView, addr: u16) -> CpuView {
    let (s1, v) = cpu_read(s, addr);
    let r = v.wrapping_add(1);
    let s2 = cpu_write(s1, addr, r);
    CpuView { status: zn(s2.status, r), ..s2 }
}

/// Increments index register X.
pub open spec fn inx_model(s: CpuView) -> CpuView {
    with_x(s, s.register_x.wrapping_add(1))
}

/// Increments index register Y.
pub open spec fn iny_model(s: CpuView) -> CpuView {
    with_y(s, s.register_y.wrapping_add(1))
}

/// Decrements a memory cell.
pub open spec fn dec_model(s: CpuView, addr: u16) -> CpuView {
    let (s1, v) = cpu_read(s, addr);
    let r = v.wrapping_sub(1);
    let s2 = cpu_write(s1, addr, r);
    CpuView { status: zn(s2.status, r), ..s2 }
}

/// Decrements index register X.
pub open spec fn dex_model(s: CpuView) -> CpuView {
    with_x(s, s.register_x.wrapping_sub(1))
}

/// Decrements index register Y.
pub open spec fn dey_model(s: CpuView) -> CpuView {
    with_y(s, s.register_y.wrapping_sub(1))
}

/// Bitwise and of memory into the accumulator.
pub open spec fn and_model(s: CpuView, addr: u16) -> CpuView {
    let (s1, v) = cpu_read(s, addr);
    with_a(s1, s1.accumulator & v)
}

/// Bitwise or of memory into the accumulator.
pub open spec fn ora_model(s: CpuView, addr: u16) -> CpuView {
    let (s1, v) = cpu_read(s, addr);
    with_a(s1, s1.accumulator | v)
}

/// Bitwise exclusive or of memory into the accumulator.
pub open spec fn eor_model(s: CpuView, addr: u16) -> CpuView {
    let (s1, v) = cpu_read(s, addr);
    with_a(s1, s1.accumulator ^ v)
}

/// Jumps.
pub open spec fn jmp_model(s: CpuView, addr: u16) -> CpuView {
    CpuView { program_counter: addr, ..s }
}

/// Compares the accumulator with memory.
pub open spec fn cmp_model(s: CpuView, addr: u16) -> CpuView {
    let (s1, m) = cpu_read(s, addr);
    compare(s1, s1.accumulator, m)
}

/// Compares index register X with memory.
pub open spec fn cpx_model(s: CpuView, addr: u16) -> CpuView {
    let (s1, m) = cpu_read(s, addr);
    compare(s1, s1.register_x, m)
}

/// Compares index register Y with memory.
pub open spec fn cpy_model(s: CpuView, addr: u16) -> CpuView {
    let (s1, m) = cpu_read(s, addr);
    compare(s1, s1.register_y, m)
}

/// Tests memory against the accumulator: Zero from their conjunction, Negative
/// and Overflow from bits 7 and 6 of memory.
pub open spec fn bit_model(s: CpuView, addr: u16) -> CpuView {
    let (s1, m) = cpu_read(s, addr);
    CpuView {
        status: put(
            put(put(s1.status, ZERO, s1.accumulator & m == 0), NEGATIVE, m & 0b10000000 != 0),
            OVERFLOW,
            m & 0b01000000 != 0,
        ),
        ..s1
    }
}

/// Shifts the accumulator to the left.
pub open spec fn asl_acc_model(s: CpuView) -> CpuView {
    let (s1, r) = asl_model(s, s.accumulator);
    CpuView { accumulator: r, ..s1 }
}

/// Shifts a memory cell to the left.
pub open spec fn asl_mem_model(s: CpuView, addr: u16) -> CpuView {
    let (s1, v) = cpu_read(s, addr);
    let (s2, r) = asl_model(s1, v);
    cpu_write(s2, addr, r)
}

/// Shifts the accumulator to the right.
pub open spec fn lsr_acc_model(s: CpuView) -> CpuView {
    let (s1, r) = lsr_model(s, s.accumulator);
    CpuView { accumulator: r, ..s1 }
}

/// Shifts a memory cell to the right.
pub open spec fn lsr_mem_model(s: CpuView, addr: u16) -> CpuView {
    let (s1, v) = cpu_read(s, addr);
    let (s2, r) = lsr_model(s1, v);
    cpu_write(s2, addr, r)
}

/// Rotates the accumulator to the left.
pub open spec fn rol_acc_model(s: CpuView) -> CpuView {
    let (s1, r) = rol_model(s, s.accumulator);
    CpuView { accumulator: r, ..s1 }
}

/// Rotates a memory cell to the left.
pub open spec fn rol_mem_model(s: CpuView, addr: u16) -> CpuView {
    let (s1, v) = cpu_read(s, addr);
    let (s2, r) = rol_model(s1, v);
    cpu_write(s2, addr, r)
}

/// Rotates the accumulator to the right.
pub open spec fn ror_acc_model(s: CpuView) -> CpuView {
    let (s1, r) = ror_model(s, s.accumulator);
    CpuView { accumulator: r, ..s1 }
}

/// Rotates a memory cell to the right.
pub open spec fn ror_mem_model(s: CpuView, addr: u16) -> CpuView {
    let (s1, v) = cpu_read(s, addr);
    let (s2, r) = ror_model(s1, v);
    cpu_write(s2, addr, r)
}

/// Copies the accumulator to X.
pub open spec fn tax_model(s: CpuView) -> CpuView {
    with_x(s, s.accumulator)
}

/// Copies the accumulator to Y.
pub open spec fn tay_model(s: CpuView) -> CpuView {
    with_y(s, s.accumulator)
}

/// Copies X to the accumulator.
pub open spec fn txa_model(s: CpuView) -> CpuView {
    with_a(s, s.register_x)
}

/// Copies Y to the accumulator.
pub open spec fn tya_model(s: CpuView) -> CpuView {
    with_a(s, s.register_y)
}

/// Copies the stack pointer to X.
pub open spec fn tsx_model(s: CpuView) -> CpuView {
    with_x(s, s.stack_pointer)
}

/// Copies X to the stack pointer; no flag changes.
pub open spec fn txs_model(s: CpuView) -> CpuView {
    CpuView { stack_pointer: s.register_x, ..s }
}

/// Pushes the accumulator.
pub open spec fn pha_model(s: CpuView) -> CpuView {
    push8(s, s.accumulator)
}

/// Pushes the status, with both break bits set in the pushed copy.
pub open spec fn php_model(s: CpuView) -> CpuView {
    push8(s, pushed_status(s.status))
}

/// Pulls the accumulator.
pub open spec fn pla_model(s: CpuView) -> CpuView {
    let (s1, v) = pop8(s);
    with_a(s1, v)
}

/// Pulls the status.
pub open spec fn plp_model(s: CpuView) -> CpuView {
    let (s1, v) = pop8(s);
    CpuView { status: pulled_status(v), ..s1 }
}

/// Calls a subroutine: pushes the address of the last byte of this instruction,
/// then jumps.
pub open spec fn jsr_model(s: CpuView, addr: u16) -> CpuView {
    CpuView { program_counter: addr, ..push16(s, s.program_counter.wrapping_sub(1)) }
}

/// Returns from a subroutine: continues one past the pulled address.
pub open spec fn rts_model(s: CpuView) -> CpuView {
    let (s1, v) = pop16(s);
    CpuView { program_counter: v.wrapping_add(1), ..s1 }
}

/// Returns from an interrupt: pulls the status, then the program counter.
pub open spec fn rti_model(s: CpuView) -> CpuView {
    let (s1, p) = pop8(s);
    let (s2, pc) = pop16(s1);
    CpuView { status: pulled_status(p), program_counter: pc, ..s2 }
}

/// Clears Carry.
pub open spec fn clc_model(s: CpuView) -> CpuView {
    with_flag(s, CARRY, false)
}

/// Clears Decimal.
pub open spec fn cld_model(s: CpuView) -> CpuView {
    with_flag(s, DECIMAL, false)
}

/// Clears Interrupt-Disable.
pub open spec fn cli_model(s: CpuView) -> CpuView {
    with_flag(s, INTERDIS, false)
}

/// Clears Overflow.
pub open spec fn clv_model(s: CpuView) -> CpuView {
    with_flag(s, OVERFLOW, false)
}

/// Sets Carry.
pub open spec fn sec_model(s: CpuView) -> CpuView {
    with_flag(s, CARRY, true)
}

/// Sets Decimal.
pub open spec fn sed_model(s: CpuView) -> CpuView {
    with_flag(s, DECIMAL, true)
}

/// Sets Interrupt-Disable.
pub open spec fn sei_model(s: CpuView) -> CpuView {
    with_flag(s, INTERDIS, true)
}

/// And of memory into the accumulator, with Carry copied from the result's
/// sign.
pub open spec fn aac_model(s: CpuView, addr: u16) -> CpuView {
    let (s1, v) = cpu_read(s, addr);
    let s2 = with_a(s1, s1.accumulator & v);
    with_flag(s2, CARRY, raised(s2.status, NEGATIVE))
}

/// Stores the conjunction of the accumulator and X.
pub open spec fn aax_model(s: CpuView, addr: u16) -> CpuView {
    cpu_write(s, addr, s.accumulator & s.register_x)
}

/// And of memory into the accumulator, then a shift to the right; Carry and
/// Overflow come from two bits of the result.
pub open spec fn arr_model(s: CpuView, addr: u16) -> CpuView {
    let (s1, v) = cpu_read(s, addr);
    let a = (s1.accumulator & v) >> 1u8;
    let upper = a & 0b100 != 0;
    let lower = a & 0b10 != 0;
    CpuView {
        accumulator: a,
        status: zn(put(put(s1.status, CARRY, lower), OVERFLOW, upper != lower), a),
        ..s1
    }
}

/// And of memory into the accumulator, then a shift to the right.
pub open spec fn asr_model(s: CpuView, addr: u16) -> CpuView {
    let (s1, v) = cpu_read(s, addr);
    let (s2, r) = lsr_model(s1, s1.accumulator & v);
    CpuView { accumulator: r, ..s2 }
}

/// And of memory into the accumulator, copied to X.
pub open spec fn atx_model(s: CpuView, addr: u16) -> CpuView {
    let (s1, v) = cpu_read(s, addr);
    let a = s1.accumulator & v;
    CpuView { register_x: a, ..with_a(s1, a) }
}

/// Stores the conjunction of the accumulator, X and 7.
pub open spec fn axa_model(s: CpuView, addr: u16) -> CpuView {
    cpu_write(s, addr, s.accumulator & s.register_x & 7)
}

/// Subtracts memory from the conjunction of the accumulator and X, into X, as a
/// comparison does.
pub open spec fn axs_model(s: CpuView, addr: u16) -> CpuView {
    let (s1, v) = cpu_read(s, addr);
    let both = s1.accumulator & s1.register_x;
    with_x(with_flag(s1, CARRY, both >= v), both.wrapping_sub(v))
}

/// Decrements a memory cell, then compares the accumulator with it.
pub open spec fn dcp_model(s: CpuView, addr: u16) -> CpuView {
    let (s1, v) = cpu_read(s, addr);
    let r = v.wrapping_sub(1);
    let s2 = cpu_write(s1, addr, r);
    CpuView {
        status: zn(put(s2.status, CARRY, s2.accumulator >= r), s2.accumulator.wrapping_sub(r)),
        ..s2
    }
}

/// Increments a memory cell, then subtracts it from the accumulator.
pub open spec fn isc_model(s: CpuView, addr: u16) -> CpuView {
    let (s1, v) = cpu_read(s, addr);
    let r = v.wrapping_add(1);
    accumulate(cpu_write(s1, addr, r), complement(r))
}

/// And of memory into the stack pointer, copied to the accumulator and X.
pub open spec fn lar_model(s: CpuView, addr: u16) -> CpuView {
    let (s1, v) = cpu_read(s, addr);
    let r = s1.stack_pointer & v;
    CpuView { stack_pointer: r, register_x: r, ..with_a(s1, r) }
}

/// Loads the accumulator and X.
pub open spec fn lax_model(s: CpuView, addr: u16) -> CpuView {
    let (s1, v) = cpu_read(s, addr);
    CpuView { register_x: v, ..with_a(s1, v) }
}

/// Rotates a memory cell to the left, then ands it into the accumulator.
pub open spec fn rla_model(s: CpuView, addr: u16) -> CpuView {
    let (s1, v) = cpu_read(s, addr);
    let (s2, r) = rol_model(s1, v);
    let s3 = cpu_write(s2, addr, r);
    with_a(s3, s3.accumulator & r)
}

/// Shifts a memory cell to the left, then ors it into the accumulator.
pub open spec fn slo_model(s: CpuView, addr: u16) -> CpuView {
    let (s1, v) = cpu_read(s, addr);
    let (s2, r) = asl_model(s1, v);
    let s3 = cpu_write(s2, addr, r);
    with_a(s3, s3.accumulator | r)
}

/// Shifts a memory cell to the right, then exclusive-ors it into the
/// accumulator.
pub open spec fn sre_model(s: CpuView, addr: u16) -> CpuView {
    let (s1, v) = cpu_read(s, addr);
    let (s2, r) = lsr_model(s1, v);
    let s3 = cpu_write(s2, addr, r);
    with_a(s3, s3.accumulator ^ r)
}

/// Rotates a memory cell to the right, then adds it to the accumulator.
pub open spec fn rra_model(s: CpuView, addr: u16) -> CpuView {
    let (s1, v) = cpu_read(s, addr);
    let (s2, r) = ror_model(s1, v);
    accumulate(cpu_write(s2, addr, r), r)
}

/// Stores X, masked by one more than the high byte of the address.
pub open spec fn sxa_model(s: CpuView, addr: u16) -> CpuView {
    cpu_write(s, addr, s.register_x & high_byte(addr).wrapping_add(1))
}

/// Stores Y, masked by one more than the high byte of the address.
pub open spec fn sya_model(s: CpuView, addr: u16) -> CpuView {
    cpu_write(s, addr, s.register_y & high_byte(addr).wrapping_add(1))
}

/// Loads the stack pointer with the conjunction of the accumulator and X, and
/// stores it masked by one more than the high byte of the address.
pub open spec fn xas_model(s: CpuView, addr: u16) -> CpuView {
    let sp = s.accumulator & s.register_x;
    cpu_write(
        CpuView { stack_pointer: sp, ..s },
        addr,
        sp & high_byte(addr).wrapping_add(1),
    )
}

/// Loads the accumulator with the conjunction of X and memory.
pub open spec fn xaa_model(s: CpuView, addr: u16) -> CpuView {
    let (s1, v) = cpu_read(s, addr);
    with_a(s1, s1.register_x & v)
}

/// A conditional branch: the jump is taken iff the condition holds.
pub open spec fn branch_model(s: CpuView, addr: u16, condition: bool) -> (CpuView, bool) {
    if condition {
        (CpuView { program_counter: addr, ..s }, true)
    } else {
        (s, false)
    }
}

/// The flag that a branch tests, and the value on which it jumps.
pub open spec fn branch_test(code: Code) -> Option<(u8, bool)> {
    match code {
        Code::BCS => Some((CARRY, true)),
        Code::BCC => Some((CARRY, false)),
        Code::BEQ => Some((ZERO, true)),
        Code::BNE => Some((ZERO, false)),
        Code::BMI => Some((NEGATIVE, true)),
        Code::BPL => Some((NEGATIVE, false)),
        Code::BVS => Some((OVERFLOW, true)),
        Code::BVC => Some((OVERFLOW, false)),
        _ => None,
    }
}

/// Operations whose cost does not depend on whether indexing left the page.
pub open spec fn page_insensitive(code: Code) -> bool {
    matches!(
        code,
        Code::STA
            | Code::ROR
            | Code::ROL
            | Code::LSR
            | Code::ASL
            | Code::INC
            | Code::DEC
            | Code::DCP_U
            | Code::ISC_U
            | Code::RRA_U
            | Code::RLA_U
            | Code::SLO_U
            | Code::SRE_U
            | Code::SYA_U
            | Code::SXA_U
            | Code::XAS_U
    )
}

/// What an instruction costs: its base cost; for a branch, one cycle more
/// if it is taken and a second if its target lies in another page than the
/// next instruction; for other operations that are sensitive to it, one
/// cycle more if indexing left the page.
pub open spec fn cycle_cost(code: Code, base: u8, crossed: bool, taken: bool) -> usize {
    if page_insensitive(code) {
        base as usize
    } else if branch_test(code) is Some {
        if taken && crossed {
            (base + 2) as usize
        } else if taken {
            (base + 1) as usize
        } else {
            base as usize
        }
    } else if crossed {
        (base + 1) as usize
    } else {
        base as usize
    }
}

/// Operations that work on the operand's address.
pub open spec fn uses_operand(code: Code, mode: AddressingMode) -> bool {
    match code {
        Code::INX
        | Code::INY
        | Code::DEX
        | Code::DEY
        | Code::TAX
        | Code::TAY
        | Code::TXA
        | Code::TYA
        | Code::TSX
        | Code::TXS
        | Code::PHA
        | Code::PHP
        | Code::PLA
        | Code::PLP
        | Code::RTS
        | Code::RTI
        | Code::CLC
        | Code::CLD
        | Code::CLI
        | Code::CLV
        | Code::SEC
        | Code::SED
        | Code::SEI
        | Code::NOP
        | Code::BRK
        | Code::DOP_U
        | Code::KIL_U
        | Code::NOP_U => false,
        Code::ASL | Code::LSR | Code::ROL | Code::ROR => mode != AddressingMode::Accumulator,
        _ => true,
    }
}

/// The four families of operations.
#[derive(Clone, Copy, Debug, PartialEq, Eq, Structural)]
pub enum Family {
    Transfer,
    Arithmetic,
    Flow,
    Undocumented,
}

/// The family of each operation.
pub open spec fn family_of(code: Code) -> Family {
    match code {
        Code::LDA
        | Code::LDX
        | Code::LDY
        | Code::STA
        | Code::STX
        | Code::STY
        | Code::TAX
        | Code::TAY
        | Code::TXA
        | Code::TYA
        | Code::TSX
        | Code::TXS
        | Code::PHA
        | Code::PHP
        | Code::PLA
        | Code::PLP => Family::Transfer,
        Code::ADC
        | Code::SBC
        | Code::INC
        | Code::INX
        | Code::INY
        | Code::DEC
        | Code::DEX
        | Code::DEY
        | Code::AND
        | Code::ORA
        | Code::EOR
        | Code::CMP
        | Code::CPX
        | Code::CPY
        | Code::BIT
        | Code::ASL
        | Code::LSR
        | Code::ROL
        | Code::ROR => Family::Arithmetic,
        Code::JMP
        | Code::JSR
        | Code::RTS
        | Code::RTI
        | Code::BCS
        | Code::BCC
        | Code::BEQ
        | Code::BNE
        | Code::BMI
        | Code::BPL
        | Code::BVS
        | Code::BVC
        | Code::CLC
        | Code::CLD
        | Code::CLI
        | Code::CLV
        | Code::SEC
        | Code::SED
        | Code::SEI
        | Code::NOP
        | Code::BRK => Family::Flow,
        _ => Family::Undocumented,
    }
}

/// Loads, stores, register transfers and stack operations.
#[verifier::opaque]
pub open spec fn transfer_model(
    s: CpuView,
    code: Code,
    mode: AddressingMode,
    operand: Option<u16>,
) -> (CpuView, bool) {
    let addr = operand.unwrap();
    match code {
        Code::LDA => (lda_model(s, addr), false),
        Code::LDX => (ldx_model(s, addr), false),
        Code::LDY => (ldy_model(s, addr), false),
        Code::STA => (sta_model(s, addr), false),
        Code::STX => (stx_model(s, addr), false),
        Code::STY => (sty_model(s, addr), false),
        Code::TAX => (tax_model(s), false),
        Code::TAY => (tay_model(s), false),
        Code::TXA => (txa_model(s), false),
        Code::TYA => (tya_model(s), false),
        Code::TSX => (tsx_model(s), false),
        Code::TXS => (txs_model(s), false),
        Code::PHA => (pha_model(s), false),
        Code::PHP => (php_model(s), false),
        Code::PLA => (pla_model(s), false),
        Code::PLP => (plp_model(s), false),
        _ => (s, false),
    }
}

/// Arithmetic, logic, comparisons, shifts and rotations.
#[verifier::opaque]
pub open spec fn arithmetic_model(
    s: CpuView,
    code: Code,
    mode: AddressingMode,
    operand: Option<u16>,
) -> (CpuView, bool) {
    let addr = operand.unwrap();
    match code {
        Code::ADC => (adc_model(s, addr), false),
        Code::SBC => (sbc_model(s, addr), false),
        Code::INC => (inc_model(s, addr), false),
        Code::INX => (inx_model(s), false),
        Code::INY => (iny_model(s), false),
        Code::DEC => (dec_model(s, addr), false),
        Code::DEX => (dex_model(s), false),
        Code::DEY => (dey_model(s), false),
        Code::AND => (and_model(s, addr), false),
        Code::ORA => (ora_model(s, addr), false),
        Code::EOR => (eor_model(s, addr), false),
        Code::CMP => (cmp_model(s, addr), false),
        Code::CPX => (cpx_model(s, addr), false),
        Code::CPY => (cpy_model(s, addr), false),
        Code::BIT => (bit_model(s, addr), false),
        Code::ASL => if mode == AddressingMode::Accumulator {
            (asl_acc_model(s), false)
        } else {
            (asl_mem_model(s, addr), false)
        },
        Code::LSR => if mode == AddressingMode::Accumulator {
            (lsr_acc_model(s), false)
        } else {
            (lsr_mem_model(s, addr), false)
        },
        Code::ROL => if mode == AddressingMode::Accumulator {
            (rol_acc_model(s), false)
        } else {
            (rol_mem_model(s, addr), false)
        },
        Code::ROR => if mode == AddressingMode::Accumulator {
            (ror_acc_model(s), false)
        } else {
            (ror_mem_model(s, addr), false)
        },
        _ => (s, false),
    }
}

/// Jumps, branches, subroutines, flag changes and the operations without effect.
#[verifier::opaque]
pub open spec fn flow_model(
    s: CpuView,
    code: Code,
    mode: AddressingMode,
    operand: Option<u16>,
) -> (CpuView, bool) {
    let addr = operand.unwrap();
    match code {
        Code::JMP => (jmp_model(s, addr), false),
        Code::JSR => (jsr_model(s, addr), false),
        Code::RTS => (rts_model(s), false),
        Code::RTI => (rti_model(s), false),
        Code::BCS => branch_model(s, addr, raised(s.status, CARRY)),
        Code::BCC => branch_model(s, addr, !raised(s.status, CARRY)),
        Code::BEQ => branch_model(s, addr, raised(s.status, ZERO)),
        Code::BNE => branch_model(s, addr, !raised(s.status, ZERO)),
        Code::BMI => branch_model(s, addr, raised(s.status, NEGATIVE)),
        Code::BPL => branch_model(s, addr, !raised(s.status, NEGATIVE)),
        Code::BVS => branch_model(s, addr, raised(s.status, OVERFLOW)),
        Code::BVC => branch_model(s, addr, !raised(s.status, OVERFLOW)),
        Code::CLC => (clc_model(s), false),
        Code::CLD => (cld_model(s), false),
        Code::CLI => (cli_model(s), false),
        Code::CLV => (clv_model(s), false),
        Code::SEC => (sec_model(s), false),
        Code::SED => (sed_model(s), false),
        Code::SEI => (sei_model(s), false),
        _ => (s, false),
    }
}

/// The undocumented operations.
#[verifier::opaque]
pub open spec fn undocumented_model(
    s: CpuView,
    code: Code,
    mode: AddressingMode,
    operand: Option<u16>,
) -> (CpuView, bool) {
    let addr = operand.unwrap();
    match code {
        Code::AAC_U => (aac_model(s, addr), false),
        Code::AAX_U => (aax_model(s, addr), false),
        Code::ARR_U => (arr_model(s, addr), false),
        Code::ASR_U => (asr_model(s, addr), false),
        Code::ATX_U => (atx_model(s, addr), false),
        Code::AXA_U => (axa_model(s, addr), false),
        Code::AXS_U => (axs_model(s, addr), false),
        Code::DCP_U => (dcp_model(s, addr), false),
        Code::ISC_U => (isc_model(s, addr), false),
        Code::LAR_U => (lar_model(s, addr), false),
        Code::LAX_U => (lax_model(s, addr), false),
        Code::RLA_U => (rla_model(s, addr), false),
        Code::RRA_U => (rra_model(s, addr), false),
        Code::SLO_U => (slo_model(s, addr), false),
        Code::SRE_U => (sre_model(s, addr), false),
        Code::SXA_U => (sxa_model(s, addr), false),
        Code::SYA_U => (sya_model(s, addr), false),
        Code::XAS_U => (xas_model(s, addr), false),
        Code::XAA_U => (xaa_model(s, addr), false),
        _ => (s, false),
    }
}

/// The effect of one operation on the state, given its resolved operand,
/// and whether a branch was taken. The break operation and the
/// operations without effect leave the state as it is.
pub open spec fn execute_model(
    s: CpuView,
    code: Code,
    mode: AddressingMode,
    operand: Option<u16>,
) -> (CpuView, bool) {
    match family_of(code) {
        Family::Transfer => transfer_model(s, code, mode, operand),
        Family::Arithmetic => arithmetic_model(s, code, mode, operand),
        Family::Flow => flow_model(s, code, mode, operand),
        Family::Undocumented => undocumented_model(s, code, mode, operand),
    }
}


/// One instruction: fetch, operand resolution, execution and cost. The
/// answer says whether execution goes on: it ends at the break operation,
/// which sets the unused status bit and costs nothing here, and once the
/// bus has recorded a fault. A processor whose bus already holds a fault
/// does nothing.
pub open spec fn step_model(s: CpuView) -> (CpuView, bool) {
    if s.bus.fault is Some {
        (s, false)
    } else {
        let (s1, opcode) = cpu_read(s, s.program_counter);
        let entry = opcode_entry(opcode);
        let (s2, operand) = resolve(
            CpuView { program_counter: s.program_counter.wrapping_add(1), ..s1 },
            entry.mode,
        );
        let s3 = CpuView { program_counter: s2.program_counter.wrapping_add(operand.1), ..s2 };
        if entry.code == Code::BRK {
            (with_flag(s3, BREAKONE, true), false)
        } else {
            let (s4, taken) = execute_model(s3, entry.code, entry.mode, operand.0);
            let s5 = charge(s4, cycle_cost(entry.code, entry.cycles, operand.2, taken));
            (s5, s5.bus.fault is None)
        }
    }
}

/// Every table entry whose operation works on an operand has an addressing
/// mode that supplies one.
pub proof fn lemma_table_supplies_operands(opcode: u8)
    ensures
        uses_operand(opcode_entry(opcode).code, opcode_entry(opcode).mode) ==> has_operand(
            opcode_entry(opcode).mode,
        ),
{
}

/// The bitwise complement.
pub fn invert(value: u8) -> (r: u8)
    ensures
        r == complement(value),
{
    assert(!value == 255 - value) by (bit_vector);
    !value
}

/// Moves a byte one place to the left; answers the result and the bit that left.
pub fn shift_left(value: u8, carry: bool) -> (r: (u8, bool))
    ensures
        r.0 == rotl(value, carry),
        r.1 == (value >= 0x80),
{
    let low: u8 = if carry {
        1
    } else {
        0
    };
    assert(low <= 1 ==> ((value << 1u8) | low) == (value as int * 2) % 256 + low) by (bit_vector);
    assert((value & 0b10000000 != 0) == (value >= 0x80)) by (bit_vector);
    ((value << 1u8) | low, value & 0b10000000 != 0)
}

/// Moves a byte one place to the right; answers the result and the bit that left.
pub fn shift_right(value: u8, carry: bool) -> (r: (u8, bool))
    ensures
        r.0 == rotr(value, carry),
        r.1 == (value % 2 == 1),
{
    let high: u8 = if carry {
        1
    } else {
        0
    };
    assert(high <= 1 ==> ((value >> 1u8) | (high << 7u8)) == value as int / 2 + high * 128)
        by (bit_vector);
    assert((value & 0b1 != 0) == (value % 2 == 1)) by (bit_vector);
    ((value >> 1u8) | (high << 7u8), value & 0b1 != 0)
}

impl Cpu {
    /// Sets Zero iff `value` is 0.
    pub fn update_zero_flag(&mut self, value: u8)
        ensures
            final(self)@ == with_flag(old(self)@, ZERO, value == 0),
    {
        if value == 0 {
            self.status.insert(ZERO)
        } else {
            self.status.remove(ZERO)
        }
    }

    /// Sets Negative iff bit 7 of `value` is set.
    pub fn update_negative_flag(&mut self, value: u8)
        ensures
            final(self)@ == with_flag(old(self)@, NEGATIVE, value >= 0x80),
    {
        assert((value & 0b1000_0000 != 0) == (value >= 0x80)) by (bit_vector);
        if value & 0b1000_0000 != 0 {
            self.status.insert(NEGATIVE)
        } else {
            self.status.remove(NEGATIVE)
        }
    }

    /// Sets Carry iff `v1` is at least `v2`.
    pub fn update_carry_flag(&mut self, v1: u8, v2: u8)
        ensures
            final(self)@ == with_flag(old(self)@, CARRY, v1 >= v2),
    {
        if v1 >= v2 {
            self.status.insert(CARRY)
        } else {
            self.status.remove(CARRY)
        }
    }

    /// Sets Zero and Negative from `value`.
    pub fn update_zero_and_negative_flag(&mut self, value: u8)
        ensures
            final(self)@ == (CpuView { status: zn(old(self)@.status, value), ..old(self)@ }),
    {
        self.update_zero_flag(value);
        self.update_negative_flag(value);
    }

    /// Reads the byte at the program counter and moves the counter on.
    pub fn next(&mut self) -> (r: u8)
        ensures
            ({
                let (s1, v) = cpu_read(old(self)@, old(self)@.program_counter);
                &&& r == v
                &&& final(self)@ == (CpuView {
                    program_counter: old(self)@.program_counter.wrapping_add(1),
                    ..s1
                })
            }),
            old(self).wf() ==> final(self).wf(),
    {
        let value = self.mem_read(self.program_counter);
        self.program_counter = self.program_counter.wrapping_add(1);
        value
    }

    /// Adds `val` and the carry to the accumulator's value, sets Carry
    /// and Overflow, and answers the result without storing it.
    pub fn addition(&mut self, val: u8) -> (r: u8)
        ensures
            (final(self)@, r) == addition(old(self)@, val),
    {
        let mut sum: u16 = self.accumulator as u16 + val as u16;

        if self.status.contains(CARRY) {
            sum += 1;
        }
        if sum > 0xff {
            self.status.insert(CARRY);
        } else {
            self.status.remove(CARRY);
        }
        let res: u8 = (sum % 256) as u8;
        if (res ^ self.accumulator) & (res ^ val) & 0b10000000 != 0 {
            self.status.insert(OVERFLOW);
        } else {
            self.status.remove(OVERFLOW);
        }
        res
    }

    /// Applies the shift to `val` and sets Carry, Zero and Negative.
    pub fn asl(&mut self, val: u8) -> (r: u8)
        ensures
            (final(self)@, r) == asl_model(old(self)@, val),
    {
        let old_carry = false;
        let (new_val, carry) = shift_left(val, old_carry);
        self.status.set(CARRY, carry);
        self.update_zero_and_negative_flag(new_val);
        new_val
    }

    /// Applies the shift to `val` and sets Carry, Zero and Negative.
    pub fn lsr(&mut self, val: u8) -> (r: u8)
        ensures
            (final(self)@, r) == lsr_model(old(self)@, val),
    {
        let old_carry = false;
        let (new_val, carry) = shift_right(val, old_carry);
        self.status.set(CARRY, carry);
        self.update_zero_and_negative_flag(new_val);
        new_val
    }

    /// Applies the shift to `val` and sets Carry, Zero and Negative.
    pub fn rol(&mut self, val: u8) -> (r: u8)
        ensures
            (final(self)@, r) == rol_model(old(self)@, val),
    {
        let old_carry = self.status.contains(CARRY);
        let (new_val, carry) = shift_left(val, old_carry);
        self.status.set(CARRY, carry);
        self.update_zero_and_negative_flag(new_val);
        new_val
    }

    /// Applies the shift to `val` and sets Carry, Zero and Negative.
    pub fn ror(&mut self, val: u8) -> (r: u8)
        ensures
            (final(self)@, r) == ror_model(old(self)@, val),
    {
        let old_carry = self.status.contains(CARRY);
        let (new_val, carry) = shift_right(val, old_carry);
        self.status.set(CARRY, carry);
        self.update_zero_and_negative_flag(new_val);
        new_val
    }

    /// Loads the accumulator.
    pub fn lda(&mut self, addr: u16)
        ensures
            final(self)@ == lda_model(old(self)@, addr),
            old(self).wf() ==> final(self).wf(),
    {
        let value = self.mem_read(addr);

        self.accumulator = value;
        self.update_zero_and_negative_flag(self.accumulator);
    }

    /// Loads index register X.
    pub fn ldx(&mut self, addr: u16)
        ensures
            final(self)@ == ldx_model(old(self)@, addr),
            old(self).wf() ==> final(self).wf(),
    {
        let value = self.mem_read(addr);

        self.register_x = value;
        self.update_zero_and_negative_flag(self.register_x);
    }

    /// Loads index register Y.
    pub fn ldy(&mut self, addr: u16)
        ensures
            final(self)@ == ldy_model(old(self)@, addr),
            old(self).wf() ==> final(self).wf(),
    {
        let value = self.mem_read(addr);

        self.register_y = value;
        self.update_zero_and_negative_flag(self.register_y);
    }

    /// Stores the accumulator.
    pub fn sta(&mut self, addr: u16)
        ensures
            final(self)@ == sta_model(old(self)@, addr),
            old(self).wf() ==> final(self).wf(),
    {
        self.mem_write(addr, self.accumulator);
    }

    /// Stores index register X.
    pub fn stx(&mut self, addr: u16)
        ensures
            final(self)@ == stx_model(old(self)@, addr),
            old(self).wf() ==> final(self).wf(),
    {
        self.mem_write(addr, self.register_x);
    }

    /// Stores index register Y.
    pub fn sty(&mut self, addr: u16)
        ensures
            final(self)@ == sty_model(old(self)@, addr),
            old(self).wf() ==> final(self).wf(),
    {
        self.mem_write(addr, self.register_y);
    }

    /// Adds memory and the carry to the accumulator.
    pub fn adc(&mut self, addr: u16)
        ensures
            final(self)@ == adc_model(old(self)@, addr),
            old(self).wf() ==> final(self).wf(),
    {
        let val = self.mem_read(addr);

        let res = self.addition(val);
        self.accumulator = res;
        self.update_zero_and_negative_flag(res);
    }

    /// Subtracts memory and the borrow from the accumulator: an addition of the
    /// complement.
    pub fn sbc(&mut self, addr: u16)
        ensures
            final(self)@ == sbc_model(old(self)@, addr),
            old(self).wf() ==> final(self).wf(),
    {
        let val = self.mem_read(addr);

        let res = self.addition(invert(val));
        self.accumulator = res;
        self.update_zero_and_negative_flag(res);
    }

    /// Increments a memory cell.
    pub fn inc(&mut self, addr: u16)
        ensures
            final(self)@ == inc_model(old(self)@, addr),
            old(self).wf() ==> final(self).wf(),
    {
        let value = self.mem_read(addr).wrapping_add(1);
        self.mem_write(addr, value);
        self.update_zero_and_negative_flag(value);
    }

    /// Increments index register X.
    pub fn inx(&mut self)
        ensures
            final(self)@ == inx_model(old(self)@),
            old(self).wf() ==> final(self).wf(),
    {
        self.register_x = self.register_x.wrapping_add(1);
        self.update_zero_and_negative_flag(self.register_x);
    }

    /// Increments index register Y.
    pub fn iny(&mut self)
        ensures
            final(self)@ == iny_model(old(self)@),
            old(self).wf() ==> final(self).wf(),
    {
        self.register_y = self.register_y.wrapping_add(1);
        self.update_zero_and_negative_flag(self.register_y);
    }

    /// Decrements a memory cell.
    pub fn dec(&mut self, addr: u16)
        ensures
            final(self)@ == dec_model(old(self)@, addr),
            old(self).wf() ==> final(self).wf(),
    {
        let value = self.mem_read(addr).wrapping_sub(1);
        self.mem_write(addr, value);
        self.update_zero_and_negative_flag(value);
    }

    /// Decrements index register X.
    pub fn dex(&mut self)
        ensures
            final(self)@ == dex_model(old(self)@),
            old(self).wf() ==> final(self).wf(),
    {
        self.register_x = self.register_x.wrapping_sub(1);
        self.update_zero_and_negative_flag(self.register_x);
    }

    /// Decrements index register Y.
    pub fn dey(&mut self)
        ensures
            final(self)@ == dey_model(old(self)@),
            old(self).wf() ==> final(self).wf(),
    {
        self.register_y = self.register_y.wrapping_sub(1);
        self.update_zero_and_negative_flag(self.register_y);
    }

    /// Bitwise and of memory into the accumulator.
    pub fn and(&mut self, addr: u16)
        ensures
            final(self)@ == and_model(old(self)@, addr),
            old(self).wf() ==> final(self).wf(),
    {
        let value = self.mem_read(addr);
        self.accumulator = self.accumulator & value;
        self.update_zero_and_negative_flag(self.accumulator);
    }

    /// Bitwise or of memory into the accumulator.
    pub fn ora(&mut self, addr: u16)
        ensures
            final(self)@ == ora_model(old(self)@, addr),
            old(self).wf() ==> final(self).wf(),
    {
        let value = self.mem_read(addr);
        self.accumulator = self.accumulator | value;
        self.update_zero_and_negative_flag(self.accumulator);
    }

    /// Bitwise exclusive or of memory into the accumulator.
    pub fn eor(&mut self, addr: u16)
        ensures
            final(self)@ == eor_model(old(self)@, addr),
            old(self).wf() ==> final(self).wf(),
    {
        let value = self.mem_read(addr);
        self.accumulator = self.accumulator ^ value;
        self.update_zero_and_negative_flag(self.accumulator);
    }

    /// Jumps.
    pub fn jmp(&mut self, addr: u16)
        ensures
            final(self)@ == jmp_model(old(self)@, addr),
            old(self).wf() ==> final(self).wf(),
    {
        self.program_counter = addr;
    }

    /// Compares the accumulator with memory.
    pub fn cmp(&mut self, addr: u16)
        ensures
            final(self)@ == cmp_model(old(self)@, addr),
            old(self).wf() ==> final(self).wf(),
    {
        let value = self.mem_read(addr);
        let result = self.accumulator.wrapping_sub(value);

        self.update_zero_and_negative_flag(result);
        self.update_carry_flag(self.accumulator, value);
    }

    /// Compares index register X with memory.
    pub fn cpx(&mut self, addr: u16)
        ensures
            final(self)@ == cpx_model(old(self)@, addr),
            old(self).wf() ==> final(self).wf(),
    {
        let value = self.mem_read(addr);
        let result = self.register_x.wrapping_sub(value);

        self.update_zero_and_negative_flag(result);
        self.update_carry_flag(self.register_x, value);
    }

    /// Compares index register Y with memory.
    pub fn cpy(&mut self, addr: u16)
        ensures
            final(self)@ == cpy_model(old(self)@, addr),
            old(self).wf() ==> final(self).wf(),
    {
        let value = self.mem_read(addr);
        let result = self.register_y.wrapping_sub(value);

        self.update_zero_and_negative_flag(result);
        self.update_carry_flag(self.register_y, value);
    }

    /// Tests memory against the accumulator: Zero from their conjunction,
    /// Negative and Overflow from bits 7 and 6 of memory.
    pub fn bit(&mut self, addr: u16)
        ensures
            final(self)@ == bit_model(old(self)@, addr),
            old(self).wf() ==> final(self).wf(),
    {
        let value = self.mem_read(addr);
        self.status.set(ZERO, (self.accumulator & value) == 0);
        self.status.set(NEGATIVE, value & 0b10000000 != 0);
        self.status.set(OVERFLOW, value & 0b01000000 != 0);
    }

    /// Shifts the accumulator to the left.
    pub fn asl_acc(&mut self)
        ensures
            final(self)@ == asl_acc_model(old(self)@),
            old(self).wf() ==> final(self).wf(),
    {
        let val = self.asl(self.accumulator);
        self.accumulator = val;
    }

    /// Shifts a memory cell to the left.
    pub fn asl_mem(&mut self, addr: u16)
        ensures
            final(self)@ == asl_mem_model(old(self)@, addr),
            old(self).wf() ==> final(self).wf(),
    {
        let val = self.mem_read(addr);

        let val = self.asl(val);
        self.mem_write(addr, val);
    }

    /// Shifts the accumulator to the right.
    pub fn lsr_acc(&mut self)
        ensures
            final(self)@ == lsr_acc_model(old(self)@),
            old(self).wf() ==> final(self).wf(),
    {
        let val = self.lsr(self.accumulator);
        self.accumulator = val;
    }

    /// Shifts a memory cell to the right.
    pub fn lsr_mem(&mut self, addr: u16)
        ensures
            final(self)@ == lsr_mem_model(old(self)@, addr),
            old(self).wf() ==> final(self).wf(),
    {
        let val = self.mem_read(addr);

        let val = self.lsr(val);
        self.mem_write(addr, val);
    }

    /// Rotates the accumulator to the left.
    pub fn rol_acc(&mut self)
        ensures
            final(self)@ == rol_acc_model(old(self)@),
            old(self).wf() ==> final(self).wf(),
    {
        let val = self.rol(self.accumulator);
        self.accumulator = val;
    }

    /// Rotates a memory cell to the left.
    pub fn rol_mem(&mut self, addr: u16)
        ensures
            final(self)@ == rol_mem_model(old(self)@, addr),
            old(self).wf() ==> final(self).wf(),
    {
        let val = self.mem_read(addr);

        let val = self.rol(val);
        self.mem_write(addr, val);
    }

    /// Rotates the accumulator to the right.
    pub fn ror_acc(&mut self)
        ensures
            final(self)@ == ror_acc_model(old(self)@),
            old(self).wf() ==> final(self).wf(),
    {
        let val = self.ror(self.accumulator);
        self.accumulator = val;
    }

    /// Rotates a memory cell to the right.
    pub fn ror_mem(&mut self, addr: u16)
        ensures
            final(self)@ == ror_mem_model(old(self)@, addr),
            old(self).wf() ==> final(self).wf(),
    {
        let val = self.mem_read(addr);

        let val = self.ror(val);
        self.mem_write(addr, val);
    }

    /// Copies the accumulator to X.
    pub fn tax(&mut self)
        ensures
            final(self)@ == tax_model(old(self)@),
            old(self).wf() ==> final(self).wf(),
    {
        self.register_x = self.accumulator;
        self.update_zero_and_negative_flag(self.register_x);
    }

    /// Copies the accumulator to Y.
    pub fn tay(&mut self)
        ensures
            final(self)@ == tay_model(old(self)@),
            old(self).wf() ==> final(self).wf(),
    {
        self.register_y = self.accumulator;
        self.update_zero_and_negative_flag(self.register_y);
    }

    /// Copies X to the accumulator.
    pub fn txa(&mut self)
        ensures
            final(self)@ == txa_model(old(self)@),
            old(self).wf() ==> final(self).wf(),
    {
        self.accumulator = self.register_x;
        self.update_zero_and_negative_flag(self.accumulator);
    }

    /// Copies Y to the accumulator.
    pub fn tya(&mut self)
        ensures
            final(self)@ == tya_model(old(self)@),
            old(self).wf() ==> final(self).wf(),
    {
        self.accumulator = self.register_y;
        self.update_zero_and_negative_flag(self.accumulator);
    }

    /// Copies the stack pointer to X.
    pub fn tsx(&mut self)
        ensures
            final(self)@ == tsx_model(old(self)@),
            old(self).wf() ==> final(self).wf(),
    {
        self.register_x = self.stack_pointer;
        self.update_zero_and_negative_flag(self.register_x);
    }

    /// Copies X to the stack pointer; no flag changes.
    pub fn txs(&mut self)
        ensures
            final(self)@ == txs_model(old(self)@),
            old(self).wf() ==> final(self).wf(),
    {
        self.stack_pointer = self.register_x;
    }

    /// Pushes the accumulator.
    pub fn pha(&mut self)
        ensures
            final(self)@ == pha_model(old(self)@),
            old(self).wf() ==> final(self).wf(),
    {
        self.stack_push_u8(self.accumulator);
    }

    /// Pushes the status, with both break bits set in the pushed copy.
    pub fn php(&mut self)
        ensures
            final(self)@ == php_model(old(self)@),
            old(self).wf() ==> final(self).wf(),
    {
        let mut p = self.status;
        p.insert(BREAKONE);
        p.insert(BREAKTWO);
        self.stack_push_u8(p.bits());
    }

    /// Pulls the accumulator.
    pub fn pla(&mut self)
        ensures
            final(self)@ == pla_model(old(self)@),
            old(self).wf() ==> final(self).wf(),
    {
        self.accumulator = self.stack_pop_u8();
        self.update_zero_and_negative_flag(self.accumulator);
    }

    /// Pulls the status.
    pub fn plp(&mut self)
        ensures
            final(self)@ == plp_model(old(self)@),
            old(self).wf() ==> final(self).wf(),
    {
        self.status = Flags::from_bits_truncate(self.stack_pop_u8());
        self.status.remove(BREAKTWO);
        self.status.insert(BREAKONE);
    }

    /// Calls a subroutine: pushes the address of the last byte of this
    /// instruction, then jumps.
    pub fn jsr(&mut self, addr: u16)
        ensures
            final(self)@ == jsr_model(old(self)@, addr),
            old(self).wf() ==> final(self).wf(),
    {
        self.stack_push_u16(self.program_counter.wrapping_sub(1));
        self.program_counter = addr;
    }

    /// Returns from a subroutine: continues one past the pulled address.
    pub fn rts(&mut self)
        ensures
            final(self)@ == rts_model(old(self)@),
            old(self).wf() ==> final(self).wf(),
    {
        self.program_counter = self.stack_pop_u16().wrapping_add(1);
    }

    /// Returns from an interrupt: pulls the status, then the program counter.
    pub fn rti(&mut self)
        ensures
            final(self)@ == rti_model(old(self)@),
            old(self).wf() ==> final(self).wf(),
    {
        self.status = Flags::from_bits_truncate(self.stack_pop_u8());
        self.program_counter = self.stack_pop_u16();

        self.status.remove(BREAKTWO);
        self.status.insert(BREAKONE);
    }

    /// Clears Carry.
    pub fn clc(&mut self)
        ensures
            final(self)@ == clc_model(old(self)@),
            old(self).wf() ==> final(self).wf(),
    {
        self.status.remove(CARRY);
    }

    /// Clears Decimal.
    pub fn cld(&mut self)
        ensures
            final(self)@ == cld_model(old(self)@),
            old(self).wf() ==> final(self).wf(),
    {
        self.status.remove(DECIMAL);
    }

    /// Clears Interrupt-Disable.
    pub fn cli(&mut self)
        ensures
            final(self)@ == cli_model(old(self)@),
            old(self).wf() ==> final(self).wf(),
    {
        self.status.remove(INTERDIS);
    }

    /// Clears Overflow.
    pub fn clv(&mut self)
        ensures
            final(self)@ == clv_model(old(self)@),
            old(self).wf() ==> final(self).wf(),
    {
        self.status.remove(OVERFLOW);
    }

    /// Sets Carry.
    pub fn sec(&mut self)
        ensures
            final(self)@ == sec_model(old(self)@),
            old(self).wf() ==> final(self).wf(),
    {
        self.status.insert(CARRY);
    }

    /// Sets Decimal.
    pub fn sed(&mut self)
        ensures
            final(self)@ == sed_model(old(self)@),
            old(self).wf() ==> final(self).wf(),
    {
        self.status.insert(DECIMAL);
    }

    /// Sets Interrupt-Disable.
    pub fn sei(&mut self)
        ensures
            final(self)@ == sei_model(old(self)@),
            old(self).wf() ==> final(self).wf(),
    {
        self.status.insert(INTERDIS);
    }

    /// And of memory into the accumulator, with Carry copied from the result's
    /// sign.
    pub fn aac(&mut self, addr: u16)
        ensures
            final(self)@ == aac_model(old(self)@, addr),
            old(self).wf() ==> final(self).wf(),
    {
        let value = self.mem_read(addr);
        self.accumulator = self.accumulator & value;
        self.update_zero_and_negative_flag(self.accumulator);

        if self.status.contains(NEGATIVE) {
            self.status.insert(CARRY);
        } else {
            self.status.remove(CARRY);
        }
    }

    /// Stores the conjunction of the accumulator and X.
    pub fn aax(&mut self, addr: u16)
        ensures
            final(self)@ == aax_model(old(self)@, addr),
            old(self).wf() ==> final(self).wf(),
    {
        let val = self.accumulator & self.register_x;

        self.mem_write(addr, val);
    }

    /// And of memory into the accumulator, then a shift to the right; Carry and
    /// Overflow come from two bits of the result.
    pub fn arr(&mut self, addr: u16)
        ensures
            final(self)@ == arr_model(old(self)@, addr),
            old(self).wf() ==> final(self).wf(),
    {
        let val = self.mem_read(addr);
        self.accumulator = self.accumulator & val;
        self.accumulator = self.accumulator >> 1u8;

        let bit_5_set = self.accumulator & 0b100 != 0;
        let bit_6_set = self.accumulator & 0b10 != 0;

        self.status.set(CARRY, bit_6_set);
        self.status.set(OVERFLOW, bit_5_set != bit_6_set);

        self.update_zero_and_negative_flag(self.accumulator);
    }

    /// And of memory into the accumulator, then a shift to the right.
    pub fn asr(&mut self, addr: u16)
        ensures
            final(self)@ == asr_model(old(self)@, addr),
            old(self).wf() ==> final(self).wf(),
    {
        let val = self.mem_read(addr);
        self.accumulator = self.accumulator & val;
        self.accumulator = self.lsr(self.accumulator);
    }

    /// And of memory into the accumulator, copied to X.
    pub fn atx(&mut self, addr: u16)
        ensures
            final(self)@ == atx_model(old(self)@, addr),
            old(self).wf() ==> final(self).wf(),
    {
        let val = self.mem_read(addr);
        self.accumulator = self.accumulator & val;
        self.register_x = self.accumulator;

        self.update_zero_and_negative_flag(self.accumulator);
    }

    /// Stores the conjunction of the accumulator, X and 7.
    pub fn axa(&mut self, addr: u16)
        ensures
            final(self)@ == axa_model(old(self)@, addr),
            old(self).wf() ==> final(self).wf(),
    {
        let val = self.accumulator & self.register_x & 7;
        self.mem_write(addr, val);
    }

    /// Subtracts memory from the conjunction of the accumulator and X, into X,
    /// as a comparison does.
    pub fn axs(&mut self, addr: u16)
        ensures
            final(self)@ == axs_model(old(self)@, addr),
            old(self).wf() ==> final(self).wf(),
    {
        let val = self.mem_read(addr);

        let res = self.accumulator & self.register_x;

        self.update_carry_flag(res, val);
        self.register_x = res.wrapping_sub(val);
        self.update_zero_and_negative_flag(self.register_x);
    }

    /// Decrements a memory cell, then compares the accumulator with it.
    pub fn dcp(&mut self, addr: u16)
        ensures
            final(self)@ == dcp_model(old(self)@, addr),
            old(self).wf() ==> final(self).wf(),
    {
        let val = self.mem_read(addr).wrapping_sub(1);

        self.mem_write(addr, val);
        self.update_carry_flag(self.accumulator, val);
        self.update_zero_and_negative_flag(self.accumulator.wrapping_sub(val));
    }

    /// Increments a memory cell, then subtracts it from the accumulator.
    pub fn isc(&mut self, addr: u16)
        ensures
            final(self)@ == isc_model(old(self)@, addr),
            old(self).wf() ==> final(self).wf(),
    {
        let val = self.mem_read(addr).wrapping_add(1);
        self.mem_write(addr, val);

        let res = self.addition(invert(val));
        self.accumulator = res;
        self.update_zero_and_negative_flag(self.accumulator);
    }

    /// And of memory into the stack pointer, copied to the accumulator and X.
    pub fn lar(&mut self, addr: u16)
        ensures
            final(self)@ == lar_model(old(self)@, addr),
            old(self).wf() ==> final(self).wf(),
    {
        let val = self.mem_read(addr);
        self.stack_pointer = self.stack_pointer & val;
        self.accumulator = self.stack_pointer;
        self.register_x = self.stack_pointer;
        self.update_zero_and_negative_flag(self.stack_pointer);
    }

    /// Loads the accumulator and X.
    pub fn lax(&mut self, addr: u16)
        ensures
            final(self)@ == lax_model(old(self)@, addr),
            old(self).wf() ==> final(self).wf(),
    {
        let val = self.mem_read(addr);
        self.accumulator = val;
        self.register_x = val;
        self.update_zero_and_negative_flag(val);
    }

    /// Rotates a memory cell to the left, then ands it into the accumulator.
    pub fn rla(&mut self, addr: u16)
        ensures
            final(self)@ == rla_model(old(self)@, addr),
            old(self).wf() ==> final(self).wf(),
    {
        let val = self.mem_read(addr);

        let res = self.rol(val);
        self.mem_write(addr, res);

        self.accumulator = self.accumulator & res;
        self.update_zero_and_negative_flag(self.accumulator);
    }

    /// Shifts a memory cell to the left, then ors it into the accumulator.
    pub fn slo(&mut self, addr: u16)
        ensures
            final(self)@ == slo_model(old(self)@, addr),
            old(self).wf() ==> final(self).wf(),
    {
        let val = self.mem_read(addr);

        let res = self.asl(val);
        self.mem_write(addr, res);

        self.accumulator = self.accumulator | res;
        self.update_zero_and_negative_flag(self.accumulator);
    }

    /// Shifts a memory cell to the right, then exclusive-ors it into the
    /// accumulator.
    pub fn sre(&mut self, addr: u16)
        ensures
            final(self)@ == sre_model(old(self)@, addr),
            old(self).wf() ==> final(self).wf(),
    {
        let val = self.mem_read(addr);

        let res = self.lsr(val);
        self.mem_write(addr, res);

        self.accumulator = self.accumulator ^ res;
        self.update_zero_and_negative_flag(self.accumulator);
    }

    /// Rotates a memory cell to the right, then adds it to the accumulator.
    pub fn rra(&mut self, addr: u16)
        ensures
            final(self)@ == rra_model(old(self)@, addr),
            old(self).wf() ==> final(self).wf(),
    {
        let val = self.mem_read(addr);

        let res = self.ror(val);
        self.mem_write(addr, res);

        let res = self.addition(res);
        self.accumulator = res;
        self.update_zero_and_negative_flag(self.accumulator);
    }

    /// Stores X, masked by one more than the high byte of the address.
    pub fn sxa(&mut self, addr: u16)
        ensures
            final(self)@ == sxa_model(old(self)@, addr),
            old(self).wf() ==> final(self).wf(),
    {
        let (_, hi) = split_word(addr);
        let val = self.register_x & hi.wrapping_add(1);
        self.mem_write(addr, val);
    }

    /// Stores Y, masked by one more than the high byte of the address.
    pub fn sya(&mut self, addr: u16)
        ensures
            final(self)@ == sya_model(old(self)@, addr),
            old(self).wf() ==> final(self).wf(),
    {
        let (_, hi) = split_word(addr);
        let val = self.register_y & hi.wrapping_add(1);
        self.mem_write(addr, val);
    }

    /// Loads the stack pointer with the conjunction of the accumulator and X,
    /// and stores it masked by one more than the high byte of the address.
    pub fn xas(&mut self, addr: u16)
        ensures
            final(self)@ == xas_model(old(self)@, addr),
            old(self).wf() ==> final(self).wf(),
    {
        let (_, hi) = split_word(addr);
        self.stack_pointer = self.accumulator & self.register_x;
        let val = self.stack_pointer & hi.wrapping_add(1);
        self.mem_write(addr, val);
    }

    /// Loads the accumulator with the conjunction of X and memory.
    pub fn xaa(&mut self, addr: u16)
        ensures
            final(self)@ == xaa_model(old(self)@, addr),
            old(self).wf() ==> final(self).wf(),
    {
        let val = self.mem_read(addr);
        self.accumulator = self.register_x & val;
        self.update_zero_and_negative_flag(self.accumulator);
    }

    /// A conditional branch.
    pub fn branch(&mut self, addr: u16, condition: bool) -> (taken: bool)
        ensures
            (final(self)@, taken) == branch_model(old(self)@, addr, condition),
    {
        if condition {
            self.program_counter = addr;
        }
        condition
    }


    /// Loads, stores, register transfers and stack operations.
    pub fn execute_transfer(
        &mut self,
        code: Code,
        mode: AddressingMode,
        operand: Option<u16>,
    ) -> (taken: bool)
        requires
            family_of(code) == Family::Transfer,
            uses_operand(code, mode) ==> operand is Some,
        ensures
            (final(self)@, taken) == transfer_model(old(self)@, code, mode, operand),
            old(self).wf() ==> final(self).wf(),
    {
        reveal(transfer_model);
        let addr: u16 = match operand {
            Some(a) => a,
            None => 0,
        };
        match code {
            Code::LDA => {
                self.lda(addr);
                false
            },
            Code::LDX => {
                self.ldx(addr);
                false
            },
            Code::LDY => {
                self.ldy(addr);
                false
            },
            Code::STA => {
                self.sta(addr);
                false
            },
            Code::STX => {
                self.stx(addr);
                false
            },
            Code::STY => {
                self.sty(addr);
                false
            },
            Code::TAX => {
                self.tax();
                false
            },
            Code::TAY => {
                self.tay();
                false
            },
            Code::TXA => {
                self.txa();
                false
            },
            Code::TYA => {
                self.tya();
                false
            },
            Code::TSX => {
                self.tsx();
                false
            },
            Code::TXS => {
                self.txs();
                false
            },
            Code::PHA => {
                self.pha();
                false
            },
            Code::PHP => {
                self.php();
                false
            },
            Code::PLA => {
                self.pla();
                false
            },
            Code::PLP => {
                self.plp();
                false
            },
            _ => false,
        }
    }

    /// Arithmetic, logic, comparisons, shifts and rotations.
    pub fn execute_arithmetic(
        &mut self,
        code: Code,
        mode: AddressingMode,
        operand: Option<u16>,
    ) -> (taken: bool)
        requires
            family_of(code) == Family::Arithmetic,
            uses_operand(code, mode) ==> operand is Some,
        ensures
            (final(self)@, taken) == arithmetic_model(old(self)@, code, mode, operand),
            old(self).wf() ==> final(self).wf(),
    {
        reveal(arithmetic_model);
        let addr: u16 = match operand {
            Some(a) => a,
            None => 0,
        };
        match code {
            Code::ADC => {
                self.adc(addr);
                false
            },
            Code::SBC => {
                self.sbc(addr);
                false
            },
            Code::INC => {
                self.inc(addr);
                false
            },
            Code::INX => {
                self.inx();
                false
            },
            Code::INY => {
                self.iny();
                false
            },
            Code::DEC => {
                self.dec(addr);
                false
            },
            Code::DEX => {
                self.dex();
                false
            },
            Code::DEY => {
                self.dey();
                false
            },
            Code::AND => {
                self.and(addr);
                false
            },
            Code::ORA => {
                self.ora(addr);
                false
            },
            Code::EOR => {
                self.eor(addr);
                false
            },
            Code::CMP => {
                self.cmp(addr);
                false
            },
            Code::CPX => {
                self.cpx(addr);
                false
            },
            Code::CPY => {
                self.cpy(addr);
                false
            },
            Code::BIT => {
                self.bit(addr);
                false
            },
            Code::ASL => {
                if matches!(mode, AddressingMode::Accumulator) {
                    self.asl_acc();
                } else {
                    self.asl_mem(addr);
                }
                false
            },
            Code::LSR => {
                if matches!(mode, AddressingMode::Accumulator) {
                    self.lsr_acc();
                } else {
                    self.lsr_mem(addr);
                }
                false
            },
            Code::ROL => {
                if matches!(mode, AddressingMode::Accumulator) {
                    self.rol_acc();
                } else {
                    self.rol_mem(addr);
                }
                false
            },
            Code::ROR => {
                if matches!(mode, AddressingMode::Accumulator) {
                    self.ror_acc();
                } else {
                    self.ror_mem(addr);
                }
                false
            },
            _ => false,
        }
    }

    /// Jumps, branches, subroutines, flag changes and the operations without effect.
    pub fn execute_flow(
        &mut self,
        code: Code,
        mode: AddressingMode,
        operand: Option<u16>,
    ) -> (taken: bool)
        requires
            family_of(code) == Family::Flow,
            uses_operand(code, mode) ==> operand is Some,
        ensures
            (final(self)@, taken) == flow_model(old(self)@, code, mode, operand),
            old(self).wf() ==> final(self).wf(),
    {
        reveal(flow_model);
        let addr: u16 = match operand {
            Some(a) => a,
            None => 0,
        };
        match code {
            Code::JMP => {
                self.jmp(addr);
                false
            },
            Code::JSR => {
                self.jsr(addr);
                false
            },
            Code::RTS => {
                self.rts();
                false
            },
            Code::RTI => {
                self.rti();
                false
            },
            Code::BCS => {
                let condition = self.status.contains(CARRY);
                self.branch(addr, condition)
            },
            Code::BCC => {
                let condition = !self.status.contains(CARRY);
                self.branch(addr, condition)
            },
            Code::BEQ => {
                let condition = self.status.contains(ZERO);
                self.branch(addr, condition)
            },
            Code::BNE => {
                let condition = !self.status.contains(ZERO);
                self.branch(addr, condition)
            },
            Code::BMI => {
                let condition = self.status.contains(NEGATIVE);
                self.branch(addr, condition)
            },
            Code::BPL => {
                let condition = !self.status.contains(NEGATIVE);
                self.branch(addr, condition)
            },
            Code::BVS => {
                let condition = self.status.contains(OVERFLOW);
                self.branch(addr, condition)
            },
            Code::BVC => {
                let condition = !self.status.contains(OVERFLOW);
                self.branch(addr, condition)
            },
            Code::CLC => {
                self.clc();
                false
            },
            Code::CLD => {
                self.cld();
                false
            },
            Code::CLI => {
                self.cli();
                false
            },
            Code::CLV => {
                self.clv();
                false
            },
            Code::SEC => {
                self.sec();
                false
            },
            Code::SED => {
                self.sed();
                false
            },
            Code::SEI => {
                self.sei();
                false
            },
            _ => false,
        }
    }

    /// The undocumented operations.
    pub fn execute_undocumented(
        &mut self,
        code: Code,
        mode: AddressingMode,
        operand: Option<u16>,
    ) -> (taken: bool)
        requires
            family_of(code) == Family::Undocumented,
            uses_operand(code, mode) ==> operand is Some,
        ensures
            (final(self)@, taken) == undocumented_model(old(self)@, code, mode, operand),
            old(self).wf() ==> final(self).wf(),
    {
        reveal(undocumented_model);
        let addr: u16 = match operand {
            Some(a) => a,
            None => 0,
        };
        match code {
            Code::AAC_U => {
                self.aac(addr);
                false
            },
            Code::AAX_U => {
                self.aax(addr);
                false
            },
            Code::ARR_U => {
                self.arr(addr);
                false
            },
            Code::ASR_U => {
                self.asr(addr);
                false
            },
            Code::ATX_U => {
                self.atx(addr);
                false
            },
            Code::AXA_U => {
                self.axa(addr);
                false
            },
            Code::AXS_U => {
                self.axs(addr);
                false
            },
            Code::DCP_U => {
                self.dcp(addr);
                false
            },
            Code::ISC_U => {
                self.isc(addr);
                false
            },
            Code::LAR_U => {
                self.lar(addr);
                false
            },
            Code::LAX_U => {
                self.lax(addr);
                false
            },
            Code::RLA_U => {
                self.rla(addr);
                false
            },
            Code::RRA_U => {
                self.rra(addr);
                false
            },
            Code::SLO_U => {
                self.slo(addr);
                false
            },
            Code::SRE_U => {
                self.sre(addr);
                false
            },
            Code::SXA_U => {
                self.sxa(addr);
                false
            },
            Code::SYA_U => {
                self.sya(addr);
                false
            },
            Code::XAS_U => {
                self.xas(addr);
                false
            },
            Code::XAA_U => {
                self.xaa(addr);
                false
            },
            _ => false,
        }
    }

    /// Performs one operation on its resolved operand; answers whether a
    /// branch was taken.
    pub fn execute(&mut self, code: Code, mode: AddressingMode, operand: Option<u16>) -> (taken:
        bool)
        requires
            uses_operand(code, mode) ==> operand is Some,
        ensures
            (final(self)@, taken) == execute_model(old(self)@, code, mode, operand),
            old(self).wf() ==> final(self).wf(),
    {
        match family(code) {
            Family::Transfer => self.execute_transfer(code, mode, operand),
            Family::Arithmetic => self.execute_arithmetic(code, mode, operand),
            Family::Flow => self.execute_flow(code, mode, operand),
            Family::Undocumented => self.execute_undocumented(code, mode, operand),
        }
    }

    /// Executes exactly one instruction; answers whether execution goes on.
    pub fn step(&mut self) -> (go: bool)
        requires
            old(self).wf(),
        ensures
            (final(self)@, go) == step_model(old(self)@),
            final(self).wf(),
    {
        if self.bus.fault.is_some() {
            return false;
        }
        let opcode = self.next();
        let code = lookup(opcode);
        proof {
            lemma_table_supplies_operands(opcode);
        }
        let (addr, bytes_used, crossed_page) = self.get_operand_address(&code.mode);
        self.program_counter = self.program_counter.wrapping_add(bytes_used);

        if matches!(code.code, Code::BRK) {
            self.status.insert(BREAKONE);
            return false;
        }
        let branch_taken = self.execute(code.code, code.mode, addr);
        let cycle_inc = cost(code.code, code.cycles, crossed_page, branch_taken);
        self.charge(cycle_inc);
        self.bus.fault.is_none()
    }
}

/// Decides `family_of`.
pub fn family(code: Code) -> (r: Family)
    ensures
        r == family_of(code),
{
    match code {

        Code::LDA
        | Code::LDX
        | Code::LDY
        | Code::STA
        | Code::STX
        | Code::STY
        | Code::TAX
        | Code::TAY
        | Code::TXA
        | Code::TYA
        | Code::TSX
        | Code::TXS
        | Code::PHA
        | Code::PHP
        | Code::PLA
        | Code::PLP => Family::Transfer,
        Code::ADC
        | Code::SBC
        | Code::INC
        | Code::INX
        | Code::INY
        | Code::DEC
        | Code::DEX
        | Code::DEY
        | Code::AND
        | Code::ORA
        | Code::EOR
        | Code::CMP
        | Code::CPX
        | Code::CPY
        | Code::BIT
        | Code::ASL
        | Code::LSR
        | Code::ROL
        | Code::ROR => Family::Arithmetic,
        Code::JMP
        | Code::JSR
        | Code::RTS
        | Code::RTI
        | Code::BCS
        | Code::BCC
        | Code::BEQ
        | Code::BNE
        | Code::BMI
        | Code::BPL
        | Code::BVS
        | Code::BVC
        | Code::CLC
        | Code::CLD
        | Code::CLI
        | Code::CLV
        | Code::SEC
        | Code::SED
        | Code::SEI
        | Code::NOP
        | Code::BRK => Family::Flow,
        _ => Family::Undocumented,
    }
}

/// Decides `page_insensitive`.
pub fn is_page_insensitive(code: Code) -> (r: bool)
    ensures
        r == page_insensitive(code),
{
    matches!(
        code,
        Code::STA
            | Code::ROR
            | Code::ROL
            | Code::LSR
            | Code::ASL
            | Code::INC
            | Code::DEC
            | Code::DCP_U
            | Code::ISC_U
            | Code::RRA_U
            | Code::RLA_U
            | Code::SLO_U
            | Code::SRE_U
            | Code::SYA_U
            | Code::SXA_U
            | Code::XAS_U
    )
}

/// Whether the operation is a conditional branch.
pub fn is_branch(code: Code) -> (r: bool)
    ensures
        r == branch_test(code) is Some,
{
    matches!(
        code,
        Code::BCC
            | Code::BCS
            | Code::BEQ
            | Code::BMI
            | Code::BNE
            | Code::BPL
            | Code::BVC
            | Code::BVS
    )
}

/// What an instruction costs, in cycles.
pub fn cost(code: Code, base: u8, crossed: bool, taken: bool) -> (r: usize)
    ensures
        r == cycle_cost(code, base, crossed, taken),
        r <= 257,
        branch_test(code) is Some && taken ==> r == base + if crossed { 2int } else { 1int },
{
    let mut cycle_inc: usize = base as usize;
    if is_page_insensitive(code) {
    } else if is_branch(code) {
        if taken && crossed {
            cycle_inc += 2;
        } else if taken {
            cycle_inc += 1;
        }
    } else if crossed {
        cycle_inc += 1;
    }
    cycle_inc
}

/// Zero and Negative tell whether a result is 0 and whether its bit 7 is
/// set, whatever the status was before; no other flag changes.
pub proof fn lemma_zn_tells_zero_and_sign(status: u8, value: u8)
    ensures
        raised(zn(status, value), ZERO) <==> value == 0,
        raised(zn(status, value), NEGATIVE) <==> value & 0x80 != 0,
        forall|mask: u8|
            mask & (ZERO | NEGATIVE) == 0 ==> (#[trigger] raised(zn(status, value), mask)
                <==> raised(status, mask)),
{
    let z = value == 0;
    let n = value >= 0x80;
    let mid = put(status, ZERO, z);
    assert((value & 0x80 != 0) == (value >= 0x80)) by (bit_vector);
    assert(0x80u8 & 0x02u8 == 0) by (bit_vector);
    lemma_put_reads_back(status, ZERO, z);
    lemma_put_keeps_others(mid, NEGATIVE, n, ZERO);
    lemma_put_reads_back(mid, NEGATIVE, n);
    assert forall|mask: u8| mask & (ZERO | NEGATIVE) == 0 implies (#[trigger] raised(
        zn(status, value),
        mask,
    ) <==> raised(status, mask)) by {
        assert(mask & (0x02u8 | 0x80u8) == 0 ==> 0x02u8 & mask == 0 && 0x80u8 & mask == 0)
            by (bit_vector);
        lemma_put_keeps_others(status, ZERO, z, mask);
        lemma_put_keeps_others(mid, NEGATIVE, n, mask);
    }
}

/// Every operation that loads a register leaves Zero set iff the loaded
/// byte is 0 and Negative set iff its bit 7 is set.
pub proof fn lemma_loads_set_zero_and_negative(s: CpuView, value: u8)
    ensures
        with_a(s, value).accumulator == value,
        with_x(s, value).register_x == value,
        with_y(s, value).register_y == value,
        raised(with_a(s, value).status, ZERO) <==> value == 0,
        raised(with_x(s, value).status, ZERO) <==> value == 0,
        raised(with_y(s, value).status, ZERO) <==> value == 0,
        raised(with_a(s, value).status, NEGATIVE) <==> value & 0x80 != 0,
        raised(with_x(s, value).status, NEGATIVE) <==> value & 0x80 != 0,
        raised(with_y(s, value).status, NEGATIVE) <==> value & 0x80 != 0,
{
    lemma_zn_tells_zero_and_sign(s.status, value);
}

/// A comparison sets Carry iff the register is at least the operand, Zero
/// iff they are equal, and Negative from bit 7 of their difference.
pub proof fn lemma_compare_flags(s: CpuView, reg: u8, m: u8)
    ensures
        raised(compare(s, reg, m).status, CARRY) <==> reg >= m,
        raised(compare(s, reg, m).status, ZERO) <==> reg == m,
        raised(compare(s, reg, m).status, NEGATIVE) <==> reg.wrapping_sub(m) & 0x80 != 0,
{
    let d = reg.wrapping_sub(m);
    let p = zn(s.status, d);
    lemma_zn_tells_zero_and_sign(s.status, d);
    assert(0x01u8 & 0x02u8 == 0 && 0x01u8 & 0x80u8 == 0) by (bit_vector);
    lemma_put_reads_back(p, CARRY, reg >= m);
    lemma_put_keeps_others(p, CARRY, reg >= m, ZERO);
    lemma_put_keeps_others(p, CARRY, reg >= m, NEGATIVE);
}

/// Addition sets Carry iff the sum exceeds `0xFF` and Overflow iff the sum
/// left the signed range, and answers the sum's low eight bits.
pub proof fn lemma_addition_flags(s: CpuView, m: u8)
    ensures
        raised(addition(s, m).0.status, CARRY) <==> sum_of(s, m) > 0xFF,
        raised(addition(s, m).0.status, OVERFLOW) <==> overflowed(
            s.accumulator,
            m,
            addition(s, m).1,
        ),
        addition(s, m).1 == sum_of(s, m) % 256,
{
    let carry = sum_of(s, m) > 0xFF;
    let mid = put(s.status, CARRY, carry);
    let over = overflowed(s.accumulator, m, addition(s, m).1);
    assert(0x40u8 & 0x01u8 == 0) by (bit_vector);
    lemma_put_reads_back(s.status, CARRY, carry);
    lemma_put_keeps_others(mid, OVERFLOW, over, CARRY);
    lemma_put_reads_back(mid, OVERFLOW, over);
}

/// A branch that is not taken costs its base cost. A taken branch costs
/// one cycle more if its target lies in the page of the instruction after
/// the branch, and two more if it lies in another page.
pub proof fn lemma_branch_timing(s: CpuView, code: Code, base: u8)
    requires
        branch_test(code) is Some,
    ensures
        ({
            let (s1, operand) = resolve(s, AddressingMode::Relative);
            let next = s.program_counter.wrapping_add(1);
            let target = operand.0.unwrap();
            &&& operand.0 is Some
            &&& operand.2 == !same_page(next, target)
            &&& cycle_cost(code, base, operand.2, false) == base
            &&& same_page(next, target) ==> cycle_cost(code, base, operand.2, true) == base + 1
            &&& !same_page(next, target) ==> cycle_cost(code, base, operand.2, true) == base + 2
        }),
{
    reveal(resolve);
}

} // verus!
