//! The operation table: for each of the 256 operation bytes, what it does,
//! how it finds its operand, how long it is and what it costs at least.

use vstd::prelude::*;
use crate::emulator::addressing_modes::operand_len;
use crate::emulator::addressing_modes::AddressingMode;

verus! {

/// One entry of the table.
#[derive(Clone, Copy, Debug, PartialEq, Eq, Structural)]
pub struct OPCode {
    pub code: Code,
    pub bytes: u16,
    pub cycles: u8,
    pub mode: AddressingMode,
}

/// The operations. Names that end in `_U` are the undocumented ones.
#[derive(Clone, Copy, Debug, PartialEq, Eq, Structural)]
#[allow(non_camel_case_types)]
pub enum Code {
    LDA,
    LDX,
    LDY,
    STA,
    STX,
    STY,
    ADC,
    SBC,
    INC,
    INX,
    INY,
    DEC,
    DEX,
    DEY,
    AND,
    ORA,
    EOR,
    JMP,
    BCC,
    BCS,
    BEQ,
    BMI,
    BNE,
    BPL,
    BVC,
    BVS,
    CMP,
    CPX,
    CPY,
    BIT,
    ASL,
    LSR,
    ROL,
    ROR,
    TAX,
    TAY,
    TXA,
    TYA,
    TSX,
    TXS,
    PHA,
    PHP,
    PLA,
    PLP,
    JSR,
    RTS,
    RTI,
    CLC,
    CLD,
    CLI,
    CLV,
    SEC,
    SED,
    SEI,
    NOP,
    BRK,
    AAC_U,
    AAX_U,
    ARR_U,
    ASR_U,
    ATX_U,
    AXA_U,
    AXS_U,
    DCP_U,
    ISC_U,
    LAR_U,
    LAX_U,
    RLA_U,
    RRA_U,
    SLO_U,
    SRE_U,
    SXA_U,
    SYA_U,
    XAS_U,
    DOP_U,
    KIL_U,
    NOP_U,
    XAA_U,
}

/// The operation behind each operation byte.
pub open spec fn code_of(opcode: u8) -> Code {
    match opcode {
        0xa1 | 0xa5 | 0xa9 | 0xad | 0xb1 | 0xb5 | 0xb9 | 0xbd => Code::LDA,
        0xa2 | 0xa6 | 0xae | 0xb6 | 0xbe => Code::LDX,
        0xa0 | 0xa4 | 0xac | 0xb4 | 0xbc => Code::LDY,
        0x81 | 0x85 | 0x8d | 0x91 | 0x95 | 0x99 | 0x9d => Code::STA,
        0x86 | 0x8e | 0x96 => Code::STX,
        0x84 | 0x8c | 0x94 => Code::STY,
        0x61 | 0x65 | 0x69 | 0x6d | 0x71 | 0x75 | 0x79 | 0x7d => Code::ADC,
        0xe1 | 0xe5 | 0xe9 | 0xeb | 0xed | 0xf1 | 0xf5 | 0xf9 | 0xfd => Code::SBC,
        0xe6 | 0xee | 0xf6 | 0xfe => Code::INC,
        0xe8 => Code::INX,
        0xc8 => Code::INY,
        0xc6 | 0xce | 0xd6 | 0xde => Code::DEC,
        0xca => Code::DEX,
        0x88 => Code::DEY,
        0x21 | 0x25 | 0x29 | 0x2d | 0x31 | 0x35 | 0x39 | 0x3d => Code::AND,
        0x01 | 0x05 | 0x09 | 0x0d | 0x11 | 0x15 | 0x19 | 0x1d => Code::ORA,
        0x41 | 0x45 | 0x49 | 0x4d | 0x51 | 0x55 | 0x59 | 0x5d => Code::EOR,
        0x4c | 0x6c => Code::JMP,
        0x90 => Code::BCC,
        0xb0 => Code::BCS,
        0xf0 => Code::BEQ,
        0x30 => Code::BMI,
        0xd0 => Code::BNE,
        0x10 => Code::BPL,
        0x50 => Code::BVC,
        0x70 => Code::BVS,
        0xc1 | 0xc5 | 0xc9 | 0xcd | 0xd1 | 0xd5 | 0xd9 | 0xdd => Code::CMP,
        0xe0 | 0xe4 | 0xec => Code::CPX,
        0xc0 | 0xc4 | 0xcc => Code::CPY,
        0x24 | 0x2c => Code::BIT,
        0x06 | 0x0a | 0x0e | 0x16 | 0x1e => Code::ASL,
        0x46 | 0x4a | 0x4e | 0x56 | 0x5e => Code::LSR,
        0x26 | 0x2a | 0x2e | 0x36 | 0x3e => Code::ROL,
        0x66 | 0x6a | 0x6e | 0x76 | 0x7e => Code::ROR,
        0xaa => Code::TAX,
        0xa8 => Code::TAY,
        0x8a => Code::TXA,
        0x98 => Code::TYA,
        0xba => Code::TSX,
        0x9a => Code::TXS,
        0x48 => Code::PHA,
        0x08 => Code::PHP,
        0x68 => Code::PLA,
        0x28 => Code::PLP,
        0x20 => Code::JSR,
        0x60 => Code::RTS,
        0x40 => Code::RTI,
        0x18 => Code::CLC,
        0xd8 => Code::CLD,
        0x58 => Code::CLI,
        0xb8 => Code::CLV,
        0x38 => Code::SEC,
        0xf8 => Code::SED,
        0x78 => Code::SEI,
        0xea => Code::NOP,
        0x00 => Code::BRK,
        0x0b | 0x2b => Code::AAC_U,
        0x83 | 0x87 | 0x8f | 0x97 => Code::AAX_U,
        0x6b => Code::ARR_U,
        0x4b => Code::ASR_U,
        0xab => Code::ATX_U,
        0x93 | 0x9f => Code::AXA_U,
        0xcb => Code::AXS_U,
        0xc3 | 0xc7 | 0xcf | 0xd3 | 0xd7 | 0xdb | 0xdf => Code::DCP_U,
        0xe3 | 0xe7 | 0xef | 0xf3 | 0xf7 | 0xfb | 0xff => Code::ISC_U,
        0xbb => Code::LAR_U,
        0xa3 | 0xa7 | 0xaf | 0xb3 | 0xb7 | 0xbf => Code::LAX_U,
        0x23 | 0x27 | 0x2f | 0x33 | 0x37 | 0x3b | 0x3f => Code::RLA_U,
        0x63 | 0x67 | 0x6f | 0x73 | 0x77 | 0x7b | 0x7f => Code::RRA_U,
        0x03 | 0x07 | 0x0f | 0x13 | 0x17 | 0x1b | 0x1f => Code::SLO_U,
        0x43 | 0x47 | 0x4f | 0x53 | 0x57 | 0x5b | 0x5f => Code::SRE_U,
        0x9e => Code::SXA_U,
        0x9c => Code::SYA_U,
        0x9b => Code::XAS_U,
        0x04 | 0x14 | 0x34 | 0x44 | 0x54 | 0x64 | 0x74 | 0x80 | 0x82 | 0x89 | 0xc2
        | 0xd4 | 0xe2 | 0xf4 => Code::DOP_U,
        0x02 | 0x12 | 0x22 | 0x32 | 0x42 | 0x52 | 0x62 | 0x72 | 0x92 | 0xb2 | 0xd2
        | 0xf2 => Code::KIL_U,
        0x0c | 0x1a | 0x1c | 0x3a | 0x3c | 0x5a | 0x5c | 0x7a | 0x7c | 0xda | 0xdc
        | 0xfa | 0xfc => Code::NOP_U,
        0x8b => Code::XAA_U,
    }
}

/// The addressing mode behind each operation byte.
pub open spec fn mode_of(opcode: u8) -> AddressingMode {
    match opcode {
        0x09 | 0x0b | 0x29 | 0x2b | 0x49 | 0x4b | 0x69 | 0x6b | 0x80
        | 0x82 | 0x89 | 0x8b | 0xa0 | 0xa2 | 0xa9 | 0xab | 0xc0
        | 0xc2 | 0xc9 | 0xcb | 0xe0 | 0xe2 | 0xe9 | 0xeb => AddressingMode::Immediate,
        0x04 | 0x05 | 0x06 | 0x07 | 0x24 | 0x25 | 0x26 | 0x27 | 0x44
        | 0x45 | 0x46 | 0x47 | 0x64 | 0x65 | 0x66 | 0x67 | 0x84 | 0x85
        | 0x86 | 0x87 | 0xa4 | 0xa5 | 0xa6 | 0xa7 | 0xc4 | 0xc5 | 0xc6
        | 0xc7 | 0xe4 | 0xe5 | 0xe6 | 0xe7 => AddressingMode::ZeroPage,
        0x14 | 0x15 | 0x16 | 0x17 | 0x34 | 0x35 | 0x36 | 0x37 | 0x54
        | 0x55 | 0x56 | 0x57 | 0x74 | 0x75 | 0x76 | 0x77 | 0x94
        | 0x95 | 0xb4 | 0xb5 | 0xd4 | 0xd5 | 0xd6 | 0xd7 | 0xf4
        | 0xf5 | 0xf6 | 0xf7 => AddressingMode::ZeroPage_X,
        0x96 | 0x97 | 0xb6 | 0xb7 => AddressingMode::ZeroPage_Y,
        0x0c | 0x0d | 0x0e | 0x0f | 0x2c | 0x2d | 0x2e | 0x2f | 0x4d
        | 0x4e | 0x4f | 0x6d | 0x6e | 0x6f | 0x8c | 0x8d | 0x8e | 0x8f
        | 0xac | 0xad | 0xae | 0xaf | 0xcc | 0xcd | 0xce | 0xcf | 0xec
        | 0xed | 0xee | 0xef => AddressingMode::Absolute,
        0x1c | 0x1d | 0x1e | 0x1f | 0x3c | 0x3d | 0x3e | 0x3f | 0x5c
        | 0x5d | 0x5e | 0x5f | 0x7c | 0x7d | 0x7e | 0x7f | 0x9c
        | 0x9d | 0xbc | 0xbd | 0xdc | 0xdd | 0xde | 0xdf | 0xfc
        | 0xfd | 0xfe | 0xff => AddressingMode::Absolute_X,
        0x19 | 0x1b | 0x39 | 0x3b | 0x59 | 0x5b | 0x79 | 0x7b | 0x99
        | 0x9b | 0x9e | 0x9f | 0xb9 | 0xbb | 0xbe | 0xbf | 0xd9
        | 0xdb | 0xf9 | 0xfb => AddressingMode::Absolute_Y,
        0x01 | 0x03 | 0x21 | 0x23 | 0x41 | 0x43 | 0x61 | 0x63 | 0x81
        | 0x83 | 0xa1 | 0xa3 | 0xc1 | 0xc3 | 0xe1 | 0xe3 => AddressingMode::Indirect_X,
        0x11 | 0x13 | 0x31 | 0x33 | 0x51 | 0x53 | 0x71 | 0x73 | 0x91
        | 0x93 | 0xb1 | 0xb3 | 0xd1 | 0xd3 | 0xf1 | 0xf3 => AddressingMode::Indirect_Y,
        0x10 | 0x30 | 0x50 | 0x70 | 0x90 | 0xb0 | 0xd0 | 0xf0 => AddressingMode::Relative,
        0x0a | 0x2a | 0x4a | 0x6a => AddressingMode::Accumulator,
        0x00 | 0x02 | 0x08 | 0x12 | 0x18 | 0x1a | 0x22 | 0x28 | 0x32
        | 0x38 | 0x3a | 0x40 | 0x42 | 0x48 | 0x52 | 0x58 | 0x5a | 0x60
        | 0x62 | 0x68 | 0x72 | 0x78 | 0x7a | 0x88 | 0x8a | 0x92 | 0x98
        | 0x9a | 0xa8 | 0xaa | 0xb2 | 0xb8 | 0xba | 0xc8 | 0xca | 0xd2
        | 0xd8 | 0xda | 0xe8 | 0xea | 0xf2 | 0xf8 | 0xfa => AddressingMode::Implied,
        0x6c => AddressingMode::JumpIndirect,
        0x20 | 0x4c => AddressingMode::Jump,
    }
}

/// The base cycle cost behind each operation byte.
pub open spec fn cycles_of(opcode: u8) -> u8 {
    match opcode {
        0x02 | 0x12 | 0x22 | 0x32 | 0x42 | 0x52 | 0x62 | 0x72 | 0x92 | 0xb2 | 0xd2 | 0xf2 => 0,
        0x09 | 0x0a | 0x0b | 0x10 | 0x18 | 0x1a | 0x29 | 0x2a | 0x2b | 0x30 | 0x38 | 0x3a
        | 0x49 | 0x4a | 0x4b | 0x50 | 0x58 | 0x5a | 0x69 | 0x6a | 0x6b | 0x70 | 0x78 | 0x7a
        | 0x80 | 0x82 | 0x88 | 0x89 | 0x8a | 0x8b | 0x90 | 0x98 | 0x9a | 0xa0 | 0xa2 | 0xa8
        | 0xa9 | 0xaa | 0xab | 0xb0 | 0xb8 | 0xba | 0xc0 | 0xc2 | 0xc8 | 0xc9 | 0xca | 0xcb
        | 0xd0 | 0xd8 | 0xda | 0xe0 | 0xe2 | 0xe8 | 0xe9 | 0xea | 0xeb | 0xf0 | 0xf8 | 0xfa => 2,
        0x04 | 0x05 | 0x08 | 0x24 | 0x25 | 0x44 | 0x45 | 0x48 | 0x4c | 0x64 | 0x65 | 0x84
        | 0x85 | 0x86 | 0x87 | 0xa4 | 0xa5 | 0xa6 | 0xa7 | 0xc4 | 0xc5 | 0xe4 | 0xe5 => 3,
        0x0c | 0x0d | 0x14 | 0x15 | 0x19 | 0x1c | 0x1d | 0x28 | 0x2c | 0x2d | 0x34 | 0x35
        | 0x39 | 0x3c | 0x3d | 0x4d | 0x54 | 0x55 | 0x59 | 0x5c | 0x5d | 0x68 | 0x6d | 0x74
        | 0x75 | 0x79 | 0x7c | 0x7d | 0x8c | 0x8d | 0x8e | 0x8f | 0x94 | 0x95 | 0x96 | 0x97
        | 0xac | 0xad | 0xae | 0xaf | 0xb4 | 0xb5 | 0xb6 | 0xb7 | 0xb9 | 0xbb | 0xbc | 0xbd
        | 0xbe | 0xbf | 0xcc | 0xcd | 0xd4 | 0xd5 | 0xd9 | 0xdc | 0xdd | 0xec | 0xed | 0xf4
        | 0xf5 | 0xf9 | 0xfc | 0xfd => 4,
        0x06 | 0x07 | 0x11 | 0x26 | 0x27 | 0x31 | 0x46 | 0x47 | 0x51 | 0x66 | 0x67 | 0x6c
        | 0x71 | 0x99 | 0x9b | 0x9c | 0x9d | 0x9e | 0x9f | 0xb1 | 0xb3 | 0xc6 | 0xc7 | 0xd1
        | 0xe6 | 0xe7 | 0xf1 => 5,
        0x01 | 0x0e | 0x0f | 0x16 | 0x17 | 0x20 | 0x21 | 0x2e | 0x2f | 0x36 | 0x37 | 0x40
        | 0x41 | 0x4e | 0x4f | 0x56 | 0x57 | 0x60 | 0x61 | 0x6e | 0x6f | 0x76 | 0x77 | 0x81
        | 0x83 | 0x91 | 0x93 | 0xa1 | 0xa3 | 0xc1 | 0xce | 0xcf | 0xd6 | 0xd7 | 0xe1 | 0xee
        | 0xef | 0xf6 | 0xf7 => 6,
        0x00 | 0x1b | 0x1e | 0x1f | 0x3b | 0x3e | 0x3f | 0x5b | 0x5e | 0x5f | 0x7b | 0x7e
        | 0x7f | 0xdb | 0xde | 0xdf | 0xfb | 0xfe | 0xff => 7,
        0x03 | 0x13 | 0x23 | 0x33 | 0x43 | 0x53 | 0x63 | 0x73 | 0xc3 | 0xd3 | 0xe3 | 0xf3 => 8,
    }
}

/// The table entry of an operation byte. An instruction is one byte longer
/// than the operand that its addressing mode takes.
pub open spec fn opcode_entry(opcode: u8) -> OPCode {
    OPCode {
        code: code_of(opcode),
        bytes: (1 + operand_len(mode_of(opcode))) as u16,
        cycles: cycles_of(opcode),
        mode: mode_of(opcode),
    }
}

/// Looks an operation byte up. The table is total.
pub fn lookup(opcode: u8) -> (r: OPCode)
    ensures
        r == opcode_entry(opcode),
{
    match opcode {
        0x00 => OPCode { code: Code::BRK, bytes: 1, cycles: 7, mode: AddressingMode::Implied },
        0x01 => OPCode { code: Code::ORA, bytes: 2, cycles: 6, mode: AddressingMode::Indirect_X },
        0x02 => OPCode { code: Code::KIL_U, bytes: 1, cycles: 0, mode: AddressingMode::Implied },
        0x03 => OPCode { code: Code::SLO_U, bytes: 2, cycles: 8, mode: AddressingMode::Indirect_X },
        0x04 => OPCode { code: Code::DOP_U, bytes: 2, cycles: 3, mode: AddressingMode::ZeroPage },
        0x05 => OPCode { code: Code::ORA, bytes: 2, cycles: 3, mode: AddressingMode::ZeroPage },
        0x06 => OPCode { code: Code::ASL, bytes: 2, cycles: 5, mode: AddressingMode::ZeroPage },
        0x07 => OPCode { code: Code::SLO_U, bytes: 2, cycles: 5, mode: AddressingMode::ZeroPage },
        0x08 => OPCode { code: Code::PHP, bytes: 1, cycles: 3, mode: AddressingMode::Implied },
        0x09 => OPCode { code: Code::ORA, bytes: 2, cycles: 2, mode: AddressingMode::Immediate },
        0x0a => OPCode { code: Code::ASL, bytes: 1, cycles: 2, mode: AddressingMode::Accumulator },
        0x0b => OPCode { code: Code::AAC_U, bytes: 2, cycles: 2, mode: AddressingMode::Immediate },
        0x0c => OPCode { code: Code::NOP_U, bytes: 3, cycles: 4, mode: AddressingMode::Absolute },
        0x0d => OPCode { code: Code::ORA, bytes: 3, cycles: 4, mode: AddressingMode::Absolute },
        0x0e => OPCode { code: Code::ASL, bytes: 3, cycles: 6, mode: AddressingMode::Absolute },
        0x0f => OPCode { code: Code::SLO_U, bytes: 3, cycles: 6, mode: AddressingMode::Absolute },
        0x10 => OPCode { code: Code::BPL, bytes: 2, cycles: 2, mode: AddressingMode::Relative },
        0x11 => OPCode { code: Code::ORA, bytes: 2, cycles: 5, mode: AddressingMode::Indirect_Y },
        0x12 => OPCode { code: Code::KIL_U, bytes: 1, cycles: 0, mode: AddressingMode::Implied },
        0x13 => OPCode { code: Code::SLO_U, bytes: 2, cycles: 8, mode: AddressingMode::Indirect_Y },
        0x14 => OPCode { code: Code::DOP_U, bytes: 2, cycles: 4, mode: AddressingMode::ZeroPage_X },
        0x15 => OPCode { code: Code::ORA, bytes: 2, cycles: 4, mode: AddressingMode::ZeroPage_X },
        0x16 => OPCode { code: Code::ASL, bytes: 2, cycles: 6, mode: AddressingMode::ZeroPage_X },
        0x17 => OPCode { code: Code::SLO_U, bytes: 2, cycles: 6, mode: AddressingMode::ZeroPage_X },
        0x18 => OPCode { code: Code::CLC, bytes: 1, cycles: 2, mode: AddressingMode::Implied },
        0x19 => OPCode { code: Code::ORA, bytes: 3, cycles: 4, mode: AddressingMode::Absolute_Y },
        0x1a => OPCode { code: Code::NOP_U, bytes: 1, cycles: 2, mode: AddressingMode::Implied },
        0x1b => OPCode { code: Code::SLO_U, bytes: 3, cycles: 7, mode: AddressingMode::Absolute_Y },
        0x1c => OPCode { code: Code::NOP_U, bytes: 3, cycles: 4, mode: AddressingMode::Absolute_X },
        0x1d => OPCode { code: Code::ORA, bytes: 3, cycles: 4, mode: AddressingMode::Absolute_X },
        0x1e => OPCode { code: Code::ASL, bytes: 3, cycles: 7, mode: AddressingMode::Absolute_X },
        0x1f => OPCode { code: Code::SLO_U, bytes: 3, cycles: 7, mode: AddressingMode::Absolute_X },
        0x20 => OPCode { code: Code::JSR, bytes: 3, cycles: 6, mode: AddressingMode::Jump },
        0x21 => OPCode { code: Code::AND, bytes: 2, cycles: 6, mode: AddressingMode::Indirect_X },
        0x22 => OPCode { code: Code::KIL_U, bytes: 1, cycles: 0, mode: AddressingMode::Implied },
        0x23 => OPCode { code: Code::RLA_U, bytes: 2, cycles: 8, mode: AddressingMode::Indirect_X },
        0x24 => OPCode { code: Code::BIT, bytes: 2, cycles: 3, mode: AddressingMode::ZeroPage },
        0x25 => OPCode { code: Code::AND, bytes: 2, cycles: 3, mode: AddressingMode::ZeroPage },
        0x26 => OPCode { code: Code::ROL, bytes: 2, cycles: 5, mode: AddressingMode::ZeroPage },
        0x27 => OPCode { code: Code::RLA_U, bytes: 2, cycles: 5, mode: AddressingMode::ZeroPage },
        0x28 => OPCode { code: Code::PLP, bytes: 1, cycles: 4, mode: AddressingMode::Implied },
        0x29 => OPCode { code: Code::AND, bytes: 2, cycles: 2, mode: AddressingMode::Immediate },
        0x2a => OPCode { code: Code::ROL, bytes: 1, cycles: 2, mode: AddressingMode::Accumulator },
        0x2b => OPCode { code: Code::AAC_U, bytes: 2, cycles: 2, mode: AddressingMode::Immediate },
        0x2c => OPCode { code: Code::BIT, bytes: 3, cycles: 4, mode: AddressingMode::Absolute },
        0x2d => OPCode { code: Code::AND, bytes: 3, cycles: 4, mode: AddressingMode::Absolute },
        0x2e => OPCode { code: Code::ROL, bytes: 3, cycles: 6, mode: AddressingMode::Absolute },
        0x2f => OPCode { code: Code::RLA_U, bytes: 3, cycles: 6, mode: AddressingMode::Absolute },
        0x30 => OPCode { code: Code::BMI, bytes: 2, cycles: 2, mode: AddressingMode::Relative },
        0x31 => OPCode { code: Code::AND, bytes: 2, cycles: 5, mode: AddressingMode::Indirect_Y },
        0x32 => OPCode { code: Code::KIL_U, bytes: 1, cycles: 0, mode: AddressingMode::Implied },
        0x33 => OPCode { code: Code::RLA_U, bytes: 2, cycles: 8, mode: AddressingMode::Indirect_Y },
        0x34 => OPCode { code: Code::DOP_U, bytes: 2, cycles: 4, mode: AddressingMode::ZeroPage_X },
        0x35 => OPCode { code: Code::AND, bytes: 2, cycles: 4, mode: AddressingMode::ZeroPage_X },
        0x36 => OPCode { code: Code::ROL, bytes: 2, cycles: 6, mode: AddressingMode::ZeroPage_X },
        0x37 => OPCode { code: Code::RLA_U, bytes: 2, cycles: 6, mode: AddressingMode::ZeroPage_X },
        0x38 => OPCode { code: Code::SEC, bytes: 1, cycles: 2, mode: AddressingMode::Implied },
        0x39 => OPCode { code: Code::AND, bytes: 3, cycles: 4, mode: AddressingMode::Absolute_Y },
        0x3a => OPCode { code: Code::NOP_U, bytes: 1, cycles: 2, mode: AddressingMode::Implied },
        0x3b => OPCode { code: Code::RLA_U, bytes: 3, cycles: 7, mode: AddressingMode::Absolute_Y },
        0x3c => OPCode { code: Code::NOP_U, bytes: 3, cycles: 4, mode: AddressingMode::Absolute_X },
        0x3d => OPCode { code: Code::AND, bytes: 3, cycles: 4, mode: AddressingMode::Absolute_X },
        0x3e => OPCode { code: Code::ROL, bytes: 3, cycles: 7, mode: AddressingMode::Absolute_X },
        0x3f => OPCode { code: Code::RLA_U, bytes: 3, cycles: 7, mode: AddressingMode::Absolute_X },
        0x40 => OPCode { code: Code::RTI, bytes: 1, cycles: 6, mode: AddressingMode::Implied },
        0x41 => OPCode { code: Code::EOR, bytes: 2, cycles: 6, mode: AddressingMode::Indirect_X },
        0x42 => OPCode { code: Code::KIL_U, bytes: 1, cycles: 0, mode: AddressingMode::Implied },
        0x43 => OPCode { code: Code::SRE_U, bytes: 2, cycles: 8, mode: AddressingMode::Indirect_X },
        0x44 => OPCode { code: Code::DOP_U, bytes: 2, cycles: 3, mode: AddressingMode::ZeroPage },
        0x45 => OPCode { code: Code::EOR, bytes: 2, cycles: 3, mode: AddressingMode::ZeroPage },
        0x46 => OPCode { code: Code::LSR, bytes: 2, cycles: 5, mode: AddressingMode::ZeroPage },
        0x47 => OPCode { code: Code::SRE_U, bytes: 2, cycles: 5, mode: AddressingMode::ZeroPage },
        0x48 => OPCode { code: Code::PHA, bytes: 1, cycles: 3, mode: AddressingMode::Implied },
        0x49 => OPCode { code: Code::EOR, bytes: 2, cycles: 2, mode: AddressingMode::Immediate },
        0x4a => OPCode { code: Code::LSR, bytes: 1, cycles: 2, mode: AddressingMode::Accumulator },
        0x4b => OPCode { code: Code::ASR_U, bytes: 2, cycles: 2, mode: AddressingMode::Immediate },
        0x4c => OPCode { code: Code::JMP, bytes: 3, cycles: 3, mode: AddressingMode::Jump },
        0x4d => OPCode { code: Code::EOR, bytes: 3, cycles: 4, mode: AddressingMode::Absolute },
        0x4e => OPCode { code: Code::LSR, bytes: 3, cycles: 6, mode: AddressingMode::Absolute },
        0x4f => OPCode { code: Code::SRE_U, bytes: 3, cycles: 6, mode: AddressingMode::Absolute },
        0x50 => OPCode { code: Code::BVC, bytes: 2, cycles: 2, mode: AddressingMode::Relative },
        0x51 => OPCode { code: Code::EOR, bytes: 2, cycles: 5, mode: AddressingMode::Indirect_Y },
        0x52 => OPCode { code: Code::KIL_U, bytes: 1, cycles: 0, mode: AddressingMode::Implied },
        0x53 => OPCode { code: Code::SRE_U, bytes: 2, cycles: 8, mode: AddressingMode::Indirect_Y },
        0x54 => OPCode { code: Code::DOP_U, bytes: 2, cycles: 4, mode: AddressingMode::ZeroPage_X },
        0x55 => OPCode { code: Code::EOR, bytes: 2, cycles: 4, mode: AddressingMode::ZeroPage_X },
        0x56 => OPCode { code: Code::LSR, bytes: 2, cycles: 6, mode: AddressingMode::ZeroPage_X },
        0x57 => OPCode { code: Code::SRE_U, bytes: 2, cycles: 6, mode: AddressingMode::ZeroPage_X },
        0x58 => OPCode { code: Code::CLI, bytes: 1, cycles: 2, mode: AddressingMode::Implied },
        0x59 => OPCode { code: Code::EOR, bytes: 3, cycles: 4, mode: AddressingMode::Absolute_Y },
        0x5a => OPCode { code: Code::NOP_U, bytes: 1, cycles: 2, mode: AddressingMode::Implied },
        0x5b => OPCode { code: Code::SRE_U, bytes: 3, cycles: 7, mode: AddressingMode::Absolute_Y },
        0x5c => OPCode { code: Code::NOP_U, bytes: 3, cycles: 4, mode: AddressingMode::Absolute_X },
        0x5d => OPCode { code: Code::EOR, bytes: 3, cycles: 4, mode: AddressingMode::Absolute_X },
        0x5e => OPCode { code: Code::LSR, bytes: 3, cycles: 7, mode: AddressingMode::Absolute_X },
        0x5f => OPCode { code: Code::SRE_U, bytes: 3, cycles: 7, mode: AddressingMode::Absolute_X },
        0x60 => OPCode { code: Code::RTS, bytes: 1, cycles: 6, mode: AddressingMode::Implied },
        0x61 => OPCode { code: Code::ADC, bytes: 2, cycles: 6, mode: AddressingMode::Indirect_X },
        0x62 => OPCode { code: Code::KIL_U, bytes: 1, cycles: 0, mode: AddressingMode::Implied },
        0x63 => OPCode { code: Code::RRA_U, bytes: 2, cycles: 8, mode: AddressingMode::Indirect_X },
        0x64 => OPCode { code: Code::DOP_U, bytes: 2, cycles: 3, mode: AddressingMode::ZeroPage },
        0x65 => OPCode { code: Code::ADC, bytes: 2, cycles: 3, mode: AddressingMode::ZeroPage },
        0x66 => OPCode { code: Code::ROR, bytes: 2, cycles: 5, mode: AddressingMode::ZeroPage },
        0x67 => OPCode { code: Code::RRA_U, bytes: 2, cycles: 5, mode: AddressingMode::ZeroPage },
        0x68 => OPCode { code: Code::PLA, bytes: 1, cycles: 4, mode: AddressingMode::Implied },
        0x69 => OPCode { code: Code::ADC, bytes: 2, cycles: 2, mode: AddressingMode::Immediate },
        0x6a => OPCode { code: Code::ROR, bytes: 1, cycles: 2, mode: AddressingMode::Accumulator },
        0x6b => OPCode { code: Code::ARR_U, bytes: 2, cycles: 2, mode: AddressingMode::Immediate },
        0x6c => OPCode { code: Code::JMP, bytes: 3, cycles: 5, mode: AddressingMode::JumpIndirect },
        0x6d => OPCode { code: Code::ADC, bytes: 3, cycles: 4, mode: AddressingMode::Absolute },
        0x6e => OPCode { code: Code::ROR, bytes: 3, cycles: 6, mode: AddressingMode::Absolute },
        0x6f => OPCode { code: Code::RRA_U, bytes: 3, cycles: 6, mode: AddressingMode::Absolute },
        0x70 => OPCode { code: Code::BVS, bytes: 2, cycles: 2, mode: AddressingMode::Relative },
        0x71 => OPCode { code: Code::ADC, bytes: 2, cycles: 5, mode: AddressingMode::Indirect_Y },
        0x72 => OPCode { code: Code::KIL_U, bytes: 1, cycles: 0, mode: AddressingMode::Implied },
        0x73 => OPCode { code: Code::RRA_U, bytes: 2, cycles: 8, mode: AddressingMode::Indirect_Y },
        0x74 => OPCode { code: Code::DOP_U, bytes: 2, cycles: 4, mode: AddressingMode::ZeroPage_X },
        0x75 => OPCode { code: Code::ADC, bytes: 2, cycles: 4, mode: AddressingMode::ZeroPage_X },
        0x76 => OPCode { code: Code::ROR, bytes: 2, cycles: 6, mode: AddressingMode::ZeroPage_X },
        0x77 => OPCode { code: Code::RRA_U, bytes: 2, cycles: 6, mode: AddressingMode::ZeroPage_X },
        0x78 => OPCode { code: Code::SEI, bytes: 1, cycles: 2, mode: AddressingMode::Implied },
        0x79 => OPCode { code: Code::ADC, bytes: 3, cycles: 4, mode: AddressingMode::Absolute_Y },
        0x7a => OPCode { code: Code::NOP_U, bytes: 1, cycles: 2, mode: AddressingMode::Implied },
        0x7b => OPCode { code: Code::RRA_U, bytes: 3, cycles: 7, mode: AddressingMode::Absolute_Y },
        0x7c => OPCode { code: Code::NOP_U, bytes: 3, cycles: 4, mode: AddressingMode::Absolute_X },
        0x7d => OPCode { code: Code::ADC, bytes: 3, cycles: 4, mode: AddressingMode::Absolute_X },
        0x7e => OPCode { code: Code::ROR, bytes: 3, cycles: 7, mode: AddressingMode::Absolute_X },
        0x7f => OPCode { code: Code::RRA_U, bytes: 3, cycles: 7, mode: AddressingMode::Absolute_X },
        0x80 => OPCode { code: Code::DOP_U, bytes: 2, cycles: 2, mode: AddressingMode::Immediate },
        0x81 => OPCode { code: Code::STA, bytes: 2, cycles: 6, mode: AddressingMode::Indirect_X },
        0x82 => OPCode { code: Code::DOP_U, bytes: 2, cycles: 2, mode: AddressingMode::Immediate },
        0x83 => OPCode { code: Code::AAX_U, bytes: 2, cycles: 6, mode: AddressingMode::Indirect_X },
        0x84 => OPCode { code: Code::STY, bytes: 2, cycles: 3, mode: AddressingMode::ZeroPage },
        0x85 => OPCode { code: Code::STA, bytes: 2, cycles: 3, mode: AddressingMode::ZeroPage },
        0x86 => OPCode { code: Code::STX, bytes: 2, cycles: 3, mode: AddressingMode::ZeroPage },
        0x87 => OPCode { code: Code::AAX_U, bytes: 2, cycles: 3, mode: AddressingMode::ZeroPage },
        0x88 => OPCode { code: Code::DEY, bytes: 1, cycles: 2, mode: AddressingMode::Implied },
        0x89 => OPCode { code: Code::DOP_U, bytes: 2, cycles: 2, mode: AddressingMode::Immediate },
        0x8a => OPCode { code: Code::TXA, bytes: 1, cycles: 2, mode: AddressingMode::Implied },
        0x8b => OPCode { code: Code::XAA_U, bytes: 2, cycles: 2, mode: AddressingMode::Immediate },
        0x8c => OPCode { code: Code::STY, bytes: 3, cycles: 4, mode: AddressingMode::Absolute },
        0x8d => OPCode { code: Code::STA, bytes: 3, cycles: 4, mode: AddressingMode::Absolute },
        0x8e => OPCode { code: Code::STX, bytes: 3, cycles: 4, mode: AddressingMode::Absolute },
        0x8f => OPCode { code: Code::AAX_U, bytes: 3, cycles: 4, mode: AddressingMode::Absolute },
        0x90 => OPCode { code: Code::BCC, bytes: 2, cycles: 2, mode: AddressingMode::Relative },
        0x91 => OPCode { code: Code::STA, bytes: 2, cycles: 6, mode: AddressingMode::Indirect_Y },
        0x92 => OPCode { code: Code::KIL_U, bytes: 1, cycles: 0, mode: AddressingMode::Implied },
        0x93 => OPCode { code: Code::AXA_U, bytes: 2, cycles: 6, mode: AddressingMode::Indirect_Y },
        0x94 => OPCode { code: Code::STY, bytes: 2, cycles: 4, mode: AddressingMode::ZeroPage_X },
        0x95 => OPCode { code: Code::STA, bytes: 2, cycles: 4, mode: AddressingMode::ZeroPage_X },
        0x96 => OPCode { code: Code::STX, bytes: 2, cycles: 4, mode: AddressingMode::ZeroPage_Y },
        0x97 => OPCode { code: Code::AAX_U, bytes: 2, cycles: 4, mode: AddressingMode::ZeroPage_Y },
        0x98 => OPCode { code: Code::TYA, bytes: 1, cycles: 2, mode: AddressingMode::Implied },
        0x99 => OPCode { code: Code::STA, bytes: 3, cycles: 5, mode: AddressingMode::Absolute_Y },
        0x9a => OPCode { code: Code::TXS, bytes: 1, cycles: 2, mode: AddressingMode::Implied },
        0x9b => OPCode { code: Code::XAS_U, bytes: 3, cycles: 5, mode: AddressingMode::Absolute_Y },
        0x9c => OPCode { code: Code::SYA_U, bytes: 3, cycles: 5, mode: AddressingMode::Absolute_X },
        0x9d => OPCode { code: Code::STA, bytes: 3, cycles: 5, mode: AddressingMode::Absolute_X },
        0x9e => OPCode { code: Code::SXA_U, bytes: 3, cycles: 5, mode: AddressingMode::Absolute_Y },
        0x9f => OPCode { code: Code::AXA_U, bytes: 3, cycles: 5, mode: AddressingMode::Absolute_Y },
        0xa0 => OPCode { code: Code::LDY, bytes: 2, cycles: 2, mode: AddressingMode::Immediate },
        0xa1 => OPCode { code: Code::LDA, bytes: 2, cycles: 6, mode: AddressingMode::Indirect_X },
        0xa2 => OPCode { code: Code::LDX, bytes: 2, cycles: 2, mode: AddressingMode::Immediate },
        0xa3 => OPCode { code: Code::LAX_U, bytes: 2, cycles: 6, mode: AddressingMode::Indirect_X },
        0xa4 => OPCode { code: Code::LDY, bytes: 2, cycles: 3, mode: AddressingMode::ZeroPage },
        0xa5 => OPCode { code: Code::LDA, bytes: 2, cycles: 3, mode: AddressingMode::ZeroPage },
        0xa6 => OPCode { code: Code::LDX, bytes: 2, cycles: 3, mode: AddressingMode::ZeroPage },
        0xa7 => OPCode { code: Code::LAX_U, bytes: 2, cycles: 3, mode: AddressingMode::ZeroPage },
        0xa8 => OPCode { code: Code::TAY, bytes: 1, cycles: 2, mode: AddressingMode::Implied },
        0xa9 => OPCode { code: Code::LDA, bytes: 2, cycles: 2, mode: AddressingMode::Immediate },
        0xaa => OPCode { code: Code::TAX, bytes: 1, cycles: 2, mode: AddressingMode::Implied },
        0xab => OPCode { code: Code::ATX_U, bytes: 2, cycles: 2, mode: AddressingMode::Immediate },
        0xac => OPCode { code: Code::LDY, bytes: 3, cycles: 4, mode: AddressingMode::Absolute },
        0xad => OPCode { code: Code::LDA, bytes: 3, cycles: 4, mode: AddressingMode::Absolute },
        0xae => OPCode { code: Code::LDX, bytes: 3, cycles: 4, mode: AddressingMode::Absolute },
        0xaf => OPCode { code: Code::LAX_U, bytes: 3, cycles: 4, mode: AddressingMode::Absolute },
        0xb0 => OPCode { code: Code::BCS, bytes: 2, cycles: 2, mode: AddressingMode::Relative },
        0xb1 => OPCode { code: Code::LDA, bytes: 2, cycles: 5, mode: AddressingMode::Indirect_Y },
        0xb2 => OPCode { code: Code::KIL_U, bytes: 1, cycles: 0, mode: AddressingMode::Implied },
        0xb3 => OPCode { code: Code::LAX_U, bytes: 2, cycles: 5, mode: AddressingMode::Indirect_Y },
        0xb4 => OPCode { code: Code::LDY, bytes: 2, cycles: 4, mode: AddressingMode::ZeroPage_X },
        0xb5 => OPCode { code: Code::LDA, bytes: 2, cycles: 4, mode: AddressingMode::ZeroPage_X },
        0xb6 => OPCode { code: Code::LDX, bytes: 2, cycles: 4, mode: AddressingMode::ZeroPage_Y },
        0xb7 => OPCode { code: Code::LAX_U, bytes: 2, cycles: 4, mode: AddressingMode::ZeroPage_Y },
        0xb8 => OPCode { code: Code::CLV, bytes: 1, cycles: 2, mode: AddressingMode::Implied },
        0xb9 => OPCode { code: Code::LDA, bytes: 3, cycles: 4, mode: AddressingMode::Absolute_Y },
        0xba => OPCode { code: Code::TSX, bytes: 1, cycles: 2, mode: AddressingMode::Implied },
        0xbb => OPCode { code: Code::LAR_U, bytes: 3, cycles: 4, mode: AddressingMode::Absolute_Y },
        0xbc => OPCode { code: Code::LDY, bytes: 3, cycles: 4, mode: AddressingMode::Absolute_X },
        0xbd => OPCode { code: Code::LDA, bytes: 3, cycles: 4, mode: AddressingMode::Absolute_X },
        0xbe => OPCode { code: Code::LDX, bytes: 3, cycles: 4, mode: AddressingMode::Absolute_Y },
        0xbf => OPCode { code: Code::LAX_U, bytes: 3, cycles: 4, mode: AddressingMode::Absolute_Y },
        0xc0 => OPCode { code: Code::CPY, bytes: 2, cycles: 2, mode: AddressingMode::Immediate },
        0xc1 => OPCode { code: Code::CMP, bytes: 2, cycles: 6, mode: AddressingMode::Indirect_X },
        0xc2 => OPCode { code: Code::DOP_U, bytes: 2, cycles: 2, mode: AddressingMode::Immediate },
        0xc3 => OPCode { code: Code::DCP_U, bytes: 2, cycles: 8, mode: AddressingMode::Indirect_X },
        0xc4 => OPCode { code: Code::CPY, bytes: 2, cycles: 3, mode: AddressingMode::ZeroPage },
        0xc5 => OPCode { code: Code::CMP, bytes: 2, cycles: 3, mode: AddressingMode::ZeroPage },
        0xc6 => OPCode { code: Code::DEC, bytes: 2, cycles: 5, mode: AddressingMode::ZeroPage },
        0xc7 => OPCode { code: Code::DCP_U, bytes: 2, cycles: 5, mode: AddressingMode::ZeroPage },
        0xc8 => OPCode { code: Code::INY, bytes: 1, cycles: 2, mode: AddressingMode::Implied },
        0xc9 => OPCode { code: Code::CMP, bytes: 2, cycles: 2, mode: AddressingMode::Immediate },
        0xca => OPCode { code: Code::DEX, bytes: 1, cycles: 2, mode: AddressingMode::Implied },
        0xcb => OPCode { code: Code::AXS_U, bytes: 2, cycles: 2, mode: AddressingMode::Immediate },
        0xcc => OPCode { code: Code::CPY, bytes: 3, cycles: 4, mode: AddressingMode::Absolute },
        0xcd => OPCode { code: Code::CMP, bytes: 3, cycles: 4, mode: AddressingMode::Absolute },
        0xce => OPCode { code: Code::DEC, bytes: 3, cycles: 6, mode: AddressingMode::Absolute },
        0xcf => OPCode { code: Code::DCP_U, bytes: 3, cycles: 6, mode: AddressingMode::Absolute },
        0xd0 => OPCode { code: Code::BNE, bytes: 2, cycles: 2, mode: AddressingMode::Relative },
        0xd1 => OPCode { code: Code::CMP, bytes: 2, cycles: 5, mode: AddressingMode::Indirect_Y },
        0xd2 => OPCode { code: Code::KIL_U, bytes: 1, cycles: 0, mode: AddressingMode::Implied },
        0xd3 => OPCode { code: Code::DCP_U, bytes: 2, cycles: 8, mode: AddressingMode::Indirect_Y },
        0xd4 => OPCode { code: Code::DOP_U, bytes: 2, cycles: 4, mode: AddressingMode::ZeroPage_X },
        0xd5 => OPCode { code: Code::CMP, bytes: 2, cycles: 4, mode: AddressingMode::ZeroPage_X },
        0xd6 => OPCode { code: Code::DEC, bytes: 2, cycles: 6, mode: AddressingMode::ZeroPage_X },
        0xd7 => OPCode { code: Code::DCP_U, bytes: 2, cycles: 6, mode: AddressingMode::ZeroPage_X },
        0xd8 => OPCode { code: Code::CLD, bytes: 1, cycles: 2, mode: AddressingMode::Implied },
        0xd9 => OPCode { code: Code::CMP, bytes: 3, cycles: 4, mode: AddressingMode::Absolute_Y },
        0xda => OPCode { code: Code::NOP_U, bytes: 1, cycles: 2, mode: AddressingMode::Implied },
        0xdb => OPCode { code: Code::DCP_U, bytes: 3, cycles: 7, mode: AddressingMode::Absolute_Y },
        0xdc => OPCode { code: Code::NOP_U, bytes: 3, cycles: 4, mode: AddressingMode::Absolute_X },
        0xdd => OPCode { code: Code::CMP, bytes: 3, cycles: 4, mode: AddressingMode::Absolute_X },
        0xde => OPCode { code: Code::DEC, bytes: 3, cycles: 7, mode: AddressingMode::Absolute_X },
        0xdf => OPCode { code: Code::DCP_U, bytes: 3, cycles: 7, mode: AddressingMode::Absolute_X },
        0xe0 => OPCode { code: Code::CPX, bytes: 2, cycles: 2, mode: AddressingMode::Immediate },
        0xe1 => OPCode { code: Code::SBC, bytes: 2, cycles: 6, mode: AddressingMode::Indirect_X },
        0xe2 => OPCode { code: Code::DOP_U, bytes: 2, cycles: 2, mode: AddressingMode::Immediate },
        0xe3 => OPCode { code: Code::ISC_U, bytes: 2, cycles: 8, mode: AddressingMode::Indirect_X },
        0xe4 => OPCode { code: Code::CPX, bytes: 2, cycles: 3, mode: AddressingMode::ZeroPage },
        0xe5 => OPCode { code: Code::SBC, bytes: 2, cycles: 3, mode: AddressingMode::ZeroPage },
        0xe6 => OPCode { code: Code::INC, bytes: 2, cycles: 5, mode: AddressingMode::ZeroPage },
        0xe7 => OPCode { code: Code::ISC_U, bytes: 2, cycles: 5, mode: AddressingMode::ZeroPage },
        0xe8 => OPCode { code: Code::INX, bytes: 1, cycles: 2, mode: AddressingMode::Implied },
        0xe9 => OPCode { code: Code::SBC, bytes: 2, cycles: 2, mode: AddressingMode::Immediate },
        0xea => OPCode { code: Code::NOP, bytes: 1, cycles: 2, mode: AddressingMode::Implied },
        0xeb => OPCode { code: Code::SBC, bytes: 2, cycles: 2, mode: AddressingMode::Immediate },
        0xec => OPCode { code: Code::CPX, bytes: 3, cycles: 4, mode: AddressingMode::Absolute },
        0xed => OPCode { code: Code::SBC, bytes: 3, cycles: 4, mode: AddressingMode::Absolute },
        0xee => OPCode { code: Code::INC, bytes: 3, cycles: 6, mode: AddressingMode::Absolute },
        0xef => OPCode { code: Code::ISC_U, bytes: 3, cycles: 6, mode: AddressingMode::Absolute },
        0xf0 => OPCode { code: Code::BEQ, bytes: 2, cycles: 2, mode: AddressingMode::Relative },
        0xf1 => OPCode { code: Code::SBC, bytes: 2, cycles: 5, mode: AddressingMode::Indirect_Y },
        0xf2 => OPCode { code: Code::KIL_U, bytes: 1, cycles: 0, mode: AddressingMode::Implied },
        0xf3 => OPCode { code: Code::ISC_U, bytes: 2, cycles: 8, mode: AddressingMode::Indirect_Y },
        0xf4 => OPCode { code: Code::DOP_U, bytes: 2, cycles: 4, mode: AddressingMode::ZeroPage_X },
        0xf5 => OPCode { code: Code::SBC, bytes: 2, cycles: 4, mode: AddressingMode::ZeroPage_X },
        0xf6 => OPCode { code: Code::INC, bytes: 2, cycles: 6, mode: AddressingMode::ZeroPage_X },
        0xf7 => OPCode { code: Code::ISC_U, bytes: 2, cycles: 6, mode: AddressingMode::ZeroPage_X },
        0xf8 => OPCode { code: Code::SED, bytes: 1, cycles: 2, mode: AddressingMode::Implied },
        0xf9 => OPCode { code: Code::SBC, bytes: 3, cycles: 4, mode: AddressingMode::Absolute_Y },
        0xfa => OPCode { code: Code::NOP_U, bytes: 1, cycles: 2, mode: AddressingMode::Implied },
        0xfb => OPCode { code: Code::ISC_U, bytes: 3, cycles: 7, mode: AddressingMode::Absolute_Y },
        0xfc => OPCode { code: Code::NOP_U, bytes: 3, cycles: 4, mode: AddressingMode::Absolute_X },
        0xfd => OPCode { code: Code::SBC, bytes: 3, cycles: 4, mode: AddressingMode::Absolute_X },
        0xfe => OPCode { code: Code::INC, bytes: 3, cycles: 7, mode: AddressingMode::Absolute_X },
        0xff => OPCode { code: Code::ISC_U, bytes: 3, cycles: 7, mode: AddressingMode::Absolute_X },
    }
}

/// The mnemonic of an operation as the trace shows it: a documented
/// operation after a space; an undocumented one with its `_U` after a
/// space, or, for six of them, in the short form that starts with `*`.
pub open spec fn code_name(code: Code) -> Seq<char> {
    match code {
        Code::LDA => " LDA"@,
        Code::LDX => " LDX"@,
        Code::LDY => " LDY"@,
        Code::STA => " STA"@,
        Code::STX => " STX"@,
        Code::STY => " STY"@,
        Code::ADC => " ADC"@,
        Code::SBC => " SBC"@,
        Code::INC => " INC"@,
        Code::INX => " INX"@,
        Code::INY => " INY"@,
        Code::DEC => " DEC"@,
        Code::DEX => " DEX"@,
        Code::DEY => " DEY"@,
        Code::AND => " AND"@,
        Code::ORA => " ORA"@,
        Code::EOR => " EOR"@,
        Code::JMP => " JMP"@,
        Code::BCC => " BCC"@,
        Code::BCS => " BCS"@,
        Code::BEQ => " BEQ"@,
        Code::BMI => " BMI"@,
        Code::BNE => " BNE"@,
        Code::BPL => " BPL"@,
        Code::BVC => " BVC"@,
        Code::BVS => " BVS"@,
        Code::CMP => " CMP"@,
        Code::CPX => " CPX"@,
        Code::CPY => " CPY"@,
        Code::BIT => " BIT"@,
        Code::ASL => " ASL"@,
        Code::LSR => " LSR"@,
        Code::ROL => " ROL"@,
        Code::ROR => " ROR"@,
        Code::TAX => " TAX"@,
        Code::TAY => " TAY"@,
        Code::TXA => " TXA"@,
        Code::TYA => " TYA"@,
        Code::TSX => " TSX"@,
        Code::TXS => " TXS"@,
        Code::PHA => " PHA"@,
        Code::PHP => " PHP"@,
        Code::PLA => " PLA"@,
        Code::PLP => " PLP"@,
        Code::JSR => " JSR"@,
        Code::RTS => " RTS"@,
        Code::RTI => " RTI"@,
        Code::CLC => " CLC"@,
        Code::CLD => " CLD"@,
        Code::CLI => " CLI"@,
        Code::CLV => " CLV"@,
        Code::SEC => " SEC"@,
        Code::SED => " SED"@,
        Code::SEI => " SEI"@,
        Code::NOP => " NOP"@,
        Code::BRK => " BRK"@,
        Code::AAC_U => " AAC_U"@,
        Code::AAX_U => " AAX_U"@,
        Code::ARR_U => " ARR_U"@,
        Code::ASR_U => " ASR_U"@,
        Code::ATX_U => " ATX_U"@,
        Code::AXA_U => " AXA_U"@,
        Code::AXS_U => " AXS_U"@,
        Code::DCP_U => "*DCP"@,
        Code::ISC_U => "*ISB"@,
        Code::LAR_U => " LAR_U"@,
        Code::LAX_U => "*LAX"@,
        Code::RLA_U => " RLA_U"@,
        Code::RRA_U => "*RRA"@,
        Code::SLO_U => "*SLO"@,
        Code::SRE_U => " SRE_U"@,
        Code::SXA_U => " SXA_U"@,
        Code::SYA_U => " SYA_U"@,
        Code::XAS_U => " XAS_U"@,
        Code::DOP_U => " DOP_U"@,
        Code::KIL_U => " KIL_U"@,
        Code::NOP_U => "*NOP"@,
        Code::XAA_U => " XAA_U"@,
    }
}

impl Code {
    /// The mnemonic, as the trace prints it.
    pub fn name(&self) -> (r: &'static str)
        ensures
            r@ == code_name(*self),
    {
        match self {
            Code::LDA => " LDA",
            Code::LDX => " LDX",
            Code::LDY => " LDY",
            Code::STA => " STA",
            Code::STX => " STX",
            Code::STY => " STY",
            Code::ADC => " ADC",
            Code::SBC => " SBC",
            Code::INC => " INC",
            Code::INX => " INX",
            Code::INY => " INY",
            Code::DEC => " DEC",
            Code::DEX => " DEX",
            Code::DEY => " DEY",
            Code::AND => " AND",
            Code::ORA => " ORA",
            Code::EOR => " EOR",
            Code::JMP => " JMP",
            Code::BCC => " BCC",
            Code::BCS => " BCS",
            Code::BEQ => " BEQ",
            Code::BMI => " BMI",
            Code::BNE => " BNE",
            Code::BPL => " BPL",
            Code::BVC => " BVC",
            Code::BVS => " BVS",
            Code::CMP => " CMP",
            Code::CPX => " CPX",
            Code::CPY => " CPY",
            Code::BIT => " BIT",
            Code::ASL => " ASL",
            Code::LSR => " LSR",
            Code::ROL => " ROL",
            Code::ROR => " ROR",
            Code::TAX => " TAX",
            Code::TAY => " TAY",
            Code::TXA => " TXA",
            Code::TYA => " TYA",
            Code::TSX => " TSX",
            Code::TXS => " TXS",
            Code::PHA => " PHA",
            Code::PHP => " PHP",
            Code::PLA => " PLA",
            Code::PLP => " PLP",
            Code::JSR => " JSR",
            Code::RTS => " RTS",
            Code::RTI => " RTI",
            Code::CLC => " CLC",
            Code::CLD => " CLD",
            Code::CLI => " CLI",
            Code::CLV => " CLV",
            Code::SEC => " SEC",
            Code::SED => " SED",
            Code::SEI => " SEI",
            Code::NOP => " NOP",
            Code::BRK => " BRK",
            Code::AAC_U => " AAC_U",
            Code::AAX_U => " AAX_U",
            Code::ARR_U => " ARR_U",
            Code::ASR_U => " ASR_U",
            Code::ATX_U => " ATX_U",
            Code::AXA_U => " AXA_U",
            Code::AXS_U => " AXS_U",
            Code::DCP_U => "*DCP",
            Code::ISC_U => "*ISB",
            Code::LAR_U => " LAR_U",
            Code::LAX_U => "*LAX",
            Code::RLA_U => " RLA_U",
            Code::RRA_U => "*RRA",
            Code::SLO_U => "*SLO",
            Code::SRE_U => " SRE_U",
            Code::SXA_U => " SXA_U",
            Code::SYA_U => " SYA_U",
            Code::XAS_U => " XAS_U",
            Code::DOP_U => " DOP_U",
            Code::KIL_U => " KIL_U",
            Code::NOP_U => "*NOP",
            Code::XAA_U => " XAA_U",
        }
    }
}

} // verus!
