#![allow(unused_imports, dead_code, unused_mut, unused_variables)]

use nes::emulator::bus::Bus;
use nes::emulator::cpu::Cpu;
use nes::emulator::cpu::BREAKONE;
use nes::emulator::cpu::BREAKTWO;
use nes::emulator::cpu::CARRY;
use nes::emulator::cpu::DECIMAL;
use nes::emulator::cpu::INTERDIS;
use nes::emulator::cpu::NEGATIVE;
use nes::emulator::cpu::OVERFLOW;
use nes::emulator::cpu::ROM_START;
use nes::emulator::cpu::ZERO;
use nes::emulator::flags::Flags;
use nes::emulator::memory::Mem;
use nes::emulator::memory::Stack;
use nes::emulator::rom::Mirroring;
use nes::emulator::rom::Rom;
use nes::emulator::rom::CHR_ROM_PAGE_SIZE;
use nes::emulator::rom::PRG_ROM_PAGE_SIZE;
use nes::helpers::trace::trace;
use nes::helpers::trace::trace_registers;

const LIMIT: usize = 100_000;

fn default_rom() -> Rom {
    Rom {
        prg_rom: vec![1; 2 * PRG_ROM_PAGE_SIZE],
        chr_rom: vec![2; 1 * CHR_ROM_PAGE_SIZE],
        mapper: 0,
        screen_mirroring: Mirroring::VERTICAL,
    }
}

fn blank_rom() -> Rom {
    Rom {
        prg_rom: vec![0; 2 * PRG_ROM_PAGE_SIZE],
        chr_rom: vec![0; 1 * CHR_ROM_PAGE_SIZE],
        mapper: 0,
        screen_mirroring: Mirroring::VERTICAL,
    }
}

fn load_into_memory(bus: &mut Bus, data: Vec<u8>, start: u16) {
    for (i, byte) in data.iter().enumerate() {
        bus.mem_write(start + i as u16, *byte);
    }
}

fn check(cpu: &mut Cpu, expected: &[&str]) {
    let mut res: Vec<String> = vec![];
    let (_, stopped) = cpu.run_with_callback(LIMIT, |cpu| {
        res.push(trace(cpu));
    });
    assert!(stopped);
    assert_eq!(res.join("\n"), expected.join("\n"));
}

fn check_registers(cpu: &mut Cpu, expected: &[&str]) {
    let mut res: Vec<String> = vec![];
    let (_, stopped) = cpu.run_with_callback(LIMIT, |cpu| {
        res.push(trace_registers(cpu));
    });
    assert!(stopped);
    assert_eq!(res.join("\n"), expected.join("\n"));
}

#[test]
fn test_0b_aac_u_immediate_set_carry() {
    let mut bus = Bus::new(default_rom());
    load_into_memory(&mut bus, vec![0x0b, 0b1000_1111, 0x00], 0x0000);

    let mut cpu = Cpu::new(bus);
    cpu.program_counter = 0;
    cpu.accumulator = 0b1111_1100;

    check_registers(
        &mut cpu,
        &[
            "0000  0B 8F     AAC_U #$8F                      A:FC X:00 Y:00 P:24 SP:FD",
            "0002  00        BRK                             A:8C X:00 Y:00 P:A5 SP:FD",
        ],
    )
}

#[test]
fn test_0b_aac_u_immediate_not_set_carry() {
    let mut bus = Bus::new(default_rom());
    load_into_memory(&mut bus, vec![0x0b, 0b0000_1111, 0x00], 0x0000);

    let mut cpu = Cpu::new(bus);
    cpu.program_counter = 0;
    cpu.accumulator = 0b1111_1100;

    check_registers(
        &mut cpu,
        &[
            "0000  0B 0F     AAC_U #$0F                      A:FC X:00 Y:00 P:24 SP:FD",
            "0002  00        BRK                             A:0C X:00 Y:00 P:24 SP:FD",
        ],
    )
}

#[test]
fn test_87_aax_u_absolute_and() {
    let mut bus = Bus::new(default_rom());
    load_into_memory(&mut bus, vec![0x87, 0xa1, 0x00], 0x0000);

    let mut cpu = Cpu::new(bus);
    cpu.program_counter = 0;
    cpu.accumulator = 0b0001_1111;
    cpu.register_x = 0b1111_1000;

    check_registers(
        &mut cpu,
        &[
            "0000  87 A1     AAX_U $A1 = 00                  A:1F X:F8 Y:00 P:24 SP:FD",
            "0002  00        BRK                             A:1F X:F8 Y:00 P:24 SP:FD",
        ],
    );

    let val = cpu.mem_read(0x00a1);
    let expected = "00011000";
    assert_eq!(format!("{:08b}", val), expected);
}

#[test]
fn test_6b_arr_u_immediate_bit6_bit7() {
    let mut bus = Bus::new(default_rom());
    load_into_memory(&mut bus, vec![0x6b, 0b0000_0110, 0x00], 0x0000);

    let mut cpu = Cpu::new(bus);
    cpu.program_counter = 0;
    cpu.accumulator = 0b1111_1111;

    check_registers(
        &mut cpu,
        &[
            "0000  6B 06     ARR_U #$06                      A:FF X:00 Y:00 P:24 SP:FD",
            "0002  00        BRK                             A:03 X:00 Y:00 P:65 SP:FD",
        ],
    );
}

#[test]
fn test_6b_arr_u_immediate_bit6_not_bit7() {
    let mut bus = Bus::new(default_rom());
    load_into_memory(&mut bus, vec![0x6b, 0b0000_0100, 0x00], 0x0000);

    let mut cpu = Cpu::new(bus);
    cpu.program_counter = 0;
    cpu.accumulator = 0b1111_1111;

    check_registers(
        &mut cpu,
        &[
            "0000  6B 04     ARR_U #$04                      A:FF X:00 Y:00 P:24 SP:FD",
            "0002  00        BRK                             A:02 X:00 Y:00 P:65 SP:FD",
        ],
    );
}

#[test]
fn test_6b_arr_u_immediate_not_bit6_bit7() {
    let mut bus = Bus::new(default_rom());
    load_into_memory(&mut bus, vec![0x6b, 0b0000_0010, 0x00], 0x0000);

    let mut cpu = Cpu::new(bus);
    cpu.program_counter = 0;
    cpu.accumulator = 0b1111_1111;

    check_registers(
        &mut cpu,
        &[
            "0000  6B 02     ARR_U #$02                      A:FF X:00 Y:00 P:24 SP:FD",
            "0002  00        BRK                             A:01 X:00 Y:00 P:24 SP:FD",
        ],
    );
}

#[test]
fn test_6b_arr_u_immediate_not_bit6_not_bit7() {
    let mut bus = Bus::new(default_rom());
    load_into_memory(&mut bus, vec![0x6b, 0b0000_0000, 0x00], 0x0000);

    let mut cpu = Cpu::new(bus);
    cpu.program_counter = 0;
    cpu.accumulator = 0b1111_1111;

    check_registers(
        &mut cpu,
        &[
            "0000  6B 00     ARR_U #$00                      A:FF X:00 Y:00 P:24 SP:FD",
            "0002  00        BRK                             A:00 X:00 Y:00 P:26 SP:FD",
        ],
    );
}

#[test]
fn test_4b_asr_u_immediate_rotate() {
    let mut bus = Bus::new(default_rom());
    load_into_memory(&mut bus, vec![0x4b, 0b0000_0010, 0x00], 0x0000);

    let mut cpu = Cpu::new(bus);
    cpu.program_counter = 0;
    cpu.accumulator = 0b1111_1111;

    check(
        &mut cpu,
        &[
            "0000  4B 02     ASR_U #$02                      A:FF X:00 Y:00 P:24 SP:FD PPU:  0,  0 CYC:0",
            "0002  00        BRK                             A:01 X:00 Y:00 P:24 SP:FD PPU:  0,  6 CYC:2",
        ],
    );
}

#[test]
fn test_4b_asr_u_immediate_rotate_carry() {
    let mut bus = Bus::new(default_rom());
    load_into_memory(&mut bus, vec![0x4b, 0b0000_0001, 0x00], 0x0000);

    let mut cpu = Cpu::new(bus);
    cpu.program_counter = 0;
    cpu.accumulator = 0b1111_1111;

    check(
        &mut cpu,
        &[
            "0000  4B 01     ASR_U #$01                      A:FF X:00 Y:00 P:24 SP:FD PPU:  0,  0 CYC:0",
            "0002  00        BRK                             A:00 X:00 Y:00 P:27 SP:FD PPU:  0,  6 CYC:2",
        ],
    );
}

#[test]
fn test_ab_atx_u_immediate_set_transfer() {
    let mut bus = Bus::new(default_rom());
    load_into_memory(&mut bus, vec![0xab, 0b1000_1111, 0x00], 0x0000);

    let mut cpu = Cpu::new(bus);
    cpu.program_counter = 0;
    cpu.accumulator = 0b1111_1100;

    check_registers(
        &mut cpu,
        &[
            "0000  AB 8F     ATX_U #$8F                      A:FC X:00 Y:00 P:24 SP:FD",
            "0002  00        BRK                             A:8C X:8C Y:00 P:A4 SP:FD",
        ],
    )
}

#[test]
fn test_9f_axa_u_absolute_y_write() {
    let mut bus = Bus::new(default_rom());
    load_into_memory(&mut bus, vec![0x9f, 0x10, 0x00, 0x00], 0x0000);

    let mut cpu = Cpu::new(bus);
    cpu.program_counter = 0;
    cpu.accumulator = 0b1111_1111;
    cpu.register_x = 0b0000_1111;

    check_registers(
        &mut cpu,
        &[
            "0000  9F 10 00  AXA_U $0010,Y @ 0010 = 00       A:FF X:0F Y:00 P:24 SP:FD",
            "0003  00        BRK                             A:FF X:0F Y:00 P:24 SP:FD",
        ],
    );

    let val = cpu.bus.mem_read(0x0010);
    let expected = "00000111";
    assert_eq!(format!("{:08b}", val), expected);
}

#[test]
fn test_cb_axs_u_immediate_write() {
    let mut bus = Bus::new(default_rom());
    load_into_memory(&mut bus, vec![0xcb, 0x5, 0x00], 0x0000);

    let mut cpu = Cpu::new(bus);
    cpu.program_counter = 0;
    cpu.accumulator = 0b1111_1111;
    cpu.register_x = 0b0000_1010;

    check(
        &mut cpu,
        &[
            "0000  CB 05     AXS_U #$05                      A:FF X:0A Y:00 P:24 SP:FD PPU:  0,  0 CYC:0",
            "0002  00        BRK                             A:FF X:05 Y:00 P:25 SP:FD PPU:  0,  6 CYC:2",
        ],
    );
}

#[test]
fn test_c7_dcp_u_zero_page_subtract() {
    let mut bus = Bus::new(default_rom());
    load_into_memory(&mut bus, vec![0xc7, 0xa1, 0x00], 0x0000);
    bus.mem_write(0x00a1, 0x02);

    let mut cpu = Cpu::new(bus);
    cpu.program_counter = 0;

    check(
        &mut cpu,
        &[
            "0000  C7 A1    *DCP $A1 = 02                    A:00 X:00 Y:00 P:24 SP:FD PPU:  0,  0 CYC:0",
            "0002  00        BRK                             A:00 X:00 Y:00 P:A4 SP:FD PPU:  0, 15 CYC:5",
        ],
    );

    let val = cpu.bus.mem_read(0x00a1);
    let expected = "1\n";
    assert_eq!(format!("{:#?}\n", val), expected);
}

#[test]
fn test_e7_isc_u_zero_page_inc_1() {
    let mut bus = Bus::new(default_rom());
    load_into_memory(&mut bus, vec![0xe7, 0xa1, 0x00], 0x0000);
    bus.mem_write(0x00a1, 0x01);

    let mut cpu = Cpu::new(bus);
    cpu.program_counter = 0;
    cpu.accumulator = 5;

    check_registers(
        &mut cpu,
        &[
            "0000  E7 A1    *ISB $A1 = 01                    A:05 X:00 Y:00 P:24 SP:FD",
            "0002  00        BRK                             A:02 X:00 Y:00 P:25 SP:FD",
        ],
    );
}

#[test]
fn test_bb_lar_u_zero_page_load() {
    let mut bus = Bus::new(default_rom());
    load_into_memory(&mut bus, vec![0xbb, 0xa1, 0x00], 0x0000);
    bus.mem_write(0x00a1, 0b1111_1000);

    let mut cpu = Cpu::new(bus);
    cpu.program_counter = 0;
    cpu.stack_pointer = 0b0001_1111;

    check_registers(
        &mut cpu,
        &[
            "0000  BB A1 00  LAR_U $00A1,Y @ 00A1 = F8       A:00 X:00 Y:00 P:24 SP:1F",
            "0003  00        BRK                             A:18 X:18 Y:00 P:24 SP:18",
        ],
    );
}

#[test]
fn test_a7_lax_u_zero_page_load() {
    let mut bus = Bus::new(default_rom());
    load_into_memory(&mut bus, vec![0xa7, 0xa1, 0x00], 0x0000);
    bus.mem_write(0x00a1, 0b1);

    let mut cpu = Cpu::new(bus);
    cpu.program_counter = 0;

    check(
        &mut cpu,
        &[
            "0000  A7 A1    *LAX $A1 = 01                    A:00 X:00 Y:00 P:24 SP:FD PPU:  0,  0 CYC:0",
            "0002  00        BRK                             A:01 X:01 Y:00 P:24 SP:FD PPU:  0,  9 CYC:3",
        ],
    );
}

#[test]
fn test_1a_nop_nothin() {
    let mut bus = Bus::new(default_rom());
    load_into_memory(&mut bus, vec![0x1a, 0x00], 0x0000);

    let mut cpu = Cpu::new(bus);
    cpu.program_counter = 0x0000;

    // +1 for nop then +1 for next instruction
    check_registers(
        &mut cpu,
        &[
            "0000  1A       *NOP                             A:00 X:00 Y:00 P:24 SP:FD",
            "0001  00        BRK                             A:00 X:00 Y:00 P:24 SP:FD",
        ],
    )
}

#[test]
fn test_27_rla_zero_page_rotate_and() {
    let mut bus = Bus::new(default_rom());
    load_into_memory(&mut bus, vec![0x27, 0xa1, 0x00], 0x0000);
    bus.mem_write(0x00a1, 0b1100_0000);

    let mut cpu = Cpu::new(bus);
    cpu.program_counter = 0x0000;
    cpu.accumulator = 0b1000_0001;

    check_registers(
        &mut cpu,
        &[
            "0000  27 A1     RLA_U $A1 = C0                  A:81 X:00 Y:00 P:24 SP:FD",
            "0002  00        BRK                             A:80 X:00 Y:00 P:A5 SP:FD",
        ],
    )
}

#[test]
fn test_67_rra_zero_page_rotate_add() {
    let mut bus = Bus::new(default_rom());
    load_into_memory(&mut bus, vec![0x67, 0xa1, 0x00], 0x0000);
    bus.mem_write(0x00a1, 0b0000_0011);

    let mut cpu = Cpu::new(bus);
    cpu.program_counter = 0x0000;

    check_registers(
        &mut cpu,
        &[
            "0000  67 A1    *RRA $A1 = 03                    A:00 X:00 Y:00 P:24 SP:FD",
            "0002  00        BRK                             A:02 X:00 Y:00 P:24 SP:FD",
        ],
    )
}

#[test]
fn test_0x07_slo_u_zero_page_or() {
    let mut bus = Bus::new(default_rom());
    load_into_memory(&mut bus, vec![0x07, 0xa1, 0x00], 0x0000);
    bus.mem_write(0x00a1, 0b1100_0000);

    let mut cpu = Cpu::new(bus);
    cpu.program_counter = 0x0000;
    cpu.accumulator = 0b0000_0001;

    check_registers(
        &mut cpu,
        &[
            "0000  07 A1    *SLO $A1 = C0                    A:01 X:00 Y:00 P:24 SP:FD",
            "0002  00        BRK                             A:81 X:00 Y:00 P:A5 SP:FD",
        ],
    )
}

#[test]
fn test_0x47_sre_u_zero_page_or() {
    let mut bus = Bus::new(default_rom());
    load_into_memory(&mut bus, vec![0x47, 0xa1, 0x00], 0x0000);
    bus.mem_write(0x00a1, 0b0000_0011);

    let mut cpu = Cpu::new(bus);
    cpu.program_counter = 0x0000;
    cpu.accumulator = 0b0000_0000;

    check_registers(
        &mut cpu,
        &[
            "0000  47 A1     SRE_U $A1 = 03                  A:00 X:00 Y:00 P:24 SP:FD",
            "0002  00        BRK                             A:01 X:00 Y:00 P:25 SP:FD",
        ],
    )
}

#[test]
fn test_0x9c_sya_u_zero_page_load() {
    let mut bus = Bus::new(default_rom());
    load_into_memory(&mut bus, vec![0x9c, 0x00, 0b0000_0011, 0x00], 0x0000);

    let mut cpu = Cpu::new(bus);
    cpu.program_counter = 0x0000;
    cpu.register_y = 0b1111_1111;

    check(
        &mut cpu,
        &[
            "0000  9C 00 03  SYA_U $0300,X @ 0300 = 00       A:00 X:00 Y:FF P:24 SP:FD PPU:  0,  0 CYC:0",
            "0003  00        BRK                             A:00 X:00 Y:FF P:24 SP:FD PPU:  0, 15 CYC:5",
        ],
    );

    let expected = "00000100";
    assert_eq!(format!("{:08b}", cpu.mem_read(0b11_0000_0000)), expected);
}

#[test]
fn test_9b_xas_u_absolute_y_and() {
    let mut bus = Bus::new(default_rom());
    load_into_memory(&mut bus, vec![0x9b, 0x00, 0b0000_0011, 0x00], 0x0000);

    let mut cpu = Cpu::new(bus);
    cpu.program_counter = 0x0000;
    cpu.register_x = 0b1111_1111;
    cpu.accumulator = 0b0000_1111;
    cpu.stack_pointer = 0b0000_0001;
    cpu.register_y = 0;

    check_registers(
        &mut cpu,
        &[
            "0000  9B 00 03  XAS_U $0300,Y @ 0300 = 00       A:0F X:FF Y:00 P:24 SP:01",
            "0003  00        BRK                             A:0F X:FF Y:00 P:24 SP:0F",
        ],
    );

    let expected = "00000100";
    assert_eq!(format!("{:08b}", cpu.mem_read(0b11_0000_0000)), expected);
}
