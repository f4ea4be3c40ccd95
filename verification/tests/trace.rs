#![allow(unused_imports, dead_code, unused_mut, unused_variables)]

use nes::emulator::bus::Bus;
use nes::emulator::cpu::Cpu;
use nes::emulator::cpu::BREAKONE;
use nes::emulator::cpu::BREAKTWO;
use nes::emulator::cpu::CARRY;
use nes::emulator::cpu::DECIMAL;
use nes::emulator::cpu::INTERDIS;
use nes::emulator::cpu::NEGATIVE;
use nes::emulator::cpu::OVERFLOW;
use nes::emulator::cpu::ROM_START;
use nes::emulator::cpu::ZERO;
use nes::emulator::flags::Flags;
use nes::emulator::memory::Mem;
use nes::emulator::memory::Stack;
use nes::emulator::rom::Mirroring;
use nes::emulator::rom::Rom;
use nes::emulator::rom::CHR_ROM_PAGE_SIZE;
use nes::emulator::rom::PRG_ROM_PAGE_SIZE;
use nes::helpers::trace::trace;
use nes::helpers::trace::trace_registers;

const LIMIT: usize = 100_000;

fn default_rom() -> Rom {
    Rom {
        prg_rom: vec![1; 2 * PRG_ROM_PAGE_SIZE],
        chr_rom: vec![2; 1 * CHR_ROM_PAGE_SIZE],
        mapper: 0,
        screen_mirroring: Mirroring::VERTICAL,
    }
}

fn blank_rom() -> Rom {
    Rom {
        prg_rom: vec![0; 2 * PRG_ROM_PAGE_SIZE],
        chr_rom: vec![0; 1 * CHR_ROM_PAGE_SIZE],
        mapper: 0,
        screen_mirroring: Mirroring::VERTICAL,
    }
}

fn load_into_memory(bus: &mut Bus, data: Vec<u8>, start: u16) {
    for (i, byte) in data.iter().enumerate() {
        bus.mem_write(start + i as u16, *byte);
    }
}

fn check(cpu: &mut Cpu, expected: &[&str]) {
    let mut res: Vec<String> = vec![];
    let (_, stopped) = cpu.run_with_callback(LIMIT, |cpu| {
        res.push(trace(cpu));
    });
    assert!(stopped);
    assert_eq!(res.join("\n"), expected.join("\n"));
}

fn check_registers(cpu: &mut Cpu, expected: &[&str]) {
    let mut res: Vec<String> = vec![];
    let (_, stopped) = cpu.run_with_callback(LIMIT, |cpu| {
        res.push(trace_registers(cpu));
    });
    assert!(stopped);
    assert_eq!(res.join("\n"), expected.join("\n"));
}

#[test]
fn test_format_trace() {
    let mut bus = Bus::new(default_rom());
    load_into_memory(&mut bus, vec![0xa2, 0x01, 0xca, 0x88, 0x00], 0x0000);

    let mut cpu = Cpu::new(bus);
    cpu.program_counter = 0x00;
    cpu.accumulator = 1;
    cpu.register_x = 2;
    cpu.register_y = 3;

    check(
        &mut cpu,
        &[
            "0000  A2 01     LDX #$01                        A:01 X:02 Y:03 P:24 SP:FD PPU:  0,  0 CYC:0",
            "0002  CA        DEX                             A:01 X:01 Y:03 P:24 SP:FD PPU:  0,  6 CYC:2",
            "0003  88        DEY                             A:01 X:00 Y:03 P:26 SP:FD PPU:  0, 12 CYC:4",
            "0004  00        BRK                             A:01 X:00 Y:02 P:24 SP:FD PPU:  0, 18 CYC:6",
        ],
    )
}

#[test]
fn test_format_trace_memory_access() {
    let mut bus = Bus::new(default_rom());
    bus.mem_write(0x00, 0x11);
    bus.mem_write(0x01, 0x10);
    bus.mem_write(0x10, 0x00);
    bus.mem_write(0x11, 0x02);
    bus.mem_write(0x0200, 0xAA);

    let mut cpu = Cpu::new(bus);
    cpu.program_counter = 0x00;
    cpu.register_y = 0;

    check(
        &mut cpu,
        &[
            "0000  11 10     ORA ($10),Y = 0200 @ 0200 = AA  A:00 X:00 Y:00 P:24 SP:FD PPU:  0,  0 CYC:0",
            "0002  00        BRK                             A:AA X:00 Y:00 P:A4 SP:FD PPU:  0, 15 CYC:5",
        ],
    )
}
