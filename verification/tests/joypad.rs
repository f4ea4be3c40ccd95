#![allow(unused_imports, dead_code, unused_mut, unused_variables)]

use nes::emulator::bus::Bus;
use nes::emulator::cpu::Cpu;
use nes::emulator::cpu::BREAKONE;
use nes::emulator::cpu::BREAKTWO;
use nes::emulator::cpu::CARRY;
use nes::emulator::cpu::DECIMAL;
use nes::emulator::cpu::INTERDIS;
use nes::emulator::cpu::NEGATIVE;
use nes::emulator::cpu::OVERFLOW;
use nes::emulator::cpu::ROM_START;
use nes::emulator::cpu::ZERO;
use nes::emulator::flags::Flags;
use nes::emulator::joypad::A;
use nes::emulator::memory::Mem;
use nes::emulator::memory::Stack;
use nes::emulator::rom::Mirroring;
use nes::emulator::rom::Rom;
use nes::emulator::rom::CHR_ROM_PAGE_SIZE;
use nes::emulator::rom::PRG_ROM_PAGE_SIZE;
use nes::helpers::trace::trace;
use nes::helpers::trace::trace_registers;

const LIMIT: usize = 100_000;

fn default_rom() -> Rom {
    Rom {
        prg_rom: vec![1; 2 * PRG_ROM_PAGE_SIZE],
        chr_rom: vec![2; 1 * CHR_ROM_PAGE_SIZE],
        mapper: 0,
        screen_mirroring: Mirroring::VERTICAL,
    }
}

fn blank_rom() -> Rom {
    Rom {
        prg_rom: vec![0; 2 * PRG_ROM_PAGE_SIZE],
        chr_rom: vec![0; 1 * CHR_ROM_PAGE_SIZE],
        mapper: 0,
        screen_mirroring: Mirroring::VERTICAL,
    }
}

fn load_into_memory(bus: &mut Bus, data: Vec<u8>, start: u16) {
    for (i, byte) in data.iter().enumerate() {
        bus.mem_write(start + i as u16, *byte);
    }
}

fn check(cpu: &mut Cpu, expected: &[&str]) {
    let mut res: Vec<String> = vec![];
    let (_, stopped) = cpu.run_with_callback(LIMIT, |cpu| {
        res.push(trace(cpu));
    });
    assert!(stopped);
    assert_eq!(res.join("\n"), expected.join("\n"));
}

fn check_registers(cpu: &mut Cpu, expected: &[&str]) {
    let mut res: Vec<String> = vec![];
    let (_, stopped) = cpu.run_with_callback(LIMIT, |cpu| {
        res.push(trace_registers(cpu));
    });
    assert!(stopped);
    assert_eq!(res.join("\n"), expected.join("\n"));
}

#[test]
fn test_joypad_read_correctly() {
    let mut bus = Bus::new(default_rom());

    bus.joypad.press(A);
    bus.mem_write(0x4016, 0x00);

    let button_1 = bus.mem_read(0x4016);
    println!("Button 1: {} {:08b}", button_1, bus.joypad.state.bits());
    let button_1 = bus.mem_read(0x4016);
    println!("Button 1: {} {:08b}", button_1, bus.joypad.state.bits());
}
