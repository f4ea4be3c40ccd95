#![allow(unused_imports, dead_code, unused_mut, unused_variables)]

use nes::emulator::addressing_modes::AddressingMode;
use nes::emulator::bus::Bus;
use nes::emulator::bus::Fault;
use nes::emulator::cpu::Cpu;
use nes::emulator::cpu::BREAKONE;
use nes::emulator::cpu::BREAKTWO;
use nes::emulator::cpu::CARRY;
use nes::emulator::cpu::INTERDIS;
use nes::emulator::cpu::NEGATIVE;
use nes::emulator::cpu::OVERFLOW;
use nes::emulator::cpu::ROM_START;
use nes::emulator::cpu::ZERO;
use nes::emulator::flags::Flags;
use nes::emulator::instructions::cost;
use nes::emulator::interrupts::Interrupt;
use nes::emulator::interrupts::INTERRUPTS;
use nes::emulator::memory::Mem;
use nes::emulator::memory::Stack;
use nes::emulator::opcodes::lookup;
use nes::emulator::opcodes::Code;
use nes::emulator::rom::Mirroring;
use nes::emulator::rom::Rom;
use nes::helpers::trace::run_traced;

fn rom_of(prg_banks: usize, fill: u8) -> Rom {
    Rom {
        prg_rom: vec![fill; prg_banks * 0x4000],
        chr_rom: vec![0; 0x2000],
        mapper: 0,
        screen_mirroring: Mirroring::VERTICAL,
    }
}

fn machine(program: &[u8], at: u16) -> Cpu {
    let mut bus = Bus::new(rom_of(2, 0));
    for (i, byte) in program.iter().enumerate() {
        bus.mem_write(at + i as u16, *byte);
    }
    let mut cpu = Cpu::new(bus);
    cpu.program_counter = at;
    cpu
}

#[test]
fn loads_set_zero_and_negative_for_every_byte() {
    for opcode in [0xa9u8, 0xa2, 0xa0] {
        for v in 0..=255u8 {
            let mut cpu = machine(&[opcode, v, 0x00], 0x0200);
            assert!(cpu.step());
            let loaded = match opcode {
                0xa9 => cpu.accumulator,
                0xa2 => cpu.register_x,
                _ => cpu.register_y,
            };
            assert_eq!(loaded, v);
            assert_eq!(cpu.status.contains(ZERO), v == 0);
            assert_eq!(cpu.status.contains(NEGATIVE), v & 0x80 != 0);
            assert_eq!(cpu.status.bits() & !(ZERO | NEGATIVE), 0x24);
        }
    }
}

#[test]
fn transfers_and_pulls_set_zero_and_negative() {
    let mut cpu = machine(&[0xaa, 0xa8, 0x68, 0x00], 0x0200);
    cpu.accumulator = 0x80;
    assert!(cpu.step());
    assert_eq!(cpu.register_x, 0x80);
    assert!(cpu.status.contains(NEGATIVE));
    assert!(!cpu.status.contains(ZERO));
    cpu.accumulator = 0;
    assert!(cpu.step());
    assert_eq!(cpu.register_y, 0);
    assert!(cpu.status.contains(ZERO));
    assert!(!cpu.status.contains(NEGATIVE));
    cpu.stack_push_u8(0x91);
    assert!(cpu.step());
    assert_eq!(cpu.accumulator, 0x91);
    assert!(cpu.status.contains(NEGATIVE));
}

#[test]
fn push_then_pop_answers_every_byte() {
    for sp in [0xfdu8, 0x00, 0x01, 0xff] {
        for v in 0..=255u8 {
            let mut cpu = machine(&[], 0x0200);
            cpu.stack_pointer = sp;
            cpu.stack_push_u8(v);
            assert_eq!(cpu.stack_pointer, sp.wrapping_sub(1));
            assert_eq!(cpu.stack_pop_u8(), v);
            assert_eq!(cpu.stack_pointer, sp);
        }
    }
}

#[test]
fn push_then_pop_answers_every_word() {
    for sp in [0xfdu8, 0x00, 0x01, 0xff] {
        let mut v: u32 = 0;
        while v <= 0xffff {
            let mut cpu = machine(&[], 0x0200);
            cpu.stack_pointer = sp;
            cpu.stack_push_u16(v as u16);
            assert_eq!(cpu.stack_pointer, sp.wrapping_sub(2));
            assert_eq!(cpu.stack_pop_u16(), v as u16);
            assert_eq!(cpu.stack_pointer, sp);
            v += 257;
        }
    }
}

#[test]
fn push_writes_then_moves_down_and_word_lies_low_byte_first() {
    let mut cpu = machine(&[], 0x0200);
    cpu.stack_push_u8(0x42);
    assert_eq!(cpu.mem_read(0x01fd), 0x42);
    assert_eq!(cpu.stack_pointer, 0xfc);
    cpu.stack_push_u16(0xbeef);
    assert_eq!(cpu.mem_read(0x01fc), 0xbe);
    assert_eq!(cpu.mem_read(0x01fb), 0xef);
    assert_eq!(cpu.mem_read_u16(0x01fb), 0xbeef);
    assert_eq!(cpu.stack_pointer, 0xfa);
}

#[test]
fn stack_pointer_wraps_within_its_page() {
    let mut cpu = machine(&[], 0x0200);
    cpu.stack_pointer = 0x00;
    cpu.stack_push_u8(0x11);
    assert_eq!(cpu.stack_pointer, 0xff);
    assert_eq!(cpu.mem_read(0x0100), 0x11);
    cpu.stack_push_u8(0x22);
    assert_eq!(cpu.mem_read(0x01ff), 0x22);
    assert_eq!(cpu.stack_pop_u8(), 0x22);
    assert_eq!(cpu.stack_pop_u8(), 0x11);
    assert_eq!(cpu.stack_pointer, 0x00);
}

#[test]
fn addition_of_two_positives_overflows_into_the_sign() {
    let mut cpu = machine(&[0x69, 0x50, 0x00], 0x0200);
    cpu.accumulator = 0x50;
    assert!(cpu.step());
    assert_eq!(cpu.accumulator, 0xa0);
    assert!(cpu.status.contains(OVERFLOW));
    assert!(!cpu.status.contains(CARRY));
    assert!(cpu.status.contains(NEGATIVE));
    assert!(!cpu.status.contains(ZERO));
}

#[test]
fn subtraction_of_zero_without_carry_borrows_one() {
    let mut cpu = machine(&[0xe9, 0x00, 0x00], 0x0200);
    cpu.accumulator = 0xff;
    assert!(!cpu.status.contains(CARRY));
    assert!(cpu.step());
    assert_eq!(cpu.accumulator, 0xfe);
    assert!(cpu.status.contains(CARRY));
    assert!(cpu.status.contains(NEGATIVE));
    assert!(!cpu.status.contains(OVERFLOW));
}

#[test]
fn the_undocumented_subtraction_is_the_documented_one() {
    for (a, m, c) in [(0xffu8, 0x00u8, false), (0x50, 0xf0, true), (0x00, 0x01, true), (0x80, 0x01, true)] {
        let mut plain = machine(&[0xe9, m, 0x00], 0x0200);
        let mut alias = machine(&[0xeb, m, 0x00], 0x0200);
        plain.accumulator = a;
        alias.accumulator = a;
        plain.status.set(CARRY, c);
        alias.status.set(CARRY, c);
        assert!(plain.step());
        assert!(alias.step());
        assert_eq!(plain.accumulator, alias.accumulator);
        assert_eq!(plain.status.bits(), alias.status.bits());
        assert_eq!(plain.cycles, alias.cycles);
    }
}

#[test]
fn addition_agrees_with_arithmetic_for_every_pair() {
    for a in 0..=255u8 {
        for m in 0..=255u8 {
            for c in [false, true] {
                let mut cpu = machine(&[], 0x0200);
                cpu.accumulator = a;
                cpu.status.set(CARRY, c);
                let r = cpu.addition(m);
                let sum = a as u16 + m as u16 + c as u16;
                assert_eq!(r, (sum & 0xff) as u8);
                assert_eq!(cpu.status.contains(CARRY), sum > 0xff);
                let signed = (a as i8) as i16 + (m as i8) as i16 + c as i16;
                assert_eq!(cpu.status.contains(OVERFLOW), signed < -128 || signed > 127);
                assert_eq!(cpu.accumulator, a);
            }
        }
    }
}

#[test]
fn comparison_of_equals_sets_carry_and_zero() {
    let mut cpu = machine(&[0xc9, 0x00, 0x00], 0x0200);
    cpu.accumulator = 0x00;
    assert!(cpu.step());
    assert!(cpu.status.contains(CARRY));
    assert!(cpu.status.contains(ZERO));
    assert!(!cpu.status.contains(NEGATIVE));
    assert_eq!(cpu.accumulator, 0x00);
}

#[test]
fn comparison_flags_for_every_pair() {
    for opcode in [0xc9u8, 0xe0, 0xc0] {
        for r in (0..=255u8).step_by(5) {
            for m in (0..=255u8).step_by(3) {
                let mut cpu = machine(&[opcode, m, 0x00], 0x0200);
                cpu.accumulator = r;
                cpu.register_x = r;
                cpu.register_y = r;
                assert!(cpu.step());
                assert_eq!(cpu.status.contains(CARRY), r >= m);
                assert_eq!(cpu.status.contains(ZERO), r == m);
                assert_eq!(cpu.status.contains(NEGATIVE), r.wrapping_sub(m) & 0x80 != 0);
                assert_eq!(cpu.accumulator, r);
            }
        }
    }
}

#[test]
fn indirect_jump_fetches_the_high_byte_from_the_same_page() {
    let mut cpu = machine(&[0x6c, 0xff, 0x00], 0x0200);
    cpu.mem_write(0x00ff, 0x10);
    cpu.mem_write(0x0000, 0x11);
    cpu.mem_write(0x0100, 0x22);
    assert!(cpu.step());
    assert_eq!(cpu.program_counter, 0x1110);
    assert_eq!(cpu.cycles, 5);
}

#[test]
fn indirect_jump_away_from_a_page_end_reads_two_neighbours() {
    let mut cpu = machine(&[0x6c, 0x20, 0x03], 0x0200);
    cpu.mem_write(0x0320, 0x34);
    cpu.mem_write(0x0321, 0x12);
    assert!(cpu.step());
    assert_eq!(cpu.program_counter, 0x1234);
}

#[test]
fn branch_not_taken_costs_its_base() {
    let mut cpu = machine(&[0xd0, 0x05, 0x00], 0x0200);
    cpu.status.insert(ZERO);
    assert!(cpu.step());
    assert_eq!(cpu.program_counter, 0x0202);
    assert_eq!(cpu.cycles, 2);
    assert_eq!(cpu.bus.ppu.cycles, 6);
}

#[test]
fn branch_taken_within_the_page_costs_one_more() {
    let mut cpu = machine(&[0xd0, 0x05, 0x00], 0x0200);
    cpu.status.remove(ZERO);
    assert!(cpu.step());
    assert_eq!(cpu.program_counter, 0x0207);
    assert_eq!(cpu.cycles, 3);
    assert_eq!(cpu.bus.ppu.cycles, 9);
}

#[test]
fn branch_taken_into_another_page_costs_two_more() {
    let mut cpu = machine(&[0xd0, 0xf0, 0x00], 0x0200);
    cpu.status.remove(ZERO);
    assert!(cpu.step());
    assert_eq!(cpu.program_counter, 0x01f2);
    assert_eq!(cpu.cycles, 4);
    assert_eq!(cpu.bus.ppu.cycles, 12);
}

#[test]
fn branch_page_is_measured_from_the_next_instruction() {
    let mut cpu = machine(&[0xf0, 0x05], 0x02fe);
    cpu.status.insert(ZERO);
    assert!(cpu.step());
    assert_eq!(cpu.program_counter, 0x0305);
    assert_eq!(cpu.cycles, 3);

    let mut cpu = machine(&[0xf0, 0xfc], 0x02fe);
    cpu.status.insert(ZERO);
    assert!(cpu.step());
    assert_eq!(cpu.program_counter, 0x02fc);
    assert_eq!(cpu.cycles, 4);
}

#[test]
fn every_branch_costs_base_plus_one_or_two_when_taken() {
    for (opcode, flag, on) in [
        (0x90u8, CARRY, false),
        (0xb0, CARRY, true),
        (0xf0, ZERO, true),
        (0xd0, ZERO, false),
        (0x30, NEGATIVE, true),
        (0x10, NEGATIVE, false),
        (0x70, OVERFLOW, true),
        (0x50, OVERFLOW, false),
    ] {
        let entry = lookup(opcode);
        assert_eq!(entry.mode, AddressingMode::Relative);
        assert_eq!(cost(entry.code, entry.cycles, false, false), 2);
        assert_eq!(cost(entry.code, entry.cycles, true, false), 2);
        assert_eq!(cost(entry.code, entry.cycles, false, true), 3);
        assert_eq!(cost(entry.code, entry.cycles, true, true), 4);
        for taken in [false, true] {
            let mut cpu = machine(&[opcode, 0x10, 0x00], 0x0200);
            cpu.status.set(flag, on == taken);
            assert!(cpu.step());
            assert_eq!(cpu.program_counter, if taken { 0x0212 } else { 0x0202 });
            assert_eq!(cpu.cycles, if taken { 3 } else { 2 });
        }
    }
}

#[test]
fn page_crossing_costs_a_cycle_for_loads_but_not_for_stores() {
    let mut cpu = machine(&[0xbd, 0xff, 0x02, 0x00], 0x0200);
    cpu.register_x = 1;
    assert!(cpu.step());
    assert_eq!(cpu.cycles, 5);

    let mut cpu = machine(&[0xbd, 0xfe, 0x02, 0x00], 0x0200);
    cpu.register_x = 1;
    assert!(cpu.step());
    assert_eq!(cpu.cycles, 4);

    let mut cpu = machine(&[0x9d, 0xff, 0x02, 0x00], 0x0200);
    cpu.register_x = 1;
    assert!(cpu.step());
    assert_eq!(cpu.cycles, 5);

    let mut cpu = machine(&[0xfe, 0xff, 0x02, 0x00], 0x0200);
    cpu.register_x = 1;
    assert!(cpu.step());
    assert_eq!(cpu.cycles, 7);

    let mut cpu = machine(&[0xb1, 0x10, 0x00], 0x0200);
    cpu.mem_write(0x0010, 0xff);
    cpu.mem_write(0x0011, 0x02);
    cpu.register_y = 1;
    assert!(cpu.step());
    assert_eq!(cpu.cycles, 6);
}

#[test]
fn a_run_and_its_trace_repeat_exactly() {
    let program = [0xa2, 0x03, 0xca, 0xd0, 0xfd, 0x8e, 0x00, 0x03, 0x20, 0x0c, 0x02, 0x00, 0xe8, 0x60];
    let mut first = machine(&program, 0x0200);
    let mut second = machine(&program, 0x0200);
    let a = run_traced(&mut first, 1000);
    let b = run_traced(&mut second, 1000);
    assert_eq!(a, b);
    assert_eq!(a.len(), 12);
    assert_eq!(
        a[0],
        "0200  A2 03     LDX #$03                        A:00 X:00 Y:00 P:24 SP:FD PPU:  0,  0 CYC:0"
    );
    assert_eq!(
        a[11],
        "020B  00        BRK                             A:00 X:01 Y:00 P:24 SP:FD PPU:  0,102 CYC:34"
    );
    assert_eq!(first.cycles, second.cycles);
    assert_eq!(first.program_counter, second.program_counter);
    assert_eq!(first.status.bits(), second.status.bits());
    assert_eq!(first.bus.cpu_vram, second.bus.cpu_vram);
}

#[test]
fn a_traced_run_ends_where_a_plain_run_ends() {
    let program = [0xa9, 0x07, 0x85, 0x10, 0xe6, 0x10, 0x00];
    let mut traced = machine(&program, 0x0200);
    let mut plain = machine(&program, 0x0200);
    let log = run_traced(&mut traced, 50);
    let (steps, stopped) = plain.run(50);
    assert!(stopped);
    assert_eq!(steps, 4);
    assert_eq!(log.len(), 4);
    assert_eq!(traced.cycles, plain.cycles);
    assert_eq!(traced.program_counter, plain.program_counter);
    assert_eq!(plain.bus.cpu_vram[0x10], 0x08);
}

#[test]
fn a_run_stops_at_its_limit() {
    let mut cpu = machine(&[0x4c, 0x00, 0x02], 0x0200);
    let (steps, stopped) = cpu.run(10);
    assert_eq!(steps, 10);
    assert!(!stopped);
    assert_eq!(cpu.cycles, 30);
    let (steps, stopped) = cpu.run(0);
    assert_eq!(steps, 0);
    assert!(!stopped);
    let log = run_traced(&mut cpu, 3);
    assert_eq!(log.len(), 3);
}

#[test]
fn the_callback_runs_before_each_instruction() {
    let mut cpu = machine(&[0xe8, 0xe8, 0x00], 0x0200);
    let mut seen: Vec<(u16, u8)> = vec![];
    let (steps, stopped) = cpu.run_with_callback(100, |cpu| {
        seen.push((cpu.program_counter, cpu.register_x));
    });
    assert_eq!(steps, 3);
    assert!(stopped);
    assert_eq!(seen, vec![(0x0200, 0), (0x0201, 1), (0x0202, 2)]);
}

#[test]
fn work_memory_is_mirrored_four_times() {
    let mut bus = Bus::new(rom_of(2, 0));
    for (written, value) in [(0x0000u16, 0x11u8), (0x0801, 0x22), (0x1002, 0x33), (0x1fff, 0x44)] {
        bus.mem_write(written, value);
        let cell = written & 0x07ff;
        for mirror in 0..4u16 {
            assert_eq!(bus.mem_read(cell + mirror * 0x0800), value);
        }
        assert_eq!(bus.cpu_vram[cell as usize], value);
    }
    assert_eq!(bus.mem_read(0x0001), 0x22);
    assert_eq!(bus.mem_read(0x0003), 0x00);
    assert_eq!(bus.fault, None);
}

#[test]
fn words_lie_low_byte_first() {
    let mut bus = Bus::new(rom_of(2, 0));
    bus.mem_write_u16(0x0010, 0xabcd);
    assert_eq!(bus.mem_read(0x0010), 0xcd);
    assert_eq!(bus.mem_read(0x0011), 0xab);
    assert_eq!(bus.mem_read_u16(0x0010), 0xabcd);
    bus.mem_write(0x07ff, 0x34);
    bus.mem_write(0x0000, 0x12);
    assert_eq!(bus.mem_read_u16(0x07ff), 0x1234);
}

#[test]
fn program_data_is_read_through_its_window() {
    let mut rom = rom_of(2, 0);
    rom.prg_rom[0] = 0xaa;
    rom.prg_rom[0x3fff] = 0xbb;
    rom.prg_rom[0x4000] = 0xcc;
    rom.prg_rom[0x7fff] = 0xdd;
    let mut bus = Bus::new(rom);
    assert_eq!(bus.mem_read(0x8000), 0xaa);
    assert_eq!(bus.mem_read(0xbfff), 0xbb);
    assert_eq!(bus.mem_read(0xc000), 0xcc);
    assert_eq!(bus.mem_read(0xffff), 0xdd);
    assert_eq!(bus.read_rom(0xc000), 0xcc);
    assert_eq!(bus.fault, None);
}

#[test]
fn a_single_bank_is_mirrored_into_the_upper_half() {
    let mut rom = rom_of(1, 0);
    rom.prg_rom[0] = 0xaa;
    rom.prg_rom[0x3ffc] = 0x34;
    rom.prg_rom[0x3ffd] = 0x12;
    let mut bus = Bus::new(rom);
    assert_eq!(bus.mem_read(0x8000), 0xaa);
    assert_eq!(bus.mem_read(0xc000), 0xaa);
    assert_eq!(bus.read_rom(0xc000), 0xaa);
    assert_eq!(bus.mem_read_u16(0xfffc), 0x1234);
    assert_eq!(bus.mem_read_u16(0xbffc), 0x1234);
    assert_eq!(bus.fault, None);
}

#[test]
fn unmapped_addresses_read_zero_and_ignore_writes() {
    let mut bus = Bus::new(rom_of(2, 0xff));
    for addr in [0x4000u16, 0x4015, 0x4017, 0x5000, 0x6000, 0x7fff, 0x2000, 0x2001, 0x2003, 0x2005, 0x2006, 0x4014] {
        assert_eq!(bus.mem_read(addr), 0);
    }
    for addr in [0x4000u16, 0x4015, 0x4017, 0x5000, 0x6000, 0x7fff, 0x2002] {
        bus.mem_write(addr, 0x77);
        assert_eq!(bus.mem_read(addr), 0);
    }
    assert_eq!(bus.fault, None);
    assert_eq!(bus.cpu_vram, [0u8; 2048]);
}

#[test]
fn a_write_into_the_program_window_is_a_fault() {
    let mut bus = Bus::new(rom_of(2, 0x55));
    bus.mem_write(0x8000, 0x01);
    assert_eq!(bus.fault, Some(Fault::RomWrite));
    assert_eq!(bus.mem_read(0x8000), 0x55);
    let mut bus = Bus::new(rom_of(2, 0x55));
    bus.mem_write(0xffff, 0x01);
    assert_eq!(bus.fault, Some(Fault::RomWrite));
    assert_eq!(bus.prg_rom, vec![0x55u8; 0x8000]);
}

#[test]
fn a_read_beyond_the_program_data_is_a_fault() {
    let mut bus = Bus::new(rom_of(0, 0));
    assert!(!bus.can_read_rom(0x8000));
    assert_eq!(bus.mem_read(0x8000), 0);
    assert_eq!(bus.fault, Some(Fault::RomRead));
    assert_eq!(bus.mem_read_debugging(0x8000), 0);
}

#[test]
fn the_first_fault_stays_on_record() {
    let mut bus = Bus::new(rom_of(0, 0));
    bus.mem_write(0x9000, 1);
    bus.mem_read(0x9000);
    assert_eq!(bus.fault, Some(Fault::RomWrite));
    bus.raise(Fault::PpuData);
    assert_eq!(bus.fault, Some(Fault::RomWrite));
}

#[test]
fn a_step_that_faults_stops_the_run() {
    let mut cpu = machine(&[0xa9, 0x01, 0x8d, 0x00, 0x80, 0xe8, 0x00], 0x0200);
    assert!(cpu.step());
    assert!(!cpu.step());
    assert_eq!(cpu.fault(), Some(Fault::RomWrite));
    assert_eq!(cpu.program_counter, 0x0205);
    assert_eq!(cpu.cycles, 6);
    assert!(!cpu.step());
    assert_eq!(cpu.program_counter, 0x0205);
    assert_eq!(cpu.register_x, 0);
    assert_eq!(cpu.cycles, 6);
    let (steps, stopped) = cpu.run(5);
    assert_eq!((steps, stopped), (1, true));
}

#[test]
fn the_break_sets_the_unused_bit_and_costs_nothing() {
    let mut cpu = machine(&[0x00], 0x0200);
    cpu.status = Flags::from_bits_truncate(0);
    assert!(!cpu.step());
    assert_eq!(cpu.status.bits(), BREAKONE);
    assert_eq!(cpu.program_counter, 0x0201);
    assert_eq!(cpu.cycles, 0);
    assert_eq!(cpu.fault(), None);
}

#[test]
fn each_cycle_is_three_dots() {
    let mut bus = Bus::new(rom_of(2, 0));
    bus.tick(1);
    assert_eq!((bus.ppu.scanline, bus.ppu.cycles), (0, 3));
    bus.tick(113);
    assert_eq!((bus.ppu.scanline, bus.ppu.cycles), (1, 1));
    bus.tick(0);
    assert_eq!((bus.ppu.scanline, bus.ppu.cycles), (1, 1));
    bus.tick(1000);
    assert_eq!((bus.ppu.scanline, bus.ppu.cycles), (9, 273));
}

#[test]
fn power_up_state() {
    let cpu = Cpu::new(Bus::new(rom_of(2, 0)));
    assert_eq!(cpu.accumulator, 0);
    assert_eq!(cpu.register_x, 0);
    assert_eq!(cpu.register_y, 0);
    assert_eq!(cpu.stack_pointer, 0xfd);
    assert_eq!(cpu.program_counter, 0);
    assert_eq!(cpu.status.bits(), 0x24);
    assert!(cpu.status.contains(BREAKONE));
    assert!(cpu.status.contains(INTERDIS));
    assert_eq!(cpu.cycles, 0);
    assert_eq!(cpu.interrupt, None);
    assert_eq!(cpu.bus.fault, None);
}

#[test]
fn reset_restores_registers_and_follows_the_vector() {
    let mut rom = rom_of(2, 0);
    rom.prg_rom[0x7ffc] = 0x34;
    rom.prg_rom[0x7ffd] = 0x92;
    let mut cpu = Cpu::new(Bus::new(rom));
    cpu.accumulator = 1;
    cpu.register_x = 2;
    cpu.register_y = 3;
    cpu.stack_pointer = 0x10;
    cpu.status = Flags::from_bits_truncate(0xff);
    cpu.cycles = 1234;
    cpu.reset();
    assert_eq!(cpu.accumulator, 0);
    assert_eq!(cpu.register_x, 0);
    assert_eq!(cpu.register_y, 0);
    assert_eq!(cpu.stack_pointer, 0xfd);
    assert_eq!(cpu.status.bits(), 0x24);
    assert_eq!(cpu.program_counter, 0x9234);
    assert_eq!(cpu.cycles, 7);
    assert_eq!((cpu.bus.ppu.scanline, cpu.bus.ppu.cycles), (0, 21));
}

#[test]
fn load_places_the_program_and_the_reset_vector() {
    let mut cpu = Cpu::new(Bus::new(rom_of(2, 0xea)));
    cpu.load(vec![0xa9, 0x05, 0x00]);
    assert_eq!(cpu.mem_read(0x8600), 0xa9);
    assert_eq!(cpu.mem_read(0x8601), 0x05);
    assert_eq!(cpu.mem_read(0x8602), 0x00);
    assert_eq!(cpu.mem_read(0x8603), 0xea);
    assert_eq!(cpu.mem_read(0x85ff), 0xea);
    assert_eq!(cpu.mem_read_u16(0xfffc), ROM_START);
    assert_eq!(ROM_START, 0x8600);
    assert_eq!(cpu.fault(), None);
    cpu.reset();
    assert_eq!(cpu.program_counter, 0x8600);
}

#[test]
fn load_into_a_single_bank() {
    let mut cpu = Cpu::new(Bus::new(rom_of(1, 0xea)));
    cpu.load(vec![0xe8, 0x00]);
    assert_eq!(cpu.mem_read(0x8600), 0xe8);
    assert_eq!(cpu.mem_read(0xc600), 0xe8);
    assert_eq!(cpu.mem_read_u16(0xfffc), 0x8600);
    assert_eq!(cpu.bus.prg_rom[0x3ffc], 0x00);
    assert_eq!(cpu.bus.prg_rom[0x3ffd], 0x86);
}

#[test]
fn load_and_run_executes_the_program() {
    let mut cpu = Cpu::new(Bus::new(rom_of(2, 0)));
    let (steps, stopped) = cpu.load_and_run(vec![0xa9, 0xc0, 0xaa, 0xe8, 0x00], 100);
    assert_eq!((steps, stopped), (4, true));
    assert_eq!(cpu.accumulator, 0xc0);
    assert_eq!(cpu.register_x, 0xc1);
    assert_eq!(cpu.program_counter, 0x8605);
    assert_eq!(cpu.cycles, 7 + 2 + 2 + 2);
}

#[test]
fn interrupt_delivery() {
    let mut rom = rom_of(2, 0);
    rom.prg_rom[0x7ffa] = 0x00;
    rom.prg_rom[0x7ffb] = 0x90;
    let mut cpu = Cpu::new(Bus::new(rom));
    cpu.program_counter = 0x1234;
    cpu.status = Flags::from_bits_truncate(CARRY | BREAKONE);
    cpu.interrupt(Interrupt::new_nmi());
    assert_eq!(cpu.program_counter, 0x9000);
    assert_eq!(cpu.stack_pointer, 0xfa);
    assert_eq!(cpu.mem_read(0x01fd), 0x12);
    assert_eq!(cpu.mem_read(0x01fc), 0x34);
    assert_eq!(cpu.mem_read(0x01fb), CARRY | BREAKONE | BREAKTWO);
    assert_eq!(cpu.status.bits(), CARRY | BREAKONE | INTERDIS);
    assert_eq!(cpu.cycles, 2);
    assert_eq!(cpu.bus.ppu.cycles, 6);
    assert_eq!(cpu.interrupt, Some(Interrupt::new_nmi()));
    cpu.return_from_interrupt();
    assert_eq!(cpu.interrupt, None);
    assert_eq!(cpu.program_counter, 0x9000);
    assert_eq!(cpu.stack_pointer, 0xfa);
}

#[test]
fn interrupt_descriptors() {
    let nmi = Interrupt::new_nmi();
    assert_eq!((nmi.interrupt, nmi.addr, nmi.cycles), (INTERRUPTS::NMI, 0xfffa, 2));
    let irq = Interrupt::new_irq();
    assert_eq!((irq.interrupt, irq.addr, irq.cycles), (INTERRUPTS::IRQ, 0xfffe, 2));
    let end = Interrupt::new_frmfin();
    assert_eq!((end.interrupt, end.addr, end.cycles), (INTERRUPTS::FRMFIN, 0xfffc, 7));
}

#[test]
fn a_pending_interrupt_is_acknowledged_once() {
    let mut cpu = Cpu::new(Bus::new(rom_of(2, 0)));
    assert!(cpu.ppu_ready().is_none());
    cpu.bus.ppu.interrupt = Some(Interrupt::new_nmi());
    cpu.interrupt(Interrupt::new_nmi());
    let oam_addr = cpu.ppu_ready().map(|ppu| ppu.oam_addr);
    assert_eq!(oam_addr, Some(0));
    assert_eq!(cpu.interrupt, None);
    assert_eq!(cpu.bus.ppu.interrupt, None);
    assert!(cpu.ppu_ready().is_none());
}

#[test]
fn the_table_is_total_and_lengths_follow_the_modes() {
    for opcode in 0..=255u8 {
        let entry = lookup(opcode);
        let operand = match entry.mode {
            AddressingMode::Accumulator | AddressingMode::Implied | AddressingMode::NoneAddressing => 0,
            AddressingMode::Absolute
            | AddressingMode::Absolute_X
            | AddressingMode::Absolute_Y
            | AddressingMode::Jump
            | AddressingMode::JumpIndirect => 2,
            _ => 1,
        };
        assert_eq!(entry.bytes, 1 + operand);
        let mut cpu = machine(&[opcode, 0x10, 0x02], 0x0300);
        cpu.step();
        assert_eq!(cpu.fault(), None);
        if !matches!(
            entry.code,
            Code::JMP | Code::JSR | Code::RTS | Code::RTI | Code::BCC | Code::BCS | Code::BEQ
                | Code::BNE | Code::BMI | Code::BPL | Code::BVC | Code::BVS
        ) {
            assert_eq!(cpu.program_counter, 0x0300 + entry.bytes);
        }
    }
    let lda = lookup(0xa9);
    assert_eq!((lda.code, lda.bytes, lda.cycles, lda.mode), (Code::LDA, 2, 2, AddressingMode::Immediate));
    let isc = lookup(0xf3);
    assert_eq!((isc.code, isc.bytes, isc.cycles, isc.mode), (Code::ISC_U, 2, 8, AddressingMode::Indirect_Y));
    let kil = lookup(0x02);
    assert_eq!((kil.code, kil.bytes, kil.cycles, kil.mode), (Code::KIL_U, 1, 0, AddressingMode::Implied));
}

#[test]
fn operand_resolution_by_mode() {
    let mut cpu = machine(&[0x80, 0x02], 0x0200);
    cpu.register_x = 0x90;
    cpu.register_y = 0x01;
    cpu.mem_write(0x0010, 0x34);
    cpu.mem_write(0x0011, 0x12);
    cpu.mem_write(0x0080, 0xff);
    cpu.mem_write(0x0081, 0x02);
    assert_eq!(cpu.get_operand_address(&AddressingMode::Immediate), (Some(0x0200), 1, false));
    assert_eq!(cpu.get_operand_address(&AddressingMode::ZeroPage), (Some(0x0080), 1, false));
    assert_eq!(cpu.get_operand_address(&AddressingMode::ZeroPage_X), (Some(0x0010), 1, false));
    assert_eq!(cpu.get_operand_address(&AddressingMode::ZeroPage_Y), (Some(0x0081), 1, false));
    assert_eq!(cpu.get_operand_address(&AddressingMode::Absolute), (Some(0x0280), 2, false));
    assert_eq!(cpu.get_operand_address(&AddressingMode::Jump), (Some(0x0280), 2, false));
    assert_eq!(cpu.get_operand_address(&AddressingMode::Absolute_X), (Some(0x0310), 2, true));
    assert_eq!(cpu.get_operand_address(&AddressingMode::Absolute_Y), (Some(0x0281), 2, false));
    assert_eq!(cpu.get_operand_address(&AddressingMode::Indirect_X), (Some(0x1234), 1, false));
    assert_eq!(cpu.get_operand_address(&AddressingMode::Indirect_Y), (Some(0x0300), 1, true));
    assert_eq!(cpu.get_operand_address(&AddressingMode::Relative), (Some(0x0181), 1, true));
    assert_eq!(cpu.get_operand_address(&AddressingMode::Accumulator), (None, 0, false));
    assert_eq!(cpu.get_operand_address(&AddressingMode::Implied), (None, 0, false));
    assert_eq!(cpu.get_operand_address(&AddressingMode::NoneAddressing), (None, 0, false));
    assert_eq!(cpu.program_counter, 0x0200);
    cpu.register_x = 0xff;
    cpu.mem_write(0x007f, 0x78);
    assert_eq!(cpu.get_operand_address(&AddressingMode::Indirect_X), (Some(0xff78), 1, false));
    cpu.mem_write(0x00ff, 0x01);
    cpu.mem_write(0x0000, 0x02);
    cpu.mem_write(0x0200, 0xff);
    assert_eq!(cpu.get_operand_address(&AddressingMode::Indirect_Y), (Some(0x0202), 1, false));
}

#[test]
fn flag_helpers() {
    let mut cpu = machine(&[], 0x0200);
    cpu.update_zero_flag(0);
    assert!(cpu.status.contains(ZERO));
    cpu.update_zero_flag(1);
    assert!(!cpu.status.contains(ZERO));
    cpu.update_negative_flag(0x80);
    assert!(cpu.status.contains(NEGATIVE));
    cpu.update_negative_flag(0x7f);
    assert!(!cpu.status.contains(NEGATIVE));
    cpu.update_carry_flag(5, 5);
    assert!(cpu.status.contains(CARRY));
    cpu.update_carry_flag(4, 5);
    assert!(!cpu.status.contains(CARRY));
    cpu.update_zero_and_negative_flag(0);
    assert_eq!(cpu.status.bits(), 0x26);
    cpu.update_zero_and_negative_flag(0xff);
    assert_eq!(cpu.status.bits(), 0xa4);
}

#[test]
fn flag_sets() {
    let mut f = Flags::empty();
    assert_eq!(f.bits(), 0);
    f.insert(0x81);
    assert!(f.contains(0x80));
    assert!(f.contains(0x81));
    assert!(!f.contains(0x83));
    f.remove(0x01);
    assert_eq!(f.bits(), 0x80);
    f.set(0x04, true);
    f.set(0x80, false);
    assert_eq!(f.bits(), 0x04);
    f.toggle(0x06);
    assert_eq!(f.bits(), 0x02);
    assert_eq!(Flags::all().bits(), 0xff);
    assert_eq!(Flags::from_bits_truncate(0x5a).bits(), 0x5a);
}
