use gb_emulator::apu::{Apu, FULL_SCALE};
use gb_emulator::cpu::registers::{Flag, Registers};
use gb_emulator::emulator::{contains_bytes, Emulator, UnimplementedOpcode, FRAME_CYCLE_LIMIT};
use gb_emulator::joypad::{bit, Button, Joypad};
use gb_emulator::memory::cartridge::{Cartridge, Mapper};
use gb_emulator::memory::{Bus, MockBus, Mmu};
use gb_emulator::ppu::{Ppu, PpuMode};
use gb_emulator::timer::Timer;

fn rom_with_program(program: &[u8]) -> Vec<u8> {
    let mut rom = vec![0u8; 0x8000];
    rom[0x0100..0x0100 + program.len()].copy_from_slice(program);
    rom
}

/// A ROM whose header asks for MBC1 with battery-backed 8 KiB RAM.
fn mbc1_rom(banks: usize) -> Vec<u8> {
    let mut rom = vec![0u8; 0x4000 * banks];
    for bank in 0..banks {
        rom[bank * 0x4000] = bank as u8;
    }
    rom[0x0147] = 0x03;
    rom[0x0149] = 0x02;
    rom
}

#[test]
fn register_pairs_read_back() {
    let mut r = Registers::new();
    r.set_bc(0xBEEF);
    r.set_de(0x1234);
    r.set_hl(0x0001);
    r.set_af(0x12FF);
    assert_eq!(r.bc(), 0xBEEF);
    assert_eq!(r.de(), 0x1234);
    assert_eq!(r.hl(), 0x0001);
    // The low nibble of F never holds anything.
    assert_eq!(r.af(), 0x12F0);
}

#[test]
fn flags_set_and_read_independently() {
    let mut r = Registers::new();
    r.set_flag(Flag::Z, false);
    r.set_flag(Flag::N, true);
    r.set_flag(Flag::H, false);
    r.set_flag(Flag::C, true);
    assert!(!r.get_flag(Flag::Z));
    assert!(r.get_flag(Flag::N));
    assert!(!r.get_flag(Flag::H));
    assert!(r.get_flag(Flag::C));
    assert_eq!(r.f, 0x50);
}

#[test]
fn mock_bus_word_round_trip() {
    let mut bus = MockBus::new();
    bus.write_word(0xC000, 0xABCD);
    assert_eq!(bus.read(0xC000), 0xCD);
    assert_eq!(bus.read(0xC001), 0xAB);
    assert_eq!(bus.read_word(0xC000), 0xABCD);
    // The top address wraps to 0.
    bus.write_word(0xFFFF, 0x1122);
    assert_eq!(bus.read(0xFFFF), 0x22);
    assert_eq!(bus.read(0x0000), 0x11);
    assert_eq!(bus.read_word(0xFFFF), 0x1122);
}

#[test]
fn echo_ram_mirrors_work_ram() {
    let mut mmu = Mmu::new();
    mmu.write(0xC123, 0x5A);
    assert_eq!(mmu.read(0xE123), 0x5A);
    mmu.write(0xFDFF, 0xA5);
    assert_eq!(mmu.read(0xDDFF), 0xA5);
    mmu.write(0xFF80, 0x11);
    mmu.write(0xFFFF, 0x1F);
    assert_eq!(mmu.read(0xFF80), 0x11);
    assert_eq!(mmu.read(0xFFFF), 0x1F);
    // The unusable area reads 0xFF and ignores writes.
    mmu.write(0xFEA0, 0x00);
    assert_eq!(mmu.read(0xFEA0), 0xFF);
}

#[test]
fn serial_transfer_collects_bytes() {
    let mut mmu = Mmu::new();
    mmu.write(0xFF01, b'O');
    mmu.write(0xFF02, 0x81);
    mmu.write(0xFF01, b'K');
    mmu.write(0xFF02, 0x81);
    assert_eq!(mmu.serial_buffer, b"OK".to_vec());
    assert_eq!(mmu.read(0xFF02), 0x01);
}

#[test]
fn timer_div_write_resets() {
    let mut t = Timer::new();
    t.step(300);
    assert_eq!(t.read(0xFF04), 1);
    t.write(0xFF04, 0x77);
    assert_eq!(t.read(0xFF04), 0);
    assert_eq!(t.div_counter, 0);
    t.write(0xFF07, 0xFD);
    assert_eq!(t.read(0xFF07), 0xFD);
    t.write(0xFF07, 0x02);
    assert_eq!(t.read(0xFF07), 0xFA);
}

#[test]
fn timer_overflow_reloads_from_tma() {
    let mut t = Timer::new();
    t.write(0xFF06, 0xAB);
    t.write(0xFF05, 0xFF);
    t.write(0xFF07, 0x05); // enabled, 16 T-cycles per tick
    t.step(16);
    assert_eq!(t.read(0xFF05), 0xAB);
    assert!(t.interrupt_request);
}

#[test]
fn timer_interrupt_reaches_if() {
    let mut mmu = Mmu::new();
    mmu.write(0xFF05, 0xFF);
    mmu.write(0xFF07, 0x05);
    mmu.tick(16);
    assert_eq!(mmu.read(0xFF0F) & 0x04, 0x04);
    assert!(!mmu.timer.interrupt_request);
}

#[test]
fn joypad_idle_reads_high_whatever_is_selected() {
    let mut p = Joypad::new();
    for select in [0x00u8, 0x10, 0x20, 0x30] {
        p.write(select);
        assert_eq!(p.read() & 0x0F, 0x0F);
        assert_eq!(p.read() & 0x30, select);
        assert_eq!(p.read() & 0xC0, 0xC0);
    }
}

#[test]
fn joypad_press_silent_when_nothing_selected() {
    let mut p = Joypad::new();
    p.write(0x30);
    p.set_state(0xFF);
    assert!(!p.interrupt_request);
    assert_eq!(p.read() & 0x0F, 0x0F);
    // Selecting the d-pad with a button held pulls a line low.
    p.write(0x20);
    assert!(p.interrupt_request);
    assert_eq!(p.read() & 0x0F, 0x00);
    assert_eq!(bit(Button::Start), 0x80);
}

#[test]
fn ppu_lcd_off_step_changes_nothing() {
    let mut p = Ppu::new();
    p.write_reg(0xFF40, 0x00);
    p.step(1000);
    assert_eq!(p.ly, 0);
    assert_eq!(p.dots, 0);
    assert_eq!(p.debug_mode(), PpuMode::HBlank);
}

#[test]
fn ppu_line_of_dots_advances_ly_and_stat_keeps_mode() {
    let mut p = Ppu::new();
    for line in 1..=153u16 {
        p.step(456);
        assert_eq!(p.ly as u16, line);
        assert_eq!(p.dots, 0);
    }
    p.step(456);
    assert_eq!(p.ly, 0);
    let before = p.read_reg(0xFF41) & 0x07;
    p.write_reg(0xFF41, 0x78);
    assert_eq!(p.read_reg(0xFF41) & 0x07, before);
    assert_eq!(p.read_reg(0xFF41) & 0x78, 0x78);
    p.write_reg(0xFF44, 7);
    assert_eq!(p.read_reg(0xFF44), 0);
}

#[test]
fn apu_off_drops_writes_but_keeps_lengths_and_wave() {
    let mut apu = Apu::new();
    apu.write_reg(0xFF24, 0x77);
    assert_eq!(apu.read_reg(0xFF24), 0x00);
    apu.write_reg(0xFF20, 0x3F);
    assert_eq!(apu.ch4.length.counter, 1);
    apu.write_reg(0xFF30, 0x9C);
    assert_eq!(apu.read_reg(0xFF30), 0x9C);

    apu.write_reg(0xFF26, 0x80);
    assert_eq!(apu.frame_seq_step, 7);
    apu.write_reg(0xFF11, 0x3E);
    apu.write_reg(0xFF26, 0x00);
    assert_eq!(apu.ch1.length.counter, 2);
    assert_eq!(apu.ch4.length.counter, 1);
    assert_eq!(apu.read_reg(0xFF30), 0x9C);
    assert_eq!(apu.read_reg(0xFF26), 0x70);
}

#[test]
fn apu_levels_sum_routed_channels_times_volume() {
    let mut apu = Apu::new();
    assert_eq!(apu.current_sample(), (0, 0));
    apu.write_reg(0xFF26, 0x80);
    apu.write_reg(0xFF24, 0x77);
    apu.write_reg(0xFF25, 0xFF);
    for i in 0..16u16 {
        apu.write_reg(0xFF30 + i, 0xFF);
    }
    apu.write_reg(0xFF1A, 0x80);
    apu.write_reg(0xFF1C, 0x20);
    apu.write_reg(0xFF1E, 0x80);
    // Wave output 15 at full volume, master volume 8 on both sides.
    assert_eq!(apu.current_sample(), (120, 120));
    // Route channel 3 to the left only, at master volume 1 on the right.
    apu.write_reg(0xFF25, 0x40);
    apu.write_reg(0xFF24, 0x70);
    assert_eq!(apu.current_sample(), (120, 0));
    assert!(120 <= FULL_SCALE);
}

#[test]
fn apu_emits_samples_at_the_sample_rate() {
    let mut apu = Apu::new();
    apu.set_sample_rate(1024);
    apu.step(4096 * 10);
    assert_eq!(apu.take_samples().len(), 20);
    assert!(apu.take_samples().is_empty());
}

#[test]
fn mbc1_bank_zero_selects_bank_one() {
    let mut cart = Cartridge::from_rom(mbc1_rom(4));
    assert!(matches!(cart.mapper, Mapper::Mbc1(_)));
    assert!(cart.has_battery);
    assert_eq!(cart.ram().len(), 0x2000);
    assert_eq!(cart.read_rom(0x4000), 1);
    cart.write_rom(0x2000, 3);
    assert_eq!(cart.read_rom(0x4000), 3);
    cart.write_rom(0x2000, 0);
    assert_eq!(cart.read_rom(0x4000), 1);
    assert_eq!(cart.read_rom(0x0000), 0);
}

#[test]
fn mbc1_ram_needs_enable_and_reads_back() {
    let mut cart = Cartridge::from_rom(mbc1_rom(2));
    cart.write_ram(0xA000, 0x42);
    assert_eq!(cart.read_ram(0xA000), 0xFF);
    cart.write_rom(0x0000, 0x0A);
    cart.write_ram(0xA000, 0x42);
    assert_eq!(cart.read_ram(0xA000), 0x42);
    cart.write_rom(0x0000, 0x00);
    assert_eq!(cart.read_ram(0xA000), 0xFF);
}

#[test]
fn mbc3_rtc_register_reads_zero() {
    let mut rom = vec![0u8; 0x8000];
    rom[0x0147] = 0x10;
    rom[0x0149] = 0x02;
    let mut cart = Cartridge::from_rom(rom);
    assert!(matches!(cart.mapper, Mapper::Mbc3(_)));
    cart.write_rom(0x0000, 0x0A);
    cart.write_rom(0x4000, 0x08);
    assert_eq!(cart.read_ram(0xA000), 0x00);
    cart.write_rom(0x4000, 0x00);
    cart.write_ram(0xA000, 0x99);
    assert_eq!(cart.read_ram(0xA000), 0x99);
}

#[test]
fn load_ram_refuses_wrong_size() {
    let mut cart = Cartridge::from_rom(mbc1_rom(2));
    let err = cart.load_ram(&[1, 2, 3]).unwrap_err();
    assert_eq!(err, "save file size mismatch: file is 3 bytes, cartridge expects 8192");
    let data: Vec<u8> = (0..0x2000u32).map(|i| (i % 251) as u8).collect();
    cart.load_ram(&data).unwrap();
    assert_eq!(cart.ram(), &data[..]);
    let empty = Cartridge::empty();
    assert!(empty.ram().is_empty());
    assert_eq!(empty.read_rom(0x7FFF), 0);
}

#[test]
fn save_payload_only_for_battery_ram() {
    let emu = Emulator::new(&mbc1_rom(2));
    assert!(emu.has_battery());
    assert_eq!(emu.save_payload(), Some(vec![0u8; 0x2000]));
    let plain = Emulator::new(&rom_with_program(&[0x00]));
    assert!(!plain.has_battery());
    assert_eq!(plain.save_payload(), None);
}

#[test]
fn emulator_step_ticks_devices() {
    let mut emu = Emulator::new(&rom_with_program(&[0x00, 0x00]));
    assert_eq!(emu.cpu.regs.pc, 0x0100);
    assert_eq!(emu.step(), 4);
    assert_eq!(emu.cpu.bus.ppu.dots, 4);
    assert_eq!(emu.try_step(), Ok(4));
    assert_eq!(emu.cpu.regs.pc, 0x0102);
}

#[test]
fn run_frame_stops_at_vblank_and_clears_flag() {
    let mut emu = Emulator::new(&rom_with_program(&[]));
    let spent = emu.run_frame().unwrap();
    assert_eq!(spent, 144 * 456);
    assert!(!emu.cpu.bus.ppu.frame_ready);
    assert_eq!(emu.cpu.bus.ppu.ly, 144);
    let next = emu.run_frame().unwrap();
    assert_eq!(next, 154 * 456);
    assert!(next < FRAME_CYCLE_LIMIT + 24);
}

#[test]
fn run_frame_with_lcd_off_hits_the_budget() {
    // LD A,0; LDH (0x40),A turns the LCD off; then JR -2 forever.
    let mut emu = Emulator::new(&rom_with_program(&[0x3E, 0x00, 0xE0, 0x40, 0x18, 0xFE]));
    let spent = emu.run_frame().unwrap();
    assert!(spent >= FRAME_CYCLE_LIMIT);
    assert!(spent < FRAME_CYCLE_LIMIT + 24);
}

#[test]
fn unimplemented_opcode_is_reported() {
    let mut emu = Emulator::new(&rom_with_program(&[0x00, 0xD3]));
    assert_eq!(emu.try_step(), Ok(4));
    let expected = UnimplementedOpcode { opcode: 0xD3, pc: 0x0101 };
    assert_eq!(emu.try_step(), Err(expected));
    assert_eq!(emu.cpu.regs.pc, 0x0101);
    assert_eq!(emu.run_frame(), Err(expected));
    assert_eq!(emu.run_blargg(1000), Err(expected));
}

fn serial_program(text: &[u8]) -> Vec<u8> {
    let mut p = Vec::new();
    for &c in text {
        p.extend_from_slice(&[0x3E, c, 0xE0, 0x01, 0x3E, 0x81, 0xE0, 0x02]);
    }
    p.extend_from_slice(&[0x18, 0xFE]);
    p
}

#[test]
fn run_blargg_stops_after_verdict() {
    let mut emu = Emulator::new(&rom_with_program(&serial_program(b"Passed")));
    let spent = emu.run_blargg(10_000_000).unwrap();
    assert_eq!(emu.cpu.bus.serial_buffer, b"Passed".to_vec());
    assert!(emu.serial_reports_verdict());
    assert!(spent < 10_000_000);
    // Each serial byte takes four instructions (40 T-cycles), then the
    // drain runs 2000 JR loops of 12 T-cycles.
    assert_eq!(spent, 6 * 40 + 2000 * 12);
}

#[test]
fn run_blargg_without_verdict_runs_the_budget() {
    let mut emu = Emulator::new(&rom_with_program(&serial_program(b"Hi")));
    let spent = emu.run_blargg(5000).unwrap();
    assert!(spent >= 5000 && spent < 5024);
    assert!(!emu.serial_reports_verdict());
}

#[test]
fn contains_bytes_finds_runs() {
    assert!(contains_bytes(b"xxFailedyy", b"Failed"));
    assert!(!contains_bytes(b"Faile", b"Failed"));
    assert!(contains_bytes(b"abc", b""));
    assert!(!contains_bytes(b"", b"a"));
    assert!(contains_bytes(b"Passed", b"Passed"));
}

#[test]
fn trace_record_shows_registers_and_pc_bytes() {
    let mut emu = Emulator::new(&rom_with_program(&[0x3E, 0x12, 0x06, 0x34]));
    assert!(emu.cpu.trace_record().is_none());
    emu.cpu.trace = true;
    let t = emu.cpu.trace_record().unwrap();
    assert_eq!(t.regs.pc, 0x0100);
    assert_eq!(t.regs.a, 0x01);
    assert_eq!(t.pcmem, [0x3E, 0x12, 0x06, 0x34]);
    emu.cpu.halted = true;
    assert!(emu.cpu.trace_record().is_none());
}

#[test]
fn interrupt_dispatch_pushes_pc_and_jumps() {
    let mut bus = MockBus::new();
    bus.write(0xFFFF, 0x04);
    bus.write(0xFF0F, 0x04);
    let mut cpu = gb_emulator::cpu::Cpu::new(bus);
    cpu.ime = true;
    assert_eq!(cpu.step(), 20);
    assert_eq!(cpu.regs.pc, 0x0050);
    assert_eq!(cpu.regs.sp, 0xFFFC);
    assert_eq!(cpu.bus.read_word(0xFFFC), 0x0100);
    assert_eq!(cpu.bus.read(0xFF0F), 0x00);
    assert!(!cpu.ime);
}

#[test]
fn daa_adjusts_after_bcd_add() {
    // LD A,0x45; ADD A,0x38; DAA -> 0x83
    let mut bus = MockBus::new();
    bus.load(0x0100, &[0x3E, 0x45, 0xC6, 0x38, 0x27]);
    let mut cpu = gb_emulator::cpu::Cpu::new(bus);
    cpu.step();
    cpu.step();
    cpu.step();
    assert_eq!(cpu.regs.a, 0x83);
    assert!(!cpu.regs.get_flag(Flag::C));
}

#[test]
fn oam_dma_source_page_from_hram_region_reads_io() {
    let mut mmu = Mmu::new();
    mmu.write(0xFF46, 0xFF);
    assert_eq!(mmu.read(0xFF46), 0xFF);
    assert_eq!(mmu.read(0xFE00 + 0x80), mmu.read(0xFF80));
}

#[test]
fn ei_takes_effect_after_next_instruction() {
    let mut bus = MockBus::new();
    bus.load(0x0100, &[0xFB, 0x00, 0x00]);
    let mut cpu = gb_emulator::cpu::Cpu::new(bus);
    cpu.step();
    assert!(!cpu.ime);
    cpu.step();
    assert!(cpu.ime);
}

#[test]
fn halt_wakes_on_pending_interrupt_without_ime() {
    let mut bus = MockBus::new();
    bus.load(0x0100, &[0x76, 0x00]);
    let mut cpu = gb_emulator::cpu::Cpu::new(bus);
    assert_eq!(cpu.step(), 4);
    assert!(cpu.halted);
    assert_eq!(cpu.step(), 4);
    assert!(cpu.halted);
    assert_eq!(cpu.regs.pc, 0x0101);
    cpu.bus.write(0xFFFF, 0x01);
    cpu.bus.write(0xFF0F, 0x01);
    assert_eq!(cpu.step(), 4);
    assert!(!cpu.halted);
    assert_eq!(cpu.regs.pc, 0x0101);
}

#[test]
fn frame_sequencer_counter_runs_while_off() {
    let mut apu = Apu::new();
    apu.step(5000);
    assert_eq!(apu.frame_seq_counter, 5000);
    apu.write_reg(0xFF26, 0x80);
    apu.step(3191);
    assert_eq!(apu.frame_seq_step, 7);
    apu.step(1);
    assert_eq!(apu.frame_seq_step, 0);
    assert_eq!(apu.frame_seq_counter, 0);
}

#[test]
fn full_frame_returns_to_same_line() {
    let mut p = Ppu::new();
    p.step(5 * 456);
    assert_eq!(p.ly, 5);
    p.step(70224);
    assert_eq!(p.ly, 5);
    assert_eq!(p.dots, 0);
    assert_eq!(p.debug_mode(), PpuMode::OamScan);
}

#[test]
fn length_enable_in_first_half_clocks_once() {
    let mut apu = Apu::new();
    apu.write_reg(0xFF26, 0x80);
    apu.write_reg(0xFF12, 0xF0);
    apu.write_reg(0xFF11, 0x3D); // counter 3
    apu.write_reg(0xFF14, 0x80); // trigger, length off
    assert!(apu.ch1.enabled);
    apu.step(8192); // step 0 dispatched: the next step (1) does not clock length
    assert_eq!(apu.frame_seq_step, 0);
    apu.write_reg(0xFF14, 0x40);
    assert!(apu.ch1.length.enabled);
    assert_eq!(apu.ch1.length.counter, 2);
    // Writing the bit while it is already set does not clock again.
    apu.write_reg(0xFF14, 0x40);
    assert_eq!(apu.ch1.length.counter, 2);
    apu.write_reg(0xFF14, 0x00);
    apu.write_reg(0xFF14, 0x40);
    assert_eq!(apu.ch1.length.counter, 1);
    apu.write_reg(0xFF14, 0x00);
    apu.write_reg(0xFF14, 0x40);
    assert_eq!(apu.ch1.length.counter, 0);
    assert!(!apu.ch1.enabled);
}

#[test]
fn length_enable_in_second_half_does_not_clock() {
    let mut apu = Apu::new();
    apu.write_reg(0xFF26, 0x80);
    apu.write_reg(0xFF21, 0xF0);
    apu.write_reg(0xFF20, 0x3D); // counter 3
    apu.write_reg(0xFF23, 0x80);
    apu.step(8192 * 2); // step 1: the next step (2) clocks length
    assert_eq!(apu.frame_seq_step, 1);
    apu.write_reg(0xFF23, 0x40);
    assert_eq!(apu.ch4.length.counter, 3);
    assert!(apu.ch4.enabled);
}

#[test]
fn apu_registers_writable_with_zero_sample_rate() {
    let mut apu = Apu::new();
    apu.set_sample_rate(0);
    apu.write_reg(0xFF26, 0x80);
    apu.write_reg(0xFF24, 0x35);
    assert_eq!(apu.read_reg(0xFF24), 0x35);
}

#[test]
fn unsupported_mapper_type_is_reported() {
    let mut rom = vec![0u8; 0x8000];
    assert_eq!(Cartridge::unsupported_mapper_type(&rom), None);
    rom[0x0147] = 0x13;
    assert_eq!(Cartridge::unsupported_mapper_type(&rom), None);
    rom[0x0147] = 0x19;
    assert_eq!(Cartridge::unsupported_mapper_type(&rom), Some(0x19));
    let cart = Cartridge::from_rom(rom);
    assert!(matches!(cart.mapper, Mapper::RomOnly));
    assert_eq!(Cartridge::unsupported_mapper_type(&[]), None);
}

#[test]
fn ppu_steps_compose() {
    for (a, b) in [(100u32, 300u32), (79, 1), (80, 172), (251, 456 * 150), (456 * 143 + 455, 2)] {
        let mut p1 = Ppu::new();
        let mut p2 = Ppu::new();
        p1.step(a);
        p1.step(b);
        p2.step(a + b);
        assert_eq!(p1.ly, p2.ly);
        assert_eq!(p1.dots, p2.dots);
        assert_eq!(p1.debug_mode(), p2.debug_mode());
        assert_eq!(p1.vblank_irq, p2.vblank_irq);
        assert_eq!(p1.frame_ready, p2.frame_ready);
        assert_eq!(p1.read_reg(0xFF41), p2.read_reg(0xFF41));
        assert!(p1.framebuffer[..] == p2.framebuffer[..]);
    }
}

#[test]
fn tick_keeps_pending_if_bits() {
    let mut mmu = Mmu::new();
    mmu.write(0xFF0F, 0xE8);
    mmu.tick(4);
    assert_eq!(mmu.read(0xFF0F), 0xE8);
    mmu.write(0xFF05, 0xFF);
    mmu.write(0xFF07, 0x05);
    mmu.tick(16);
    assert_eq!(mmu.read(0xFF0F), 0xEC);
}

fn run_bcd(program: &[u8]) -> gb_emulator::cpu::Cpu<MockBus> {
    let mut bus = MockBus::new();
    bus.load(0x0100, program);
    let mut cpu = gb_emulator::cpu::Cpu::new(bus);
    for _ in 0..3 {
        cpu.step();
    }
    cpu
}

#[test]
fn daa_wraps_bcd_sum_at_100() {
    // LD A,0x99; ADD A,0x01; DAA -> 0x00 with carry
    let cpu = run_bcd(&[0x3E, 0x99, 0xC6, 0x01, 0x27]);
    assert_eq!(cpu.regs.a, 0x00);
    assert!(cpu.regs.get_flag(Flag::C));
    assert!(cpu.regs.get_flag(Flag::Z));
    assert!(!cpu.regs.get_flag(Flag::H));
    assert!(!cpu.regs.get_flag(Flag::N));
}

#[test]
fn daa_adjusts_bcd_difference() {
    // LD A,0x45; SUB 0x38; DAA -> 0x07
    let cpu = run_bcd(&[0x3E, 0x45, 0xD6, 0x38, 0x27]);
    assert_eq!(cpu.regs.a, 0x07);
    assert!(!cpu.regs.get_flag(Flag::C));
    // LD A,0x00; SUB 0x01; DAA -> 0x99 with borrow
    let cpu = run_bcd(&[0x3E, 0x00, 0xD6, 0x01, 0x27]);
    assert_eq!(cpu.regs.a, 0x99);
    assert!(cpu.regs.get_flag(Flag::C));
    assert!(cpu.regs.get_flag(Flag::N));
}

#[test]
fn channel_ticks_compose() {
    let mut apu = Apu::new();
    apu.write_reg(0xFF26, 0x80);
    apu.write_reg(0xFF12, 0xF0);
    apu.write_reg(0xFF13, 0x34);
    apu.write_reg(0xFF14, 0x85);
    for (a, b) in [(1u32, 2u32), (100, 3000), (7000, 1)] {
        let mut c1 = apu.ch1;
        let mut c2 = apu.ch1;
        c1.tick(a);
        c1.tick(b);
        c2.tick(a + b);
        assert_eq!(c1.freq_timer, c2.freq_timer);
        assert_eq!(c1.duty_step, c2.duty_step);
        assert!(c1.duty_step < 8);
        assert!(c1.freq_timer <= (2048 - c1.freq as u32) * 4);
    }
}
