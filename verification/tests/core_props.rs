//! Boundary cases and scenarios: SP-relative wrap-around, INC (HL) at 0xFF,
//! the JR self-loop, timer overflow and the DIV write glitch, the EI delay,
//! the APU power cycle, save-state round trips and the error paths.

use rusty_gb_emu::apu::{NR50, NR51};
use rusty_gb_emu::bus::Bus;
use rusty_gb_emu::cpu::{Cpu, StepError};
use rusty_gb_emu::savestate::load_state;
use rusty_gb_emu::timer::{Timer, TimerAddress};

fn cpu_with_program(at: u16, bytes: &[u8]) -> Cpu {
    let mut cpu = Cpu::new(Bus::with_bytes(vec![]));
    let mut addr = at;
    for &b in bytes {
        cpu.bus.write(addr, b);
        addr = addr.wrapping_add(1);
    }
    cpu.registers.pc = at;
    cpu
}

#[test]
fn test_add_sp_wraps() {
    // ADD SP,-1 from SP=0x0000 wraps to 0xFFFF; H and C come from the low
    // byte of SP against the unsigned immediate: 0x00 + 0xFF carries
    // nothing, so both stay clear.
    let mut cpu = cpu_with_program(0xC000, &[0xE8, 0xFF]);
    cpu.registers.sp = 0x0000;
    cpu.ticks = 0;
    cpu.step().unwrap();
    assert_eq!(cpu.registers.sp, 0xFFFF);
    assert_eq!(cpu.registers.flags.byte, 0x00);
    assert_eq!(cpu.ticks / 4, 4);

    // The carry boundary itself: SP=0xFFFF plus +1 wraps to 0x0000 with
    // both H and C set.
    let mut cpu = cpu_with_program(0xC000, &[0xE8, 0x01]);
    cpu.registers.sp = 0xFFFF;
    cpu.step().unwrap();
    assert_eq!(cpu.registers.sp, 0x0000);
    assert_eq!(cpu.registers.flags.byte, 0x30);
}

#[test]
fn test_inc_hl_mem_overflow() {
    // INC (HL) with (HL)=0xFF: result 0x00, Z=1, H=1, C untouched.
    let mut cpu = cpu_with_program(0xC000, &[0x34]);
    cpu.registers.h = 0xC1;
    cpu.registers.l = 0x00;
    cpu.registers.flags.byte = 0x10;
    cpu.bus.write(0xC100, 0xFF);
    cpu.step().unwrap();
    assert_eq!(cpu.bus.read(0xC100), 0x00);
    assert_eq!(cpu.registers.flags.byte, 0xB0);
}

#[test]
fn test_jr_self_loop() {
    // JR -2 jumps back onto itself: PC is unchanged after the step.
    let mut cpu = cpu_with_program(0xC000, &[0x18, 0xFE]);
    cpu.ticks = 0;
    cpu.step().unwrap();
    assert_eq!(cpu.registers.pc, 0xC000);
    assert_eq!(cpu.ticks / 4, 3);
}

#[test]
fn test_tima_overflow_window() {
    // TIMA at 0xFF with TAC=0b101: after 16 t-cycles TIMA reads 0x00 for
    // four t-cycles, then equals TMA with the Timer IF bit set.
    let mut cpu = Cpu::new(Bus::with_bytes(vec![]));
    cpu.bus.io.timer.tac = 0b101;
    cpu.bus.io.timer.tima = 0xFF;
    cpu.bus.io.timer.tma = 0x42;
    cpu.bus.io.timer.div = 0;
    cpu.update_cycles(4);
    assert_eq!(cpu.bus.read(0xFF05), 0x00);
    assert_eq!(cpu.bus.io.interrupts.int_flags & 0x04, 0);
    cpu.update_cycles(1);
    assert_eq!(cpu.bus.read(0xFF05), 0x42);
    assert_ne!(cpu.bus.io.interrupts.int_flags & 0x04, 0);
}

#[test]
fn test_tima_write_cancels_reload() {
    let mut t = Timer {
        div: 0,
        tima: 0xFF,
        tma: 0x42,
        tac: 0b101,
        reload_countdown: 0,
    };
    for _ in 0..16 {
        t.tick();
    }
    assert_eq!(t.read(TimerAddress::Tima), 0);
    t.write(TimerAddress::Tima, 0x07);
    for _ in 0..8 {
        t.tick();
    }
    assert_eq!(t.read(TimerAddress::Tima), 0x07);
    assert_eq!(t.tma, 0x42);
}

#[test]
fn test_div_write_glitch() {
    // Writing DIV while the selected bit is one is a falling edge: TIMA
    // increments once.
    let mut cpu = Cpu::new(Bus::with_bytes(vec![]));
    cpu.bus.io.timer.tac = 0b101;
    cpu.bus.io.timer.div = 0x0008;
    cpu.bus.io.timer.tima = 5;
    cpu.bus.write(0xFF04, 0x99);
    assert_eq!(cpu.bus.read(0xFF04), 0x00);
    assert_eq!(cpu.bus.read(0xFF05), 6);
}

#[test]
fn test_div_reads_counter_high_byte() {
    let mut t = Timer {
        div: 0xABCD,
        tima: 0,
        tma: 0,
        tac: 0,
        reload_countdown: 0,
    };
    assert_eq!(t.read(TimerAddress::Div), 0xAB);
    t.tick();
    assert_eq!(t.read(TimerAddress::Div), 0xAB);
    t.div = 0xFFFF;
    t.tick();
    assert_eq!(t.read(TimerAddress::Div), 0x00);
}

#[test]
fn test_ei_delay() {
    // EI; NOP with a pending, enabled interrupt: the NOP runs first, and
    // dispatch happens right after it — the pushed return address points
    // past the NOP.
    let mut cpu = cpu_with_program(0xC000, &[0xFB, 0x00, 0x00]);
    cpu.registers.sp = 0xD000;
    cpu.bus.io.interrupts.ie_register = 0x04;
    cpu.bus.io.interrupts.int_flags = 0x04;
    cpu.step().unwrap();
    assert!(cpu.bus.io.interrupts.ime);
    assert_eq!(cpu.registers.pc, 0xC001);
    cpu.step().unwrap();
    assert_eq!(cpu.registers.pc, 0x50);
    assert!(!cpu.bus.io.interrupts.ime);
    assert_eq!(cpu.bus.io.interrupts.int_flags & 0x04, 0);
    assert_eq!(cpu.registers.sp, 0xCFFE);
    assert_eq!(cpu.bus.read(0xCFFE), 0x02);
    assert_eq!(cpu.bus.read(0xCFFF), 0xC0);
}

#[test]
fn test_halt_wake() {
    let mut cpu = cpu_with_program(0xC000, &[0x76, 0x00]);
    cpu.step().unwrap();
    assert!(cpu.bus.io.interrupts.cpu_halted);
    cpu.ticks = 0;
    cpu.step().unwrap();
    assert!(cpu.bus.io.interrupts.cpu_halted);
    assert_eq!(cpu.ticks, 4);
    cpu.bus.io.interrupts.int_flags = 0x10;
    cpu.step().unwrap();
    assert!(!cpu.bus.io.interrupts.cpu_halted);
    assert_eq!(cpu.registers.pc, 0xC001);
}

#[test]
fn test_apu_power_cycle() {
    // Write audio registers, power the APU off and on again: every channel
    // register reads back as its always-one mask and wave RAM survives.
    let mut cpu = Cpu::new(Bus::with_bytes(vec![]));
    cpu.bus.write(0xFF26, 0x80);
    cpu.bus.write(0xFF11, 0xBF);
    cpu.bus.write(0xFF12, 0xF3);
    cpu.bus.write(0xFF24, 0x77);
    cpu.bus.write(0xFF25, 0xF3);
    cpu.bus.write(0xFF30, 0x12);
    cpu.bus.write(0xFF3F, 0x34);

    cpu.bus.write(0xFF26, 0x00);
    let masks: [(u16, u8); 23] = [
        (0xFF10, 0x80),
        (0xFF11, 0x3F),
        (0xFF12, 0x00),
        (0xFF13, 0xFF),
        (0xFF14, 0xBF),
        (0xFF15, 0xFF),
        (0xFF16, 0x3F),
        (0xFF17, 0x00),
        (0xFF18, 0xFF),
        (0xFF19, 0xBF),
        (0xFF1A, 0x7F),
        (0xFF1B, 0xFF),
        (0xFF1C, 0x9F),
        (0xFF1D, 0xFF),
        (0xFF1E, 0xBF),
        (0xFF1F, 0xFF),
        (0xFF20, 0xFF),
        (0xFF21, 0x00),
        (0xFF22, 0x00),
        (0xFF23, 0xBF),
        (0xFF24, 0x00),
        (0xFF25, 0x00),
        (0xFF26, 0x70),
    ];
    for &(addr, mask) in masks.iter() {
        assert_eq!(cpu.bus.read(addr), mask, "register {:04X}", addr);
    }
    assert_eq!(cpu.bus.read(0xFF30), 0x12);
    assert_eq!(cpu.bus.read(0xFF3F), 0x34);

    // Writes other than NR52 and wave RAM are ignored while off.
    cpu.bus.write(0xFF12, 0xF3);
    assert_eq!(cpu.bus.read(0xFF12), 0x00);

    cpu.bus.write(0xFF26, 0x80);
    assert_eq!(cpu.bus.read(0xFF26), 0xF0);
    for &(addr, mask) in masks.iter().take(22) {
        assert_eq!(cpu.bus.read(addr), mask, "register {:04X} after power-on", addr);
    }
    assert_eq!(cpu.bus.read(0xFF30), 0x12);
}

#[test]
fn test_channel_trigger_and_length_expiry() {
    let mut cpu = Cpu::new(Bus::with_bytes(vec![]));
    cpu.bus.write(0xFF26, 0x80);
    cpu.bus.write(0xFF12, 0xF0);
    cpu.bus.write(0xFF11, 0x3F);
    cpu.bus.write(0xFF14, 0xC0);
    assert_eq!(cpu.bus.read(0xFF26) & 0x01, 0x01, "channel 1 active on trigger");
    for _ in 0..8192 {
        cpu.bus.io.apu.tick();
    }
    assert_eq!(cpu.bus.read(0xFF26) & 0x01, 0x00, "length expiry clears the channel");
}

#[test]
fn test_dac_off_disables_channel() {
    let mut cpu = Cpu::new(Bus::with_bytes(vec![]));
    cpu.bus.write(0xFF26, 0x80);
    cpu.bus.write(0xFF12, 0xF0);
    cpu.bus.write(0xFF14, 0x80);
    assert_eq!(cpu.bus.read(0xFF26) & 0x01, 0x01);
    cpu.bus.write(0xFF12, 0x00);
    assert_eq!(cpu.bus.read(0xFF26) & 0x01, 0x00);
}

#[test]
fn test_nr50_volumes() {
    let n = NR50 { byte: 0x77 };
    assert_eq!(n.left_volume(), 8);
    assert_eq!(n.right_volume(), 8);
    assert!(!n.vin_left_enabled());
    let n = NR50 { byte: 0x80 };
    assert_eq!(n.left_volume(), 1);
    assert_eq!(n.right_volume(), 1);
    assert!(n.vin_left_enabled());
    assert!(!n.vin_right_enabled());
}

#[test]
fn test_nr51_panning() {
    let n = NR51 { byte: 0b1001_0110 };
    assert!(n.ch4_left());
    assert!(!n.ch3_left());
    assert!(!n.ch2_left());
    assert!(n.ch1_left());
    assert!(!n.ch4_right());
    assert!(n.ch3_right());
    assert!(n.ch2_right());
    assert!(!n.ch1_right());
}

#[test]
fn test_save_state_roundtrip() {
    // Save, restore, save: byte-identical blobs, and still byte-identical
    // after running both machines forward.
    let mut cpu = cpu_with_program(0xC000, &[0x3C, 0x04, 0x05, 0x18, 0xFB]);
    cpu.bus.write(0xFF26, 0x80);
    cpu.bus.write(0xFF12, 0xF0);
    for _ in 0..5 {
        cpu.step().unwrap();
    }
    let blob = cpu.save_state();
    let mut restored = load_state(&blob).unwrap();
    assert_eq!(restored.save_state(), blob);
    for _ in 0..20 {
        cpu.step().unwrap();
        restored.step().unwrap();
    }
    assert_eq!(cpu.save_state(), restored.save_state());
}

#[test]
fn test_load_state_rejects_bad_blobs() {
    let cpu = Cpu::new(Bus::with_bytes(vec![]));
    let blob = cpu.save_state();
    let mut short = blob.clone();
    short.pop();
    assert!(load_state(&short).is_none());
    let mut bad_tag = blob.clone();
    bad_tag[0] = 9;
    assert!(load_state(&bad_tag).is_none());
    let mut bad_flags = blob.clone();
    bad_flags[2] = 0x05;
    assert!(load_state(&bad_flags).is_none());
    assert!(load_state(&blob).is_some());
}

#[test]
fn test_unknown_opcode_fails_step() {
    for op in [0xD3u8, 0xDB, 0xDD, 0xE3, 0xE4, 0xEB, 0xEC, 0xED, 0xF4, 0xFC, 0xFD] {
        let mut cpu = cpu_with_program(0xC000, &[op]);
        assert_eq!(cpu.step(), Err(StepError::UnknownOpcode(op)));
    }
}

#[test]
fn test_echo_and_prohibited_regions() {
    let mut cpu = Cpu::new(Bus::with_bytes(vec![]));
    cpu.bus.write(0xC123, 0x55);
    assert_eq!(cpu.bus.read(0xE123), 0x55);
    cpu.bus.write(0xE124, 0x66);
    assert_eq!(cpu.bus.read(0xC124), 0x66);
    cpu.bus.write(0xFEA0, 0x77);
    assert_eq!(cpu.bus.read(0xFEA0), 0xFF);
}

#[test]
fn test_flags_low_nibble_always_zero() {
    // POP AF with a dirty stacked flag byte still leaves F's low nibble
    // clear.
    let mut cpu = cpu_with_program(0xC000, &[0xF1]);
    cpu.registers.sp = 0xD000;
    cpu.bus.write(0xD000, 0xFF);
    cpu.bus.write(0xD001, 0x12);
    cpu.step().unwrap();
    assert_eq!(cpu.registers.flags.byte, 0xF0);
    assert_eq!(cpu.registers.a, 0x12);
}

#[test]
fn test_daa_after_bcd_add() {
    // 0x19 + 0x28 = 0x41 in BCD: ADD then DAA gives 0x47.
    let mut cpu = cpu_with_program(0xC000, &[0xC6, 0x28, 0x27]);
    cpu.registers.a = 0x19;
    cpu.step().unwrap();
    assert_eq!(cpu.registers.a, 0x41);
    cpu.step().unwrap();
    assert_eq!(cpu.registers.a, 0x47);
}

#[test]
fn test_serial_take_data() {
    let mut cpu = Cpu::new(Bus::with_bytes(vec![]));
    cpu.bus.write(0xFF01, 0x41);
    cpu.bus.write(0xFF02, 0x81);
    assert!(cpu.bus.io.serial.has_data());
    assert_eq!(cpu.bus.io.serial.take_data(), 0x41);
    assert!(!cpu.bus.io.serial.has_data());
}
