//! Per-opcode vectors in the SM83 test style: set up a full machine state,
//! run one step, and compare every register, flag, IME and RAM cell.

use rusty_gb_emu::bus::Bus;
use rusty_gb_emu::cpu::Cpu;
use rusty_gb_emu::registers::{Flags, Registers};

pub struct Sm83Case {
    pub name: &'static str,
    pub initial: CpuState,
    pub final_state: CpuState,
}

#[derive(Clone)]
pub struct CpuState {
    pub pc: u16,
    pub sp: u16,
    pub a: u8,
    pub b: u8,
    pub c: u8,
    pub d: u8,
    pub e: u8,
    pub f: u8,
    pub h: u8,
    pub l: u8,
    pub ime: u8,
    pub ie: u8,
    pub ram: Vec<(u16, u8)>,
}

pub fn setup_cpu(case: &Sm83Case) -> Cpu {
    let mut cpu = Cpu::new(Bus::with_bytes(vec![]));
    for &(addr, v) in case.initial.ram.iter() {
        cpu.bus.write(addr, v);
    }
    cpu.registers = Registers {
        a: case.initial.a,
        flags: Flags {
            byte: case.initial.f,
        },
        b: case.initial.b,
        c: case.initial.c,
        d: case.initial.d,
        e: case.initial.e,
        h: case.initial.h,
        l: case.initial.l,
        sp: case.initial.sp,
        pc: case.initial.pc,
    };
    cpu.bus.io.interrupts.ie_register = case.initial.ie;
    cpu.bus.io.interrupts.ime = case.initial.ime != 0;
    cpu
}

pub fn run_test_case(case: &Sm83Case) {
    let mut cpu = setup_cpu(case);
    cpu.step().unwrap();
    let fin = &case.final_state;
    assert_eq!(cpu.registers.a, fin.a, "A in {}", case.name);
    assert_eq!(cpu.registers.b, fin.b, "B in {}", case.name);
    assert_eq!(cpu.registers.c, fin.c, "C in {}", case.name);
    assert_eq!(cpu.registers.d, fin.d, "D in {}", case.name);
    assert_eq!(cpu.registers.e, fin.e, "E in {}", case.name);
    assert_eq!(cpu.registers.flags.byte, fin.f, "F in {}", case.name);
    assert_eq!(cpu.registers.h, fin.h, "H in {}", case.name);
    assert_eq!(cpu.registers.l, fin.l, "L in {}", case.name);
    assert_eq!(cpu.registers.sp, fin.sp, "SP in {}", case.name);
    assert_eq!(cpu.registers.pc, fin.pc, "PC in {}", case.name);
    assert_eq!(
        cpu.bus.io.interrupts.ime,
        fin.ime != 0,
        "IME in {}",
        case.name
    );
    for &(addr, v) in fin.ram.iter() {
        assert_eq!(cpu.bus.read(addr), v, "RAM {:04X} in {}", addr, case.name);
    }
}

fn state(
    pc: u16,
    sp: u16,
    regs: [u8; 8],
    ime: u8,
    ie: u8,
    ram: Vec<(u16, u8)>,
) -> CpuState {
    CpuState {
        pc,
        sp,
        a: regs[0],
        b: regs[1],
        c: regs[2],
        d: regs[3],
        e: regs[4],
        f: regs[5],
        h: regs[6],
        l: regs[7],
        ime,
        ie,
        ram,
    }
}

fn sra_b_case(name: &'static str, b_in: u8, b_out: u8, f_out: u8) -> Sm83Case {
    Sm83Case {
        name,
        initial: state(
            0xC000,
            0xD000,
            [0, b_in, 0, 0, 0, 0, 0, 0],
            0,
            0,
            vec![(0xC000, 0xCB), (0xC001, 0x28)],
        ),
        final_state: state(
            0xC002,
            0xD000,
            [0, b_out, 0, 0, 0, f_out, 0, 0],
            0,
            0,
            vec![(0xC000, 0xCB), (0xC001, 0x28)],
        ),
    }
}

#[test]
fn test_sm83_custom() {
    // CB 28 — SRA B: the sign bit stays, bit 0 leaves into carry.
    let cases = vec![
        sra_b_case("cb 28 b=80", 0x80, 0xC0, 0x00),
        sra_b_case("cb 28 b=01", 0x01, 0x00, 0x90),
        sra_b_case("cb 28 b=ff", 0xFF, 0xFF, 0x10),
        sra_b_case("cb 28 b=00", 0x00, 0x00, 0x80),
    ];
    for case in cases.iter() {
        run_test_case(case);
        let mut cpu = setup_cpu(case);
        cpu.ticks = 0;
        cpu.step().unwrap();
        assert_eq!(cpu.ticks, 8, "m-cycles of {}", case.name);
    }
}

#[test]
fn test_sm83_sb() {
    // One vector per CB operation family, register and memory operands.
    let cases = vec![
        // CB 00 — RLC B: 0x85 rotates to 0x0B with carry out.
        Sm83Case {
            name: "cb 00",
            initial: state(
                0xC000,
                0xD000,
                [0, 0x85, 0, 0, 0, 0, 0, 0],
                0,
                0,
                vec![(0xC000, 0xCB), (0xC001, 0x00)],
            ),
            final_state: state(
                0xC002,
                0xD000,
                [0, 0x0B, 0, 0, 0, 0x10, 0, 0],
                0,
                0,
                vec![],
            ),
        },
        // CB 11 — RL C with carry in: 0x80 becomes 0x01, carry out set.
        Sm83Case {
            name: "cb 11",
            initial: state(
                0xC000,
                0xD000,
                [0, 0, 0x80, 0, 0, 0x10, 0, 0],
                0,
                0,
                vec![(0xC000, 0xCB), (0xC001, 0x11)],
            ),
            final_state: state(
                0xC002,
                0xD000,
                [0, 0, 0x01, 0, 0, 0x10, 0, 0],
                0,
                0,
                vec![],
            ),
        },
        // CB 40 — BIT 0,B with B=0: Z and H set, carry untouched.
        Sm83Case {
            name: "cb 40",
            initial: state(
                0xC000,
                0xD000,
                [0, 0, 0, 0, 0, 0x00, 0, 0],
                0,
                0,
                vec![(0xC000, 0xCB), (0xC001, 0x40)],
            ),
            final_state: state(
                0xC002,
                0xD000,
                [0, 0, 0, 0, 0, 0xA0, 0, 0],
                0,
                0,
                vec![],
            ),
        },
        // CB 87 — RES 0,A: flags untouched.
        Sm83Case {
            name: "cb 87",
            initial: state(
                0xC000,
                0xD000,
                [0xFF, 0, 0, 0, 0, 0x70, 0, 0],
                0,
                0,
                vec![(0xC000, 0xCB), (0xC001, 0x87)],
            ),
            final_state: state(
                0xC002,
                0xD000,
                [0xFE, 0, 0, 0, 0, 0x70, 0, 0],
                0,
                0,
                vec![],
            ),
        },
        // CB FF — SET 7,A.
        Sm83Case {
            name: "cb ff",
            initial: state(
                0xC000,
                0xD000,
                [0x00, 0, 0, 0, 0, 0x00, 0, 0],
                0,
                0,
                vec![(0xC000, 0xCB), (0xC001, 0xFF)],
            ),
            final_state: state(
                0xC002,
                0xD000,
                [0x80, 0, 0, 0, 0, 0x00, 0, 0],
                0,
                0,
                vec![],
            ),
        },
        // CB 37 — SWAP A.
        Sm83Case {
            name: "cb 37",
            initial: state(
                0xC000,
                0xD000,
                [0x12, 0, 0, 0, 0, 0x10, 0, 0],
                0,
                0,
                vec![(0xC000, 0xCB), (0xC001, 0x37)],
            ),
            final_state: state(
                0xC002,
                0xD000,
                [0x21, 0, 0, 0, 0, 0x00, 0, 0],
                0,
                0,
                vec![],
            ),
        },
        // CB 86 — RES 0,(HL): memory operand read and written back.
        Sm83Case {
            name: "cb 86",
            initial: state(
                0xC000,
                0xD000,
                [0, 0, 0, 0, 0, 0x00, 0xC1, 0x00],
                0,
                0,
                vec![(0xC000, 0xCB), (0xC001, 0x86), (0xC100, 0xFF)],
            ),
            final_state: state(
                0xC002,
                0xD000,
                [0, 0, 0, 0, 0, 0x00, 0xC1, 0x00],
                0,
                0,
                vec![(0xC100, 0xFE)],
            ),
        },
    ];
    for case in cases.iter() {
        run_test_case(case);
    }
}

#[test]
fn test_sm83_case_static() {
    // Opcode 0x41 — LD B,C, from a recorded vector.
    let case = Sm83Case {
        name: "41 0000",
        initial: CpuState {
            pc: 9845,
            sp: 50643,
            a: 185,
            b: 151,
            c: 101,
            d: 187,
            e: 72,
            f: 160,
            h: 117,
            l: 249,
            ime: 1,
            ie: 0,
            ram: vec![(9845, 65)],
        },
        final_state: CpuState {
            pc: 9846,
            sp: 50643,
            a: 185,
            b: 101,
            c: 101,
            d: 187,
            e: 72,
            f: 160,
            h: 117,
            l: 249,
            ime: 1,
            ie: 0,
            ram: vec![(9845, 65)],
        },
    };
    run_test_case(&case);
    let mut cpu = setup_cpu(&case);
    cpu.ticks = 0;
    cpu.step().unwrap();
    assert_eq!(cpu.ticks / 4, 1);
}
