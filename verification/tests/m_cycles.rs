//! Per-opcode m-cycle counts, checked against the published cycle table by
//! running each opcode on a flat test bus and reading the tick counter.

use rusty_gb_emu::bus::Bus;
use rusty_gb_emu::cpu::Cpu;
use rusty_gb_emu::instructions::{AddressMode, ConditionType, Instruction, InstructionType, RegisterType};

const M_CYCLES_BY_OPCODES: [usize; 0x100] = [
    1, 3, 2, 2, 1, 1, 2, 1, 5, 2, 2, 2, 1, 1, 2, 1, 0, 3, 2, 2, 1, 1, 2, 1, 3, 2, 2, 2, 1, 1,
    2, 1, 2, 3, 2, 2, 1, 1, 2, 1, 2, 2, 2, 2, 1, 1, 2, 1, 2, 3, 2, 2, 3, 3, 3, 1, 2, 2, 2, 2,
    1, 1, 2, 1, 1, 1, 1, 1, 1, 1, 2, 1, 1, 1, 1, 1, 1, 1, 2, 1, 1, 1, 1, 1, 1, 1, 2, 1, 1, 1,
    1, 1, 1, 1, 2, 1, 1, 1, 1, 1, 1, 1, 2, 1, 1, 1, 1, 1, 1, 1, 2, 1, 2, 2, 2, 2, 2, 2, 0, 2,
    1, 1, 1, 1, 1, 1, 2, 1, 1, 1, 1, 1, 1, 1, 2, 1, 1, 1, 1, 1, 1, 1, 2, 1, 1, 1, 1, 1, 1, 1,
    2, 1, 1, 1, 1, 1, 1, 1, 2, 1, 1, 1, 1, 1, 1, 1, 2, 1, 1, 1, 1, 1, 1, 1, 2, 1, 1, 1, 1, 1,
    1, 1, 2, 1, 1, 1, 1, 1, 1, 1, 2, 1, 2, 3, 3, 4, 3, 4, 2, 4, 2, 4, 3, 0, 3, 6, 2, 4, 2, 3,
    3, 0, 3, 4, 2, 4, 2, 4, 3, 0, 3, 0, 2, 4, 3, 3, 2, 0, 0, 4, 2, 4, 4, 1, 4, 0, 0, 0, 2, 4,
    3, 3, 2, 1, 0, 4, 2, 4, 3, 2, 4, 1, 0, 0, 2, 4,
];

fn fresh_cpu() -> Cpu {
    Cpu::new(Bus::with_bytes(vec![0; 100000]))
}

fn get_m_cycles(cpu: &Cpu) -> usize {
    (cpu.ticks / 4) as usize
}

fn assert_for_condition(
    cpu: &mut Cpu,
    condition_type: ConditionType,
    m_cycles_set: usize,
    m_cycles_not: usize,
) {
    match condition_type {
        ConditionType::NC => {
            cpu.registers.flags.set(None, None, None, Some(false));
            cpu.step().unwrap();
            assert_eq!(m_cycles_set, get_m_cycles(cpu));

            cpu.registers.pc = 0;
            cpu.ticks = 0;

            cpu.registers.flags.set(None, None, None, Some(true));
            cpu.step().unwrap();
            assert_eq!(m_cycles_not, get_m_cycles(cpu));
        }
        ConditionType::C => {
            cpu.registers.flags.set(None, None, None, Some(false));
            cpu.step().unwrap();
            assert_eq!(m_cycles_not, get_m_cycles(cpu));

            cpu.registers.pc = 0;
            cpu.ticks = 0;

            cpu.registers.flags.set(None, None, None, Some(true));
            cpu.step().unwrap();
            assert_eq!(m_cycles_set, get_m_cycles(cpu));
        }
        ConditionType::NZ => {
            cpu.registers.flags.set(Some(false), None, None, None);
            cpu.step().unwrap();
            assert_eq!(m_cycles_set, get_m_cycles(cpu));

            cpu.registers.pc = 0;
            cpu.ticks = 0;

            cpu.registers.flags.set(Some(true), None, None, None);
            cpu.step().unwrap();
            assert_eq!(m_cycles_not, get_m_cycles(cpu));
        }
        ConditionType::Z => {
            cpu.registers.flags.set(Some(false), None, None, None);
            cpu.step().unwrap();
            assert_eq!(m_cycles_not, get_m_cycles(cpu));

            cpu.registers.pc = 0;
            cpu.ticks = 0;

            cpu.registers.flags.set(Some(true), None, None, None);
            cpu.step().unwrap();
            assert_eq!(m_cycles_set, get_m_cycles(cpu));
        }
    }
}

#[test]
pub fn test_m_cycles_ldh_f0() {
    let opcode: usize = 0xF0;
    let mut cpu = fresh_cpu();
    cpu.registers.pc = 0;
    cpu.ticks = 0;
    cpu.bus.write(0, opcode as u8);
    cpu.step().unwrap();

    assert_eq!(M_CYCLES_BY_OPCODES[opcode], get_m_cycles(&cpu));
}

#[test]
pub fn test_m_cycles_call() {
    let mut cpu = fresh_cpu();
    for opcode in 0..=0xFFusize {
        let Some(instr) = Instruction::get_by_opcode(opcode as u8) else {
            continue;
        };
        if instr.itype != InstructionType::CALL {
            continue;
        }

        cpu.registers.pc = 0;
        cpu.ticks = 0;
        cpu.bus.write(0, opcode as u8);

        if let Some(condition_type) = instr.cond {
            assert_for_condition(&mut cpu, condition_type, 6, M_CYCLES_BY_OPCODES[opcode]);
        } else {
            cpu.step().unwrap();
            assert_eq!(M_CYCLES_BY_OPCODES[opcode], get_m_cycles(&cpu));
        }
    }
}

#[test]
pub fn test_m_cycles_jp() {
    let mut cpu = fresh_cpu();
    for opcode in 0..=0xFFusize {
        let Some(instr) = Instruction::get_by_opcode(opcode as u8) else {
            continue;
        };
        if instr.itype != InstructionType::JP {
            continue;
        }

        cpu.registers.pc = 0;
        cpu.ticks = 0;
        cpu.bus.write(0, opcode as u8);

        if let Some(condition_type) = instr.cond {
            assert_for_condition(&mut cpu, condition_type, 4, M_CYCLES_BY_OPCODES[opcode]);
        } else if instr.mode == AddressMode::D16 {
            cpu.step().unwrap();
            assert_eq!(M_CYCLES_BY_OPCODES[opcode], get_m_cycles(&cpu));
        } else if instr.mode == AddressMode::R(RegisterType::HL) {
            cpu.step().unwrap();
            assert_eq!(M_CYCLES_BY_OPCODES[opcode], get_m_cycles(&cpu));
        }
    }
}

#[test]
pub fn test_m_cycles_jr() {
    let mut cpu = fresh_cpu();
    for opcode in 0..=0xFFusize {
        let Some(instr) = Instruction::get_by_opcode(opcode as u8) else {
            continue;
        };
        if instr.itype != InstructionType::JR {
            continue;
        }

        cpu.registers.pc = 0;
        cpu.ticks = 0;
        cpu.bus.write(0, opcode as u8);

        if let Some(condition_type) = instr.cond {
            assert_for_condition(&mut cpu, condition_type, 3, 2);
        } else {
            cpu.step().unwrap();
            assert_eq!(M_CYCLES_BY_OPCODES[opcode], get_m_cycles(&cpu));
        }
    }
}

#[test]
pub fn test_m_cycles_ret() {
    let mut cpu = fresh_cpu();
    for opcode in 0..=0xFFusize {
        let Some(instr) = Instruction::get_by_opcode(opcode as u8) else {
            continue;
        };
        if instr.itype != InstructionType::RET {
            continue;
        }

        cpu.registers.pc = 0;
        cpu.ticks = 0;
        cpu.bus.write(0, opcode as u8);

        if let Some(condition_type) = instr.cond {
            assert_for_condition(&mut cpu, condition_type, 5, 2);
        } else {
            cpu.step().unwrap();
            assert_eq!(M_CYCLES_BY_OPCODES[opcode], get_m_cycles(&cpu));
        }
    }
}

#[test]
pub fn test_m_cycles() {
    let mut cpu = fresh_cpu();

    for opcode in 0..=0xFFusize {
        let Some(instr) = Instruction::get_by_opcode(opcode as u8) else {
            continue;
        };
        match instr.itype {
            InstructionType::JP
            | InstructionType::JR
            | InstructionType::RET
            | InstructionType::CALL
            | InstructionType::STOP
            | InstructionType::HALT => continue,
            _ => {}
        }

        if opcode == 0xCB {
            continue;
        }

        cpu.registers.pc = 0;
        cpu.ticks = 0;
        cpu.bus.write(0, opcode as u8);
        cpu.step().unwrap();
        let expected = M_CYCLES_BY_OPCODES[opcode];
        let actual = get_m_cycles(&cpu);

        if actual != expected {
            panic!(
                "Invalid M-Cycles for 0x{:02X}: actual={}, expected={}",
                opcode, actual, expected
            );
        }
    }
}
