//! Cycle accounting: every bus access and internal m-cycle advances the
//! global tick counter by exactly four t-cycles, and a whole step advances
//! it by four times the instruction's documented m-cycle cost.

use crate::bus::sp_bus_read;
use crate::cpu::{
    sp_check_cond, sp_cpu_wf, sp_fetch16, sp_fetch_byte, sp_fetch_data, sp_goto_addr, sp_lo8,
    sp_mcycle, sp_read_cycle, sp_stack_pop16, sp_stack_push16, sp_write_cycle, CpuV,
};
use crate::execute::{
    sp_dispatch, sp_exec_add, sp_exec_alu, sp_exec_cb, sp_exec_daa, sp_exec_dec, sp_exec_inc,
    sp_exec_jp, sp_exec_jr, sp_exec_ld, sp_exec_ret, sp_exec_rot_a, sp_execute, sp_fetch_opcode,
    sp_post_interrupt, sp_step,
};
use crate::instructions::{
    sp_decode, sp_is_16bit, AddressMode, Instruction, InstructionType,
};
use vstd::prelude::*;

verus! {

/// The m-cycles an address mode's operand fetch pays: one per immediate
/// byte and one per memory read.
pub open spec fn sp_mode_mcycles(mode: AddressMode) -> nat {
    match mode {
        AddressMode::IMP | AddressMode::R(_) | AddressMode::R_R(_, _) | AddressMode::MR_R(_, _)
            | AddressMode::HLI_R(_, _) | AddressMode::HLD_R(_, _) => 0,
        AddressMode::R_D8(_) | AddressMode::D8 | AddressMode::R_MR(_, _) | AddressMode::R_HLI(
            _,
            _,
        ) | AddressMode::R_HLD(_, _) | AddressMode::MR(_) | AddressMode::MR_D8(_)
            | AddressMode::HL_SPR(_, _) | AddressMode::A8_R(_) => 1,
        AddressMode::R_D16(_) | AddressMode::D16 | AddressMode::D16_R(_) | AddressMode::A16_R(_)
            | AddressMode::R_A8(_) => 2,
        AddressMode::R_A16(_) => 3,
    }
}

/// The m-cycles the execute phase pays after the operand fetch: bus writes
/// and internal cycles, including the extra cost of a taken branch.
pub open spec fn sp_exec_mcycles(inst: Instruction, taken: bool, cb: u8) -> nat {
    match inst.itype {
        InstructionType::LD | InstructionType::LDH => match inst.mode {
            AddressMode::MR_R(_, _) | AddressMode::HLI_R(_, _) | AddressMode::HLD_R(_, _)
                | AddressMode::A8_R(_) | AddressMode::MR_D8(_) | AddressMode::A16_R(_)
                | AddressMode::MR(_) | AddressMode::HL_SPR(_, _) => 1,
            AddressMode::D16_R(_) => 2,
            AddressMode::R_R(r1, r2) => if sp_is_16bit(r1) && sp_is_16bit(r2) {
                1nat
            } else {
                0nat
            },
            _ => 0,
        },
        InstructionType::INC | InstructionType::DEC => match inst.mode {
            AddressMode::MR(_) => 1,
            AddressMode::R(r) => if sp_is_16bit(r) {
                1nat
            } else {
                0nat
            },
            _ => 0,
        },
        InstructionType::ADD => match inst.mode {
            AddressMode::R_R(r1, _) => if r1 == crate::instructions::RegisterType::HL {
                1nat
            } else {
                0nat
            },
            AddressMode::R_D8(r1) => if r1 == crate::instructions::RegisterType::SP {
                2nat
            } else {
                0nat
            },
            _ => 0,
        },
        InstructionType::JR => if taken {
            1
        } else {
            0
        },
        InstructionType::JP => match inst.mode {
            AddressMode::R(_) => 0,
            _ => if taken {
                1nat
            } else {
                0nat
            },
        },
        InstructionType::CALL => if taken {
            3
        } else {
            0
        },
        InstructionType::RST => 3,
        InstructionType::RET | InstructionType::RETI => (if inst.cond is Some {
            1nat
        } else {
            0nat
        }) + (if taken {
            3nat
        } else {
            0nat
        }),
        InstructionType::POP => 2,
        InstructionType::PUSH => 3,
        InstructionType::CB => if cb & 7 == 6 {
            if cb >> 6 == 1 {
                1nat
            } else {
                2nat
            }
        } else {
            0nat
        },
        _ => 0,
    }
}

/// An instruction's whole m-cycle cost: the opcode fetch, the operand
/// fetch, and the execute phase. `taken` is whether its condition held;
/// `cb` is the prefixed opcode byte where the instruction is the CB prefix.
pub open spec fn sp_instr_mcycles(inst: Instruction, taken: bool, cb: u8) -> nat {
    1 + sp_mode_mcycles(inst.mode) + sp_exec_mcycles(inst, taken, cb)
}

/// Whether an address mode's fetch produces a destination address.
pub open spec fn sp_mode_has_dest(mode: AddressMode) -> bool {
    match mode {
        AddressMode::MR_R(_, _) | AddressMode::HLI_R(_, _) | AddressMode::HLD_R(_, _)
            | AddressMode::A8_R(_) | AddressMode::D16_R(_) | AddressMode::MR_D8(_)
            | AddressMode::MR(_) | AddressMode::A16_R(_) => true,
        _ => false,
    }
}

/// The operand fetch yields a destination address exactly for the store
/// and read-modify-write modes.
proof fn lemma_fetch_data_dest(s: CpuV, mode: AddressMode)
    ensures
        sp_fetch_data(s, mode).1.dest_addr is Some <==> sp_mode_has_dest(mode),
{
    reveal(crate::cpu::sp_fetch_data);
}

/// One m-cycle leaves the registers, the memory image and the CPU control
/// bits alone and advances the tick counter by exactly four.
pub proof fn lemma_mcycle_frame(s: CpuV)
    ensures
        sp_mcycle(s).registers == s.registers,
        sp_mcycle(s).bus.mem == s.bus.mem,
        sp_mcycle(s).bus.rom_locked == s.bus.rom_locked,
        sp_mcycle(s).enabling_ime == s.enabling_ime,
        sp_mcycle(s).current_opcode == s.current_opcode,
        sp_mcycle(s).bus.io.interrupts.ime == s.bus.io.interrupts.ime,
        s.ticks + 4 <= u64::MAX ==> sp_mcycle(s).ticks == s.ticks + 4,
        sp_mcycle(s).ticks <= s.ticks + 4,
{
    reveal(crate::cpu::sp_t_tick);
}

/// A one-byte operand fetch costs one m-cycle and leaves the flags alone.
proof fn lemma_fetch_byte_frame(s: CpuV)
    requires
        s.ticks + 4 <= u64::MAX,
    ensures
        sp_fetch_byte(s).0.ticks == s.ticks + 4,
        sp_fetch_byte(s).0.registers.flags == s.registers.flags,
        sp_fetch_byte(s).0.bus.io.interrupts.ime == s.bus.io.interrupts.ime,
        sp_fetch_byte(s).0.enabling_ime == s.enabling_ime,
{
    let s1 = CpuV {
        registers: crate::registers::Registers {
            pc: crate::cpu::sp_word_inc(s.registers.pc),
            ..s.registers
        },
        ..s
    };
    lemma_mcycle_frame(s1);
}

/// A two-byte operand fetch costs two m-cycles and leaves the flags alone.
proof fn lemma_fetch16_frame(s: CpuV)
    requires
        s.ticks + 8 <= u64::MAX,
    ensures
        sp_fetch16(s).0.ticks == s.ticks + 8,
        sp_fetch16(s).0.registers.flags == s.registers.flags,
        sp_fetch16(s).0.bus.io.interrupts.ime == s.bus.io.interrupts.ime,
        sp_fetch16(s).0.enabling_ime == s.enabling_ime,
{
    lemma_fetch_byte_frame(s);
    lemma_fetch_byte_frame(sp_fetch_byte(s).0);
}

/// A bus read costs one m-cycle; a bus write costs one m-cycle and leaves
/// the registers alone.
proof fn lemma_access_frame(s: CpuV, addr: u16, v: u8)
    requires
        s.ticks + 4 <= u64::MAX,
    ensures
        sp_read_cycle(s, addr).0.ticks == s.ticks + 4,
        sp_read_cycle(s, addr).0.registers == s.registers,
        sp_read_cycle(s, addr).0.bus.io.interrupts.ime == s.bus.io.interrupts.ime,
        sp_read_cycle(s, addr).0.enabling_ime == s.enabling_ime,
        sp_write_cycle(s, addr, v).ticks == s.ticks + 4,
        sp_write_cycle(s, addr, v).registers == s.registers,
        sp_write_cycle(s, addr, v).bus.io.interrupts.ime == s.bus.io.interrupts.ime,
        sp_write_cycle(s, addr, v).enabling_ime == s.enabling_ime,
{
    lemma_mcycle_frame(s);
    lemma_mcycle_frame(CpuV { bus: crate::bus::sp_bus_write(s.bus, addr, v), ..s });
}

/// A 16-bit push costs two m-cycles; a pop costs two and keeps the flags.
proof fn lemma_stack_frame(s: CpuV, v: u16)
    requires
        s.ticks + 8 <= u64::MAX,
    ensures
        sp_stack_push16(s, v).ticks == s.ticks + 8,
        sp_stack_pop16(s).0.ticks == s.ticks + 8,
        sp_stack_pop16(s).0.registers.flags == s.registers.flags,
{
    let sp1 = crate::cpu::sp_word_dec(s.registers.sp);
    let t1 = CpuV {
        registers: crate::registers::Registers { sp: sp1, ..s.registers },
        ..s
    };
    lemma_access_frame(t1, sp1, crate::cpu::sp_hi8(v));
    let s1 = sp_write_cycle(t1, sp1, crate::cpu::sp_hi8(v));
    let sp2 = crate::cpu::sp_word_dec(s1.registers.sp);
    let t2 = CpuV {
        registers: crate::registers::Registers { sp: sp2, ..s1.registers },
        ..s1
    };
    lemma_access_frame(t2, sp2, sp_lo8(v));
    lemma_access_frame(s, s.registers.sp, 0);
    let (p1, _lo) = sp_read_cycle(s, s.registers.sp);
    let p2 = CpuV {
        registers: crate::registers::Registers {
            sp: crate::cpu::sp_word_inc(p1.registers.sp),
            ..p1.registers
        },
        ..p1
    };
    lemma_access_frame(p2, p2.registers.sp, 0);
}

/// A conditional jump or call costs nothing when not taken, one m-cycle
/// when taken, and three (the internal cycle and the push) for a call.
proof fn lemma_goto_frame(s: CpuV, cond: Option<crate::instructions::ConditionType>, addr: u16, push_pc: bool)
    requires
        s.ticks + 12 <= u64::MAX,
    ensures
        sp_goto_addr(s, cond, addr, push_pc).ticks == s.ticks + (
        if sp_check_cond(s.registers.flags.byte, cond) {
            if push_pc {
                12nat
            } else {
                4nat
            }
        } else {
            0nat
        }),
{
    if sp_check_cond(s.registers.flags.byte, cond) {
        if push_pc {
            lemma_mcycle_frame(s);
            lemma_stack_frame(sp_mcycle(s), sp_mcycle(s).registers.pc);
        } else {
            lemma_mcycle_frame(CpuV {
                registers: crate::registers::Registers { pc: addr, ..s.registers },
                ..s
            });
        }
    }
}

/// The operand fetch pays exactly the mode's m-cycles and keeps the flags.
proof fn lemma_fetch_data_frame(s: CpuV, mode: AddressMode)
    requires
        s.ticks + 12 <= u64::MAX,
    ensures
        sp_fetch_data(s, mode).0.ticks == s.ticks + 4 * sp_mode_mcycles(mode),
        sp_fetch_data(s, mode).0.registers.flags == s.registers.flags,
        sp_fetch_data(s, mode).0.bus.io.interrupts.ime == s.bus.io.interrupts.ime,
        sp_fetch_data(s, mode).0.enabling_ime == s.enabling_ime,
{
    reveal(crate::cpu::sp_fetch_data);
    match mode {
        AddressMode::IMP | AddressMode::R(_) | AddressMode::R_R(_, _) | AddressMode::MR_R(
            _,
            _,
        ) => {},
        AddressMode::HLI_R(_, _) | AddressMode::HLD_R(_, _) => {},
        AddressMode::R_D8(_) | AddressMode::D8 | AddressMode::HL_SPR(_, _) => {
            lemma_fetch_byte_frame(s);
        },
        AddressMode::R_D16(_) | AddressMode::D16 | AddressMode::D16_R(_) => {
            lemma_fetch16_frame(s);
        },
        AddressMode::R_MR(_, r2) => {
            lemma_access_frame(s, crate::cpu::sp_mr_addr(s.registers, r2), 0);
        },
        AddressMode::R_HLI(_, _) | AddressMode::R_HLD(_, _) => {
            lemma_access_frame(
                s,
                crate::registers::sp_read_reg(s.registers, crate::instructions::RegisterType::HL),
                0,
            );
        },
        AddressMode::R_A8(_) => {
            lemma_fetch_byte_frame(s);
            let (s1, n) = sp_fetch_byte(s);
            lemma_access_frame(s1, 0xFF00u16 | (n as u16), 0);
        },
        AddressMode::A8_R(_) => {
            lemma_fetch_byte_frame(s);
        },
        AddressMode::MR_D8(_) => {
            lemma_fetch_byte_frame(s);
        },
        AddressMode::MR(r) => {
            lemma_access_frame(s, crate::registers::sp_read_reg(s.registers, r), 0);
        },
        AddressMode::A16_R(_) => {
            lemma_fetch16_frame(s);
        },
        AddressMode::R_A16(_) => {
            lemma_fetch16_frame(s);
            let (s1, a) = sp_fetch16(s);
            lemma_access_frame(s1, a, 0);
        },
    }
}

/// The execute phase pays exactly its table cost in m-cycles.
#[verifier::rlimit(100)]
#[verifier::spinoff_prover]
proof fn lemma_execute_frame(s: CpuV, inst: Instruction, d: crate::instructions::FetchedData)
    requires
        s.ticks + 16 <= u64::MAX,
        d.dest_addr is Some <==> sp_mode_has_dest(inst.mode),
    ensures
        sp_execute(s, inst, d).ticks == s.ticks + 4 * sp_exec_mcycles(
            inst,
            sp_check_cond(s.registers.flags.byte, inst.cond),
            sp_lo8(d.value),
        ),
{
    reveal(crate::execute::sp_execute);
    let taken = sp_check_cond(s.registers.flags.byte, inst.cond);
    match inst.itype {
        InstructionType::LD | InstructionType::LDH => {
            match inst.mode {
                AddressMode::HL_SPR(_, _) => {
                    lemma_mcycle_frame(
                        crate::execute::sp_with_flags(
                            crate::execute::sp_with_reg(
                                s,
                                crate::instructions::RegisterType::HL,
                                crate::execute::sp_add16_signed(s.registers.sp, d.value),
                            ),
                            Some(false),
                            Some(false),
                            Some(((s.registers.sp & 0xF) as u32) + ((d.value & 0xF) as u32)
                                >= 0x10),
                            Some(((s.registers.sp & 0xFF) as u32) + ((d.value & 0xFF) as u32)
                                >= 0x100),
                        ),
                    );
                },
                _ => {
                    match d.dest_addr {
                        Some(a) => {
                            match inst.mode {
                                AddressMode::D16_R(_) => {
                                    lemma_access_frame(s, a, sp_lo8(d.value));
                                    lemma_access_frame(
                                        sp_write_cycle(s, a, sp_lo8(d.value)),
                                        crate::cpu::sp_word_inc(a),
                                        crate::execute::sp_hi8_of(d.value),
                                    );
                                },
                                _ => {
                                    lemma_access_frame(s, a, sp_lo8(d.value));
                                },
                            }
                        },
                        None => {
                            if crate::execute::sp_ld_extra_cycle(inst.mode) {
                                lemma_mcycle_frame(
                                    crate::execute::sp_with_reg(
                                        s,
                                        crate::execute::sp_ld_dest_reg(inst.mode),
                                        d.value,
                                    ),
                                );
                            }
                        },
                    }
                },
            }
        },
        InstructionType::INC | InstructionType::DEC => {
            match inst.mode {
                AddressMode::MR(_) => {
                    match d.dest_addr {
                        Some(a) => {
                            lemma_access_frame(s, a, 0);
                            let v = sp_lo8(d.value);
                            lemma_access_frame(s, a, sp_lo8((v as u16 + 1) as u16));
                            lemma_access_frame(s, a, sp_lo8((v as u16 + 0xFF) as u16));
                        },
                        None => {},
                    }
                },
                AddressMode::R(r) => {
                    if sp_is_16bit(r) {
                        lemma_mcycle_frame(
                            crate::execute::sp_with_reg(s, r, crate::cpu::sp_word_inc(d.value)),
                        );
                        lemma_mcycle_frame(
                            crate::execute::sp_with_reg(s, r, crate::cpu::sp_word_dec(d.value)),
                        );
                    }
                },
                _ => {},
            }
        },
        InstructionType::ADD => {
            match inst.mode {
                AddressMode::R_R(r1, _) => {
                    if r1 == crate::instructions::RegisterType::HL {
                        lemma_add_hl_ticks(s, inst, d);
                    }
                },
                AddressMode::R_D8(r1) => {
                    if r1 == crate::instructions::RegisterType::SP {
                        lemma_add_sp_ticks(s, inst, d);
                    }
                },
                _ => {},
            }
        },
        InstructionType::JR => {
            lemma_goto_frame(
                s,
                inst.cond,
                crate::execute::sp_add16_signed(s.registers.pc, d.value),
                false,
            );
            assert(sp_execute(s, inst, d).ticks == s.ticks + 4 * sp_exec_mcycles(
                inst,
                taken,
                sp_lo8(d.value),
            ));
        },
        InstructionType::JP => {
            match inst.mode {
                AddressMode::R(_) => {},
                _ => {
                    lemma_goto_frame(s, inst.cond, d.value, false);
                },
            }
        },
        InstructionType::CALL => {
            lemma_goto_frame(s, inst.cond, d.value, true);
        },
        InstructionType::RST => {
            lemma_goto_frame(s, None, (s.current_opcode & 0x38) as u16, true);
        },
        InstructionType::RET | InstructionType::RETI => {
            lemma_ret_ticks(s, inst);
            assert(sp_execute(s, inst, d).ticks == s.ticks + 4 * sp_exec_mcycles(
                inst,
                taken,
                sp_lo8(d.value),
            ));
        },
        InstructionType::POP => {
            lemma_stack_frame(s, 0);
            assert(sp_execute(s, inst, d).ticks == s.ticks + 4 * sp_exec_mcycles(
                inst,
                taken,
                sp_lo8(d.value),
            ));
        },
        InstructionType::PUSH => {
            lemma_mcycle_frame(s);
            lemma_stack_frame(sp_mcycle(s), d.value);
            assert(sp_execute(s, inst, d).ticks == s.ticks + 4 * sp_exec_mcycles(
                inst,
                taken,
                sp_lo8(d.value),
            ));
        },
        InstructionType::CB => {
            lemma_cb_ticks(s, d);
            assert(sp_execute(s, inst, d).ticks == s.ticks + 4 * sp_exec_mcycles(
                inst,
                taken,
                sp_lo8(d.value),
            ));
        },
        _ => {
            assert(sp_execute(s, inst, d).ticks == s.ticks + 4 * sp_exec_mcycles(
                inst,
                taken,
                sp_lo8(d.value),
            ));
        },
    }
}

proof fn lemma_add_hl_ticks(s: CpuV, inst: Instruction, d: crate::instructions::FetchedData)
    requires
        s.ticks + 4 <= u64::MAX,
        inst.mode matches AddressMode::R_R(r1, _) && r1 == crate::instructions::RegisterType::HL,
    ensures
        sp_exec_add(s, inst, d).ticks == s.ticks + 4,
{
    let hl = crate::registers::sp_read_reg(s.registers, crate::instructions::RegisterType::HL);
    let rr = d.value;
    let sum = (hl as u32) + (rr as u32);
    lemma_mcycle_frame(
        crate::execute::sp_with_flags(
            crate::execute::sp_with_reg(
                s,
                crate::instructions::RegisterType::HL,
                (((sum as u32) & 0xFFFF) as u16),
            ),
            None,
            Some(false),
            Some(((hl & 0xFFF) as u32) + ((rr & 0xFFF) as u32) >= 0x1000),
            Some(sum >= 0x10000),
        ),
    );
}

proof fn lemma_add_sp_ticks(s: CpuV, inst: Instruction, d: crate::instructions::FetchedData)
    requires
        s.ticks + 8 <= u64::MAX,
        inst.mode matches AddressMode::R_D8(r1) && r1 == crate::instructions::RegisterType::SP,
    ensures
        sp_exec_add(s, inst, d).ticks == s.ticks + 8,
{
    let spv = s.registers.sp;
    let e = d.value;
    let s1 = crate::execute::sp_with_flags(
        crate::execute::sp_with_reg(
            s,
            crate::instructions::RegisterType::SP,
            crate::execute::sp_add16_signed(spv, e),
        ),
        Some(false),
        Some(false),
        Some(((spv & 0xF) as u32) + ((e & 0xF) as u32) >= 0x10),
        Some(((spv & 0xFF) as u32) + ((e & 0xFF) as u32) >= 0x100),
    );
    lemma_mcycle_frame(s1);
    lemma_mcycle_frame(sp_mcycle(s1));
}

proof fn lemma_ret_ticks(s: CpuV, inst: Instruction)
    requires
        s.ticks + 16 <= u64::MAX,
    ensures
        sp_exec_ret(s, inst, false).ticks == s.ticks + 4 * ((if inst.cond is Some {
            1nat
        } else {
            0nat
        }) + (if sp_check_cond(s.registers.flags.byte, inst.cond) {
            3nat
        } else {
            0nat
        })),
        sp_exec_ret(s, inst, true).ticks == sp_exec_ret(s, inst, false).ticks,
{
    let s0 = if inst.cond is Some {
        sp_mcycle(s)
    } else {
        s
    };
    lemma_mcycle_frame(s);
    if sp_check_cond(s0.registers.flags.byte, inst.cond) {
        lemma_stack_frame(s0, 0);
        let (s1, v) = sp_stack_pop16(s0);
        lemma_mcycle_frame(CpuV {
            registers: crate::registers::Registers { pc: v, ..s1.registers },
            ..s1
        });
    }
}

proof fn lemma_cb_ticks(s: CpuV, d: crate::instructions::FetchedData)
    requires
        s.ticks + 8 <= u64::MAX,
    ensures
        sp_exec_cb(s, d).ticks == s.ticks + 4 * (if sp_lo8(d.value) & 7 == 6 {
            if sp_lo8(d.value) >> 6 == 1 {
                1nat
            } else {
                2nat
            }
        } else {
            0nat
        }),
{
    let op = sp_lo8(d.value);
    if op & 7 == 6 {
        let addr = crate::registers::sp_read_reg(
            s.registers,
            crate::instructions::RegisterType::HL,
        );
        lemma_access_frame(s, addr, 0);
        let (s1, v) = sp_read_cycle(s, addr);
        let (s2, r, wb) = crate::execute::sp_cb_apply(s1, op, v);
        assert(s2.ticks == s1.ticks);
        assert(wb <==> !(op >> 6 == 1)) by {
            assert((op >> 6 == 0 || op >> 6 == 1 || op >> 6 == 2 || op >> 6 == 3)) by (bit_vector);
        }
        if wb {
            lemma_access_frame(s2, addr, r);
        }
    } else {
        let reg = crate::instructions::sp_reg8(op & 7);
        let v = sp_lo8(crate::registers::sp_read_reg(s.registers, reg));
        let (s1, r, wb) = crate::execute::sp_cb_apply(s, op, v);
        assert(s1.ticks == s.ticks);
    }
}

/// Cycle accounting for one whole step, away from interrupt dispatch: the
/// tick counter after `step` exceeds the counter before by exactly four
/// times the fetched instruction's m-cycle cost — one m-cycle for an
/// undefined opcode's fetch.
pub proof fn lemma_step_cycle_accounting(s: CpuV)
    requires
        sp_cpu_wf(s),
        !s.bus.io.interrupts.cpu_halted,
        !s.bus.io.interrupts.ime,
        !s.enabling_ime,
        s.ticks + 64 <= u64::MAX,
    ensures
        ({
            let op = sp_bus_read(s.bus, s.registers.pc);
            match sp_decode(op) {
                None => sp_step(s).0.ticks == s.ticks + 4,
                Some(inst) => inst.itype != InstructionType::RETI ==> {
                    let s1 = sp_fetch_opcode(s).0;
                    let (s2, d) = sp_fetch_data(s1, inst.mode);
                    sp_step(s).0.ticks == s.ticks + 4 * sp_instr_mcycles(
                        inst,
                        sp_check_cond(s2.registers.flags.byte, inst.cond),
                        sp_lo8(d.value),
                    )
                },
            }
        }),
{
    let op = sp_bus_read(s.bus, s.registers.pc);
    let s1f = CpuV {
        registers: crate::registers::Registers {
            pc: crate::cpu::sp_word_inc(s.registers.pc),
            ..s.registers
        },
        current_opcode: op,
        ..s
    };
    lemma_mcycle_frame(s1f);
    let s1 = sp_fetch_opcode(s).0;
    assert(s1.ticks == s.ticks + 4);
    match sp_decode(op) {
        None => {},
        Some(inst) => {
            lemma_fetch_data_frame(s1, inst.mode);
            lemma_fetch_data_dest(s1, inst.mode);
            let (s2, d) = sp_fetch_data(s1, inst.mode);
            lemma_execute_frame(s2, inst, d);
            let s3 = sp_execute(s2, inst, d);
            if inst.itype != InstructionType::RETI {
                lemma_exec_keeps_ime_off(s2, inst, d);
                assert(sp_post_interrupt(s3).ticks == s3.ticks) by {
                    reveal(crate::execute::sp_post_interrupt);
                }
            }
        },
    }
}

/// With the master enable off, no instruction but RETI can turn it on
/// within its own execute phase.
proof fn lemma_exec_keeps_ime_off(s: CpuV, inst: Instruction, d: crate::instructions::FetchedData)
    requires
        !s.bus.io.interrupts.ime,
        inst.itype != InstructionType::RETI,
        s.ticks + 16 <= u64::MAX,
    ensures
        !sp_execute(s, inst, d).bus.io.interrupts.ime,
{
    reveal(crate::execute::sp_execute);
    lemma_execute_ime_off_cases(s, inst, d);
}

/// Case analysis behind `lemma_exec_keeps_ime_off`: every executor either
/// leaves the interrupt state alone or only touches IF, halt or IME-off.
#[verifier::rlimit(100)]
#[verifier::spinoff_prover]
proof fn lemma_execute_ime_off_cases(
    s: CpuV,
    inst: Instruction,
    d: crate::instructions::FetchedData,
)
    requires
        !s.bus.io.interrupts.ime,
        inst.itype != InstructionType::RETI,
        s.ticks + 16 <= u64::MAX,
    ensures
        !sp_execute(s, inst, d).bus.io.interrupts.ime,
{
    reveal(crate::execute::sp_execute);
    let taken = sp_check_cond(s.registers.flags.byte, inst.cond);
    match inst.itype {
        InstructionType::LD | InstructionType::LDH => {
            lemma_ld_ime(s, inst, d);
        },
        InstructionType::INC | InstructionType::DEC => {
            lemma_incdec_ime(s, inst, d);
        },
        InstructionType::ADD => {
            lemma_add_ime(s, inst, d);
        },
        InstructionType::JR => {
            lemma_goto_ime(
                s,
                inst.cond,
                crate::execute::sp_add16_signed(s.registers.pc, d.value),
                false,
            );
        },
        InstructionType::JP => {
            match inst.mode {
                AddressMode::R(_) => {},
                _ => {
                    lemma_goto_ime(s, inst.cond, d.value, false);
                },
            }
        },
        InstructionType::CALL => {
            lemma_goto_ime(s, inst.cond, d.value, true);
        },
        InstructionType::RST => {
            lemma_goto_ime(s, None, (s.current_opcode & 0x38) as u16, true);
        },
        InstructionType::RET => {
            let s0 = if inst.cond is Some {
                sp_mcycle(s)
            } else {
                s
            };
            lemma_mcycle_frame(s);
            if sp_check_cond(s0.registers.flags.byte, inst.cond) {
                lemma_stack_frame(s0, 0);
                lemma_access_frame(s0, s0.registers.sp, 0);
                let (p1, _lo) = sp_read_cycle(s0, s0.registers.sp);
                let p2 = CpuV {
                    registers: crate::registers::Registers {
                        sp: crate::cpu::sp_word_inc(p1.registers.sp),
                        ..p1.registers
                    },
                    ..p1
                };
                lemma_access_frame(p2, p2.registers.sp, 0);
                let (s1, v) = sp_stack_pop16(s0);
                lemma_mcycle_frame(CpuV {
                    registers: crate::registers::Registers { pc: v, ..s1.registers },
                    ..s1
                });
            }
        },
        InstructionType::POP => {
            lemma_access_frame(s, s.registers.sp, 0);
            let (p1, _lo) = sp_read_cycle(s, s.registers.sp);
            let p2 = CpuV {
                registers: crate::registers::Registers {
                    sp: crate::cpu::sp_word_inc(p1.registers.sp),
                    ..p1.registers
                },
                ..p1
            };
            lemma_access_frame(p2, p2.registers.sp, 0);
        },
        InstructionType::PUSH => {
            lemma_mcycle_frame(s);
            lemma_push_ime(sp_mcycle(s), d.value);
        },
        InstructionType::CB => {
            lemma_cb_ime(s, d);
        },
        _ => {},
    }
}

proof fn lemma_push_ime(s: CpuV, v: u16)
    ensures
        sp_stack_push16(s, v).bus.io.interrupts.ime == s.bus.io.interrupts.ime,
{
    let sp1 = crate::cpu::sp_word_dec(s.registers.sp);
    let t1 = CpuV {
        registers: crate::registers::Registers { sp: sp1, ..s.registers },
        ..s
    };
    lemma_mcycle_frame(CpuV { bus: crate::bus::sp_bus_write(t1.bus, sp1, crate::cpu::sp_hi8(v)), ..t1 });
    let s1 = sp_write_cycle(t1, sp1, crate::cpu::sp_hi8(v));
    let sp2 = crate::cpu::sp_word_dec(s1.registers.sp);
    let t2 = CpuV {
        registers: crate::registers::Registers { sp: sp2, ..s1.registers },
        ..s1
    };
    lemma_mcycle_frame(CpuV { bus: crate::bus::sp_bus_write(t2.bus, sp2, sp_lo8(v)), ..t2 });
}

proof fn lemma_goto_ime(
    s: CpuV,
    cond: Option<crate::instructions::ConditionType>,
    addr: u16,
    push_pc: bool,
)
    ensures
        sp_goto_addr(s, cond, addr, push_pc).bus.io.interrupts.ime == s.bus.io.interrupts.ime,
{
    if sp_check_cond(s.registers.flags.byte, cond) {
        if push_pc {
            lemma_mcycle_frame(s);
            lemma_push_ime(sp_mcycle(s), sp_mcycle(s).registers.pc);
        } else {
            lemma_mcycle_frame(CpuV {
                registers: crate::registers::Registers { pc: addr, ..s.registers },
                ..s
            });
        }
    }
}

proof fn lemma_ld_ime(s: CpuV, inst: Instruction, d: crate::instructions::FetchedData)
    ensures
        sp_exec_ld(s, inst, d).bus.io.interrupts.ime == s.bus.io.interrupts.ime,
{
    match inst.mode {
        AddressMode::HL_SPR(_, _) => {
            lemma_mcycle_ime_any(s);
        },
        _ => {
            match d.dest_addr {
                Some(a) => {
                    lemma_write_ime(s, a, sp_lo8(d.value));
                    let s1 = sp_write_cycle(s, a, sp_lo8(d.value));
                    lemma_write_ime(s1, crate::cpu::sp_word_inc(a), crate::execute::sp_hi8_of(d.value));
                },
                None => {
                    lemma_mcycle_ime_any(s);
                },
            }
        },
    }
}

/// `sp_mcycle` preserves IME from any state reachable in these proofs.
proof fn lemma_mcycle_ime_any(s: CpuV)
    ensures
        forall|r: crate::registers::Registers|
            #[trigger] sp_mcycle(CpuV { registers: r, ..s }).bus.io.interrupts.ime
                == s.bus.io.interrupts.ime,
        forall|r: crate::registers::Registers, f: crate::registers::Flags|
            #[trigger] sp_mcycle(
                CpuV { registers: crate::registers::Registers { flags: f, ..r }, ..s },
            ).bus.io.interrupts.ime == s.bus.io.interrupts.ime,
{
    assert forall|r: crate::registers::Registers|
        #[trigger] sp_mcycle(CpuV { registers: r, ..s }).bus.io.interrupts.ime
            == s.bus.io.interrupts.ime by {
        lemma_mcycle_frame(CpuV { registers: r, ..s });
    }
    assert forall|r: crate::registers::Registers, f: crate::registers::Flags|
        #[trigger] sp_mcycle(
            CpuV { registers: crate::registers::Registers { flags: f, ..r }, ..s },
        ).bus.io.interrupts.ime == s.bus.io.interrupts.ime by {
        lemma_mcycle_frame(CpuV { registers: crate::registers::Registers { flags: f, ..r }, ..s });
    }
}

proof fn lemma_write_ime(s: CpuV, addr: u16, v: u8)
    ensures
        sp_write_cycle(s, addr, v).bus.io.interrupts.ime == s.bus.io.interrupts.ime,
{
    lemma_mcycle_frame(CpuV { bus: crate::bus::sp_bus_write(s.bus, addr, v), ..s });
}

proof fn lemma_incdec_ime(s: CpuV, inst: Instruction, d: crate::instructions::FetchedData)
    ensures
        sp_exec_inc(s, inst, d).bus.io.interrupts.ime == s.bus.io.interrupts.ime,
        sp_exec_dec(s, inst, d).bus.io.interrupts.ime == s.bus.io.interrupts.ime,
{
    match inst.mode {
        AddressMode::MR(_) => {
            match d.dest_addr {
                Some(a) => {
                    let v = sp_lo8(d.value);
                    lemma_write_ime(s, a, sp_lo8((v as u16 + 1) as u16));
                    lemma_write_ime(s, a, sp_lo8((v as u16 + 0xFF) as u16));
                },
                None => {},
            }
        },
        AddressMode::R(r) => {
            if sp_is_16bit(r) {
                lemma_mcycle_ime_any(s);
            }
        },
        _ => {},
    }
}

proof fn lemma_add_ime(s: CpuV, inst: Instruction, d: crate::instructions::FetchedData)
    ensures
        sp_exec_add(s, inst, d).bus.io.interrupts.ime == s.bus.io.interrupts.ime,
{
    lemma_mcycle_ime_any(s);
    match inst.mode {
        AddressMode::R_D8(r1) => {
            if r1 == crate::instructions::RegisterType::SP {
                let spv = s.registers.sp;
                let e = d.value;
                let s1 = crate::execute::sp_with_flags(
                    crate::execute::sp_with_reg(
                        s,
                        crate::instructions::RegisterType::SP,
                        crate::execute::sp_add16_signed(spv, e),
                    ),
                    Some(false),
                    Some(false),
                    Some(((spv & 0xF) as u32) + ((e & 0xF) as u32) >= 0x10),
                    Some(((spv & 0xFF) as u32) + ((e & 0xFF) as u32) >= 0x100),
                );
                lemma_mcycle_frame(s1);
                lemma_mcycle_frame(sp_mcycle(s1));
            }
        },
        _ => {},
    }
}

proof fn lemma_cb_ime(s: CpuV, d: crate::instructions::FetchedData)
    ensures
        sp_exec_cb(s, d).bus.io.interrupts.ime == s.bus.io.interrupts.ime,
{
    let op = sp_lo8(d.value);
    if op & 7 == 6 {
        let addr = crate::registers::sp_read_reg(
            s.registers,
            crate::instructions::RegisterType::HL,
        );
        lemma_access_frame_free(s, addr);
        let (s1, v) = sp_read_cycle(s, addr);
        let (s2, r, wb) = crate::execute::sp_cb_apply(s1, op, v);
        if wb {
            lemma_write_ime(s2, addr, r);
        }
    }
}

/// A bus read cycle preserves IME with no tick bound needed.
proof fn lemma_access_frame_free(s: CpuV, addr: u16)
    ensures
        sp_read_cycle(s, addr).0.bus.io.interrupts.ime == s.bus.io.interrupts.ime,
        sp_read_cycle(s, addr).0.registers == s.registers,
{
    lemma_mcycle_frame(s);
}

} // verus!
