//! The instruction executors: what every operation family computes, which
//! flags it sets, and which internal m-cycles it pays.

use crate::cpu::{
    hi8, lo8, sp_check_cond, sp_cpu_wf, sp_fetch_data, sp_goto_addr, sp_lo8, sp_mcycle,
    sp_read_cycle, sp_sign_ext, sp_stack_pop16, sp_stack_push16, sp_word_dec, sp_word_inc,
    sp_write_cycle, Cpu, CpuV, StepError,
};
use crate::instructions::{
    sp_decode, sp_is_16bit, sp_reg8, AddressMode, FetchedData, Instruction, InstructionType,
    RegisterType,
};
use crate::interrupts::{sp_handle_interrupt, sp_int_address, sp_pending_interrupt, Interrupts, InterruptType};
use crate::io::Io;
use crate::bus::{sp_bus_read, BusV};
use crate::registers::{sp_flags_set, sp_read_reg, sp_set_reg, Flags, Registers};
use crate::timer::{sp_timer_write, TimerAddress};
use vstd::prelude::*;

verus! {

/// The state with one register replaced.
pub open spec fn sp_with_reg(s: CpuV, r: RegisterType, v: u16) -> CpuV {
    CpuV { registers: sp_set_reg(s.registers, r, v), ..s }
}

/// The state with a four-slot flag update applied.
pub open spec fn sp_with_flags(
    s: CpuV,
    z: Option<bool>,
    n: Option<bool>,
    h: Option<bool>,
    c: Option<bool>,
) -> CpuV {
    CpuV {
        registers: Registers {
            flags: Flags { byte: sp_flags_set(s.registers.flags.byte, z, n, h, c) },
            ..s.registers
        },
        ..s
    }
}

/// The carry flag as a 0/1 operand.
pub open spec fn sp_carry_in(s: CpuV) -> u8 {
    if s.registers.flags.byte & 0x10 != 0 {
        1u8
    } else {
        0u8
    }
}

/// A 16-bit register plus a signed 8-bit immediate, wrapping.
pub open spec fn sp_add16_signed(base: u16, e: u16) -> u16 {
    ((((base as u32) + (sp_sign_ext(e) as u32)) as u32) & 0xFFFF) as u16
}

proof fn lemma_word_bound(v: u32)
    by (bit_vector)
    ensures
        v & 0xFFFF < 0x10000,
{
}

/// The low 16 bits of a 32-bit value.
fn lo16(v: u32) -> (r: u16)
    ensures
        r == ((v & 0xFFFF) as u16),
{
    proof {
        lemma_word_bound(v);
    }
    (v & 0xFFFF) as u16
}

/// The 8-bit arithmetic and logic family on A. CP computes SUB's flags and
/// discards the result; AND sets H; all four flags are always assigned.
pub open spec fn sp_exec_alu(s: CpuV, itype: InstructionType, d: FetchedData) -> CpuV {
    let a = s.registers.a;
    let v = sp_lo8(d.value);
    let cin = sp_carry_in(s);
    match itype {
        InstructionType::ADD => {
            let sum = (a as u16) + (v as u16);
            let r = sp_lo8(sum as u16);
            sp_with_flags(
                sp_with_reg(s, RegisterType::A, r as u16),
                Some(r == 0),
                Some(false),
                Some(((a & 0xF) as u16) + ((v & 0xF) as u16) >= 0x10),
                Some(sum >= 0x100),
            )
        },
        InstructionType::ADC => {
            let sum = (a as u16) + (v as u16) + (cin as u16);
            let r = sp_lo8(sum as u16);
            sp_with_flags(
                sp_with_reg(s, RegisterType::A, r as u16),
                Some(r == 0),
                Some(false),
                Some(((a & 0xF) as u16) + ((v & 0xF) as u16) + (cin as u16) >= 0x10),
                Some(sum >= 0x100),
            )
        },
        InstructionType::SUB => {
            let r = sp_lo8(((a as u16) + 0x100 - (v as u16)) as u16);
            sp_with_flags(
                sp_with_reg(s, RegisterType::A, r as u16),
                Some(r == 0),
                Some(true),
                Some((a & 0xF) < (v & 0xF)),
                Some(a < v),
            )
        },
        InstructionType::SBC => {
            let r = sp_lo8(((a as u16) + 0x200 - (v as u16) - (cin as u16)) as u16);
            sp_with_flags(
                sp_with_reg(s, RegisterType::A, r as u16),
                Some(r == 0),
                Some(true),
                Some(((a & 0xF) as u16) < ((v & 0xF) as u16) + (cin as u16)),
                Some((a as u16) < (v as u16) + (cin as u16)),
            )
        },
        InstructionType::AND => {
            let r = a & v;
            sp_with_flags(
                sp_with_reg(s, RegisterType::A, r as u16),
                Some(r == 0),
                Some(false),
                Some(true),
                Some(false),
            )
        },
        InstructionType::XOR => {
            let r = a ^ v;
            sp_with_flags(
                sp_with_reg(s, RegisterType::A, r as u16),
                Some(r == 0),
                Some(false),
                Some(false),
                Some(false),
            )
        },
        InstructionType::OR => {
            let r = a | v;
            sp_with_flags(
                sp_with_reg(s, RegisterType::A, r as u16),
                Some(r == 0),
                Some(false),
                Some(false),
                Some(false),
            )
        },
        _ => {
            let r = sp_lo8(((a as u16) + 0x100 - (v as u16)) as u16);
            sp_with_flags(
                s,
                Some(r == 0),
                Some(true),
                Some((a & 0xF) < (v & 0xF)),
                Some(a < v),
            )
        },
    }
}

/// ADD's three shapes: 8-bit on A, 16-bit `ADD HL,rr` (one internal
/// m-cycle, Z untouched), and `ADD SP,e8` (two internal m-cycles, Z and N
/// cleared, H and C from the low byte of SP).
pub open spec fn sp_exec_add(s: CpuV, inst: Instruction, d: FetchedData) -> CpuV {
    match inst.mode {
        AddressMode::R_R(r1, _r2) => {
            if r1 == RegisterType::HL {
                let hl = sp_read_reg(s.registers, RegisterType::HL);
                let rr = d.value;
                let sum = (hl as u32) + (rr as u32);
                let res = (((sum as u32) & 0xFFFF) as u16);
                let s1 = sp_with_flags(
                    sp_with_reg(s, RegisterType::HL, res),
                    None,
                    Some(false),
                    Some(((hl & 0xFFF) as u32) + ((rr & 0xFFF) as u32) >= 0x1000),
                    Some(sum >= 0x10000),
                );
                sp_mcycle(s1)
            } else {
                sp_exec_alu(s, InstructionType::ADD, d)
            }
        },
        AddressMode::R_D8(r1) => {
            if r1 == RegisterType::SP {
                let spv = s.registers.sp;
                let e = d.value;
                let res = sp_add16_signed(spv, e);
                let s1 = sp_with_flags(
                    sp_with_reg(s, RegisterType::SP, res),
                    Some(false),
                    Some(false),
                    Some(((spv & 0xF) as u32) + ((e & 0xF) as u32) >= 0x10),
                    Some(((spv & 0xFF) as u32) + ((e & 0xFF) as u32) >= 0x100),
                );
                sp_mcycle(sp_mcycle(s1))
            } else {
                sp_exec_alu(s, InstructionType::ADD, d)
            }
        },
        _ => sp_exec_alu(s, InstructionType::ADD, d),
    }
}

/// The register a load lands in, for modes whose destination is a register.
pub open spec fn sp_ld_dest_reg(mode: AddressMode) -> RegisterType {
    match mode {
        AddressMode::R(r) => r,
        AddressMode::R_R(r, _) => r,
        AddressMode::R_D8(r) => r,
        AddressMode::R_D16(r) => r,
        AddressMode::R_MR(r, _) => r,
        AddressMode::R_HLI(r, _) => r,
        AddressMode::R_HLD(r, _) => r,
        AddressMode::R_A8(r) => r,
        AddressMode::R_A16(r) => r,
        _ => RegisterType::A,
    }
}

/// Whether a register-to-register load pays an internal m-cycle
/// (`LD SP,HL` does).
pub open spec fn sp_ld_extra_cycle(mode: AddressMode) -> bool {
    match mode {
        AddressMode::R_R(r1, r2) => sp_is_16bit(r1) && sp_is_16bit(r2),
        _ => false,
    }
}

/// The load family. A store writes the low byte of the value (both bytes,
/// low first, for `LD (a16),SP`); `LD HL,SP+e8` computes SP plus the signed
/// immediate with the SP-relative flag rule and pays an internal m-cycle.
pub open spec fn sp_exec_ld(s: CpuV, inst: Instruction, d: FetchedData) -> CpuV {
    match inst.mode {
        AddressMode::HL_SPR(_r1, _r2) => {
            let spv = s.registers.sp;
            let e = d.value;
            let res = sp_add16_signed(spv, e);
            let s1 = sp_with_flags(
                sp_with_reg(s, RegisterType::HL, res),
                Some(false),
                Some(false),
                Some(((spv & 0xF) as u32) + ((e & 0xF) as u32) >= 0x10),
                Some(((spv & 0xFF) as u32) + ((e & 0xFF) as u32) >= 0x100),
            );
            sp_mcycle(s1)
        },
        _ => match d.dest_addr {
            Some(a) => match inst.mode {
                AddressMode::D16_R(_r) => {
                    let s1 = sp_write_cycle(s, a, sp_lo8(d.value));
                    sp_write_cycle(s1, sp_word_inc(a), sp_hi8_of(d.value))
                },
                _ => sp_write_cycle(s, a, sp_lo8(d.value)),
            },
            None => {
                let s1 = sp_with_reg(s, sp_ld_dest_reg(inst.mode), d.value);
                if sp_ld_extra_cycle(inst.mode) {
                    sp_mcycle(s1)
                } else {
                    s1
                }
            },
        },
    }
}

/// The high byte of a 16-bit value.
pub open spec fn sp_hi8_of(v: u16) -> u8 {
    ((v >> 8) & 0xFF) as u8
}

/// INC: an 8-bit target sets Z and H and clears N with C untouched; a
/// 16-bit register pays an internal m-cycle and leaves the flags alone;
/// `INC (HL)` writes the result back through the bus.
pub open spec fn sp_exec_inc(s: CpuV, inst: Instruction, d: FetchedData) -> CpuV {
    match inst.mode {
        AddressMode::MR(_r) => {
            let v = sp_lo8(d.value);
            let r = sp_lo8((v as u16 + 1) as u16);
            let s1 = match d.dest_addr {
                Some(a) => sp_write_cycle(s, a, r),
                None => s,
            };
            sp_with_flags(s1, Some(r == 0), Some(false), Some(v & 0xF == 0xF), None)
        },
        AddressMode::R(r) => {
            if sp_is_16bit(r) {
                sp_mcycle(sp_with_reg(s, r, sp_word_inc(d.value)))
            } else {
                let v = sp_lo8(d.value);
                let res = sp_lo8((v as u16 + 1) as u16);
                sp_with_flags(
                    sp_with_reg(s, r, res as u16),
                    Some(res == 0),
                    Some(false),
                    Some(v & 0xF == 0xF),
                    None,
                )
            }
        },
        _ => s,
    }
}

/// DEC: the mirror of INC with N set and H from a low-nibble borrow.
pub open spec fn sp_exec_dec(s: CpuV, inst: Instruction, d: FetchedData) -> CpuV {
    match inst.mode {
        AddressMode::MR(_r) => {
            let v = sp_lo8(d.value);
            let r = sp_lo8((v as u16 + 0xFF) as u16);
            let s1 = match d.dest_addr {
                Some(a) => sp_write_cycle(s, a, r),
                None => s,
            };
            sp_with_flags(s1, Some(r == 0), Some(true), Some(v & 0xF == 0), None)
        },
        AddressMode::R(r) => {
            if sp_is_16bit(r) {
                sp_mcycle(sp_with_reg(s, r, sp_word_dec(d.value)))
            } else {
                let v = sp_lo8(d.value);
                let res = sp_lo8((v as u16 + 0xFF) as u16);
                sp_with_flags(
                    sp_with_reg(s, r, res as u16),
                    Some(res == 0),
                    Some(true),
                    Some(v & 0xF == 0),
                    None,
                )
            }
        },
        _ => s,
    }
}

/// The four A rotates: Z, N and H clear; C takes the bit rotated out.
pub open spec fn sp_exec_rot_a(s: CpuV, itype: InstructionType) -> CpuV {
    let a = s.registers.a;
    let cin = sp_carry_in(s);
    let (r, c) = match itype {
        InstructionType::RLCA => (
            sp_lo8((((a as u16) << 1) | ((a as u16) >> 7)) as u16),
            a & 0x80 != 0,
        ),
        InstructionType::RRCA => (
            sp_lo8((((a as u16) >> 1) | (((a as u16) & 1) << 7)) as u16),
            a & 1 != 0,
        ),
        InstructionType::RLA => (
            sp_lo8((((a as u16) << 1) | (cin as u16)) as u16),
            a & 0x80 != 0,
        ),
        _ => (
            sp_lo8((((a as u16) >> 1) | ((cin as u16) << 7)) as u16),
            a & 1 != 0,
        ),
    };
    sp_with_flags(
        sp_with_reg(s, RegisterType::A, r as u16),
        Some(false),
        Some(false),
        Some(false),
        Some(c),
    )
}

/// DAA: adjusts A back to binary-coded decimal after an addition or
/// subtraction, using N, H and C. N is preserved, H cleared, C may set.
pub open spec fn sp_exec_daa(s: CpuV) -> CpuV {
    let a = s.registers.a;
    let f = s.registers.flags.byte;
    let n = f & 0x40 != 0;
    let h = f & 0x20 != 0;
    let c = f & 0x10 != 0;
    let (r, c_out): (u8, bool) = if !n {
        let set_c = c || a > 0x99;
        let a1 = if set_c {
            sp_lo8((a as u16 + 0x60) as u16)
        } else {
            a
        };
        let a2 = if h || (a & 0xF) > 9 {
            sp_lo8((a1 as u16 + 0x06) as u16)
        } else {
            a1
        };
        (a2, set_c)
    } else {
        let a1 = if c {
            sp_lo8((a as u16 + 0x100 - 0x60) as u16)
        } else {
            a
        };
        let a2 = if h {
            sp_lo8((a1 as u16 + 0x100 - 0x06) as u16)
        } else {
            a1
        };
        (a2, c)
    };
    sp_with_flags(
        sp_with_reg(s, RegisterType::A, r as u16),
        Some(r == 0),
        None,
        Some(false),
        Some(c_out),
    )
}

/// One CB-prefixed rotate or shift, selected by bits 5..3 of the CB opcode:
/// RLC, RRC, RL, RR, SLA, SRA, SWAP, SRL. Returns the result and the carry
/// out (SWAP clears carry).
pub open spec fn sp_cb_rot(k: u8, v: u8, cin: u8) -> (u8, bool) {
    if k == 0 {
        (sp_lo8((((v as u16) << 1) | ((v as u16) >> 7)) as u16), v & 0x80 != 0)
    } else if k == 1 {
        (sp_lo8((((v as u16) >> 1) | (((v as u16) & 1) << 7)) as u16), v & 1 != 0)
    } else if k == 2 {
        (sp_lo8((((v as u16) << 1) | (cin as u16)) as u16), v & 0x80 != 0)
    } else if k == 3 {
        (sp_lo8((((v as u16) >> 1) | ((cin as u16) << 7)) as u16), v & 1 != 0)
    } else if k == 4 {
        (sp_lo8(((v as u16) << 1) as u16), v & 0x80 != 0)
    } else if k == 5 {
        (sp_lo8((((v as u16) >> 1) | ((v as u16) & 0x80)) as u16), v & 1 != 0)
    } else if k == 6 {
        (sp_lo8((((v as u16) << 4) | ((v as u16) >> 4)) as u16), false)
    } else {
        (sp_lo8(((v as u16) >> 1) as u16), v & 1 != 0)
    }
}

/// What one CB opcode does to its 8-bit operand: a rotate/shift result with
/// full flags, BIT's flag-only test, or RES/SET's bit change without flags.
/// The second component tells whether the result is written back.
pub open spec fn sp_cb_apply(s: CpuV, op: u8, v: u8) -> (CpuV, u8, bool) {
    let top = op >> 6;
    let bits = (op >> 3) & 7;
    if top == 0 {
        let (r, c) = sp_cb_rot(bits, v, sp_carry_in(s));
        (
            sp_with_flags(s, Some(r == 0), Some(false), Some(false), Some(c)),
            r,
            true,
        )
    } else if top == 1 {
        (
            sp_with_flags(s, Some(v & (1u8 << bits) == 0), Some(false), Some(true), None),
            v,
            false,
        )
    } else if top == 2 {
        (s, v & !(1u8 << bits), true)
    } else {
        (s, v | (1u8 << bits), true)
    }
}

/// The CB-prefixed table: the operand is a register, or memory through HL
/// (one read m-cycle, and one write m-cycle unless the operation is BIT).
pub open spec fn sp_exec_cb(s: CpuV, d: FetchedData) -> CpuV {
    let op = sp_lo8(d.value);
    let ri = op & 7;
    if ri == 6 {
        let addr = sp_read_reg(s.registers, RegisterType::HL);
        let (s1, v) = sp_read_cycle(s, addr);
        let (s2, r, wb) = sp_cb_apply(s1, op, v);
        if wb {
            sp_write_cycle(s2, addr, r)
        } else {
            s2
        }
    } else {
        let reg = sp_reg8(ri);
        let v = sp_lo8(sp_read_reg(s.registers, reg));
        let (s1, r, wb) = sp_cb_apply(s, op, v);
        if wb {
            sp_with_reg(s1, reg, r as u16)
        } else {
            s1
        }
    }
}

/// JR: the target is PC plus the sign-extended immediate; a taken branch
/// pays one internal m-cycle.
pub open spec fn sp_exec_jr(s: CpuV, inst: Instruction, d: FetchedData) -> CpuV {
    let addr = sp_add16_signed(s.registers.pc, d.value);
    sp_goto_addr(s, inst.cond, addr, false)
}

/// JP: `JP HL` moves HL into PC with no extra cost; the immediate forms pay
/// one internal m-cycle when taken.
pub open spec fn sp_exec_jp(s: CpuV, inst: Instruction, d: FetchedData) -> CpuV {
    match inst.mode {
        AddressMode::R(_r) => CpuV {
            registers: Registers { pc: d.value, ..s.registers },
            ..s
        },
        _ => sp_goto_addr(s, inst.cond, d.value, false),
    }
}

/// RET and RETI: a conditional return pays an internal m-cycle to test the
/// condition; the return itself pops PC and pays one more. RETI sets IME
/// synchronously.
pub open spec fn sp_exec_ret(s: CpuV, inst: Instruction, reti: bool) -> CpuV {
    let s0 = if inst.cond is Some {
        sp_mcycle(s)
    } else {
        s
    };
    if sp_check_cond(s0.registers.flags.byte, inst.cond) {
        let (s1, v) = sp_stack_pop16(s0);
        let s2 = sp_mcycle(CpuV { registers: Registers { pc: v, ..s1.registers }, ..s1 });
        if reti {
            CpuV {
                bus: BusV {
                    io: Io {
                        interrupts: Interrupts { ime: true, ..s2.bus.io.interrupts },
                        ..s2.bus.io
                    },
                    ..s2.bus
                },
                ..s2
            }
        } else {
            s2
        }
    } else {
        s0
    }
}

/// The whole execute phase: one decoded instruction applied to the state,
/// with its flag rule and internal m-cycles.
#[verifier::opaque]
pub open spec fn sp_execute(s: CpuV, inst: Instruction, d: FetchedData) -> CpuV {
    match inst.itype {
        InstructionType::NOP => s,
        InstructionType::LD | InstructionType::LDH => sp_exec_ld(s, inst, d),
        InstructionType::INC => sp_exec_inc(s, inst, d),
        InstructionType::DEC => sp_exec_dec(s, inst, d),
        InstructionType::ADD => sp_exec_add(s, inst, d),
        InstructionType::ADC | InstructionType::SUB | InstructionType::SBC | InstructionType::AND
            | InstructionType::XOR | InstructionType::OR | InstructionType::CP => sp_exec_alu(
            s,
            inst.itype,
            d,
        ),
        InstructionType::RLCA | InstructionType::RRCA | InstructionType::RLA
            | InstructionType::RRA => sp_exec_rot_a(s, inst.itype),
        InstructionType::DAA => sp_exec_daa(s),
        InstructionType::CPL => sp_with_flags(
            sp_with_reg(s, RegisterType::A, (s.registers.a ^ 0xFF) as u16),
            None,
            Some(true),
            Some(true),
            None,
        ),
        InstructionType::SCF => sp_with_flags(s, None, Some(false), Some(false), Some(true)),
        InstructionType::CCF => sp_with_flags(
            s,
            None,
            Some(false),
            Some(false),
            Some(s.registers.flags.byte & 0x10 == 0),
        ),
        InstructionType::JR => sp_exec_jr(s, inst, d),
        InstructionType::JP => sp_exec_jp(s, inst, d),
        InstructionType::CALL => sp_goto_addr(s, inst.cond, d.value, true),
        InstructionType::RST => sp_goto_addr(
            s,
            None,
            (s.current_opcode & 0x38) as u16,
            true,
        ),
        InstructionType::RET => sp_exec_ret(s, inst, false),
        InstructionType::RETI => sp_exec_ret(s, inst, true),
        InstructionType::POP => {
            let (s1, v) = sp_stack_pop16(s);
            match inst.mode {
                AddressMode::R(r) => sp_with_reg(s1, r, v),
                _ => s1,
            }
        },
        InstructionType::PUSH => sp_stack_push16(sp_mcycle(s), d.value),
        InstructionType::CB => sp_exec_cb(s, d),
        InstructionType::DI => CpuV {
            enabling_ime: false,
            bus: BusV {
                io: Io {
                    interrupts: Interrupts { ime: false, ..s.bus.io.interrupts },
                    ..s.bus.io
                },
                ..s.bus
            },
            ..s
        },
        InstructionType::EI => CpuV { enabling_ime: true, ..s },
        InstructionType::HALT => CpuV {
            bus: BusV {
                io: Io {
                    interrupts: Interrupts { cpu_halted: true, ..s.bus.io.interrupts },
                    ..s.bus.io
                },
                ..s.bus
            },
            ..s
        },
        InstructionType::STOP => CpuV {
            bus: BusV {
                io: Io {
                    timer: sp_timer_write(s.bus.io.timer, TimerAddress::Div, 0),
                    ..s.bus.io
                },
                ..s.bus
            },
            ..s
        },
    }
}

impl Cpu {
    fn carry_in(&self) -> (r: u8)
        ensures
            r == sp_carry_in(self@),
    {
        if self.registers.flags.get_c() {
            1
        } else {
            0
        }
    }

    fn set_flags(&mut self, z: Option<bool>, n: Option<bool>, h: Option<bool>, c: Option<bool>)
        ensures
            final(self)@ == sp_with_flags(old(self)@, z, n, h, c),
            final(self).registers.wf(),
    {
        self.registers.flags.set(z, n, h, c);
    }

    #[verifier::rlimit(50)]
    fn exec_alu(&mut self, itype: InstructionType, d: FetchedData)
        requires
            sp_cpu_wf(old(self)@),
        ensures
            final(self)@ == sp_exec_alu(old(self)@, itype, d),
            sp_cpu_wf(final(self)@),
    {
        let a = self.registers.a;
        let v = lo8(d.value);
        let cin = self.carry_in();
        match itype {
            InstructionType::ADD => {
                let sum = (a as u16) + (v as u16);
                let r = lo8(sum);
                self.registers.set_register(RegisterType::A, r as u16);
                self.set_flags(
                    Some(r == 0),
                    Some(false),
                    Some(((a & 0xF) as u16) + ((v & 0xF) as u16) >= 0x10),
                    Some(sum >= 0x100),
                );
            },
            InstructionType::ADC => {
                let sum = (a as u16) + (v as u16) + (cin as u16);
                let r = lo8(sum);
                self.registers.set_register(RegisterType::A, r as u16);
                self.set_flags(
                    Some(r == 0),
                    Some(false),
                    Some(((a & 0xF) as u16) + ((v & 0xF) as u16) + (cin as u16) >= 0x10),
                    Some(sum >= 0x100),
                );
            },
            InstructionType::SUB => {
                let r = lo8((a as u16) + 0x100 - (v as u16));
                self.registers.set_register(RegisterType::A, r as u16);
                self.set_flags(
                    Some(r == 0),
                    Some(true),
                    Some((a & 0xF) < (v & 0xF)),
                    Some(a < v),
                );
            },
            InstructionType::SBC => {
                let r = lo8((a as u16) + 0x200 - (v as u16) - (cin as u16));
                self.registers.set_register(RegisterType::A, r as u16);
                self.set_flags(
                    Some(r == 0),
                    Some(true),
                    Some(((a & 0xF) as u16) < ((v & 0xF) as u16) + (cin as u16)),
                    Some((a as u16) < (v as u16) + (cin as u16)),
                );
            },
            InstructionType::AND => {
                let r = a & v;
                self.registers.set_register(RegisterType::A, r as u16);
                self.set_flags(Some(r == 0), Some(false), Some(true), Some(false));
            },
            InstructionType::XOR => {
                let r = a ^ v;
                self.registers.set_register(RegisterType::A, r as u16);
                self.set_flags(Some(r == 0), Some(false), Some(false), Some(false));
            },
            InstructionType::OR => {
                let r = a | v;
                self.registers.set_register(RegisterType::A, r as u16);
                self.set_flags(Some(r == 0), Some(false), Some(false), Some(false));
            },
            _ => {
                let r = lo8((a as u16) + 0x100 - (v as u16));
                self.set_flags(
                    Some(r == 0),
                    Some(true),
                    Some((a & 0xF) < (v & 0xF)),
                    Some(a < v),
                );
            },
        }
    }

    fn exec_add(&mut self, inst: Instruction, d: FetchedData)
        requires
            sp_cpu_wf(old(self)@),
        ensures
            final(self)@ == sp_exec_add(old(self)@, inst, d),
            sp_cpu_wf(final(self)@),
    {
        match inst.mode {
            AddressMode::R_R(r1, _r2) => {
                if matches!(r1, RegisterType::HL) {
                    let hl = self.registers.read_register(RegisterType::HL);
                    let rr = d.value;
                    let sum = (hl as u32) + (rr as u32);
                    let res = lo16(sum);
                    self.registers.set_register(RegisterType::HL, res);
                    self.set_flags(
                        None,
                        Some(false),
                        Some(((hl & 0xFFF) as u32) + ((rr & 0xFFF) as u32) >= 0x1000),
                        Some(sum >= 0x10000),
                    );
                    self.mcycle();
                } else {
                    self.exec_alu(InstructionType::ADD, d);
                }
            },
            AddressMode::R_D8(r1) => {
                if matches!(r1, RegisterType::SP) {
                    let spv = self.registers.sp;
                    let e = d.value;
                    let res = self.add16_signed(spv, e);
                    self.registers.sp = res;
                    self.set_flags(
                        Some(false),
                        Some(false),
                        Some(((spv & 0xF) as u32) + ((e & 0xF) as u32) >= 0x10),
                        Some(((spv & 0xFF) as u32) + ((e & 0xFF) as u32) >= 0x100),
                    );
                    self.mcycle();
                    self.mcycle();
                } else {
                    self.exec_alu(InstructionType::ADD, d);
                }
            },
            _ => self.exec_alu(InstructionType::ADD, d),
        }
    }

    fn add16_signed(&self, base: u16, e: u16) -> (r: u16)
        ensures
            r == sp_add16_signed(base, e),
    {
        let ext: u16 = if e & 0x80 != 0 {
            e | 0xFF00
        } else {
            e & 0x00FF
        };
        lo16((base as u32) + (ext as u32))
    }

    fn exec_ld(&mut self, inst: Instruction, d: FetchedData)
        requires
            sp_cpu_wf(old(self)@),
        ensures
            final(self)@ == sp_exec_ld(old(self)@, inst, d),
            sp_cpu_wf(final(self)@),
    {
        if matches!(inst.mode, AddressMode::HL_SPR(_, _)) {
            let spv = self.registers.sp;
            let e = d.value;
            let res = self.add16_signed(spv, e);
            self.registers.set_register(RegisterType::HL, res);
            self.set_flags(
                Some(false),
                Some(false),
                Some(((spv & 0xF) as u32) + ((e & 0xF) as u32) >= 0x10),
                Some(((spv & 0xFF) as u32) + ((e & 0xFF) as u32) >= 0x100),
            );
            self.mcycle();
        } else {
            match d.dest_addr {
                Some(a) => {
                    if matches!(inst.mode, AddressMode::D16_R(_)) {
                        self.write_cycle(a, lo8(d.value));
                        let a2 = if a == 0xFFFF {
                            0
                        } else {
                            a + 1
                        };
                        self.write_cycle(a2, hi8(d.value));
                    } else {
                        self.write_cycle(a, lo8(d.value));
                    }
                },
                None => {
                    let r1 = ld_dest_reg(inst.mode);
                    self.registers.set_register(r1, d.value);
                    if ld_extra_cycle(inst.mode) {
                        self.mcycle();
                    }
                },
            }
        }
    }

    fn exec_inc(&mut self, inst: Instruction, d: FetchedData)
        requires
            sp_cpu_wf(old(self)@),
        ensures
            final(self)@ == sp_exec_inc(old(self)@, inst, d),
            sp_cpu_wf(final(self)@),
    {
        match inst.mode {
            AddressMode::MR(_r) => {
                let v = lo8(d.value);
                let r = lo8(v as u16 + 1);
                if let Some(a) = d.dest_addr {
                    self.write_cycle(a, r);
                }
                self.set_flags(Some(r == 0), Some(false), Some(v & 0xF == 0xF), None);
            },
            AddressMode::R(r) => {
                if r.is_16bit() {
                    let nv = if d.value == 0xFFFF {
                        0
                    } else {
                        d.value + 1
                    };
                    self.registers.set_register(r, nv);
                    self.mcycle();
                } else {
                    let v = lo8(d.value);
                    let res = lo8(v as u16 + 1);
                    self.registers.set_register(r, res as u16);
                    self.set_flags(Some(res == 0), Some(false), Some(v & 0xF == 0xF), None);
                }
            },
            _ => {},
        }
    }

    fn exec_dec(&mut self, inst: Instruction, d: FetchedData)
        requires
            sp_cpu_wf(old(self)@),
        ensures
            final(self)@ == sp_exec_dec(old(self)@, inst, d),
            sp_cpu_wf(final(self)@),
    {
        match inst.mode {
            AddressMode::MR(_r) => {
                let v = lo8(d.value);
                let r = lo8(v as u16 + 0xFF);
                if let Some(a) = d.dest_addr {
                    self.write_cycle(a, r);
                }
                self.set_flags(Some(r == 0), Some(true), Some(v & 0xF == 0), None);
            },
            AddressMode::R(r) => {
                if r.is_16bit() {
                    let nv = if d.value == 0 {
                        0xFFFF
                    } else {
                        d.value - 1
                    };
                    self.registers.set_register(r, nv);
                    self.mcycle();
                } else {
                    let v = lo8(d.value);
                    let res = lo8(v as u16 + 0xFF);
                    self.registers.set_register(r, res as u16);
                    self.set_flags(Some(res == 0), Some(true), Some(v & 0xF == 0), None);
                }
            },
            _ => {},
        }
    }

    fn exec_rot_a(&mut self, itype: InstructionType)
        requires
            sp_cpu_wf(old(self)@),
        ensures
            final(self)@ == sp_exec_rot_a(old(self)@, itype),
            sp_cpu_wf(final(self)@),
    {
        let a = self.registers.a;
        let cin = self.carry_in();
        let (r, c): (u8, bool) = match itype {
            InstructionType::RLCA => (
                lo8(((a as u16) << 1) | ((a as u16) >> 7)),
                a & 0x80 != 0,
            ),
            InstructionType::RRCA => (
                lo8(((a as u16) >> 1) | (((a as u16) & 1) << 7)),
                a & 1 != 0,
            ),
            InstructionType::RLA => (
                lo8(((a as u16) << 1) | (cin as u16)),
                a & 0x80 != 0,
            ),
            _ => (
                lo8(((a as u16) >> 1) | ((cin as u16) << 7)),
                a & 1 != 0,
            ),
        };
        self.registers.set_register(RegisterType::A, r as u16);
        self.set_flags(Some(false), Some(false), Some(false), Some(c));
    }

    fn exec_daa(&mut self)
        requires
            sp_cpu_wf(old(self)@),
        ensures
            final(self)@ == sp_exec_daa(old(self)@),
            sp_cpu_wf(final(self)@),
    {
        let a = self.registers.a;
        let n = self.registers.flags.get_n();
        let h = self.registers.flags.get_h();
        let c = self.registers.flags.get_c();
        let (r, c_out): (u8, bool) = if !n {
            let set_c = c || a > 0x99;
            let a1 = if set_c {
                lo8(a as u16 + 0x60)
            } else {
                a
            };
            let a2 = if h || (a & 0xF) > 9 {
                lo8(a1 as u16 + 0x06)
            } else {
                a1
            };
            (a2, set_c)
        } else {
            let a1 = if c {
                lo8(a as u16 + 0x100 - 0x60)
            } else {
                a
            };
            let a2 = if h {
                lo8(a1 as u16 + 0x100 - 0x06)
            } else {
                a1
            };
            (a2, c)
        };
        self.registers.set_register(RegisterType::A, r as u16);
        self.set_flags(Some(r == 0), None, Some(false), Some(c_out));
    }

    fn cb_rot(&self, k: u8, v: u8, cin: u8) -> (r: (u8, bool))
        ensures
            r == sp_cb_rot(k, v, cin),
    {
        if k == 0 {
            (lo8(((v as u16) << 1) | ((v as u16) >> 7)), v & 0x80 != 0)
        } else if k == 1 {
            (lo8(((v as u16) >> 1) | (((v as u16) & 1) << 7)), v & 1 != 0)
        } else if k == 2 {
            (lo8(((v as u16) << 1) | (cin as u16)), v & 0x80 != 0)
        } else if k == 3 {
            (lo8(((v as u16) >> 1) | ((cin as u16) << 7)), v & 1 != 0)
        } else if k == 4 {
            (lo8((v as u16) << 1), v & 0x80 != 0)
        } else if k == 5 {
            (lo8(((v as u16) >> 1) | ((v as u16) & 0x80)), v & 1 != 0)
        } else if k == 6 {
            (lo8(((v as u16) << 4) | ((v as u16) >> 4)), false)
        } else {
            (lo8((v as u16) >> 1), v & 1 != 0)
        }
    }

    /// Applies one CB opcode to its operand; returns the result byte and
    /// whether it is written back.
    fn cb_apply(&mut self, op: u8, v: u8) -> (r: (u8, bool))
        requires
            sp_cpu_wf(old(self)@),
        ensures
            (final(self)@, r.0, r.1) == sp_cb_apply(old(self)@, op, v),
            sp_cpu_wf(final(self)@),
    {
        let top = op >> 6;
        let bits = (op >> 3) & 7;
        proof {
            assert((op >> 3) & 7 < 8) by (bit_vector);
        }
        if top == 0 {
            let cin = self.carry_in();
            let (r, c) = self.cb_rot(bits, v, cin);
            self.set_flags(Some(r == 0), Some(false), Some(false), Some(c));
            (r, true)
        } else if top == 1 {
            self.set_flags(Some(v & (1u8 << bits) == 0), Some(false), Some(true), None);
            (v, false)
        } else if top == 2 {
            (v & !(1u8 << bits), true)
        } else {
            (v | (1u8 << bits), true)
        }
    }

    fn exec_cb(&mut self, d: FetchedData)
        requires
            sp_cpu_wf(old(self)@),
        ensures
            final(self)@ == sp_exec_cb(old(self)@, d),
            sp_cpu_wf(final(self)@),
    {
        let op = lo8(d.value);
        let ri = op & 7;
        if ri == 6 {
            let addr = self.registers.read_register(RegisterType::HL);
            let v = self.read_cycle(addr);
            let (r, wb) = self.cb_apply(op, v);
            if wb {
                self.write_cycle(addr, r);
            }
        } else {
            let reg = cb_target_reg(ri);
            let v = lo8(self.registers.read_register(reg));
            let (r, wb) = self.cb_apply(op, v);
            if wb {
                self.registers.set_register(reg, r as u16);
            }
        }
    }

    fn exec_ret(&mut self, inst: Instruction, reti: bool)
        requires
            sp_cpu_wf(old(self)@),
        ensures
            final(self)@ == sp_exec_ret(old(self)@, inst, reti),
            sp_cpu_wf(final(self)@),
    {
        if inst.cond.is_some() {
            self.mcycle();
        }
        if Instruction::check_cond(self, inst.cond) {
            let v = self.stack_pop16();
            self.registers.pc = v;
            self.mcycle();
            if reti {
                self.bus.io.interrupts.ime = true;
            }
        }
    }

    /// Executes one decoded instruction on its fetched operand.
    #[verifier::rlimit(100)]
    pub fn execute(&mut self, inst: Instruction, d: FetchedData)
        requires
            sp_cpu_wf(old(self)@),
        ensures
            final(self)@ == sp_execute(old(self)@, inst, d),
            sp_cpu_wf(final(self)@),
    {
        proof {
            reveal(sp_execute);
        }
        match inst.itype {
            InstructionType::NOP => {},
            InstructionType::LD | InstructionType::LDH => self.exec_ld(inst, d),
            InstructionType::INC => self.exec_inc(inst, d),
            InstructionType::DEC => self.exec_dec(inst, d),
            InstructionType::ADD => self.exec_add(inst, d),
            InstructionType::ADC | InstructionType::SUB | InstructionType::SBC
                | InstructionType::AND | InstructionType::XOR | InstructionType::OR
                | InstructionType::CP => self.exec_alu(inst.itype, d),
            InstructionType::RLCA | InstructionType::RRCA | InstructionType::RLA
                | InstructionType::RRA => self.exec_rot_a(inst.itype),
            InstructionType::DAA => self.exec_daa(),
            InstructionType::CPL => {
                let na = self.registers.a ^ 0xFF;
                self.registers.set_register(RegisterType::A, na as u16);
                self.set_flags(None, Some(true), Some(true), None);
            },
            InstructionType::SCF => self.set_flags(None, Some(false), Some(false), Some(true)),
            InstructionType::CCF => {
                let c = self.registers.flags.get_c();
                self.set_flags(None, Some(false), Some(false), Some(!c));
            },
            InstructionType::JR => {
                let addr = self.add16_signed(self.registers.pc, d.value);
                Instruction::goto_addr(self, inst.cond, addr, false);
            },
            InstructionType::JP => {
                if matches!(inst.mode, AddressMode::R(_)) {
                    self.registers.pc = d.value;
                } else {
                    Instruction::goto_addr(self, inst.cond, d.value, false);
                }
            },
            InstructionType::CALL => Instruction::goto_addr(self, inst.cond, d.value, true),
            InstructionType::RST => {
                let addr = (self.current_opcode & 0x38) as u16;
                Instruction::goto_addr(self, None, addr, true);
            },
            InstructionType::RET => self.exec_ret(inst, false),
            InstructionType::RETI => self.exec_ret(inst, true),
            InstructionType::POP => {
                let v = self.stack_pop16();
                match inst.mode {
                    AddressMode::R(r) => self.registers.set_register(r, v),
                    _ => {},
                }
            },
            InstructionType::PUSH => {
                self.mcycle();
                self.stack_push16(d.value);
            },
            InstructionType::CB => self.exec_cb(d),
            InstructionType::DI => {
                self.enabling_ime = false;
                self.bus.io.interrupts.ime = false;
            },
            InstructionType::EI => {
                self.enabling_ime = true;
            },
            InstructionType::HALT => {
                self.bus.io.interrupts.cpu_halted = true;
            },
            InstructionType::STOP => {
                self.bus.io.timer.write(TimerAddress::Div, 0);
            },
        }
    }
}

/// The register a load lands in; the executable twin of `sp_ld_dest_reg`.
fn ld_dest_reg(mode: AddressMode) -> (r: RegisterType)
    ensures
        r == sp_ld_dest_reg(mode),
{
    match mode {
        AddressMode::R(r) => r,
        AddressMode::R_R(r, _) => r,
        AddressMode::R_D8(r) => r,
        AddressMode::R_D16(r) => r,
        AddressMode::R_MR(r, _) => r,
        AddressMode::R_HLI(r, _) => r,
        AddressMode::R_HLD(r, _) => r,
        AddressMode::R_A8(r) => r,
        AddressMode::R_A16(r) => r,
        _ => RegisterType::A,
    }
}

fn ld_extra_cycle(mode: AddressMode) -> (r: bool)
    ensures
        r == sp_ld_extra_cycle(mode),
{
    match mode {
        AddressMode::R_R(r1, r2) => r1.is_16bit() && r2.is_16bit(),
        _ => false,
    }
}

/// The 8-bit register a CB opcode's low three bits name (6, memory through
/// HL, is handled by the caller).
fn cb_target_reg(ri: u8) -> (r: RegisterType)
    ensures
        r == sp_reg8(ri),
{
    if ri == 0 {
        RegisterType::B
    } else if ri == 1 {
        RegisterType::C
    } else if ri == 2 {
        RegisterType::D
    } else if ri == 3 {
        RegisterType::E
    } else if ri == 4 {
        RegisterType::H
    } else if ri == 5 {
        RegisterType::L
    } else if ri == 6 {
        RegisterType::HL
    } else {
        RegisterType::A
    }
}


/// The five-m-cycle interrupt dispatch: two idle m-cycles, the two pushes
/// of PC, then PC moves to the kind's vector while IME and its IF bit clear
/// and a halted CPU wakes, for one more m-cycle.
#[verifier::opaque]
pub open spec fn sp_dispatch(s: CpuV, k: InterruptType) -> CpuV {
    let s1 = sp_mcycle(sp_mcycle(s));
    let s2 = sp_stack_push16(s1, s1.registers.pc);
    let s3 = CpuV {
        registers: Registers { pc: sp_int_address(k), ..s2.registers },
        bus: BusV {
            io: Io {
                interrupts: sp_handle_interrupt(s2.bus.io.interrupts, k),
                ..s2.bus.io
            },
            ..s2.bus
        },
        ..s2
    };
    sp_mcycle(s3)
}

/// The end of a step: with IME set, the highest-priority pending interrupt
/// dispatches and any EI delay is consumed; otherwise a pending EI delay
/// turns IME on, so the instruction after EI always runs first.
#[verifier::opaque]
pub open spec fn sp_post_interrupt(s: CpuV) -> CpuV {
    let s1 = if s.bus.io.interrupts.ime {
        let s0 = match sp_pending_interrupt(s.bus.io.interrupts) {
            Some(k) => sp_dispatch(s, k),
            None => s,
        };
        CpuV { enabling_ime: false, ..s0 }
    } else {
        s
    };
    if s1.enabling_ime {
        CpuV {
            bus: BusV {
                io: Io {
                    interrupts: Interrupts { ime: true, ..s1.bus.io.interrupts },
                    ..s1.bus.io
                },
                ..s1.bus
            },
            ..s1
        }
    } else {
        s1
    }
}

/// The opcode fetch: one bus read at PC, PC advances, one m-cycle, and the
/// opcode is latched.
pub open spec fn sp_fetch_opcode(s: CpuV) -> (CpuV, u8) {
    let op = sp_bus_read(s.bus, s.registers.pc);
    let s1 = CpuV {
        registers: Registers { pc: sp_word_inc(s.registers.pc), ..s.registers },
        current_opcode: op,
        ..s
    };
    (sp_mcycle(s1), op)
}

/// One CPU step. A halted CPU pays one m-cycle and wakes on any IF bit,
/// dispatching at once if IME allows; otherwise one opcode is fetched,
/// decoded (an undefined opcode fails the step), its operand fetched, the
/// instruction executed, and pending interrupts and the EI delay resolved.
pub open spec fn sp_step(s: CpuV) -> (CpuV, Option<u8>) {
    if s.bus.io.interrupts.cpu_halted {
        let s1 = sp_mcycle(s);
        if s1.bus.io.interrupts.int_flags != 0 {
            let s2 = CpuV {
                bus: BusV {
                    io: Io {
                        interrupts: Interrupts { cpu_halted: false, ..s1.bus.io.interrupts },
                        ..s1.bus.io
                    },
                    ..s1.bus
                },
                ..s1
            };
            let s3 = if s2.bus.io.interrupts.ime {
                match sp_pending_interrupt(s2.bus.io.interrupts) {
                    Some(k) => sp_dispatch(s2, k),
                    None => s2,
                }
            } else {
                s2
            };
            (s3, None)
        } else {
            (s1, None)
        }
    } else {
        let (s1, op) = sp_fetch_opcode(s);
        match sp_decode(op) {
            None => (s1, Some(op)),
            Some(inst) => {
                let (s2, d) = sp_fetch_data(s1, inst.mode);
                let s3 = sp_execute(s2, inst, d);
                (sp_post_interrupt(s3), None)
            },
        }
    }
}

impl Cpu {
    /// Fetches and latches the opcode at PC.
    fn fetch_opcode(&mut self) -> (op: u8)
        requires
            sp_cpu_wf(old(self)@),
        ensures
            (final(self)@, op) == sp_fetch_opcode(old(self)@),
            sp_cpu_wf(final(self)@),
    {
        let op = self.bus.read(self.registers.pc);
        self.registers.pc = if self.registers.pc == 0xFFFF {
            0
        } else {
            self.registers.pc + 1
        };
        self.current_opcode = op;
        self.mcycle();
        op
    }

    /// Dispatches one interrupt kind: five m-cycles in all.
    fn handle_interrupt(&mut self, it: InterruptType)
        requires
            sp_cpu_wf(old(self)@),
        ensures
            final(self)@ == sp_dispatch(old(self)@, it),
            sp_cpu_wf(final(self)@),
    {
        proof {
            reveal(sp_dispatch);
        }
        self.mcycle();
        self.mcycle();
        let pc = self.registers.pc;
        self.stack_push16(pc);
        self.registers.pc = it.get_address();
        self.bus.io.interrupts.handle_interrupt(it);
        self.mcycle();
    }

    fn post_interrupt(&mut self)
        requires
            sp_cpu_wf(old(self)@),
        ensures
            final(self)@ == sp_post_interrupt(old(self)@),
            sp_cpu_wf(final(self)@),
    {
        proof {
            reveal(sp_post_interrupt);
        }
        if self.bus.io.interrupts.ime {
            match self.bus.io.interrupts.get_interrupt() {
                Some(k) => self.handle_interrupt(k),
                None => {},
            }
            self.enabling_ime = false;
        }
        if self.enabling_ime {
            self.bus.io.interrupts.ime = true;
        }
    }

    /// One CPU step: interrupt service for a halted CPU, or one full
    /// fetch-decode-execute round with the interrupt and EI-delay epilogue.
    /// Fails exactly on the eleven undefined opcodes, with the opcode.
    pub fn step(&mut self) -> (r: Result<(), StepError>)
        requires
            sp_cpu_wf(old(self)@),
        ensures
            final(self)@ == sp_step(old(self)@).0,
            sp_cpu_wf(final(self)@),
            (match sp_step(old(self)@).1 {
                Some(op) => r == Err::<(), StepError>(StepError::UnknownOpcode(op)),
                None => r == Ok::<(), StepError>(()),
            }),
    {
        if self.bus.io.interrupts.cpu_halted {
            self.mcycle();
            if self.bus.io.interrupts.int_flags != 0 {
                self.bus.io.interrupts.cpu_halted = false;
                if self.bus.io.interrupts.ime {
                    match self.bus.io.interrupts.get_interrupt() {
                        Some(k) => self.handle_interrupt(k),
                        None => {},
                    }
                }
            }
            return Ok(());
        }
        let op = self.fetch_opcode();
        let inst_opt = Instruction::get_by_opcode(op);
        match inst_opt {
            None => Err(StepError::UnknownOpcode(op)),
            Some(inst) => {
                let d = self.fetch_data(inst.mode);
                self.execute(inst, d);
                self.post_interrupt();
                Ok(())
            },
        }
    }
}

} // verus!
