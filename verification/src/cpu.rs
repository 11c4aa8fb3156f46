//! The CPU: the SM83 register file bound to the bus, the cycle accounting
//! that threads every m-cycle through the timer and the APU, and the operand
//! fetch of every address mode.

use crate::bus::{sp_bus_read, sp_bus_write, Bus, BusV};
use crate::instructions::{
    sp_is_16bit, AddressMode, ConditionType, FetchedData, Instruction, RegisterType,
};
use crate::interrupts::{sp_request_interrupt, InterruptType};
use crate::io::Io;
use crate::registers::{sp_read_reg, sp_set_reg, Registers};
use crate::timer::sp_timer_tick;
use crate::apu::sp_apu_tick;
use vstd::prelude::*;

verus! {

/// The error `step` surfaces: one of the eleven undefined opcodes was
/// fetched.
#[derive(Debug, Clone, Copy, PartialEq, Eq)]
pub enum StepError {
    UnknownOpcode(u8),
}

/// The CPU bound to its bus. `ticks` counts t-cycles; every bus access and
/// internal m-cycle advances it by four and drives the peripherals.
#[derive(Debug, Clone)]
pub struct Cpu {
    pub bus: Bus,
    pub registers: Registers,
    pub enabling_ime: bool,
    pub ticks: u64,
    pub current_opcode: u8,
}

/// The mathematical view of the whole machine.
pub struct CpuV {
    pub bus: BusV,
    pub registers: Registers,
    pub enabling_ime: bool,
    pub ticks: u64,
    pub current_opcode: u8,
}

impl View for Cpu {
    type V = CpuV;

    open spec fn view(&self) -> CpuV {
        CpuV {
            bus: self.bus@,
            registers: self.registers,
            enabling_ime: self.enabling_ime,
            ticks: self.ticks,
            current_opcode: self.current_opcode,
        }
    }
}

/// The machine invariant: the bus invariant and the flag nibble.
pub open spec fn sp_cpu_wf(s: CpuV) -> bool {
    &&& s.bus.wf()
    &&& s.registers.wf()
}

/// A 16-bit value incremented with wrap-around.
pub open spec fn sp_word_inc(v: u16) -> u16 {
    if v == 0xFFFF {
        0
    } else {
        (v + 1) as u16
    }
}

/// A 16-bit value decremented with wrap-around.
pub open spec fn sp_word_dec(v: u16) -> u16 {
    if v == 0 {
        0xFFFF
    } else {
        (v - 1) as u16
    }
}

/// The low byte of a 16-bit value.
pub open spec fn sp_lo8(v: u16) -> u8 {
    (v & 0xFF) as u8
}

/// The high byte of a 16-bit value.
pub open spec fn sp_hi8(v: u16) -> u8 {
    ((v >> 8) & 0xFF) as u8
}

/// A fetched byte sign-extended to sixteen bits.
pub open spec fn sp_sign_ext(v: u16) -> u16 {
    if v & 0x80 != 0 {
        v | 0xFF00
    } else {
        v & 0x00FF
    }
}

proof fn lemma_byte_halves(v: u16)
    by (bit_vector)
    ensures
        v & 0xFF < 256,
        (v >> 8) & 0xFF < 256,
{
}

/// The low byte of a 16-bit value, as the executable twin of `sp_lo8`.
pub fn lo8(v: u16) -> (r: u8)
    ensures
        r == sp_lo8(v),
{
    proof {
        lemma_byte_halves(v);
    }
    (v & 0xFF) as u8
}

/// The high byte of a 16-bit value, as the executable twin of `sp_hi8`.
pub fn hi8(v: u16) -> (r: u8)
    ensures
        r == sp_hi8(v),
{
    proof {
        lemma_byte_halves(v);
    }
    ((v >> 8) & 0xFF) as u8
}

/// One t-cycle of the whole machine: the tick counter, the timer (which may
/// raise the Timer interrupt) and the APU each advance once. Opaque: callers
/// reason through `sp_mcycle` without unfolding the peripherals.
#[verifier::opaque]
pub open spec fn sp_t_tick(s: CpuV) -> CpuV {
    let ticks2: u64 = if s.ticks == 0xFFFFFFFFFFFFFFFFu64 {
        0
    } else {
        (s.ticks + 1) as u64
    };
    let (t2, irq) = sp_timer_tick(s.bus.io.timer);
    let ints2 = if irq {
        sp_request_interrupt(s.bus.io.interrupts, InterruptType::Timer)
    } else {
        s.bus.io.interrupts
    };
    let apu2 = sp_apu_tick(s.bus.io.apu);
    CpuV {
        ticks: ticks2,
        bus: BusV {
            io: Io { timer: t2, interrupts: ints2, apu: apu2, ..s.bus.io },
            ..s.bus
        },
        ..s
    }
}

/// One m-cycle: four t-cycles.
pub open spec fn sp_mcycle(s: CpuV) -> CpuV {
    sp_t_tick(sp_t_tick(sp_t_tick(sp_t_tick(s))))
}

/// `n` m-cycles in sequence.
pub open spec fn sp_mcycles(s: CpuV, n: nat) -> CpuV
    decreases n,
{
    if n == 0 {
        s
    } else {
        sp_mcycle(sp_mcycles(s, (n - 1) as nat))
    }
}

/// An 8-bit bus read costing one m-cycle: the value is what the bus held
/// before the peripherals advance.
pub open spec fn sp_read_cycle(s: CpuV, addr: u16) -> (CpuV, u8) {
    (sp_mcycle(s), sp_bus_read(s.bus, addr))
}

/// An 8-bit bus write costing one m-cycle.
pub open spec fn sp_write_cycle(s: CpuV, addr: u16, v: u8) -> CpuV {
    sp_mcycle(CpuV { bus: sp_bus_write(s.bus, addr, v), ..s })
}

/// One immediate byte: read at PC, advance PC, pay one m-cycle.
pub open spec fn sp_fetch_byte(s: CpuV) -> (CpuV, u8) {
    let v = sp_bus_read(s.bus, s.registers.pc);
    let s1 = CpuV {
        registers: Registers { pc: sp_word_inc(s.registers.pc), ..s.registers },
        ..s
    };
    (sp_mcycle(s1), v)
}

/// A 16-bit immediate: two bytes, low first, two m-cycles.
pub open spec fn sp_fetch16(s: CpuV) -> (CpuV, u16) {
    let (s1, lo) = sp_fetch_byte(s);
    let (s2, hi) = sp_fetch_byte(s1);
    (s2, (lo as u16) | ((hi as u16) << 8))
}

/// The address a memory-operand register names: a 16-bit pair directly, an
/// 8-bit register (only C) offset into the 0xFF00 page.
pub open spec fn sp_mr_addr(regs: Registers, r: RegisterType) -> u16 {
    if sp_is_16bit(r) {
        sp_read_reg(regs, r)
    } else {
        0xFF00u16 | sp_read_reg(regs, r)
    }
}

/// The registers with HL replaced.
pub open spec fn sp_set_hl(regs: Registers, v: u16) -> Registers {
    sp_set_reg(regs, RegisterType::HL, v)
}

/// What each address mode fetches, which m-cycles it pays, and where the
/// result will land.
#[verifier::opaque]
pub open spec fn sp_fetch_data(s: CpuV, mode: AddressMode) -> (CpuV, FetchedData) {
    match mode {
        AddressMode::IMP => (s, FetchedData { value: 0, dest_addr: None }),
        AddressMode::R(r) => (
            s,
            FetchedData { value: sp_read_reg(s.registers, r), dest_addr: None },
        ),
        AddressMode::R_R(_r1, r2) => (
            s,
            FetchedData { value: sp_read_reg(s.registers, r2), dest_addr: None },
        ),
        AddressMode::R_D8(_) | AddressMode::D8 => {
            let (s1, v) = sp_fetch_byte(s);
            (s1, FetchedData { value: v as u16, dest_addr: None })
        },
        AddressMode::R_D16(_) | AddressMode::D16 => {
            let (s1, v) = sp_fetch16(s);
            (s1, FetchedData { value: v, dest_addr: None })
        },
        AddressMode::R_MR(_r1, r2) => {
            let addr = sp_mr_addr(s.registers, r2);
            let (s1, v) = sp_read_cycle(s, addr);
            (s1, FetchedData { value: v as u16, dest_addr: None })
        },
        AddressMode::MR_R(r1, r2) => {
            let addr = sp_mr_addr(s.registers, r1);
            (
                s,
                FetchedData { value: sp_read_reg(s.registers, r2), dest_addr: Some(addr) },
            )
        },
        AddressMode::R_HLI(_r1, _r2) => {
            let addr = sp_read_reg(s.registers, RegisterType::HL);
            let (s1, v) = sp_read_cycle(s, addr);
            let s2 = CpuV { registers: sp_set_hl(s1.registers, sp_word_inc(addr)), ..s1 };
            (s2, FetchedData { value: v as u16, dest_addr: None })
        },
        AddressMode::R_HLD(_r1, _r2) => {
            let addr = sp_read_reg(s.registers, RegisterType::HL);
            let (s1, v) = sp_read_cycle(s, addr);
            let s2 = CpuV { registers: sp_set_hl(s1.registers, sp_word_dec(addr)), ..s1 };
            (s2, FetchedData { value: v as u16, dest_addr: None })
        },
        AddressMode::HLI_R(_r1, r2) => {
            let addr = sp_read_reg(s.registers, RegisterType::HL);
            let s1 = CpuV { registers: sp_set_hl(s.registers, sp_word_inc(addr)), ..s };
            (
                s1,
                FetchedData { value: sp_read_reg(s.registers, r2), dest_addr: Some(addr) },
            )
        },
        AddressMode::HLD_R(_r1, r2) => {
            let addr = sp_read_reg(s.registers, RegisterType::HL);
            let s1 = CpuV { registers: sp_set_hl(s.registers, sp_word_dec(addr)), ..s };
            (
                s1,
                FetchedData { value: sp_read_reg(s.registers, r2), dest_addr: Some(addr) },
            )
        },
        AddressMode::R_A8(_r) => {
            let (s1, n) = sp_fetch_byte(s);
            let (s2, v) = sp_read_cycle(s1, 0xFF00u16 | (n as u16));
            (s2, FetchedData { value: v as u16, dest_addr: None })
        },
        AddressMode::A8_R(r) => {
            let (s1, n) = sp_fetch_byte(s);
            (
                s1,
                FetchedData {
                    value: sp_read_reg(s1.registers, r),
                    dest_addr: Some(0xFF00u16 | (n as u16)),
                },
            )
        },
        AddressMode::HL_SPR(_r1, _r2) => {
            let (s1, v) = sp_fetch_byte(s);
            (s1, FetchedData { value: v as u16, dest_addr: None })
        },
        AddressMode::D16_R(r) => {
            let (s1, a) = sp_fetch16(s);
            (
                s1,
                FetchedData { value: sp_read_reg(s1.registers, r), dest_addr: Some(a) },
            )
        },
        AddressMode::MR_D8(r) => {
            let (s1, v) = sp_fetch_byte(s);
            (
                s1,
                FetchedData {
                    value: v as u16,
                    dest_addr: Some(sp_read_reg(s1.registers, r)),
                },
            )
        },
        AddressMode::MR(r) => {
            let addr = sp_read_reg(s.registers, r);
            let (s1, v) = sp_read_cycle(s, addr);
            (s1, FetchedData { value: v as u16, dest_addr: Some(addr) })
        },
        AddressMode::A16_R(r) => {
            let (s1, a) = sp_fetch16(s);
            (
                s1,
                FetchedData { value: sp_read_reg(s1.registers, r), dest_addr: Some(a) },
            )
        },
        AddressMode::R_A16(_r) => {
            let (s1, a) = sp_fetch16(s);
            let (s2, v) = sp_read_cycle(s1, a);
            (s2, FetchedData { value: v as u16, dest_addr: None })
        },
    }
}

/// Whether a condition holds of the flag byte; no condition always holds.
pub open spec fn sp_check_cond(f: u8, cond: Option<ConditionType>) -> bool {
    match cond {
        None => true,
        Some(ConditionType::C) => f & 0x10 != 0,
        Some(ConditionType::NC) => f & 0x10 == 0,
        Some(ConditionType::Z) => f & 0x80 != 0,
        Some(ConditionType::NZ) => f & 0x80 == 0,
    }
}

/// A 16-bit push: SP decrements before each byte, high byte first.
pub open spec fn sp_stack_push16(s: CpuV, v: u16) -> CpuV {
    let sp1 = sp_word_dec(s.registers.sp);
    let s1 = sp_write_cycle(
        CpuV { registers: Registers { sp: sp1, ..s.registers }, ..s },
        sp1,
        sp_hi8(v),
    );
    let sp2 = sp_word_dec(s1.registers.sp);
    sp_write_cycle(
        CpuV { registers: Registers { sp: sp2, ..s1.registers }, ..s1 },
        sp2,
        sp_lo8(v),
    )
}

/// A 16-bit pop: low byte first, SP increments after each byte.
pub open spec fn sp_stack_pop16(s: CpuV) -> (CpuV, u16) {
    let (s1, lo) = sp_read_cycle(s, s.registers.sp);
    let s2 = CpuV {
        registers: Registers { sp: sp_word_inc(s1.registers.sp), ..s1.registers },
        ..s1
    };
    let (s3, hi) = sp_read_cycle(s2, s2.registers.sp);
    let s4 = CpuV {
        registers: Registers { sp: sp_word_inc(s3.registers.sp), ..s3.registers },
        ..s3
    };
    (s4, (lo as u16) | ((hi as u16) << 8))
}

/// A jump or call gated by a condition. A call pays one internal m-cycle
/// and pushes PC; a plain jump pays one internal m-cycle after setting PC.
pub open spec fn sp_goto_addr(
    s: CpuV,
    cond: Option<ConditionType>,
    addr: u16,
    push_pc: bool,
) -> CpuV {
    if sp_check_cond(s.registers.flags.byte, cond) {
        if push_pc {
            let s1 = sp_mcycle(s);
            let s2 = sp_stack_push16(s1, s1.registers.pc);
            CpuV { registers: Registers { pc: addr, ..s2.registers }, ..s2 }
        } else {
            let s1 = CpuV { registers: Registers { pc: addr, ..s.registers }, ..s };
            sp_mcycle(s1)
        }
    } else {
        s
    }
}

impl Cpu {
    /// A CPU over a bus, in the post-boot register state.
    pub fn new(bus: Bus) -> (r: Cpu)
        ensures
            r@.bus == bus@,
            r@.registers == crate::registers::sp_initial_registers(),
            !r@.enabling_ime,
            r@.ticks == 0,
            r@.current_opcode == 0,
            bus@.wf() ==> sp_cpu_wf(r@),
    {
        Cpu {
            bus,
            registers: Registers::new(),
            enabling_ime: false,
            ticks: 0,
            current_opcode: 0,
        }
    }

    /// One t-cycle: the counter, the timer and the APU advance together.
    fn t_tick(&mut self)
        ensures
            final(self)@ == sp_t_tick(old(self)@),
            sp_cpu_wf(old(self)@) ==> sp_cpu_wf(final(self)@),
    {
        proof {
            reveal(sp_t_tick);
            if crate::apu::sp_apu_wf(self.bus.io.apu) {
                crate::apu::lemma_apu_tick_wf(self.bus.io.apu);
            }
        }
        self.ticks = if self.ticks == 0xFFFFFFFFFFFFFFFF {
            0
        } else {
            self.ticks + 1
        };
        let irq = self.bus.io.timer.tick();
        if irq {
            self.bus.io.interrupts.request_interrupt(InterruptType::Timer);
        }
        self.bus.io.apu.tick();
    }

    /// One m-cycle: four t-cycles.
    pub(crate) fn mcycle(&mut self)
        ensures
            final(self)@ == sp_mcycle(old(self)@),
            sp_cpu_wf(old(self)@) ==> sp_cpu_wf(final(self)@),
    {
        self.t_tick();
        self.t_tick();
        self.t_tick();
        self.t_tick();
    }

    /// Pays `m_cycles` m-cycles, driving the peripherals through each.
    pub fn update_cycles(&mut self, m_cycles: u32)
        ensures
            final(self)@ == sp_mcycles(old(self)@, m_cycles as nat),
            sp_cpu_wf(old(self)@) ==> sp_cpu_wf(final(self)@),
    {
        let mut i: u32 = 0;
        while i < m_cycles
            invariant
                i <= m_cycles,
                self@ == sp_mcycles(old(self)@, i as nat),
                sp_cpu_wf(old(self)@) ==> sp_cpu_wf(self@),
            decreases m_cycles - i,
        {
            self.mcycle();
            i = i + 1;
        }
    }

    /// An 8-bit bus read costing one m-cycle.
    pub(crate) fn read_cycle(&mut self, addr: u16) -> (r: u8)
        requires
            sp_cpu_wf(old(self)@),
        ensures
            (final(self)@, r) == sp_read_cycle(old(self)@, addr),
            sp_cpu_wf(final(self)@),
    {
        let v = self.bus.read(addr);
        self.mcycle();
        v
    }

    /// An 8-bit bus write costing one m-cycle.
    pub(crate) fn write_cycle(&mut self, addr: u16, v: u8)
        requires
            sp_cpu_wf(old(self)@),
        ensures
            final(self)@ == sp_write_cycle(old(self)@, addr, v),
            sp_cpu_wf(final(self)@),
    {
        self.bus.write(addr, v);
        self.mcycle();
    }

    /// One immediate byte at PC; PC advances and one m-cycle is paid.
    pub(crate) fn fetch_byte(&mut self) -> (r: u8)
        requires
            sp_cpu_wf(old(self)@),
        ensures
            (final(self)@, r) == sp_fetch_byte(old(self)@),
            sp_cpu_wf(final(self)@),
    {
        let v = self.bus.read(self.registers.pc);
        self.registers.pc = if self.registers.pc == 0xFFFF {
            0
        } else {
            self.registers.pc + 1
        };
        self.mcycle();
        v
    }

    /// A 16-bit immediate, low byte first.
    pub(crate) fn fetch16(&mut self) -> (r: u16)
        requires
            sp_cpu_wf(old(self)@),
        ensures
            (final(self)@, r) == sp_fetch16(old(self)@),
            sp_cpu_wf(final(self)@),
    {
        let lo = self.fetch_byte();
        let hi = self.fetch_byte();
        (lo as u16) | ((hi as u16) << 8)
    }

    fn mr_addr(&self, r: RegisterType) -> (a: u16)
        ensures
            a == sp_mr_addr(self.registers, r),
    {
        if r.is_16bit() {
            self.registers.read_register(r)
        } else {
            0xFF00u16 | self.registers.read_register(r)
        }
    }

    /// Fetches the operand an address mode names, paying its m-cycles.
    pub fn fetch_data(&mut self, mode: AddressMode) -> (r: FetchedData)
        requires
            sp_cpu_wf(old(self)@),
        ensures
            (final(self)@, r) == sp_fetch_data(old(self)@, mode),
            sp_cpu_wf(final(self)@),
    {
        proof {
            reveal(sp_fetch_data);
        }
        match mode {
            AddressMode::IMP => FetchedData { value: 0, dest_addr: None },
            AddressMode::R(r) => FetchedData {
                value: self.registers.read_register(r),
                dest_addr: None,
            },
            AddressMode::R_R(_r1, r2) => FetchedData {
                value: self.registers.read_register(r2),
                dest_addr: None,
            },
            AddressMode::R_D8(_) | AddressMode::D8 => {
                let v = self.fetch_byte();
                FetchedData { value: v as u16, dest_addr: None }
            },
            AddressMode::R_D16(_) | AddressMode::D16 => {
                let v = self.fetch16();
                FetchedData { value: v, dest_addr: None }
            },
            AddressMode::R_MR(_r1, r2) => {
                let addr = self.mr_addr(r2);
                let v = self.read_cycle(addr);
                FetchedData { value: v as u16, dest_addr: None }
            },
            AddressMode::MR_R(r1, r2) => {
                let addr = self.mr_addr(r1);
                FetchedData {
                    value: self.registers.read_register(r2),
                    dest_addr: Some(addr),
                }
            },
            AddressMode::R_HLI(_r1, _r2) => {
                let addr = self.registers.read_register(RegisterType::HL);
                let v = self.read_cycle(addr);
                self.registers.set_register(
                    RegisterType::HL,
                    if addr == 0xFFFF {
                        0
                    } else {
                        addr + 1
                    },
                );
                FetchedData { value: v as u16, dest_addr: None }
            },
            AddressMode::R_HLD(_r1, _r2) => {
                let addr = self.registers.read_register(RegisterType::HL);
                let v = self.read_cycle(addr);
                self.registers.set_register(
                    RegisterType::HL,
                    if addr == 0 {
                        0xFFFF
                    } else {
                        addr - 1
                    },
                );
                FetchedData { value: v as u16, dest_addr: None }
            },
            AddressMode::HLI_R(_r1, r2) => {
                let addr = self.registers.read_register(RegisterType::HL);
                let value = self.registers.read_register(r2);
                self.registers.set_register(
                    RegisterType::HL,
                    if addr == 0xFFFF {
                        0
                    } else {
                        addr + 1
                    },
                );
                FetchedData { value, dest_addr: Some(addr) }
            },
            AddressMode::HLD_R(_r1, r2) => {
                let addr = self.registers.read_register(RegisterType::HL);
                let value = self.registers.read_register(r2);
                self.registers.set_register(
                    RegisterType::HL,
                    if addr == 0 {
                        0xFFFF
                    } else {
                        addr - 1
                    },
                );
                FetchedData { value, dest_addr: Some(addr) }
            },
            AddressMode::R_A8(_r) => {
                let n = self.fetch_byte();
                let v = self.read_cycle(0xFF00u16 | (n as u16));
                FetchedData { value: v as u16, dest_addr: None }
            },
            AddressMode::A8_R(r) => {
                let n = self.fetch_byte();
                FetchedData {
                    value: self.registers.read_register(r),
                    dest_addr: Some(0xFF00u16 | (n as u16)),
                }
            },
            AddressMode::HL_SPR(_r1, _r2) => {
                let v = self.fetch_byte();
                FetchedData { value: v as u16, dest_addr: None }
            },
            AddressMode::D16_R(r) => {
                let a = self.fetch16();
                FetchedData {
                    value: self.registers.read_register(r),
                    dest_addr: Some(a),
                }
            },
            AddressMode::MR_D8(r) => {
                let v = self.fetch_byte();
                FetchedData {
                    value: v as u16,
                    dest_addr: Some(self.registers.read_register(r)),
                }
            },
            AddressMode::MR(r) => {
                let addr = self.registers.read_register(r);
                let v = self.read_cycle(addr);
                FetchedData { value: v as u16, dest_addr: Some(addr) }
            },
            AddressMode::A16_R(r) => {
                let a = self.fetch16();
                FetchedData {
                    value: self.registers.read_register(r),
                    dest_addr: Some(a),
                }
            },
            AddressMode::R_A16(_r) => {
                let a = self.fetch16();
                let v = self.read_cycle(a);
                FetchedData { value: v as u16, dest_addr: None }
            },
        }
    }

    /// Pushes a 16-bit value, high byte first, two m-cycles.
    pub(crate) fn stack_push16(&mut self, v: u16)
        requires
            sp_cpu_wf(old(self)@),
        ensures
            final(self)@ == sp_stack_push16(old(self)@, v),
            sp_cpu_wf(final(self)@),
    {
        self.registers.sp = if self.registers.sp == 0 {
            0xFFFF
        } else {
            self.registers.sp - 1
        };
        let sp1 = self.registers.sp;
        self.write_cycle(sp1, hi8(v));
        self.registers.sp = if self.registers.sp == 0 {
            0xFFFF
        } else {
            self.registers.sp - 1
        };
        let sp2 = self.registers.sp;
        self.write_cycle(sp2, lo8(v));
    }

    /// Pops a 16-bit value, low byte first, two m-cycles.
    pub(crate) fn stack_pop16(&mut self) -> (r: u16)
        requires
            sp_cpu_wf(old(self)@),
        ensures
            (final(self)@, r) == sp_stack_pop16(old(self)@),
            sp_cpu_wf(final(self)@),
    {
        let lo = self.read_cycle(self.registers.sp);
        self.registers.sp = if self.registers.sp == 0xFFFF {
            0
        } else {
            self.registers.sp + 1
        };
        let hi = self.read_cycle(self.registers.sp);
        self.registers.sp = if self.registers.sp == 0xFFFF {
            0
        } else {
            self.registers.sp + 1
        };
        (lo as u16) | ((hi as u16) << 8)
    }
}

impl Instruction {
    /// Whether the flags satisfy a conditional instruction's condition.
    pub fn check_cond(cpu: &Cpu, cond: Option<ConditionType>) -> (r: bool)
        ensures
            r == sp_check_cond(cpu.registers.flags.byte, cond),
    {
        let Some(cond) = cond else {
            return true;
        };
        match cond {
            ConditionType::C => cpu.registers.flags.get_c(),
            ConditionType::NC => !cpu.registers.flags.get_c(),
            ConditionType::Z => cpu.registers.flags.get_z(),
            ConditionType::NZ => !cpu.registers.flags.get_z(),
        }
    }

    /// Jumps to `addr` when the condition holds; a call additionally pays an
    /// internal m-cycle and pushes the return address.
    pub fn goto_addr(cpu: &mut Cpu, cond: Option<ConditionType>, addr: u16, push_pc: bool)
        requires
            sp_cpu_wf(old(cpu)@),
        ensures
            final(cpu)@ == sp_goto_addr(old(cpu)@, cond, addr, push_pc),
            sp_cpu_wf(final(cpu)@),
    {
        if Instruction::check_cond(cpu, cond) {
            if push_pc {
                cpu.mcycle();
                let pc = cpu.registers.pc;
                cpu.stack_push16(pc);
                cpu.registers.pc = addr;
            } else {
                cpu.registers.pc = addr;
                cpu.mcycle();
            }
        }
    }
}

} // verus!
