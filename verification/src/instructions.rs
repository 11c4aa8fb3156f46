//! The SM83 instruction model: every opcode decodes to an operation kind and
//! an address mode describing what to fetch and where the result lands.

use vstd::prelude::*;

verus! {

/// The CPU registers an instruction can name.
#[derive(Debug, Clone, Copy, PartialEq, Eq, Structural)]
pub enum RegisterType {
    /// Accumulator register, used for arithmetic and logic operations.
    A,
    /// Flags register, holds condition flags (Z, N, H, C).
    F,
    /// General-purpose register B.
    B,
    /// General-purpose register C.
    C,
    /// General-purpose register D.
    D,
    /// General-purpose register E.
    E,
    /// High byte of the HL register pair.
    H,
    /// Low byte of the HL register pair.
    L,
    /// Register pair combining A and F.
    AF,
    /// Register pair combining B and C.
    BC,
    /// Register pair combining D and E.
    DE,
    /// Register pair combining H and L, often a memory address pointer.
    HL,
    /// Stack pointer.
    SP,
    /// Program counter.
    PC,
}

pub open spec fn sp_is_16bit(rt: RegisterType) -> bool {
    match rt {
        RegisterType::A | RegisterType::F | RegisterType::B | RegisterType::C | RegisterType::D
            | RegisterType::E | RegisterType::H | RegisterType::L => false,
        RegisterType::AF | RegisterType::BC | RegisterType::DE | RegisterType::HL
            | RegisterType::SP | RegisterType::PC => true,
    }
}

impl RegisterType {
    /// Whether this names a 16-bit register or pair.
    pub fn is_16bit(&self) -> (r: bool)
        ensures
            r == sp_is_16bit(*self),
    {
        match self {
            RegisterType::A | RegisterType::F | RegisterType::B | RegisterType::C
                | RegisterType::D | RegisterType::E | RegisterType::H | RegisterType::L => false,
            RegisterType::AF | RegisterType::BC | RegisterType::DE | RegisterType::HL
                | RegisterType::SP | RegisterType::PC => true,
        }
    }
}

/// The condition a conditional jump, call or return tests against the flags.
#[derive(Debug, Clone, Copy, PartialEq, Eq, Structural)]
pub enum ConditionType {
    /// Non-zero
    NZ,
    /// Zero
    Z,
    /// Non-carry
    NC,
    /// Carry
    C,
}

/// The operation families of the base and CB-prefixed opcode tables.
#[derive(Debug, Clone, Copy, PartialEq, Eq, Structural)]
#[allow(clippy::upper_case_acronyms)]
pub enum InstructionType {
    /// No operation
    NOP,
    /// Load
    LD,
    /// Increment
    INC,
    /// Decrement
    DEC,
    /// Rotate A left circular
    RLCA,
    /// Add
    ADD,
    /// Rotate A right circular
    RRCA,
    /// Stop execution
    STOP,
    /// Rotate A left through carry
    RLA,
    /// Jump relative
    JR,
    /// Rotate A right through carry
    RRA,
    /// Decimal adjust accumulator
    DAA,
    /// Complement A
    CPL,
    /// Set carry flag
    SCF,
    /// Complement carry flag
    CCF,
    /// Halt execution
    HALT,
    /// Add with carry
    ADC,
    /// Subtract
    SUB,
    /// Subtract with carry
    SBC,
    /// Logical AND
    AND,
    /// Logical XOR
    XOR,
    /// Logical OR
    OR,
    /// Compare
    CP,
    /// Pop from the stack
    POP,
    /// Jump
    JP,
    /// Push to the stack
    PUSH,
    /// Return
    RET,
    /// CB prefix
    CB,
    /// Call
    CALL,
    /// Return from interrupt
    RETI,
    /// Load high (0xFF00 page)
    LDH,
    /// Disable interrupts
    DI,
    /// Enable interrupts
    EI,
    /// Restart
    RST,
}

/// What an instruction fetches and where its result lands.
#[derive(Debug, Clone, Copy, PartialEq, Eq, Structural)]
#[allow(non_camel_case_types)]
pub enum AddressMode {
    /// Implied: no operand.
    IMP,
    /// The operand is a register.
    R(RegisterType),
    /// A 16-bit immediate loaded into a register.
    R_D16(RegisterType),
    /// Register to register.
    R_R(RegisterType, RegisterType),
    /// Register stored to memory addressed by another register.
    MR_R(RegisterType, RegisterType),
    /// An 8-bit immediate into a register.
    R_D8(RegisterType),
    /// Memory addressed by a register read into a register.
    R_MR(RegisterType, RegisterType),
    /// Read through HL into a register, then increment HL.
    R_HLI(RegisterType, RegisterType),
    /// Read through HL into a register, then decrement HL.
    R_HLD(RegisterType, RegisterType),
    /// Store a register through HL, then increment HL.
    HLI_R(RegisterType, RegisterType),
    /// Store a register through HL, then decrement HL.
    HLD_R(RegisterType, RegisterType),
    /// Read from 0xFF00 + an 8-bit immediate into a register.
    R_A8(RegisterType),
    /// Store a register to 0xFF00 + an 8-bit immediate.
    A8_R(RegisterType),
    /// HL receives SP plus a signed 8-bit immediate.
    HL_SPR(RegisterType, RegisterType),
    /// A 16-bit immediate operand.
    D16,
    /// An 8-bit immediate operand.
    D8,
    /// A register stored to a 16-bit immediate address.
    D16_R(RegisterType),
    /// An 8-bit immediate stored through a register address.
    MR_D8(RegisterType),
    /// Memory addressed by a register, read and written back.
    MR(RegisterType),
    /// A register stored to a 16-bit immediate address.
    A16_R(RegisterType),
    /// A 16-bit immediate address read into a register.
    R_A16(RegisterType),
}

/// One decoded opcode: its operation, address mode and optional condition.
#[derive(Debug, Clone, Copy, PartialEq, Eq)]
pub struct Instruction {
    pub itype: InstructionType,
    pub mode: AddressMode,
    pub cond: Option<ConditionType>,
}

/// The operand an address mode fetched: a value and, for stores and
/// read-modify-write modes, the destination address.
#[derive(Debug, Clone, Copy, PartialEq, Eq)]
pub struct FetchedData {
    pub value: u16,
    pub dest_addr: Option<u16>,
}

/// The 8-bit operand register encoded by the low three opcode bits;
/// index 6 stands for memory through HL.
pub open spec fn sp_reg8(i: u8) -> RegisterType {
    if i == 0 {
        RegisterType::B
    } else if i == 1 {
        RegisterType::C
    } else if i == 2 {
        RegisterType::D
    } else if i == 3 {
        RegisterType::E
    } else if i == 4 {
        RegisterType::H
    } else if i == 5 {
        RegisterType::L
    } else if i == 6 {
        RegisterType::HL
    } else {
        RegisterType::A
    }
}

fn reg8(i: u8) -> (r: RegisterType)
    ensures
        r == sp_reg8(i),
{
    if i == 0 {
        RegisterType::B
    } else if i == 1 {
        RegisterType::C
    } else if i == 2 {
        RegisterType::D
    } else if i == 3 {
        RegisterType::E
    } else if i == 4 {
        RegisterType::H
    } else if i == 5 {
        RegisterType::L
    } else if i == 6 {
        RegisterType::HL
    } else {
        RegisterType::A
    }
}

/// The register pair family BC, DE, HL, SP selected by opcode bits 5..4.
pub open spec fn sp_rr_sp(i: u8) -> RegisterType {
    if i == 0 {
        RegisterType::BC
    } else if i == 1 {
        RegisterType::DE
    } else if i == 2 {
        RegisterType::HL
    } else {
        RegisterType::SP
    }
}

fn rr_sp(i: u8) -> (r: RegisterType)
    ensures
        r == sp_rr_sp(i),
{
    if i == 0 {
        RegisterType::BC
    } else if i == 1 {
        RegisterType::DE
    } else if i == 2 {
        RegisterType::HL
    } else {
        RegisterType::SP
    }
}

/// The register pair family BC, DE, HL, AF used by PUSH and POP.
pub open spec fn sp_rr_af(i: u8) -> RegisterType {
    if i == 0 {
        RegisterType::BC
    } else if i == 1 {
        RegisterType::DE
    } else if i == 2 {
        RegisterType::HL
    } else {
        RegisterType::AF
    }
}

fn rr_af(i: u8) -> (r: RegisterType)
    ensures
        r == sp_rr_af(i),
{
    if i == 0 {
        RegisterType::BC
    } else if i == 1 {
        RegisterType::DE
    } else if i == 2 {
        RegisterType::HL
    } else {
        RegisterType::AF
    }
}

/// The eight-entry ALU family selected by opcode bits 5..3.
pub open spec fn sp_alu_itype(i: u8) -> InstructionType {
    if i == 0 {
        InstructionType::ADD
    } else if i == 1 {
        InstructionType::ADC
    } else if i == 2 {
        InstructionType::SUB
    } else if i == 3 {
        InstructionType::SBC
    } else if i == 4 {
        InstructionType::AND
    } else if i == 5 {
        InstructionType::XOR
    } else if i == 6 {
        InstructionType::OR
    } else {
        InstructionType::CP
    }
}

fn alu_itype(i: u8) -> (r: InstructionType)
    ensures
        r == sp_alu_itype(i),
{
    if i == 0 {
        InstructionType::ADD
    } else if i == 1 {
        InstructionType::ADC
    } else if i == 2 {
        InstructionType::SUB
    } else if i == 3 {
        InstructionType::SBC
    } else if i == 4 {
        InstructionType::AND
    } else if i == 5 {
        InstructionType::XOR
    } else if i == 6 {
        InstructionType::OR
    } else {
        InstructionType::CP
    }
}

/// The condition NZ, Z, NC, C selected by two opcode bits.
pub open spec fn sp_cond_of(i: u8) -> ConditionType {
    if i == 0 {
        ConditionType::NZ
    } else if i == 1 {
        ConditionType::Z
    } else if i == 2 {
        ConditionType::NC
    } else {
        ConditionType::C
    }
}

fn cond_of(i: u8) -> (r: ConditionType)
    ensures
        r == sp_cond_of(i),
{
    if i == 0 {
        ConditionType::NZ
    } else if i == 1 {
        ConditionType::Z
    } else if i == 2 {
        ConditionType::NC
    } else {
        ConditionType::C
    }
}

pub open spec fn sp_instr(itype: InstructionType, mode: AddressMode) -> Instruction {
    Instruction { itype, mode, cond: None }
}

pub open spec fn sp_instr_cond(
    itype: InstructionType,
    mode: AddressMode,
    cond: ConditionType,
) -> Instruction {
    Instruction { itype, mode, cond: Some(cond) }
}

/// Decode of the 0x00..0x3F block.
pub open spec fn sp_decode_misc(op: u8) -> Option<Instruction> {
    let x = (op >> 3) & 7;
    let low = op & 7;
    if low == 0 {
        if x == 0 {
            Some(sp_instr(InstructionType::NOP, AddressMode::IMP))
        } else if x == 1 {
            Some(sp_instr(InstructionType::LD, AddressMode::D16_R(RegisterType::SP)))
        } else if x == 2 {
            Some(sp_instr(InstructionType::STOP, AddressMode::D8))
        } else if x == 3 {
            Some(sp_instr(InstructionType::JR, AddressMode::D8))
        } else {
            Some(sp_instr_cond(InstructionType::JR, AddressMode::D8, sp_cond_of((x - 4) as u8)))
        }
    } else if low == 1 {
        if op & 8 == 0 {
            Some(sp_instr(InstructionType::LD, AddressMode::R_D16(sp_rr_sp((op >> 4) & 3))))
        } else {
            Some(
                sp_instr(
                    InstructionType::ADD,
                    AddressMode::R_R(RegisterType::HL, sp_rr_sp((op >> 4) & 3)),
                ),
            )
        }
    } else if low == 2 {
        if x == 0 {
            Some(sp_instr(InstructionType::LD, AddressMode::MR_R(RegisterType::BC, RegisterType::A)))
        } else if x == 1 {
            Some(sp_instr(InstructionType::LD, AddressMode::R_MR(RegisterType::A, RegisterType::BC)))
        } else if x == 2 {
            Some(sp_instr(InstructionType::LD, AddressMode::MR_R(RegisterType::DE, RegisterType::A)))
        } else if x == 3 {
            Some(sp_instr(InstructionType::LD, AddressMode::R_MR(RegisterType::A, RegisterType::DE)))
        } else if x == 4 {
            Some(
                sp_instr(InstructionType::LD, AddressMode::HLI_R(RegisterType::HL, RegisterType::A)),
            )
        } else if x == 5 {
            Some(
                sp_instr(InstructionType::LD, AddressMode::R_HLI(RegisterType::A, RegisterType::HL)),
            )
        } else if x == 6 {
            Some(
                sp_instr(InstructionType::LD, AddressMode::HLD_R(RegisterType::HL, RegisterType::A)),
            )
        } else {
            Some(
                sp_instr(InstructionType::LD, AddressMode::R_HLD(RegisterType::A, RegisterType::HL)),
            )
        }
    } else if low == 3 {
        if op & 8 == 0 {
            Some(sp_instr(InstructionType::INC, AddressMode::R(sp_rr_sp((op >> 4) & 3))))
        } else {
            Some(sp_instr(InstructionType::DEC, AddressMode::R(sp_rr_sp((op >> 4) & 3))))
        }
    } else if low == 4 {
        if x == 6 {
            Some(sp_instr(InstructionType::INC, AddressMode::MR(RegisterType::HL)))
        } else {
            Some(sp_instr(InstructionType::INC, AddressMode::R(sp_reg8(x))))
        }
    } else if low == 5 {
        if x == 6 {
            Some(sp_instr(InstructionType::DEC, AddressMode::MR(RegisterType::HL)))
        } else {
            Some(sp_instr(InstructionType::DEC, AddressMode::R(sp_reg8(x))))
        }
    } else if low == 6 {
        if x == 6 {
            Some(sp_instr(InstructionType::LD, AddressMode::MR_D8(RegisterType::HL)))
        } else {
            Some(sp_instr(InstructionType::LD, AddressMode::R_D8(sp_reg8(x))))
        }
    } else {
        if x == 0 {
            Some(sp_instr(InstructionType::RLCA, AddressMode::IMP))
        } else if x == 1 {
            Some(sp_instr(InstructionType::RRCA, AddressMode::IMP))
        } else if x == 2 {
            Some(sp_instr(InstructionType::RLA, AddressMode::IMP))
        } else if x == 3 {
            Some(sp_instr(InstructionType::RRA, AddressMode::IMP))
        } else if x == 4 {
            Some(sp_instr(InstructionType::DAA, AddressMode::IMP))
        } else if x == 5 {
            Some(sp_instr(InstructionType::CPL, AddressMode::IMP))
        } else if x == 6 {
            Some(sp_instr(InstructionType::SCF, AddressMode::IMP))
        } else {
            Some(sp_instr(InstructionType::CCF, AddressMode::IMP))
        }
    }
}

/// Decode of the 0x40..0x7F load block; 0x76 is HALT.
pub open spec fn sp_decode_ld_block(op: u8) -> Option<Instruction> {
    if op == 0x76 {
        Some(sp_instr(InstructionType::HALT, AddressMode::IMP))
    } else {
        let d = (op >> 3) & 7;
        let s = op & 7;
        if d == 6 {
            Some(sp_instr(InstructionType::LD, AddressMode::MR_R(RegisterType::HL, sp_reg8(s))))
        } else if s == 6 {
            Some(sp_instr(InstructionType::LD, AddressMode::R_MR(sp_reg8(d), RegisterType::HL)))
        } else {
            Some(sp_instr(InstructionType::LD, AddressMode::R_R(sp_reg8(d), sp_reg8(s))))
        }
    }
}

/// Decode of the 0x80..0xBF arithmetic block.
pub open spec fn sp_decode_alu_block(op: u8) -> Option<Instruction> {
    let s = op & 7;
    if s == 6 {
        Some(
            sp_instr(
                sp_alu_itype((op >> 3) & 7),
                AddressMode::R_MR(RegisterType::A, RegisterType::HL),
            ),
        )
    } else {
        Some(
            sp_instr(sp_alu_itype((op >> 3) & 7), AddressMode::R_R(RegisterType::A, sp_reg8(s))),
        )
    }
}

/// Decode of the 0xC0..0xFF control block; the eleven holes are the
/// undefined opcodes.
pub open spec fn sp_decode_ctrl(op: u8) -> Option<Instruction> {
    let x = (op >> 3) & 7;
    let low = op & 7;
    if low == 0 {
        if x < 4 {
            Some(sp_instr_cond(InstructionType::RET, AddressMode::IMP, sp_cond_of(x)))
        } else if x == 4 {
            Some(sp_instr(InstructionType::LDH, AddressMode::A8_R(RegisterType::A)))
        } else if x == 5 {
            Some(sp_instr(InstructionType::ADD, AddressMode::R_D8(RegisterType::SP)))
        } else if x == 6 {
            Some(sp_instr(InstructionType::LDH, AddressMode::R_A8(RegisterType::A)))
        } else {
            Some(
                sp_instr(InstructionType::LD, AddressMode::HL_SPR(RegisterType::HL, RegisterType::SP)),
            )
        }
    } else if low == 1 {
        if op & 8 == 0 {
            Some(sp_instr(InstructionType::POP, AddressMode::R(sp_rr_af((op >> 4) & 3))))
        } else {
            let y = (op >> 4) & 3;
            if y == 0 {
                Some(sp_instr(InstructionType::RET, AddressMode::IMP))
            } else if y == 1 {
                Some(sp_instr(InstructionType::RETI, AddressMode::IMP))
            } else if y == 2 {
                Some(sp_instr(InstructionType::JP, AddressMode::R(RegisterType::HL)))
            } else {
                Some(
                    sp_instr(InstructionType::LD, AddressMode::R_R(RegisterType::SP, RegisterType::HL)),
                )
            }
        }
    } else if low == 2 {
        if x < 4 {
            Some(sp_instr_cond(InstructionType::JP, AddressMode::D16, sp_cond_of(x)))
        } else if x == 4 {
            Some(
                sp_instr(InstructionType::LDH, AddressMode::MR_R(RegisterType::C, RegisterType::A)),
            )
        } else if x == 5 {
            Some(sp_instr(InstructionType::LD, AddressMode::A16_R(RegisterType::A)))
        } else if x == 6 {
            Some(
                sp_instr(InstructionType::LDH, AddressMode::R_MR(RegisterType::A, RegisterType::C)),
            )
        } else {
            Some(sp_instr(InstructionType::LD, AddressMode::R_A16(RegisterType::A)))
        }
    } else if low == 3 {
        if op == 0xC3 {
            Some(sp_instr(InstructionType::JP, AddressMode::D16))
        } else if op == 0xCB {
            Some(sp_instr(InstructionType::CB, AddressMode::D8))
        } else if op == 0xF3 {
            Some(sp_instr(InstructionType::DI, AddressMode::IMP))
        } else if op == 0xFB {
            Some(sp_instr(InstructionType::EI, AddressMode::IMP))
        } else {
            None
        }
    } else if low == 4 {
        if x < 4 {
            Some(sp_instr_cond(InstructionType::CALL, AddressMode::D16, sp_cond_of(x)))
        } else {
            None
        }
    } else if low == 5 {
        if op & 8 == 0 {
            Some(sp_instr(InstructionType::PUSH, AddressMode::R(sp_rr_af((op >> 4) & 3))))
        } else if op == 0xCD {
            Some(sp_instr(InstructionType::CALL, AddressMode::D16))
        } else {
            None
        }
    } else if low == 6 {
        Some(sp_instr(sp_alu_itype(x), AddressMode::R_D8(RegisterType::A)))
    } else {
        Some(sp_instr(InstructionType::RST, AddressMode::IMP))
    }
}

/// What each of the 256 base opcodes decodes to; the eleven undefined
/// opcodes decode to nothing.
pub open spec fn sp_decode(op: u8) -> Option<Instruction> {
    if op < 0x40 {
        sp_decode_misc(op)
    } else if op < 0x80 {
        sp_decode_ld_block(op)
    } else if op < 0xC0 {
        sp_decode_alu_block(op)
    } else {
        sp_decode_ctrl(op)
    }
}

fn decode_misc(op: u8) -> (r: Option<Instruction>)
    requires
        op < 0x40,
    ensures
        r == sp_decode_misc(op),
{
    let x = (op >> 3) & 7;
    let low = op & 7;
    if low == 0 {
        if x == 0 {
            Some(Instruction { itype: InstructionType::NOP, mode: AddressMode::IMP, cond: None })
        } else if x == 1 {
            Some(
                Instruction {
                    itype: InstructionType::LD,
                    mode: AddressMode::D16_R(RegisterType::SP),
                    cond: None,
                },
            )
        } else if x == 2 {
            Some(Instruction { itype: InstructionType::STOP, mode: AddressMode::D8, cond: None })
        } else if x == 3 {
            Some(Instruction { itype: InstructionType::JR, mode: AddressMode::D8, cond: None })
        } else {
            Some(
                Instruction {
                    itype: InstructionType::JR,
                    mode: AddressMode::D8,
                    cond: Some(cond_of(x - 4)),
                },
            )
        }
    } else if low == 1 {
        if op & 8 == 0 {
            Some(
                Instruction {
                    itype: InstructionType::LD,
                    mode: AddressMode::R_D16(rr_sp((op >> 4) & 3)),
                    cond: None,
                },
            )
        } else {
            Some(
                Instruction {
                    itype: InstructionType::ADD,
                    mode: AddressMode::R_R(RegisterType::HL, rr_sp((op >> 4) & 3)),
                    cond: None,
                },
            )
        }
    } else if low == 2 {
        let mode = if x == 0 {
            AddressMode::MR_R(RegisterType::BC, RegisterType::A)
        } else if x == 1 {
            AddressMode::R_MR(RegisterType::A, RegisterType::BC)
        } else if x == 2 {
            AddressMode::MR_R(RegisterType::DE, RegisterType::A)
        } else if x == 3 {
            AddressMode::R_MR(RegisterType::A, RegisterType::DE)
        } else if x == 4 {
            AddressMode::HLI_R(RegisterType::HL, RegisterType::A)
        } else if x == 5 {
            AddressMode::R_HLI(RegisterType::A, RegisterType::HL)
        } else if x == 6 {
            AddressMode::HLD_R(RegisterType::HL, RegisterType::A)
        } else {
            AddressMode::R_HLD(RegisterType::A, RegisterType::HL)
        };
        Some(Instruction { itype: InstructionType::LD, mode, cond: None })
    } else if low == 3 {
        if op & 8 == 0 {
            Some(
                Instruction {
                    itype: InstructionType::INC,
                    mode: AddressMode::R(rr_sp((op >> 4) & 3)),
                    cond: None,
                },
            )
        } else {
            Some(
                Instruction {
                    itype: InstructionType::DEC,
                    mode: AddressMode::R(rr_sp((op >> 4) & 3)),
                    cond: None,
                },
            )
        }
    } else if low == 4 {
        let mode = if x == 6 {
            AddressMode::MR(RegisterType::HL)
        } else {
            AddressMode::R(reg8(x))
        };
        Some(Instruction { itype: InstructionType::INC, mode, cond: None })
    } else if low == 5 {
        let mode = if x == 6 {
            AddressMode::MR(RegisterType::HL)
        } else {
            AddressMode::R(reg8(x))
        };
        Some(Instruction { itype: InstructionType::DEC, mode, cond: None })
    } else if low == 6 {
        let mode = if x == 6 {
            AddressMode::MR_D8(RegisterType::HL)
        } else {
            AddressMode::R_D8(reg8(x))
        };
        Some(Instruction { itype: InstructionType::LD, mode, cond: None })
    } else {
        let itype = if x == 0 {
            InstructionType::RLCA
        } else if x == 1 {
            InstructionType::RRCA
        } else if x == 2 {
            InstructionType::RLA
        } else if x == 3 {
            InstructionType::RRA
        } else if x == 4 {
            InstructionType::DAA
        } else if x == 5 {
            InstructionType::CPL
        } else if x == 6 {
            InstructionType::SCF
        } else {
            InstructionType::CCF
        };
        Some(Instruction { itype, mode: AddressMode::IMP, cond: None })
    }
}

fn decode_ctrl(op: u8) -> (r: Option<Instruction>)
    requires
        op >= 0xC0,
    ensures
        r == sp_decode_ctrl(op),
{
    let x = (op >> 3) & 7;
    let low = op & 7;
    if low == 0 {
        if x < 4 {
            Some(
                Instruction {
                    itype: InstructionType::RET,
                    mode: AddressMode::IMP,
                    cond: Some(cond_of(x)),
                },
            )
        } else if x == 4 {
            Some(
                Instruction {
                    itype: InstructionType::LDH,
                    mode: AddressMode::A8_R(RegisterType::A),
                    cond: None,
                },
            )
        } else if x == 5 {
            Some(
                Instruction {
                    itype: InstructionType::ADD,
                    mode: AddressMode::R_D8(RegisterType::SP),
                    cond: None,
                },
            )
        } else if x == 6 {
            Some(
                Instruction {
                    itype: InstructionType::LDH,
                    mode: AddressMode::R_A8(RegisterType::A),
                    cond: None,
                },
            )
        } else {
            Some(
                Instruction {
                    itype: InstructionType::LD,
                    mode: AddressMode::HL_SPR(RegisterType::HL, RegisterType::SP),
                    cond: None,
                },
            )
        }
    } else if low == 1 {
        if op & 8 == 0 {
            Some(
                Instruction {
                    itype: InstructionType::POP,
                    mode: AddressMode::R(rr_af((op >> 4) & 3)),
                    cond: None,
                },
            )
        } else {
            let y = (op >> 4) & 3;
            if y == 0 {
                Some(Instruction { itype: InstructionType::RET, mode: AddressMode::IMP, cond: None })
            } else if y == 1 {
                Some(
                    Instruction { itype: InstructionType::RETI, mode: AddressMode::IMP, cond: None },
                )
            } else if y == 2 {
                Some(
                    Instruction {
                        itype: InstructionType::JP,
                        mode: AddressMode::R(RegisterType::HL),
                        cond: None,
                    },
                )
            } else {
                Some(
                    Instruction {
                        itype: InstructionType::LD,
                        mode: AddressMode::R_R(RegisterType::SP, RegisterType::HL),
                        cond: None,
                    },
                )
            }
        }
    } else if low == 2 {
        if x < 4 {
            Some(
                Instruction {
                    itype: InstructionType::JP,
                    mode: AddressMode::D16,
                    cond: Some(cond_of(x)),
                },
            )
        } else if x == 4 {
            Some(
                Instruction {
                    itype: InstructionType::LDH,
                    mode: AddressMode::MR_R(RegisterType::C, RegisterType::A),
                    cond: None,
                },
            )
        } else if x == 5 {
            Some(
                Instruction {
                    itype: InstructionType::LD,
                    mode: AddressMode::A16_R(RegisterType::A),
                    cond: None,
                },
            )
        } else if x == 6 {
            Some(
                Instruction {
                    itype: InstructionType::LDH,
                    mode: AddressMode::R_MR(RegisterType::A, RegisterType::C),
                    cond: None,
                },
            )
        } else {
            Some(
                Instruction {
                    itype: InstructionType::LD,
                    mode: AddressMode::R_A16(RegisterType::A),
                    cond: None,
                },
            )
        }
    } else if low == 3 {
        if op == 0xC3 {
            Some(Instruction { itype: InstructionType::JP, mode: AddressMode::D16, cond: None })
        } else if op == 0xCB {
            Some(Instruction { itype: InstructionType::CB, mode: AddressMode::D8, cond: None })
        } else if op == 0xF3 {
            Some(Instruction { itype: InstructionType::DI, mode: AddressMode::IMP, cond: None })
        } else if op == 0xFB {
            Some(Instruction { itype: InstructionType::EI, mode: AddressMode::IMP, cond: None })
        } else {
            None
        }
    } else if low == 4 {
        if x < 4 {
            Some(
                Instruction {
                    itype: InstructionType::CALL,
                    mode: AddressMode::D16,
                    cond: Some(cond_of(x)),
                },
            )
        } else {
            None
        }
    } else if low == 5 {
        if op & 8 == 0 {
            Some(
                Instruction {
                    itype: InstructionType::PUSH,
                    mode: AddressMode::R(rr_af((op >> 4) & 3)),
                    cond: None,
                },
            )
        } else if op == 0xCD {
            Some(Instruction { itype: InstructionType::CALL, mode: AddressMode::D16, cond: None })
        } else {
            None
        }
    } else if low == 6 {
        Some(
            Instruction {
                itype: alu_itype(x),
                mode: AddressMode::R_D8(RegisterType::A),
                cond: None,
            },
        )
    } else {
        Some(Instruction { itype: InstructionType::RST, mode: AddressMode::IMP, cond: None })
    }
}

impl Instruction {
    /// Decodes a base-table opcode; the eleven undefined opcodes give `None`.
    pub fn get_by_opcode(opcode: u8) -> (r: Option<Instruction>)
        ensures
            r == sp_decode(opcode),
    {
        if opcode < 0x40 {
            decode_misc(opcode)
        } else if opcode < 0x80 {
            if opcode == 0x76 {
                Some(
                    Instruction { itype: InstructionType::HALT, mode: AddressMode::IMP, cond: None },
                )
            } else {
                let d = (opcode >> 3) & 7;
                let s = opcode & 7;
                let mode = if d == 6 {
                    AddressMode::MR_R(RegisterType::HL, reg8(s))
                } else if s == 6 {
                    AddressMode::R_MR(reg8(d), RegisterType::HL)
                } else {
                    AddressMode::R_R(reg8(d), reg8(s))
                };
                Some(Instruction { itype: InstructionType::LD, mode, cond: None })
            }
        } else if opcode < 0xC0 {
            let s = opcode & 7;
            let mode = if s == 6 {
                AddressMode::R_MR(RegisterType::A, RegisterType::HL)
            } else {
                AddressMode::R_R(RegisterType::A, reg8(s))
            };
            Some(Instruction { itype: alu_itype((opcode >> 3) & 7), mode, cond: None })
        } else {
            decode_ctrl(opcode)
        }
    }
}

} // verus!
