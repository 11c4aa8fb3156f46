//! The SM83 register file: eight 8-bit registers A, F, B, C, D, E, H, L, also
//! addressable as the pairs AF, BC, DE, HL, and the 16-bit SP and PC.
//!
//! F holds the condition flags in bits 7..4 (Z, N, H, C); bits 3..0 always
//! read as zero, and every write to F masks them off.

use crate::instructions::RegisterType;
use vstd::prelude::*;

verus! {

/// FF-less flag register: Z in bit 7, N in bit 6, H in bit 5, C in bit 4.
#[derive(Debug, Clone, Copy, PartialEq, Eq)]
pub struct Flags {
    pub byte: u8,
}

/// One tri-valued flag update: `Some(true)` sets the bit, `Some(false)`
/// clears it, `None` leaves it as it was.
pub open spec fn sp_flag_part(f: u8, o: Option<bool>, mask: u8) -> u8 {
    match o {
        Some(true) => mask,
        Some(false) => 0u8,
        None => f & mask,
    }
}

/// The flag byte after applying a four-slot partial update to Z, N, H, C.
/// The low nibble of the result is always zero.
pub open spec fn sp_flags_set(
    f: u8,
    z: Option<bool>,
    n: Option<bool>,
    h: Option<bool>,
    c: Option<bool>,
) -> u8 {
    sp_flag_part(f, z, 0x80) | sp_flag_part(f, n, 0x40) | sp_flag_part(f, h, 0x20) | sp_flag_part(
        f,
        c,
        0x10,
    )
}

/// Each flag part is either zero or exactly its own bit.
proof fn lemma_flag_part_values(f: u8)
    by (bit_vector)
    ensures
        f & 0x80 == 0 || f & 0x80 == 0x80,
        f & 0x40 == 0 || f & 0x40 == 0x40,
        f & 0x20 == 0 || f & 0x20 == 0x20,
        f & 0x10 == 0 || f & 0x10 == 0x10,
{
}

/// A byte assembled from the four flag bits has a zero low nibble, and each
/// flag reads back as the part it was assembled from.
proof fn lemma_flag_byte(zb: u8, nb: u8, hb: u8, cb: u8)
    by (bit_vector)
    requires
        zb == 0 || zb == 0x80,
        nb == 0 || nb == 0x40,
        hb == 0 || hb == 0x20,
        cb == 0 || cb == 0x10,
    ensures
        (zb | nb | hb | cb) & 0x0F == 0,
        (zb | nb | hb | cb) & 0x80 == zb,
        (zb | nb | hb | cb) & 0x40 == nb,
        (zb | nb | hb | cb) & 0x20 == hb,
        (zb | nb | hb | cb) & 0x10 == cb,
{
}

impl Flags {
    /// The low nibble of F always reads as zero.
    pub open spec fn wf(self) -> bool {
        self.byte & 0x0F == 0
    }

    pub fn new() -> (r: Flags)
        ensures
            r.byte == 0,
            r.wf(),
    {
        let r = Flags { byte: 0 };
        proof {
            assert(0u8 & 0x0F == 0) by (bit_vector);
        }
        r
    }

    /// Applies a four-slot partial update (set, clear, leave) atomically to
    /// the upper nibble of F, zeroing the lower nibble.
    pub fn set(&mut self, z: Option<bool>, n: Option<bool>, h: Option<bool>, c: Option<bool>)
        ensures
            final(self).byte == sp_flags_set(old(self).byte, z, n, h, c),
            final(self).wf(),
    {
        let zb: u8 = match z {
            Some(true) => 0x80,
            Some(false) => 0,
            None => self.byte & 0x80,
        };
        let nb: u8 = match n {
            Some(true) => 0x40,
            Some(false) => 0,
            None => self.byte & 0x40,
        };
        let hb: u8 = match h {
            Some(true) => 0x20,
            Some(false) => 0,
            None => self.byte & 0x20,
        };
        let cb: u8 = match c {
            Some(true) => 0x10,
            Some(false) => 0,
            None => self.byte & 0x10,
        };
        proof {
            lemma_flag_part_values(self.byte);
            lemma_flag_byte(zb, nb, hb, cb);
        }
        self.byte = zb | nb | hb | cb;
    }

    pub fn get_z(&self) -> (r: bool)
        ensures
            r == (self.byte & 0x80 != 0),
    {
        self.byte & 0x80 != 0
    }

    pub fn get_n(&self) -> (r: bool)
        ensures
            r == (self.byte & 0x40 != 0),
    {
        self.byte & 0x40 != 0
    }

    pub fn get_h(&self) -> (r: bool)
        ensures
            r == (self.byte & 0x20 != 0),
    {
        self.byte & 0x20 != 0
    }

    pub fn get_c(&self) -> (r: bool)
        ensures
            r == (self.byte & 0x10 != 0),
    {
        self.byte & 0x10 != 0
    }
}

/// The SM83 register file.
#[derive(Debug, Clone, Copy, PartialEq, Eq)]
pub struct Registers {
    pub a: u8,
    pub flags: Flags,
    pub b: u8,
    pub c: u8,
    pub d: u8,
    pub e: u8,
    pub h: u8,
    pub l: u8,
    pub sp: u16,
    pub pc: u16,
}

/// The value of a register or register pair; the high byte of a pair is the
/// first-named register.
pub open spec fn sp_read_reg(r: Registers, rt: RegisterType) -> u16 {
    match rt {
        RegisterType::A => r.a as u16,
        RegisterType::F => r.flags.byte as u16,
        RegisterType::B => r.b as u16,
        RegisterType::C => r.c as u16,
        RegisterType::D => r.d as u16,
        RegisterType::E => r.e as u16,
        RegisterType::H => r.h as u16,
        RegisterType::L => r.l as u16,
        RegisterType::AF => ((r.a as u16) << 8) | (r.flags.byte as u16),
        RegisterType::BC => ((r.b as u16) << 8) | (r.c as u16),
        RegisterType::DE => ((r.d as u16) << 8) | (r.e as u16),
        RegisterType::HL => ((r.h as u16) << 8) | (r.l as u16),
        RegisterType::SP => r.sp,
        RegisterType::PC => r.pc,
    }
}

/// The register file after writing `v` to a register or pair. An 8-bit
/// register takes the low byte of `v`; a write that lands on F keeps only
/// the upper nibble.
pub open spec fn sp_set_reg(r: Registers, rt: RegisterType, v: u16) -> Registers {
    match rt {
        RegisterType::A => Registers { a: (v & 0xFF) as u8, ..r },
        RegisterType::F => Registers { flags: Flags { byte: (v & 0xF0) as u8 }, ..r },
        RegisterType::B => Registers { b: (v & 0xFF) as u8, ..r },
        RegisterType::C => Registers { c: (v & 0xFF) as u8, ..r },
        RegisterType::D => Registers { d: (v & 0xFF) as u8, ..r },
        RegisterType::E => Registers { e: (v & 0xFF) as u8, ..r },
        RegisterType::H => Registers { h: (v & 0xFF) as u8, ..r },
        RegisterType::L => Registers { l: (v & 0xFF) as u8, ..r },
        RegisterType::AF => Registers {
            a: ((v >> 8) & 0xFF) as u8,
            flags: Flags { byte: (v & 0xF0) as u8 },
            ..r
        },
        RegisterType::BC => Registers { b: ((v >> 8) & 0xFF) as u8, c: (v & 0xFF) as u8, ..r },
        RegisterType::DE => Registers { d: ((v >> 8) & 0xFF) as u8, e: (v & 0xFF) as u8, ..r },
        RegisterType::HL => Registers { h: ((v >> 8) & 0xFF) as u8, l: (v & 0xFF) as u8, ..r },
        RegisterType::SP => Registers { sp: v, ..r },
        RegisterType::PC => Registers { pc: v, ..r },
    }
}

/// Bit facts used when storing halves of a 16-bit value into 8-bit registers.
proof fn lemma_u16_byte_bounds(v: u16)
    by (bit_vector)
    ensures
        v & 0xFF < 256,
        (v >> 8) & 0xFF < 256,
        v & 0xF0 < 256,
        (v & 0xF0) & 0x0F == 0,
{
}

impl Registers {
    /// F's low nibble always reads as zero.
    pub open spec fn wf(self) -> bool {
        self.flags.wf()
    }

    pub fn new() -> (r: Registers)
        ensures
            r == sp_initial_registers(),
            r.wf(),
    {
        let r = Registers {
            a: 0x01,
            flags: Flags { byte: 0xB0 },
            b: 0x00,
            c: 0x13,
            d: 0x00,
            e: 0xD8,
            h: 0x01,
            l: 0x4D,
            sp: 0xFFFE,
            pc: 0x0100,
        };
        proof {
            assert(0xB0u8 & 0x0F == 0) by (bit_vector);
        }
        r
    }

    /// Reads an 8-bit register, a pair, SP or PC as a 16-bit value.
    pub fn read_register(&self, rt: RegisterType) -> (r: u16)
        ensures
            r == sp_read_reg(*self, rt),
    {
        match rt {
            RegisterType::A => self.a as u16,
            RegisterType::F => self.flags.byte as u16,
            RegisterType::B => self.b as u16,
            RegisterType::C => self.c as u16,
            RegisterType::D => self.d as u16,
            RegisterType::E => self.e as u16,
            RegisterType::H => self.h as u16,
            RegisterType::L => self.l as u16,
            RegisterType::AF => ((self.a as u16) << 8) | (self.flags.byte as u16),
            RegisterType::BC => ((self.b as u16) << 8) | (self.c as u16),
            RegisterType::DE => ((self.d as u16) << 8) | (self.e as u16),
            RegisterType::HL => ((self.h as u16) << 8) | (self.l as u16),
            RegisterType::SP => self.sp,
            RegisterType::PC => self.pc,
        }
    }

    /// Writes a 16-bit value to a register or pair; 8-bit targets take the
    /// low byte, and any write that lands on F masks its low nibble to zero.
    pub fn set_register(&mut self, rt: RegisterType, v: u16)
        ensures
            *final(self) == sp_set_reg(*old(self), rt, v),
            old(self).wf() ==> final(self).wf(),
    {
        proof {
            lemma_u16_byte_bounds(v);
        }
        match rt {
            RegisterType::A => self.a = (v & 0xFF) as u8,
            RegisterType::F => self.flags.byte = (v & 0xF0) as u8,
            RegisterType::B => self.b = (v & 0xFF) as u8,
            RegisterType::C => self.c = (v & 0xFF) as u8,
            RegisterType::D => self.d = (v & 0xFF) as u8,
            RegisterType::E => self.e = (v & 0xFF) as u8,
            RegisterType::H => self.h = (v & 0xFF) as u8,
            RegisterType::L => self.l = (v & 0xFF) as u8,
            RegisterType::AF => {
                self.a = ((v >> 8) & 0xFF) as u8;
                self.flags.byte = (v & 0xF0) as u8;
            },
            RegisterType::BC => {
                self.b = ((v >> 8) & 0xFF) as u8;
                self.c = (v & 0xFF) as u8;
            },
            RegisterType::DE => {
                self.d = ((v >> 8) & 0xFF) as u8;
                self.e = (v & 0xFF) as u8;
            },
            RegisterType::HL => {
                self.h = ((v >> 8) & 0xFF) as u8;
                self.l = (v & 0xFF) as u8;
            },
            RegisterType::SP => self.sp = v,
            RegisterType::PC => self.pc = v,
        }
    }
}

/// The DMG post-boot register values.
pub open spec fn sp_initial_registers() -> Registers {
    Registers {
        a: 0x01,
        flags: Flags { byte: 0xB0 },
        b: 0x00,
        c: 0x13,
        d: 0x00,
        e: 0xD8,
        h: 0x01,
        l: 0x4D,
        sp: 0xFFFE,
        pc: 0x0100,
    }
}

} // verus!
