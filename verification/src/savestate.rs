//! Save states: the whole machine serialized to a tagged little-endian byte
//! blob — registers, interrupt state, timer, serial, APU, the global tick
//! counter and the full memory image — and parsed back. Restoring a saved
//! state gives back exactly the state that was saved.

use crate::apu::{Apu, NR50, NR51, NR52};
use crate::bus::{Bus, BusV};
use crate::channel::{Channel, ChannelType};
use crate::cpu::{sp_cpu_wf, sp_hi8, sp_lo8, Cpu, CpuV};
use crate::frame_sequencer::FrameSequencer;
use crate::interrupts::Interrupts;
use crate::io::{Io, Serial};
use crate::length_timer::LengthTimer;
use crate::registers::{Flags, Registers};
use crate::timer::Timer;
use vstd::prelude::*;

verus! {

/// The first byte of every save-state blob.
pub const SAVE_STATE_TAG: u8 = 1;

/// Bytes before the memory image.
pub const SAVE_HEADER_LEN: usize = 72;

/// Total blob length: the header and the 64 KiB memory image.
pub const SAVE_STATE_LEN: usize = 65608;

/// One byte of a 64-bit counter, little-endian position `k`.
pub open spec fn sp_u64_byte(v: u64, k: u64) -> u8 {
    ((v >> (8 * k)) & 0xFF) as u8
}

/// One byte of a 32-bit counter, little-endian position `k`.
pub open spec fn sp_u32_byte(v: u32, k: u32) -> u8 {
    ((v >> (8 * k)) & 0xFF) as u8
}

pub open spec fn sp_bool_byte(b: bool) -> u8 {
    if b {
        1u8
    } else {
        0u8
    }
}

/// The 72-byte header: tag, registers, interrupt state, tick counter,
/// timer, serial, APU and the ROM write lock, all little-endian.
pub open spec fn sp_save_header(s: CpuV) -> Seq<u8> {
    seq![
        SAVE_STATE_TAG,
        s.registers.a,
        s.registers.flags.byte,
        s.registers.b,
        s.registers.c,
        s.registers.d,
        s.registers.e,
        s.registers.h,
        s.registers.l,
        sp_lo8(s.registers.sp),
        sp_hi8(s.registers.sp),
        sp_lo8(s.registers.pc),
        sp_hi8(s.registers.pc),
        sp_bool_byte(s.enabling_ime),
        s.current_opcode,
        sp_u64_byte(s.ticks, 0),
        sp_u64_byte(s.ticks, 1),
        sp_u64_byte(s.ticks, 2),
        sp_u64_byte(s.ticks, 3),
        sp_u64_byte(s.ticks, 4),
        sp_u64_byte(s.ticks, 5),
        sp_u64_byte(s.ticks, 6),
        sp_u64_byte(s.ticks, 7),
        sp_bool_byte(s.bus.io.interrupts.ime),
        s.bus.io.interrupts.ie_register,
        s.bus.io.interrupts.int_flags,
        sp_bool_byte(s.bus.io.interrupts.cpu_halted),
        sp_lo8(s.bus.io.timer.div),
        sp_hi8(s.bus.io.timer.div),
        s.bus.io.timer.tima,
        s.bus.io.timer.tma,
        s.bus.io.timer.tac,
        s.bus.io.timer.reload_countdown,
        s.bus.io.serial.sb,
        s.bus.io.serial.sc,
        s.bus.io.apu.nr52_master_ctrl.byte,
        s.bus.io.apu.nr51_sound_panning.byte,
        s.bus.io.apu.nr50_master_volume.byte,
        s.bus.io.apu.frame_sequencer.step,
        sp_u32_byte(s.bus.io.apu.ticks_count, 0),
        sp_u32_byte(s.bus.io.apu.ticks_count, 1),
        sp_u32_byte(s.bus.io.apu.ticks_count, 2),
        sp_u32_byte(s.bus.io.apu.ticks_count, 3),
        s.bus.io.apu.ch1.nrx0,
        s.bus.io.apu.ch1.nrx1,
        s.bus.io.apu.ch1.nrx2,
        s.bus.io.apu.ch1.nrx3,
        s.bus.io.apu.ch1.nrx4,
        sp_lo8(s.bus.io.apu.ch1.length.counter),
        sp_hi8(s.bus.io.apu.ch1.length.counter),
        s.bus.io.apu.ch2.nrx0,
        s.bus.io.apu.ch2.nrx1,
        s.bus.io.apu.ch2.nrx2,
        s.bus.io.apu.ch2.nrx3,
        s.bus.io.apu.ch2.nrx4,
        sp_lo8(s.bus.io.apu.ch2.length.counter),
        sp_hi8(s.bus.io.apu.ch2.length.counter),
        s.bus.io.apu.ch3.nrx0,
        s.bus.io.apu.ch3.nrx1,
        s.bus.io.apu.ch3.nrx2,
        s.bus.io.apu.ch3.nrx3,
        s.bus.io.apu.ch3.nrx4,
        sp_lo8(s.bus.io.apu.ch3.length.counter),
        sp_hi8(s.bus.io.apu.ch3.length.counter),
        s.bus.io.apu.ch4.nrx0,
        s.bus.io.apu.ch4.nrx1,
        s.bus.io.apu.ch4.nrx2,
        s.bus.io.apu.ch4.nrx3,
        s.bus.io.apu.ch4.nrx4,
        sp_lo8(s.bus.io.apu.ch4.length.counter),
        sp_hi8(s.bus.io.apu.ch4.length.counter),
        sp_bool_byte(s.bus.rom_locked),
    ]
}

/// The save-state blob: the header followed by the memory image.
pub open spec fn sp_save(s: CpuV) -> Seq<u8> {
    sp_save_header(s) + s.bus.mem
}

/// A 16-bit value from two little-endian bytes.
pub open spec fn sp_u16_of(lo: u8, hi: u8) -> u16 {
    (lo as u16) | ((hi as u16) << 8)
}

/// A 32-bit value from four little-endian bytes.
pub open spec fn sp_u32_of(b0: u8, b1: u8, b2: u8, b3: u8) -> u32 {
    (b0 as u32) | ((b1 as u32) << 8) | ((b2 as u32) << 16) | ((b3 as u32) << 24)
}

/// A 64-bit value from eight little-endian bytes.
pub open spec fn sp_u64_of(
    b0: u8,
    b1: u8,
    b2: u8,
    b3: u8,
    b4: u8,
    b5: u8,
    b6: u8,
    b7: u8,
) -> u64 {
    (b0 as u64) | ((b1 as u64) << 8) | ((b2 as u64) << 16) | ((b3 as u64) << 24) | ((b4
        as u64) << 32) | ((b5 as u64) << 40) | ((b6 as u64) << 48) | ((b7 as u64) << 56)
}

/// Whether the header's APU bytes satisfy the APU invariant: power off
/// means every register byte is zero.
pub open spec fn sp_load_apu_ok(b: Seq<u8>) -> bool {
    b[35] & 0x80 != 0 || (b[36] == 0 && b[37] == 0 && b[43] == 0 && b[44] == 0 && b[45] == 0
        && b[46] == 0 && b[47] == 0 && b[50] == 0 && b[51] == 0 && b[52] == 0 && b[53] == 0
        && b[54] == 0 && b[57] == 0 && b[58] == 0 && b[59] == 0 && b[60] == 0 && b[61] == 0
        && b[64] == 0 && b[65] == 0 && b[66] == 0 && b[67] == 0 && b[68] == 0)
}

/// The state a valid blob parses to.
pub open spec fn sp_load_state(b: Seq<u8>) -> CpuV {
    CpuV {
        bus: BusV {
            mem: b.subrange(SAVE_HEADER_LEN as int, SAVE_STATE_LEN as int),
            io: Io {
                serial: Serial { sb: b[33], sc: b[34] },
                timer: Timer {
                    div: sp_u16_of(b[27], b[28]),
                    tima: b[29],
                    tma: b[30],
                    tac: b[31],
                    reload_countdown: b[32],
                },
                interrupts: Interrupts {
                    ime: b[23] != 0,
                    ie_register: b[24],
                    int_flags: b[25],
                    cpu_halted: b[26] != 0,
                },
                apu: Apu {
                    ch1: Channel {
                        ch_type: ChannelType::CH1,
                        nrx0: b[43],
                        nrx1: b[44],
                        nrx2: b[45],
                        nrx3: b[46],
                        nrx4: b[47],
                        length: LengthTimer {
                            counter: sp_u16_of(b[48], b[49]),
                            ch_type: ChannelType::CH1,
                        },
                    },
                    ch2: Channel {
                        ch_type: ChannelType::CH2,
                        nrx0: b[50],
                        nrx1: b[51],
                        nrx2: b[52],
                        nrx3: b[53],
                        nrx4: b[54],
                        length: LengthTimer {
                            counter: sp_u16_of(b[55], b[56]),
                            ch_type: ChannelType::CH2,
                        },
                    },
                    ch3: Channel {
                        ch_type: ChannelType::CH3,
                        nrx0: b[57],
                        nrx1: b[58],
                        nrx2: b[59],
                        nrx3: b[60],
                        nrx4: b[61],
                        length: LengthTimer {
                            counter: sp_u16_of(b[62], b[63]),
                            ch_type: ChannelType::CH3,
                        },
                    },
                    ch4: Channel {
                        ch_type: ChannelType::CH4,
                        nrx0: b[64],
                        nrx1: b[65],
                        nrx2: b[66],
                        nrx3: b[67],
                        nrx4: b[68],
                        length: LengthTimer {
                            counter: sp_u16_of(b[69], b[70]),
                            ch_type: ChannelType::CH4,
                        },
                    },
                    nr52_master_ctrl: NR52 { byte: b[35] },
                    nr51_sound_panning: NR51 { byte: b[36] },
                    nr50_master_volume: NR50 { byte: b[37] },
                    frame_sequencer: FrameSequencer { step: b[38] },
                    ticks_count: sp_u32_of(b[39], b[40], b[41], b[42]),
                },
            },
            rom_locked: b[71] != 0,
        },
        registers: Registers {
            a: b[1],
            flags: Flags { byte: b[2] },
            b: b[3],
            c: b[4],
            d: b[5],
            e: b[6],
            h: b[7],
            l: b[8],
            sp: sp_u16_of(b[9], b[10]),
            pc: sp_u16_of(b[11], b[12]),
        },
        enabling_ime: b[13] != 0,
        ticks: sp_u64_of(b[15], b[16], b[17], b[18], b[19], b[20], b[21], b[22]),
        current_opcode: b[14],
    }
}

/// What a blob parses to: a state exactly when the length and tag are right
/// and the flag and APU invariants hold of the stored bytes, else nothing.
pub open spec fn sp_load(b: Seq<u8>) -> Option<CpuV> {
    if b.len() == SAVE_STATE_LEN && b[0] == SAVE_STATE_TAG && b[2] & 0x0F == 0
        && sp_load_apu_ok(b) {
        Some(sp_load_state(b))
    } else {
        None
    }
}

proof fn lemma_u16_roundtrip(v: u16)
    by (bit_vector)
    ensures
        (((v & 0xFF) as u8) as u16) | (((((v >> 8) & 0xFF) as u8) as u16) << 8) == v,
{
}

proof fn lemma_u32_roundtrip(v: u32)
    by (bit_vector)
    ensures
        (((v >> (8 * 0)) & 0xFF) as u8 as u32) | ((((v >> (8 * 1)) & 0xFF) as u8 as u32) << 8) | ((((
        v >> (8 * 2)) & 0xFF) as u8 as u32) << 16) | ((((v >> (8 * 3)) & 0xFF) as u8 as u32) << 24)
            == v,
{
}

proof fn lemma_u64_roundtrip(v: u64)
    by (bit_vector)
    ensures
        (((v >> (8 * 0)) & 0xFF) as u8 as u64) | ((((v >> (8 * 1)) & 0xFF) as u8 as u64) << 8) | ((((
        v >> (8 * 2)) & 0xFF) as u8 as u64) << 16) | ((((v >> (8 * 3)) & 0xFF) as u8 as u64) << 24)
            | ((((v >> (8 * 4)) & 0xFF) as u8 as u64) << 32) | ((((v >> (8 * 5)) & 0xFF) as u8
            as u64) << 40) | ((((v >> (8 * 6)) & 0xFF) as u8 as u64) << 48) | ((((v >> (8 * 7))
            & 0xFF) as u8 as u64) << 56) == v,
{
}

/// Restoring a saved state parses successfully and gives back exactly the
/// state that was saved; two saves of one state are therefore
/// byte-identical, and so are saves taken after equal numbers of steps.
pub proof fn lemma_save_state_roundtrip(s: CpuV)
    requires
        sp_cpu_wf(s),
    ensures
        sp_load(sp_save(s)) == Some(s),
{
    let b = sp_save(s);
    assert(sp_save_header(s).len() == 72);
    assert(b.len() == SAVE_STATE_LEN);
    lemma_u16_roundtrip(s.registers.sp);
    lemma_u16_roundtrip(s.registers.pc);
    lemma_u16_roundtrip(s.bus.io.timer.div);
    lemma_u16_roundtrip(s.bus.io.apu.ch1.length.counter);
    lemma_u16_roundtrip(s.bus.io.apu.ch2.length.counter);
    lemma_u16_roundtrip(s.bus.io.apu.ch3.length.counter);
    lemma_u16_roundtrip(s.bus.io.apu.ch4.length.counter);
    lemma_u32_roundtrip(s.bus.io.apu.ticks_count);
    lemma_u64_roundtrip(s.ticks);
    assert(b.subrange(SAVE_HEADER_LEN as int, SAVE_STATE_LEN as int) =~= s.bus.mem);
    assert(sp_load(b) is Some);
    let t = sp_load_state(b);
    assert(t.bus.io == s.bus.io);
    assert(t.registers == s.registers);
    assert(t =~= s);
}

impl Cpu {
    /// Serializes the whole machine to a tagged little-endian blob.
    pub fn save_state(&self) -> (r: Vec<u8>)
        requires
            sp_cpu_wf(self@),
        ensures
            r@ == sp_save(self@),
    {
        let mut r: Vec<u8> = Vec::new();
        r.push(SAVE_STATE_TAG);
        r.push(self.registers.a);
        r.push(self.registers.flags.byte);
        r.push(self.registers.b);
        r.push(self.registers.c);
        r.push(self.registers.d);
        r.push(self.registers.e);
        r.push(self.registers.h);
        r.push(self.registers.l);
        r.push(crate::cpu::lo8(self.registers.sp));
        r.push(crate::cpu::hi8(self.registers.sp));
        r.push(crate::cpu::lo8(self.registers.pc));
        r.push(crate::cpu::hi8(self.registers.pc));
        r.push(if self.enabling_ime {
            1
        } else {
            0
        });
        r.push(self.current_opcode);
        r.push(u64_byte(self.ticks, 0));
        r.push(u64_byte(self.ticks, 1));
        r.push(u64_byte(self.ticks, 2));
        r.push(u64_byte(self.ticks, 3));
        r.push(u64_byte(self.ticks, 4));
        r.push(u64_byte(self.ticks, 5));
        r.push(u64_byte(self.ticks, 6));
        r.push(u64_byte(self.ticks, 7));
        r.push(if self.bus.io.interrupts.ime {
            1
        } else {
            0
        });
        r.push(self.bus.io.interrupts.ie_register);
        r.push(self.bus.io.interrupts.int_flags);
        r.push(if self.bus.io.interrupts.cpu_halted {
            1
        } else {
            0
        });
        r.push(crate::cpu::lo8(self.bus.io.timer.div));
        r.push(crate::cpu::hi8(self.bus.io.timer.div));
        r.push(self.bus.io.timer.tima);
        r.push(self.bus.io.timer.tma);
        r.push(self.bus.io.timer.tac);
        r.push(self.bus.io.timer.reload_countdown);
        r.push(self.bus.io.serial.sb);
        r.push(self.bus.io.serial.sc);
        r.push(self.bus.io.apu.nr52_master_ctrl.byte);
        r.push(self.bus.io.apu.nr51_sound_panning.byte);
        r.push(self.bus.io.apu.nr50_master_volume.byte);
        r.push(self.bus.io.apu.frame_sequencer.step);
        r.push(u32_byte(self.bus.io.apu.ticks_count, 0));
        r.push(u32_byte(self.bus.io.apu.ticks_count, 1));
        r.push(u32_byte(self.bus.io.apu.ticks_count, 2));
        r.push(u32_byte(self.bus.io.apu.ticks_count, 3));
        self.push_channel(&mut r, &self.bus.io.apu.ch1);
        self.push_channel(&mut r, &self.bus.io.apu.ch2);
        self.push_channel(&mut r, &self.bus.io.apu.ch3);
        self.push_channel(&mut r, &self.bus.io.apu.ch4);
        r.push(if self.bus.rom_locked {
            1
        } else {
            0
        });
        proof {
            assert(r@ =~= sp_save_header(self@));
        }
        let mut i: usize = 0;
        while i < self.bus.mem.len()
            invariant
                sp_cpu_wf(self@),
                i <= self.bus.mem.len(),
                r@ == sp_save_header(self@) + self.bus.mem@.subrange(0, i as int),
            decreases self.bus.mem.len() - i,
        {
            r.push(self.bus.mem[i]);
            proof {
                assert(r@ =~= sp_save_header(self@) + self.bus.mem@.subrange(0, i + 1 as int));
            }
            i = i + 1;
        }
        proof {
            assert(self.bus.mem@.subrange(0, self.bus.mem@.len() as int) =~= self.bus.mem@);
        }
        r
    }

    fn push_channel(&self, r: &mut Vec<u8>, c: &Channel)
        ensures
            final(r)@ == old(r)@ + seq![
                c.nrx0,
                c.nrx1,
                c.nrx2,
                c.nrx3,
                c.nrx4,
                sp_lo8(c.length.counter),
                sp_hi8(c.length.counter),
            ],
    {
        r.push(c.nrx0);
        r.push(c.nrx1);
        r.push(c.nrx2);
        r.push(c.nrx3);
        r.push(c.nrx4);
        r.push(crate::cpu::lo8(c.length.counter));
        r.push(crate::cpu::hi8(c.length.counter));
        proof {
            assert(final(r)@ =~= old(r)@ + seq![
                c.nrx0,
                c.nrx1,
                c.nrx2,
                c.nrx3,
                c.nrx4,
                sp_lo8(c.length.counter),
                sp_hi8(c.length.counter),
            ]);
        }
    }
}

proof fn lemma_u64_shift_bounds(v: u64)
    by (bit_vector)
    ensures
        (v >> 0) & 0xFF < 256,
        (v >> 8) & 0xFF < 256,
        (v >> 16) & 0xFF < 256,
        (v >> 24) & 0xFF < 256,
        (v >> 32) & 0xFF < 256,
        (v >> 40) & 0xFF < 256,
        (v >> 48) & 0xFF < 256,
        (v >> 56) & 0xFF < 256,
{
}

proof fn lemma_u32_shift_bounds(v: u32)
    by (bit_vector)
    ensures
        (v >> 0) & 0xFF < 256,
        (v >> 8) & 0xFF < 256,
        (v >> 16) & 0xFF < 256,
        (v >> 24) & 0xFF < 256,
{
}

fn u64_byte(v: u64, k: u64) -> (r: u8)
    requires
        k < 8,
    ensures
        r == sp_u64_byte(v, k),
{
    proof {
        lemma_u64_shift_bounds(v);
    }
    if k == 0 {
        ((v >> 0) & 0xFF) as u8
    } else if k == 1 {
        ((v >> 8) & 0xFF) as u8
    } else if k == 2 {
        ((v >> 16) & 0xFF) as u8
    } else if k == 3 {
        ((v >> 24) & 0xFF) as u8
    } else if k == 4 {
        ((v >> 32) & 0xFF) as u8
    } else if k == 5 {
        ((v >> 40) & 0xFF) as u8
    } else if k == 6 {
        ((v >> 48) & 0xFF) as u8
    } else {
        ((v >> 56) & 0xFF) as u8
    }
}

fn u32_byte(v: u32, k: u32) -> (r: u8)
    requires
        k < 4,
    ensures
        r == sp_u32_byte(v, k),
{
    proof {
        lemma_u32_shift_bounds(v);
    }
    if k == 0 {
        ((v >> 0) & 0xFF) as u8
    } else if k == 1 {
        ((v >> 8) & 0xFF) as u8
    } else if k == 2 {
        ((v >> 16) & 0xFF) as u8
    } else {
        ((v >> 24) & 0xFF) as u8
    }
}

fn u16_of(lo: u8, hi: u8) -> (r: u16)
    ensures
        r == sp_u16_of(lo, hi),
{
    (lo as u16) | ((hi as u16) << 8)
}

/// Parses a save-state blob back into a machine. Returns nothing exactly
/// when the length or tag is wrong, the stored flag byte has a non-zero low
/// nibble, or the stored APU bytes break the power-off invariant.
pub fn load_state(blob: &Vec<u8>) -> (r: Option<Cpu>)
    ensures
        (match r {
            Some(c) => sp_load(blob@) == Some(c@) && sp_cpu_wf(c@),
            None => sp_load(blob@) is None,
        }),
{
    if blob.len() != SAVE_STATE_LEN {
        return None;
    }
    if blob[0] != SAVE_STATE_TAG {
        return None;
    }
    if blob[2] & 0x0F != 0 {
        return None;
    }
    let apu_on = blob[35] & 0x80 != 0;
    if !apu_on {
        let cleared = blob[36] == 0 && blob[37] == 0 && blob[43] == 0 && blob[44] == 0 && blob[45]
            == 0 && blob[46] == 0 && blob[47] == 0 && blob[50] == 0 && blob[51] == 0 && blob[52]
            == 0 && blob[53] == 0 && blob[54] == 0 && blob[57] == 0 && blob[58] == 0 && blob[59]
            == 0 && blob[60] == 0 && blob[61] == 0 && blob[64] == 0 && blob[65] == 0 && blob[66]
            == 0 && blob[67] == 0 && blob[68] == 0;
        if !cleared {
            return None;
        }
    }
    let mut mem: Vec<u8> = Vec::new();
    let mut i: usize = 0;
    while i < 0x10000
        invariant
            blob@.len() == SAVE_STATE_LEN,
            i <= 0x10000,
            mem@ == blob@.subrange(SAVE_HEADER_LEN as int, SAVE_HEADER_LEN + i),
        decreases 0x10000 - i,
    {
        mem.push(blob[SAVE_HEADER_LEN + i]);
        proof {
            assert(mem@ =~= blob@.subrange(SAVE_HEADER_LEN as int, SAVE_HEADER_LEN + i + 1));
        }
        i = i + 1;
    }
    let cpu = Cpu {
        bus: Bus {
            mem,
            io: Io {
                serial: Serial { sb: blob[33], sc: blob[34] },
                timer: Timer {
                    div: u16_of(blob[27], blob[28]),
                    tima: blob[29],
                    tma: blob[30],
                    tac: blob[31],
                    reload_countdown: blob[32],
                },
                interrupts: Interrupts {
                    ime: blob[23] != 0,
                    ie_register: blob[24],
                    int_flags: blob[25],
                    cpu_halted: blob[26] != 0,
                },
                apu: Apu {
                    ch1: Channel {
                        ch_type: ChannelType::CH1,
                        nrx0: blob[43],
                        nrx1: blob[44],
                        nrx2: blob[45],
                        nrx3: blob[46],
                        nrx4: blob[47],
                        length: LengthTimer {
                            counter: u16_of(blob[48], blob[49]),
                            ch_type: ChannelType::CH1,
                        },
                    },
                    ch2: Channel {
                        ch_type: ChannelType::CH2,
                        nrx0: blob[50],
                        nrx1: blob[51],
                        nrx2: blob[52],
                        nrx3: blob[53],
                        nrx4: blob[54],
                        length: LengthTimer {
                            counter: u16_of(blob[55], blob[56]),
                            ch_type: ChannelType::CH2,
                        },
                    },
                    ch3: Channel {
                        ch_type: ChannelType::CH3,
                        nrx0: blob[57],
                        nrx1: blob[58],
                        nrx2: blob[59],
                        nrx3: blob[60],
                        nrx4: blob[61],
                        length: LengthTimer {
                            counter: u16_of(blob[62], blob[63]),
                            ch_type: ChannelType::CH3,
                        },
                    },
                    ch4: Channel {
                        ch_type: ChannelType::CH4,
                        nrx0: blob[64],
                        nrx1: blob[65],
                        nrx2: blob[66],
                        nrx3: blob[67],
                        nrx4: blob[68],
                        length: LengthTimer {
                            counter: u16_of(blob[69], blob[70]),
                            ch_type: ChannelType::CH4,
                        },
                    },
                    nr52_master_ctrl: NR52 { byte: blob[35] },
                    nr51_sound_panning: NR51 { byte: blob[36] },
                    nr50_master_volume: NR50 { byte: blob[37] },
                    frame_sequencer: FrameSequencer { step: blob[38] },
                    ticks_count: u32_of(blob[39], blob[40], blob[41], blob[42]),
                },
            },
            rom_locked: blob[71] != 0,
        },
        registers: Registers {
            a: blob[1],
            flags: Flags { byte: blob[2] },
            b: blob[3],
            c: blob[4],
            d: blob[5],
            e: blob[6],
            h: blob[7],
            l: blob[8],
            sp: u16_of(blob[9], blob[10]),
            pc: u16_of(blob[11], blob[12]),
        },
        enabling_ime: blob[13] != 0,
        ticks: u64_of(blob),
        current_opcode: blob[14],
    };
    proof {
        assert(cpu@.bus.mem == sp_load_state(blob@).bus.mem);
        assert(cpu@.bus.io == sp_load_state(blob@).bus.io);
        assert(cpu@.registers == sp_load_state(blob@).registers);
        assert(cpu@ == sp_load_state(blob@));
        assert(sp_load(blob@) == Some(cpu@));
        assert(sp_cpu_wf(cpu@));
    }
    Some(cpu)
}

fn u32_of(b0: u8, b1: u8, b2: u8, b3: u8) -> (r: u32)
    ensures
        r == sp_u32_of(b0, b1, b2, b3),
{
    (b0 as u32) | ((b1 as u32) << 8) | ((b2 as u32) << 16) | ((b3 as u32) << 24)
}

fn u64_of(blob: &Vec<u8>) -> (r: u64)
    requires
        blob@.len() == SAVE_STATE_LEN,
    ensures
        r == sp_u64_of(
            blob@[15],
            blob@[16],
            blob@[17],
            blob@[18],
            blob@[19],
            blob@[20],
            blob@[21],
            blob@[22],
        ),
{
    (blob[15] as u64) | ((blob[16] as u64) << 8) | ((blob[17] as u64) << 16) | ((blob[18]
        as u64) << 24) | ((blob[19] as u64) << 32) | ((blob[20] as u64) << 40) | ((blob[21]
        as u64) << 48) | ((blob[22] as u64) << 56)
}

} // verus!
