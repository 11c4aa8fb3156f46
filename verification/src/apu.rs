//! The APU register file and frame sequencer drive: master control (NR52),
//! panning (NR51), master volume (NR50), the four channels' registers and
//! length counters, all clocked by the CPU tick stream.
//!
//! Turning NR52 bit 7 off zeroes every audio register except wave RAM and
//! ignores writes other than NR52 and wave RAM until it is set again.

use crate::channel::{
    sp_ch_bit, sp_channel_cleared, sp_dac_on, Channel, ChannelType,
};
use crate::length_timer::{sp_length_write, LengthTimer};
use crate::frame_sequencer::{sp_frame_tick, FrameSequencer};
use crate::{sp_set_bit, set_bit};
use vstd::prelude::*;

verus! {

/// The frame sequencer rate divider: t-cycles per 512 Hz step.
pub const FRAME_SEQUENCER_DIV: u32 = 8192;

/// FF26 — NR52: audio master control. Bit 7 is the power switch; bits 3..0
/// report each channel's active status; bits 6..4 always read as one.
#[derive(Debug, Clone, Copy, PartialEq, Eq, Default)]
pub struct NR52 {
    pub byte: u8,
}

/// NR52 after a write: clearing bit 7 while on zeroes the whole byte
/// (the caller clears the other registers); setting it turns the APU on and
/// leaves the status bits alone.
pub open spec fn sp_nr52_write(n: NR52, value: u8) -> NR52 {
    let prev_enabled = n.byte & 0x80 != 0;
    let new_enabled = value & 0x80 != 0;
    if !new_enabled && prev_enabled {
        NR52 { byte: 0 }
    } else if new_enabled {
        NR52 { byte: n.byte | 0x80 }
    } else {
        n
    }
}

impl NR52 {
    /// Applies the power switch in bit 7; the status bits are read-only.
    pub fn write(&mut self, value: u8)
        ensures
            *final(self) == sp_nr52_write(*old(self), value),
    {
        let prev_enabled = self.is_audio_on();
        let new_enabled = value & 0x80 != 0;
        if !new_enabled && prev_enabled {
            self.byte = 0;
        } else if new_enabled {
            self.byte = self.byte | 0x80;
        }
    }

    /// NR52 reads with bits 4..6 always one.
    pub fn read(&self) -> (r: u8)
        ensures
            r == self.byte | 0x70,
    {
        self.byte | 0x70
    }

    /// Whether bit 7 (the APU power switch) is set.
    pub fn is_audio_on(&self) -> (r: bool)
        ensures
            r == (self.byte & 0x80 != 0),
    {
        self.byte & 0x80 != 0
    }

    /// Whether a channel's generation circuit is reported active.
    pub fn is_ch_active(&self, ch_type: &ChannelType) -> (r: bool)
        ensures
            r == (self.byte & (1u8 << sp_ch_bit(*ch_type)) != 0),
    {
        crate::get_bit_flag(self.byte, ch_type.get_enable_bit_pos())
    }

    /// Clears a channel's active bit.
    pub fn deactivate_ch(&mut self, ch_type: &ChannelType)
        ensures
            final(self).byte == sp_set_bit(old(self).byte, sp_ch_bit(*ch_type), false),
    {
        set_bit(&mut self.byte, ch_type.get_enable_bit_pos(), false);
    }

    /// Sets a channel's active bit.
    pub fn activate_ch(&mut self, ch_type: &ChannelType)
        ensures
            final(self).byte == sp_set_bit(old(self).byte, sp_ch_bit(*ch_type), true),
    {
        set_bit(&mut self.byte, ch_type.get_enable_bit_pos(), true);
    }
}

/// FF25 — NR51: panning. Each bit routes one channel hard left (bits 7..4)
/// or hard right (bits 3..0).
#[derive(Debug, Clone, Copy, PartialEq, Eq, Default)]
pub struct NR51 {
    pub byte: u8,
}

impl NR51 {
    pub fn ch4_left(&self) -> (r: bool)
        ensures
            r == (self.byte & 0x80 != 0),
    {
        self.byte & 0x80 != 0
    }

    pub fn ch3_left(&self) -> (r: bool)
        ensures
            r == (self.byte & 0x40 != 0),
    {
        self.byte & 0x40 != 0
    }

    pub fn ch2_left(&self) -> (r: bool)
        ensures
            r == (self.byte & 0x20 != 0),
    {
        self.byte & 0x20 != 0
    }

    pub fn ch1_left(&self) -> (r: bool)
        ensures
            r == (self.byte & 0x10 != 0),
    {
        self.byte & 0x10 != 0
    }

    pub fn ch4_right(&self) -> (r: bool)
        ensures
            r == (self.byte & 0x08 != 0),
    {
        self.byte & 0x08 != 0
    }

    pub fn ch3_right(&self) -> (r: bool)
        ensures
            r == (self.byte & 0x04 != 0),
    {
        self.byte & 0x04 != 0
    }

    pub fn ch2_right(&self) -> (r: bool)
        ensures
            r == (self.byte & 0x02 != 0),
    {
        self.byte & 0x02 != 0
    }

    pub fn ch1_right(&self) -> (r: bool)
        ensures
            r == (self.byte & 0x01 != 0),
    {
        self.byte & 0x01 != 0
    }
}

/// FF24 — NR50: master volume and VIN panning. A 3-bit side volume of 0 is
/// a volume of 1 and 7 is 8: the amplifier never mutes a non-silent input.
#[derive(Debug, Clone, Copy, PartialEq, Eq, Default)]
pub struct NR50 {
    pub byte: u8,
}

impl NR50 {
    /// Bits 6..4 plus one: the left volume in 1..=8.
    pub fn left_volume(&self) -> (r: u8)
        ensures
            r == ((self.byte >> 4) & 0x07) + 1,
    {
        proof {
            let b = self.byte;
            assert((b >> 4) & 0x07 < 8) by (bit_vector);
        }
        let vol = (self.byte >> 4) & 0x07;
        vol + 1
    }

    /// Bits 2..0 plus one: the right volume in 1..=8.
    pub fn right_volume(&self) -> (r: u8)
        ensures
            r == (self.byte & 0x07) + 1,
    {
        proof {
            let b = self.byte;
            assert(b & 0x07 < 8) by (bit_vector);
        }
        let vol = self.byte & 0x07;
        vol + 1
    }

    pub fn vin_left_enabled(&self) -> (r: bool)
        ensures
            r == (self.byte & 0x80 != 0),
    {
        self.byte & 0x80 != 0
    }

    pub fn vin_right_enabled(&self) -> (r: bool)
        ensures
            r == (self.byte & 0x08 != 0),
    {
        self.byte & 0x08 != 0
    }
}

/// The APU: four channels, the three global registers, the frame sequencer
/// and the t-cycle counter it derives from. Wave RAM lives in the bus
/// memory image and is untouched by APU power cycles.
#[derive(Debug, Clone, Copy, PartialEq, Eq)]
pub struct Apu {
    pub ch1: Channel,
    pub ch2: Channel,
    pub ch3: Channel,
    pub ch4: Channel,
    pub nr52_master_ctrl: NR52,
    pub nr51_sound_panning: NR51,
    pub nr50_master_volume: NR50,
    pub frame_sequencer: FrameSequencer,
    pub ticks_count: u32,
}

/// Whether the APU power switch is on.
pub open spec fn sp_apu_on(a: Apu) -> bool {
    a.nr52_master_ctrl.byte & 0x80 != 0
}

/// Channel types are fixed, and while the APU is off every register byte
/// other than wave RAM is zero.
pub open spec fn sp_apu_wf(a: Apu) -> bool {
    &&& a.ch1.ch_type == ChannelType::CH1
    &&& a.ch1.length.ch_type == ChannelType::CH1
    &&& a.ch2.ch_type == ChannelType::CH2
    &&& a.ch2.length.ch_type == ChannelType::CH2
    &&& a.ch3.ch_type == ChannelType::CH3
    &&& a.ch3.length.ch_type == ChannelType::CH3
    &&& a.ch4.ch_type == ChannelType::CH4
    &&& a.ch4.length.ch_type == ChannelType::CH4
    &&& (!sp_apu_on(a) ==> a.ch1 == sp_channel_cleared(a.ch1) && a.ch2 == sp_channel_cleared(a.ch2)
        && a.ch3 == sp_channel_cleared(a.ch3) && a.ch4 == sp_channel_cleared(a.ch4)
        && a.nr51_sound_panning.byte == 0 && a.nr50_master_volume.byte == 0)
}

/// The always-one bits of each APU register address: what a register reads
/// as when its stored value is zero.
pub open spec fn sp_nr_mask(addr: u16) -> u8 {
    if addr == 0xFF10 {
        0x80
    } else if addr == 0xFF11 || addr == 0xFF16 {
        0x3F
    } else if addr == 0xFF12 || addr == 0xFF17 || addr == 0xFF21 || addr == 0xFF22 {
        0x00
    } else if addr == 0xFF13 || addr == 0xFF18 || addr == 0xFF1B || addr == 0xFF1D || addr
        == 0xFF20 {
        0xFF
    } else if addr == 0xFF14 || addr == 0xFF19 || addr == 0xFF1E || addr == 0xFF23 {
        0xBF
    } else if addr == 0xFF1A {
        0x7F
    } else if addr == 0xFF1C {
        0x9F
    } else if addr == 0xFF24 || addr == 0xFF25 {
        0x00
    } else {
        0xFF
    }
}

/// A channel's raw register byte by index 0..=4.
pub open spec fn sp_ch_reg(c: Channel, idx: u8) -> u8 {
    if idx == 0 {
        c.nrx0
    } else if idx == 1 {
        c.nrx1
    } else if idx == 2 {
        c.nrx2
    } else if idx == 3 {
        c.nrx3
    } else {
        c.nrx4
    }
}

/// A channel register write and its side effects: NRx1 loads the length
/// counter; NRx2 (or NR30 for the wave channel) with the DAC bits clear
/// deactivates the channel; a trigger write to NRx4 reloads an expired
/// length counter and activates the channel unless its DAC is off.
pub open spec fn sp_channel_write(c: Channel, idx: u8, v: u8, nr52: NR52) -> (Channel, NR52) {
    if idx == 0 {
        let c2 = Channel { nrx0: v, ..c };
        if c.ch_type == ChannelType::CH3 && v & 0x80 == 0 {
            (c2, NR52 { byte: sp_set_bit(nr52.byte, sp_ch_bit(c.ch_type), false) })
        } else {
            (c2, nr52)
        }
    } else if idx == 1 {
        (Channel { nrx1: v, length: sp_length_write(c.length, v), ..c }, nr52)
    } else if idx == 2 {
        let c2 = Channel { nrx2: v, ..c };
        if c.ch_type != ChannelType::CH3 && v & 0xF8 == 0 {
            (c2, NR52 { byte: sp_set_bit(nr52.byte, sp_ch_bit(c.ch_type), false) })
        } else {
            (c2, nr52)
        }
    } else if idx == 3 {
        (Channel { nrx3: v, ..c }, nr52)
    } else {
        let c2 = Channel { nrx4: v, ..c };
        if v & 0x80 != 0 {
            let c3 = if c2.length.counter == 0 {
                Channel {
                    length: LengthTimer {
                        counter: crate::channel::sp_initial_length(c2.length.ch_type),
                        ..c2.length
                    },
                    ..c2
                }
            } else {
                c2
            };
            if sp_dac_on(c3) {
                (c3, NR52 { byte: sp_set_bit(nr52.byte, sp_ch_bit(c.ch_type), true) })
            } else {
                (c3, nr52)
            }
        } else {
            (c2, nr52)
        }
    }
}

/// What an APU register reads as: the stored byte OR'd with its always-one
/// bits; unused addresses read 0xFF.
pub open spec fn sp_apu_read(a: Apu, addr: u16) -> u8 {
    if addr == 0xFF26 {
        a.nr52_master_ctrl.byte | 0x70
    } else if addr == 0xFF25 {
        a.nr51_sound_panning.byte
    } else if addr == 0xFF24 {
        a.nr50_master_volume.byte
    } else if 0xFF10 <= addr && addr <= 0xFF14 {
        sp_ch_reg(a.ch1, (addr - 0xFF10) as u8) | sp_nr_mask(addr)
    } else if 0xFF16 <= addr && addr <= 0xFF19 {
        sp_ch_reg(a.ch2, (addr - 0xFF15) as u8) | sp_nr_mask(addr)
    } else if 0xFF1A <= addr && addr <= 0xFF1E {
        sp_ch_reg(a.ch3, (addr - 0xFF1A) as u8) | sp_nr_mask(addr)
    } else if 0xFF20 <= addr && addr <= 0xFF23 {
        sp_ch_reg(a.ch4, (addr - 0xFF1F) as u8) | sp_nr_mask(addr)
    } else {
        0xFF
    }
}

/// The APU after turning the power off: every register byte clears except
/// wave RAM (kept in the bus) and the length counters.
pub open spec fn sp_apu_power_off(a: Apu) -> Apu {
    Apu {
        ch1: sp_channel_cleared(a.ch1),
        ch2: sp_channel_cleared(a.ch2),
        ch3: sp_channel_cleared(a.ch3),
        ch4: sp_channel_cleared(a.ch4),
        nr52_master_ctrl: NR52 { byte: 0 },
        nr51_sound_panning: NR51 { byte: 0 },
        nr50_master_volume: NR50 { byte: 0 },
        ..a
    }
}

/// The APU after a register write. NR52 switches power; while the power is
/// off every other write in this range is ignored.
pub open spec fn sp_apu_write(a: Apu, addr: u16, v: u8) -> Apu {
    if addr == 0xFF26 {
        if sp_apu_on(a) && v & 0x80 == 0 {
            sp_apu_power_off(a)
        } else {
            Apu { nr52_master_ctrl: sp_nr52_write(a.nr52_master_ctrl, v), ..a }
        }
    } else if !sp_apu_on(a) {
        a
    } else if addr == 0xFF25 {
        Apu { nr51_sound_panning: NR51 { byte: v }, ..a }
    } else if addr == 0xFF24 {
        Apu { nr50_master_volume: NR50 { byte: v }, ..a }
    } else if 0xFF10 <= addr && addr <= 0xFF14 {
        let (c, n) = sp_channel_write(a.ch1, (addr - 0xFF10) as u8, v, a.nr52_master_ctrl);
        Apu { ch1: c, nr52_master_ctrl: n, ..a }
    } else if 0xFF16 <= addr && addr <= 0xFF19 {
        let (c, n) = sp_channel_write(a.ch2, (addr - 0xFF15) as u8, v, a.nr52_master_ctrl);
        Apu { ch2: c, nr52_master_ctrl: n, ..a }
    } else if 0xFF1A <= addr && addr <= 0xFF1E {
        let (c, n) = sp_channel_write(a.ch3, (addr - 0xFF1A) as u8, v, a.nr52_master_ctrl);
        Apu { ch3: c, nr52_master_ctrl: n, ..a }
    } else if 0xFF20 <= addr && addr <= 0xFF23 {
        let (c, n) = sp_channel_write(a.ch4, (addr - 0xFF1F) as u8, v, a.nr52_master_ctrl);
        Apu { ch4: c, nr52_master_ctrl: n, ..a }
    } else {
        a
    }
}

/// One t-cycle of the APU: the tick counter advances, and every
/// `FRAME_SEQUENCER_DIV` t-cycles the frame sequencer steps while the APU
/// is powered.
pub open spec fn sp_apu_tick(a: Apu) -> Apu {
    let tc: u32 = if a.ticks_count == 0xFFFFFFFFu32 {
        0
    } else {
        (a.ticks_count + 1) as u32
    };
    let a1 = Apu { ticks_count: tc, ..a };
    if tc % FRAME_SEQUENCER_DIV == 0 && sp_apu_on(a1) {
        let (fs, n, c1, c2, c3, c4) = sp_frame_tick(
            a1.frame_sequencer,
            a1.nr52_master_ctrl,
            a1.ch1,
            a1.ch2,
            a1.ch3,
            a1.ch4,
        );
        Apu {
            frame_sequencer: fs,
            nr52_master_ctrl: n,
            ch1: c1,
            ch2: c2,
            ch3: c3,
            ch4: c4,
            ..a1
        }
    } else {
        a1
    }
}

impl Channel {
    /// Writes register `idx` (0..=4) with its side effects on the length
    /// counter and the NR52 status bits.
    fn write_reg(&mut self, idx: u8, v: u8, nr52: &mut NR52)
        requires
            idx <= 4,
        ensures
            (*final(self), *final(nr52)) == sp_channel_write(*old(self), idx, v, *old(nr52)),
    {
        if idx == 0 {
            self.nrx0 = v;
            if matches!(self.ch_type, ChannelType::CH3) && v & 0x80 == 0 {
                nr52.deactivate_ch(&self.ch_type);
            }
        } else if idx == 1 {
            self.nrx1 = v;
            self.length.write(v);
        } else if idx == 2 {
            self.nrx2 = v;
            if !matches!(self.ch_type, ChannelType::CH3) && v & 0xF8 == 0 {
                nr52.deactivate_ch(&self.ch_type);
            }
        } else if idx == 3 {
            self.nrx3 = v;
        } else {
            self.nrx4 = v;
            if v & 0x80 != 0 {
                if self.length.is_expired() {
                    self.length.reset();
                }
                if self.dac_on() {
                    nr52.activate_ch(&self.ch_type);
                }
            }
        }
    }
}

impl Apu {
    pub fn new() -> (r: Apu)
        ensures
            r == sp_initial_apu(),
            sp_apu_wf(r),
    {
        Apu {
            ch1: Channel::new(ChannelType::CH1),
            ch2: Channel::new(ChannelType::CH2),
            ch3: Channel::new(ChannelType::CH3),
            ch4: Channel::new(ChannelType::CH4),
            nr52_master_ctrl: NR52 { byte: 0 },
            nr51_sound_panning: NR51 { byte: 0 },
            nr50_master_volume: NR50 { byte: 0 },
            frame_sequencer: FrameSequencer::new(),
            ticks_count: 0,
        }
    }

    /// Reads an APU register, OR'ing in its always-one bits.
    pub fn read(&self, address: u16) -> (r: u8)
        requires
            0xFF10 <= address <= 0xFF2F,
        ensures
            r == sp_apu_read(*self, address),
    {
        if address == 0xFF26 {
            self.nr52_master_ctrl.read()
        } else if address == 0xFF25 {
            self.nr51_sound_panning.byte
        } else if address == 0xFF24 {
            self.nr50_master_volume.byte
        } else if 0xFF10 <= address && address <= 0xFF14 {
            self.ch_reg_read(&self.ch1, (address - 0xFF10) as u8) | nr_mask(address)
        } else if 0xFF16 <= address && address <= 0xFF19 {
            self.ch_reg_read(&self.ch2, (address - 0xFF15) as u8) | nr_mask(address)
        } else if 0xFF1A <= address && address <= 0xFF1E {
            self.ch_reg_read(&self.ch3, (address - 0xFF1A) as u8) | nr_mask(address)
        } else if 0xFF20 <= address && address <= 0xFF23 {
            self.ch_reg_read(&self.ch4, (address - 0xFF1F) as u8) | nr_mask(address)
        } else {
            0xFF
        }
    }

    fn ch_reg_read(&self, c: &Channel, idx: u8) -> (r: u8)
        ensures
            r == sp_ch_reg(*c, idx),
    {
        if idx == 0 {
            c.nrx0
        } else if idx == 1 {
            c.nrx1
        } else if idx == 2 {
            c.nrx2
        } else if idx == 3 {
            c.nrx3
        } else {
            c.nrx4
        }
    }

    /// Writes an APU register; NR52 switches power, and while the power is
    /// off every other write in this range is ignored.
    pub fn write(&mut self, address: u16, value: u8)
        requires
            0xFF10 <= address <= 0xFF2F,
        ensures
            *final(self) == sp_apu_write(*old(self), address, value),
    {
        if address == 0xFF26 {
            let was_on = self.nr52_master_ctrl.is_audio_on();
            self.nr52_master_ctrl.write(value);
            if was_on && value & 0x80 == 0 {
                self.ch1.clear_registers();
                self.ch2.clear_registers();
                self.ch3.clear_registers();
                self.ch4.clear_registers();
                self.nr51_sound_panning.byte = 0;
                self.nr50_master_volume.byte = 0;
            }
        } else if !self.nr52_master_ctrl.is_audio_on() {
        } else if address == 0xFF25 {
            self.nr51_sound_panning.byte = value;
        } else if address == 0xFF24 {
            self.nr50_master_volume.byte = value;
        } else if 0xFF10 <= address && address <= 0xFF14 {
            self.ch1.write_reg((address - 0xFF10) as u8, value, &mut self.nr52_master_ctrl);
        } else if 0xFF16 <= address && address <= 0xFF19 {
            self.ch2.write_reg((address - 0xFF15) as u8, value, &mut self.nr52_master_ctrl);
        } else if 0xFF1A <= address && address <= 0xFF1E {
            self.ch3.write_reg((address - 0xFF1A) as u8, value, &mut self.nr52_master_ctrl);
        } else if 0xFF20 <= address && address <= 0xFF23 {
            self.ch4.write_reg((address - 0xFF1F) as u8, value, &mut self.nr52_master_ctrl);
        }
    }

    /// One t-cycle of the APU.
    pub fn tick(&mut self)
        ensures
            *final(self) == sp_apu_tick(*old(self)),
    {
        self.ticks_count = if self.ticks_count == 0xFFFFFFFF {
            0
        } else {
            self.ticks_count + 1
        };
        if self.ticks_count % FRAME_SEQUENCER_DIV == 0 && self.nr52_master_ctrl.is_audio_on() {
            self.frame_sequencer.tick(
                &mut self.nr52_master_ctrl,
                &mut self.ch1,
                &mut self.ch2,
                &mut self.ch3,
                &mut self.ch4,
            );
        }
    }
}

/// The reset APU: everything zero, channels typed.
pub open spec fn sp_initial_apu() -> Apu {
    Apu {
        ch1: Channel {
            ch_type: ChannelType::CH1,
            nrx0: 0,
            nrx1: 0,
            nrx2: 0,
            nrx3: 0,
            nrx4: 0,
            length: LengthTimer { counter: 0, ch_type: ChannelType::CH1 },
        },
        ch2: Channel {
            ch_type: ChannelType::CH2,
            nrx0: 0,
            nrx1: 0,
            nrx2: 0,
            nrx3: 0,
            nrx4: 0,
            length: LengthTimer { counter: 0, ch_type: ChannelType::CH2 },
        },
        ch3: Channel {
            ch_type: ChannelType::CH3,
            nrx0: 0,
            nrx1: 0,
            nrx2: 0,
            nrx3: 0,
            nrx4: 0,
            length: LengthTimer { counter: 0, ch_type: ChannelType::CH3 },
        },
        ch4: Channel {
            ch_type: ChannelType::CH4,
            nrx0: 0,
            nrx1: 0,
            nrx2: 0,
            nrx3: 0,
            nrx4: 0,
            length: LengthTimer { counter: 0, ch_type: ChannelType::CH4 },
        },
        nr52_master_ctrl: NR52 { byte: 0 },
        nr51_sound_panning: NR51 { byte: 0 },
        nr50_master_volume: NR50 { byte: 0 },
        frame_sequencer: FrameSequencer { step: 0 },
        ticks_count: 0,
    }
}

/// Setting or clearing one of the four channel-status bits never changes
/// the power bit.
proof fn lemma_low_bit_keeps_power()
    by (bit_vector)
    ensures
        forall|byte: u8, pos: u8|
            pos < 4 ==> #[trigger] ((byte | (1u8 << pos)) & 0x80) == byte & 0x80,
        forall|byte: u8, pos: u8|
            pos < 4 ==> #[trigger] ((byte & !(1u8 << pos)) & 0x80) == byte & 0x80,
        0u8 & 0x80 == 0,
        forall|byte: u8| #[trigger] ((byte | 0x80) & 0x80) != 0,
{
}

/// An APU register write preserves the APU invariant: writes while the
/// power is off are ignored, powering down clears the registers, and no
/// write while on can clear the power bit except through NR52.
pub proof fn lemma_apu_write_wf(a: Apu, addr: u16, v: u8)
    requires
        sp_apu_wf(a),
    ensures
        sp_apu_wf(sp_apu_write(a, addr, v)),
{
    lemma_low_bit_keeps_power();
}

/// An APU t-cycle preserves the APU invariant: the sequencer only runs
/// while the power is on, and length expiry clears status bits only.
pub proof fn lemma_apu_tick_wf(a: Apu)
    requires
        sp_apu_wf(a),
    ensures
        sp_apu_wf(sp_apu_tick(a)),
{
    lemma_low_bit_keeps_power();
}

/// After a write of zero to NR52, every APU register other than NR52 reads
/// exactly its always-one mask — NR50 and NR51 read 0x00 — whatever was in
/// it before.
pub proof fn lemma_apu_power_off_reads(a: Apu, addr: u16)
    requires
        sp_apu_wf(a),
        0xFF10 <= addr <= 0xFF25,
    ensures
        sp_apu_read(sp_apu_write(a, 0xFF26, 0), addr) == sp_nr_mask(addr),
{
    assert(0u8 & 0x80 == 0) by (bit_vector);
    assert(forall|m: u8| #[trigger] (0u8 | m) == m) by (bit_vector);
}

fn nr_mask(addr: u16) -> (r: u8)
    ensures
        r == sp_nr_mask(addr),
{
    if addr == 0xFF10 {
        0x80
    } else if addr == 0xFF11 || addr == 0xFF16 {
        0x3F
    } else if addr == 0xFF12 || addr == 0xFF17 || addr == 0xFF21 || addr == 0xFF22 {
        0x00
    } else if addr == 0xFF13 || addr == 0xFF18 || addr == 0xFF1B || addr == 0xFF1D || addr
        == 0xFF20 {
        0xFF
    } else if addr == 0xFF14 || addr == 0xFF19 || addr == 0xFF1E || addr == 0xFF23 {
        0xBF
    } else if addr == 0xFF1A {
        0x7F
    } else if addr == 0xFF1C {
        0x9F
    } else if addr == 0xFF24 || addr == 0xFF25 {
        0x00
    } else {
        0xFF
    }
}

} // verus!
