//! The four APU channels: two pulse channels, the wave channel and the noise
//! channel. Each owns its raw register bytes and a length timer; wave RAM
//! lives in the bus memory image.

use crate::length_timer::LengthTimer;
use vstd::prelude::*;

verus! {

/// Which of the four channels a piece of state belongs to.
#[derive(Debug, Clone, Copy, PartialEq, Eq, Structural)]
pub enum ChannelType {
    CH1,
    CH2,
    CH3,
    CH4,
}

/// The NR52 bit that reports a channel as active.
pub open spec fn sp_ch_bit(t: ChannelType) -> u8 {
    match t {
        ChannelType::CH1 => 0,
        ChannelType::CH2 => 1,
        ChannelType::CH3 => 2,
        ChannelType::CH4 => 3,
    }
}

/// The value a channel's length counter reloads to on trigger: 64 for the
/// pulse and noise channels, 256 for the wave channel.
pub open spec fn sp_initial_length(t: ChannelType) -> u16 {
    match t {
        ChannelType::CH1 | ChannelType::CH2 | ChannelType::CH4 => 64,
        ChannelType::CH3 => 256,
    }
}

/// The NRx1 bits that hold the initial length value.
pub open spec fn sp_length_mask(t: ChannelType) -> u8 {
    match t {
        ChannelType::CH1 | ChannelType::CH2 | ChannelType::CH4 => 0x3F,
        ChannelType::CH3 => 0xFF,
    }
}

impl ChannelType {
    /// The NR52 bit position that reports this channel as active.
    pub fn get_enable_bit_pos(&self) -> (r: u8)
        ensures
            r == sp_ch_bit(*self),
    {
        match self {
            ChannelType::CH1 => 0,
            ChannelType::CH2 => 1,
            ChannelType::CH3 => 2,
            ChannelType::CH4 => 3,
        }
    }

    /// The length counter's reload value: 64, or 256 for the wave channel.
    pub fn get_initial_length_timer(&self) -> (r: u16)
        ensures
            r == sp_initial_length(*self),
    {
        match self {
            ChannelType::CH1 | ChannelType::CH2 | ChannelType::CH4 => 64,
            ChannelType::CH3 => 256,
        }
    }

    /// The NRx1 bits that hold the initial length value.
    pub fn get_length_timer_mask(&self) -> (r: u8)
        ensures
            r == sp_length_mask(*self),
    {
        match self {
            ChannelType::CH1 | ChannelType::CH2 | ChannelType::CH4 => 0x3F,
            ChannelType::CH3 => 0xFF,
        }
    }
}

/// One channel's raw register bytes (NRx0..NRx4) and its length timer.
/// Channels without a given register keep the unused byte at zero.
#[derive(Debug, Clone, Copy, PartialEq, Eq)]
pub struct Channel {
    pub ch_type: ChannelType,
    pub nrx0: u8,
    pub nrx1: u8,
    pub nrx2: u8,
    pub nrx3: u8,
    pub nrx4: u8,
    pub length: LengthTimer,
}

/// Whether the channel's DAC is powered: NR30 bit 7 for the wave channel,
/// any of NRx2 bits 7..3 for the others.
pub open spec fn sp_dac_on(c: Channel) -> bool {
    match c.ch_type {
        ChannelType::CH3 => c.nrx0 & 0x80 != 0,
        _ => c.nrx2 & 0xF8 != 0,
    }
}

/// A channel with every register byte cleared; the length counter survives
/// an APU power cycle.
pub open spec fn sp_channel_cleared(c: Channel) -> Channel {
    Channel { nrx0: 0, nrx1: 0, nrx2: 0, nrx3: 0, nrx4: 0, ..c }
}

impl Channel {
    pub fn new(ch_type: ChannelType) -> (r: Channel)
        ensures
            r == (Channel {
                ch_type,
                nrx0: 0,
                nrx1: 0,
                nrx2: 0,
                nrx3: 0,
                nrx4: 0,
                length: LengthTimer { counter: 0, ch_type },
            }),
    {
        Channel {
            ch_type,
            nrx0: 0,
            nrx1: 0,
            nrx2: 0,
            nrx3: 0,
            nrx4: 0,
            length: LengthTimer::new(ch_type),
        }
    }

    /// Whether this channel's DAC is powered.
    pub fn dac_on(&self) -> (r: bool)
        ensures
            r == sp_dac_on(*self),
    {
        match self.ch_type {
            ChannelType::CH3 => self.nrx0 & 0x80 != 0,
            _ => self.nrx2 & 0xF8 != 0,
        }
    }

    /// Clears every register byte, as an APU power-down does.
    pub fn clear_registers(&mut self)
        ensures
            *final(self) == sp_channel_cleared(*old(self)),
    {
        self.nrx0 = 0;
        self.nrx1 = 0;
        self.nrx2 = 0;
        self.nrx3 = 0;
        self.nrx4 = 0;
    }
}

} // verus!
