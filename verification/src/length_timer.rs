//! A length counter disables its channel when it decrements to zero. It is
//! clocked at 256 Hz by the frame sequencer, and only while the channel's
//! NRx4 length-enable bit is set.

use crate::apu::NR52;
use crate::channel::{sp_ch_bit, sp_initial_length, sp_length_mask, ChannelType};
use crate::sp_set_bit;
use vstd::prelude::*;

verus! {

/// A channel's length counter.
#[derive(Debug, Clone, Copy, PartialEq, Eq)]
pub struct LengthTimer {
    pub counter: u16,
    pub ch_type: ChannelType,
}

/// One 256 Hz length clock: while enabled by NRx4 and non-zero, the counter
/// decrements; on reaching zero the channel's NR52 active bit clears.
pub open spec fn sp_length_tick(lt: LengthTimer, nr52: NR52, nrx4: u8) -> (LengthTimer, NR52) {
    if nrx4 & 0x40 == 0 || lt.counter == 0 {
        (lt, nr52)
    } else {
        let lt2 = LengthTimer { counter: (lt.counter - 1) as u16, ..lt };
        if lt2.counter == 0 {
            (lt2, NR52 { byte: sp_set_bit(nr52.byte, sp_ch_bit(lt.ch_type), false) })
        } else {
            (lt2, nr52)
        }
    }
}

/// The counter after a write to NRx1: the masked value subtracted from the
/// channel's initial length.
pub open spec fn sp_length_write(lt: LengthTimer, value: u8) -> LengthTimer {
    LengthTimer {
        counter: (sp_initial_length(lt.ch_type) - (value & sp_length_mask(lt.ch_type))) as u16,
        ..lt
    }
}

impl LengthTimer {
    pub fn new(ch_type: ChannelType) -> (r: LengthTimer)
        ensures
            r == (LengthTimer { counter: 0, ch_type }),
    {
        LengthTimer { counter: 0, ch_type }
    }

    /// One 256 Hz clock; `nrx4` is the channel's raw NRx4 byte whose bit 6
    /// enables length counting.
    pub fn tick(&mut self, nr52: &mut NR52, nrx4: u8)
        ensures
            (*final(self), *final(nr52)) == sp_length_tick(*old(self), *old(nr52), nrx4),
    {
        if nrx4 & 0x40 == 0 || self.counter == 0 {
            return ;
        }
        self.counter = self.counter - 1;
        if self.counter == 0 {
            nr52.deactivate_ch(&self.ch_type);
        }
    }

    /// Whether the counter has reached zero.
    pub fn is_expired(&self) -> (r: bool)
        ensures
            r == (self.counter == 0),
    {
        self.counter == 0
    }

    /// Loads the counter from a write to NRx1.
    pub fn write(&mut self, value: u8)
        ensures
            *final(self) == sp_length_write(*old(self), value),
    {
        let masked = (value & self.ch_type.get_length_timer_mask()) as u16;
        proof {
            assert(value & 0x3F <= 0x3F && value & 0xFF <= 0xFF) by (bit_vector);
        }
        self.counter = self.ch_type.get_initial_length_timer() - masked;
    }

    /// Reloads the counter to the channel's initial length, as a trigger
    /// with an expired counter does.
    pub fn reset(&mut self)
        ensures
            *final(self) == (LengthTimer {
                counter: sp_initial_length(old(self).ch_type),
                ..*old(self)
            }),
    {
        self.counter = self.ch_type.get_initial_length_timer();
    }
}

} // verus!
