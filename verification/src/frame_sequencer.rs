//! The frame sequencer: a 512 Hz eight-step counter that clocks the length
//! counters on steps 0, 2, 4 and 6.

use crate::apu::NR52;
use crate::channel::Channel;
use crate::length_timer::sp_length_tick;
use vstd::prelude::*;

verus! {

/// The sequencer's current step, 0..=7.
#[derive(Debug, Clone, Copy, PartialEq, Eq)]
pub struct FrameSequencer {
    pub step: u8,
}

/// One 256 Hz length clock over all four channels in order.
pub open spec fn sp_tick_all_lengths(
    nr52: NR52,
    ch1: Channel,
    ch2: Channel,
    ch3: Channel,
    ch4: Channel,
) -> (NR52, Channel, Channel, Channel, Channel) {
    let (l1, n1) = sp_length_tick(ch1.length, nr52, ch1.nrx4);
    let (l2, n2) = sp_length_tick(ch2.length, n1, ch2.nrx4);
    let (l3, n3) = sp_length_tick(ch3.length, n2, ch3.nrx4);
    let (l4, n4) = sp_length_tick(ch4.length, n3, ch4.nrx4);
    (
        n4,
        Channel { length: l1, ..ch1 },
        Channel { length: l2, ..ch2 },
        Channel { length: l3, ..ch3 },
        Channel { length: l4, ..ch4 },
    )
}

/// One 512 Hz sequencer step: steps 0, 2, 4 and 6 clock the length
/// counters; the step counter then advances modulo eight.
pub open spec fn sp_frame_tick(
    fs: FrameSequencer,
    nr52: NR52,
    ch1: Channel,
    ch2: Channel,
    ch3: Channel,
    ch4: Channel,
) -> (FrameSequencer, NR52, Channel, Channel, Channel, Channel) {
    let (n, c1, c2, c3, c4) = if fs.step == 0 || fs.step == 2 || fs.step == 4 || fs.step == 6 {
        sp_tick_all_lengths(nr52, ch1, ch2, ch3, ch4)
    } else {
        (nr52, ch1, ch2, ch3, ch4)
    };
    let next: u8 = if fs.step >= 7 {
        0
    } else {
        (fs.step + 1) as u8
    };
    (FrameSequencer { step: next }, n, c1, c2, c3, c4)
}

impl FrameSequencer {
    pub fn new() -> (r: FrameSequencer)
        ensures
            r == (FrameSequencer { step: 0 }),
    {
        FrameSequencer { step: 0 }
    }

    /// One 512 Hz step over the master control and the four channels.
    pub fn tick(
        &mut self,
        master_ctrl: &mut NR52,
        ch1: &mut Channel,
        ch2: &mut Channel,
        ch3: &mut Channel,
        ch4: &mut Channel,
    )
        ensures
            (
                *final(self),
                *final(master_ctrl),
                *final(ch1),
                *final(ch2),
                *final(ch3),
                *final(ch4),
            ) == sp_frame_tick(
                *old(self),
                *old(master_ctrl),
                *old(ch1),
                *old(ch2),
                *old(ch3),
                *old(ch4),
            ),
    {
        if self.step == 0 || self.step == 2 || self.step == 4 || self.step == 6 {
            ch1.length.tick(master_ctrl, ch1.nrx4);
            ch2.length.tick(master_ctrl, ch2.nrx4);
            ch3.length.tick(master_ctrl, ch3.nrx4);
            ch4.length.tick(master_ctrl, ch4.nrx4);
        }
        self.step = if self.step >= 7 {
            0
        } else {
            self.step + 1
        };
    }
}

} // verus!
