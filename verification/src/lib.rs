//! Core of a cycle-accurate Game Boy (DMG/SM83) emulator: the CPU, the memory
//! bus through which every component observes time, the divider/TIMA timer and
//! the APU frame sequencer, with machine-checked contracts for each step.

pub mod apu;
pub mod bus;
pub mod channel;
pub mod cpu;
pub mod execute;
pub mod io;
pub mod frame_sequencer;
pub mod instructions;
pub mod interrupts;
pub mod laws;
pub mod length_timer;
pub mod palette;
pub mod registers;
pub mod savestate;
pub mod timer;

use vstd::prelude::*;

verus! {

/// The system clock, in t-cycles per second.
pub const CPU_CLOCK_SPEED: u32 = 4194304;

/// Returns bit `pos` of `byte` as a flag.
pub fn get_bit_flag(byte: u8, pos: u8) -> (r: bool)
    requires
        pos < 8,
    ensures
        r == (byte & (1u8 << pos) != 0),
{
    byte & (1u8 << pos) != 0
}

/// Sets or clears bit `pos` of `byte`.
pub fn set_bit(byte: &mut u8, pos: u8, on: bool)
    requires
        pos < 8,
    ensures
        *final(byte) == sp_set_bit(*old(byte), pos, on),
{
    if on {
        *byte = *byte | (1u8 << pos);
    } else {
        *byte = *byte & !(1u8 << pos);
    }
}

pub open spec fn sp_set_bit(byte: u8, pos: u8, on: bool) -> u8 {
    if on {
        byte | (1u8 << pos)
    } else {
        byte & !(1u8 << pos)
    }
}

} // verus!
