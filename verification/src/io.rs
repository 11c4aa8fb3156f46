//! The IO register block at 0xFF00..0xFF7F that the bus demultiplexes to the
//! serial port, the timer, the interrupt flags and the APU. Registers this
//! core does not model (joypad, PPU, boot latch) stay plain storage in the
//! bus memory image.

use crate::apu::{sp_apu_read, sp_apu_write, Apu};
use crate::interrupts::Interrupts;
use crate::timer::{sp_timer_read, sp_timer_write, Timer, TimerAddress};
use vstd::prelude::*;

verus! {

/// FF01/FF02 — SB and SC: serial transfer data and control.
#[derive(Debug, Clone, Copy, PartialEq, Eq)]
pub struct Serial {
    pub sb: u8,
    pub sc: u8,
}

impl Serial {
    pub fn new() -> (r: Serial)
        ensures
            r == (Serial { sb: 0, sc: 0 }),
    {
        Serial { sb: 0, sc: 0 }
    }

    /// Whether a transfer was started (SC holds 0x81).
    pub fn has_data(&self) -> (r: bool)
        ensures
            r == (self.sc == 0x81),
    {
        self.sc == 0x81
    }

    /// Takes the pending byte and clears the transfer-control register.
    pub fn take_data(&mut self) -> (r: u8)
        ensures
            r == old(self).sb,
            *final(self) == (Serial { sc: 0, ..*old(self) }),
    {
        self.sc = 0;
        self.sb
    }
}

/// An IO address this core models.
#[derive(Debug, Clone, Copy, PartialEq, Eq)]
pub enum IoAddress {
    /// FF01 — SB: serial transfer data.
    SerialSb,
    /// FF02 — SC: serial transfer control.
    SerialSc,
    /// FF04..=FF07 — the timer registers.
    Timer(TimerAddress),
    /// FF0F — IF: interrupt flags.
    InterruptFlags,
    /// FF10..=FF2F — the APU registers.
    Apu(u16),
}

/// Which modeled IO register owns an address, if any.
pub open spec fn sp_io_address(address: u16) -> Option<IoAddress> {
    if address == 0xFF01 {
        Some(IoAddress::SerialSb)
    } else if address == 0xFF02 {
        Some(IoAddress::SerialSc)
    } else if 0xFF04 <= address && address <= 0xFF07 {
        match crate::timer::sp_timer_address(address) {
            Some(t) => Some(IoAddress::Timer(t)),
            None => None,
        }
    } else if address == 0xFF0F {
        Some(IoAddress::InterruptFlags)
    } else if 0xFF10 <= address && address <= 0xFF2F {
        Some(IoAddress::Apu(address))
    } else {
        None
    }
}

impl IoAddress {
    /// Maps a bus address to the modeled IO register that owns it.
    pub fn from_address(address: u16) -> (r: Option<IoAddress>)
        ensures
            r == sp_io_address(address),
    {
        if address == 0xFF01 {
            Some(IoAddress::SerialSb)
        } else if address == 0xFF02 {
            Some(IoAddress::SerialSc)
        } else if 0xFF04 <= address && address <= 0xFF07 {
            match TimerAddress::from_address(address) {
                Some(t) => Some(IoAddress::Timer(t)),
                None => None,
            }
        } else if address == 0xFF0F {
            Some(IoAddress::InterruptFlags)
        } else if 0xFF10 <= address && address <= 0xFF2F {
            Some(IoAddress::Apu(address))
        } else {
            None
        }
    }
}

/// The modeled IO peripherals.
#[derive(Debug, Clone, Copy, PartialEq, Eq)]
pub struct Io {
    pub serial: Serial,
    pub timer: Timer,
    pub interrupts: Interrupts,
    pub apu: Apu,
}

/// What a modeled IO address reads as; an address this block does not own
/// reads 0xFF.
pub open spec fn sp_io_read(io: Io, address: u16) -> u8 {
    match sp_io_address(address) {
        Some(IoAddress::SerialSb) => io.serial.sb,
        Some(IoAddress::SerialSc) => io.serial.sc,
        Some(IoAddress::Timer(t)) => sp_timer_read(io.timer, t),
        Some(IoAddress::InterruptFlags) => io.interrupts.int_flags,
        Some(IoAddress::Apu(a)) => sp_apu_read(io.apu, a),
        None => 0xFF,
    }
}

/// The IO block after a write; an address it does not own is left alone.
pub open spec fn sp_io_write(io: Io, address: u16, value: u8) -> Io {
    match sp_io_address(address) {
        Some(IoAddress::SerialSb) => Io { serial: Serial { sb: value, ..io.serial }, ..io },
        Some(IoAddress::SerialSc) => Io { serial: Serial { sc: value, ..io.serial }, ..io },
        Some(IoAddress::Timer(t)) => Io { timer: sp_timer_write(io.timer, t, value), ..io },
        Some(IoAddress::InterruptFlags) => Io {
            interrupts: Interrupts { int_flags: value, ..io.interrupts },
            ..io
        },
        Some(IoAddress::Apu(a)) => Io { apu: sp_apu_write(io.apu, a, value), ..io },
        None => io,
    }
}

impl Io {
    pub fn new() -> (r: Io)
        ensures
            r == (Io {
                serial: Serial { sb: 0, sc: 0 },
                timer: crate::timer::Timer { div: 0, tima: 0, tma: 0, tac: 0, reload_countdown: 0 },
                interrupts: Interrupts { ime: false, ie_register: 0, int_flags: 0, cpu_halted: false },
                apu: crate::apu::sp_initial_apu(),
            }),
    {
        Io {
            serial: Serial::new(),
            timer: Timer::new(),
            interrupts: Interrupts::new(),
            apu: Apu::new(),
        }
    }

    /// Reads a modeled IO register; an address this block does not own
    /// reads 0xFF.
    pub fn read(&self, address: u16) -> (r: u8)
        ensures
            r == sp_io_read(*self, address),
    {
        match IoAddress::from_address(address) {
            Some(IoAddress::SerialSb) => self.serial.sb,
            Some(IoAddress::SerialSc) => self.serial.sc,
            Some(IoAddress::Timer(t)) => self.timer.read(t),
            Some(IoAddress::InterruptFlags) => self.interrupts.int_flags,
            Some(IoAddress::Apu(a)) => self.apu.read(a),
            None => 0xFF,
        }
    }

    /// Writes a modeled IO register; a write to an address this block does
    /// not own is ignored.
    pub fn write(&mut self, address: u16, value: u8)
        ensures
            *final(self) == sp_io_write(*old(self), address, value),
    {
        match IoAddress::from_address(address) {
            Some(IoAddress::SerialSb) => self.serial.sb = value,
            Some(IoAddress::SerialSc) => self.serial.sc = value,
            Some(IoAddress::Timer(t)) => self.timer.write(t, value),
            Some(IoAddress::InterruptFlags) => self.interrupts.int_flags = value,
            Some(IoAddress::Apu(a)) => self.apu.write(a, value),
            None => {},
        }
    }
}

} // verus!
