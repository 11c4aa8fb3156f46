//! The divider and timer: DIV is the upper byte of a free-running 16-bit
//! counter that advances every t-cycle; TIMA increments on the falling edge
//! of a selected counter bit AND'd with the TAC enable, and reloads from TMA
//! four t-cycles after it overflows.

use vstd::prelude::*;

verus! {

/// The four timer registers, 0xFF04..=0xFF07.
#[derive(Debug, Clone, Copy, PartialEq, Eq, Structural)]
pub enum TimerAddress {
    /// FF04 — DIV: divider register.
    Div,
    /// FF05 — TIMA: timer counter.
    Tima,
    /// FF06 — TMA: timer modulo.
    Tma,
    /// FF07 — TAC: timer control.
    Tac,
}

impl TimerAddress {
    /// Maps a bus address to a timer register.
    pub fn from_address(address: u16) -> (r: Option<TimerAddress>)
        ensures
            r == sp_timer_address(address),
    {
        if address == 0xFF04 {
            Some(TimerAddress::Div)
        } else if address == 0xFF05 {
            Some(TimerAddress::Tima)
        } else if address == 0xFF06 {
            Some(TimerAddress::Tma)
        } else if address == 0xFF07 {
            Some(TimerAddress::Tac)
        } else {
            None
        }
    }
}

pub open spec fn sp_timer_address(address: u16) -> Option<TimerAddress> {
    if address == 0xFF04 {
        Some(TimerAddress::Div)
    } else if address == 0xFF05 {
        Some(TimerAddress::Tima)
    } else if address == 0xFF06 {
        Some(TimerAddress::Tma)
    } else if address == 0xFF07 {
        Some(TimerAddress::Tac)
    } else {
        None
    }
}

/// Timer state. `div` is the full internal counter; the DIV register is its
/// upper byte. A non-zero `reload_countdown` counts the t-cycles left of the
/// overflow window during which TIMA reads zero.
#[derive(Debug, Clone, Copy, PartialEq, Eq)]
pub struct Timer {
    pub div: u16,
    pub tima: u8,
    pub tma: u8,
    pub tac: u8,
    pub reload_countdown: u8,
}

/// Whether TAC bit 2 enables TIMA.
pub open spec fn sp_timer_enabled(tac: u8) -> bool {
    tac & 0x04 != 0
}

/// The counter bit selected by TAC bits 1..0: bit 9, 3, 5 or 7, giving
/// 4096, 262144, 65536 or 16384 Hz.
pub open spec fn sp_selected_bit(div: u16, tac: u8) -> bool {
    let sel = tac & 3;
    if sel == 0 {
        div & 0x0200 != 0
    } else if sel == 1 {
        div & 0x0008 != 0
    } else if sel == 2 {
        div & 0x0020 != 0
    } else {
        div & 0x0080 != 0
    }
}

/// One TIMA increment: on overflow TIMA reads zero and the four-t-cycle
/// reload window opens.
pub open spec fn sp_tima_increment(t: Timer) -> Timer {
    if t.tima == 0xFF {
        Timer { tima: 0, reload_countdown: 4, ..t }
    } else {
        Timer { tima: (t.tima + 1) as u8, ..t }
    }
}

/// One t-cycle of the timer: the overflow window advances (reloading TIMA
/// from TMA and raising the interrupt when it closes), the counter
/// increments, and a falling edge of the selected, enabled bit bumps TIMA.
pub open spec fn sp_timer_tick(t: Timer) -> (Timer, bool) {
    let (t1, irq) = if t.reload_countdown > 0 {
        if t.reload_countdown == 1 {
            (Timer { tima: t.tma, reload_countdown: 0, ..t }, true)
        } else {
            (Timer { reload_countdown: (t.reload_countdown - 1) as u8, ..t }, false)
        }
    } else {
        (t, false)
    };
    let old_bit = sp_selected_bit(t1.div, t1.tac);
    let new_div: u16 = if t1.div == 0xFFFF {
        0
    } else {
        (t1.div + 1) as u16
    };
    let t2 = Timer { div: new_div, ..t1 };
    if sp_timer_enabled(t2.tac) && old_bit && !sp_selected_bit(new_div, t2.tac) {
        (sp_tima_increment(t2), irq)
    } else {
        (t2, irq)
    }
}

/// What a timer register reads as; DIV is the counter's upper byte.
pub open spec fn sp_timer_read(t: Timer, a: TimerAddress) -> u8 {
    match a {
        TimerAddress::Div => ((t.div >> 8) & 0xFF) as u8,
        TimerAddress::Tima => t.tima,
        TimerAddress::Tma => t.tma,
        TimerAddress::Tac => t.tac,
    }
}

/// The timer after a register write. Writing DIV zeroes the counter; if the
/// selected bit was one while enabled, that is a falling edge and TIMA
/// increments once. Writing TIMA cancels a pending reload.
pub open spec fn sp_timer_write(t: Timer, a: TimerAddress, v: u8) -> Timer {
    match a {
        TimerAddress::Div => {
            let edge = sp_timer_enabled(t.tac) && sp_selected_bit(t.div, t.tac);
            let t1 = Timer { div: 0, ..t };
            if edge {
                sp_tima_increment(t1)
            } else {
                t1
            }
        },
        TimerAddress::Tima => Timer { tima: v, reload_countdown: 0, ..t },
        TimerAddress::Tma => Timer { tma: v, ..t },
        TimerAddress::Tac => Timer { tac: v, ..t },
    }
}

proof fn lemma_div_byte_bound(d: u16)
    by (bit_vector)
    ensures
        (d >> 8) & 0xFF < 256,
{
}

impl Timer {
    pub fn new() -> (r: Timer)
        ensures
            r == (Timer { div: 0, tima: 0, tma: 0, tac: 0, reload_countdown: 0 }),
    {
        Timer { div: 0, tima: 0, tma: 0, tac: 0, reload_countdown: 0 }
    }

    fn selected_bit(&self) -> (r: bool)
        ensures
            r == sp_selected_bit(self.div, self.tac),
    {
        let sel = self.tac & 3;
        if sel == 0 {
            self.div & 0x0200 != 0
        } else if sel == 1 {
            self.div & 0x0008 != 0
        } else if sel == 2 {
            self.div & 0x0020 != 0
        } else {
            self.div & 0x0080 != 0
        }
    }

    fn increment_tima(&mut self)
        ensures
            *final(self) == sp_tima_increment(*old(self)),
    {
        if self.tima == 0xFF {
            self.tima = 0;
            self.reload_countdown = 4;
        } else {
            self.tima = self.tima + 1;
        }
    }

    /// One t-cycle; returns whether the Timer interrupt is requested.
    pub fn tick(&mut self) -> (irq: bool)
        ensures
            (*final(self), irq) == sp_timer_tick(*old(self)),
    {
        let mut irq = false;
        if self.reload_countdown > 0 {
            if self.reload_countdown == 1 {
                self.tima = self.tma;
                self.reload_countdown = 0;
                irq = true;
            } else {
                self.reload_countdown = self.reload_countdown - 1;
            }
        }
        let old_bit = self.selected_bit();
        self.div = if self.div == 0xFFFF {
            0
        } else {
            self.div + 1
        };
        if (self.tac & 0x04 != 0) && old_bit && !self.selected_bit() {
            self.increment_tima();
        }
        irq
    }

    /// Reads a timer register; DIV reads the counter's upper byte.
    pub fn read(&self, address: TimerAddress) -> (r: u8)
        ensures
            r == sp_timer_read(*self, address),
    {
        proof {
            lemma_div_byte_bound(self.div);
        }
        match address {
            TimerAddress::Div => ((self.div >> 8) & 0xFF) as u8,
            TimerAddress::Tima => self.tima,
            TimerAddress::Tma => self.tma,
            TimerAddress::Tac => self.tac,
        }
    }

    /// Writes a timer register, with the DIV falling-edge quirk and the
    /// reload-cancel on TIMA writes.
    pub fn write(&mut self, address: TimerAddress, value: u8)
        ensures
            *final(self) == sp_timer_write(*old(self), address, value),
    {
        match address {
            TimerAddress::Div => {
                let edge = (self.tac & 0x04 != 0) && self.selected_bit();
                self.div = 0;
                if edge {
                    self.increment_tima();
                }
            },
            TimerAddress::Tima => {
                self.tima = value;
                self.reload_countdown = 0;
            },
            TimerAddress::Tma => self.tma = value,
            TimerAddress::Tac => self.tac = value,
        }
    }
}

} // verus!
