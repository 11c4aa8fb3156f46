//! The interrupt controller: the IE and IF bytes, the master-enable flag,
//! pending-interrupt selection in priority order, and the halt flag the CPU
//! step loop consults.

use vstd::prelude::*;

verus! {

/// The five interrupt kinds, in priority order (VBlank highest).
#[derive(Debug, Clone, Copy, PartialEq, Eq, Structural)]
pub enum InterruptType {
    VBlank,
    LcdStat,
    Timer,
    Serial,
    Joypad,
}

/// The IF/IE bit that belongs to an interrupt kind.
pub open spec fn sp_int_mask(t: InterruptType) -> u8 {
    match t {
        InterruptType::VBlank => 0x01,
        InterruptType::LcdStat => 0x02,
        InterruptType::Timer => 0x04,
        InterruptType::Serial => 0x08,
        InterruptType::Joypad => 0x10,
    }
}

/// The fixed dispatch vector of an interrupt kind.
pub open spec fn sp_int_address(t: InterruptType) -> u16 {
    match t {
        InterruptType::VBlank => 0x40,
        InterruptType::LcdStat => 0x48,
        InterruptType::Timer => 0x50,
        InterruptType::Serial => 0x58,
        InterruptType::Joypad => 0x60,
    }
}

impl InterruptType {
    /// The IF/IE bit of this kind.
    pub fn get_mask(self) -> (r: u8)
        ensures
            r == sp_int_mask(self),
    {
        match self {
            InterruptType::VBlank => 0x01,
            InterruptType::LcdStat => 0x02,
            InterruptType::Timer => 0x04,
            InterruptType::Serial => 0x08,
            InterruptType::Joypad => 0x10,
        }
    }

    /// The fixed dispatch vector of this kind.
    pub fn get_address(self) -> (r: u16)
        ensures
            r == sp_int_address(self),
    {
        match self {
            InterruptType::VBlank => 0x40,
            InterruptType::LcdStat => 0x48,
            InterruptType::Timer => 0x50,
            InterruptType::Serial => 0x58,
            InterruptType::Joypad => 0x60,
        }
    }
}

/// IE, IF, the master-enable flag and the halt flag.
#[derive(Debug, Clone, Copy, PartialEq, Eq)]
pub struct Interrupts {
    pub ime: bool,
    pub ie_register: u8,
    pub int_flags: u8,
    pub cpu_halted: bool,
}

/// The highest-priority interrupt kind whose bit is set in `IE & IF & 0x1F`.
pub open spec fn sp_pending_interrupt(i: Interrupts) -> Option<InterruptType> {
    let both = i.ie_register & i.int_flags;
    if both & 0x01 != 0 {
        Some(InterruptType::VBlank)
    } else if both & 0x02 != 0 {
        Some(InterruptType::LcdStat)
    } else if both & 0x04 != 0 {
        Some(InterruptType::Timer)
    } else if both & 0x08 != 0 {
        Some(InterruptType::Serial)
    } else if both & 0x10 != 0 {
        Some(InterruptType::Joypad)
    } else {
        None
    }
}

/// The controller after an interrupt of kind `t` is requested.
pub open spec fn sp_request_interrupt(i: Interrupts, t: InterruptType) -> Interrupts {
    Interrupts { int_flags: i.int_flags | sp_int_mask(t), ..i }
}

/// The controller after acknowledging kind `t`: its IF bit is cleared, the
/// master enable drops, and a halted CPU wakes.
pub open spec fn sp_handle_interrupt(i: Interrupts, t: InterruptType) -> Interrupts {
    Interrupts {
        int_flags: i.int_flags & !sp_int_mask(t),
        ime: false,
        cpu_halted: false,
        ..i
    }
}

impl Interrupts {
    pub fn new() -> (r: Interrupts)
        ensures
            r == (Interrupts { ime: false, ie_register: 0, int_flags: 0, cpu_halted: false }),
    {
        Interrupts { ime: false, ie_register: 0, int_flags: 0, cpu_halted: false }
    }

    /// Sets the IF bit of kind `t`.
    pub fn request_interrupt(&mut self, t: InterruptType)
        ensures
            *final(self) == sp_request_interrupt(*old(self), t),
    {
        self.int_flags = self.int_flags | t.get_mask();
    }

    /// Returns the highest-priority pending interrupt, if any.
    pub fn get_interrupt(&self) -> (r: Option<InterruptType>)
        ensures
            r == sp_pending_interrupt(*self),
    {
        let both = self.ie_register & self.int_flags;
        if both & 0x01 != 0 {
            Some(InterruptType::VBlank)
        } else if both & 0x02 != 0 {
            Some(InterruptType::LcdStat)
        } else if both & 0x04 != 0 {
            Some(InterruptType::Timer)
        } else if both & 0x08 != 0 {
            Some(InterruptType::Serial)
        } else if both & 0x10 != 0 {
            Some(InterruptType::Joypad)
        } else {
            None
        }
    }

    /// Acknowledges kind `t`: clears its IF bit, clears the master enable,
    /// and wakes a halted CPU.
    pub fn handle_interrupt(&mut self, t: InterruptType)
        ensures
            *final(self) == sp_handle_interrupt(*old(self), t),
    {
        self.int_flags = self.int_flags & !t.get_mask();
        self.ime = false;
        self.cpu_halted = false;
    }
}

} // verus!
