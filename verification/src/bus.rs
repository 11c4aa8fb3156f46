//! The memory bus: the single authority on who owns each byte of the 16-bit
//! address space. Reads and writes dispatch to the cartridge ROM image,
//! RAM, the echo region, OAM, the prohibited region, the IO peripherals,
//! HRAM and the IE register.

use crate::apu::sp_apu_wf;
use crate::io::{sp_io_address, sp_io_read, sp_io_write, Io, IoAddress};
use vstd::prelude::*;

verus! {

/// The number of addressable bytes.
pub const MEM_SIZE: usize = 0x10000;

/// The bus: a 64 KiB backing image for every plain-storage region, the
/// modeled IO peripherals, and whether the cartridge ROM region ignores
/// writes (a loaded cartridge does; a flat test bus does not).
#[derive(Debug, Clone)]
pub struct Bus {
    pub mem: Vec<u8>,
    pub io: Io,
    pub rom_locked: bool,
}

/// The mathematical view of the bus.
pub struct BusV {
    pub mem: Seq<u8>,
    pub io: Io,
    pub rom_locked: bool,
}

impl View for Bus {
    type V = BusV;

    open spec fn view(&self) -> BusV {
        BusV { mem: self.mem@, io: self.io, rom_locked: self.rom_locked }
    }
}

impl BusV {
    /// The backing image spans the address space, and the APU registers are
    /// zero whenever its power is off.
    pub open spec fn wf(self) -> bool {
        &&& self.mem.len() == 0x10000
        &&& sp_apu_wf(self.io.apu)
    }
}

/// Whether an address is served by the modeled IO peripherals rather than
/// by plain storage.
pub open spec fn sp_bus_is_io(addr: u16) -> bool {
    sp_io_address(addr) is Some
}

/// What a bus read returns at each address: echo RAM aliases WRAM, the
/// prohibited region reads 0xFF, IE and the modeled IO registers read from
/// their owners, and every other address reads the backing image.
pub open spec fn sp_bus_read(b: BusV, addr: u16) -> u8 {
    if 0xE000 <= addr && addr <= 0xFDFF {
        b.mem[addr - 0x2000]
    } else if 0xFEA0 <= addr && addr <= 0xFEFF {
        0xFF
    } else if addr == 0xFFFF {
        b.io.interrupts.ie_register
    } else if sp_bus_is_io(addr) {
        sp_io_read(b.io, addr)
    } else {
        b.mem[addr as int]
    }
}

/// The bus after a write: ROM-region writes are forwarded to the cartridge
/// (which ignores them when one is loaded), echo RAM aliases WRAM, the
/// prohibited region ignores writes, IE and the modeled IO registers write
/// through to their owners, and everything else stores to the backing image.
pub open spec fn sp_bus_write(b: BusV, addr: u16, v: u8) -> BusV {
    if addr <= 0x7FFF {
        if b.rom_locked {
            b
        } else {
            BusV { mem: b.mem.update(addr as int, v), ..b }
        }
    } else if 0xE000 <= addr && addr <= 0xFDFF {
        BusV { mem: b.mem.update(addr - 0x2000, v), ..b }
    } else if 0xFEA0 <= addr && addr <= 0xFEFF {
        b
    } else if addr == 0xFFFF {
        BusV {
            io: Io {
                interrupts: crate::interrupts::Interrupts { ie_register: v, ..b.io.interrupts },
                ..b.io
            },
            ..b
        }
    } else if sp_bus_is_io(addr) {
        BusV { io: sp_io_write(b.io, addr, v), ..b }
    } else {
        BusV { mem: b.mem.update(addr as int, v), ..b }
    }
}

impl Bus {
    /// A flat test bus: the given bytes fill the image from address zero,
    /// the rest is zero, and the ROM region accepts writes.
    pub fn with_bytes(bytes: Vec<u8>) -> (r: Bus)
        ensures
            r@.wf(),
            r@.io == Io::sp_initial_io(),
            !r@.rom_locked,
            forall|i: int|
                0 <= i < 0x10000 ==> r@.mem[i] == (if i < bytes@.len() {
                    bytes@[i]
                } else {
                    0u8
                }),
    {
        let mut mem: Vec<u8> = Vec::new();
        let mut i: usize = 0;
        while i < 0x10000
            invariant
                i <= 0x10000,
                mem@.len() == i,
                forall|j: int|
                    0 <= j < i ==> mem@[j] == (if j < bytes@.len() {
                        bytes@[j]
                    } else {
                        0u8
                    }),
            decreases 0x10000 - i,
        {
            if i < bytes.len() {
                mem.push(bytes[i]);
            } else {
                mem.push(0);
            }
            i = i + 1;
        }
        Bus { mem, io: Io::new(), rom_locked: false }
    }

    /// A bus over a cartridge ROM image: the image fills the ROM region,
    /// which then ignores writes.
    pub fn with_cart(rom: Vec<u8>) -> (r: Bus)
        ensures
            r@.wf(),
            r@.io == Io::sp_initial_io(),
            r@.rom_locked,
            forall|i: int|
                0 <= i < 0x10000 ==> r@.mem[i] == (if i < rom@.len() && i < 0x8000 {
                    rom@[i]
                } else {
                    0u8
                }),
    {
        let mut mem: Vec<u8> = Vec::new();
        let mut i: usize = 0;
        while i < 0x10000
            invariant
                i <= 0x10000,
                mem@.len() == i,
                forall|j: int|
                    0 <= j < i ==> mem@[j] == (if j < rom@.len() && j < 0x8000 {
                        rom@[j]
                    } else {
                        0u8
                    }),
            decreases 0x10000 - i,
        {
            if i < rom.len() && i < 0x8000 {
                mem.push(rom[i]);
            } else {
                mem.push(0);
            }
            i = i + 1;
        }
        Bus { mem, io: Io::new(), rom_locked: true }
    }

    /// An 8-bit synchronous read.
    pub fn read(&self, address: u16) -> (r: u8)
        requires
            self@.wf(),
        ensures
            r == sp_bus_read(self@, address),
    {
        if 0xE000 <= address && address <= 0xFDFF {
            self.mem[(address - 0x2000) as usize]
        } else if 0xFEA0 <= address && address <= 0xFEFF {
            0xFF
        } else if address == 0xFFFF {
            self.io.interrupts.ie_register
        } else if matches!(IoAddress::from_address(address), Some(_)) {
            self.io.read(address)
        } else {
            self.mem[address as usize]
        }
    }

    /// An 8-bit synchronous write.
    pub fn write(&mut self, address: u16, value: u8)
        requires
            old(self)@.wf(),
        ensures
            final(self)@ == sp_bus_write(old(self)@, address, value),
            final(self)@.wf(),
    {
        proof {
            crate::apu::lemma_apu_write_wf(self.io.apu, address, value);
        }
        if address <= 0x7FFF {
            if !self.rom_locked {
                self.mem[address as usize] = value;
            }
        } else if 0xE000 <= address && address <= 0xFDFF {
            self.mem[(address - 0x2000) as usize] = value;
        } else if 0xFEA0 <= address && address <= 0xFEFF {
        } else if address == 0xFFFF {
            self.io.interrupts.ie_register = value;
        } else if matches!(IoAddress::from_address(address), Some(_)) {
            self.io.write(address, value);
        } else {
            self.mem[address as usize] = value;
        }
    }
}

/// Writing zero to NR52 through the bus makes every APU register other than
/// NR52 read its always-one mask, and leaves the whole memory image — wave
/// RAM included — untouched.
pub proof fn lemma_apu_power_off_bus(b: BusV, addr: u16)
    requires
        b.wf(),
        0xFF10 <= addr <= 0xFF25,
    ensures
        sp_bus_read(sp_bus_write(b, 0xFF26, 0), addr) == crate::apu::sp_nr_mask(addr),
        sp_bus_write(b, 0xFF26, 0).mem == b.mem,
{
    crate::apu::lemma_apu_power_off_reads(b.io.apu, addr);
}

impl Io {
    /// The reset state of the IO block.
    pub open spec fn sp_initial_io() -> Io {
        Io {
            serial: crate::io::Serial { sb: 0, sc: 0 },
            timer: crate::timer::Timer { div: 0, tima: 0, tma: 0, tac: 0, reload_countdown: 0 },
            interrupts: crate::interrupts::Interrupts {
                ime: false,
                ie_register: 0,
                int_flags: 0,
                cpu_halted: false,
            },
            apu: crate::apu::sp_initial_apu(),
        }
    }
}

} // verus!
