use vstd::prelude::*;

use crate::errors::EmuError;
use crate::words::{pair16, word_hi, word_lo};

verus! {

/// The size of the address space: one byte per 16-bit address.
pub const ADDRESS_SPACE: usize = 0x10000;

/// True iff `addr` lies in the read-only cartridge region [0x0100, 0x7FFF].
pub open spec fn in_rom_region(addr: u16) -> bool {
    0x100 <= addr <= 0x7FFF
}

/// True iff `addr` lies in a mutable region: [0x0000, 0x00FF] or
/// [0x8000, 0xFFFF].
pub open spec fn writable(addr: u16) -> bool {
    addr < 0x100 || 0x8000 <= addr
}

/// True iff a byte read at `addr` stays inside the loaded cartridge image.
pub open spec fn rom_readable(rom: Seq<u8>, addr: u16) -> bool {
    in_rom_region(addr) ==> addr - 0x100 < rom.len()
}

/// The byte visible at `addr`: cartridge image bytes in the read-only
/// region, bus storage everywhere else.
pub open spec fn mem_byte(contents: Seq<u8>, rom: Seq<u8>, addr: u16) -> u8 {
    if in_rom_region(addr) {
        rom[addr - 0x100]
    } else {
        contents[addr as int]
    }
}

/// The little-endian word at `addr`: low byte at `addr`, high byte at the
/// following address (wrapping at the top of the address space).
pub open spec fn mem_word(contents: Seq<u8>, rom: Seq<u8>, addr: u16) -> u16 {
    pair16(mem_byte(contents, rom, addr.wrapping_add(1)), mem_byte(contents, rom, addr))
}

/// A byte read decoded by region: the byte at `addr`, or a configuration
/// fault when the cartridge region is mapped past the end of the image.
pub open spec fn mem_read(contents: Seq<u8>, rom: Seq<u8>, addr: u16) -> Result<u8, EmuError> {
    if rom_readable(rom, addr) {
        Ok(mem_byte(contents, rom, addr))
    } else {
        Err(EmuError::Config { addr })
    }
}

/// A little-endian word read: the low byte is read first, so the fault of
/// the lower address is reported first.
pub open spec fn mem_read16(contents: Seq<u8>, rom: Seq<u8>, addr: u16) -> Result<u16, EmuError> {
    if !rom_readable(rom, addr) {
        Err(EmuError::Config { addr })
    } else if !rom_readable(rom, addr.wrapping_add(1)) {
        Err(EmuError::Config { addr: addr.wrapping_add(1) })
    } else {
        Ok(mem_word(contents, rom, addr))
    }
}

/// The bus storage after an unchecked byte store at `addr`.
pub open spec fn mem_stored(contents: Seq<u8>, addr: u16, val: u8) -> Seq<u8> {
    contents.update(addr as int, val)
}

/// The bus storage after an unchecked little-endian word store: low byte at
/// `addr`, high byte at the following address.
pub open spec fn mem_stored16(contents: Seq<u8>, addr: u16, data: u16) -> Seq<u8> {
    mem_stored(mem_stored(contents, addr, word_lo(data)), addr.wrapping_add(1), word_hi(data))
}

/// A byte write decoded by region: the updated storage, or an address fault
/// when `addr` lies in the read-only region.
pub open spec fn mem_write(contents: Seq<u8>, addr: u16, val: u8) -> Result<Seq<u8>, EmuError> {
    if writable(addr) {
        Ok(mem_stored(contents, addr, val))
    } else {
        Err(EmuError::Address { addr })
    }
}

/// A little-endian word write: both addresses must be writable, the lower
/// one is checked first, and nothing is stored on a fault.
pub open spec fn mem_write16(contents: Seq<u8>, addr: u16, data: u16) -> Result<
    Seq<u8>,
    EmuError,
> {
    if !writable(addr) {
        Err(EmuError::Address { addr })
    } else if !writable(addr.wrapping_add(1)) {
        Err(EmuError::Address { addr: addr.wrapping_add(1) })
    } else {
        Ok(mem_stored16(contents, addr, data))
    }
}

/// The memory bus: the full 65536-byte address space plus the cartridge
/// image that backs the read-only region [0x0100, 0x7FFF] at offset
/// `addr - 0x100`.
pub struct Memory {
    /// Backing storage for the mutable regions, one byte per address.
    pub contents: Vec<u8>,
    /// The cartridge image, supplied once at startup and never written.
    pub rom: Vec<u8>,
}

impl Memory {
    /// The bus is well formed when its storage covers the whole address
    /// space.
    pub open spec fn wf(self) -> bool {
        self.contents@.len() == ADDRESS_SPACE
    }

    /// The byte visible at `addr` on this bus.
    pub open spec fn byte_at(self, addr: u16) -> u8 {
        mem_byte(self.contents@, self.rom@, addr)
    }

    /// The little-endian word visible at `addr` on this bus.
    pub open spec fn word_at(self, addr: u16) -> u16 {
        mem_word(self.contents@, self.rom@, addr)
    }

    /// A fresh bus: every address zeroed, no cartridge image loaded.
    pub fn new() -> (m: Memory)
        ensures
            m.wf(),
            forall|addr: int| 0 <= addr < ADDRESS_SPACE ==> m.contents@[addr] == 0,
            m.rom@ == Seq::<u8>::empty(),
    {
        let contents: Vec<u8> = vec![0u8; ADDRESS_SPACE];
        assert forall|addr: int| 0 <= addr < ADDRESS_SPACE implies contents@[addr] == 0 by {
            assert(cloned(0u8, contents@[addr]));
        }
        Memory { contents, rom: Vec::new() }
    }

    /// Supply the cartridge image that backs the read-only region.
    pub fn load_rom(&mut self, image: Vec<u8>)
        ensures
            final(self).rom@ == image@,
            final(self).contents@ == old(self).contents@,
    {
        self.rom = image;
    }

    /// Read the byte at `input`, decoding the region as the bus partition
    /// prescribes; a cartridge read past the end of the image is a
    /// configuration fault.
    pub fn read_address(&self, input: u16) -> (r: Result<u8, EmuError>)
        requires
            self.wf(),
        ensures
            r == mem_read(self.contents@, self.rom@, input),
    {
        if input >= 0x100 && input <= 0x7FFF {
            let offset = (input - 0x100) as usize;
            if offset < self.rom.len() {
                Ok(self.rom[offset])
            } else {
                Err(EmuError::Config { addr: input })
            }
        } else {
            Ok(self.contents[input as usize])
        }
    }

    /// Read the little-endian word at `addr`: low byte at `addr`, high byte
    /// at the following address, wrapping at the top of the address space.
    pub fn read_16(&self, addr: u16) -> (r: Result<u16, EmuError>)
        requires
            self.wf(),
        ensures
            r == mem_read16(self.contents@, self.rom@, addr),
    {
        let lo = match self.read_address(addr) {
            Ok(b) => b,
            Err(e) => {
                return Err(e);
            },
        };
        let hi = match self.read_address(addr.wrapping_add(1)) {
            Ok(b) => b,
            Err(e) => {
                return Err(e);
            },
        };
        Ok((hi as u16) * 0x100 + (lo as u16))
    }

    /// Write one byte at `addr`; a write into the read-only region is an
    /// address fault and changes nothing.
    pub fn write_address(&mut self, addr: u16, val: u8) -> (r: Result<(), EmuError>)
        requires
            old(self).wf(),
        ensures
            final(self).wf(),
            final(self).rom@ == old(self).rom@,
            match mem_write(old(self).contents@, addr, val) {
                Ok(c) => r == Ok::<(), EmuError>(()) && final(self).contents@ == c,
                Err(e) => r == Err::<(), EmuError>(e) && final(self).contents@ == old(
                    self,
                ).contents@,
            },
    {
        if addr < 0x100 || addr >= 0x8000 {
            self.contents[addr as usize] = val;
            Ok(())
        } else {
            Err(EmuError::Address { addr })
        }
    }

    /// Write a little-endian word at `addr`: low byte at `addr`, high byte
    /// at the following address. Both addresses are checked before anything
    /// is stored, so a fault leaves the bus untouched.
    pub fn write_16(&mut self, addr: u16, data: u16) -> (r: Result<(), EmuError>)
        requires
            old(self).wf(),
        ensures
            final(self).wf(),
            final(self).rom@ == old(self).rom@,
            match mem_write16(old(self).contents@, addr, data) {
                Ok(c) => r == Ok::<(), EmuError>(()) && final(self).contents@ == c,
                Err(e) => r == Err::<(), EmuError>(e) && final(self).contents@ == old(
                    self,
                ).contents@,
            },
    {
        let next = addr.wrapping_add(1);
        if !(addr < 0x100 || addr >= 0x8000) {
            return Err(EmuError::Address { addr });
        }
        if !(next < 0x100 || next >= 0x8000) {
            return Err(EmuError::Address { addr: next });
        }
        self.contents[addr as usize] = (data % 0x100) as u8;
        self.contents[next as usize] = (data / 0x100) as u8;
        Ok(())
    }
}

/// Advance the stand-in scanline counter at 0xFF44: it counts up to 154 and
/// then starts over, a simplified stub for a host driver to call between
/// steps, not a faithful peripheral model.
pub fn fake_screen(memory: &mut Memory)
    requires
        old(memory).wf(),
    ensures
        final(memory).wf(),
        final(memory).rom@ == old(memory).rom@,
        final(memory).contents@ == old(memory).contents@.update(
            0xFF44,
            if old(memory).contents@[0xFF44] < 154 {
                (old(memory).contents@[0xFF44] + 1) as u8
            } else {
                0u8
            },
        ),
{
    if memory.contents[0xFF44] < 154 {
        memory.contents[0xFF44] = memory.contents[0xFF44] + 1;
    } else {
        memory.contents[0xFF44] = 0;
    }
}

} // verus!
