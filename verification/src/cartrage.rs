//! Cartridge mapper: owns the ROM and RAM bytes of a cartridge image and
//! implements bank-switching. The plain-ROM variant drops every write;
//! the MBC1 variant drives a RAM-enable gate, a ROM bank register, a RAM
//! bank register and a mode latch off writes to the four quarters of the
//! ROM window.

use vstd::prelude::*;

verus! {

/// The mapper chip a cartridge header selects.
#[derive(Clone, Copy, PartialEq, Eq, Structural, Debug)]
pub enum CMtype {
    ROM,
    MBC1,
    MBC2,
    MBC3,
}

/// Why a cartridge image was rejected at load.
#[derive(Clone, Copy, PartialEq, Eq, Structural, Debug)]
pub enum CartrageError {
    /// The image ends before the header fields at 0x147 and 0x148.
    HeaderTooShort,
    /// The mapper-type byte at 0x147 names no supported chip.
    UnknownMapper(u8),
    /// The RAM-size code at 0x148 names no supported size.
    UnknownRamSize(u8),
}

/// Cartridge state: the selected chip, the current ROM and RAM banks, the
/// RAM-enable gate, the banking-mode latch, and the backing byte arrays.
#[derive(Debug)]
pub struct CartrageMapper {
    pub cm_chip: CMtype,
    pub rom_page: u8,
    pub ram_page: u8,
    pub ram_enable: bool,
    pub mbc_mode: u8,
    pub rom: Vec<u8>,
    pub ram: Vec<u8>,
}

/// Well-formed cartridge: the mode latch holds a single bit.
pub open spec fn spec_cart_wf(c: CartrageMapper) -> bool {
    c.mbc_mode < 2
}

/// The backing-RAM size a RAM-size code selects, if it is a known code.
pub open spec fn spec_ram_size(r: u8) -> Option<usize> {
    if r == 0 {
        Some(0usize)
    } else if r == 1 {
        Some(0x0800usize)
    } else if r == 2 {
        Some(0x2000usize)
    } else if r == 3 {
        Some(0x8000usize)
    } else {
        None
    }
}

/// The chip and backing-RAM size a header's type and RAM-size bytes
/// select; an error names the offending byte.
pub open spec fn spec_cm_type(t: u8, r: u8) -> Result<(CMtype, Option<usize>), CartrageError> {
    if t == 0x00 {
        Ok((CMtype::ROM, None))
    } else if t == 0x01 {
        Ok((CMtype::MBC1, None))
    } else if t == 0x02 || t == 0x03 {
        match spec_ram_size(r) {
            Some(s) => Ok((CMtype::MBC1, Some(s))),
            None => Err(CartrageError::UnknownRamSize(r)),
        }
    } else if t == 0x05 || t == 0x06 {
        Ok((CMtype::MBC2, None))
    } else if t == 0x08 || t == 0x09 {
        Ok((CMtype::ROM, None))
    } else if 0x10 <= t && t <= 0x13 {
        Ok((CMtype::MBC3, None))
    } else {
        Err(CartrageError::UnknownMapper(t))
    }
}

/// The byte a cartridge read returns: below 0x4000 the fixed bank zero,
/// from 0x4000 to 0x7FFF the selected bank; `None` when the address lies
/// outside the ROM window or past the end of the image.
pub open spec fn spec_cart_read(c: CartrageMapper, addr: u16) -> Option<u8> {
    if addr < 0x4000 {
        if addr < c.rom@.len() {
            Some(c.rom@[addr as int])
        } else {
            None
        }
    } else if addr < 0x8000 {
        let idx = addr - 0x4000 + 0x4000 * (c.rom_page as int);
        if idx < c.rom@.len() {
            Some(c.rom@[idx])
        } else {
            None
        }
    } else {
        None
    }
}

/// The ROM bank after a write to the bank-select window: the low five
/// bits are replaced by the written value, and a resulting low field of
/// zero is coerced up to one (bank zero is not selectable there).
pub open spec fn spec_rom_page_low(page: u8, data: u8) -> u8 {
    let merged = ((page as int / 32) * 32 + (data as int % 32)) as u8;
    if merged as int % 32 == 0 {
        (merged + 1) as u8
    } else {
        merged
    }
}

/// The ROM bank after a write to the upper-bits window in ROM-banking
/// mode: bits five and six are replaced; a low field of zero is coerced
/// up to one.
pub open spec fn spec_rom_page_high(page: u8, data: u8) -> u8 {
    let merged = ((data as int % 4) * 32 + (page as int % 32)) as u8;
    if merged as int % 32 == 0 {
        (merged + 1) as u8
    } else {
        merged
    }
}

/// The cartridge after a write into the ROM window, and whether the
/// write was accepted. Plain ROM accepts and ignores it; MBC1 drives the
/// RAM gate, the bank registers and the mode latch; the unimplemented
/// chips drop the write.
pub open spec fn spec_cart_write(c: CartrageMapper, addr: u16, data: u8) -> (CartrageMapper, bool) {
    match c.cm_chip {
        CMtype::ROM => (c, true),
        CMtype::MBC1 => {
            if addr < 0x2000 {
                (CartrageMapper { ram_enable: data as int % 16 == 0x0A, ..c }, true)
            } else if addr < 0x4000 {
                (CartrageMapper { rom_page: spec_rom_page_low(c.rom_page, data), ..c }, true)
            } else if addr < 0x6000 {
                if c.mbc_mode == 0 {
                    (CartrageMapper { rom_page: spec_rom_page_high(c.rom_page, data), ..c }, true)
                } else {
                    (CartrageMapper { ram_page: (data % 4) as u8, ..c }, true)
                }
            } else if addr < 0x8000 {
                if data as int % 2 == 0 {
                    (CartrageMapper { mbc_mode: 0, ram_page: 0, ..c }, true)
                } else {
                    (CartrageMapper { mbc_mode: 1, rom_page: (c.rom_page % 32) as u8, ..c }, true)
                }
            } else {
                (c, false)
            }
        },
        CMtype::MBC2 => (c, false),
        CMtype::MBC3 => (c, false),
    }
}

/// The index into the backing RAM that a RAM-window address selects under
/// the current RAM bank.
pub open spec fn spec_ram_index(c: CartrageMapper, addr: u16) -> int {
    addr - 0xA000 + (c.ram_page as int) * 0x2000
}

/// How a cartridge-RAM write relates the mapper before and after: inside
/// the window and the backing RAM the addressed byte is replaced and the
/// write accepted; anywhere else the mapper is unchanged and the write
/// dropped.
pub open spec fn spec_cart_write_ram_rel(
    pre: CartrageMapper,
    post: CartrageMapper,
    addr: u16,
    data: u8,
    ok: bool,
) -> bool {
    if addr >= 0xA000 && spec_ram_index(pre, addr) < pre.ram@.len() {
        &&& ok
        &&& post == (CartrageMapper { ram: post.ram, ..pre })
        &&& post.ram@ == pre.ram@.update(spec_ram_index(pre, addr), data)
    } else {
        !ok && post == pre
    }
}

/// The byte a cartridge-RAM read returns: `None` outside the RAM window
/// or past the backing RAM.
pub open spec fn spec_cart_read_ram(c: CartrageMapper, addr: u16) -> Option<u8> {
    if addr < 0xA000 {
        None
    } else if spec_ram_index(c, addr) < c.ram@.len() {
        Some(c.ram@[spec_ram_index(c, addr)])
    } else {
        None
    }
}

impl CartrageMapper {
    /// The backing-RAM size a RAM-size code selects, if known.
    pub fn ram_size(r: &u8) -> (s: Option<usize>)
        ensures
            s == spec_ram_size(*r),
    {
        match *r {
            0 => Some(0),
            1 => Some(0x0800),
            2 => Some(0x2000),
            3 => Some(0x8000),
            _ => None,
        }
    }

    /// The chip and backing-RAM size the header bytes select, or which
    /// byte made the header unreadable.
    pub fn cm_type(t: &u8, r: &u8) -> (res: Result<(CMtype, Option<usize>), CartrageError>)
        ensures
            res == spec_cm_type(*t, *r),
    {
        let tv = *t;
        if tv == 0x00 {
            Ok((CMtype::ROM, None))
        } else if tv == 0x01 {
            Ok((CMtype::MBC1, None))
        } else if tv == 0x02 || tv == 0x03 {
            match Self::ram_size(r) {
                Some(s) => Ok((CMtype::MBC1, Some(s))),
                None => Err(CartrageError::UnknownRamSize(*r)),
            }
        } else if tv == 0x05 || tv == 0x06 {
            Ok((CMtype::MBC2, None))
        } else if tv == 0x08 || tv == 0x09 {
            Ok((CMtype::ROM, None))
        } else if 0x10 <= tv && tv <= 0x13 {
            Ok((CMtype::MBC3, None))
        } else {
            Err(CartrageError::UnknownMapper(tv))
        }
    }

    /// Build a mapper from a cartridge image. The header's type byte
    /// selects the chip and its RAM-size code sizes the backing RAM,
    /// zero-filled; the ROM bank starts at one. An image too short for
    /// the header, or a header naming an unknown chip or RAM size, is
    /// rejected with the reason.
    pub fn new(rom: Vec<u8>) -> (res: Result<CartrageMapper, CartrageError>)
        ensures
            rom@.len() < 0x149 ==> res == Err::<CartrageMapper, _>(CartrageError::HeaderTooShort),
            rom@.len() >= 0x149 ==> (match spec_cm_type(rom@[0x147], rom@[0x148]) {
                Err(e) => res == Err::<CartrageMapper, _>(e),
                Ok((chip, ram_opt)) => match res {
                    Err(_) => false,
                    Ok(c) => {
                        &&& c.cm_chip == chip
                        &&& c.rom@ == rom@
                        &&& c.rom_page == 1
                        &&& c.ram_page == 0
                        &&& c.mbc_mode == 0
                        &&& !c.ram_enable
                        &&& c.ram@.len() == (match ram_opt {
                            Some(s) => s as int,
                            None => 0,
                        })
                        &&& forall|i: int| 0 <= i < c.ram@.len() ==> c.ram@[i] == 0u8
                        &&& spec_cart_wf(c)
                    },
                },
            }),
    {
        if rom.len() < 0x149 {
            return Err(CartrageError::HeaderTooShort);
        }
        let t = rom[0x147];
        let r = rom[0x148];
        match Self::cm_type(&t, &r) {
            Err(e) => Err(e),
            Ok((chip, ram_opt)) => {
                let ram_len = match ram_opt {
                    Some(s) => s,
                    None => 0,
                };
                Ok(
                    CartrageMapper {
                        cm_chip: chip,
                        rom_page: 1,
                        ram_page: 0,
                        ram_enable: false,
                        mbc_mode: 0,
                        rom,
                        ram: vec![0u8; ram_len],
                    },
                )
            },
        }
    }

    /// An inert mapper holding no bytes: every read misses (the bus then
    /// substitutes its fallback value) and every write is dropped.
    pub fn none() -> (c: CartrageMapper)
        ensures
            c.rom@.len() == 0,
            c.ram@.len() == 0,
            c.cm_chip == CMtype::ROM,
            spec_cart_wf(c),
    {
        CartrageMapper {
            cm_chip: CMtype::ROM,
            rom_page: 1,
            ram_page: 0,
            ram_enable: false,
            mbc_mode: 0,
            rom: Vec::new(),
            ram: Vec::new(),
        }
    }

    /// The byte at a ROM-window address under the current bank, or
    /// `None` outside the window or past the end of the image.
    pub fn read(&self, addr: u16) -> (r: Option<u8>)
        ensures
            r == spec_cart_read(*self, addr),
    {
        if addr < 0x4000 {
            if (addr as usize) < self.rom.len() {
                Some(self.rom[addr as usize])
            } else {
                None
            }
        } else if addr < 0x8000 {
            let idx: usize = (addr as usize) - 0x4000 + 0x4000 * (self.rom_page as usize);
            if idx < self.rom.len() {
                Some(self.rom[idx])
            } else {
                None
            }
        } else {
            None
        }
    }

    /// Drive the banking registers with a write into the ROM window.
    /// Returns whether the chip accepted the write; the unimplemented
    /// chips and addresses outside the window drop it.
    pub fn write(&mut self, addr: u16, data: u8) -> (ok: bool)
        requires
            spec_cart_wf(*old(self)),
        ensures
            spec_cart_wf(*final(self)),
            (*final(self), ok) == spec_cart_write(*old(self), addr, data),
    {
        match self.cm_chip {
            CMtype::ROM => true,
            CMtype::MBC1 => {
                if addr < 0x2000 {
                    self.ram_enable = data % 16 == 0x0A;
                    true
                } else if addr < 0x4000 {
                    let merged = (self.rom_page / 32) * 32 + data % 32;
                    self.rom_page = if merged % 32 == 0 {
                        merged + 1
                    } else {
                        merged
                    };
                    true
                } else if addr < 0x6000 {
                    if self.mbc_mode == 0 {
                        let merged = (data % 4) * 32 + self.rom_page % 32;
                        self.rom_page = if merged % 32 == 0 {
                            merged + 1
                        } else {
                            merged
                        };
                        true
                    } else {
                        self.ram_page = data % 4;
                        true
                    }
                } else if addr < 0x8000 {
                    if data % 2 == 0 {
                        self.mbc_mode = 0;
                        self.ram_page = 0;
                        true
                    } else {
                        self.mbc_mode = 1;
                        self.rom_page = self.rom_page % 32;
                        true
                    }
                } else {
                    false
                }
            },
            CMtype::MBC2 => false,
            CMtype::MBC3 => false,
        }
    }

    /// The byte at a cartridge-RAM address under the current RAM bank, or
    /// `None` outside the RAM window or past the backing RAM.
    pub fn read_ram(&self, addr: u16) -> (r: Option<u8>)
        ensures
            r == spec_cart_read_ram(*self, addr),
    {
        if addr < 0xA000 {
            return None;
        }
        let idx: usize = (addr as usize) - 0xA000 + (self.ram_page as usize) * 0x2000;
        if idx < self.ram.len() {
            Some(self.ram[idx])
        } else {
            None
        }
    }

    /// Store a byte at a cartridge-RAM address under the current RAM
    /// bank; a write outside the window or past the backing RAM is
    /// dropped and reported as such.
    pub fn write_ram(&mut self, addr: u16, data: u8) -> (ok: bool)
        ensures
            spec_cart_write_ram_rel(*old(self), *final(self), addr, data, ok),
    {
        if addr < 0xA000 {
            return false;
        }
        let idx: usize = (addr as usize) - 0xA000 + (self.ram_page as usize) * 0x2000;
        if idx < self.ram.len() {
            self.ram[idx] = data;
            true
        } else {
            false
        }
    }
}

} // verus!
