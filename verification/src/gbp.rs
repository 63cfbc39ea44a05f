//! The monochrome palettes, located at bus addresses FF47 to FF49.
//! Each palette byte packs four colours as 2-bit values, colour 0 in the
//! low bits: 0 white, 1 light gray, 2 dark gray, 3 black. Object palettes
//! treat colour 0 as transparent (the compositor never applies it).

use vstd::prelude::*;

verus! {

/// Which of the three palettes a lookup goes through.
pub enum Pallet {
    BGP,
    OBP0,
    OBP1,
}

/// The three palette registers: background, first object, second object.
pub struct GBP {
    pub bgp: u8,
    pub obp0: u8,
    pub obp1: u8,
}

/// The register byte that the palette selector names.
pub open spec fn spec_pallet_byte(g: GBP, p: Pallet) -> u8 {
    match p {
        Pallet::BGP => g.bgp,
        Pallet::OBP0 => g.obp0,
        Pallet::OBP1 => g.obp1,
    }
}

/// Grayscale intensity for a 2-bit colour under a palette byte: the
/// colour selects a 2-bit field of the byte, and the field value maps to
/// 255, 170, 85 or 0 (white to black).
pub open spec fn spec_shade(pb: u8, color: u8) -> u8 {
    let field = (pb as int / (if color == 0 {
        1int
    } else if color == 1 {
        4
    } else if color == 2 {
        16
    } else {
        64
    })) % 4;
    if field == 0 {
        255
    } else if field == 1 {
        170
    } else if field == 2 {
        85
    } else {
        0
    }
}

/// The byte a palette-register read returns; `None` off the three
/// palette addresses.
pub open spec fn spec_gbp_read(g: GBP, addr: u16) -> Option<u8> {
    if addr == 0xFF47 {
        Some(g.bgp)
    } else if addr == 0xFF48 {
        Some(g.obp0)
    } else if addr == 0xFF49 {
        Some(g.obp1)
    } else {
        None
    }
}

/// The palettes after a register write, and whether the address was a
/// palette register.
pub open spec fn spec_gbp_write(g: GBP, addr: u16, data: u8) -> (GBP, bool) {
    if addr == 0xFF47 {
        (GBP { bgp: data, ..g }, true)
    } else if addr == 0xFF48 {
        (GBP { obp0: data, ..g }, true)
    } else if addr == 0xFF49 {
        (GBP { obp1: data, ..g }, true)
    } else {
        (g, false)
    }
}

impl GBP {
    /// All three palettes zeroed (every colour mapping to white).
    pub fn new() -> (g: GBP)
        ensures
            g == (GBP { bgp: 0, obp0: 0, obp1: 0 }),
    {
        GBP { bgp: 0, obp0: 0, obp1: 0 }
    }

    /// Read of a palette register by bus address; any other address is
    /// not a palette register.
    pub fn read(&self, addr: u16) -> (r: Option<u8>)
        ensures
            r == spec_gbp_read(*self, addr),
    {
        match addr {
            0xFF47 => Some(self.bgp),
            0xFF48 => Some(self.obp0),
            0xFF49 => Some(self.obp1),
            _ => None,
        }
    }

    /// Write of a palette register by bus address; returns whether the
    /// address was a palette register.
    pub fn write(&mut self, addr: u16, data: u8) -> (ok: bool)
        ensures
            (*final(self), ok) == spec_gbp_write(*old(self), addr, data),
    {
        match addr {
            0xFF47 => {
                self.bgp = data;
                true
            },
            0xFF48 => {
                self.obp0 = data;
                true
            },
            0xFF49 => {
                self.obp1 = data;
                true
            },
            _ => false,
        }
    }

    /// The grayscale intensity of `color` under palette `p`.
    pub fn shade(&self, p: Pallet, color: u8) -> (s: u8)
        requires
            color < 4,
        ensures
            s == spec_shade(spec_pallet_byte(*self, p), color),
    {
        let pb = match p {
            Pallet::BGP => self.bgp,
            Pallet::OBP0 => self.obp0,
            Pallet::OBP1 => self.obp1,
        };
        let divisor: u8 = if color == 0 {
            1
        } else if color == 1 {
            4
        } else if color == 2 {
            16
        } else {
            64
        };
        let field = (pb / divisor) % 4;
        if field == 0 {
            255
        } else if field == 1 {
            170
        } else if field == 2 {
            85
        } else {
            0
        }
    }

    /// Write the three bytes of one pixel — the shade of `color` under
    /// palette `p`, repeated for each channel — to the front of `buffer`.
    pub fn apply(&self, p: Pallet, color: u8, buffer: &mut Vec<u8>)
        requires
            color < 4,
            old(buffer).len() >= 3,
        ensures
            final(buffer)@ == old(buffer)@.update(0, spec_shade(spec_pallet_byte(*self, p), color))
                .update(1, spec_shade(spec_pallet_byte(*self, p), color)).update(
                2,
                spec_shade(spec_pallet_byte(*self, p), color),
            ),
    {
        let s = self.shade(p, color);
        buffer[0] = s;
        buffer[1] = s;
        buffer[2] = s;
    }
}

} // verus!
