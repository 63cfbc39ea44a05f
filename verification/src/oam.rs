//! Object attribute memory: 40 fixed-size sprite entries of four bytes
//! each (y position, x position, tile index, attribute flags), addressed
//! through the bus window FE00 to FE9F with a stride of four.

use vstd::prelude::*;

verus! {

/// One sprite entry: position, tile index and attribute byte.
#[derive(Clone, Copy)]
pub struct OamEntry {
    pub y: u8,
    pub x: u8,
    pub t: u8,
    pub a: u8,
}

/// The four flag bits of a sprite's attribute byte.
pub enum OamAtribute {
    Priority,
    YFlip,
    XFlip,
    Pallet,
}

/// The byte of an entry selected by an offset below four.
pub open spec fn spec_entry_read(e: OamEntry, n: int) -> u8 {
    if n == 0 {
        e.y
    } else if n == 1 {
        e.x
    } else if n == 2 {
        e.t
    } else {
        e.a
    }
}

/// The entry with the byte at offset `n` replaced.
pub open spec fn spec_entry_write(e: OamEntry, n: int, data: u8) -> OamEntry {
    if n == 0 {
        OamEntry { y: data, ..e }
    } else if n == 1 {
        OamEntry { x: data, ..e }
    } else if n == 2 {
        OamEntry { t: data, ..e }
    } else {
        OamEntry { a: data, ..e }
    }
}

impl OamEntry {
    /// Store a byte of the entry by its offset within the entry.
    pub fn write(&mut self, index: usize, data: u8) -> (ok: bool)
        requires
            index < 4,
        ensures
            ok,
            *final(self) == spec_entry_write(*old(self), index as int, data),
    {
        match index {
            0 => self.y = data,
            1 => self.x = data,
            2 => self.t = data,
            _ => self.a = data,
        }
        true
    }

    /// Read a byte of the entry by its offset within the entry.
    pub fn read(&self, index: usize) -> (r: u8)
        requires
            index < 4,
        ensures
            r == spec_entry_read(*self, index as int),
    {
        match index {
            0 => self.y,
            1 => self.x,
            2 => self.t,
            _ => self.a,
        }
    }

    /// Test one of the four flag bits of the attribute byte.
    pub fn read_artibute(&self, atribute: OamAtribute) -> (r: bool)
        ensures
            r == (match atribute {
                OamAtribute::Priority => self.a & (1u8 << 7) > 0,
                OamAtribute::YFlip => self.a & (1u8 << 6) > 0,
                OamAtribute::XFlip => self.a & (1u8 << 5) > 0,
                OamAtribute::Pallet => self.a & (1u8 << 4) > 0,
            }),
    {
        match atribute {
            OamAtribute::Priority => 0 < (self.a & (1u8 << 7)),
            OamAtribute::YFlip => 0 < (self.a & (1u8 << 6)),
            OamAtribute::XFlip => 0 < (self.a & (1u8 << 5)),
            OamAtribute::Pallet => 0 < (self.a & (1u8 << 4)),
        }
    }
}

/// The sprite table: exactly forty entries.
pub struct Oam {
    pub data: Vec<OamEntry>,
}

/// Well-formed sprite table: the backing vector holds all forty entries.
pub open spec fn spec_oam_wf(o: Oam) -> bool {
    o.data@.len() == 40
}

/// Entry index and byte offset addressed by a bus address: bits 2 to 7
/// pick the entry, the low two bits pick the byte.
pub open spec fn spec_entry_num(addr: u16) -> (int, int) {
    ((addr as int / 4) % 64, addr as int % 4)
}

/// The byte the sprite table hands back for a bus address: `None` when
/// the address falls past the fortieth entry.
pub open spec fn spec_oam_read(o: Oam, addr: u16) -> Option<u8> {
    let (e, n) = spec_entry_num(addr);
    if e < 40 {
        Some(spec_entry_read(o.data@[e], n))
    } else {
        None
    }
}

/// The entry sequence after a bus write: unchanged, and the write
/// reported dropped, when the address falls past the fortieth entry.
pub open spec fn spec_oam_write(o: Oam, addr: u16, data: u8) -> Seq<OamEntry> {
    let (e, n) = spec_entry_num(addr);
    if e < 40 {
        o.data@.update(e, spec_entry_write(o.data@[e], n, data))
    } else {
        o.data@
    }
}

impl Oam {
    /// Fresh table: forty zeroed entries.
    pub fn new() -> (o: Oam)
        ensures
            spec_oam_wf(o),
            forall|i: int|
                0 <= i < 40 ==> o.data@[i] == (OamEntry { y: 0, x: 0, t: 0, a: 0 }),
    {
        Oam { data: vec![OamEntry { y: 0, x: 0, t: 0, a: 0 }; 40] }
    }

    /// Split a bus address into entry index and byte offset.
    pub fn entry_num(addr: u16) -> (r: (usize, usize))
        ensures
            r.0 as int == spec_entry_num(addr).0,
            r.1 as int == spec_entry_num(addr).1,
            r.0 < 64,
            r.1 < 4,
    {
        (((addr as usize) / 4) % 64, (addr as usize) % 4)
    }

    /// The byte at a bus address, or `None` past the fortieth entry.
    pub fn read(&self, addr: u16) -> (r: Option<u8>)
        requires
            spec_oam_wf(*self),
        ensures
            r == spec_oam_read(*self, addr),
    {
        let (e, n) = Oam::entry_num(addr);
        if e < 40 {
            Some(self.data[e].read(n))
        } else {
            None
        }
    }

    /// Store a byte at a bus address; a write past the fortieth entry is
    /// dropped and reported as such.
    pub fn write(&mut self, addr: u16, data: u8) -> (ok: bool)
        requires
            spec_oam_wf(*old(self)),
        ensures
            spec_oam_wf(*final(self)),
            ok == (spec_entry_num(addr).0 < 40),
            final(self).data@ == spec_oam_write(*old(self), addr, data),
    {
        let (e, n) = Oam::entry_num(addr);
        if e < 40 {
            let mut entry = self.data[e];
            entry.write(n, data);
            self.data[e] = entry;
            true
        } else {
            false
        }
    }
}

} // verus!
