//! The memory-mapped address bus: cartridge, video and work RAM, the
//! sprite table, the boot-ROM overlay, the joypad register, the timer,
//! the PPU and palette registers, high RAM and the interrupt registers,
//! composed into one flat 16-bit address space. A read that hits no
//! device yields the defined fallback byte 0xFF; a write that hits no
//! device is dropped and reported as such.

use vstd::prelude::*;

use crate::cartrage::{
    spec_cart_read, spec_cart_read_ram, spec_cart_wf, spec_cart_write, spec_cart_write_ram_rel,
    CartrageMapper,
};
use crate::gbp::{spec_gbp_read, spec_gbp_write, GBP};
use crate::oam::{spec_oam_read, spec_oam_wf, spec_oam_write, Oam, OamEntry};
use crate::ppu::{
    spec_ppu_read, spec_ppu_wf, spec_ppu_write, spec_time_passes_rel, PpuWrite, PPU,
};
use crate::timer::{spec_tick_n, spec_timer_read, spec_timer_write, Timer};

verus! {

/// The eight button and direction lines, true while held.
#[derive(Clone, Copy)]
pub struct Buttons {
    pub a: bool,
    pub b: bool,
    pub start: bool,
    pub select: bool,
    pub up: bool,
    pub down: bool,
    pub right: bool,
    pub left: bool,
}

/// The active-low button nibble of the joypad register: a held button
/// pulls its line to zero.
pub open spec fn spec_buttons_nibble(b: Buttons) -> u8 {
    (15 - ((if b.start {
        8int
    } else {
        0int
    }) + (if b.select {
        4int
    } else {
        0int
    }) + (if b.b {
        2int
    } else {
        0int
    }) + (if b.a {
        1int
    } else {
        0int
    }))) as u8
}

/// The active-low direction nibble of the joypad register.
pub open spec fn spec_dpad_nibble(b: Buttons) -> u8 {
    (15 - ((if b.down {
        8int
    } else {
        0int
    }) + (if b.up {
        4int
    } else {
        0int
    }) + (if b.left {
        2int
    } else {
        0int
    }) + (if b.right {
        1int
    } else {
        0int
    }))) as u8
}

impl Buttons {
    /// No line held.
    pub fn none() -> (b: Buttons)
        ensures
            !b.a && !b.b && !b.start && !b.select && !b.up && !b.down && !b.right && !b.left,
    {
        Buttons {
            a: false,
            b: false,
            start: false,
            select: false,
            up: false,
            down: false,
            right: false,
            left: false,
        }
    }

    /// The active-low button nibble.
    pub fn buttons(&self) -> (r: u8)
        ensures
            r == spec_buttons_nibble(*self),
    {
        let mut res: u8 = 0;
        if self.start {
            res = res + 8;
        }
        if self.select {
            res = res + 4;
        }
        if self.b {
            res = res + 2;
        }
        if self.a {
            res = res + 1;
        }
        15 - res
    }

    /// The active-low direction nibble.
    pub fn dpad(&self) -> (r: u8)
        ensures
            r == spec_dpad_nibble(*self),
    {
        let mut res: u8 = 0;
        if self.down {
            res = res + 8;
        }
        if self.up {
            res = res + 4;
        }
        if self.left {
            res = res + 2;
        }
        if self.right {
            res = res + 1;
        }
        15 - res
    }
}

/// The boot-ROM overlay image.
pub struct BootRom {
    pub rom: Vec<u8>,
}

/// The byte the overlay holds at an address, if the image reaches it.
pub open spec fn spec_boot_read(b: BootRom, addr: u16) -> Option<u8> {
    if addr < b.rom@.len() {
        Some(b.rom@[addr as int])
    } else {
        None
    }
}

impl BootRom {
    /// Wrap a boot image.
    pub fn new(boot: Vec<u8>) -> (b: BootRom)
        ensures
            b.rom@ == boot@,
    {
        BootRom { rom: boot }
    }

    /// The byte at an overlay address, if the image reaches it.
    pub fn read(&self, addr: u16) -> (r: Option<u8>)
        ensures
            r == spec_boot_read(*self, addr),
    {
        if (addr as usize) < self.rom.len() {
            Some(self.rom[addr as usize])
        } else {
            None
        }
    }

    /// The overlay is read-only: every write is dropped.
    pub fn write(&mut self, addr: u16, data: u8) -> (ok: bool)
        ensures
            !ok,
            *final(self) == *old(self),
    {
        false
    }
}

/// The inert cartridge slot: every read misses and every write is
/// dropped, so the bus serves its fallback byte for the whole window.
pub struct NoneCartrageMapper {}

impl NoneCartrageMapper {
    /// Every read misses.
    pub fn read(&self, addr: u16) -> (r: Option<u8>)
        ensures
            r == None::<u8>,
    {
        None
    }

    /// Every write is dropped.
    pub fn write(&mut self, addr: u16, data: u8) -> (ok: bool)
        ensures
            !ok,
    {
        false
    }
}

/// Outcome of a bus write: stored, dropped for want of a device, or
/// refused as the illegal display-disable transition.
#[derive(Clone, Copy, PartialEq, Eq, Structural, Debug)]
pub enum BusWrite {
    Accepted,
    Dropped,
    IllegalDisplayDisable,
}

/// The full machine behind the bus.
pub struct GbMapper {
    pub cartrage: CartrageMapper,
    pub boot_rom: BootRom,
    pub vram: Vec<u8>,
    pub wram: Vec<u8>,
    pub boot: bool,
    pub oam: Oam,
    pub buttons: Buttons,
    pub joypad: u8,
    pub timer: Timer,
    pub hram: Vec<u8>,
    pub interupt_enable: u8,
    pub interupt_flag: u8,
    pub ppu: PPU,
    pub gbp: GBP,
}

/// Well-formed machine: each RAM region at its wired size and each
/// subsystem inside its own invariant.
pub open spec fn spec_gb_wf(m: GbMapper) -> bool {
    &&& m.vram@.len() == 0x2000
    &&& m.wram@.len() == 0x2000
    &&& m.hram@.len() == 127
    &&& spec_oam_wf(m.oam)
    &&& spec_cart_wf(m.cartrage)
    &&& spec_ppu_wf(m.ppu)
}

/// The byte a bus read returns, routed by the address table: boot
/// overlay (until disabled) then cartridge ROM, video RAM, cartridge
/// RAM, work RAM with its mirror, the sprite table, the joypad, timer,
/// interrupt, PPU and palette registers, the audio stub, the overlay
/// latch, high RAM and the interrupt-enable register. `None` where no
/// device answers.
#[verifier::opaque]
pub open spec fn spec_bus_read(m: GbMapper, addr: u16) -> Option<u8> {
    if addr <= 0x00FF && !m.boot {
        spec_boot_read(m.boot_rom, addr)
    } else if addr <= 0x7FFF {
        spec_cart_read(m.cartrage, addr)
    } else if addr <= 0x9FFF {
        Some(m.vram@[addr - 0x8000])
    } else if addr <= 0xBFFF {
        spec_cart_read_ram(m.cartrage, addr)
    } else if addr <= 0xDFFF {
        Some(m.wram@[addr - 0xC000])
    } else if addr <= 0xFDFF {
        Some(m.wram@[addr - 0xE000])
    } else if addr <= 0xFE9F {
        spec_oam_read(m.oam, addr)
    } else if addr == 0xFF00 {
        Some(m.joypad)
    } else if 0xFF04 <= addr && addr <= 0xFF07 {
        spec_timer_read(m.timer, addr)
    } else if addr == 0xFF0F {
        Some(m.interupt_flag)
    } else if 0xFF10 <= addr && addr <= 0xFF3F {
        Some(0xFFu8)
    } else if 0xFF40 <= addr && addr <= 0xFF45 {
        spec_ppu_read(m.ppu, addr)
    } else if 0xFF47 <= addr && addr <= 0xFF49 {
        spec_gbp_read(m.gbp, addr)
    } else if addr == 0xFF50 {
        Some(if m.boot {
            0xFEu8
        } else {
            0xFFu8
        })
    } else if 0xFF80 <= addr && addr <= 0xFFFE {
        Some(m.hram@[addr - 0xFF80])
    } else if addr == 0xFFFF {
        Some(m.interupt_enable)
    } else {
        None
    }
}

/// The byte a load observes: the routed read, or the fallback 0xFF where
/// no device answers.
pub open spec fn spec_load_8(m: GbMapper, addr: u16) -> u8 {
    match spec_bus_read(m, addr) {
        Some(d) => d,
        None => 0xFF,
    }
}

/// The word a 16-bit load observes: little-endian, the high byte from
/// the following address, wrapping at the top of the address space.
pub open spec fn spec_load_16(m: GbMapper, addr: u16) -> u16 {
    crate::decode::spec_word(
        spec_load_8(m, ((addr as int + 1) % 0x10000) as u16),
        spec_load_8(m, addr),
    )
}

/// The joypad register recomputed after a store of `data`, and whether
/// an input line newly went active: the two select bits come from the
/// data and each selected nibble is merged in active-low; a line high
/// before and low after raises the joypad interrupt.
pub open spec fn spec_joypad_merge(m: GbMapper, data: u8) -> (u8, bool) {
    let j0 = data & 0x30;
    let j1 = if j0 & 0x10 == 0 {
        j0 | spec_dpad_nibble(m.buttons)
    } else {
        j0
    };
    let j2 = if j1 & 0x20 == 0 {
        j1 | spec_buttons_nibble(m.buttons)
    } else {
        j1
    };
    (j2, m.joypad & !j2 & 0x0F != 0)
}

/// The sprite table after the OAM DMA triggered by storing `data` at
/// FF46: entry `i` is built from the four bytes the bus reads at
/// `(data << 8) + 4 * i` onward, with the usual read fallback.
pub open spec fn spec_dma_result(m: GbMapper, data: u8) -> Seq<OamEntry> {
    Seq::new(
        40,
        |i: int|
            OamEntry {
                y: spec_load_8(m, (data as int * 256 + 4 * i) as u16),
                x: spec_load_8(m, (data as int * 256 + 4 * i + 1) as u16),
                t: spec_load_8(m, (data as int * 256 + 4 * i + 2) as u16),
                a: spec_load_8(m, (data as int * 256 + 4 * i + 3) as u16),
            },
    )
}

/// How a bus write relates the machine before and after, with its
/// outcome, routed by the same address table as reads (the boot overlay
/// is read-only and takes no writes).
#[verifier::opaque]
pub open spec fn spec_bus_write_rel(
    pre: GbMapper,
    post: GbMapper,
    addr: u16,
    data: u8,
    r: BusWrite,
) -> bool {
    if addr <= 0x7FFF {
        &&& post == (GbMapper { cartrage: post.cartrage, ..pre })
        &&& (post.cartrage, r == BusWrite::Accepted) == spec_cart_write(pre.cartrage, addr, data)
        &&& (r == BusWrite::Accepted || r == BusWrite::Dropped)
    } else if addr <= 0x9FFF {
        &&& post == (GbMapper { vram: post.vram, ..pre })
        &&& post.vram@ == pre.vram@.update(addr - 0x8000, data)
        &&& r == BusWrite::Accepted
    } else if addr <= 0xBFFF {
        &&& post == (GbMapper { cartrage: post.cartrage, ..pre })
        &&& spec_cart_write_ram_rel(pre.cartrage, post.cartrage, addr, data, r == BusWrite::Accepted)
        &&& (r == BusWrite::Accepted || r == BusWrite::Dropped)
    } else if addr <= 0xDFFF {
        &&& post == (GbMapper { wram: post.wram, ..pre })
        &&& post.wram@ == pre.wram@.update(addr - 0xC000, data)
        &&& r == BusWrite::Accepted
    } else if addr <= 0xFDFF {
        &&& post == (GbMapper { wram: post.wram, ..pre })
        &&& post.wram@ == pre.wram@.update(addr - 0xE000, data)
        &&& r == BusWrite::Accepted
    } else if addr <= 0xFE9F {
        &&& post == (GbMapper { oam: post.oam, ..pre })
        &&& post.oam.data@ == spec_oam_write(pre.oam, addr, data)
        &&& r == (if (addr as int / 4) % 64 < 40 {
            BusWrite::Accepted
        } else {
            BusWrite::Dropped
        })
    } else if addr == 0xFF00 {
        let (j, raise) = spec_joypad_merge(pre, data);
        &&& post == (GbMapper {
            joypad: j,
            interupt_flag: if raise {
                pre.interupt_flag | 0x10
            } else {
                pre.interupt_flag
            },
            ..pre
        })
        &&& r == BusWrite::Accepted
    } else if 0xFF01 <= addr && addr <= 0xFF02 {
        post == pre && r == BusWrite::Accepted
    } else if 0xFF04 <= addr && addr <= 0xFF07 {
        &&& post == (GbMapper { timer: post.timer, ..pre })
        &&& (post.timer, true) == spec_timer_write(pre.timer, addr, data)
        &&& r == BusWrite::Accepted
    } else if addr == 0xFF0F {
        post == (GbMapper { interupt_flag: data, ..pre }) && r == BusWrite::Accepted
    } else if 0xFF10 <= addr && addr <= 0xFF3F {
        post == pre && r == BusWrite::Accepted
    } else if 0xFF40 <= addr && addr <= 0xFF45 {
        let (p2, pr) = spec_ppu_write(pre.ppu, addr, data);
        &&& post == (GbMapper { ppu: p2, ..pre })
        &&& r == (match pr {
            PpuWrite::Accepted => BusWrite::Accepted,
            PpuWrite::Unmapped => BusWrite::Dropped,
            PpuWrite::IllegalDisable => BusWrite::IllegalDisplayDisable,
        })
    } else if addr == 0xFF46 {
        &&& post == (GbMapper { oam: post.oam, ..pre })
        &&& post.oam.data@ == spec_dma_result(pre, data)
        &&& r == BusWrite::Accepted
    } else if 0xFF47 <= addr && addr <= 0xFF49 {
        &&& post == (GbMapper { gbp: post.gbp, ..pre })
        &&& (post.gbp, true) == spec_gbp_write(pre.gbp, addr, data)
        &&& r == BusWrite::Accepted
    } else if addr == 0xFF50 {
        &&& post == (GbMapper { boot: pre.boot || data % 2 == 1, ..pre })
        &&& r == BusWrite::Accepted
    } else if 0xFF80 <= addr && addr <= 0xFFFE {
        &&& post == (GbMapper { hram: post.hram, ..pre })
        &&& post.hram@ == pre.hram@.update(addr - 0xFF80, data)
        &&& r == BusWrite::Accepted
    } else if addr == 0xFFFF {
        post == (GbMapper { interupt_enable: data, ..pre }) && r == BusWrite::Accepted
    } else {
        post == pre && r == BusWrite::Dropped
    }
}

/// The merged interrupt-flag byte and the serviced vector: pending PPU
/// and timer requests are folded into the flag register; with the master
/// enable set and a pending source also enabled, the highest-priority
/// one — V-blank, LCD status, timer, then joypad — has its flag bit
/// cleared and its vector returned.
pub open spec fn spec_check_interupt(m: GbMapper, ime: bool) -> (u8, Option<u16>) {
    let ppu_bits = ((if m.ppu.pending_vblank {
        1int
    } else {
        0int
    }) + (if m.ppu.pending_stat {
        2int
    } else {
        0int
    })) as u8;
    let timer_bits: u8 = if m.timer.buffered_interupt {
        4
    } else {
        0
    };
    let merged = m.interupt_flag | ppu_bits | timer_bits;
    let triggers = merged & m.interupt_enable;
    if !ime || triggers == 0 {
        (merged, None)
    } else if triggers & 0x01 > 0 {
        (merged & !0x01u8, Some(0x40u16))
    } else if triggers & 0x02 > 0 {
        (merged & !0x02u8, Some(0x48u16))
    } else if triggers & 0x04 > 0 {
        (merged & !0x04u8, Some(0x50u16))
    } else if triggers & 0x10 > 0 {
        (merged & !0x10u8, Some(0x60u16))
    } else {
        (merged, None)
    }
}

impl GbMapper {
    /// Wire a machine around a cartridge with no boot overlay: RAM
    /// zeroed, and the registers holding the values the boot sequence
    /// leaves behind (display on with the boot palettes).
    pub fn new(cartrage: CartrageMapper) -> (m: GbMapper)
        requires
            spec_cart_wf(cartrage),
        ensures
            spec_gb_wf(m),
            m.cartrage == cartrage,
            m.boot,
            m.ppu.lcdc == 0x91,
            m.ppu.ly == 0 && m.ppu.lx == 0,
            m.gbp.bgp == 0xFC && m.gbp.obp0 == 0xFF && m.gbp.obp1 == 0xFF,
            m.interupt_enable == 0 && m.interupt_flag == 0,
            m.timer == (Timer {
                div: 0,
                tima: 0,
                tma: 0,
                tac: 0,
                buffered_interupt: false,
                subdiv: 0,
            }),
            forall|i: int| 0 <= i < 0x2000 ==> m.vram@[i] == 0u8,
            forall|i: int| 0 <= i < 0x2000 ==> m.wram@[i] == 0u8,
            forall|i: int| 0 <= i < 127 ==> m.hram@[i] == 0u8,
    {
        let mut ppu = PPU::new();
        let w = ppu.write(0xFF40, 0x91);
        GbMapper {
            cartrage,
            boot_rom: BootRom::new(Vec::new()),
            vram: vec![0u8; 0x2000],
            wram: vec![0u8; 0x2000],
            boot: true,
            oam: Oam::new(),
            buttons: Buttons::none(),
            joypad: 0,
            timer: Timer::new(),
            hram: vec![0u8; 127],
            interupt_enable: 0,
            interupt_flag: 0,
            ppu,
            gbp: GBP { bgp: 0xFC, obp0: 0xFF, obp1: 0xFF },
        }
    }

    /// Wire a machine around a cartridge with a boot overlay mapped over
    /// the first page until the latch at FF50 disables it; every
    /// register starts at zero for the overlay to initialize.
    pub fn new_with_boot_rom(boot_rom: Vec<u8>, cartrage: CartrageMapper) -> (m: GbMapper)
        requires
            spec_cart_wf(cartrage),
        ensures
            spec_gb_wf(m),
            m.cartrage == cartrage,
            !m.boot,
            m.boot_rom.rom@ == boot_rom@,
            m.ppu == (crate::ppu::PPU {
                lcdc: 0,
                stat: 0,
                scy: 0,
                scx: 0,
                ly: 0,
                lx: 0,
                lyc: 0,
                wy: 0,
                wx: 0,
                pending_vblank: false,
                pending_stat: false,
            }),
            m.interupt_enable == 0 && m.interupt_flag == 0,
    {
        GbMapper {
            cartrage,
            boot_rom: BootRom::new(boot_rom),
            vram: vec![0u8; 0x2000],
            wram: vec![0u8; 0x2000],
            boot: false,
            oam: Oam::new(),
            buttons: Buttons::none(),
            joypad: 0,
            timer: Timer::new(),
            hram: vec![0u8; 127],
            interupt_enable: 0,
            interupt_flag: 0,
            ppu: PPU::new(),
            gbp: GBP::new(),
        }
    }

    /// The routed byte at a bus address, `None` where no device answers.
    pub fn read(&self, addr: u16) -> (r: Option<u8>)
        requires
            spec_gb_wf(*self),
        ensures
            r == spec_bus_read(*self, addr),
    {
        proof {
            reveal(spec_bus_read);
        }
        if addr <= 0x00FF && !self.boot {
            self.boot_rom.read(addr)
        } else if addr <= 0x7FFF {
            self.cartrage.read(addr)
        } else if addr <= 0x9FFF {
            Some(self.vram[(addr - 0x8000) as usize])
        } else if addr <= 0xBFFF {
            self.cartrage.read_ram(addr)
        } else if addr <= 0xDFFF {
            Some(self.wram[(addr - 0xC000) as usize])
        } else if addr <= 0xFDFF {
            Some(self.wram[(addr - 0xE000) as usize])
        } else if addr <= 0xFE9F {
            self.oam.read(addr)
        } else if addr == 0xFF00 {
            Some(self.joypad)
        } else if 0xFF04 <= addr && addr <= 0xFF07 {
            self.timer.read(addr)
        } else if addr == 0xFF0F {
            Some(self.interupt_flag)
        } else if 0xFF10 <= addr && addr <= 0xFF3F {
            Some(0xFF)
        } else if 0xFF40 <= addr && addr <= 0xFF45 {
            self.ppu.read(addr)
        } else if 0xFF47 <= addr && addr <= 0xFF49 {
            self.gbp.read(addr)
        } else if addr == 0xFF50 {
            Some(
                if self.boot {
                    0xFE
                } else {
                    0xFF
                },
            )
        } else if 0xFF80 <= addr && addr <= 0xFFFE {
            Some(self.hram[(addr - 0xFF80) as usize])
        } else if addr == 0xFFFF {
            Some(self.interupt_enable)
        } else {
            None
        }
    }

    /// The byte a load observes: the routed read, with the fallback 0xFF
    /// where no device answers.
    pub fn load_8(&self, addr: u16) -> (r: u8)
        requires
            spec_gb_wf(*self),
        ensures
            r == spec_load_8(*self, addr),
    {
        match self.read(addr) {
            Some(d) => d,
            None => 0xFF,
        }
    }

    /// Recompute the joypad register after a store of `data`, raising
    /// the joypad interrupt flag when an input line newly goes active.
    fn joypad_update(&mut self, data: u8)
        requires
            spec_gb_wf(*old(self)),
        ensures
            spec_gb_wf(*final(self)),
            *final(self) == (GbMapper {
                joypad: spec_joypad_merge(*old(self), data).0,
                interupt_flag: if spec_joypad_merge(*old(self), data).1 {
                    old(self).interupt_flag | 0x10
                } else {
                    old(self).interupt_flag
                },
                ..*old(self)
            }),
    {
        let old_j = self.joypad;
        let mut j = data & 0x30;
        if j & 0x10 == 0 {
            j = j | self.buttons.dpad();
        }
        if j & 0x20 == 0 {
            j = j | self.buttons.buttons();
        }
        if old_j & !j & 0x0F != 0 {
            self.interupt_flag = self.interupt_flag | 0x10;
        }
        self.joypad = j;
    }

    /// Copy 160 bytes from `data << 8` into the sprite table, reading
    /// through the bus with its usual fallback.
    pub fn dma(&mut self, data: u8) -> (ok: bool)
        requires
            spec_gb_wf(*old(self)),
        ensures
            ok,
            spec_gb_wf(*final(self)),
            *final(self) == (GbMapper { oam: final(self).oam, ..*old(self) }),
            final(self).oam.data@ == spec_dma_result(*old(self), data),
    {
        let start: u16 = (data as u16) * 256;
        let mut entries: Vec<OamEntry> = Vec::new();
        let mut i: usize = 0;
        while i < 40
            invariant
                spec_gb_wf(*self),
                *self == *old(self),
                i <= 40,
                start == data as int * 256,
                entries@.len() == i,
                forall|k: int| 0 <= k < i ==> entries@[k] == spec_dma_result(*old(self), data)[k],
            decreases 40 - i,
        {
            let base: u16 = start + (i as u16) * 4;
            let e = OamEntry {
                y: self.load_8(base),
                x: self.load_8(base + 1),
                t: self.load_8(base + 2),
                a: self.load_8(base + 3),
            };
            entries.push(e);
            i = i + 1;
        }
        self.oam = Oam { data: entries };
        proof {
            assert(final(self).oam.data@ =~= spec_dma_result(*old(self), data));
        }
        true
    }

    /// Store a byte at a bus address, routed by the address table; the
    /// outcome says whether it was stored, dropped, or refused as the
    /// illegal display-disable transition.
    pub fn write(&mut self, addr: u16, data: u8) -> (r: BusWrite)
        requires
            spec_gb_wf(*old(self)),
        ensures
            spec_gb_wf(*final(self)),
            spec_bus_write_rel(*old(self), *final(self), addr, data, r),
    {
        proof {
            reveal(spec_bus_write_rel);
        }
        if addr <= 0x7FFF {
            let ok = self.cartrage.write(addr, data);
            if ok {
                BusWrite::Accepted
            } else {
                BusWrite::Dropped
            }
        } else if addr <= 0x9FFF {
            self.vram[(addr - 0x8000) as usize] = data;
            BusWrite::Accepted
        } else if addr <= 0xBFFF {
            let ok = self.cartrage.write_ram(addr, data);
            if ok {
                BusWrite::Accepted
            } else {
                BusWrite::Dropped
            }
        } else if addr <= 0xDFFF {
            self.wram[(addr - 0xC000) as usize] = data;
            BusWrite::Accepted
        } else if addr <= 0xFDFF {
            self.wram[(addr - 0xE000) as usize] = data;
            BusWrite::Accepted
        } else if addr <= 0xFE9F {
            let ok = self.oam.write(addr, data);
            if ok {
                BusWrite::Accepted
            } else {
                BusWrite::Dropped
            }
        } else if addr == 0xFF00 {
            self.joypad_update(data);
            BusWrite::Accepted
        } else if 0xFF01 <= addr && addr <= 0xFF02 {
            BusWrite::Accepted
        } else if 0xFF04 <= addr && addr <= 0xFF07 {
            self.timer.write(addr, data);
            BusWrite::Accepted
        } else if addr == 0xFF0F {
            self.interupt_flag = data;
            BusWrite::Accepted
        } else if 0xFF10 <= addr && addr <= 0xFF3F {
            BusWrite::Accepted
        } else if 0xFF40 <= addr && addr <= 0xFF45 {
            match self.ppu.write(addr, data) {
                PpuWrite::Accepted => BusWrite::Accepted,
                PpuWrite::Unmapped => BusWrite::Dropped,
                PpuWrite::IllegalDisable => BusWrite::IllegalDisplayDisable,
            }
        } else if addr == 0xFF46 {
            self.dma(data);
            BusWrite::Accepted
        } else if 0xFF47 <= addr && addr <= 0xFF49 {
            self.gbp.write(addr, data);
            BusWrite::Accepted
        } else if addr == 0xFF50 {
            self.boot = self.boot || data % 2 == 1;
            BusWrite::Accepted
        } else if 0xFF80 <= addr && addr <= 0xFFFE {
            self.hram[(addr - 0xFF80) as usize] = data;
            BusWrite::Accepted
        } else if addr == 0xFFFF {
            self.interupt_enable = data;
            BusWrite::Accepted
        } else {
            BusWrite::Dropped
        }
    }

    /// Let `time` cycles pass: the timer ticks and the PPU advances,
    /// handing back any completed scanlines.
    pub fn time_passes(&mut self, time: usize) -> (r: Option<Vec<u8>>)
        requires
            spec_gb_wf(*old(self)),
            old(self).ppu.lx + time <= usize::MAX,
        ensures
            spec_gb_wf(*final(self)),
            *final(self) == (GbMapper {
                timer: spec_tick_n(old(self).timer, time as nat),
                ppu: final(self).ppu,
                ..*old(self)
            }),
            spec_time_passes_rel(
                old(self).ppu,
                final(self).ppu,
                time as nat,
                match r {
                    Some(ref rows) => Some(rows@),
                    None => None,
                },
            ),
    {
        self.timer.tick(time);
        self.ppu.time_passes(time)
    }

    /// Replace the held input lines and recompute the joypad register,
    /// raising the joypad interrupt when a selected line newly goes
    /// active.
    pub fn update_input(&mut self, buttons: Buttons)
        requires
            spec_gb_wf(*old(self)),
        ensures
            spec_gb_wf(*final(self)),
            *final(self) == (GbMapper {
                buttons,
                joypad: final(self).joypad,
                interupt_flag: final(self).interupt_flag,
                ..*old(self)
            }),
            ({
                let mid = GbMapper { buttons, ..*old(self) };
                let (j, raise) = spec_joypad_merge(mid, old(self).joypad);
                final(self).joypad == j && final(self).interupt_flag == (if raise {
                    old(self).interupt_flag | 0x10
                } else {
                    old(self).interupt_flag
                })
            }),
    {
        self.buttons = buttons;
        let data = self.joypad;
        self.joypad_update(data);
    }

    /// Merge the subsystems' pending interrupt requests into the flag
    /// register and, when the master enable allows one, clear and serve
    /// the highest-priority pending enabled source: V-blank at 0x40,
    /// LCD status at 0x48, timer at 0x50, joypad at 0x60.
    pub fn check_interupt(&mut self, ime: bool) -> (r: Option<u16>)
        requires
            spec_gb_wf(*old(self)),
        ensures
            spec_gb_wf(*final(self)),
            *final(self) == (GbMapper {
                ppu: PPU { pending_vblank: false, pending_stat: false, ..old(self).ppu },
                timer: Timer { buffered_interupt: false, ..old(self).timer },
                interupt_flag: spec_check_interupt(*old(self), ime).0,
                ..*old(self)
            }),
            r == spec_check_interupt(*old(self), ime).1,
    {
        let pb = self.ppu.interupt_update();
        let tb = self.timer.check_interupt();
        self.interupt_flag = self.interupt_flag | pb | tb;
        let triggers = self.interupt_flag & self.interupt_enable;
        if !ime || triggers == 0 {
            None
        } else if triggers & 0x01 > 0 {
            self.interupt_flag = self.interupt_flag & !0x01u8;
            Some(0x40)
        } else if triggers & 0x02 > 0 {
            self.interupt_flag = self.interupt_flag & !0x02u8;
            Some(0x48)
        } else if triggers & 0x04 > 0 {
            self.interupt_flag = self.interupt_flag & !0x04u8;
            Some(0x50)
        } else if triggers & 0x10 > 0 {
            self.interupt_flag = self.interupt_flag & !0x10u8;
            Some(0x60)
        } else {
            None
        }
    }
}

} // verus!

use vstd::prelude::*;

verus! {

/// Bytes in one full RGB frame: one row of 160 pixels, three bytes each,
/// for 144 rows.
pub const GAMEBOY_SCREEN_BUFFER_SIZE: usize = 69120;

/// The bus as the execution engine sees it: the machine, the frame
/// buffer being composed, and the interrupt master enable.
pub struct Mem {
    pub map_holder: GbMapper,
    pub screen: Vec<u8>,
    pub ime: bool,
}

/// Well-formed bus: a well-formed machine and a full-size frame buffer.
pub open spec fn spec_mem_wf(m: Mem) -> bool {
    spec_gb_wf(m.map_holder) && m.screen@.len() == GAMEBOY_SCREEN_BUFFER_SIZE
}

/// How storing a 16-bit word relates the machine before and after: the
/// low byte goes to `addr` and the high byte to the following address
/// (wrapping at the top of the address space), each through an ordinary
/// bus write.
pub open spec fn spec_write2_rel(pre: GbMapper, post: GbMapper, addr: u16, lo: u8, hi: u8) -> bool {
    exists|mid: GbMapper, r1: BusWrite, r2: BusWrite|
        #![trigger spec_bus_write_rel(pre, mid, addr, lo, r1), spec_bus_write_rel(mid, post, ((addr as int + 1) % 0x10000) as u16, hi, r2)]
        spec_bus_write_rel(pre, mid, addr, lo, r1) && spec_bus_write_rel(
            mid,
            post,
            ((addr as int + 1) % 0x10000) as u16,
            hi,
            r2,
        )
}

impl Mem {
    /// Wrap a machine with a zeroed frame buffer and interrupts
    /// disabled.
    pub fn new_gb(mapper: GbMapper) -> (m: Mem)
        requires
            spec_gb_wf(mapper),
        ensures
            spec_mem_wf(m),
            m.map_holder == mapper,
            !m.ime,
            forall|i: int| 0 <= i < GAMEBOY_SCREEN_BUFFER_SIZE ==> m.screen@[i] == 0u8,
    {
        Mem { map_holder: mapper, screen: vec![0u8; GAMEBOY_SCREEN_BUFFER_SIZE], ime: false }
    }

    /// The byte at a bus address, with the fallback 0xFF where no device
    /// answers.
    pub fn load_8(&self, addr: u16) -> (r: u8)
        requires
            spec_mem_wf(*self),
        ensures
            r == spec_load_8(self.map_holder, addr),
    {
        self.map_holder.load_8(addr)
    }

    /// Store a byte at a bus address; the outcome reports a dropped
    /// write or the illegal display-disable transition.
    pub fn write_8(&mut self, addr: u16, data: u8) -> (r: BusWrite)
        requires
            spec_mem_wf(*old(self)),
        ensures
            spec_mem_wf(*final(self)),
            final(self).screen == old(self).screen,
            final(self).ime == old(self).ime,
            spec_bus_write_rel(old(self).map_holder, final(self).map_holder, addr, data, r),
    {
        self.map_holder.write(addr, data)
    }

    /// Store a 16-bit word little-endian at a bus address, the high byte
    /// at the following address (wrapping at the top of the address
    /// space). A store whose two bytes land in work RAM or high RAM is
    /// additionally pinned down exactly.
    pub fn write_16(&mut self, addr: u16, data: u16)
        requires
            spec_mem_wf(*old(self)),
        ensures
            spec_mem_wf(*final(self)),
            final(self).screen == old(self).screen,
            final(self).ime == old(self).ime,
            spec_write2_rel(
                old(self).map_holder,
                final(self).map_holder,
                addr,
                (data as int % 256) as u8,
                (data as int / 256) as u8,
            ),
            0xC000 <= addr <= 0xDFFE ==> final(self).map_holder == (GbMapper {
                wram: final(self).map_holder.wram,
                ..old(self).map_holder
            }) && final(self).map_holder.wram@ == old(self).map_holder.wram@.update(
                addr - 0xC000,
                (data as int % 256) as u8,
            ).update(addr + 1 - 0xC000, (data as int / 256) as u8),
            0xFF80 <= addr <= 0xFFFD ==> final(self).map_holder == (GbMapper {
                hram: final(self).map_holder.hram,
                ..old(self).map_holder
            }) && final(self).map_holder.hram@ == old(self).map_holder.hram@.update(
                addr - 0xFF80,
                (data as int % 256) as u8,
            ).update(addr + 1 - 0xFF80, (data as int / 256) as u8),
    {
        let lo: u8 = (data % 256) as u8;
        let hi: u8 = (data / 256) as u8;
        let next: u16 = if addr == 0xFFFF {
            0
        } else {
            addr + 1
        };
        let r1 = self.write_8(addr, lo);
        let ghost mid = self.map_holder;
        let r2 = self.write_8(next, hi);
        proof {
            reveal(spec_bus_write_rel);
            assert(next == ((addr as int + 1) % 0x10000) as u16);
            assert(spec_bus_write_rel(old(self).map_holder, mid, addr, lo, r1) && spec_bus_write_rel(
                mid,
                final(self).map_holder,
                ((addr as int + 1) % 0x10000) as u16,
                hi,
                r2,
            ));
        }
    }

    /// The 16-bit word at a bus address, little-endian, the high byte
    /// from the following address (wrapping at the top of the address
    /// space).
    pub fn load_16(&self, addr: u16) -> (r: u16)
        requires
            spec_mem_wf(*self),
        ensures
            r == spec_load_16(self.map_holder, addr),
    {
        let next: u16 = if addr == 0xFFFF {
            0
        } else {
            addr + 1
        };
        let low = self.load_8(addr);
        let high = self.load_8(next);
        crate::decode::word(high, low)
    }

    /// Let `time` cycles pass on the machine, handing back any completed
    /// scanlines.
    pub fn time_passes(&mut self, time: usize) -> (r: Option<Vec<u8>>)
        requires
            spec_mem_wf(*old(self)),
            old(self).map_holder.ppu.lx + time <= usize::MAX,
        ensures
            spec_mem_wf(*final(self)),
            final(self).screen == old(self).screen,
            final(self).ime == old(self).ime,
            final(self).map_holder == (GbMapper {
                timer: spec_tick_n(old(self).map_holder.timer, time as nat),
                ppu: final(self).map_holder.ppu,
                ..old(self).map_holder
            }),
            spec_time_passes_rel(
                old(self).map_holder.ppu,
                final(self).map_holder.ppu,
                time as nat,
                match r {
                    Some(ref rows) => Some(rows@),
                    None => None,
                },
            ),
    {
        self.map_holder.time_passes(time)
    }

    /// Set the interrupt master enable.
    pub fn set_ime(&mut self, value: bool)
        ensures
            *final(self) == (Mem { ime: value, ..*old(self) }),
    {
        self.ime = value;
    }

    /// Merge pending interrupt requests and serve the highest-priority
    /// enabled one, if the master enable allows it.
    pub fn check_interupt(&mut self) -> (r: Option<u16>)
        requires
            spec_mem_wf(*old(self)),
        ensures
            spec_mem_wf(*final(self)),
            final(self).screen == old(self).screen,
            final(self).ime == old(self).ime,
            final(self).map_holder == (GbMapper {
                ppu: PPU {
                    pending_vblank: false,
                    pending_stat: false,
                    ..old(self).map_holder.ppu
                },
                timer: Timer { buffered_interupt: false, ..old(self).map_holder.timer },
                interupt_flag: spec_check_interupt(old(self).map_holder, old(self).ime).0,
                ..old(self).map_holder
            }),
            r == spec_check_interupt(old(self).map_holder, old(self).ime).1,
    {
        let ime = self.ime;
        self.map_holder.check_interupt(ime)
    }

    /// Replace the held input lines and recompute the joypad register:
    /// the select bits keep their value, each selected nibble is merged
    /// in active-low from the new lines, and the joypad interrupt flag
    /// is raised exactly when a selected line newly went active. Nothing
    /// else of the machine moves.
    pub fn update_input(&mut self, buttons: Buttons)
        requires
            spec_mem_wf(*old(self)),
        ensures
            spec_mem_wf(*final(self)),
            final(self).screen == old(self).screen,
            final(self).ime == old(self).ime,
            final(self).map_holder == (GbMapper {
                buttons,
                joypad: final(self).map_holder.joypad,
                interupt_flag: final(self).map_holder.interupt_flag,
                ..old(self).map_holder
            }),
            ({
                let mid = GbMapper { buttons, ..old(self).map_holder };
                let (j, raise) = spec_joypad_merge(mid, old(self).map_holder.joypad);
                final(self).map_holder.joypad == j && final(self).map_holder.interupt_flag == (
                if raise {
                    old(self).map_holder.interupt_flag | 0x10
                } else {
                    old(self).map_holder.interupt_flag
                })
            }),
    {
        self.map_holder.update_input(buttons)
    }

    /// Exchange the finished frame with the caller's buffer.
    pub fn screen_swap(&mut self, other: &mut Vec<u8>)
        requires
            spec_mem_wf(*old(self)),
            old(other)@.len() == GAMEBOY_SCREEN_BUFFER_SIZE,
        ensures
            spec_mem_wf(*final(self)),
            final(self).screen == *old(other),
            *final(other) == old(self).screen,
            final(self).map_holder == old(self).map_holder,
            final(self).ime == old(self).ime,
    {
        core::mem::swap(&mut self.screen, other);
    }
}

} // verus!
