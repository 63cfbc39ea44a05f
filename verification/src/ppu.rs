//! Pixel-processing unit timing: control and status registers, and the
//! scanline state machine. One scanline lasts 456 cycles — OAM search for
//! the first 78, pixel transfer through cycle 247, then H-blank — and
//! lines 144 through 153 read as V-blank whatever the in-line cycle.
//! LY wraps from 153 back to 0.

use vstd::prelude::*;

use crate::spec_pow2;

verus! {

/// Cycles in one full scanline.
pub const LINE_CYCLE: usize = 456;

/// The last scanline before LY wraps to zero.
pub const LYMAX: u8 = 153;

/// PPU state: the bus-visible registers, the hidden cycle-within-line
/// counter `lx`, and the two buffered interrupt requests the bus collects.
pub struct PPU {
    pub lcdc: u8,
    pub stat: u8,
    pub scy: u8,
    pub scx: u8,
    pub ly: u8,
    pub lx: usize,
    pub lyc: u8,
    pub wy: u8,
    pub wx: u8,
    pub pending_vblank: bool,
    pub pending_stat: bool,
}

/// The four scanline modes the status register's low two bits report.
#[derive(Clone, Copy, PartialEq, Eq, Structural, Debug)]
pub enum State {
    HBlank,
    VBlank,
    Oam,
    Vram,
}

/// Well-formed PPU: the in-line cycle counter sits inside one scanline
/// and LY inside the frame.
pub open spec fn spec_ppu_wf(p: PPU) -> bool {
    p.lx < 456 && p.ly <= 153
}

/// Whether bit `i` of a register byte is set.
pub open spec fn spec_bit(b: u8, i: u8) -> bool {
    (b as int / spec_pow2(i) as int) % 2 == 1
}

/// The scanline after `ly`: LY wraps from 153 to 0.
pub open spec fn spec_next_ly(ly: u8) -> u8 {
    if ly >= 153 {
        0
    } else {
        (ly + 1) as u8
    }
}

/// The mode value the status register reports: V-blank on lines 144 and
/// later, else OAM search, pixel transfer or H-blank by in-line cycle.
pub open spec fn spec_mode(ly: u8, lx: nat) -> u8 {
    if ly >= 144 {
        1
    } else if lx <= 77 {
        2
    } else if lx <= 247 {
        3
    } else {
        0
    }
}

/// The status byte after refreshing its low three bits: the mode in the
/// low two and the LY = LYC coincidence flag in bit 2, the interrupt
/// selects above untouched.
pub open spec fn spec_set_state(stat: u8, ly: u8, lx: nat, lyc: u8) -> u8 {
    ((stat as int / 8) * 8 + spec_mode(ly, lx) + (if ly == lyc {
        4int
    } else {
        0int
    })) as u8
}

/// Drain the in-line cycle counter: each full 456-cycle scanline emits
/// the line it completed and advances LY (wrapping after 153), leaving
/// the counter below 456. Returns the completed lines in order, the new
/// LY, and the remaining in-line cycles.
pub open spec fn spec_drain(ly: u8, lx: nat) -> (Seq<u8>, u8, nat)
    decreases lx,
{
    if lx < 456 {
        (Seq::empty(), ly, lx)
    } else {
        let rest = spec_drain(spec_next_ly(ly), (lx - 456) as nat);
        (seq![ly] + rest.0, rest.1, rest.2)
    }
}

/// The byte a PPU-register read returns; `None` off the PPU's
/// addresses.
pub open spec fn spec_ppu_read(p: PPU, addr: u16) -> Option<u8> {
    if addr == 0xFF40 {
        Some(p.lcdc)
    } else if addr == 0xFF41 {
        Some(p.stat)
    } else if addr == 0xFF42 {
        Some(p.scy)
    } else if addr == 0xFF43 {
        Some(p.scx)
    } else if addr == 0xFF44 {
        Some(p.ly)
    } else if addr == 0xFF45 {
        Some(p.lyc)
    } else if addr == 0xFF4A {
        Some(p.wy)
    } else if addr == 0xFF4B {
        Some(p.wx)
    } else {
        None
    }
}

/// How the passage of `time` cycles relates the PPU before and after,
/// together with the completed scanlines handed back: the in-line
/// counter and LY follow the drain of `pre.lx + time`, the status bits
/// are refreshed, crossing into line 144 buffers the V-blank request,
/// and a completed line landing on LY = LYC with the coincidence select
/// set buffers the status request.
pub open spec fn spec_time_passes_rel(pre: PPU, post: PPU, time: nat, rows: Option<Seq<u8>>) -> bool {
    let d = spec_drain(pre.ly, (pre.lx + time) as nat);
    &&& post.ly == d.1
    &&& post.lx == d.2
    &&& post.stat == spec_set_state(pre.stat, d.1, d.2, pre.lyc)
    &&& post.pending_vblank == (pre.pending_vblank || d.0.contains(143u8))
    &&& post.pending_stat == (pre.pending_stat || (d.0.len() > 0 && d.1 == pre.lyc && spec_bit(
        pre.stat,
        6,
    )))
    &&& post.lcdc == pre.lcdc
    &&& post.scy == pre.scy
    &&& post.scx == pre.scx
    &&& post.lyc == pre.lyc
    &&& post.wy == pre.wy
    &&& post.wx == pre.wx
    &&& (match rows {
        Some(s) => d.0.len() > 0 && s == d.0,
        None => d.0.len() == 0,
    })
}

impl PPU {
    /// Fresh PPU: every register and counter at zero, nothing pending.
    pub fn new() -> (p: PPU)
        ensures
            p == (PPU {
                lcdc: 0,
                stat: 0,
                scy: 0,
                scx: 0,
                ly: 0,
                lx: 0,
                lyc: 0,
                wy: 0,
                wx: 0,
                pending_vblank: false,
                pending_stat: false,
            }),
            spec_ppu_wf(p),
    {
        PPU {
            lcdc: 0,
            stat: 0,
            scy: 0,
            scx: 0,
            ly: 0,
            lx: 0,
            lyc: 0,
            wy: 0,
            wx: 0,
            pending_vblank: false,
            pending_stat: false,
        }
    }

    /// Read of a PPU register by bus address; any other address is not a
    /// PPU register.
    pub fn read(&self, addr: u16) -> (r: Option<u8>)
        ensures
            r == spec_ppu_read(*self, addr),
    {
        match addr {
            0xFF40 => Some(self.lcdc),
            0xFF41 => Some(self.stat),
            0xFF42 => Some(self.scy),
            0xFF43 => Some(self.scx),
            0xFF44 => Some(self.ly),
            0xFF45 => Some(self.lyc),
            0xFF4A => Some(self.wy),
            0xFF4B => Some(self.wx),
            _ => None,
        }
    }

    /// Test bit `offset` of the control register.
    pub fn lcdc_get(&self, offset: u8) -> (r: bool)
        requires
            offset < 8,
        ensures
            r == spec_bit(self.lcdc, offset),
    {
        let d: u8 = if offset == 0 {
            1
        } else if offset == 1 {
            2
        } else if offset == 2 {
            4
        } else if offset == 3 {
            8
        } else if offset == 4 {
            16
        } else if offset == 5 {
            32
        } else if offset == 6 {
            64
        } else {
            128
        };
        (self.lcdc / d) % 2 == 1
    }

    /// The mode the status register currently reports.
    pub fn state(&self) -> (s: State)
        ensures
            s == (if self.stat % 4 == 0 {
                State::HBlank
            } else if self.stat % 4 == 1 {
                State::VBlank
            } else if self.stat % 4 == 2 {
                State::Oam
            } else {
                State::Vram
            }),
    {
        match self.stat % 4 {
            0 => State::HBlank,
            1 => State::VBlank,
            2 => State::Oam,
            _ => State::Vram,
        }
    }

    /// Refresh the low three status bits from the current line and cycle.
    pub fn set_state(&mut self)
        requires
            old(self).lx < 456,
        ensures
            *final(self) == (PPU {
                stat: spec_set_state(old(self).stat, old(self).ly, old(self).lx as nat, old(self).lyc),
                ..*old(self)
            }),
    {
        let mode: u8 = if self.ly >= 144 {
            1
        } else if self.lx <= 77 {
            2
        } else if self.lx <= 247 {
            3
        } else {
            0
        };
        let coincidence: u8 = if self.ly == self.lyc {
            4
        } else {
            0
        };
        self.stat = (self.stat / 8) * 8 + mode + coincidence;
    }

    /// Store into a control or status register. Raising the
    /// display-enable bit restarts the frame at LY = 0, cycle 0; writing
    /// LY resets it (the register is read-only); clearing the
    /// display-enable bit during V-blank is flagged as the illegal
    /// display transition instead of being applied.
    pub fn write(&mut self, addr: u16, data: u8) -> (r: PpuWrite)
        requires
            spec_ppu_wf(*old(self)),
        ensures
            spec_ppu_wf(*final(self)),
            r == spec_ppu_write(*old(self), addr, data).1,
            *final(self) == spec_ppu_write(*old(self), addr, data).0,
    {
        match addr {
            0xFF40 => self.lcdc_set(data),
            0xFF41 => {
                self.stat = (data / 8) * 8 + self.stat % 8;
                PpuWrite::Accepted
            },
            0xFF42 => {
                self.scy = data;
                PpuWrite::Accepted
            },
            0xFF43 => {
                self.scx = data;
                PpuWrite::Accepted
            },
            0xFF44 => {
                self.ly = 0;
                PpuWrite::Accepted
            },
            0xFF45 => {
                self.lyc = data;
                PpuWrite::Accepted
            },
            0xFF4A => {
                self.wy = data;
                PpuWrite::Accepted
            },
            0xFF4B => {
                self.wx = data;
                PpuWrite::Accepted
            },
            _ => PpuWrite::Unmapped,
        }
    }

    /// Store the control register. A rising display-enable bit restarts
    /// the frame; a falling one during V-blank is the illegal transition:
    /// the write is not applied and the error is reported.
    pub fn lcdc_set(&mut self, data: u8) -> (r: PpuWrite)
        requires
            spec_ppu_wf(*old(self)),
        ensures
            spec_ppu_wf(*final(self)),
            r == spec_lcdc_set(*old(self), data).1,
            *final(self) == spec_lcdc_set(*old(self), data).0,
    {
        let was_on = self.lcdc_get(7);
        let now_on = (data / 128) % 2 == 1;
        if !was_on && now_on {
            self.ly = 0;
            self.lx = 0;
            self.set_state();
            self.lcdc = data;
            PpuWrite::Accepted
        } else if was_on && !now_on {
            let in_vblank = matches!(self.state(), State::VBlank);
            if in_vblank {
                PpuWrite::IllegalDisable
            } else {
                self.lcdc = data;
                PpuWrite::Accepted
            }
        } else {
            self.lcdc = data;
            PpuWrite::Accepted
        }
    }

    /// Advance the PPU by `time` cycles. Completed scanlines are handed
    /// back in order; crossing into line 144 buffers a V-blank interrupt
    /// request, and finishing a line on LY = LYC with the coincidence
    /// interrupt selected buffers a status interrupt request. The status
    /// register's low bits are refreshed last.
    pub fn time_passes(&mut self, time: usize) -> (r: Option<Vec<u8>>)
        requires
            spec_ppu_wf(*old(self)),
            old(self).lx + time <= usize::MAX,
        ensures
            spec_ppu_wf(*final(self)),
            spec_time_passes_rel(
                *old(self),
                *final(self),
                time as nat,
                match r {
                    Some(rows) => Some(rows@),
                    None => None,
                },
            ),
    {
        self.lx = self.lx + time;
        if self.lx >= 456 {
            let mut ret: Vec<u8> = Vec::new();
            let ghost ly0 = self.ly;
            let ghost lx0 = self.lx as nat;
            while self.lx >= 456
                invariant
                    spec_drain(ly0, lx0).0 == ret@ + spec_drain(self.ly, self.lx as nat).0,
                    spec_drain(ly0, lx0).1 == spec_drain(self.ly, self.lx as nat).1,
                    spec_drain(ly0, lx0).2 == spec_drain(self.ly, self.lx as nat).2,
                    self.ly <= 153,
                    self.lcdc == old(self).lcdc,
                    self.stat == old(self).stat,
                    self.scy == old(self).scy,
                    self.scx == old(self).scx,
                    self.lyc == old(self).lyc,
                    self.wy == old(self).wy,
                    self.wx == old(self).wx,
                    self.pending_vblank == (old(self).pending_vblank || ret@.contains(143u8)),
                    self.pending_stat == old(self).pending_stat,
                decreases self.lx,
            {
                let ghost pre = *self;
                let ghost pre_ret = ret@;
                ret.push(self.ly);
                if self.ly == 143 {
                    self.pending_vblank = true;
                }
                self.ly = if self.ly >= 153 {
                    0
                } else {
                    self.ly + 1
                };
                self.lx = self.lx - 456;
                proof {
                    assert(spec_drain(pre.ly, pre.lx as nat).0 == seq![pre.ly] + spec_drain(
                        self.ly,
                        self.lx as nat,
                    ).0);
                    assert(ret@ == pre_ret + seq![pre.ly]);
                    assert(pre_ret + (seq![pre.ly] + spec_drain(self.ly, self.lx as nat).0) == (
                    pre_ret + seq![pre.ly]) + spec_drain(self.ly, self.lx as nat).0);
                    if pre.ly == 143 {
                        assert(ret@.contains(143u8)) by {
                            assert(ret@[ret@.len() - 1] == 143u8);
                        }
                    } else {
                        assert(ret@.contains(143u8) == pre_ret.contains(143u8)) by {
                            if pre_ret.contains(143u8) {
                                let i = choose|i: int| 0 <= i < pre_ret.len() && pre_ret[i] == 143u8;
                                assert(ret@[i] == 143u8);
                            }
                            if ret@.contains(143u8) {
                                let i = choose|i: int| 0 <= i < ret@.len() && ret@[i] == 143u8;
                                assert(0 <= i < pre_ret.len() && pre_ret[i] == 143u8);
                            }
                        }
                    }
                }
            }
            if self.ly == self.lyc && (self.stat / 64) % 2 == 1 {
                self.pending_stat = true;
            }
            proof {
                let d = spec_drain(ly0, lx0);
                assert(spec_drain(self.ly, self.lx as nat).0 == Seq::<u8>::empty());
                assert(d.0 == ret@ + Seq::<u8>::empty());
                assert(ret@ + Seq::<u8>::empty() == ret@);
                assert(d.0.len() > 0) by {
                    assert(lx0 >= 456);
                }
            }
            self.set_state();
            Some(ret)
        } else {
            self.set_state();
            None
        }
    }

    /// Hand the buffered V-blank and status interrupt requests to the bus
    /// as interrupt-flag bits, clearing them.
    pub fn interupt_update(&mut self) -> (r: u8)
        ensures
            r == (if old(self).pending_vblank {
                1int
            } else {
                0int
            }) + (if old(self).pending_stat {
                2int
            } else {
                0int
            }),
            *final(self) == (PPU { pending_vblank: false, pending_stat: false, ..*old(self) }),
    {
        let mut r: u8 = 0;
        if self.pending_vblank {
            r = r + 1;
        }
        if self.pending_stat {
            r = r + 2;
        }
        self.pending_vblank = false;
        self.pending_stat = false;
        r
    }
}

/// Outcome of a store into a PPU register: accepted, not a PPU register,
/// or the illegal display-disable transition.
#[derive(Clone, Copy, PartialEq, Eq, Structural, Debug)]
pub enum PpuWrite {
    Accepted,
    Unmapped,
    IllegalDisable,
}

/// The PPU after a store of the control register, with the outcome.
/// A rising display-enable bit restarts the frame at LY = 0, cycle 0 and
/// refreshes the status bits; a falling one while the mode reads V-blank
/// leaves the PPU unchanged and reports the illegal transition.
pub open spec fn spec_lcdc_set(p: PPU, data: u8) -> (PPU, PpuWrite) {
    let was_on = spec_bit(p.lcdc, 7);
    let now_on = spec_bit(data, 7);
    if !was_on && now_on {
        (
            PPU { lcdc: data, ly: 0, lx: 0, stat: spec_set_state(p.stat, 0, 0, p.lyc), ..p },
            PpuWrite::Accepted,
        )
    } else if was_on && !now_on && p.stat % 4 == 1 {
        (p, PpuWrite::IllegalDisable)
    } else {
        (PPU { lcdc: data, ..p }, PpuWrite::Accepted)
    }
}

/// The PPU after a store by bus address, with the outcome.
pub open spec fn spec_ppu_write(p: PPU, addr: u16, data: u8) -> (PPU, PpuWrite) {
    if addr == 0xFF40 {
        spec_lcdc_set(p, data)
    } else if addr == 0xFF41 {
        (PPU { stat: ((data as int / 8) * 8 + p.stat as int % 8) as u8, ..p }, PpuWrite::Accepted)
    } else if addr == 0xFF42 {
        (PPU { scy: data, ..p }, PpuWrite::Accepted)
    } else if addr == 0xFF43 {
        (PPU { scx: data, ..p }, PpuWrite::Accepted)
    } else if addr == 0xFF44 {
        (PPU { ly: 0, ..p }, PpuWrite::Accepted)
    } else if addr == 0xFF45 {
        (PPU { lyc: data, ..p }, PpuWrite::Accepted)
    } else if addr == 0xFF4A {
        (PPU { wy: data, ..p }, PpuWrite::Accepted)
    } else if addr == 0xFF4B {
        (PPU { wx: data, ..p }, PpuWrite::Accepted)
    } else {
        (p, PpuWrite::Unmapped)
    }
}

/// Law: one full scanline of 456 cycles from LY = 0, cycle 0 completes
/// exactly line 0, leaving LY = 1 with the cycle counter back at zero —
/// where the mode reads OAM search, the side of the H-blank boundary a
/// new line starts on.
pub proof fn lemma_one_scanline()
    ensures
        spec_drain(0, 456) == (seq![0u8], 1u8, 0nat),
        spec_mode(1, 0) == 2,
        spec_mode(0, 455) == 0,
{
    assert(spec_drain(1, 0) == (Seq::<u8>::empty(), 1u8, 0nat));
    assert(spec_drain(0, 456).0 == seq![0u8] + Seq::<u8>::empty());
    assert(seq![0u8] + Seq::<u8>::empty() == seq![0u8]);
}

/// Law: on lines 144 and later the mode reads V-blank whatever the
/// in-line cycle, and LY wraps from 153 to 0 when its line completes.
pub proof fn lemma_vblank_and_wrap(ly: u8, lx: nat)
    requires
        144 <= ly <= 153,
        lx < 456,
    ensures
        spec_mode(ly, lx) == 1,
        spec_next_ly(153) == 0,
{
}

} // verus!
