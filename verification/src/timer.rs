//! Programmable timer: a free-running divider plus a rate-selectable
//! counter (TIMA) that reloads from TMA and buffers an interrupt request
//! when it overflows.

use vstd::prelude::*;

verus! {

/// Timer state. `subdiv` is the internal sub-cycle counter; the visible
/// divider register is always its high byte. TIMA increments on a falling
/// edge of the rate-selected bit of `subdiv`, only while the enable bit of
/// TAC is set; on overflow it reloads from TMA and buffers an interrupt
/// request until the next observation.
pub struct Timer {
    pub div: u8,
    pub tima: u8,
    pub tma: u8,
    pub tac: u8,
    pub buffered_interupt: bool,
    pub subdiv: u16,
}

/// Weight of the sub-counter bit selected by the low two bits of TAC:
/// TIMA advances when that bit of `subdiv` falls.
pub open spec fn spec_rate_pow(tac: u8) -> u16 {
    if tac % 4 == 0 {
        512
    } else if tac % 4 == 1 {
        8
    } else if tac % 4 == 2 {
        32
    } else {
        128
    }
}

/// Whether the enable bit (bit 2) of TAC is set.
pub open spec fn spec_tac_enabled(tac: u8) -> bool {
    (tac / 4) % 2 == 1
}

/// One machine cycle of the timer: the sub-counter advances (wrapping),
/// the divider tracks its high byte, and TIMA increments on a falling edge
/// of the rate-selected bit while enabled, reloading from TMA and
/// buffering an interrupt request on overflow.
pub open spec fn spec_tick1(t: Timer) -> Timer {
    let sd2 = (((t.subdiv as int) + 1) % 0x10000) as u16;
    let p = spec_rate_pow(t.tac) as int;
    let falling = (t.subdiv as int / p) % 2 == 1 && (sd2 as int / p) % 2 == 0;
    if spec_tac_enabled(t.tac) && falling {
        if t.tima == 255 {
            Timer { div: (sd2 / 256) as u8, tima: t.tma, buffered_interupt: true, subdiv: sd2, ..t }
        } else {
            Timer { div: (sd2 / 256) as u8, tima: (t.tima + 1) as u8, subdiv: sd2, ..t }
        }
    } else {
        Timer { div: (sd2 / 256) as u8, subdiv: sd2, ..t }
    }
}

/// The timer after `n` machine cycles.
pub open spec fn spec_tick_n(t: Timer, n: nat) -> Timer
    decreases n,
{
    if n == 0 {
        t
    } else {
        spec_tick1(spec_tick_n(t, (n - 1) as nat))
    }
}

/// The byte a timer-register read returns: divider, TIMA, TMA and TAC in
/// order; `None` off the timer's four addresses.
pub open spec fn spec_timer_read(t: Timer, addr: u16) -> Option<u8> {
    if addr == 0xFF04 {
        Some(t.div)
    } else if addr == 0xFF05 {
        Some(t.tima)
    } else if addr == 0xFF06 {
        Some(t.tma)
    } else if addr == 0xFF07 {
        Some(t.tac)
    } else {
        None
    }
}

/// The timer after a register write, and whether the address was a timer
/// register. Writing the divider resets it with the whole sub-counter.
pub open spec fn spec_timer_write(t: Timer, addr: u16, data: u8) -> (Timer, bool) {
    if addr == 0xFF04 {
        (Timer { div: 0, subdiv: 0, ..t }, true)
    } else if addr == 0xFF05 {
        (Timer { tima: data, ..t }, true)
    } else if addr == 0xFF06 {
        (Timer { tma: data, ..t }, true)
    } else if addr == 0xFF07 {
        (Timer { tac: data, ..t }, true)
    } else {
        (t, false)
    }
}

impl Timer {
    /// Fresh timer: every register and the sub-counter at zero, no
    /// buffered interrupt.
    pub fn new() -> (t: Timer)
        ensures
            t == (Timer { div: 0, tima: 0, tma: 0, tac: 0, buffered_interupt: false, subdiv: 0 }),
    {
        Timer { div: 0, tima: 0, tma: 0, tac: 0, buffered_interupt: false, subdiv: 0 }
    }

    /// Read of a timer register by bus address: divider, TIMA, TMA and TAC
    /// in order; any other address is not a timer register.
    pub fn read(&self, addr: u16) -> (r: Option<u8>)
        ensures
            r == spec_timer_read(*self, addr),
    {
        match addr {
            0xFF04 => Some(self.div),
            0xFF05 => Some(self.tima),
            0xFF06 => Some(self.tma),
            0xFF07 => Some(self.tac),
            _ => None,
        }
    }

    /// Write of a timer register by bus address. Writing the divider
    /// resets it together with the whole internal sub-counter; the other
    /// three registers take the written byte. Returns whether the address
    /// was a timer register.
    pub fn write(&mut self, addr: u16, data: u8) -> (ok: bool)
        ensures
            (*final(self), ok) == spec_timer_write(*old(self), addr, data),
    {
        match addr {
            0xFF04 => {
                self.div = 0;
                self.subdiv = 0;
                true
            },
            0xFF05 => {
                self.tima = data;
                true
            },
            0xFF06 => {
                self.tma = data;
                true
            },
            0xFF07 => {
                self.tac = data;
                true
            },
            _ => false,
        }
    }

    /// Hand out the buffered interrupt request, clearing it: the timer bit
    /// of the interrupt-flag register if one was pending, zero otherwise.
    pub fn check_interupt(&mut self) -> (r: u8)
        ensures
            r == (if old(self).buffered_interupt {
                4u8
            } else {
                0u8
            }),
            *final(self) == (Timer { buffered_interupt: false, ..*old(self) }),
    {
        if self.buffered_interupt {
            self.buffered_interupt = false;
            4
        } else {
            0
        }
    }

    /// Advance the timer by `time` machine cycles.
    pub fn tick(&mut self, time: usize)
        ensures
            *final(self) == spec_tick_n(*old(self), time as nat),
    {
        let mut i: usize = 0;
        while i < time
            invariant
                i <= time,
                *self == spec_tick_n(*old(self), i as nat),
            decreases time - i,
        {
            let sd2: u16 = if self.subdiv == 0xFFFF {
                0
            } else {
                self.subdiv + 1
            };
            let p: u16 = if self.tac % 4 == 0 {
                512
            } else if self.tac % 4 == 1 {
                8
            } else if self.tac % 4 == 2 {
                32
            } else {
                128
            };
            let enabled = (self.tac / 4) % 2 == 1;
            let falling = (self.subdiv / p) % 2 == 1 && (sd2 / p) % 2 == 0;
            if enabled && falling {
                if self.tima == 255 {
                    self.tima = self.tma;
                    self.buffered_interupt = true;
                } else {
                    self.tima = self.tima + 1;
                }
            }
            self.subdiv = sd2;
            self.div = (sd2 / 256) as u8;
            i = i + 1;
        }
    }
}

/// While the rate-selected bit has not yet fallen — through the first
/// `2p - 1` cycles of a period starting with the sub-counter at zero,
/// where `p` is the bit's weight — each cycle only advances the
/// sub-counter: TIMA and the interrupt buffer are untouched, whatever
/// rate TAC selects.
proof fn lemma_quiet_prefix(t: Timer, k: nat)
    requires
        t.subdiv == 0,
        k < 2 * spec_rate_pow(t.tac),
    ensures
        spec_tick_n(t, k).subdiv == k,
        spec_tick_n(t, k).tima == t.tima,
        spec_tick_n(t, k).buffered_interupt == t.buffered_interupt,
        spec_tick_n(t, k).tac == t.tac,
        spec_tick_n(t, k).tma == t.tma,
    decreases k,
{
    if k > 0 {
        lemma_quiet_prefix(t, (k - 1) as nat);
        let prev = spec_tick_n(t, (k - 1) as nat);
        assert(spec_tick_n(t, k) == spec_tick1(prev));
        assert(prev.subdiv == k - 1 && prev.tac == t.tac);
        let p = spec_rate_pow(t.tac) as int;
        assert((prev.subdiv as int + 1) % 0x10000 == k);
        if p == 8 {
            assert(!(((k - 1) / 8) % 2 == 1 && (k as int / 8) % 2 == 0));
        } else if p == 32 {
            assert(!(((k - 1) / 32) % 2 == 1 && (k as int / 32) % 2 == 0));
        } else if p == 128 {
            assert(!(((k - 1) / 128) % 2 == 1 && (k as int / 128) % 2 == 0));
        } else {
            assert(p == 512);
            assert(!(((k - 1) / 512) % 2 == 1 && (k as int / 512) % 2 == 0));
        }
    }
}

/// Law: with the timer enabled and whichever rate TAC selects, a full
/// period of the rate bit — low for its weight `p`, high for `p`,
/// falling at cycle `2p` — increments TIMA exactly once: unchanged
/// through the first `2p - 1` cycles and incremented by the falling-edge
/// cycle, with no interrupt requested while TIMA does not overflow.
pub proof fn lemma_timer_period(t: Timer)
    requires
        spec_tac_enabled(t.tac),
        t.subdiv == 0,
        t.tima < 255,
    ensures
        spec_tick_n(t, (2 * spec_rate_pow(t.tac) - 1) as nat).tima == t.tima,
        spec_tick_n(t, (2 * spec_rate_pow(t.tac)) as nat).tima == t.tima + 1,
        spec_tick_n(t, (2 * spec_rate_pow(t.tac)) as nat).buffered_interupt
            == t.buffered_interupt,
{
    let p = spec_rate_pow(t.tac) as int;
    lemma_quiet_prefix(t, (2 * p - 1) as nat);
    let prev = spec_tick_n(t, (2 * p - 1) as nat);
    assert(spec_tick_n(t, (2 * p) as nat) == spec_tick1(prev));
    assert(prev.subdiv == 2 * p - 1 && prev.tac == t.tac && prev.tima == t.tima);
    assert((prev.subdiv as int + 1) % 0x10000 == 2 * p);
    if p == 8 {
        assert(((2 * 8 - 1) / 8) % 2 == 1 && ((2 * 8int) / 8) % 2 == 0);
    } else if p == 32 {
        assert(((2 * 32 - 1) / 32) % 2 == 1 && ((2 * 32int) / 32) % 2 == 0);
    } else if p == 128 {
        assert(((2 * 128 - 1) / 128) % 2 == 1 && ((2 * 128int) / 128) % 2 == 0);
    } else {
        assert(p == 512);
        assert(((2 * 512 - 1) / 512) % 2 == 1 && ((2 * 512int) / 512) % 2 == 0);
    }
}

/// Law: in the same configuration with TIMA at its maximum, the
/// falling-edge cycle overflows TIMA, reloads it from TMA and buffers
/// the timer interrupt request on that same cycle, whatever rate TAC
/// selects.
pub proof fn lemma_timer_overflow(t: Timer)
    requires
        spec_tac_enabled(t.tac),
        t.subdiv == 0,
        t.tima == 255,
    ensures
        spec_tick_n(t, (2 * spec_rate_pow(t.tac) - 1) as nat).tima == 255,
        spec_tick_n(t, (2 * spec_rate_pow(t.tac) - 1) as nat).buffered_interupt
            == t.buffered_interupt,
        spec_tick_n(t, (2 * spec_rate_pow(t.tac)) as nat).tima == t.tma,
        spec_tick_n(t, (2 * spec_rate_pow(t.tac)) as nat).buffered_interupt,
{
    let p = spec_rate_pow(t.tac) as int;
    lemma_quiet_prefix(t, (2 * p - 1) as nat);
    let prev = spec_tick_n(t, (2 * p - 1) as nat);
    assert(spec_tick_n(t, (2 * p) as nat) == spec_tick1(prev));
    assert(prev.subdiv == 2 * p - 1 && prev.tac == t.tac && prev.tima == 255 && prev.tma == t.tma);
    assert((prev.subdiv as int + 1) % 0x10000 == 2 * p);
    if p == 8 {
        assert(((2 * 8 - 1) / 8) % 2 == 1 && ((2 * 8int) / 8) % 2 == 0);
    } else if p == 32 {
        assert(((2 * 32 - 1) / 32) % 2 == 1 && ((2 * 32int) / 32) % 2 == 0);
    } else if p == 128 {
        assert(((2 * 128 - 1) / 128) % 2 == 1 && ((2 * 128int) / 128) % 2 == 0);
    } else {
        assert(p == 512);
        assert(((2 * 512 - 1) / 512) % 2 == 1 && ((2 * 512int) / 512) % 2 == 0);
    }
    assert(spec_tick1(prev).tima == t.tma);
    assert(spec_tick1(prev).buffered_interupt);
}

/// Law: with the enable bit of TAC clear, TIMA never moves and no
/// interrupt is ever requested, however many cycles pass.
pub proof fn lemma_timer_disabled(t: Timer, n: nat)
    requires
        !spec_tac_enabled(t.tac),
    ensures
        spec_tick_n(t, n).tima == t.tima,
        spec_tick_n(t, n).buffered_interupt == t.buffered_interupt,
        spec_tick_n(t, n).tac == t.tac,
        spec_tick_n(t, n).tma == t.tma,
    decreases n,
{
    if n > 0 {
        lemma_timer_disabled(t, (n - 1) as nat);
    }
}

} // verus!
