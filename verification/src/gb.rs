//! The machine driver: one console wired together from CPU and bus, and
//! the single step the host loop drives — execute an instruction, let
//! its cycles pass, render the scanlines they completed, and service one
//! pending interrupt. The host exchanges a finished frame and fresh
//! input at the rendezvous that `step` reports with its frame flag.

use vstd::prelude::*;

use crate::cartrage::{spec_cm_type, CartrageError, CartrageMapper};
use crate::cpu::{spec_cycle_rel, spec_wrap16, CPUState, Cpu};
use crate::decode::DecodeError;
use crate::mem::{
    spec_check_interupt, spec_load_8, spec_mem_wf, spec_write2_rel, Buttons, GbMapper, Mem,
};
use crate::ppu::{spec_drain, spec_time_passes_rel, PPU};
use crate::timer::{spec_tick_n, Timer};

verus! {

/// What the host hands the core at the frame rendezvous.
pub enum Input {
    Buttons(Buttons),
}

/// What the core hands the host: a finished frame to exchange.
pub enum Output {
    Frame,
}

/// One console: the execution engine and the bus it drives.
pub struct Gb {
    pub cpu: Cpu,
    pub mem: Mem,
}

/// Well-formed console: the bus invariant holds.
pub open spec fn spec_gb_console_wf(g: Gb) -> bool {
    spec_mem_wf(g.mem)
}

/// Whether frame-buffer byte `k` lies in the 480-byte scanline region of
/// a visible row (below 144).
pub open spec fn spec_in_row_region(row: u8, k: int) -> bool {
    row < 144 && 480 * (row as int) <= k < 480 * (row as int) + 480
}

/// Whether byte `k` of the frame buffer lies in the scanline region of
/// one of the first `n` completed rows.
pub open spec fn spec_rows_cover(rows: Seq<u8>, n: int, k: int) -> bool {
    exists|i: int| 0 <= i < n && i < rows.len() && spec_in_row_region(#[trigger] rows[i], k)
}

/// How rendering the completed rows relates the frame buffer before and
/// after: a byte in no visible completed row's region is unchanged, and
/// each visible completed row's region holds exactly the composed
/// shades of that scanline's pixels.
pub open spec fn spec_rows_rendered(m: GbMapper, rows: Seq<u8>, pre: Seq<u8>, post: Seq<u8>) -> bool {
    &&& post.len() == pre.len()
    &&& forall|k: int|
        0 <= k < post.len() && !spec_rows_cover(rows, rows.len() as int, k) ==> post[k] == pre[k]
    &&& pre.len() == crate::mem::GAMEBOY_SCREEN_BUFFER_SIZE ==> forall|j: int, i: int|
        0 <= j < rows.len() && (#[trigger] rows[j]) < 144 && 0 <= i < 160 ==> ({
            let shade = #[trigger] crate::render::spec_composed_shade(m, rows[j], i);
            &&& post[480 * (rows[j] as int) + 3 * i] == shade
            &&& post[480 * (rows[j] as int) + 3 * i + 1] == shade
            &&& post[480 * (rows[j] as int) + 3 * i + 2] == shade
        })
}

/// How the passage of time relates the bus before and after, with the
/// frame flag: the timer ticks, the PPU advances by the scanline drain,
/// every completed visible row is rendered into its region of the frame
/// buffer, everything else of the machine is untouched, and the frame
/// completes exactly when line 144 was among the completed rows.
pub open spec fn spec_gb_time_rel(pre: Mem, post: Mem, time: nat, frame: bool) -> bool {
    let d = spec_drain(pre.map_holder.ppu.ly, (pre.map_holder.ppu.lx + time) as nat);
    &&& post.ime == pre.ime
    &&& post.map_holder == (GbMapper {
        timer: spec_tick_n(pre.map_holder.timer, time),
        ppu: post.map_holder.ppu,
        ..pre.map_holder
    })
    &&& spec_time_passes_rel(
        pre.map_holder.ppu,
        post.map_holder.ppu,
        time,
        if d.0.len() > 0 {
            Some(d.0)
        } else {
            None
        },
    )
    &&& spec_rows_rendered(post.map_holder, d.0, pre.screen@, post.screen@)
    &&& frame == d.0.contains(144u8)
}

/// The bus after the interrupt check folded the pending PPU and timer
/// requests into the flag register (clearing them at their sources) and
/// possibly cleared the served source's flag bit.
pub open spec fn spec_check_aftermath(m: Mem) -> Mem {
    Mem {
        map_holder: GbMapper {
            ppu: PPU { pending_vblank: false, pending_stat: false, ..m.map_holder.ppu },
            timer: Timer { buffered_interupt: false, ..m.map_holder.timer },
            interupt_flag: spec_check_interupt(m.map_holder, m.ime).0,
            ..m.map_holder
        },
        ..m
    }
}

/// How one machine step relates the console before and after, with its
/// frame flag: the CPU performs one cycle (executing, or idling halted
/// or stopped), its elapsed cycles pass on the bus with every completed
/// row rendered, the interrupt check folds and arbitrates pending
/// requests, and a served interrupt is vectored — the PC pushed at the
/// dropped stack pointer, the master enable cleared, the CPU woken —
/// with its sixteen service cycles passing too. The frame completes
/// exactly when line 144 completed during the step.
pub open spec fn spec_gb_step_rel(pre: Gb, post: Gb, frame: bool) -> bool {
    exists|c1: Cpu, m1: Mem, t: usize, mid: Mem, f1: bool|
        #![trigger spec_cycle_rel(pre.cpu, pre.mem, c1, m1, Ok::<usize, DecodeError>(t)), spec_gb_time_rel(m1, mid, t as nat, f1)]
        {
            &&& spec_cycle_rel(pre.cpu, pre.mem, c1, m1, Ok::<usize, DecodeError>(t))
            &&& spec_gb_time_rel(m1, mid, t as nat, f1)
            &&& (match spec_check_interupt(mid.map_holder, mid.ime).1 {
                None => post.cpu == c1 && post.mem == spec_check_aftermath(mid) && frame == f1,
                Some(vector) => exists|m3: Mem, f2: bool|
                    #![trigger spec_gb_time_rel(m3, post.mem, 16nat, f2)]
                    {
                        &&& post.cpu == (Cpu {
                            sp: spec_wrap16(c1.sp as int - 2),
                            pc: vector,
                            state: CPUState::Running,
                            ..c1
                        })
                        &&& !m3.ime
                        &&& m3.screen == mid.screen
                        &&& spec_write2_rel(
                            spec_check_aftermath(mid).map_holder,
                            m3.map_holder,
                            spec_wrap16(c1.sp as int - 2),
                            (c1.pc as int % 256) as u8,
                            (c1.pc as int / 256) as u8,
                        )
                        &&& spec_gb_time_rel(m3, post.mem, 16nat, f2)
                        &&& frame == (f1 || f2)
                    },
            })
        }
}

impl Gb {
    /// Wire a console around a cartridge image: the mapper holds exactly
    /// the given bytes with its chip selected by the header and bank one
    /// mapped, RAM and the frame buffer are zeroed, and no interrupt is
    /// enabled, pending or master-enabled. With a boot image the overlay
    /// holds exactly its bytes and the CPU starts at zero with a zeroed
    /// PPU; without one the CPU and display-control state start as the
    /// boot sequence leaves them. A cartridge whose header is short or
    /// unreadable is rejected with the reason.
    pub fn new(cartrage_rom: Vec<u8>, boot_rom: Option<Vec<u8>>) -> (r: Result<Gb, CartrageError>)
        ensures
            cartrage_rom@.len() < 0x149 ==> (r matches Err(e) && e
                == CartrageError::HeaderTooShort),
            cartrage_rom@.len() >= 0x149 ==> (match spec_cm_type(
                cartrage_rom@[0x147],
                cartrage_rom@[0x148],
            ) {
                Err(e) => r == Err::<Gb, _>(e),
                Ok((chip, _)) => r matches Ok(g) && ({
                    &&& spec_gb_console_wf(g)
                    &&& g.mem.map_holder.cartrage.rom@ == cartrage_rom@
                    &&& g.mem.map_holder.cartrage.cm_chip == chip
                    &&& g.mem.map_holder.cartrage.rom_page == 1
                    &&& !g.mem.ime
                    &&& g.mem.map_holder.interupt_enable == 0
                    &&& g.mem.map_holder.interupt_flag == 0
                    &&& (forall|i: int|
                        0 <= i < g.mem.screen@.len() ==> g.mem.screen@[i] == 0u8)
                    &&& (boot_rom matches Some(b) ==> !g.mem.map_holder.boot
                        && g.mem.map_holder.boot_rom.rom@ == b@ && g.cpu == crate::cpu::spec_cpu_initial()
                        && g.mem.map_holder.ppu.lcdc == 0 && g.mem.map_holder.ppu.ly == 0)
                    &&& (boot_rom matches None ==> g.mem.map_holder.boot && g.cpu.a == 0x01
                        && crate::cpu::spec_f_byte(g.cpu) == 0xB0 && g.cpu.b == 0x00 && g.cpu.c
                        == 0x13 && g.cpu.d == 0x00 && g.cpu.e == 0xD8 && g.cpu.h == 0x01
                        && g.cpu.l == 0x4D && g.cpu.sp == 0xFFFE && g.cpu.pc == 0x0100
                        && g.cpu.state == CPUState::Running && g.mem.map_holder.ppu.lcdc == 0x91
                        && g.mem.map_holder.ppu.ly == 0 && g.mem.map_holder.gbp.bgp == 0xFC
                        && g.mem.map_holder.gbp.obp0 == 0xFF && g.mem.map_holder.gbp.obp1 == 0xFF)
                }),
            }),
    {
        let cart = match CartrageMapper::new(cartrage_rom) {
            Err(e) => {
                return Err(e);
            },
            Ok(c) => c,
        };
        match boot_rom {
            Some(boot) => Ok(
                Gb { cpu: Cpu::new(), mem: Mem::new_gb(GbMapper::new_with_boot_rom(boot, cart)) },
            ),
            None => Ok(Gb { cpu: Cpu::new_after_boot(), mem: Mem::new_gb(GbMapper::new(cart)) }),
        }
    }

    /// Let `time` cycles pass on the bus — the timer ticks and the PPU
    /// advances — and render every completed visible scanline into its
    /// region of the frame buffer. Reports whether the frame completed:
    /// exactly when line 144 — the first V-blank line — was among the
    /// completed rows.
    pub fn time_passes(&mut self, time: usize) -> (frame: bool)
        requires
            spec_gb_console_wf(*old(self)),
            time <= 100_000_000,
        ensures
            spec_gb_console_wf(*final(self)),
            final(self).cpu == old(self).cpu,
            spec_gb_time_rel(old(self).mem, final(self).mem, time as nat, frame),
    {
        let rows_opt = self.mem.time_passes(time);
        let ghost m1 = self.mem;
        let ghost drained = spec_drain(
            old(self).mem.map_holder.ppu.ly,
            (old(self).mem.map_holder.ppu.lx + time) as nat,
        ).0;
        let mut frame = false;
        match rows_opt {
            None => {
                proof {
                    assert(spec_rows_rendered(
                        self.mem.map_holder,
                        drained,
                        old(self).mem.screen@,
                        self.mem.screen@,
                    ));
                }
                false
            },
            Some(rows) => {
                let mut i: usize = 0;
                while i < rows.len()
                    invariant
                        i <= rows@.len(),
                        rows@ == drained,
                        spec_mem_wf(self.mem),
                        self.cpu == old(self).cpu,
                        self.mem.map_holder == m1.map_holder,
                        self.mem.ime == m1.ime,
                        self.mem.screen@.len() == m1.screen@.len(),
                        forall|k: int|
                            0 <= k < self.mem.screen@.len() && !spec_rows_cover(
                                drained,
                                i as int,
                                k,
                            ) ==> self.mem.screen@[k] == m1.screen@[k],
                        forall|j: int, n: int|
                            0 <= j < i && j < drained.len() && (#[trigger] drained[j]) < 144 && 0
                                <= n < 160 ==> ({
                                let shade = #[trigger] crate::render::spec_composed_shade(
                                    m1.map_holder,
                                    drained[j],
                                    n,
                                );
                                &&& self.mem.screen@[480 * (drained[j] as int) + 3 * n] == shade
                                &&& self.mem.screen@[480 * (drained[j] as int) + 3 * n + 1]
                                    == shade
                                &&& self.mem.screen@[480 * (drained[j] as int) + 3 * n + 2]
                                    == shade
                            }),
                        frame == exists|k: int| 0 <= k < i && drained[k] == 144u8,
                    decreases rows@.len() - i,
                {
                    let ghost pre_mem = self.mem;
                    let ghost pre_screen = self.mem.screen@;
                    let row = rows[i];
                    if self.mem.render(row as usize) {
                        frame = true;
                    }
                    proof {
                        assert forall|k: int|
                            0 <= k < self.mem.screen@.len() && !spec_rows_cover(
                                drained,
                                i + 1 as int,
                                k,
                            ) implies self.mem.screen@[k] == m1.screen@[k] by {
                            assert(!spec_rows_cover(drained, i as int, k));
                            assert(!spec_in_row_region(drained[i as int], k));
                        }
                        assert forall|j: int, n: int|
                            0 <= j < i + 1 && j < drained.len() && (#[trigger] drained[j]) < 144
                                && 0 <= n < 160 implies ({
                            let shade = #[trigger] crate::render::spec_composed_shade(
                                m1.map_holder,
                                drained[j],
                                n,
                            );
                            &&& self.mem.screen@[480 * (drained[j] as int) + 3 * n] == shade
                            &&& self.mem.screen@[480 * (drained[j] as int) + 3 * n + 1] == shade
                            &&& self.mem.screen@[480 * (drained[j] as int) + 3 * n + 2] == shade
                        }) by {
                            if j == i || drained[j] == drained[i as int] {
                                assert(drained[j] == row);
                                assert((row as usize) < 144);
                                assert((row as usize) as u8 == row);
                                assert(pre_mem.map_holder == m1.map_holder);
                                assert(self.mem.screen@[480 * (row as usize) + 3 * n]
                                    == crate::render::spec_composed_shade(
                                    pre_mem.map_holder,
                                    (row as usize) as u8,
                                    n,
                                ));
                                assert(self.mem.screen@[480 * (row as usize) + 3 * n + 1]
                                    == crate::render::spec_composed_shade(
                                    pre_mem.map_holder,
                                    (row as usize) as u8,
                                    n,
                                ));
                                assert(self.mem.screen@[480 * (row as usize) + 3 * n + 2]
                                    == crate::render::spec_composed_shade(
                                    pre_mem.map_holder,
                                    (row as usize) as u8,
                                    n,
                                ));
                            } else {
                                assert(480 * (drained[j] as int) + 3 * n + 2 < 480 * (drained[
                                    j
                                ] as int) + 480);
                                assert(self.mem.screen@[480 * (drained[j] as int) + 3 * n]
                                    == pre_screen[480 * (drained[j] as int) + 3 * n]);
                                assert(self.mem.screen@[480 * (drained[j] as int) + 3 * n + 1]
                                    == pre_screen[480 * (drained[j] as int) + 3 * n + 1]);
                                assert(self.mem.screen@[480 * (drained[j] as int) + 3 * n + 2]
                                    == pre_screen[480 * (drained[j] as int) + 3 * n + 2]);
                            }
                        }
                    }
                    i = i + 1;
                }
                proof {
                    assert(frame == drained.contains(144u8));
                    assert(spec_rows_rendered(
                        self.mem.map_holder,
                        drained,
                        m1.screen@,
                        self.mem.screen@,
                    ));
                }
                frame
            },
        }
    }

    /// One step of the machine: the CPU executes (or idles, halted or
    /// stopped), the elapsed cycles tick the timer and PPU with every
    /// completed scanline rendered, and one pending enabled interrupt is
    /// serviced, its own cost passing too. Reports whether the frame
    /// completed during the step. The step fails only when a running CPU
    /// sits on an opcode the instruction table leaves undefined, and
    /// then surfaces that fatal decode error.
    pub fn step(&mut self) -> (r: Result<bool, DecodeError>)
        requires
            spec_gb_console_wf(*old(self)),
        ensures
            r matches Ok(_) ==> spec_gb_console_wf(*final(self)),
            r matches Ok(frame) ==> spec_gb_step_rel(*old(self), *final(self), frame),
            r matches Err(e) ==> old(self).cpu.state == CPUState::Running
                && crate::decode::spec_decode_at(old(self).mem.map_holder, old(self).cpu.pc)
                == None::<(crate::decode::OpCode, crate::decode::Op, u16, usize)> && e == (
            DecodeError {
                opcode: spec_load_8(old(self).mem.map_holder, old(self).cpu.pc),
                addr: old(self).cpu.pc,
            }),
            old(self).cpu.state != CPUState::Running ==> r matches Ok(_),
    {
        let time = match self.cpu.cycle(&mut self.mem) {
            Err(e) => {
                return Err(e);
            },
            Ok(t) => t,
        };
        let ghost c1 = self.cpu;
        let ghost m1 = self.mem;
        proof {
            if old(self).cpu.state == CPUState::Running {
                crate::cpu::lemma_decode_wf(
                    spec_load_8(old(self).mem.map_holder, old(self).cpu.pc),
                    spec_load_8(
                        old(self).mem.map_holder,
                        ((old(self).cpu.pc as int + 1) % 0x10000) as u16,
                    ),
                    spec_load_8(
                        old(self).mem.map_holder,
                        ((old(self).cpu.pc as int + 2) % 0x10000) as u16,
                    ),
                );
            }
            assert(time <= 100);
        }
        let mut frame = self.time_passes(time);
        let ghost mid = self.mem;
        let ghost f1 = frame;
        match self.mem.check_interupt() {
            Some(vector) => {
                proof {
                    assert(self.mem == spec_check_aftermath(mid));
                    assert(vector == spec_check_interupt(mid.map_holder, mid.ime).1.unwrap());
                }
                self.cpu.handle_interupt(vector, &mut self.mem);
                if self.time_passes(16) {
                    frame = true;
                }
            },
            None => {
                proof {
                    assert(self.mem == spec_check_aftermath(mid));
                }
            },
        }
        proof {
            assert(spec_cycle_rel(
                old(self).cpu,
                old(self).mem,
                c1,
                m1,
                Ok::<usize, DecodeError>(time),
            ));
            assert(spec_gb_time_rel(m1, mid, time as nat, f1));
            assert(spec_gb_step_rel(*old(self), Gb { cpu: self.cpu, mem: self.mem }, frame));
        }
        Ok(frame)
    }
}

} // verus!
