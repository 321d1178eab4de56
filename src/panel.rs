//! The panel driver core: framebuffer, scan state and the row sequencer.
//!
//! A flush is a state machine. `start_flush` and `resume` each return the
//! next hardware action; the caller performs it and reports through `resume`
//! whether it succeeded. Every pass blanks the output, sends the scan buffer,
//! pulses the latch, selects the row group and shows the output again, so the
//! output is dark from before the latch pulse until after the row change.

use vstd::prelude::*;
use crate::Error;
use crate::geometry::Geometry;
use crate::geometry::Tiling;
use crate::framebuffer::{draw_all, with_pixel};
use crate::scan::{fill_scan_cache, lemma_uniform_frame_scan, scan_cache, ScanOrder};

verus! {

/// Scan passes in one frame: the panel shows one row in four at a time.
pub const PASSES: u8 = 4;

/// How output is suppressed while the rows change.
#[derive(Clone, Copy, Debug, PartialEq, Eq)]
pub enum Brightness {
    /// A duty-cycle actuator: fully off to blank, then this fraction of
    /// 65535 to show.
    Duty(u16),
    /// A digital enable line: low to blank, high to show.
    EnableLine,
}

/// The step of a flush whose outcome the sequencer waits for.
#[derive(Clone, Copy, Debug, PartialEq, Eq)]
pub enum Stage {
    /// No flush is under way.
    Idle,
    /// The output is being blanked.
    Blank,
    /// The scan buffer is being sent.
    Transmit,
    /// The latch line is going high.
    LatchHigh,
    /// The latch line is going low.
    LatchLow,
    /// Row-address line A is being set.
    RowA,
    /// Row-address line B is being set.
    RowB,
    /// The output is being shown again.
    Unblank,
}

/// A hardware call that the caller is to make next.
#[derive(Clone, Copy, Debug, PartialEq, Eq)]
pub enum Action {
    /// Set the brightness actuator fully off.
    DutyOff,
    /// Set the brightness actuator to this fraction of 65535.
    Duty(u16),
    /// Drive the enable line high (`true`) or low.
    Enable(bool),
    /// Send the whole scan buffer over the bus.
    Transmit,
    /// Drive the latch line high (`true`) or low.
    Latch(bool),
    /// Drive row-address line A high (`true`) or low.
    RowA(bool),
    /// Drive row-address line B high (`true`) or low.
    RowB(bool),
    /// The flush is complete.
    Finished,
    /// The flush stopped on this fault.
    Failed(Error),
}

/// The mathematical model of a panel driver.
pub struct PanelState {
    pub tiling: Tiling,
    pub frame: Seq<u8>,
    pub cache: Seq<u8>,
    pub phase: nat,
    pub order: ScanOrder,
    pub brightness: Brightness,
    pub stage: Stage,
    pub pass: nat,
}

impl PanelState {
    pub open spec fn inv(self) -> bool {
        &&& self.tiling.valid()
        &&& self.frame.len() == self.tiling.frame_len()
        &&& self.cache.len() == 4 * self.tiling.stride()
        &&& self.phase < 4
        &&& self.pass < PASSES
    }
}

pub open spec fn next_phase(phase: nat) -> nat {
    (phase + 1) % 4
}

pub open spec fn blank_action(b: Brightness) -> Action {
    match b {
        Brightness::Duty(_) => Action::DutyOff,
        Brightness::EnableLine => Action::Enable(false),
    }
}

pub open spec fn unblank_action(b: Brightness) -> Action {
    match b {
        Brightness::Duty(level) => Action::Duty(level),
        Brightness::EnableLine => Action::Enable(true),
    }
}

/// The action that a stage stands for; the row lines carry bit 0 (A) and
/// bit 1 (B) of the phase.
pub open spec fn stage_action(stage: Stage, phase: nat, b: Brightness) -> Action {
    match stage {
        Stage::Idle => Action::Finished,
        Stage::Blank => blank_action(b),
        Stage::Transmit => Action::Transmit,
        Stage::LatchHigh => Action::Latch(true),
        Stage::LatchLow => Action::Latch(false),
        Stage::RowA => Action::RowA(phase % 2 == 1),
        Stage::RowB => Action::RowB(phase / 2 == 1),
        Stage::Unblank => unblank_action(b),
    }
}

/// The fault that a failed stage reports.
pub open spec fn stage_error(stage: Stage, b: Brightness) -> Error {
    match stage {
        Stage::Transmit => Error::Spi,
        Stage::Blank | Stage::Unblank => match b {
            Brightness::Duty(_) => Error::Pwm,
            Brightness::EnableLine => Error::Digital,
        },
        _ => Error::Digital,
    }
}

/// The stage and pass that follow a successful stage.
pub open spec fn next_stage(stage: Stage, pass: nat) -> (Stage, nat) {
    match stage {
        Stage::Idle => (Stage::Idle, pass),
        Stage::Blank => (Stage::Transmit, pass),
        Stage::Transmit => (Stage::LatchHigh, pass),
        Stage::LatchHigh => (Stage::LatchLow, pass),
        Stage::LatchLow => (Stage::RowA, pass),
        Stage::RowA => (Stage::RowB, pass),
        Stage::RowB => (Stage::Unblank, pass),
        Stage::Unblank => if pass + 1 < PASSES {
            (Stage::Blank, pass + 1)
        } else {
            (Stage::Idle, 0)
        },
    }
}

/// The state after the pending action succeeded (`ok`) or failed. A failure
/// ends the flush; the phase moves on once the row lines are set.
pub open spec fn step(s: PanelState, ok: bool) -> PanelState {
    if s.stage is Idle {
        s
    } else if !ok {
        PanelState { stage: Stage::Idle, pass: 0, ..s }
    } else {
        let (stage, pass) = next_stage(s.stage, s.pass);
        let phase = if s.stage is RowB {
            next_phase(s.phase)
        } else {
            s.phase
        };
        let cache = if stage is Transmit {
            scan_cache(s.frame, s.tiling.stride(), phase, s.order)
        } else {
            s.cache
        };
        PanelState { stage, pass, phase, cache, ..s }
    }
}

/// The action that `resume` returns in state `s` on outcome `ok`.
pub open spec fn step_action(s: PanelState, ok: bool) -> Action {
    if s.stage is Idle {
        Action::Finished
    } else if !ok {
        Action::Failed(stage_error(s.stage, s.brightness))
    } else {
        stage_action(step(s, true).stage, step(s, true).phase, s.brightness)
    }
}

/// The state when a flush begins: the first pass is about to blank.
pub open spec fn flush_started(s: PanelState) -> PanelState {
    PanelState { stage: Stage::Blank, pass: 0, ..s }
}

/// The state after `n` actions in a row succeeded.
pub open spec fn run(s: PanelState, n: nat) -> PanelState
    decreases n,
{
    if n == 0 {
        s
    } else {
        run(step(s, true), (n - 1) as nat)
    }
}

/// Before a new pass, starts a flush if none is under way.
pub open spec fn begin_pass(s: PanelState) -> PanelState {
    if s.stage is Idle {
        flush_started(s)
    } else {
        s
    }
}

/// The state after `n` whole scan passes that all succeeded, each begun
/// with `begin_pass`.
pub open spec fn passes(s: PanelState, n: nat) -> PanelState
    decreases n,
{
    if n == 0 {
        s
    } else {
        run(begin_pass(passes(s, (n - 1) as nat)), 7)
    }
}

proof fn lemma_run_add(s: PanelState, a: nat, b: nat)
    ensures
        run(run(s, a), b) == run(s, a + b),
    decreases a,
{
    if a > 0 {
        lemma_run_add(step(s, true), (a - 1) as nat, b);
    }
}

/// One scan pass: seven successful actions from blanking take the sequencer
/// through sending the scan buffer of the current phase to the next phase,
/// and on to the next pass or, after the last, to the end of the flush.
proof fn lemma_one_pass(s: PanelState)
    requires
        s.inv(),
        s.stage is Blank,
    ensures
        run(s, 1).stage is Transmit,
        run(s, 1).phase == s.phase,
        run(s, 1).cache == scan_cache(s.frame, s.tiling.stride(), s.phase, s.order),
        run(s, 7).inv(),
        run(s, 7).phase == next_phase(s.phase),
        run(s, 7).stage == (if s.pass + 1 < PASSES {
            Stage::Blank
        } else {
            Stage::Idle
        }),
        run(s, 7).pass == (if s.pass + 1 < PASSES {
            s.pass + 1
        } else {
            0
        }),
        run(s, 7).frame == s.frame,
        run(s, 7).tiling == s.tiling,
        run(s, 7).order == s.order,
        run(s, 7).brightness == s.brightness,
{
    reveal_with_fuel(run, 8);
}

/// Within a pass, once the output is blank, the actions come in this order:
/// the transfer, the latch pulse high then low, row lines A and B from bits
/// 0 and 1 of the phase, and only then unblanking; so the output is dark
/// through the latch pulse and the row change.
pub proof fn lemma_pass_actions(s: PanelState)
    requires
        s.inv(),
        s.stage is Blank,
    ensures
        step_action(run(s, 0), true) == Action::Transmit,
        step_action(run(s, 1), true) == Action::Latch(true),
        step_action(run(s, 2), true) == Action::Latch(false),
        step_action(run(s, 3), true) == Action::RowA(s.phase % 2 == 1),
        step_action(run(s, 4), true) == Action::RowB(s.phase / 2 == 1),
        step_action(run(s, 5), true) == unblank_action(s.brightness),
{
    reveal_with_fuel(run, 7);
}

/// After `n` whole scan passes, each beginning a new flush when the last one
/// has finished, the phase has moved on by `n`, modulo 4, and the frame is
/// untouched.
pub proof fn lemma_phase_counts_passes(s: PanelState, n: nat)
    requires
        s.inv(),
        s.stage is Idle || s.stage is Blank,
    ensures
        passes(s, n).inv(),
        passes(s, n).stage is Idle || passes(s, n).stage is Blank,
        passes(s, n).phase == (s.phase + n) % 4,
        passes(s, n).frame == s.frame,
    decreases n,
{
    if n > 0 {
        lemma_phase_counts_passes(s, (n - 1) as nat);
        lemma_one_pass(begin_pass(passes(s, (n - 1) as nat)));
    }
}

proof fn lemma_flush_prefix(s: PanelState, k: nat)
    requires
        s.inv(),
        k < PASSES,
    ensures
        run(flush_started(s), 7 * k).inv(),
        run(flush_started(s), 7 * k).stage is Blank,
        run(flush_started(s), 7 * k).pass == k,
        run(flush_started(s), 7 * k).phase == (s.phase + k) % 4,
        run(flush_started(s), 7 * k).frame == s.frame,
        run(flush_started(s), 7 * k).tiling == s.tiling,
        run(flush_started(s), 7 * k).order == s.order,
        run(flush_started(s), 7 * k).brightness == s.brightness,
    decreases k,
{
    if k > 0 {
        let j = (k - 1) as nat;
        lemma_flush_prefix(s, j);
        lemma_one_pass(run(flush_started(s), 7 * j));
        lemma_run_add(flush_started(s), 7 * j, 7);
        assert(7 * j + 7 == 7 * k);
    }
}

/// A flush whose actions all succeed sends, in pass `k`, the scan buffer of
/// phase `phase + k` (modulo 4), and after its four passes ends idle, in the
/// phase it began in, with the frame untouched.
pub proof fn lemma_full_flush(s: PanelState, k: nat)
    requires
        s.inv(),
        k < PASSES,
    ensures
        run(flush_started(s), 7 * k + 1).stage is Transmit,
        run(flush_started(s), 7 * k + 1).cache == scan_cache(
            s.frame,
            s.tiling.stride(),
            (s.phase + k) % 4,
            s.order,
        ),
        run(flush_started(s), 28).inv(),
        run(flush_started(s), 28).stage is Idle,
        run(flush_started(s), 28).phase == s.phase,
        run(flush_started(s), 28).frame == s.frame,
{
    lemma_flush_prefix(s, k);
    lemma_one_pass(run(flush_started(s), 7 * k));
    lemma_run_add(flush_started(s), 7 * k, 1);
    lemma_flush_prefix(s, 3);
    lemma_one_pass(run(flush_started(s), 21));
    lemma_run_add(flush_started(s), 21, 7);
}

/// A flush on a frame whose bytes all hold one value sends four scan
/// buffers of that value alone: only set bits for an all-dark frame, only
/// clear bits for an all-lit one.
pub proof fn lemma_uniform_flush(s: PanelState, v: u8, k: nat)
    requires
        s.inv(),
        k < PASSES,
        forall|i: int| 0 <= i < s.frame.len() ==> s.frame[i] == v,
    ensures
        run(flush_started(s), 7 * k + 1).stage is Transmit,
        run(flush_started(s), 7 * k + 1).cache.len() == 4 * s.tiling.stride(),
        forall|j: int|
            0 <= j < 4 * s.tiling.stride() ==> #[trigger] run(flush_started(s), 7 * k + 1).cache[j]
                == v,
{
    lemma_full_flush(s, k);
    lemma_uniform_frame_scan(s.frame, s.tiling.stride(), (s.phase + k) % 4, s.order, v);
}

/// A bus failure in pass `k` of a flush stops it at once with the bus
/// fault, the phase having moved on once for each pass completed before it.
pub proof fn lemma_bus_failure(s: PanelState, k: nat)
    requires
        s.inv(),
        k < PASSES,
    ensures
        run(flush_started(s), 7 * k + 1).stage is Transmit,
        step_action(run(flush_started(s), 7 * k + 1), false) == Action::Failed(Error::Spi),
        step(run(flush_started(s), 7 * k + 1), false).stage is Idle,
        step(run(flush_started(s), 7 * k + 1), false).phase == (s.phase + k) % 4,
{
    lemma_flush_prefix(s, k);
    lemma_one_pass(run(flush_started(s), 7 * k));
    lemma_run_add(flush_started(s), 7 * k, 1);
}

/// A buffer of `len` bytes, each `v`.
fn filled(len: usize, v: u8) -> (r: Vec<u8>)
    ensures
        r@ == Seq::new(len as nat, |i: int| v),
{
    let mut r: Vec<u8> = Vec::with_capacity(len);
    let mut i: usize = 0;
    while i < len
        invariant
            i <= len,
            r@ == Seq::new(i as nat, |j: int| v),
        decreases len - i,
    {
        r.push(v);
        i = i + 1;
        assert(r@ =~= Seq::new(i as nat, |j: int| v));
    }
    r
}

/// A display of P10 panels: its framebuffer, the scan buffer and the
/// state of the row sequencer.
pub struct P10Led {
    geometry: Geometry,
    bitmap: Vec<u8>,
    cache: Vec<u8>,
    scan_row: u8,
    order: ScanOrder,
    brightness: Brightness,
    stage: Stage,
    pass: u8,
}

impl View for P10Led {
    type V = PanelState;

    closed spec fn view(&self) -> PanelState {
        PanelState {
            tiling: self.geometry@,
            frame: self.bitmap@,
            cache: self.cache@,
            phase: self.scan_row as nat,
            order: self.order,
            brightness: self.brightness,
            stage: self.stage,
            pass: self.pass as nat,
        }
    }
}

impl P10Led {
    pub open spec fn wf(&self) -> bool {
        self@.inv()
    }

    /// A display of the given grid with every pixel dark, in phase 0 and
    /// with no flush under way.
    pub fn new(geometry: Geometry, order: ScanOrder, brightness: Brightness) -> (r: P10Led)
        requires
            geometry.wf(),
        ensures
            r.wf(),
            r@.tiling == geometry@,
            r@.frame == Seq::new(geometry@.frame_len(), |i: int| 0xffu8),
            r@.cache == Seq::new(4 * geometry@.stride(), |i: int| 0xffu8),
            r@.phase == 0,
            r@.order == order,
            r@.brightness == brightness,
            r@.stage is Idle,
            r@.pass == 0,
    {
        let len = geometry.bitmap_len();
        let stride = geometry.unified_width_bytes();
        P10Led {
            geometry,
            bitmap: filled(len, 0xff),
            cache: filled(4 * stride, 0xff),
            scan_row: 0,
            order,
            brightness,
            stage: Stage::Idle,
            pass: 0,
        }
    }

    /// Bytes in one pixel row of the display.
    pub fn row_width_bytes(&self) -> (r: usize)
        requires
            self.wf(),
        ensures
            r == self@.tiling.row_width_bytes(),
    {
        self.geometry.row_width_bytes()
    }

    /// Bytes in one framebuffer row, which holds that pixel row of every
    /// panel; a scan buffer holds four such rows.
    pub fn unified_width_bytes(&self) -> (r: usize)
        requires
            self.wf(),
        ensures
            r == self@.tiling.stride(),
    {
        self.geometry.unified_width_bytes()
    }

    /// Lights (`on`) or darkens pixel `(x, y)`; a pixel off the display is
    /// ignored.
    pub fn set_pixel(&mut self, x: i32, y: i32, on: bool)
        requires
            old(self).wf(),
        ensures
            final(self).wf(),
            final(self)@ == (PanelState {
                frame: with_pixel(old(self)@.tiling, old(self)@.frame, x as int, y as int, on),
                ..old(self)@
            }),
            !old(self)@.tiling.on_panel(x as int, y as int) ==> final(self)@ == old(self)@,
    {
        if self.geometry.contains(x, y) {
            let i = self.geometry.pixel_to_bitmap_index(x as usize, y as usize);
            let mask = Geometry::pixel_to_bitmask(x as usize);
            let b = self.bitmap[i];
            if on {
                self.bitmap.set(i, b & !mask);
            } else {
                self.bitmap.set(i, b | mask);
            }
        }
    }

    /// Draws `pixels` in order, each a column, a row and whether it is lit;
    /// pixels off the display are ignored.
    pub fn draw_iter(&mut self, pixels: &[(i32, i32, bool)])
        requires
            old(self).wf(),
        ensures
            final(self).wf(),
            final(self)@ == (PanelState {
                frame: draw_all(old(self)@.tiling, old(self)@.frame, pixels@),
                ..old(self)@
            }),
    {
        let mut i: usize = 0;
        while i < pixels.len()
            invariant
                i <= pixels.len(),
                self.wf(),
                self@ == (PanelState {
                    frame: draw_all(old(self)@.tiling, old(self)@.frame, pixels@.take(i as int)),
                    ..old(self)@
                }),
            decreases pixels.len() - i,
        {
            let (x, y, on) = pixels[i];
            self.set_pixel(x, y, on);
            assert(pixels@.take(i + 1).drop_last() =~= pixels@.take(i as int));
            i = i + 1;
        }
        assert(pixels@.take(i as int) =~= pixels@);
    }

    /// Begins a flush, abandoning any flush under way, and returns its first
    /// action: blanking the output.
    pub fn start_flush(&mut self) -> (r: Action)
        requires
            old(self).wf(),
        ensures
            final(self).wf(),
            final(self)@ == flush_started(old(self)@),
            r == blank_action(old(self)@.brightness),
    {
        self.stage = Stage::Blank;
        self.pass = 0;
        self.blank_action()
    }

    /// Takes the outcome of the last action (`ok` when it succeeded) and
    /// returns the next one. A failure ends the flush with the fault of that
    /// action; after the last pass, or with no flush under way, the answer
    /// is `Finished`.
    pub fn resume(&mut self, ok: bool) -> (r: Action)
        requires
            old(self).wf(),
        ensures
            final(self).wf(),
            final(self)@ == step(old(self)@, ok),
            r == step_action(old(self)@, ok),
    {
        if let Stage::Idle = self.stage {
            return Action::Finished;
        }
        if !ok {
            let e = self.stage_error();
            self.stage = Stage::Idle;
            self.pass = 0;
            return Action::Failed(e);
        }
        match self.stage {
            Stage::Blank => {
                self.fill_cache();
                self.stage = Stage::Transmit;
                Action::Transmit
            },
            Stage::Transmit => {
                self.stage = Stage::LatchHigh;
                Action::Latch(true)
            },
            Stage::LatchHigh => {
                self.stage = Stage::LatchLow;
                Action::Latch(false)
            },
            Stage::LatchLow => {
                self.stage = Stage::RowA;
                Action::RowA(self.scan_row % 2 == 1)
            },
            Stage::RowA => {
                self.stage = Stage::RowB;
                Action::RowB(self.scan_row / 2 == 1)
            },
            Stage::RowB => {
                self.scan_row = (self.scan_row + 1) % 4;
                self.stage = Stage::Unblank;
                self.unblank_action()
            },
            Stage::Unblank => {
                if self.pass + 1 < PASSES {
                    self.pass = self.pass + 1;
                    self.stage = Stage::Blank;
                    self.blank_action()
                } else {
                    self.pass = 0;
                    self.stage = Stage::Idle;
                    Action::Finished
                }
            },
            Stage::Idle => Action::Finished,
        }
    }

    fn blank_action(&self) -> (r: Action)
        ensures
            r == blank_action(self@.brightness),
    {
        match self.brightness {
            Brightness::Duty(_) => Action::DutyOff,
            Brightness::EnableLine => Action::Enable(false),
        }
    }

    fn unblank_action(&self) -> (r: Action)
        ensures
            r == unblank_action(self@.brightness),
    {
        match self.brightness {
            Brightness::Duty(level) => Action::Duty(level),
            Brightness::EnableLine => Action::Enable(true),
        }
    }

    fn stage_error(&self) -> (r: Error)
        ensures
            r == stage_error(self@.stage, self@.brightness),
    {
        match self.stage {
            Stage::Transmit => Error::Spi,
            Stage::Blank | Stage::Unblank => match self.brightness {
                Brightness::Duty(_) => Error::Pwm,
                Brightness::EnableLine => Error::Digital,
            },
            _ => Error::Digital,
        }
    }

    /// Width and height of the display in pixels.
    pub fn size(&self) -> (r: (u32, u32))
        requires
            self.wf(),
        ensures
            r.0 == self@.tiling.width(),
            r.1 == self@.tiling.height(),
    {
        (self.geometry.width(), self.geometry.height())
    }

    pub fn geometry(&self) -> (r: &Geometry)
        ensures
            r@ == self@.tiling,
    {
        &self.geometry
    }

    /// The framebuffer's bytes.
    pub fn bitmap(&self) -> (r: &[u8])
        ensures
            r@ == self@.frame,
    {
        self.bitmap.as_slice()
    }

    /// The scan buffer, which the `Transmit` action sends.
    pub fn cache(&self) -> (r: &[u8])
        ensures
            r@ == self@.cache,
    {
        self.cache.as_slice()
    }

    /// The scan phase: which of the four interleaved row groups is next.
    pub fn scan_row(&self) -> (r: u8)
        ensures
            r == self@.phase,
    {
        self.scan_row
    }

    pub fn stage(&self) -> (r: Stage)
        ensures
            r == self@.stage,
    {
        self.stage
    }

    pub fn brightness(&self) -> (r: Brightness)
        ensures
            r == self@.brightness,
    {
        self.brightness
    }

    /// Changes how output is shown from the next unblanking on.
    pub fn set_brightness(&mut self, brightness: Brightness)
        requires
            old(self).wf(),
        ensures
            final(self).wf(),
            final(self)@ == (PanelState { brightness, ..old(self)@ }),
    {
        self.brightness = brightness;
    }

    /// Rebuilds the scan buffer for the current phase.
    fn fill_cache(&mut self)
        requires
            old(self).wf(),
        ensures
            final(self).wf(),
            final(self)@ == (PanelState {
                cache: scan_cache(
                    old(self)@.frame,
                    old(self)@.tiling.stride(),
                    old(self)@.phase,
                    old(self)@.order,
                ),
                ..old(self)@
            }),
    {
        let stride = self.geometry.unified_width_bytes();
        fill_scan_cache(&mut self.cache, &self.bitmap, stride, self.scan_row, self.order);
    }
}

} // verus!
