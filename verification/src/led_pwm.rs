//! Waveform controller: the PWM writes that make up each light operation.
//!
//! Nothing here touches hardware. Every operation is a plan of
//! `(period, pulse width)` writes; a [`Waveform`] walks a plan one write at a
//! time and stops at the first write that the driver rejects.

use vstd::prelude::*;

verus! {

/// GPIO line that carries the PWM signal.
pub const GPIO_PWM: u8 = 26;

/// PWM period in microseconds: 10 ms, that is 100 Hz.
pub const PERIOD_US: u64 = 10000;

/// Shortest pulse of a fade, in microseconds.
pub const PULSE_MIN_US: u64 = 0;

/// Longest pulse of a fade, in microseconds: one millisecond short of the period.
pub const PULSE_MAX_US: u64 = 9000;

/// Distance between two consecutive pulse widths of a fade, in microseconds.
pub const PULSE_STEP_US: u64 = 100;

/// Pause after each write of a fade, in milliseconds.
pub const STEP_PAUSE_MS: u64 = 30;

/// One write to the PWM line.
#[derive(Clone, Copy, Debug, PartialEq, Eq, Structural)]
pub struct PwmWrite {
    pub period_us: u64,
    pub pulse_width_us: u64,
}

/// Number of writes in a fade between `min` and `max`: one per multiple of
/// the step that fits in the range, none when the range is empty.
pub open spec fn ramp_len(min: u64, max: u64) -> nat {
    if min <= max {
        ((max - min) / 100 + 1) as nat
    } else {
        0
    }
}

/// The writes of a fade-in: `min`, `min + 100`, ... as long as `max` is not passed.
pub open spec fn rising_ramp(period: u64, min: u64, max: u64) -> Seq<PwmWrite> {
    Seq::new(
        ramp_len(min, max),
        |i: int| PwmWrite { period_us: period, pulse_width_us: (min + 100 * i) as u64 },
    )
}

/// The writes of a fade-out: `max`, `max - 100`, ... as long as `min` is not passed.
pub open spec fn falling_ramp(period: u64, min: u64, max: u64) -> Seq<PwmWrite> {
    Seq::new(
        ramp_len(min, max),
        |i: int| PwmWrite { period_us: period, pulse_width_us: (max - 100 * i) as u64 },
    )
}

/// The write that switches the light on at the given pulse width.
pub fn led_on(period: u64, pulse_width: u64) -> (write: PwmWrite)
    ensures
        write == (PwmWrite { period_us: period, pulse_width_us: pulse_width }),
{
    PwmWrite { period_us: period, pulse_width_us: pulse_width }
}

/// The write that switches the light off: a pulse of zero width.
pub fn led_off(period: u64) -> (write: PwmWrite)
    ensures
        write == (PwmWrite { period_us: period, pulse_width_us: 0 }),
{
    PwmWrite { period_us: period, pulse_width_us: 0 }
}

/// Plans a fade-in from `pulse_width_min` up to `pulse_width_max`.
pub fn fade_in(period: u64, pulse_width_min: u64, pulse_width_max: u64) -> (writes: Vec<PwmWrite>)
    ensures
        writes@ == rising_ramp(period, pulse_width_min, pulse_width_max),
{
    let mut writes: Vec<PwmWrite> = Vec::new();
    if pulse_width_min > pulse_width_max {
        return writes;
    }
    let mut pulse: u64 = pulse_width_min;
    loop
        invariant_except_break
            pulse_width_min <= pulse <= pulse_width_max,
            pulse == pulse_width_min + 100 * writes@.len(),
            forall|i: int|
                0 <= i < writes@.len() ==> writes@[i] == (PwmWrite {
                    period_us: period,
                    pulse_width_us: (pulse_width_min + 100 * i) as u64,
                }),
        ensures
            writes@ == rising_ramp(period, pulse_width_min, pulse_width_max),
        decreases pulse_width_max - pulse,
    {
        writes.push(led_on(period, pulse));
        if pulse_width_max - pulse < PULSE_STEP_US {
            break;
        }
        pulse = pulse + PULSE_STEP_US;
    }
    writes
}

/// Plans a fade-out from `pulse_width_max` down to `pulse_width_min`.
pub fn fade_out(period: u64, pulse_width_min: u64, pulse_width_max: u64) -> (writes: Vec<PwmWrite>)
    ensures
        writes@ == falling_ramp(period, pulse_width_min, pulse_width_max),
{
    let mut writes: Vec<PwmWrite> = Vec::new();
    if pulse_width_min > pulse_width_max {
        return writes;
    }
    let mut pulse: u64 = pulse_width_max;
    loop
        invariant_except_break
            pulse_width_min <= pulse <= pulse_width_max,
            pulse == pulse_width_max - 100 * writes@.len(),
            forall|i: int|
                0 <= i < writes@.len() ==> writes@[i] == (PwmWrite {
                    period_us: period,
                    pulse_width_us: (pulse_width_max - 100 * i) as u64,
                }),
        ensures
            writes@ == falling_ramp(period, pulse_width_min, pulse_width_max),
        decreases pulse - pulse_width_min,
    {
        writes.push(led_on(period, pulse));
        if pulse - pulse_width_min < PULSE_STEP_US {
            break;
        }
        pulse = pulse - PULSE_STEP_US;
    }
    writes
}

/// Where a waveform stands in its plan.
#[derive(Clone, Copy, Debug, PartialEq, Eq, Structural)]
pub enum WavePhase {
    /// The write at this position of the plan is due.
    Writing(usize),
    /// The write at this position succeeded and the pause after it is due.
    Pausing(usize),
    /// Every write of the plan succeeded.
    Finished,
    /// The write at this position was rejected; the rest of the plan is abandoned.
    Failed(usize),
}

/// What whoever drives a waveform has to do next.
#[derive(Clone, Copy, Debug, PartialEq, Eq, Structural)]
pub enum WaveAction {
    /// Send this write to the PWM line, then report whether it succeeded.
    Write(PwmWrite),
    /// Wait this many milliseconds, then report back.
    Pause(u64),
    /// Nothing is left to do: the operation succeeded.
    Finished,
    /// Nothing is left to do: the operation failed.
    Failed,
}

/// Mathematical model of a [`Waveform`].
pub struct WaveState {
    /// The writes to make, in order.
    pub plan: Seq<PwmWrite>,
    /// Pause after each successful write; zero for none.
    pub pause_ms: u64,
    pub phase: WavePhase,
}

impl WaveState {
    /// A waveform that has not made any write yet.
    pub open spec fn start(plan: Seq<PwmWrite>, pause_ms: u64) -> WaveState {
        WaveState {
            plan,
            pause_ms,
            phase: if plan.len() == 0 {
                WavePhase::Finished
            } else {
                WavePhase::Writing(0)
            },
        }
    }

    /// The phase points into the plan, a pause is only due where the plan
    /// has one, and the plan is no longer than a vector can be.
    pub open spec fn wf(self) -> bool {
        &&& self.plan.len() <= usize::MAX
        &&& match self.phase {
            WavePhase::Writing(i) => i < self.plan.len(),
            WavePhase::Pausing(i) => i < self.plan.len() && self.pause_ms > 0,
            WavePhase::Finished => true,
            WavePhase::Failed(i) => i < self.plan.len(),
        }
    }

    /// The phase that follows the write at position `i` once it and its pause are over.
    pub open spec fn after(self, i: usize) -> WavePhase {
        if i + 1 < self.plan.len() {
            WavePhase::Writing((i + 1) as usize)
        } else {
            WavePhase::Finished
        }
    }

    /// What is due in this state.
    pub open spec fn action(self) -> WaveAction {
        match self.phase {
            WavePhase::Writing(i) => WaveAction::Write(self.plan[i as int]),
            WavePhase::Pausing(_) => WaveAction::Pause(self.pause_ms),
            WavePhase::Finished => WaveAction::Finished,
            WavePhase::Failed(_) => WaveAction::Failed,
        }
    }

    /// The state after the due action was carried out. `ok` says whether a
    /// write succeeded; a pause cannot fail, and a waveform that is over stays
    /// as it is.
    pub open spec fn complete(self, ok: bool) -> WaveState {
        let phase = match self.phase {
            WavePhase::Writing(i) => if !ok {
                WavePhase::Failed(i)
            } else if self.pause_ms > 0 {
                WavePhase::Pausing(i)
            } else {
                self.after(i)
            },
            WavePhase::Pausing(i) => self.after(i),
            WavePhase::Finished => WavePhase::Finished,
            WavePhase::Failed(i) => WavePhase::Failed(i),
        };
        WaveState { plan: self.plan, pause_ms: self.pause_ms, phase }
    }

    /// Whether the waveform is over, one way or the other.
    pub open spec fn is_over(self) -> bool {
        self.phase is Finished || self.phase is Failed
    }

    /// The state after `steps` more actions were carried out and each one succeeded.
    pub open spec fn run(self, steps: nat) -> WaveState
        decreases steps,
    {
        if steps == 0 {
            self
        } else {
            self.complete(true).run((steps - 1) as nat)
        }
    }

    /// The writes that the waveform asks for in its next `steps` actions,
    /// while each one succeeds.
    pub open spec fn writes_ahead(self, steps: nat) -> Seq<PwmWrite>
        decreases steps,
    {
        if steps == 0 {
            Seq::empty()
        } else {
            match self.action() {
                WaveAction::Write(write) => seq![write] + self.complete(true).writes_ahead(
                    (steps - 1) as nat,
                ),
                _ => self.complete(true).writes_ahead((steps - 1) as nat),
            }
        }
    }
}

/// One light operation in progress: a plan of writes and the position in it.
///
/// The waveform decides; its driver acts. The driver asks for the
/// [`next_action`](Waveform::next_action), carries it out on the hardware or
/// the clock, and reports the outcome with [`complete`](Waveform::complete),
/// until the action is `Finished` or `Failed`.
#[derive(Debug)]
pub struct Waveform {
    writes: Vec<PwmWrite>,
    pause_ms: u64,
    phase: WavePhase,
}

impl View for Waveform {
    type V = WaveState;

    closed spec fn view(&self) -> WaveState {
        WaveState { plan: self.writes@, pause_ms: self.pause_ms, phase: self.phase }
    }
}

impl Waveform {
    #[verifier::type_invariant]
    spec fn inv(self) -> bool {
        self@.wf()
    }

    /// A waveform that will make `writes` in order, pausing `pause_ms`
    /// milliseconds after each one that succeeds.
    pub fn new(writes: Vec<PwmWrite>, pause_ms: u64) -> (wave: Waveform)
        ensures
            wave@ == WaveState::start(writes@, pause_ms),
    {
        let phase = if writes.len() == 0 {
            WavePhase::Finished
        } else {
            WavePhase::Writing(0)
        };
        Waveform { writes, pause_ms, phase }
    }

    /// Where the waveform stands.
    pub fn phase(&self) -> (phase: WavePhase)
        ensures
            phase == self@.phase,
            self@.wf(),
    {
        proof {
            use_type_invariant(self);
        }
        self.phase
    }

    /// Number of writes in the plan.
    pub fn plan_len(&self) -> (len: usize)
        ensures
            len == self@.plan.len(),
    {
        self.writes.len()
    }

    /// The write at position `index` of the plan, if the plan is that long.
    pub fn planned(&self, index: usize) -> (write: Option<PwmWrite>)
        ensures
            write == if index < self@.plan.len() {
                Some(self@.plan[index as int])
            } else {
                None
            },
    {
        if index < self.writes.len() {
            Some(self.writes[index])
        } else {
            None
        }
    }

    /// Whether the waveform is over, one way or the other.
    pub fn is_over(&self) -> (over: bool)
        ensures
            over == self@.is_over(),
    {
        match self.phase {
            WavePhase::Finished => true,
            WavePhase::Failed(_) => true,
            _ => false,
        }
    }

    /// What the driver has to do next.
    pub fn next_action(&self) -> (action: WaveAction)
        ensures
            action == self@.action(),
            self@.wf(),
    {
        proof {
            use_type_invariant(self);
        }
        match self.phase {
            WavePhase::Writing(i) => WaveAction::Write(self.writes[i]),
            WavePhase::Pausing(_) => WaveAction::Pause(self.pause_ms),
            WavePhase::Finished => WaveAction::Finished,
            WavePhase::Failed(_) => WaveAction::Failed,
        }
    }

    /// Records that the due action was carried out, and moves on.
    ///
    /// A rejected write (`ok == false`) ends the waveform as `Failed`; the
    /// remaining writes are never asked for.
    pub fn complete(&mut self, ok: bool)
        ensures
            final(self)@ == old(self)@.complete(ok),
            final(self)@.wf(),
    {
        proof {
            use_type_invariant(&*self);
        }
        let len = self.writes.len();
        let next = match self.phase {
            WavePhase::Writing(i) => {
                if !ok {
                    WavePhase::Failed(i)
                } else if self.pause_ms > 0 {
                    WavePhase::Pausing(i)
                } else if i + 1 < len {
                    WavePhase::Writing(i + 1)
                } else {
                    WavePhase::Finished
                }
            },
            WavePhase::Pausing(i) => {
                if i + 1 < len {
                    WavePhase::Writing(i + 1)
                } else {
                    WavePhase::Finished
                }
            },
            WavePhase::Finished => WavePhase::Finished,
            WavePhase::Failed(i) => WavePhase::Failed(i),
        };
        self.phase = next;
    }
}

/// Model of the operation that shows a blinker phase: one write, full on or off, no pause.
pub open spec fn blinker_wave(state: bool) -> WaveState {
    WaveState::start(
        seq![
            PwmWrite {
                period_us: PERIOD_US,
                pulse_width_us: if state {
                    PULSE_MAX_US
                } else {
                    0
                },
            },
        ],
        0,
    )
}

/// Model of the operation that signals locking: a fade-out over the whole pulse range.
pub open spec fn lock_wave() -> WaveState {
    WaveState::start(falling_ramp(PERIOD_US, PULSE_MIN_US, PULSE_MAX_US), STEP_PAUSE_MS)
}

/// Model of the operation that signals unlocking: a fade-in over the whole pulse range.
pub open spec fn unlock_wave() -> WaveState {
    WaveState::start(rising_ramp(PERIOD_US, PULSE_MIN_US, PULSE_MAX_US), STEP_PAUSE_MS)
}

/// The operation that shows the blinker phase: the light goes full on for
/// `true` and off for `false`, in a single write.
pub fn blinker_led(state: bool) -> (wave: Waveform)
    ensures
        wave@ == blinker_wave(state),
{
    let write = if state {
        led_on(PERIOD_US, PULSE_MAX_US)
    } else {
        led_off(PERIOD_US)
    };
    let mut writes: Vec<PwmWrite> = Vec::new();
    writes.push(write);
    assert(writes@ =~= seq![write]);
    Waveform::new(writes, 0)
}

/// The operation that signals locking: the light fades out.
pub fn lock_light() -> (wave: Waveform)
    ensures
        wave@ == lock_wave(),
{
    Waveform::new(fade_out(PERIOD_US, PULSE_MIN_US, PULSE_MAX_US), STEP_PAUSE_MS)
}

/// The operation that signals unlocking: the light fades in.
pub fn unlock_light() -> (wave: Waveform)
    ensures
        wave@ == unlock_wave(),
{
    Waveform::new(fade_in(PERIOD_US, PULSE_MIN_US, PULSE_MAX_US), STEP_PAUSE_MS)
}

/// A fade-in rises strictly from write to write, starts at `min` and never
/// leaves the range from `min` to `max`.
pub proof fn law_fade_in_rises(period: u64, min: u64, max: u64)
    ensures
        forall|i: int, j: int|
            0 <= i < j < ramp_len(min, max) ==> (#[trigger] rising_ramp(
                period,
                min,
                max,
            )[i]).pulse_width_us < (#[trigger] rising_ramp(period, min, max)[j]).pulse_width_us,
        forall|i: int|
            0 <= i < ramp_len(min, max) ==> min <= (#[trigger] rising_ramp(
                period,
                min,
                max,
            )[i]).pulse_width_us <= max,
        min <= max ==> rising_ramp(period, min, max).first().pulse_width_us == min,
{
}

/// A fade-out falls strictly from write to write, starts at `max` and never
/// leaves the range from `min` to `max`.
pub proof fn law_fade_out_falls(period: u64, min: u64, max: u64)
    ensures
        forall|i: int, j: int|
            0 <= i < j < ramp_len(min, max) ==> (#[trigger] falling_ramp(
                period,
                min,
                max,
            )[i]).pulse_width_us > (#[trigger] falling_ramp(period, min, max)[j]).pulse_width_us,
        forall|i: int|
            0 <= i < ramp_len(min, max) ==> min <= (#[trigger] falling_ramp(
                period,
                min,
                max,
            )[i]).pulse_width_us <= max,
        min <= max ==> falling_ramp(period, min, max).first().pulse_width_us == max,
{
}

/// Where the range is a whole number of steps, a fade-in ends at `max` and a
/// fade-out ends at `min`. So a fade-in followed by a fade-out leaves the
/// pulse width at `min`, a fade-out followed by a fade-in leaves it at `max`,
/// and the second fade starts where the first one ended.
pub proof fn law_fade_round_trip(period: u64, min: u64, max: u64)
    requires
        min <= max,
        (max - min) % 100 == 0,
    ensures
        rising_ramp(period, min, max).last().pulse_width_us == max,
        falling_ramp(period, min, max).last().pulse_width_us == min,
        (rising_ramp(period, min, max) + falling_ramp(period, min, max)).last().pulse_width_us
            == min,
        (falling_ramp(period, min, max) + rising_ramp(period, min, max)).last().pulse_width_us
            == max,
        falling_ramp(period, min, max).first() == rising_ramp(period, min, max).last(),
        rising_ramp(period, min, max).first() == falling_ramp(period, min, max).last(),
{
}

/// The light's own fades make the round trip: the unlock signal ends at the
/// longest pulse, where the lock signal starts, and the lock signal ends at
/// the shortest, where the unlock signal starts. So unlocking and then
/// locking leaves the light at its minimum, locking and then unlocking at its
/// maximum.
pub proof fn law_light_round_trip()
    ensures
        unlock_wave().plan.first().pulse_width_us == PULSE_MIN_US,
        unlock_wave().plan.last().pulse_width_us == PULSE_MAX_US,
        lock_wave().plan.first().pulse_width_us == PULSE_MAX_US,
        lock_wave().plan.last().pulse_width_us == PULSE_MIN_US,
        (unlock_wave().plan + lock_wave().plan).last().pulse_width_us == PULSE_MIN_US,
        (lock_wave().plan + unlock_wave().plan).last().pulse_width_us == PULSE_MAX_US,
{
    law_fade_round_trip(PERIOD_US, PULSE_MIN_US, PULSE_MAX_US);
}

/// Where `max` is below the period, every pulse of either fade is shorter
/// than the period.
pub proof fn law_pulse_below_period(period: u64, min: u64, max: u64)
    requires
        max < period,
    ensures
        forall|i: int|
            0 <= i < ramp_len(min, max) ==> (#[trigger] rising_ramp(
                period,
                min,
                max,
            )[i]).pulse_width_us < period,
        forall|i: int|
            0 <= i < ramp_len(min, max) ==> (#[trigger] falling_ramp(
                period,
                min,
                max,
            )[i]).pulse_width_us < period,
{
    law_fade_in_rises(period, min, max);
    law_fade_out_falls(period, min, max);
}

/// Every write of the three light operations has the fixed period and a
/// pulse shorter than it.
pub proof fn law_operations_keep_pulse_below_period(state: bool)
    ensures
        forall|i: int|
            0 <= i < lock_wave().plan.len() ==> (#[trigger] lock_wave().plan[i]).period_us
                == PERIOD_US && lock_wave().plan[i].pulse_width_us < PERIOD_US,
        forall|i: int|
            0 <= i < unlock_wave().plan.len() ==> (#[trigger] unlock_wave().plan[i]).period_us
                == PERIOD_US && unlock_wave().plan[i].pulse_width_us < PERIOD_US,
        forall|i: int|
            0 <= i < blinker_wave(state).plan.len() ==> (#[trigger] blinker_wave(
                state,
            ).plan[i]).period_us == PERIOD_US && blinker_wave(state).plan[i].pulse_width_us
                < PERIOD_US,
{
    law_pulse_below_period(PERIOD_US, PULSE_MIN_US, PULSE_MAX_US);
}

/// From a write that is due, a waveform whose actions all succeed asks for
/// the rest of its plan, in order, and finishes.
proof fn lemma_rest_of_plan(state: WaveState, i: usize, steps: nat)
    requires
        state.wf(),
        state.phase == WavePhase::Writing(i),
        steps >= 2 * (state.plan.len() - i),
    ensures
        state.writes_ahead(steps) == state.plan.skip(i as int),
        state.run(steps).phase == WavePhase::Finished,
    decreases state.plan.len() - i,
{
    let written = state.complete(true);
    let next = if state.pause_ms > 0 {
        written.complete(true)
    } else {
        written
    };
    let left = if state.pause_ms > 0 {
        (steps - 2) as nat
    } else {
        (steps - 1) as nat
    };
    assert(state.writes_ahead(steps) == seq![state.plan[i as int]] + next.writes_ahead(left)) by {
        if state.pause_ms > 0 {
            assert(written.writes_ahead((steps - 1) as nat) == next.writes_ahead(left));
        }
    }
    assert(state.run(steps) == next.run(left)) by {
        if state.pause_ms > 0 {
            assert(written.run((steps - 1) as nat) == next.run(left));
        }
    }
    if i + 1 < state.plan.len() {
        assert(next.phase == WavePhase::Writing((i + 1) as usize));
        lemma_rest_of_plan(next, (i + 1) as usize, left);
        assert(state.plan.skip(i as int) =~= seq![state.plan[i as int]] + state.plan.skip(
            i + 1,
        ));
    } else {
        assert(next.phase == WavePhase::Finished);
        lemma_finished_stays(next, left);
        assert(state.plan.skip(i as int) =~= seq![state.plan[i as int]]);
    }
}

/// A waveform that has finished asks for no write and stays finished.
proof fn lemma_finished_stays(state: WaveState, steps: nat)
    requires
        state.phase == WavePhase::Finished,
    ensures
        state.writes_ahead(steps) == Seq::<PwmWrite>::empty(),
        state.run(steps).phase == WavePhase::Finished,
    decreases steps,
{
    if steps > 0 {
        lemma_finished_stays(state.complete(true), (steps - 1) as nat);
    }
}

/// A waveform whose actions all succeed asks for exactly the writes of its
/// plan, in order, and is finished after at most two actions per write.
pub proof fn law_waveform_follows_plan(plan: Seq<PwmWrite>, pause_ms: u64)
    requires
        plan.len() <= usize::MAX,
    ensures
        WaveState::start(plan, pause_ms).writes_ahead(2 * plan.len()) == plan,
        WaveState::start(plan, pause_ms).run(2 * plan.len()).phase == WavePhase::Finished,
{
    let state = WaveState::start(plan, pause_ms);
    if plan.len() == 0 {
        lemma_finished_stays(state, 0);
        assert(plan =~= Seq::<PwmWrite>::empty());
    } else {
        lemma_rest_of_plan(state, 0, 2 * plan.len());
        assert(plan.skip(0) =~= plan);
    }
}

/// A write that is rejected ends the waveform: it has failed, it asks for
/// nothing more, and no report changes that.
pub proof fn law_rejected_write_aborts(state: WaveState, i: usize, ok: bool)
    requires
        state.phase == WavePhase::Writing(i),
    ensures
        state.complete(false).phase == WavePhase::Failed(i),
        state.complete(false).action() == WaveAction::Failed,
        state.complete(false).complete(ok) == state.complete(false),
{
}

} // verus!
