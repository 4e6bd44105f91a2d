//! Actuator manager: lets one light operation run at a time.
//!
//! Locking, unlocking and blinking drive the same pin, so they share one run
//! flag. The manager is idle while no operation is in flight and running
//! while one is. A request that finds it running is dropped: it is neither
//! queued nor retried, and the operation in flight is not disturbed. The
//! manager goes back to idle when, and only when, that operation is over,
//! whether it finished or failed.

use crate::led_pwm;
use crate::led_pwm::{WaveAction, WavePhase, WaveState, Waveform};
use vstd::prelude::*;

verus! {

/// What the caller wants the light to do.
#[derive(Clone, Copy, Debug, PartialEq, Eq, Structural)]
pub enum LedIntent {
    /// Signal that the vehicle locks: fade out.
    Lock,
    /// Signal that the vehicle unlocks: fade in.
    Unlock,
    /// Show a blinker phase: on for `true`, off for `false`.
    Blink(bool),
}

impl LedIntent {
    /// The operation that carries out this intent.
    pub open spec fn wave(self) -> WaveState {
        match self {
            LedIntent::Lock => led_pwm::lock_wave(),
            LedIntent::Unlock => led_pwm::unlock_wave(),
            LedIntent::Blink(state) => led_pwm::blinker_wave(state),
        }
    }
}

/// Where the manager stands after an action was reported.
#[derive(Clone, Copy, Debug, PartialEq, Eq, Structural)]
pub enum Progress {
    /// No operation was in flight.
    Idle,
    /// The operation goes on: ask for the next action.
    Running,
    /// The operation finished; the manager is idle again.
    Finished,
    /// A write was rejected and the operation was abandoned; the manager is idle again.
    Failed,
}

/// The state of a manager after the action due in `state` was carried out:
/// the operation one step further, or idle once it is over.
pub open spec fn state_after(state: Option<WaveState>, ok: bool) -> Option<WaveState> {
    match state {
        Some(wave) => if wave.complete(ok).is_over() {
            None
        } else {
            Some(wave.complete(ok))
        },
        None => None,
    }
}

/// What the manager reports when the action due in `state` was carried out.
pub open spec fn progress_after(state: Option<WaveState>, ok: bool) -> Progress {
    match state {
        Some(wave) => match wave.complete(ok).phase {
            WavePhase::Finished => Progress::Finished,
            WavePhase::Failed(_) => Progress::Failed,
            _ => Progress::Running,
        },
        None => Progress::Idle,
    }
}

/// The run flag together with the operation it stands for.
///
/// The model of a manager is the operation in flight, `None` while idle.
#[derive(Debug)]
pub struct LedManager {
    current: Option<Waveform>,
}

impl View for LedManager {
    type V = Option<WaveState>;

    closed spec fn view(&self) -> Option<WaveState> {
        match self.current {
            Some(wave) => Some(wave@),
            None => None,
        }
    }
}

impl LedManager {
    #[verifier::type_invariant]
    spec fn inv(self) -> bool {
        self.current matches Some(wave) ==> !wave@.is_over()
    }

    /// Whether an operation is driving the pin.
    pub open spec fn running(&self) -> bool {
        self@ is Some
    }

    /// An idle manager.
    pub fn new() -> (manager: LedManager)
        ensures
            manager@ is None,
    {
        LedManager { current: None }
    }

    /// Whether an operation is driving the pin.
    pub fn is_running(&self) -> (running: bool)
        ensures
            running == self.running(),
    {
        self.current.is_some()
    }

    /// Asks for an operation and says whether it was launched.
    ///
    /// An idle manager takes the operation in and is running from then on. A
    /// running manager drops the request and stays exactly as it is.
    pub fn request(&mut self, intent: LedIntent) -> (launched: bool)
        ensures
            launched == !old(self).running(),
            old(self).running() ==> final(self)@ == old(self)@,
            !old(self).running() ==> final(self)@ == Some(intent.wave()),
    {
        if self.current.is_some() {
            return false;
        }
        let wave = match intent {
            LedIntent::Lock => led_pwm::lock_light(),
            LedIntent::Unlock => led_pwm::unlock_light(),
            LedIntent::Blink(state) => led_pwm::blinker_led(state),
        };
        self.current = Some(wave);
        true
    }

    /// Asks for the lock signal. See [`request`](LedManager::request).
    pub fn lock_light(&mut self) -> (launched: bool)
        ensures
            launched == !old(self).running(),
            old(self).running() ==> final(self)@ == old(self)@,
            !old(self).running() ==> final(self)@ == Some(led_pwm::lock_wave()),
    {
        self.request(LedIntent::Lock)
    }

    /// Asks for the unlock signal. See [`request`](LedManager::request).
    pub fn unlock_light(&mut self) -> (launched: bool)
        ensures
            launched == !old(self).running(),
            old(self).running() ==> final(self)@ == old(self)@,
            !old(self).running() ==> final(self)@ == Some(led_pwm::unlock_wave()),
    {
        self.request(LedIntent::Unlock)
    }

    /// Asks for a blinker phase. See [`request`](LedManager::request).
    pub fn blinker_led(&mut self, state: bool) -> (launched: bool)
        ensures
            launched == !old(self).running(),
            old(self).running() ==> final(self)@ == old(self)@,
            !old(self).running() ==> final(self)@ == Some(led_pwm::blinker_wave(state)),
    {
        self.request(LedIntent::Blink(state))
    }

    /// What the operation in flight needs next: a write or a pause. `None`
    /// while idle.
    pub fn next_action(&self) -> (action: Option<WaveAction>)
        ensures
            match self@ {
                Some(wave) => action == Some(wave.action()) && (action->0 is Write
                    || action->0 is Pause),
                None => action is None,
            },
    {
        proof {
            use_type_invariant(self);
        }
        match &self.current {
            Some(wave) => Some(wave.next_action()),
            None => None,
        }
    }

    /// Records that the action due was carried out; `ok` says whether a
    /// write succeeded. Once the operation is over, finished or failed, the
    /// manager is idle and takes requests again.
    pub fn complete(&mut self, ok: bool) -> (progress: Progress)
        ensures
            final(self)@ == state_after(old(self)@, ok),
            progress == progress_after(old(self)@, ok),
            final(self).running() <==> progress == Progress::Running,
    {
        let mut current: Option<Waveform> = None;
        std::mem::swap(&mut current, &mut self.current);
        match current {
            Some(mut wave) => {
                wave.complete(ok);
                match wave.phase() {
                    WavePhase::Finished => Progress::Finished,
                    WavePhase::Failed(_) => Progress::Failed,
                    _ => {
                        self.current = Some(wave);
                        Progress::Running
                    },
                }
            },
            None => Progress::Idle,
        }
    }
}

impl Default for LedManager {
    fn default() -> (manager: LedManager)
        ensures
            manager@ is None,
    {
        LedManager::new()
    }
}

} // verus!
