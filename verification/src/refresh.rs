//! Refresh cycle: what one tick of the display decides.
//!
//! The display calls [`Refresher::tick`] at a fixed cadence with what it read
//! from the snapshot and from its own widgets. The answer says what to show
//! and which requests to make of the light; the display carries it out.

use crate::events::LockState;
use crate::led_manager::LedIntent;
use vstd::prelude::*;

verus! {

/// Time between two ticks, in milliseconds.
pub const REFRESH_PERIOD_MS: u64 = 300;

/// Number of notifications that take turns on the display.
pub const MESSAGE_COUNT: usize = 20;

/// What a tick does to the tell-tales and the notification line.
#[derive(Clone, Copy, Debug, PartialEq, Eq, Structural)]
pub enum TickEffect {
    /// Set both indicators to the opposite of what the left one shows.
    Indicators,
    /// Show the notification with this index.
    Notification(usize),
    /// Toggle the high beam tell-tale.
    HighBeam,
    /// Toggle the fog light tell-tale.
    Fog,
    /// Toggle the bend light and the brake tell-tales.
    BendBeamAndBrake,
    /// Toggle the parking tell-tale.
    Park,
    /// Toggle the tyre pressure tell-tale.
    Tire,
    /// Leave everything as it is.
    Nothing,
}

/// What one tick decided.
#[derive(Clone, Copy, Debug, PartialEq, Eq, Structural)]
pub struct RefreshPlan {
    /// What the lock symbol has to show; `None` while no lock state has arrived.
    pub is_locked: Option<bool>,
    /// The request to make of the light because the lock state changed.
    pub lock_intent: Option<LedIntent>,
    /// What to do to the tell-tales and the notification line.
    pub effect: TickEffect,
    /// The request to make of the light for the blinker, after `lock_intent`.
    pub blink_intent: Option<LedIntent>,
}

/// What the tick with number `counter` does, given the index of the
/// notification that is next in turn. The first rule that applies wins.
pub open spec fn effect_at(counter: u64, msg_id: usize) -> TickEffect {
    if counter % 2 == 0 {
        TickEffect::Indicators
    } else if counter % 5 == 0 {
        TickEffect::Notification(msg_id)
    } else if counter % 12 == 0 {
        TickEffect::HighBeam
    } else if counter % 15 == 0 {
        TickEffect::Fog
    } else if counter % 17 == 0 {
        TickEffect::BendBeamAndBrake
    } else if counter % 11 == 0 {
        TickEffect::Park
    } else if counter % 25 == 0 {
        TickEffect::Tire
    } else {
        TickEffect::Nothing
    }
}

/// Mathematical model of a [`Refresher`].
pub struct RefreshState {
    /// Number of ticks so far.
    pub counter: u64,
    /// Index of the notification that is next in turn.
    pub msg_id: usize,
    /// The lock state that the last tick saw, if any tick saw one.
    pub last_locked: Option<bool>,
}

impl RefreshState {
    /// The state before the first tick.
    pub open spec fn start() -> RefreshState {
        RefreshState { counter: 0, msg_id: 0, last_locked: None }
    }

    /// What the lock symbol has to show for this lock state.
    pub open spec fn seen(lock_state: Option<LockState>) -> Option<bool> {
        match lock_state {
            Some(state) => Some(state.locked()),
            None => None,
        }
    }

    /// What a tick decides in this state, for the lock state read from the
    /// snapshot and for what the left indicator shows.
    ///
    /// A lock state that differs from the one seen by the tick before asks
    /// for the light: the lock signal where the vehicle is not locked, the
    /// unlock signal where it is. On every tick that sets the indicators
    /// while the vehicle is locked, the light is asked to show what the left
    /// indicator showed.
    pub open spec fn plan(self, lock_state: Option<LockState>, left_signal: bool) -> RefreshPlan {
        let is_locked = Self::seen(lock_state);
        RefreshPlan {
            is_locked,
            lock_intent: if is_locked is Some && is_locked != self.last_locked {
                if is_locked == Some(true) {
                    Some(LedIntent::Unlock)
                } else {
                    Some(LedIntent::Lock)
                }
            } else {
                None
            },
            effect: effect_at(self.counter, self.msg_id),
            blink_intent: if self.counter % 2 == 0 && is_locked == Some(true) {
                Some(LedIntent::Blink(left_signal))
            } else {
                None
            },
        }
    }

    /// The state after that tick: one tick more, the next notification in
    /// turn if one was shown, and the lock state remembered if one was seen.
    /// The counter starts again at zero after its largest value.
    pub open spec fn after_tick(self, lock_state: Option<LockState>) -> RefreshState {
        RefreshState {
            counter: if self.counter < u64::MAX {
                (self.counter + 1) as u64
            } else {
                0
            },
            msg_id: if effect_at(self.counter, self.msg_id) is Notification {
                if self.msg_id + 1 < MESSAGE_COUNT {
                    (self.msg_id + 1) as usize
                } else {
                    0
                }
            } else {
                self.msg_id
            },
            last_locked: if lock_state is Some {
                Self::seen(lock_state)
            } else {
                self.last_locked
            },
        }
    }
}

/// What the refresh cycle remembers from tick to tick.
#[derive(Debug)]
pub struct Refresher {
    counter: u64,
    msg_id: usize,
    last_locked: Option<bool>,
}

impl View for Refresher {
    type V = RefreshState;

    closed spec fn view(&self) -> RefreshState {
        RefreshState { counter: self.counter, msg_id: self.msg_id, last_locked: self.last_locked }
    }
}

impl Refresher {
    #[verifier::type_invariant]
    spec fn inv(self) -> bool {
        self.msg_id < MESSAGE_COUNT
    }

    /// A refresh cycle before its first tick.
    pub fn new() -> (refresher: Refresher)
        ensures
            refresher@ == RefreshState::start(),
    {
        Refresher { counter: 0, msg_id: 0, last_locked: None }
    }

    /// Number of ticks so far.
    pub fn counter(&self) -> (counter: u64)
        ensures
            counter == self@.counter,
    {
        self.counter
    }

    /// Index of the notification that is next in turn; always below [`MESSAGE_COUNT`].
    pub fn msg_id(&self) -> (msg_id: usize)
        ensures
            msg_id == self@.msg_id,
            msg_id < MESSAGE_COUNT,
    {
        proof {
            use_type_invariant(self);
        }
        self.msg_id
    }

    /// One tick. `lock_state` is what the snapshot holds, `left_signal` what
    /// the left indicator shows.
    pub fn tick(&mut self, lock_state: Option<LockState>, left_signal: bool) -> (plan: RefreshPlan)
        ensures
            plan == old(self)@.plan(lock_state, left_signal),
            final(self)@ == old(self)@.after_tick(lock_state),
            plan.effect matches TickEffect::Notification(index) ==> index < MESSAGE_COUNT,
    {
        proof {
            use_type_invariant(&*self);
        }
        let is_locked = match lock_state {
            Some(state) => Some(state.is_locked()),
            None => None,
        };
        let lock_intent = match is_locked {
            Some(locked) => {
                let changed = match self.last_locked {
                    Some(before) => before != locked,
                    None => true,
                };
                if !changed {
                    None
                } else if locked {
                    Some(LedIntent::Unlock)
                } else {
                    Some(LedIntent::Lock)
                }
            },
            None => None,
        };
        let counter = self.counter;
        let msg_id = self.msg_id;
        let mut blink_intent: Option<LedIntent> = None;
        let mut next_msg_id = msg_id;
        let effect = if counter % 2 == 0 {
            if let Some(true) = is_locked {
                blink_intent = Some(LedIntent::Blink(left_signal));
            }
            TickEffect::Indicators
        } else if counter % 5 == 0 {
            next_msg_id = if msg_id + 1 < MESSAGE_COUNT {
                msg_id + 1
            } else {
                0
            };
            TickEffect::Notification(msg_id)
        } else if counter % 12 == 0 {
            TickEffect::HighBeam
        } else if counter % 15 == 0 {
            TickEffect::Fog
        } else if counter % 17 == 0 {
            TickEffect::BendBeamAndBrake
        } else if counter % 11 == 0 {
            TickEffect::Park
        } else if counter % 25 == 0 {
            TickEffect::Tire
        } else {
            TickEffect::Nothing
        };
        self.msg_id = next_msg_id;
        self.counter = if counter < u64::MAX {
            counter + 1
        } else {
            0
        };
        if is_locked.is_some() {
            self.last_locked = is_locked;
        }
        RefreshPlan { is_locked, lock_intent, effect, blink_intent }
    }
}

impl Default for Refresher {
    fn default() -> (refresher: Refresher)
        ensures
            refresher@ == RefreshState::start(),
    {
        Refresher::new()
    }
}

/// Three of the rules never get their turn: every multiple of twelve is
/// even, and every odd multiple of fifteen or twenty-five is a multiple of
/// five, so an earlier rule always applies first.
pub proof fn law_effects_that_never_occur(counter: u64, msg_id: usize)
    ensures
        effect_at(counter, msg_id) != TickEffect::HighBeam,
        effect_at(counter, msg_id) != TickEffect::Fog,
        effect_at(counter, msg_id) != TickEffect::Tire,
{
}

} // verus!
