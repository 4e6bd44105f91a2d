//! Subscription pump: what to do with each thing a topic's subscription and
//! queue report.
//!
//! The pump itself waits for nothing. Whoever runs it subscribes, receives
//! and sends, and tells the pump what happened; the pump answers with the next
//! thing to do. A payload that does not decode is discarded and the pump goes
//! on receiving; only the end of the subscription or of the queue stops it.

use crate::events::{decode, decoded, law_decoded_kind, TelemetryKind, TelemetryRecord};
use crate::model::{law_last_record_wins, Model};
use crate::wire::DecodeFailure;
use vstd::prelude::*;

verus! {

/// Depth of the queue behind the lock-state topic.
pub const LOCK_STATE_QUEUE_DEPTH: usize = 32;

/// Depth of the queue behind every other topic.
pub const QUEUE_DEPTH: usize = 100;

/// Depth of the bounded queue between the pump of `kind` and its merge task.
pub open spec fn depth_of(kind: TelemetryKind) -> usize {
    match kind {
        TelemetryKind::LockState => LOCK_STATE_QUEUE_DEPTH,
        _ => QUEUE_DEPTH,
    }
}

/// Depth of the bounded queue between the pump of `kind` and its merge task.
pub fn queue_depth(kind: TelemetryKind) -> (depth: usize)
    ensures
        depth == depth_of(kind),
{
    match kind {
        TelemetryKind::LockState => LOCK_STATE_QUEUE_DEPTH,
        _ => QUEUE_DEPTH,
    }
}

/// Why a pump stopped.
#[derive(Clone, Copy, Debug, PartialEq, Eq, Structural)]
pub enum PumpExit {
    /// The subscription could not be set up.
    SubscribeFailed,
    /// The subscription ended.
    SubscriptionClosed,
    /// The receiving side of the queue is gone.
    ReceiverClosed,
}

/// Where a pump stands.
#[derive(Clone, Copy, Debug, PartialEq, Eq, Structural)]
pub enum PumpState {
    /// Waiting for the subscription to be set up.
    Subscribing,
    /// Waiting for the next payload.
    Receiving,
    /// Waiting for the queue to take the record handed out last.
    Forwarding,
    /// Stopped for good.
    Stopped(PumpExit),
}

/// What a pump is told. The model of a [`PumpEvent`].
pub enum PumpInput {
    /// Setting up the subscription succeeded (`true`) or failed.
    Subscribed(bool),
    /// A payload arrived.
    Sample(Seq<u8>),
    /// The subscription ended.
    SubscriptionClosed,
    /// The queue took the record (`true`), or its receiving side is gone.
    Forwarded(bool),
}

/// What a pump is told.
#[derive(Clone, Copy, Debug)]
pub enum PumpEvent<'a> {
    /// Setting up the subscription succeeded (`true`) or failed.
    Subscribed(bool),
    /// A payload arrived.
    Sample(&'a [u8]),
    /// The subscription ended.
    SubscriptionClosed,
    /// The queue took the record (`true`), or its receiving side is gone.
    Forwarded(bool),
}

impl<'a> View for PumpEvent<'a> {
    type V = PumpInput;

    open spec fn view(&self) -> PumpInput {
        match *self {
            PumpEvent::Subscribed(ok) => PumpInput::Subscribed(ok),
            PumpEvent::Sample(payload) => PumpInput::Sample(payload@),
            PumpEvent::SubscriptionClosed => PumpInput::SubscriptionClosed,
            PumpEvent::Forwarded(ok) => PumpInput::Forwarded(ok),
        }
    }
}

/// What whoever runs a pump has to do next.
#[derive(Clone, Copy, Debug, PartialEq, Eq, Structural)]
pub enum PumpAction {
    /// Wait for the next payload.
    Receive,
    /// Send this record into the queue, waiting while the queue is full.
    Forward(TelemetryRecord),
    /// Note that a payload was dropped for this reason, then wait for the next one.
    Discard(DecodeFailure),
    /// Leave: the pump has stopped.
    Exit(PumpExit),
    /// The event does not belong to the state the pump is in; go on with
    /// what was due before.
    Ignore,
}

/// The state that follows `state` when a pump of `kind` is told `input`.
pub open spec fn pump_next(kind: TelemetryKind, state: PumpState, input: PumpInput) -> PumpState {
    match (state, input) {
        (PumpState::Subscribing, PumpInput::Subscribed(ok)) => if ok {
            PumpState::Receiving
        } else {
            PumpState::Stopped(PumpExit::SubscribeFailed)
        },
        (PumpState::Receiving, PumpInput::Sample(payload)) => if decoded(kind, payload) is Ok {
            PumpState::Forwarding
        } else {
            PumpState::Receiving
        },
        (PumpState::Receiving, PumpInput::SubscriptionClosed) => PumpState::Stopped(
            PumpExit::SubscriptionClosed,
        ),
        (PumpState::Forwarding, PumpInput::Forwarded(ok)) => if ok {
            PumpState::Receiving
        } else {
            PumpState::Stopped(PumpExit::ReceiverClosed)
        },
        _ => state,
    }
}

/// What a pump of `kind` in `state` answers when it is told `input`.
pub open spec fn pump_action(kind: TelemetryKind, state: PumpState, input: PumpInput) -> PumpAction {
    match (state, input) {
        (PumpState::Subscribing, PumpInput::Subscribed(ok)) => if ok {
            PumpAction::Receive
        } else {
            PumpAction::Exit(PumpExit::SubscribeFailed)
        },
        (PumpState::Receiving, PumpInput::Sample(payload)) => match decoded(kind, payload) {
            Ok(record) => PumpAction::Forward(record),
            Err(e) => PumpAction::Discard(e),
        },
        (PumpState::Receiving, PumpInput::SubscriptionClosed) => PumpAction::Exit(
            PumpExit::SubscriptionClosed,
        ),
        (PumpState::Forwarding, PumpInput::Forwarded(ok)) => if ok {
            PumpAction::Receive
        } else {
            PumpAction::Exit(PumpExit::ReceiverClosed)
        },
        (PumpState::Stopped(exit), _) => PumpAction::Exit(exit),
        _ => PumpAction::Ignore,
    }
}

/// The pump of one topic.
#[derive(Clone, Copy, Debug, PartialEq, Eq, Structural)]
pub struct SubscriberTaskSpawner {
    pub kind: TelemetryKind,
    pub state: PumpState,
}

impl SubscriberTaskSpawner {
    /// The pump for the topic that carries `kind`, about to subscribe.
    pub fn spawn_task(kind: TelemetryKind) -> (pump: SubscriberTaskSpawner)
        ensures
            pump == (SubscriberTaskSpawner { kind, state: PumpState::Subscribing }),
    {
        SubscriberTaskSpawner { kind, state: PumpState::Subscribing }
    }

    /// Whether the pump has stopped.
    pub fn is_stopped(&self) -> (stopped: bool)
        ensures
            stopped == self.state is Stopped,
    {
        match self.state {
            PumpState::Stopped(_) => true,
            _ => false,
        }
    }

    /// Tells the pump what happened and returns what to do next.
    ///
    /// A payload that decodes is handed out to be forwarded; one that does
    /// not is discarded, and the pump keeps receiving.
    pub fn step(&mut self, event: PumpEvent<'_>) -> (action: PumpAction)
        ensures
            final(self).kind == old(self).kind,
            final(self).state == pump_next(old(self).kind, old(self).state, event@),
            action == pump_action(old(self).kind, old(self).state, event@),
    {
        match (self.state, event) {
            (PumpState::Subscribing, PumpEvent::Subscribed(ok)) => {
                if ok {
                    self.state = PumpState::Receiving;
                    PumpAction::Receive
                } else {
                    self.state = PumpState::Stopped(PumpExit::SubscribeFailed);
                    PumpAction::Exit(PumpExit::SubscribeFailed)
                }
            },
            (PumpState::Receiving, PumpEvent::Sample(payload)) => {
                match decode(self.kind, payload) {
                    Ok(record) => {
                        self.state = PumpState::Forwarding;
                        PumpAction::Forward(record)
                    },
                    Err(e) => PumpAction::Discard(e),
                }
            },
            (PumpState::Receiving, PumpEvent::SubscriptionClosed) => {
                self.state = PumpState::Stopped(PumpExit::SubscriptionClosed);
                PumpAction::Exit(PumpExit::SubscriptionClosed)
            },
            (PumpState::Forwarding, PumpEvent::Forwarded(ok)) => {
                if ok {
                    self.state = PumpState::Receiving;
                    PumpAction::Receive
                } else {
                    self.state = PumpState::Stopped(PumpExit::ReceiverClosed);
                    PumpAction::Exit(PumpExit::ReceiverClosed)
                }
            },
            (PumpState::Stopped(exit), _) => PumpAction::Exit(exit),
            _ => PumpAction::Ignore,
        }
    }
}

/// The state of a receiving pump of `kind` after `payloads` arrived one by
/// one and the queue took every record that the pump handed out.
pub open spec fn pump_after(kind: TelemetryKind, payloads: Seq<Seq<u8>>) -> PumpState
    decreases payloads.len(),
{
    if payloads.len() == 0 {
        PumpState::Receiving
    } else {
        let before = pump_after(kind, payloads.drop_last());
        let told = pump_next(kind, before, PumpInput::Sample(payloads.last()));
        pump_next(kind, told, PumpInput::Forwarded(true))
    }
}

/// The records that a receiving pump of `kind` hands out while `payloads`
/// arrive one by one and the queue takes every record, in the order in which
/// it hands them out.
pub open spec fn pump_forwards(kind: TelemetryKind, payloads: Seq<Seq<u8>>) -> Seq<TelemetryRecord>
    decreases payloads.len(),
{
    if payloads.len() == 0 {
        Seq::empty()
    } else {
        let before = pump_after(kind, payloads.drop_last());
        let earlier = pump_forwards(kind, payloads.drop_last());
        match pump_action(kind, before, PumpInput::Sample(payloads.last())) {
            PumpAction::Forward(record) => earlier.push(record),
            _ => earlier,
        }
    }
}

/// The records of the payloads that decode, in the order of the payloads.
pub open spec fn decodable(kind: TelemetryKind, payloads: Seq<Seq<u8>>) -> Seq<TelemetryRecord>
    decreases payloads.len(),
{
    if payloads.len() == 0 {
        Seq::empty()
    } else {
        match decoded(kind, payloads.last()) {
            Ok(record) => decodable(kind, payloads.drop_last()).push(record),
            Err(_) => decodable(kind, payloads.drop_last()),
        }
    }
}

/// A payload that does not decode never stops the pump: whatever arrives,
/// the pump is receiving again afterwards, and it has handed out the record
/// of every payload that does decode, in order, and nothing else.
pub proof fn law_decode_failure_never_stops_pump(kind: TelemetryKind, payloads: Seq<Seq<u8>>)
    ensures
        pump_after(kind, payloads) == PumpState::Receiving,
        pump_forwards(kind, payloads) == decodable(kind, payloads),
    decreases payloads.len(),
{
    if payloads.len() > 0 {
        law_decode_failure_never_stops_pump(kind, payloads.drop_last());
    }
}

/// Where every payload decodes, the pump hands out exactly one record per
/// payload: none is lost and the order is kept.
pub proof fn law_nothing_lost_in_order(kind: TelemetryKind, payloads: Seq<Seq<u8>>)
    requires
        forall|i: int| 0 <= i < payloads.len() ==> decoded(kind, #[trigger] payloads[i]) is Ok,
    ensures
        pump_forwards(kind, payloads).len() == payloads.len(),
        forall|i: int|
            0 <= i < payloads.len() ==> decoded(kind, payloads[i]) == Ok::<
                TelemetryRecord,
                DecodeFailure,
            >(#[trigger] pump_forwards(kind, payloads)[i]),
    decreases payloads.len(),
{
    law_decode_failure_never_stops_pump(kind, payloads);
    if payloads.len() > 0 {
        let earlier = payloads.drop_last();
        assert forall|i: int| 0 <= i < earlier.len() implies decoded(
            kind,
            #[trigger] earlier[i],
        ) is Ok by {
            assert(earlier[i] == payloads[i]);
        }
        law_nothing_lost_in_order(kind, earlier);
        law_decode_failure_never_stops_pump(kind, earlier);
        assert(decoded(kind, payloads[payloads.len() - 1]) is Ok);
        assert forall|i: int| 0 <= i < payloads.len() implies decoded(kind, payloads[i]) == Ok::<
            TelemetryRecord,
            DecodeFailure,
        >(#[trigger] pump_forwards(kind, payloads)[i]) by {
            if i < earlier.len() {
                assert(earlier[i] == payloads[i]);
                assert(pump_forwards(kind, payloads)[i] == pump_forwards(kind, earlier)[i]);
            }
        }
    }
}

/// Where every payload of a topic decodes, the topic's slot, read after the
/// merge task has written every record that the pump handed out, holds the
/// record of the payload that arrived last.
pub proof fn law_fifo_determinism(model: Model, kind: TelemetryKind, payloads: Seq<Seq<u8>>)
    requires
        payloads.len() > 0,
        forall|i: int| 0 <= i < payloads.len() ==> decoded(kind, #[trigger] payloads[i]) is Ok,
    ensures
        decoded(kind, payloads.last()) == Ok::<TelemetryRecord, DecodeFailure>(
            model.merged_all(pump_forwards(kind, payloads)).slot(kind)->0,
        ),
        model.merged_all(pump_forwards(kind, payloads)).slot(kind) is Some,
{
    law_nothing_lost_in_order(kind, payloads);
    let records = pump_forwards(kind, payloads);
    assert forall|i: int| 0 <= i < records.len() implies (#[trigger] records[i]).kind()
        == kind by {
        assert(decoded(kind, payloads[i]) is Ok);
        law_decoded_kind(kind, payloads[i]);
    }
    law_last_record_wins(model, records, kind);
    assert(records.last() == records[payloads.len() - 1]);
}

} // verus!
