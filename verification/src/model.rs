//! Snapshot model: the latest record of each kind of telemetry.
//!
//! A slot is empty until the first record of its kind arrives, and from then
//! on holds the record that arrived last. A record replaces the one before it
//! as a whole and touches no other slot, so a reader sees each slot either
//! before or after a merge, never in between.

use crate::events::{
    BatteryData, Exterior, LockState, Speed, TelemetryKind, TelemetryRecord, TripData,
};
use vstd::prelude::*;

verus! {

/// The snapshot: one slot per kind of telemetry.
#[derive(Clone, Copy, Debug, PartialEq, Eq, Structural)]
pub struct Model {
    pub battery_data: Option<BatteryData>,
    pub lock_state: Option<LockState>,
    pub exterior: Option<Exterior>,
    pub speed: Option<Speed>,
    pub trip_data: Option<TripData>,
}

impl Model {
    /// The snapshot before anything has arrived.
    pub open spec fn empty() -> Model {
        Model { battery_data: None, lock_state: None, exterior: None, speed: None, trip_data: None }
    }

    /// What the slot of `kind` holds.
    pub open spec fn slot(self, kind: TelemetryKind) -> Option<TelemetryRecord> {
        match kind {
            TelemetryKind::LockState => match self.lock_state {
                Some(r) => Some(TelemetryRecord::LockState(r)),
                None => None,
            },
            TelemetryKind::Battery => match self.battery_data {
                Some(r) => Some(TelemetryRecord::Battery(r)),
                None => None,
            },
            TelemetryKind::Exterior => match self.exterior {
                Some(r) => Some(TelemetryRecord::Exterior(r)),
                None => None,
            },
            TelemetryKind::Speed => match self.speed {
                Some(r) => Some(TelemetryRecord::Speed(r)),
                None => None,
            },
            TelemetryKind::TripData => match self.trip_data {
                Some(r) => Some(TelemetryRecord::TripData(r)),
                None => None,
            },
        }
    }

    /// The snapshot after `record` was merged: its slot holds `record`, the
    /// other slots are as before.
    pub open spec fn merged(self, record: TelemetryRecord) -> Model {
        match record {
            TelemetryRecord::LockState(r) => Model { lock_state: Some(r), ..self },
            TelemetryRecord::Battery(r) => Model { battery_data: Some(r), ..self },
            TelemetryRecord::Exterior(r) => Model { exterior: Some(r), ..self },
            TelemetryRecord::Speed(r) => Model { speed: Some(r), ..self },
            TelemetryRecord::TripData(r) => Model { trip_data: Some(r), ..self },
        }
    }

    /// The snapshot after `records` were merged one by one, first to last.
    pub open spec fn merged_all(self, records: Seq<TelemetryRecord>) -> Model
        decreases records.len(),
    {
        if records.len() == 0 {
            self
        } else {
            self.merged_all(records.drop_last()).merged(records.last())
        }
    }

    /// What a merge task leaves behind for one thing taken from its queue:
    /// a record is merged, the end of the queue changes nothing.
    pub open spec fn received(self, item: Option<TelemetryRecord>) -> Model {
        match item {
            Some(record) => self.merged(record),
            None => self,
        }
    }

    /// The snapshot before anything has arrived.
    pub fn new() -> (model: Model)
        ensures
            model == Model::empty(),
    {
        Model { battery_data: None, lock_state: None, exterior: None, speed: None, trip_data: None }
    }

    /// What the slot of `kind` holds.
    pub fn get(&self, kind: TelemetryKind) -> (record: Option<TelemetryRecord>)
        ensures
            record == self.slot(kind),
    {
        match kind {
            TelemetryKind::LockState => match self.lock_state {
                Some(r) => Some(TelemetryRecord::LockState(r)),
                None => None,
            },
            TelemetryKind::Battery => match self.battery_data {
                Some(r) => Some(TelemetryRecord::Battery(r)),
                None => None,
            },
            TelemetryKind::Exterior => match self.exterior {
                Some(r) => Some(TelemetryRecord::Exterior(r)),
                None => None,
            },
            TelemetryKind::Speed => match self.speed {
                Some(r) => Some(TelemetryRecord::Speed(r)),
                None => None,
            },
            TelemetryKind::TripData => match self.trip_data {
                Some(r) => Some(TelemetryRecord::TripData(r)),
                None => None,
            },
        }
    }

    /// Writes `record` into its slot, replacing what was there.
    pub fn merge(&mut self, record: TelemetryRecord)
        ensures
            *final(self) == old(self).merged(record),
            final(self).slot(record.kind()) == Some(record),
            forall|kind: TelemetryKind|
                kind != record.kind() ==> final(self).slot(kind) == old(self).slot(kind),
    {
        match record {
            TelemetryRecord::LockState(r) => {
                self.lock_state = Some(r);
            },
            TelemetryRecord::Battery(r) => {
                self.battery_data = Some(r);
            },
            TelemetryRecord::Exterior(r) => {
                self.exterior = Some(r);
            },
            TelemetryRecord::Speed(r) => {
                self.speed = Some(r);
            },
            TelemetryRecord::TripData(r) => {
                self.trip_data = Some(r);
            },
        }
    }

    /// One turn of a merge task: `item` is what its queue gave, `None` once
    /// the sending side is gone. A record is merged and the task goes on; at
    /// the end of the queue the snapshot stays as it is and the task ends.
    pub fn receive(&mut self, item: Option<TelemetryRecord>) -> (go_on: bool)
        ensures
            *final(self) == old(self).received(item),
            go_on == item is Some,
    {
        match item {
            Some(record) => {
                self.merge(record);
                true
            },
            None => false,
        }
    }
}

impl Default for Model {
    fn default() -> (model: Model)
        ensures
            model == Model::empty(),
    {
        Model::new()
    }
}

/// The last record of `kind` among `records`, or `before` if there is none.
pub open spec fn last_of_kind(
    before: Option<TelemetryRecord>,
    records: Seq<TelemetryRecord>,
    kind: TelemetryKind,
) -> Option<TelemetryRecord>
    decreases records.len(),
{
    if records.len() == 0 {
        before
    } else if records.last().kind() == kind {
        Some(records.last())
    } else {
        last_of_kind(before, records.drop_last(), kind)
    }
}

/// After any sequence of merges, every slot holds the last record of its kind
/// that was merged, and a slot for which none arrived is as it was.
pub proof fn law_slot_holds_last_of_kind(
    model: Model,
    records: Seq<TelemetryRecord>,
    kind: TelemetryKind,
)
    ensures
        model.merged_all(records).slot(kind) == last_of_kind(model.slot(kind), records, kind),
    decreases records.len(),
{
    if records.len() > 0 {
        law_slot_holds_last_of_kind(model, records.drop_last(), kind);
    }
}

/// A topic's slot, read after all records of that topic were merged in the
/// order in which they arrived, holds the record that arrived last.
pub proof fn law_last_record_wins(model: Model, records: Seq<TelemetryRecord>, kind: TelemetryKind)
    requires
        records.len() > 0,
        forall|i: int| 0 <= i < records.len() ==> (#[trigger] records[i]).kind() == kind,
    ensures
        model.merged_all(records).slot(kind) == Some(records.last()),
{
    law_slot_holds_last_of_kind(model, records, kind);
}

} // verus!
