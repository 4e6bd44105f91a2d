//! Telemetry records and the binary schema they arrive in.
//!
//! Every record is a Protocol Buffers message of scalar fields. A field that
//! is absent keeps its default (zero, `false`); a field that occurs twice
//! keeps the later value; a field that the schema does not know is skipped.
//! Numbers of type `float` are held as their IEEE 754 bit pattern, so that a
//! record can be compared and copied exactly.

use crate::wire::{
    decode_key, field_of, group_len, key_of, key_ok, read_field, skip_field, skip_len, varint_len,
    DecodeFailure, FieldType, FieldValue,
};
use vstd::prelude::*;

verus! {

/// The kinds of telemetry, one per topic.
#[derive(Clone, Copy, Debug, PartialEq, Eq, Structural)]
pub enum TelemetryKind {
    LockState,
    Battery,
    Exterior,
    Speed,
    TripData,
}

/// What the `state` field of a [`LockState`] can name.
#[derive(Clone, Copy, Debug, PartialEq, Eq, Structural)]
pub enum State {
    Lock,
    Unlock,
}

impl State {
    /// The number that stands for this state on the wire.
    pub open spec fn number(self) -> i32 {
        match self {
            State::Lock => 0,
            State::Unlock => 1,
        }
    }

    /// The number that stands for this state on the wire.
    pub fn as_i32(self) -> (n: i32)
        ensures
            n == self.number(),
    {
        match self {
            State::Lock => 0,
            State::Unlock => 1,
        }
    }

    /// The state that a number stands for, if it stands for one.
    pub fn from_i32(n: i32) -> (state: Option<State>)
        ensures
            match state {
                Some(s) => s.number() == n,
                None => n != 0 && n != 1,
            },
    {
        if n == 0 {
            Some(State::Lock)
        } else if n == 1 {
            Some(State::Unlock)
        } else {
            None
        }
    }
}

/// Whether the vehicle is locked. Field 1: `state`, an enumeration sent as `int32`.
#[derive(Clone, Copy, Debug, PartialEq, Eq, Structural)]
pub struct LockState {
    pub state: i32,
}

impl LockState {
    /// Whether the record says that the vehicle is locked.
    pub open spec fn locked(self) -> bool {
        self.state == State::Lock.number()
    }

    /// Whether the record says that the vehicle is locked. A number that
    /// names no state counts as not locked.
    pub fn is_locked(&self) -> (locked: bool)
        ensures
            locked == self.locked(),
    {
        self.state == State::Lock.as_i32()
    }
}

/// State of the traction battery.
///
/// Field 1: `battery_level`, `float`, percent. Field 2: `is_charging`,
/// `bool`. Field 3: `estimated_range`, `uint32`, kilometres. Field 4:
/// `time_to_fully_charge`, `uint32`, minutes.
#[derive(Clone, Copy, Debug, PartialEq, Eq, Structural)]
pub struct BatteryData {
    pub battery_level_bits: u32,
    pub is_charging: bool,
    pub estimated_range: u32,
    pub time_to_fully_charge: u32,
}

/// Conditions outside the vehicle. Field 1: `air_temperature`, `float`.
#[derive(Clone, Copy, Debug, PartialEq, Eq, Structural)]
pub struct Exterior {
    pub air_temperature_bits: u32,
}

/// Speed of the vehicle. Field 1: `value`, `float`.
#[derive(Clone, Copy, Debug, PartialEq, Eq, Structural)]
pub struct Speed {
    pub value_bits: u32,
}

/// Figures of the trip.
///
/// Field 1: `traveled_distance`, `float`. Field 2:
/// `traveled_distance_since_start`, `float`. Field 3: `average_speed`,
/// `float`. Field 4: `trip_duration`, `uint32`, minutes.
#[derive(Clone, Copy, Debug, PartialEq, Eq, Structural)]
pub struct TripData {
    pub traveled_distance_bits: u32,
    pub traveled_distance_since_start_bits: u32,
    pub average_speed_bits: u32,
    pub trip_duration: u32,
}

/// One record of any kind.
#[derive(Clone, Copy, Debug, PartialEq, Eq, Structural)]
pub enum TelemetryRecord {
    LockState(LockState),
    Battery(BatteryData),
    Exterior(Exterior),
    Speed(Speed),
    TripData(TripData),
}

/// The schema: the type of field number `tag` in a record of `kind`, or
/// `None` for a number that the record does not use.
pub open spec fn schema(kind: TelemetryKind, tag: u32) -> Option<FieldType> {
    match kind {
        TelemetryKind::LockState => if tag == 1 {
            Some(FieldType::Int32)
        } else {
            None
        },
        TelemetryKind::Battery => if tag == 1 {
            Some(FieldType::Float)
        } else if tag == 2 {
            Some(FieldType::Bool)
        } else if tag == 3 || tag == 4 {
            Some(FieldType::Uint32)
        } else {
            None
        },
        TelemetryKind::Exterior => if tag == 1 {
            Some(FieldType::Float)
        } else {
            None
        },
        TelemetryKind::Speed => if tag == 1 {
            Some(FieldType::Float)
        } else {
            None
        },
        TelemetryKind::TripData => if 1 <= tag <= 3 {
            Some(FieldType::Float)
        } else if tag == 4 {
            Some(FieldType::Uint32)
        } else {
            None
        },
    }
}

/// The type of field number `tag` in a record of `kind`.
pub fn field_type(kind: TelemetryKind, tag: u32) -> (found: Option<FieldType>)
    ensures
        found == schema(kind, tag),
{
    match kind {
        TelemetryKind::LockState => if tag == 1 {
            Some(FieldType::Int32)
        } else {
            None
        },
        TelemetryKind::Battery => if tag == 1 {
            Some(FieldType::Float)
        } else if tag == 2 {
            Some(FieldType::Bool)
        } else if tag == 3 || tag == 4 {
            Some(FieldType::Uint32)
        } else {
            None
        },
        TelemetryKind::Exterior => if tag == 1 {
            Some(FieldType::Float)
        } else {
            None
        },
        TelemetryKind::Speed => if tag == 1 {
            Some(FieldType::Float)
        } else {
            None
        },
        TelemetryKind::TripData => if 1 <= tag && tag <= 3 {
            Some(FieldType::Float)
        } else if tag == 4 {
            Some(FieldType::Uint32)
        } else {
            None
        },
    }
}

impl TelemetryRecord {
    /// The record of `kind` in which every field has its default.
    pub open spec fn empty(kind: TelemetryKind) -> TelemetryRecord {
        match kind {
            TelemetryKind::LockState => TelemetryRecord::LockState(LockState { state: 0 }),
            TelemetryKind::Battery => TelemetryRecord::Battery(
                BatteryData {
                    battery_level_bits: 0,
                    is_charging: false,
                    estimated_range: 0,
                    time_to_fully_charge: 0,
                },
            ),
            TelemetryKind::Exterior => TelemetryRecord::Exterior(
                Exterior { air_temperature_bits: 0 },
            ),
            TelemetryKind::Speed => TelemetryRecord::Speed(Speed { value_bits: 0 }),
            TelemetryKind::TripData => TelemetryRecord::TripData(
                TripData {
                    traveled_distance_bits: 0,
                    traveled_distance_since_start_bits: 0,
                    average_speed_bits: 0,
                    trip_duration: 0,
                },
            ),
        }
    }

    /// The kind of this record.
    pub open spec fn kind(self) -> TelemetryKind {
        match self {
            TelemetryRecord::LockState(_) => TelemetryKind::LockState,
            TelemetryRecord::Battery(_) => TelemetryKind::Battery,
            TelemetryRecord::Exterior(_) => TelemetryKind::Exterior,
            TelemetryRecord::Speed(_) => TelemetryKind::Speed,
            TelemetryRecord::TripData(_) => TelemetryKind::TripData,
        }
    }

    /// This record with field number `tag` replaced by `value`. A number or a
    /// type of value that the schema does not have for this kind of record
    /// changes nothing.
    pub open spec fn with_field(self, tag: u32, value: FieldValue) -> TelemetryRecord {
        match (self, value) {
            (TelemetryRecord::LockState(_), FieldValue::Int32(v)) => if tag == 1 {
                TelemetryRecord::LockState(LockState { state: v })
            } else {
                self
            },
            (TelemetryRecord::Battery(b), FieldValue::Float(v)) => if tag == 1 {
                TelemetryRecord::Battery(BatteryData { battery_level_bits: v, ..b })
            } else {
                self
            },
            (TelemetryRecord::Battery(b), FieldValue::Bool(v)) => if tag == 2 {
                TelemetryRecord::Battery(BatteryData { is_charging: v, ..b })
            } else {
                self
            },
            (TelemetryRecord::Battery(b), FieldValue::Uint32(v)) => if tag == 3 {
                TelemetryRecord::Battery(BatteryData { estimated_range: v, ..b })
            } else if tag == 4 {
                TelemetryRecord::Battery(BatteryData { time_to_fully_charge: v, ..b })
            } else {
                self
            },
            (TelemetryRecord::Exterior(_), FieldValue::Float(v)) => if tag == 1 {
                TelemetryRecord::Exterior(Exterior { air_temperature_bits: v })
            } else {
                self
            },
            (TelemetryRecord::Speed(_), FieldValue::Float(v)) => if tag == 1 {
                TelemetryRecord::Speed(Speed { value_bits: v })
            } else {
                self
            },
            (TelemetryRecord::TripData(t), FieldValue::Float(v)) => if tag == 1 {
                TelemetryRecord::TripData(TripData { traveled_distance_bits: v, ..t })
            } else if tag == 2 {
                TelemetryRecord::TripData(TripData { traveled_distance_since_start_bits: v, ..t })
            } else if tag == 3 {
                TelemetryRecord::TripData(TripData { average_speed_bits: v, ..t })
            } else {
                self
            },
            (TelemetryRecord::TripData(t), FieldValue::Uint32(v)) => if tag == 4 {
                TelemetryRecord::TripData(TripData { trip_duration: v, ..t })
            } else {
                self
            },
            _ => self,
        }
    }

    /// The record of `kind` in which every field has its default.
    pub fn new(kind: TelemetryKind) -> (record: TelemetryRecord)
        ensures
            record == TelemetryRecord::empty(kind),
    {
        match kind {
            TelemetryKind::LockState => TelemetryRecord::LockState(LockState { state: 0 }),
            TelemetryKind::Battery => TelemetryRecord::Battery(
                BatteryData {
                    battery_level_bits: 0,
                    is_charging: false,
                    estimated_range: 0,
                    time_to_fully_charge: 0,
                },
            ),
            TelemetryKind::Exterior => TelemetryRecord::Exterior(
                Exterior { air_temperature_bits: 0 },
            ),
            TelemetryKind::Speed => TelemetryRecord::Speed(Speed { value_bits: 0 }),
            TelemetryKind::TripData => TelemetryRecord::TripData(
                TripData {
                    traveled_distance_bits: 0,
                    traveled_distance_since_start_bits: 0,
                    average_speed_bits: 0,
                    trip_duration: 0,
                },
            ),
        }
    }

    /// The kind of this record.
    pub fn get_kind(&self) -> (kind: TelemetryKind)
        ensures
            kind == self.kind(),
    {
        match self {
            TelemetryRecord::LockState(_) => TelemetryKind::LockState,
            TelemetryRecord::Battery(_) => TelemetryKind::Battery,
            TelemetryRecord::Exterior(_) => TelemetryKind::Exterior,
            TelemetryRecord::Speed(_) => TelemetryKind::Speed,
            TelemetryRecord::TripData(_) => TelemetryKind::TripData,
        }
    }

    /// This record with field number `tag` replaced by `value`.
    pub fn set_field(self, tag: u32, value: FieldValue) -> (record: TelemetryRecord)
        ensures
            record == self.with_field(tag, value),
    {
        match (self, value) {
            (TelemetryRecord::LockState(_), FieldValue::Int32(v)) => if tag == 1 {
                TelemetryRecord::LockState(LockState { state: v })
            } else {
                self
            },
            (TelemetryRecord::Battery(b), FieldValue::Float(v)) => if tag == 1 {
                TelemetryRecord::Battery(BatteryData { battery_level_bits: v, ..b })
            } else {
                self
            },
            (TelemetryRecord::Battery(b), FieldValue::Bool(v)) => if tag == 2 {
                TelemetryRecord::Battery(BatteryData { is_charging: v, ..b })
            } else {
                self
            },
            (TelemetryRecord::Battery(b), FieldValue::Uint32(v)) => if tag == 3 {
                TelemetryRecord::Battery(BatteryData { estimated_range: v, ..b })
            } else if tag == 4 {
                TelemetryRecord::Battery(BatteryData { time_to_fully_charge: v, ..b })
            } else {
                self
            },
            (TelemetryRecord::Exterior(_), FieldValue::Float(v)) => if tag == 1 {
                TelemetryRecord::Exterior(Exterior { air_temperature_bits: v })
            } else {
                self
            },
            (TelemetryRecord::Speed(_), FieldValue::Float(v)) => if tag == 1 {
                TelemetryRecord::Speed(Speed { value_bits: v })
            } else {
                self
            },
            (TelemetryRecord::TripData(t), FieldValue::Float(v)) => if tag == 1 {
                TelemetryRecord::TripData(TripData { traveled_distance_bits: v, ..t })
            } else if tag == 2 {
                TelemetryRecord::TripData(TripData { traveled_distance_since_start_bits: v, ..t })
            } else if tag == 3 {
                TelemetryRecord::TripData(TripData { average_speed_bits: v, ..t })
            } else {
                self
            },
            (TelemetryRecord::TripData(t), FieldValue::Uint32(v)) => if tag == 4 {
                TelemetryRecord::TripData(TripData { trip_duration: v, ..t })
            } else {
                self
            },
            _ => self,
        }
    }
}

/// What merging the fields encoded in `buf` into `record` gives: the record
/// after the last field, or the failure at the first field that is rejected.
pub open spec fn merge_fields(record: TelemetryRecord, buf: Seq<u8>) -> Result<
    TelemetryRecord,
    DecodeFailure,
>
    decreases buf.len(),
{
    if buf.len() == 0 {
        Ok(record)
    } else if !key_ok(buf) {
        Err(DecodeFailure::InvalidKey)
    } else {
        let key = key_of(buf);
        let body = buf.skip(varint_len(buf) as int);
        match schema(record.kind(), key.tag) {
            Some(field_type) => match field_of(field_type, key, body) {
                Ok((value, n)) => merge_fields(record.with_field(key.tag, value), body.skip(n as int)),
                Err(e) => Err(e),
            },
            None => match skip_len(key.wire_type, body, group_len(key.tag, body)) {
                Some(n) => merge_fields(record, body.skip(n as int)),
                None => Err(DecodeFailure::InvalidValue { tag: key.tag }),
            },
        }
    }
}

/// What a payload of `kind` decodes to.
pub open spec fn decoded(kind: TelemetryKind, payload: Seq<u8>) -> Result<
    TelemetryRecord,
    DecodeFailure,
> {
    merge_fields(TelemetryRecord::empty(kind), payload)
}

/// Decodes a payload into a record of `kind`.
///
/// Never panics: a payload that is cut short or malformed gives the failure
/// of its first bad field.
pub fn decode(kind: TelemetryKind, payload: &[u8]) -> (r: Result<TelemetryRecord, DecodeFailure>)
    ensures
        r == decoded(kind, payload@),
{
    let mut record = TelemetryRecord::new(kind);
    let mut rest: &[u8] = payload;
    while rest.len() > 0
        invariant
            record.kind() == kind,
            merge_fields(record, rest@) == decoded(kind, payload@),
        decreases rest@.len(),
    {
        let (key, body) = match decode_key(rest) {
            Ok(found) => found,
            Err(_) => {
                return Err(DecodeFailure::InvalidKey);
            },
        };
        match field_type(kind, key.tag) {
            Some(field_type) => match read_field(field_type, key, body) {
                Ok((value, after)) => {
                    record = record.set_field(key.tag, value);
                    rest = after;
                },
                Err(e) => {
                    return Err(e);
                },
            },
            None => match skip_field(key.wire_type, key.tag, body) {
                Ok(after) => {
                    rest = after;
                },
                Err(_) => {
                    return Err(DecodeFailure::InvalidValue { tag: key.tag });
                },
            },
        }
    }
    Ok(record)
}

/// Merging fields never changes the kind of a record.
pub proof fn law_merge_keeps_kind(record: TelemetryRecord, buf: Seq<u8>)
    ensures
        merge_fields(record, buf) matches Ok(merged) ==> merged.kind() == record.kind(),
    decreases buf.len(),
{
    if buf.len() > 0 && key_ok(buf) {
        let key = key_of(buf);
        let body = buf.skip(varint_len(buf) as int);
        match schema(record.kind(), key.tag) {
            Some(field_type) => match field_of(field_type, key, body) {
                Ok((value, n)) => {
                    law_merge_keeps_kind(record.with_field(key.tag, value), body.skip(n as int));
                },
                Err(_) => {},
            },
            None => match skip_len(key.wire_type, body, group_len(key.tag, body)) {
                Some(n) => {
                    law_merge_keeps_kind(record, body.skip(n as int));
                },
                None => {},
            },
        }
    }
}

/// A payload of a kind decodes to a record of that kind.
pub proof fn law_decoded_kind(kind: TelemetryKind, payload: Seq<u8>)
    ensures
        decoded(kind, payload) matches Ok(record) ==> record.kind() == kind,
{
    law_merge_keeps_kind(TelemetryRecord::empty(kind), payload);
}

/// A field that the schema does not know changes nothing: where its value
/// can be skipped, the payload decodes as if the field were not there.
pub proof fn law_unknown_field_is_skipped(record: TelemetryRecord, buf: Seq<u8>)
    requires
        buf.len() > 0,
        key_ok(buf),
        schema(record.kind(), key_of(buf).tag) is None,
    ensures
        ({
            let key = key_of(buf);
            let body = buf.skip(varint_len(buf) as int);
            match skip_len(key.wire_type, body, group_len(key.tag, body)) {
                Some(n) => merge_fields(record, buf) == merge_fields(record, body.skip(n as int)),
                None => merge_fields(record, buf) == Err::<TelemetryRecord, DecodeFailure>(
                    DecodeFailure::InvalidValue { tag: key.tag },
                ),
            }
        }),
{
}

/// A field of the schema replaces what the record held for it: the payload
/// decodes as what follows the field does, merged into the record with that
/// field set. So of a field that occurs twice the later value stays.
pub proof fn law_known_field_is_set(record: TelemetryRecord, buf: Seq<u8>)
    requires
        buf.len() > 0,
        key_ok(buf),
        schema(record.kind(), key_of(buf).tag) is Some,
    ensures
        ({
            let key = key_of(buf);
            let body = buf.skip(varint_len(buf) as int);
            match field_of(schema(record.kind(), key.tag)->0, key, body) {
                Ok((value, n)) => merge_fields(record, buf) == merge_fields(
                    record.with_field(key.tag, value),
                    body.skip(n as int),
                ),
                Err(e) => merge_fields(record, buf) == Err::<TelemetryRecord, DecodeFailure>(e),
            }
        }),
{
}

} // verus!
