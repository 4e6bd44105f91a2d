use vehicle_dashboard::events::{decode, field_type, TelemetryKind, TelemetryRecord};
use vehicle_dashboard::wire::{DecodeFailure, FieldType, FieldValue};

// What the wire format says, written out once more and independently of the
// library: `None` stands for "a group was met", about which this file
// predicts nothing.

fn varint(buf: &[u8]) -> Option<(u64, usize)> {
    let mut value: u128 = 0;
    for (i, byte) in buf.iter().enumerate() {
        if i == 10 {
            return None;
        }
        value += u128::from(byte & 0x7f) << (7 * i);
        if *byte < 0x80 {
            if i == 9 && *byte >= 2 {
                return None;
            }
            return Some((value as u64, i + 1));
        }
    }
    None
}

fn expected(kind: TelemetryKind, payload: &[u8]) -> Option<Result<TelemetryRecord, DecodeFailure>> {
    let mut record = TelemetryRecord::new(kind);
    let mut rest = payload;
    while !rest.is_empty() {
        let (key, key_len) = match varint(rest) {
            Some(found) => found,
            None => return Some(Err(DecodeFailure::InvalidKey)),
        };
        if key > u64::from(u32::MAX) || key % 8 > 5 || key / 8 == 0 {
            return Some(Err(DecodeFailure::InvalidKey));
        }
        let tag = (key / 8) as u32;
        let wire = key % 8;
        let body = &rest[key_len..];
        let invalid = Some(Err(DecodeFailure::InvalidValue { tag }));
        let used = match field_type(kind, tag) {
            Some(FieldType::Float) => {
                if wire != 5 {
                    return Some(Err(DecodeFailure::WireTypeMismatch { tag }));
                }
                if body.len() < 4 {
                    return invalid;
                }
                let bits = u32::from_le_bytes([body[0], body[1], body[2], body[3]]);
                record = record.set_field(tag, FieldValue::Float(bits));
                4
            }
            Some(other) => {
                if wire != 0 {
                    return Some(Err(DecodeFailure::WireTypeMismatch { tag }));
                }
                let (raw, len) = match varint(body) {
                    Some(found) => found,
                    None => return invalid,
                };
                let value = match other {
                    FieldType::Bool => FieldValue::Bool(raw != 0),
                    FieldType::Int32 => FieldValue::Int32(raw as i32),
                    _ => FieldValue::Uint32(raw as u32),
                };
                record = record.set_field(tag, value);
                len
            }
            None => match wire {
                0 => match varint(body) {
                    Some((_, len)) => len,
                    None => return invalid,
                },
                1 if body.len() >= 8 => 8,
                5 if body.len() >= 4 => 4,
                2 => match varint(body) {
                    Some((len, used)) if len <= (body.len() - used) as u64 => used + len as usize,
                    _ => return invalid,
                },
                3 => return None,
                _ => return invalid,
            },
        };
        rest = &body[used..];
    }
    Some(Ok(record))
}

const KINDS: [TelemetryKind; 5] = [
    TelemetryKind::LockState,
    TelemetryKind::Battery,
    TelemetryKind::Exterior,
    TelemetryKind::Speed,
    TelemetryKind::TripData,
];

fn check(payload: &[u8]) -> usize {
    let mut compared = 0;
    for kind in KINDS {
        if let Some(want) = expected(kind, payload) {
            assert_eq!(decode(kind, payload), want, "kind {:?}, payload {:?}", kind, payload);
            compared += 1;
        }
    }
    compared
}

#[test]
fn every_payload_of_up_to_two_bytes_decodes_as_the_format_says() {
    let mut compared = check(&[]);
    for a in 0..=255u8 {
        compared += check(&[a]);
        for b in 0..=255u8 {
            compared += check(&[a, b]);
        }
    }
    assert!(compared > 250_000);
}

#[test]
fn three_byte_payloads_decode_as_the_format_says() {
    let mut compared = 0;
    for a in 0..=255u8 {
        for b in (0..=255u8).step_by(3) {
            for c in [0u8, 1, 2, 0x08, 0x0d, 0x10, 0x7f, 0x80, 0x81, 0xfe, 0xff] {
                compared += check(&[a, b, c]);
            }
        }
    }
    assert!(compared > 900_000);
}

struct Lcg(u64);

impl Lcg {
    fn next(&mut self) -> u64 {
        self.0 = self.0.wrapping_mul(6364136223846793005).wrapping_add(1442695040888963407);
        self.0 >> 33
    }
}

#[test]
fn random_field_sequences_decode_as_the_format_says() {
    let mut rng = Lcg(0x5eed);
    let mut accepted = 0;
    let mut rejected = 0;
    for _ in 0..40_000 {
        let mut payload = Vec::new();
        let fields = rng.next() % 6;
        for _ in 0..fields {
            let tag = 1 + rng.next() % 6;
            let wire = match rng.next() % 8 {
                0 | 1 | 2 => 0,
                3 | 4 => 5,
                5 => 1,
                6 => 2,
                _ => rng.next() % 8,
            };
            payload.push((tag * 8 + wire) as u8);
            let len = rng.next() % 12;
            for i in 0..len {
                let byte = rng.next() as u8;
                // mostly short varints, sometimes long ones
                payload.push(if i == 0 && rng.next() % 3 != 0 { byte & 0x7f } else { byte });
            }
        }
        if rng.next() % 4 == 0 && !payload.is_empty() {
            let cut = (rng.next() as usize) % payload.len();
            payload.truncate(cut);
        }
        for kind in KINDS {
            if let Some(want) = expected(kind, &payload) {
                let got = decode(kind, &payload);
                assert_eq!(got, want, "kind {:?}, payload {:?}", kind, payload);
                if got.is_ok() {
                    accepted += 1;
                } else {
                    rejected += 1;
                }
            }
        }
    }
    assert!(accepted > 1_000, "accepted {}", accepted);
    assert!(rejected > 1_000, "rejected {}", rejected);
}

#[test]
fn long_varints_decode_as_the_format_says() {
    let mut rng = Lcg(77);
    let mut accepted = 0;
    for round in 0..20_000 {
        let len = 1 + (rng.next() % 12) as usize;
        let mut payload = vec![0x08];
        for i in 0..len {
            let byte = rng.next() as u8;
            let last = i + 1 == len;
            let byte = if last { byte & 0x7f } else { byte | 0x80 };
            payload.push(if last && round % 2 == 0 { byte & 0x01 } else { byte });
        }
        let want = expected(TelemetryKind::LockState, &payload).unwrap();
        let got = decode(TelemetryKind::LockState, &payload);
        assert_eq!(got, want, "payload {:?}", payload);
        if got.is_ok() {
            accepted += 1;
        }
    }
    assert!(accepted > 5_000, "accepted {}", accepted);
}
