//! The Protocol Buffers wire format, as far as telemetry payloads need it.
//!
//! Keys, varints, fixed 32-bit values and the skipping of unknown fields are
//! read by `prost`; this module states what those readers return and builds
//! the typed field readers on them.

use vstd::prelude::*;

verus! {

/// Error of the `prost` readers. Nothing of its content is used.
#[verifier::external_type_specification]
#[verifier::external_body]
pub struct ExProstDecodeError(prost::DecodeError);

/// Why a payload was rejected.
#[derive(Clone, Copy, Debug, PartialEq, Eq, Structural)]
pub enum DecodeFailure {
    /// Where a field should start there is no well-formed key: the varint is
    /// cut short, too long or above 32 bits, the field number is zero, or the
    /// wire type is none of the six that exist.
    InvalidKey,
    /// A field of the schema arrived with another wire type than the schema gives it.
    WireTypeMismatch { tag: u32 },
    /// The value of the field with this number is cut short or malformed.
    InvalidValue { tag: u32 },
}

/// How the value of a field is laid out on the wire.
#[derive(Clone, Copy, Debug, PartialEq, Eq, Structural)]
pub enum WireType {
    Varint,
    SixtyFourBit,
    LengthDelimited,
    StartGroup,
    EndGroup,
    ThirtyTwoBit,
}

impl WireType {
    /// The wire type that the low three bits of a key stand for.
    pub open spec fn from_number(n: nat) -> WireType
        recommends
            n <= 5,
    {
        if n == 0 {
            WireType::Varint
        } else if n == 1 {
            WireType::SixtyFourBit
        } else if n == 2 {
            WireType::LengthDelimited
        } else if n == 3 {
            WireType::StartGroup
        } else if n == 4 {
            WireType::EndGroup
        } else {
            WireType::ThirtyTwoBit
        }
    }
}

/// The key in front of every field: its number and its wire type.
#[derive(Clone, Copy, Debug, PartialEq, Eq, Structural)]
pub struct FieldKey {
    pub tag: u32,
    pub wire_type: WireType,
}

/// Length of the varint at the front of `buf`: the position just after the
/// first byte below `0x80`. Where no such byte exists the result is one more
/// than the length of `buf`.
pub open spec fn varint_len(buf: Seq<u8>) -> nat
    decreases buf.len(),
{
    if buf.len() == 0 || buf[0] < 0x80 {
        1
    } else {
        1 + varint_len(buf.skip(1))
    }
}

/// Value of the varint at the front of `buf`: seven bits per byte, least
/// significant group first.
pub open spec fn varint_value(buf: Seq<u8>) -> nat
    decreases buf.len(),
{
    if buf.len() == 0 {
        0
    } else if buf[0] < 0x80 {
        buf[0] as nat
    } else {
        (buf[0] - 0x80) as nat + 128 * varint_value(buf.skip(1))
    }
}

/// Whether `buf` starts with a varint that is accepted: it ends within `buf`,
/// is at most ten bytes long, and a tenth byte holds no more than the one bit
/// that still fits in 64.
pub open spec fn varint_ok(buf: Seq<u8>) -> bool {
    &&& varint_len(buf) <= buf.len()
    &&& varint_len(buf) <= 10
    &&& varint_len(buf) == 10 ==> buf[9] < 2
}

/// Whether `buf` starts with a field key that is accepted: a varint that fits
/// 32 bits, with a wire type that exists and a field number other than zero.
pub open spec fn key_ok(buf: Seq<u8>) -> bool {
    &&& varint_ok(buf)
    &&& varint_value(buf) <= u32::MAX
    &&& varint_value(buf) % 8 <= 5
    &&& varint_value(buf) / 8 >= 1
}

/// The field key at the front of `buf`: the low three bits of the varint are
/// the wire type, the bits above them the field number.
pub open spec fn key_of(buf: Seq<u8>) -> FieldKey {
    FieldKey {
        tag: (varint_value(buf) / 8) as u32,
        wire_type: WireType::from_number(varint_value(buf) % 8),
    }
}

/// The little-endian 32-bit value in the first four bytes of `buf`.
pub open spec fn fixed32_value(buf: Seq<u8>) -> u32
    recommends
        buf.len() >= 4,
{
    (buf[0] + 0x100 * buf[1] + 0x1_0000 * buf[2] + 0x100_0000 * buf[3]) as u32
}

/// Number of bytes that `prost` skips for a group of field number `tag` whose
/// content starts `buf`: everything up to and including the matching end-group
/// key, nested groups included. `None` where it rejects the group.
pub uninterp spec fn group_len(tag: u32, buf: Seq<u8>) -> Option<nat>;

/// Number of bytes that the value of an unknown field takes at the front of
/// `buf`, or `None` where the value is cut short or malformed. `group` is the
/// length of the group that starts there, for the one wire type that needs it.
pub open spec fn skip_len(wire_type: WireType, buf: Seq<u8>, group: Option<nat>) -> Option<nat> {
    match wire_type {
        WireType::Varint => if varint_ok(buf) {
            Some(varint_len(buf))
        } else {
            None
        },
        WireType::SixtyFourBit => if buf.len() >= 8 {
            Some(8)
        } else {
            None
        },
        WireType::ThirtyTwoBit => if buf.len() >= 4 {
            Some(4)
        } else {
            None
        },
        WireType::LengthDelimited => if varint_ok(buf) && varint_len(buf) + varint_value(buf)
            <= buf.len() {
            Some(varint_len(buf) + varint_value(buf))
        } else {
            None
        },
        WireType::StartGroup => match group {
            Some(n) => if n <= buf.len() {
                Some(n)
            } else {
                None
            },
            None => None,
        },
        WireType::EndGroup => None,
    }
}

/// Reads a varint with `prost::encoding::decode_varint`.
///
/// Claims that the call succeeds exactly on a varint that `varint_ok`
/// accepts, returns the value that `varint_value` gives, and leaves the input
/// just after the varint.
#[verifier::external_body]
pub(crate) fn decode_varint<'a>(buf: &'a [u8]) -> (r: Result<(u64, &'a [u8]), prost::DecodeError>)
    ensures
        r is Ok <==> varint_ok(buf@),
        r matches Ok((value, rest)) ==> value == varint_value(buf@) && rest@ == buf@.skip(
            varint_len(buf@) as int,
        ),
{
    let mut rest = buf;
    let value = prost::encoding::decode_varint(&mut rest)?;
    Ok((value, rest))
}

/// Reads a field key with `prost::encoding::decode_key`.
///
/// Claims that the call succeeds exactly on a key that `key_ok` accepts,
/// returns the field number and wire type that `key_of` gives, and leaves the
/// input just after the key's varint.
#[verifier::external_body]
pub(crate) fn decode_key<'a>(buf: &'a [u8]) -> (r: Result<(FieldKey, &'a [u8]), prost::DecodeError>)
    ensures
        r is Ok <==> key_ok(buf@),
        r matches Ok((key, rest)) ==> key == key_of(buf@) && rest@ == buf@.skip(
            varint_len(buf@) as int,
        ),
{
    let mut rest = buf;
    let (tag, wire_type) = prost::encoding::decode_key(&mut rest)?;
    let wire_type = match wire_type {
        prost::encoding::WireType::Varint => WireType::Varint,
        prost::encoding::WireType::SixtyFourBit => WireType::SixtyFourBit,
        prost::encoding::WireType::LengthDelimited => WireType::LengthDelimited,
        prost::encoding::WireType::StartGroup => WireType::StartGroup,
        prost::encoding::WireType::EndGroup => WireType::EndGroup,
        prost::encoding::WireType::ThirtyTwoBit => WireType::ThirtyTwoBit,
    };
    Ok((FieldKey { tag, wire_type }, rest))
}

/// Reads a fixed 32-bit value with `prost::encoding::fixed32::merge`. A
/// `float` has the same form on the wire, so this is also how the bit pattern
/// of one is read.
///
/// Claims that the call succeeds exactly where the wire type is
/// `ThirtyTwoBit` and at least four bytes are left, returns those four bytes
/// as a little-endian number, and leaves the input just after them.
#[verifier::external_body]
pub(crate) fn merge_fixed32<'a>(wire_type: WireType, buf: &'a [u8]) -> (r: Result<(u32, &'a [u8]), prost::DecodeError>)
    ensures
        r is Ok <==> (wire_type == WireType::ThirtyTwoBit && buf@.len() >= 4),
        r matches Ok((value, rest)) ==> value == fixed32_value(buf@) && rest@ == buf@.skip(4),
{
    let wire_type = match wire_type {
        WireType::Varint => prost::encoding::WireType::Varint,
        WireType::SixtyFourBit => prost::encoding::WireType::SixtyFourBit,
        WireType::LengthDelimited => prost::encoding::WireType::LengthDelimited,
        WireType::StartGroup => prost::encoding::WireType::StartGroup,
        WireType::EndGroup => prost::encoding::WireType::EndGroup,
        WireType::ThirtyTwoBit => prost::encoding::WireType::ThirtyTwoBit,
    };
    let mut rest = buf;
    let mut value: u32 = 0;
    let ctx = prost::encoding::DecodeContext::default();
    prost::encoding::fixed32::merge(wire_type, &mut value, &mut rest, ctx)?;
    Ok((value, rest))
}

/// Skips the value of a field with `prost::encoding::skip_field`, at the
/// outermost level of a message.
///
/// Claims that the call succeeds exactly where `skip_len` gives a length, and
/// then leaves the input that many bytes further. For a group that length is
/// whatever `prost` consumed, which never exceeds what was there.
#[verifier::external_body]
pub(crate) fn skip_field<'a>(wire_type: WireType, tag: u32, buf: &'a [u8]) -> (r: Result<&'a [u8], prost::DecodeError>)
    ensures
        r is Ok <==> skip_len(wire_type, buf@, group_len(tag, buf@)) is Some,
        r matches Ok(rest) ==> rest@ == buf@.skip(
            skip_len(wire_type, buf@, group_len(tag, buf@))->0 as int,
        ),
{
    let wire_type = match wire_type {
        WireType::Varint => prost::encoding::WireType::Varint,
        WireType::SixtyFourBit => prost::encoding::WireType::SixtyFourBit,
        WireType::LengthDelimited => prost::encoding::WireType::LengthDelimited,
        WireType::StartGroup => prost::encoding::WireType::StartGroup,
        WireType::EndGroup => prost::encoding::WireType::EndGroup,
        WireType::ThirtyTwoBit => prost::encoding::WireType::ThirtyTwoBit,
    };
    let mut rest = buf;
    let ctx = prost::encoding::DecodeContext::default();
    prost::encoding::skip_field(wire_type, tag, &mut rest, ctx)?;
    Ok(rest)
}

/// The scalar types that telemetry fields have.
#[derive(Clone, Copy, Debug, PartialEq, Eq, Structural)]
pub enum FieldType {
    /// A 32-bit IEEE 754 number, four bytes little-endian.
    Float,
    /// A varint, true where it is not zero.
    Bool,
    /// A varint, cut to its low 32 bits and read as two's complement.
    Int32,
    /// A varint, cut to its low 32 bits.
    Uint32,
}

impl FieldType {
    /// The wire type that a field of this type must arrive with.
    pub open spec fn wire_type(self) -> WireType {
        match self {
            FieldType::Float => WireType::ThirtyTwoBit,
            _ => WireType::Varint,
        }
    }
}

/// A decoded scalar. A `Float` is held as its IEEE 754 bit pattern.
#[derive(Clone, Copy, Debug, PartialEq, Eq, Structural)]
pub enum FieldValue {
    Float(u32),
    Bool(bool),
    Int32(i32),
    Uint32(u32),
}

/// The value of type `field_type` at the front of `buf` and the number of
/// bytes it takes, or `None` where it is cut short or malformed.
pub open spec fn value_of(field_type: FieldType, buf: Seq<u8>) -> Option<(FieldValue, nat)> {
    match field_type {
        FieldType::Float => if buf.len() >= 4 {
            Some((FieldValue::Float(fixed32_value(buf)), 4nat))
        } else {
            None
        },
        FieldType::Bool => if varint_ok(buf) {
            Some((FieldValue::Bool(varint_value(buf) != 0), varint_len(buf)))
        } else {
            None
        },
        FieldType::Int32 => if varint_ok(buf) {
            Some((FieldValue::Int32(varint_value(buf) as i32), varint_len(buf)))
        } else {
            None
        },
        FieldType::Uint32 => if varint_ok(buf) {
            Some((FieldValue::Uint32(varint_value(buf) as u32), varint_len(buf)))
        } else {
            None
        },
    }
}

/// What reading the field behind `key` as a `field_type` gives: the value and
/// its length, or the reason why the field is rejected. The wire type is
/// checked before the value is looked at.
pub open spec fn field_of(field_type: FieldType, key: FieldKey, buf: Seq<u8>) -> Result<
    (FieldValue, nat),
    DecodeFailure,
> {
    if key.wire_type != field_type.wire_type() {
        Err(DecodeFailure::WireTypeMismatch { tag: key.tag })
    } else {
        match value_of(field_type, buf) {
            Some(found) => Ok(found),
            None => Err(DecodeFailure::InvalidValue { tag: key.tag }),
        }
    }
}

/// The number of values that `n` groups of seven bits can hold.
spec fn groups_limit(n: nat) -> nat
    decreases n,
{
    if n == 0 {
        1
    } else {
        128 * groups_limit((n - 1) as nat)
    }
}

/// A varint that ends within `buf` is below what its length and its last
/// byte allow.
proof fn lemma_varint_value_bound(buf: Seq<u8>)
    requires
        varint_len(buf) <= buf.len(),
    ensures
        varint_value(buf) < groups_limit((varint_len(buf) - 1) as nat) * (buf[varint_len(buf) - 1]
            + 1),
        buf[varint_len(buf) - 1] < 0x80,
    decreases buf.len(),
{
    if buf[0] >= 0x80 {
        let tail = buf.skip(1);
        lemma_varint_value_bound(tail);
        let n = varint_len(tail);
        assert(varint_len(buf) == n + 1);
        assert(tail[n - 1] == buf[n as int]);
        let limit = groups_limit((n - 1) as nat);
        let last = tail[n - 1] + 1;
        let bound = limit * last;
        assert(varint_value(tail) < bound);
        assert(varint_value(buf) == (buf[0] - 0x80) + 128 * varint_value(tail));
        assert(varint_value(buf) < 128 * bound);
        assert(groups_limit(n) == 128 * limit);
        assert(128 * bound == groups_limit(n) * last) by (nonlinear_arith)
            requires
                bound == limit * last,
                groups_limit(n) == 128 * limit,
        ;
    } else {
        assert(groups_limit(0) == 1);
        assert(varint_len(buf) == 1);
        assert(groups_limit(0) * (buf[0] + 1) == buf[0] + 1);
    }
}

/// The value of a varint that is accepted fits 64 bits.
pub proof fn law_varint_fits_64_bits(buf: Seq<u8>)
    requires
        varint_ok(buf),
    ensures
        varint_value(buf) <= u64::MAX,
        1 <= varint_len(buf) <= buf.len(),
{
    lemma_varint_value_bound(buf);
    let n = varint_len(buf);
    let last = buf[n - 1];
    assert(groups_limit(0) == 1);
    assert(groups_limit(1) == 0x80);
    assert(groups_limit(2) == 0x4000);
    assert(groups_limit(3) == 0x20_0000);
    assert(groups_limit(4) == 0x1000_0000);
    assert(groups_limit(5) == 0x8_0000_0000);
    assert(groups_limit(6) == 0x400_0000_0000);
    assert(groups_limit(7) == 0x2_0000_0000_0000);
    assert(groups_limit(8) == 0x100_0000_0000_0000);
    assert(groups_limit(9) == 0x8000_0000_0000_0000);
    let limit = groups_limit((n - 1) as nat);
    assert(limit * (last + 1) <= 0x1_0000_0000_0000_0000) by (nonlinear_arith)
        requires
            (limit <= 0x100_0000_0000_0000 && last < 0x80) || (limit == 0x8000_0000_0000_0000
                && last < 2),
    ;
}

/// Reads the value of the field behind `key`, which the schema says is a
/// `field_type`, from the front of `buf`. On success the second component is
/// what follows the value.
pub fn read_field<'a>(field_type: FieldType, key: FieldKey, buf: &'a [u8]) -> (r: Result<(FieldValue, &'a [u8]), DecodeFailure>)
    ensures
        match r {
            Ok((value, rest)) => field_of(field_type, key, buf@) matches Ok((v, n)) && value == v
                && n <= buf@.len() && rest@ == buf@.skip(n as int),
            Err(e) => field_of(field_type, key, buf@) == Err::<(FieldValue, nat), DecodeFailure>(e),
        },
{
    let tag = key.tag;
    match field_type {
        FieldType::Float => {
            if key.wire_type != WireType::ThirtyTwoBit {
                return Err(DecodeFailure::WireTypeMismatch { tag });
            }
            match merge_fixed32(key.wire_type, buf) {
                Ok((bits, rest)) => Ok((FieldValue::Float(bits), rest)),
                Err(_) => Err(DecodeFailure::InvalidValue { tag }),
            }
        },
        _ => {
            if key.wire_type != WireType::Varint {
                return Err(DecodeFailure::WireTypeMismatch { tag });
            }
            match decode_varint(buf) {
                Ok((raw, rest)) => {
                    let value = match field_type {
                        FieldType::Bool => FieldValue::Bool(raw != 0),
                        FieldType::Int32 => FieldValue::Int32(raw as i32),
                        _ => FieldValue::Uint32(raw as u32),
                    };
                    Ok((value, rest))
                },
                Err(_) => Err(DecodeFailure::InvalidValue { tag }),
            }
        },
    }
}

} // verus!
