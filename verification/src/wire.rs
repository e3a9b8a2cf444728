//! The binary message of a timestamp: field 1 holds the seconds, field 2 the
//! nanoseconds, both as variable-length integers. A field that is zero is
//! left out; a reader skips fields it does not know.

use crate::timestamp::Timestamp;
use prost::encoding::{DecodeContext, WireType};
use vstd::prelude::*;

verus! {

/// Why a byte string is not a timestamp message.
#[derive(Clone, Copy, PartialEq, Eq, Structural, Debug)]
pub enum WireError {
    /// A field key is cut short, too large, of an unknown wire type, or has
    /// field number zero.
    InvalidKey,
    /// Field 1 is not a variable-length integer.
    InvalidSeconds,
    /// Field 2 is not a variable-length integer.
    InvalidNanoseconds,
    /// A field with another number cannot be skipped.
    InvalidUnknownField,
}

/// `prost::DecodeError`, the error of the functions that read a message.
/// Nothing is known of its contents.
#[verifier::external_type_specification]
#[verifier::external_body]
pub struct ExDecodeError(prost::DecodeError);

/// The field number of the seconds.
pub const SECONDS_TAG: u32 = 1;

/// The field number of the nanoseconds.
pub const NANOSECONDS_TAG: u32 = 2;

/// The wire type of a variable-length integer.
pub const VARINT_WIRE: u8 = 0;

/// The bytes of a variable-length integer: seven bits a byte, lowest first,
/// the top bit set on every byte but the last.
pub open spec fn varint(v: nat) -> Seq<u8>
    decreases v,
{
    if v < 128 {
        seq![v as u8]
    } else {
        seq![(v % 128 + 128) as u8] + varint(v / 128)
    }
}

/// Reads a variable-length integer at the front of `s`, of which `index`
/// bytes were read before: the value and the number of bytes it takes. There
/// is none where `s` ends before a byte without the top bit, where that byte
/// would be the eleventh, or where the tenth holds more than the one bit
/// that is left of sixty-four.
pub open spec fn parse_varint_from(s: Seq<u8>, index: nat) -> Option<(nat, nat)>
    decreases 10 - index,
{
    if index >= 10 || s.len() == 0 {
        None
    } else if s[0] < 128 {
        if index == 9 && s[0] >= 2 {
            None
        } else {
            Some((s[0] as nat, 1))
        }
    } else {
        match parse_varint_from(s.skip(1), index + 1) {
            Some((v, n)) => Some(((s[0] - 128 + 128 * v) as nat, n + 1)),
            None => None,
        }
    }
}

/// Reads a variable-length integer at the front of `s`.
pub open spec fn parse_varint(s: Seq<u8>) -> Option<(nat, nat)> {
    parse_varint_from(s, 0)
}

/// Reads a field key at the front of `s`: the field number, the wire type
/// and the number of bytes taken.
pub open spec fn parse_key(s: Seq<u8>) -> Option<(u32, u8, nat)> {
    match parse_varint(s) {
        Some((key, n)) => if key > u32::MAX || key % 8 > 5 || key / 8 == 0 {
            None
        } else {
            Some(((key / 8) as u32, (key % 8) as u8, n))
        },
        None => None,
    }
}

/// Reads the value of an integer field of the given wire type.
pub open spec fn parse_int_field(wire: u8, s: Seq<u8>) -> Option<(nat, nat)> {
    if wire == VARINT_WIRE {
        parse_varint(s)
    } else {
        None
    }
}

/// The unsigned value that carries a signed 64-bit field.
pub open spec fn uint_of_i64(v: i64) -> nat {
    (v as u64) as nat
}

/// The unsigned value that carries a signed 32-bit field, sign-extended.
pub open spec fn uint_of_i32(v: i32) -> nat {
    ((v as i64) as u64) as nat
}

/// The signed 64-bit field that an unsigned value carries.
pub open spec fn i64_of_uint(v: nat) -> i64 {
    (v as u64) as i64
}

/// The signed 32-bit field that an unsigned value carries: its low bits.
pub open spec fn i32_of_uint(v: nat) -> i32 {
    (v as u64) as i32
}

/// The bytes of one integer field: its key, then its value.
pub open spec fn field_bytes(tag: u32, value: nat) -> Seq<u8> {
    varint((tag * 8) as nat) + varint(value)
}

/// The message of a timestamp.
pub open spec fn encoding(ts: Timestamp) -> Seq<u8> {
    (if ts.seconds != 0 {
        field_bytes(SECONDS_TAG, uint_of_i64(ts.seconds))
    } else {
        Seq::<u8>::empty()
    }) + (if ts.nanoseconds != 0 {
        field_bytes(NANOSECONDS_TAG, uint_of_i32(ts.nanoseconds))
    } else {
        Seq::<u8>::empty()
    })
}

/// `s` without its first `n` bytes.
pub open spec fn drop_front(s: Seq<u8>, n: nat) -> Seq<u8> {
    if n <= s.len() {
        s.skip(n as int)
    } else {
        Seq::<u8>::empty()
    }
}

/// How many bytes `prost::encoding::skip_field` passes over at the front of
/// `s` for a field of the given wire type and number, if it can.
pub uninterp spec fn skipped_len(wire: u8, tag: u32, s: Seq<u8>) -> Option<nat>;

/// Reads the fields of `s` one after another into `acc`: a later value of a
/// field replaces an earlier one, and unknown fields are passed over.
pub open spec fn merging(acc: Timestamp, s: Seq<u8>) -> Result<Timestamp, WireError>
    decreases s.len(),
{
    if s.len() == 0 {
        Ok(acc)
    } else {
        match parse_key(s) {
            None => Err(WireError::InvalidKey),
            Some((tag, wire, n)) => {
                let body = drop_front(s, n);
                if tag == SECONDS_TAG {
                    match parse_int_field(wire, body) {
                        None => Err(WireError::InvalidSeconds),
                        Some((v, m)) => merging(
                            Timestamp { seconds: i64_of_uint(v), nanoseconds: acc.nanoseconds },
                            drop_front(body, m),
                        ),
                    }
                } else if tag == NANOSECONDS_TAG {
                    match parse_int_field(wire, body) {
                        None => Err(WireError::InvalidNanoseconds),
                        Some((v, m)) => merging(
                            Timestamp { seconds: acc.seconds, nanoseconds: i32_of_uint(v) },
                            drop_front(body, m),
                        ),
                    }
                } else {
                    match skipped_len(wire, tag, body) {
                        None => Err(WireError::InvalidUnknownField),
                        Some(m) => merging(acc, drop_front(body, m)),
                    }
                }
            },
        }
    }
}

/// What a byte string says as a timestamp message.
pub open spec fn decoding(s: Seq<u8>) -> Result<Timestamp, WireError> {
    merging(Timestamp::empty(), s)
}

/// `prost::encoding::int64::encode`: appends the key of a variable-length
/// field with this number, then the value's sixty-four bits as a
/// variable-length integer.
#[verifier::external_body]
fn put_int64(tag: u32, value: i64, buf: &mut Vec<u8>)
    requires
        1 <= tag < 0x2000_0000,
    ensures
        final(buf)@ == old(buf)@ + field_bytes(tag, uint_of_i64(value)),
{
    prost::encoding::int64::encode(tag, &value, buf);
}

/// `prost::encoding::int32::encode`: appends the key of a variable-length
/// field with this number, then the value, sign-extended to sixty-four bits,
/// as a variable-length integer.
#[verifier::external_body]
fn put_int32(tag: u32, value: i32, buf: &mut Vec<u8>)
    requires
        1 <= tag < 0x2000_0000,
    ensures
        final(buf)@ == old(buf)@ + field_bytes(tag, uint_of_i32(value)),
{
    prost::encoding::int32::encode(tag, &value, buf);
}

/// `prost::encoding::decode_key`: reads a variable-length integer, refuses
/// one above thirty-two bits, a wire type above five and field number zero,
/// and hands back the number, the wire type and the bytes that follow.
#[verifier::external_body]
fn take_key<'a>(buf: &'a [u8]) -> (r: Result<(u32, u8, &'a [u8]), prost::DecodeError>)
    ensures
        match r {
            Ok((tag, wire, rest)) => parse_key(buf@) matches Some((t, w, n)) && tag == t && wire
                == w && n <= buf@.len() && rest@ == buf@.skip(n as int),
            Err(_) => parse_key(buf@) is None,
        },
{
    let mut rest = buf;
    let (tag, wire_type) = prost::encoding::decode_key(&mut rest)?;
    Ok((tag, wire_type as u8, rest))
}

/// `prost::encoding::int64::merge`: refuses a wire type other than the
/// variable-length one, reads a variable-length integer and hands back its
/// sixty-four bits as a signed value, with the bytes that follow.
#[verifier::external_body]
fn take_int64<'a>(wire: u8, buf: &'a [u8]) -> (r: Result<(i64, &'a [u8]), prost::DecodeError>)
    requires
        wire <= 5,
    ensures
        match r {
            Ok((value, rest)) => parse_int_field(wire, buf@) matches Some((v, n)) && value
                == i64_of_uint(v) && n <= buf@.len() && rest@ == buf@.skip(n as int),
            Err(_) => parse_int_field(wire, buf@) is None,
        },
{
    let mut rest = buf;
    let mut value = 0i64;
    let wire_type = WireType::try_from(u64::from(wire))?;
    prost::encoding::int64::merge(wire_type, &mut value, &mut rest, DecodeContext::default())?;
    Ok((value, rest))
}

/// `prost::encoding::int32::merge`: refuses a wire type other than the
/// variable-length one, reads a variable-length integer and hands back its
/// low thirty-two bits as a signed value, with the bytes that follow.
#[verifier::external_body]
fn take_int32<'a>(wire: u8, buf: &'a [u8]) -> (r: Result<(i32, &'a [u8]), prost::DecodeError>)
    requires
        wire <= 5,
    ensures
        match r {
            Ok((value, rest)) => parse_int_field(wire, buf@) matches Some((v, n)) && value
                == i32_of_uint(v) && n <= buf@.len() && rest@ == buf@.skip(n as int),
            Err(_) => parse_int_field(wire, buf@) is None,
        },
{
    let mut rest = buf;
    let mut value = 0i32;
    let wire_type = WireType::try_from(u64::from(wire))?;
    prost::encoding::int32::merge(wire_type, &mut value, &mut rest, DecodeContext::default())?;
    Ok((value, rest))
}

/// `prost::encoding::skip_field`, at the top of a message: passes over the
/// value of a field that the message does not know and hands back the bytes
/// that follow, which are a tail of those given.
#[verifier::external_body]
fn skip_unknown<'a>(wire: u8, tag: u32, buf: &'a [u8]) -> (r: Result<&'a [u8], prost::DecodeError>)
    requires
        wire <= 5,
    ensures
        match r {
            Ok(rest) => skipped_len(wire, tag, buf@) matches Some(n) && n <= buf@.len() && rest@
                == buf@.skip(n as int),
            Err(_) => skipped_len(wire, tag, buf@) is None,
        },
{
    let mut rest = buf;
    let wire_type = WireType::try_from(u64::from(wire))?;
    prost::encoding::skip_field(wire_type, tag, &mut rest, DecodeContext::default())?;
    Ok(rest)
}

impl Timestamp {
    /// The message of the timestamp.
    pub fn encode_to_vec(&self) -> (r: Vec<u8>)
        ensures
            r@ == encoding(*self),
    {
        let mut buf: Vec<u8> = Vec::new();
        if self.seconds != 0 {
            put_int64(SECONDS_TAG, self.seconds, &mut buf);
        }
        if self.nanoseconds != 0 {
            put_int32(NANOSECONDS_TAG, self.nanoseconds, &mut buf);
        }
        assert(buf@ =~= encoding(*self));
        buf
    }

    /// Reads a timestamp from its message. Fields that are absent stay zero.
    pub fn decode(bytes: &[u8]) -> (r: Result<Timestamp, WireError>)
        ensures
            r == decoding(bytes@),
    {
        let mut ts = Timestamp { seconds: 0, nanoseconds: 0 };
        let mut rest: &[u8] = bytes;
        while rest.len() > 0
            invariant
                merging(ts, rest@) == decoding(bytes@),
            decreases rest@.len(),
        {
            let (tag, wire, body) = match take_key(rest) {
                Ok(k) => k,
                Err(_) => {
                    return Err(WireError::InvalidKey);
                },
            };
            if tag == SECONDS_TAG {
                match take_int64(wire, body) {
                    Ok((v, after)) => {
                        ts = Timestamp { seconds: v, nanoseconds: ts.nanoseconds };
                        rest = after;
                    },
                    Err(_) => {
                        return Err(WireError::InvalidSeconds);
                    },
                }
            } else if tag == NANOSECONDS_TAG {
                match take_int32(wire, body) {
                    Ok((v, after)) => {
                        ts = Timestamp { seconds: ts.seconds, nanoseconds: v };
                        rest = after;
                    },
                    Err(_) => {
                        return Err(WireError::InvalidNanoseconds);
                    },
                }
            } else {
                match skip_unknown(wire, tag, body) {
                    Ok(after) => {
                        rest = after;
                    },
                    Err(_) => {
                        return Err(WireError::InvalidUnknownField);
                    },
                }
            }
        }
        Ok(ts)
    }
}

/// A variable-length integer that can be read takes at least one byte and
/// no more than there are.
pub proof fn lemma_parse_varint_len(s: Seq<u8>, index: nat)
    ensures
        parse_varint_from(s, index) matches Some((v, n)) ==> 1 <= n <= s.len() && n <= 10 - index,
    decreases 10 - index,
{
    if index < 10 && s.len() > 0 && s[0] >= 128 {
        lemma_parse_varint_len(s.skip(1), index + 1);
    }
}

/// The largest value, and one more, that fits the bytes left after `index`
/// of the ten were read.
pub open spec fn varint_bound(index: nat) -> nat
    decreases 10 - index,
{
    if index >= 9 {
        2
    } else {
        128 * varint_bound(index + 1)
    }
}

/// A variable-length integer is read back from its bytes, whatever follows
/// them, as long as it fits the bytes that are left.
pub proof fn lemma_varint_round_trip(v: nat, index: nat, rest: Seq<u8>)
    requires
        index <= 9,
        v < varint_bound(index),
    ensures
        parse_varint_from(varint(v) + rest, index) == Some((v, varint(v).len())),
        drop_front(varint(v) + rest, varint(v).len()) == rest,
    decreases v,
{
    let s = varint(v) + rest;
    assert(s.skip(varint(v).len() as int) =~= rest);
    if v < 128 {
        assert(s[0] == v as u8);
    } else {
        assert(s[0] == (v % 128 + 128) as u8);
        assert(s.skip(1) =~= varint(v / 128) + rest);
        lemma_varint_round_trip(v / 128, index + 1, rest);
    }
}

/// Every value of sixty-four bits is read back from its bytes, whatever
/// follows them.
pub proof fn lemma_varint_u64_round_trip(v: u64, rest: Seq<u8>)
    ensures
        parse_varint(varint(v as nat) + rest) == Some((v as nat, varint(v as nat).len())),
        drop_front(varint(v as nat) + rest, varint(v as nat).len()) == rest,
{
    reveal_with_fuel(varint_bound, 10);
    lemma_varint_round_trip(v as nat, 0, rest);
}

/// One integer field at the front of a message sets that field, leaves the
/// other as it was, and the rest of the message is read after it.
pub proof fn lemma_field_merges(acc: Timestamp, tag: u32, value: u64, rest: Seq<u8>)
    requires
        tag == SECONDS_TAG || tag == NANOSECONDS_TAG,
    ensures
        merging(acc, field_bytes(tag, value as nat) + rest) == merging(
            if tag == SECONDS_TAG {
                Timestamp { seconds: i64_of_uint(value as nat), nanoseconds: acc.nanoseconds }
            } else {
                Timestamp { seconds: acc.seconds, nanoseconds: i32_of_uint(value as nat) }
            },
            rest,
        ),
{
    let key = (tag * 8) as nat;
    let s = field_bytes(tag, value as nat) + rest;
    let body = varint(value as nat) + rest;
    assert(s =~= varint(key) + body);
    lemma_varint_u64_round_trip((tag * 8) as u64, body);
    assert(varint(key).len() == 1);
    lemma_varint_u64_round_trip(value, rest);
}

/// A message that is written and read again gives the timestamp it was
/// written from: every pair of seconds and nanoseconds, negative ones and
/// zeros too.
pub proof fn lemma_wire_round_trip(ts: Timestamp)
    ensures
        decoding(encoding(ts)) == Ok::<Timestamp, WireError>(ts),
{
    let s: i64 = ts.seconds;
    let n: i32 = ts.nanoseconds;
    assert((s as u64) as i64 == s) by (bit_vector);
    assert(((n as i64) as u64) as i32 == n) by (bit_vector);
    let empty = Seq::<u8>::empty();
    let tail = if n != 0 {
        field_bytes(NANOSECONDS_TAG, uint_of_i32(n))
    } else {
        empty
    };
    let mid = Timestamp { seconds: s, nanoseconds: 0 };
    if s != 0 {
        lemma_field_merges(Timestamp::empty(), SECONDS_TAG, s as u64, tail);
    } else {
        assert(encoding(ts) =~= tail);
    }
    assert(merging(Timestamp::empty(), encoding(ts)) == merging(mid, tail));
    if n != 0 {
        lemma_field_merges(mid, NANOSECONDS_TAG, (n as i64) as u64, empty);
        assert(tail + empty =~= tail);
    }
}

} // verus!
