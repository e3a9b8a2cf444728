//! How a timestamp is held in a persistence column: the encoding that is in
//! force, the native values a column driver hands over, and the rules that
//! read and write them.

use crate::calendar::CalendarInstant;
use crate::timestamp::Timestamp;
use vstd::prelude::*;
use vstd::std_specs::convert::FromSpecImpl;

verus! {

/// The physical encoding of a timestamp column. One is chosen when the
/// persistence layer is set up, and it governs both writing and reading.
#[derive(Clone, Copy, PartialEq, Eq, Structural, Debug)]
pub enum StorageEncoding {
    /// A date-time with time zone, the encoding used unless another is asked for.
    DatetimeWithTimezone,
    /// Whole epoch seconds as a big integer; nanoseconds are not stored.
    IntegerSeconds,
    /// Epoch seconds as a double.
    DoubleSeconds,
}

/// The native type whose column and array declarations stand for a timestamp.
#[derive(Clone, Copy, PartialEq, Eq, Structural, Debug)]
pub enum NativeKind {
    Double,
    BigInt,
    DateTimeUtc,
}

/// Epoch seconds that the driver carries as a double, held as the two parts
/// that a double is split into and put together from at the boundary: the
/// whole seconds (its floor) and the fraction in nanoseconds.
#[derive(Clone, Copy, PartialEq, Eq, Structural, Debug)]
pub struct SplitSeconds {
    pub whole: i64,
    pub fraction_nanos: i32,
}

/// A value as a column driver hands it over or takes it. `None` inside a
/// variant is the null of that native type; `Other` is every native type
/// that a timestamp is never read from.
#[derive(Clone, Copy, PartialEq, Eq, Structural, Debug)]
pub enum NativeValue {
    DateTimeWithTimeZone(Option<CalendarInstant>),
    DateTimeUtc(Option<CalendarInstant>),
    BigInt(Option<i64>),
    Double(Option<SplitSeconds>),
    Int(Option<i32>),
    Other,
}

/// Why a value cannot become a timestamp.
#[derive(Clone, Copy, PartialEq, Eq, Structural, Debug)]
pub enum ConvertError {
    /// A generated row identity was offered as a timestamp.
    FromU64Unsupported,
}

impl ConvertError {
    /// The message of the error.
    pub fn message(&self) -> (r: &'static str)
        ensures
            r@ == "Timestamps not supported"@,
    {
        "Timestamps not supported"
    }
}

impl Default for StorageEncoding {
    fn default() -> (r: StorageEncoding)
        ensures
            r == StorageEncoding::DatetimeWithTimezone,
    {
        StorageEncoding::DatetimeWithTimezone
    }
}

impl StorageEncoding {
    /// The native type that this encoding stores a timestamp as.
    pub open spec fn kind(self) -> NativeKind {
        match self {
            StorageEncoding::DoubleSeconds => NativeKind::Double,
            StorageEncoding::IntegerSeconds => NativeKind::BigInt,
            StorageEncoding::DatetimeWithTimezone => NativeKind::DateTimeUtc,
        }
    }

    /// The native type that this encoding stores a timestamp as.
    pub fn native_kind(&self) -> (r: NativeKind)
        ensures
            r == self.kind(),
    {
        match self {
            StorageEncoding::DoubleSeconds => NativeKind::Double,
            StorageEncoding::IntegerSeconds => NativeKind::BigInt,
            StorageEncoding::DatetimeWithTimezone => NativeKind::DateTimeUtc,
        }
    }
}

impl NativeValue {
    /// The native type of a value that some encoding writes; none for the
    /// other values.
    pub open spec fn kind(self) -> Option<NativeKind> {
        match self {
            NativeValue::Double(_) => Some(NativeKind::Double),
            NativeValue::BigInt(_) => Some(NativeKind::BigInt),
            NativeValue::DateTimeUtc(_) => Some(NativeKind::DateTimeUtc),
            _ => None,
        }
    }

    /// Whether the value is the null of its native type.
    pub open spec fn is_null(self) -> bool {
        match self {
            NativeValue::DateTimeWithTimeZone(v) => v is None,
            NativeValue::DateTimeUtc(v) => v is None,
            NativeValue::BigInt(v) => v is None,
            NativeValue::Double(v) => v is None,
            NativeValue::Int(v) => v is None,
            NativeValue::Other => false,
        }
    }

    /// The timestamp that a value holds: a present date-time, big integer,
    /// double or plain integer, each by its own conversion. A null and a
    /// value of another native type hold none.
    pub open spec fn strict(self) -> Option<Timestamp> {
        match self {
            NativeValue::DateTimeWithTimeZone(Some(c)) => Some(Timestamp::of_calendar(c)),
            NativeValue::DateTimeUtc(Some(c)) => Some(Timestamp::of_calendar(c)),
            NativeValue::BigInt(Some(v)) => Some(Timestamp::of_seconds(v)),
            NativeValue::Double(Some(d)) => Some(Timestamp::of_split(d)),
            NativeValue::Int(Some(v)) => Some(Timestamp::of_seconds(v as i64)),
            _ => None,
        }
    }

    /// The timestamp that a value is read as: the one it holds, and the
    /// empty timestamp where it holds none.
    pub open spec fn lenient(self) -> Timestamp {
        match self.strict() {
            Some(ts) => ts,
            None => Timestamp::empty(),
        }
    }

    /// Reads a timestamp, or nothing where the value is a null or of a
    /// native type that holds no timestamp.
    pub fn decode_strict(&self) -> (r: Option<Timestamp>)
        ensures
            r == self.strict(),
            r is None <==> self.is_null() || *self == NativeValue::Other,
    {
        match *self {
            NativeValue::DateTimeWithTimeZone(Some(c)) => Some(Timestamp::from(c)),
            NativeValue::DateTimeUtc(Some(c)) => Some(Timestamp::from(c)),
            NativeValue::BigInt(Some(v)) => Some(Timestamp::from(v)),
            NativeValue::Double(Some(d)) => Some(Timestamp::from(d)),
            NativeValue::Int(Some(v)) => Some(Timestamp::from(v as i64)),
            _ => None,
        }
    }

    /// Reads a timestamp and never fails: where the value holds none, the
    /// result is the empty timestamp.
    pub fn decode_lenient(&self) -> (r: Timestamp)
        ensures
            r == self.lenient(),
            self.is_null() || *self == NativeValue::Other ==> r == Timestamp::empty(),
    {
        match self.decode_strict() {
            Some(ts) => ts,
            None => Timestamp::default(),
        }
    }
}

impl Timestamp {
    /// The timestamp of a double that was split into its parts.
    pub open spec fn of_split(d: SplitSeconds) -> Timestamp {
        Timestamp { seconds: d.whole, nanoseconds: d.fraction_nanos }
    }

    /// The parts from which the double of this timestamp is put together.
    pub open spec fn to_split(self) -> SplitSeconds {
        SplitSeconds { whole: self.seconds, fraction_nanos: self.nanoseconds }
    }

    /// The value that is written for this timestamp under an encoding.
    pub open spec fn to_native(self, encoding: StorageEncoding) -> NativeValue {
        match encoding {
            StorageEncoding::DoubleSeconds => NativeValue::Double(Some(self.to_split())),
            StorageEncoding::IntegerSeconds => NativeValue::BigInt(Some(self.to_seconds())),
            StorageEncoding::DatetimeWithTimezone => NativeValue::DateTimeUtc(
                Some(self.to_calendar()),
            ),
        }
    }

    /// The null of the native type that an encoding writes.
    pub open spec fn null_of(encoding: StorageEncoding) -> NativeValue {
        match encoding {
            StorageEncoding::DoubleSeconds => NativeValue::Double(None),
            StorageEncoding::IntegerSeconds => NativeValue::BigInt(None),
            StorageEncoding::DatetimeWithTimezone => NativeValue::DateTimeUtc(None),
        }
    }

    /// Reads a timestamp from a native value. It always succeeds: a value
    /// that holds no timestamp gives the empty one.
    pub fn try_from(v: NativeValue) -> (r: Result<Timestamp, ConvertError>)
        ensures
            r == Ok::<Timestamp, ConvertError>(v.lenient()),
    {
        Ok(v.decode_lenient())
    }

    /// The name under which the type is known to the persistence layer.
    pub fn value_type_name() -> (r: String)
        ensures
            r@ == "Timestamp"@,
    {
        "Timestamp".to_string()
    }

    /// The native type whose array declaration is used under an encoding.
    pub fn array_type(encoding: StorageEncoding) -> (r: NativeKind)
        ensures
            r == encoding.kind(),
    {
        encoding.native_kind()
    }

    /// The native type whose column declaration is used under an encoding.
    pub fn column_type(encoding: StorageEncoding) -> (r: NativeKind)
        ensures
            r == encoding.kind(),
    {
        encoding.native_kind()
    }

    /// Writes the timestamp as the one native value of the encoding.
    pub fn into_value(self, encoding: StorageEncoding) -> (r: NativeValue)
        ensures
            r == self.to_native(encoding),
            r.kind() == Some(encoding.kind()),
            !r.is_null(),
    {
        match encoding {
            StorageEncoding::DoubleSeconds => NativeValue::Double(Some(SplitSeconds::from(self))),
            StorageEncoding::IntegerSeconds => NativeValue::BigInt(Some(i64::from(self))),
            StorageEncoding::DatetimeWithTimezone => NativeValue::DateTimeUtc(
                Some(self.datetime()),
            ),
        }
    }

    /// The "no value" of the native type that an encoding writes.
    pub fn null(encoding: StorageEncoding) -> (r: NativeValue)
        ensures
            r == Timestamp::null_of(encoding),
            r.kind() == Some(encoding.kind()),
            r.is_null(),
    {
        match encoding {
            StorageEncoding::DoubleSeconds => NativeValue::Double(None),
            StorageEncoding::IntegerSeconds => NativeValue::BigInt(None),
            StorageEncoding::DatetimeWithTimezone => NativeValue::DateTimeUtc(None),
        }
    }

    /// A generated row identity is never a timestamp: this fails for every
    /// identity.
    pub fn try_from_u64(n: u64) -> (r: Result<Timestamp, ConvertError>)
        ensures
            r == Err::<Timestamp, ConvertError>(ConvertError::FromU64Unsupported),
    {
        Err(ConvertError::FromU64Unsupported)
    }
}

impl From<SplitSeconds> for Timestamp {
    fn from(d: SplitSeconds) -> (r: Timestamp) {
        Timestamp { seconds: d.whole, nanoseconds: d.fraction_nanos }
    }
}

impl FromSpecImpl<SplitSeconds> for Timestamp {
    open spec fn obeys_from_spec() -> bool {
        true
    }

    open spec fn from_spec(d: SplitSeconds) -> Timestamp {
        Timestamp::of_split(d)
    }
}

impl From<Timestamp> for SplitSeconds {
    fn from(ts: Timestamp) -> (r: SplitSeconds) {
        SplitSeconds { whole: ts.seconds, fraction_nanos: ts.nanoseconds }
    }
}

impl FromSpecImpl<Timestamp> for SplitSeconds {
    open spec fn obeys_from_spec() -> bool {
        true
    }

    open spec fn from_spec(ts: Timestamp) -> SplitSeconds {
        ts.to_split()
    }
}

/// What is written under an encoding and read again: the same timestamp
/// under double seconds; the seconds alone under integer seconds; under the
/// date-time encoding the same timestamp where the calendar can hold it, and
/// the empty one where it cannot.
pub proof fn lemma_storage_round_trip(ts: Timestamp, encoding: StorageEncoding)
    ensures
        ts.to_native(encoding).lenient() == match encoding {
            StorageEncoding::DoubleSeconds => ts,
            StorageEncoding::IntegerSeconds => Timestamp::of_seconds(ts.seconds),
            StorageEncoding::DatetimeWithTimezone => if ts.fits_calendar() {
                ts
            } else {
                Timestamp::empty()
            },
        },
        ts.to_native(encoding).strict() == Some(ts.to_native(encoding).lenient()),
{
}

/// The null of an encoding is of the native type that the encoding writes,
/// and it is read as the empty timestamp.
pub proof fn lemma_null_matches_encoding(ts: Timestamp, encoding: StorageEncoding)
    ensures
        Timestamp::null_of(encoding).kind() == ts.to_native(encoding).kind(),
        Timestamp::null_of(encoding).kind() == Some(encoding.kind()),
        Timestamp::null_of(encoding).strict() is None,
        Timestamp::null_of(encoding).lenient() == Timestamp::empty(),
{
}

/// A value of a native type that holds no timestamp, and every null, is
/// read as the empty timestamp.
pub proof fn lemma_unrecognized_is_empty(v: NativeValue)
    requires
        v == NativeValue::Other || v.is_null(),
    ensures
        v.lenient() == Timestamp::empty(),
        v.lenient().spec_is_empty(),
{
}

} // verus!
