//! A point in time as seconds and nanoseconds since the Unix epoch, with its
//! conversions to calendar instants, epoch seconds, a binary message and the
//! native values of a persistence column.

pub mod calendar;
pub mod storage;
pub mod timestamp;
pub mod wire;

pub use calendar::{CalendarInstant, Zone};
pub use storage::{ConvertError, NativeKind, NativeValue, SplitSeconds, StorageEncoding};
pub use timestamp::Timestamp;
pub use wire::WireError;
