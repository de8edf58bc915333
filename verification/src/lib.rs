//! A codec for civil dates and civil date-times: each value travels as one
//! unsigned 64-bit integer in an 8-byte field.

pub mod buffer;
pub mod calendar;
mod civil;
pub mod date;
pub mod instant;
pub mod laws;
pub mod serializer;
pub mod types;
pub mod wire;

pub use buffer::{Reader, Writer};
pub use date::CalendarDate;
pub use instant::Instant;
pub use serializer::{GeneralList, Serializer};
pub use types::{Error, FieldType};
