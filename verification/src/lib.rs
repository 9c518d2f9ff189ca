//! Binary codec for the PostgreSQL wire representation of `real`,
//! `double precision` and `numeric` values.
//!
//! Every integer on the wire is big-endian. Floating point values travel as
//! their IEEE-754 bit patterns, which this crate handles as `u32` and `u64`.

pub mod cursor;
pub mod endian;
pub mod error;
pub mod floats;
pub mod numeric;
