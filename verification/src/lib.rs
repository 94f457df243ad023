//! Index types whose in-memory encoding reserves one bit pattern, so that an
//! optional index costs no more storage than the bare integer it wraps.
//!
//! Each width has two wrappers: a bounded integer that cannot represent the
//! maximum value of its width ([`NonMaxU8`] and friends), and an index built
//! on top of it ([`IndexU8`] and friends) with addition and conversions to and
//! from the platform-size type.

mod index;
mod non_max;
mod radix;
mod raw;

pub use index::IndexTooLarge;
pub use index::IndexU16;
pub use index::IndexU32;
pub use index::IndexU64;
pub use index::IndexU8;
pub use index::IndexUsize;
pub use index::index_too_large;
pub use index::lemma_usize_round_trip_u16;
pub use index::lemma_usize_round_trip_u32;
pub use index::lemma_usize_round_trip_u64;
pub use index::lemma_usize_round_trip_u8;
pub use non_max::NonMaxU16;
pub use non_max::NonMaxU32;
pub use non_max::NonMaxU64;
pub use non_max::NonMaxU8;
pub use non_max::NonMaxUsize;
pub use radix::format_radix;
