//! Compact, time-ordered identifiers in three widths: a 128-bit form that is
//! a version-1 UUID, a 96-bit form and a 64-bit form.
//!
//! Every identifier packs a tick (a count of 100 ns intervals), a sequence
//! number within that tick, and the identity of the worker that issued it;
//! the two wider forms add a machine identity that the caller supplies.
//! All state is held in values that the caller owns and passes in: a
//! `Generator` for each context that issues identifiers, a `WorkerRegistry`
//! that tells the contexts apart, and a `SharedGenerator` where the contexts
//! want one order for all.

pub mod bytes;
pub mod clock;
pub mod convert;
pub mod error;
pub mod generator;
pub mod layout;
pub mod order;
pub mod sequence;
pub mod shared;
pub mod worker;

pub use clock::now;
pub use convert::{
    short_128_to_96, short_64_to_128, short_64_to_96, short_96_to_128, short_96_to_64,
};
pub use error::Error;
pub use generator::{next_short_128, next_short_64, next_short_96, Generator};
pub use layout::Fields;
pub use sequence::Stamp;
pub use shared::{next_short_128_sync, uuidv1, SharedGenerator};
pub use worker::WorkerRegistry;
