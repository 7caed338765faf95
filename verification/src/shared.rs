//! One generator for all contexts.
//!
//! Where identifiers must be ordered across contexts and not only within
//! each, the contexts share one stamp. This generator never lets its tick
//! run ahead of real time: at the end of a tick it reads the clock, and
//! moves on only if the tick has fallen behind. Whoever shares it hands it
//! to one request at a time, so that no two requests are ever answered with
//! the same stamp.

use crate::bytes::{be_bytes, be_value, from_be};
use crate::clock::{now, UUID_TICKS_BETWEEN_EPOCHS};
use crate::error::Error;
use crate::layout::{
    encode_uuid, uuid_layout, variant_of, version_of, UUID_VARIANT, UUID_VERSION,
};
use crate::sequence::Stamp;
use vstd::prelude::*;

verus! {

/// The stamp shared by all contexts. Its tick is 0 until the first request
/// has read the clock.
#[derive(Debug)]
pub struct SharedGenerator {
    stamp: Stamp,
}

/// The stamp that a shared generator at `pre` works from once it has seen
/// the wall-clock tick `wall`: `pre`, or the start of the tick `wall` where
/// `pre` has no tick yet.
pub open spec fn seeded(pre: Stamp, wall: u64) -> Stamp {
    if pre.timestamp == 0 {
        Stamp { timestamp: wall, sequence: pre.sequence }
    } else {
        pre
    }
}

/// What a request to a shared generator at `pre` is answered with when the
/// wall clock stands at `wall`.
pub open spec fn shared_step(pre: Stamp, wall: u64) -> Result<Stamp, Error> {
    seeded(pre, wall).step(1, Some(wall))
}

/// Where a shared generator at `pre` stands after that request.
pub open spec fn shared_after(pre: Stamp, wall: u64) -> Stamp {
    seeded(pre, wall).after_step(1, Some(wall))
}

/// The version-1 UUID of the stamp `stamp` for the node `node`.
pub open spec fn uuid_at(stamp: Stamp, node: Seq<u8>) -> Seq<u8> {
    be_bytes(uuid_layout(stamp.timestamp as int, stamp.sequence as int, be_value(node) as int), 16)
}

impl SharedGenerator {
    #[verifier::type_invariant]
    spec fn valid(self) -> bool {
        self.stamp.in_range()
    }

    /// The stamp issued last; tick 0 before the first.
    pub closed spec fn stamp(&self) -> Stamp {
        self.stamp
    }

    /// Whether the next request reads the clock: the generator has no tick
    /// yet, or its tick has no sequence number left.
    pub open spec fn needs_clock(&self) -> bool {
        self.stamp().timestamp == 0 || !self.stamp().has_headroom()
    }

    /// What one request does to a shared generator, where `r` is the answer.
    ///
    /// Within a tick the answer is the next sequence number, whatever the
    /// clock says. Otherwise the clock is read. Where it cannot be, the answer
    /// is `SystemTimeException` and the generator stays as it was; else answer
    /// and generator are what `shared_step` and `shared_after` give for some
    /// tick that the clock may show.
    pub open spec fn advanced(pre: SharedGenerator, post: SharedGenerator, r: Result<Stamp, Error>)
        -> bool {
        &&& post.stamp().in_range()
        &&& r matches Ok(issued) ==> post.stamp() == issued
        &&& if !pre.needs_clock() {
            r == Ok::<Stamp, Error>(pre.stamp().bumped())
        } else {
            ||| r == Err::<Stamp, Error>(Error::SystemTimeException) && post.stamp() == pre.stamp()
            ||| exists|wall: u64|
                {
                    &&& wall >= UUID_TICKS_BETWEEN_EPOCHS
                    &&& r == #[trigger] shared_step(pre.stamp(), wall)
                    &&& post.stamp() == shared_after(pre.stamp(), wall)
                }
        }
    }

    /// A generator that has issued nothing yet.
    pub fn new() -> (g: SharedGenerator)
        ensures
            g.stamp() == Stamp::fresh(0),
    {
        SharedGenerator { stamp: Stamp::new(0) }
    }

    /// The tick of the identifier issued last.
    pub fn timestamp(&self) -> (t: u64)
        ensures
            t == self.stamp().timestamp,
    {
        self.stamp.timestamp
    }

    /// The sequence number of the identifier issued last.
    pub fn seq(&self) -> (s: u16)
        ensures
            s == self.stamp().sequence,
            self.stamp().in_range(),
    {
        proof {
            use_type_invariant(self);
        }
        self.stamp.sequence
    }

    /// Whether the next request reads the clock.
    pub fn reads_clock(&self) -> (b: bool)
        ensures
            b == self.needs_clock(),
    {
        self.stamp.timestamp == 0 || !self.stamp.headroom()
    }

    /// Issues the next stamp with the wall clock at `wall`. A generator
    /// without a tick takes `wall` for its tick first. At the end of a tick the
    /// tick moves on by one only if it lies before `wall`; otherwise the
    /// request fails with `TimeOverflow`.
    pub fn next_atom_at(&mut self, wall: u64) -> (r: Result<Stamp, Error>)
        ensures
            r == shared_step(old(self).stamp(), wall),
            final(self).stamp() == shared_after(old(self).stamp(), wall),
            final(self).stamp().in_range(),
    {
        proof {
            use_type_invariant(&*self);
        }
        let mut stamp = self.stamp;
        if stamp.timestamp == 0 {
            stamp.timestamp = wall;
        }
        let r = stamp.next(1, Some(wall));
        self.stamp = stamp;
        r
    }

    /// Issues the next stamp. Within a tick the clock is not read.
    pub fn next_atom(&mut self) -> (r: Result<Stamp, Error>)
        ensures
            SharedGenerator::advanced(*old(self), *final(self), r),
    {
        proof {
            use_type_invariant(&*self);
        }
        if self.reads_clock() {
            match now() {
                Ok(wall) => self.next_atom_at(wall),
                Err(e) => Err(e),
            }
        } else {
            let mut stamp = self.stamp;
            let r = stamp.next(1, None);
            self.stamp = stamp;
            r
        }
    }
}

/// Issues a version-1 UUID for the node `machine_id` from the shared
/// generator.
///
/// It fails only where the generator cannot issue a stamp.
pub fn uuidv1(generator: &mut SharedGenerator, machine_id: [u8; 6]) -> (r: Result<[u8; 16], Error>)
    ensures
        match r {
            Ok(id) => {
                &&& SharedGenerator::advanced(
                    *old(generator),
                    *final(generator),
                    Ok(final(generator).stamp()),
                )
                &&& id@ == uuid_at(final(generator).stamp(), machine_id@)
                &&& version_of(be_value(id@)) == UUID_VERSION
                &&& variant_of(be_value(id@)) == UUID_VARIANT
            },
            Err(e) => SharedGenerator::advanced(*old(generator), *final(generator), Err(e)),
        },
{
    match generator.next_atom() {
        Ok(stamp) => Ok(compose_uuid(stamp, &machine_id)),
        Err(e) => Err(e),
    }
}

/// Packs the version-1 UUID of a stamp for the node `node`.
pub fn compose_uuid(stamp: Stamp, node: &[u8; 6]) -> (id: [u8; 16])
    ensures
        id@ == uuid_at(stamp, node@),
        version_of(be_value(id@)) == UUID_VERSION,
        variant_of(be_value(id@)) == UUID_VARIANT,
{
    proof {
        crate::bytes::lemma_pow256_values();
        crate::bytes::lemma_pow256_monotonic(6, 8);
    }
    let node_number: u64 = from_be::<6>(node) as u64;
    encode_uuid(stamp.timestamp, stamp.sequence, node_number)
}

/// `uuidv1` under its other name.
pub fn next_short_128_sync(generator: &mut SharedGenerator, machine_id: [u8; 6]) -> (r: Result<
    [u8; 16],
    Error,
>)
    ensures
        match r {
            Ok(id) => {
                &&& SharedGenerator::advanced(
                    *old(generator),
                    *final(generator),
                    Ok(final(generator).stamp()),
                )
                &&& id@ == uuid_at(final(generator).stamp(), machine_id@)
                &&& version_of(be_value(id@)) == UUID_VERSION
                &&& variant_of(be_value(id@)) == UUID_VARIANT
            },
            Err(e) => SharedGenerator::advanced(*old(generator), *final(generator), Err(e)),
        },
{
    uuidv1(generator, machine_id)
}

} // verus!
