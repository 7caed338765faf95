//! The generator of one context: a thread, a task, whatever issues
//! identifiers one after the other.
//!
//! A generator owns its stamp and its worker identity; no other context
//! touches either. Within a tick it never reads the clock.

use crate::bytes::{be_bytes, be_value, from_be};
use crate::clock::{
    epoch_relative, now, relative_timestamp, TICKS_PER_STEP, UUID_TICKS_BETWEEN_EPOCHS,
};
use crate::error::{agrees, Error};
use crate::layout::{
    encode_128, encode_64, encode_96, layout_128, layout_64, layout_96, machine_of, variant_of,
    version_of, Fields, UUID_VARIANT, UUID_VERSION,
};
use crate::sequence::Stamp;
use crate::worker::{assignment, issued_next, WorkerRegistry, NARROW_WORKER_IDS};
use vstd::prelude::*;

verus! {

/// The state of one context.
#[derive(Debug)]
pub struct Generator {
    stamp: Stamp,
    worker_id: u16,
    guarded: bool,
}

impl Generator {
    #[verifier::type_invariant]
    spec fn valid(self) -> bool {
        self.stamp.in_range()
    }

    /// The stamp of the identifier issued last, or the stamp to start from.
    pub closed spec fn stamp(&self) -> Stamp {
        self.stamp
    }

    /// The identity of this context.
    pub closed spec fn worker(&self) -> u16 {
        self.worker_id
    }

    /// Whether the tick is held back to real time: whether, at the end of a
    /// tick, the clock is read and the tick moved forward only if it has
    /// fallen behind the clock.
    pub closed spec fn guarded(&self) -> bool {
        self.guarded
    }

    /// What one request does to a generator whose tick moves in steps of
    /// `interval`, where `r` is the answer.
    ///
    /// Within a tick the answer is the next sequence number, whatever the
    /// clock says. At the end of a tick an unguarded generator moves on unless
    /// the new tick would not fit 64 bits. A guarded one reads the clock: where
    /// it cannot, the answer is `SystemTimeException`; else it is what `step`
    /// gives for some tick that the clock may show. A request that fails
    /// leaves the generator as it was.
    pub open spec fn advanced(
        pre: Generator,
        post: Generator,
        interval: u16,
        r: Result<Stamp, Error>,
    ) -> bool {
        &&& post.worker() == pre.worker()
        &&& post.guarded() == pre.guarded()
        &&& post.stamp().in_range()
        &&& post.stamp() == match r {
            Ok(issued) => issued,
            Err(_) => pre.stamp(),
        }
        &&& if pre.stamp().has_headroom() {
            r == Ok::<Stamp, Error>(pre.stamp().bumped())
        } else if !pre.guarded() {
            r == pre.stamp().step(interval, None)
        } else {
            ||| r == Err::<Stamp, Error>(Error::SystemTimeException)
            ||| exists|wall: u64|
                wall >= UUID_TICKS_BETWEEN_EPOCHS && r == #[trigger] pre.stamp().step(
                    interval,
                    Some(wall),
                )
        }
    }

    /// A generator for the worker `worker_id` that starts at `timestamp`.
    pub fn new(worker_id: u16, timestamp: u64, guarded: bool) -> (g: Generator)
        ensures
            g.stamp() == Stamp::fresh(timestamp),
            g.worker() == worker_id,
            g.guarded() == guarded,
    {
        Generator { stamp: Stamp::new(timestamp), worker_id, guarded }
    }

    /// A generator that starts at the current tick, with the next identity of
    /// `registry`.
    ///
    /// The clock is read first: where that fails, the registry hands out
    /// nothing. Where the registry has no identity left, the result is
    /// `WorkerIDOverflow`.
    pub fn start(registry: &mut WorkerRegistry, guarded: bool) -> (r: Result<Generator, Error>)
        ensures
            match r {
                Ok(g) => {
                    &&& assignment(old(registry).issued()) == Ok::<u16, Error>(g.worker())
                    &&& final(registry).issued() == issued_next(old(registry).issued())
                    &&& g.guarded() == guarded
                    &&& g.stamp().sequence == 0
                    &&& g.stamp().timestamp >= UUID_TICKS_BETWEEN_EPOCHS
                },
                Err(e) => {
                    &&& final(registry).issued() == old(registry).issued()
                    &&& e == Error::SystemTimeException || (e == Error::WorkerIDOverflow
                        && assignment(old(registry).issued()) is Err)
                },
            },
    {
        match now() {
            Ok(tick) => match registry.assign() {
                Ok(worker_id) => Ok(Generator::new(worker_id, tick, guarded)),
                Err(e) => Err(e),
            },
            Err(e) => Err(e),
        }
    }

    /// The tick of the identifier issued last.
    pub fn timestamp(&self) -> (t: u64)
        ensures
            t == self.stamp().timestamp,
    {
        self.stamp.timestamp
    }

    /// The sequence number of the identifier issued last.
    pub fn seq(&self) -> (s: u16)
        ensures
            s == self.stamp().sequence,
            self.stamp().in_range(),
    {
        proof {
            use_type_invariant(self);
        }
        self.stamp.sequence
    }

    /// The identity of this context.
    pub fn worker_id(&self) -> (w: u16)
        ensures
            w == self.worker(),
    {
        self.worker_id
    }

    /// Moves the tick forward by `min_interval` and returns the new tick. A
    /// guarded generator reads the clock first and fails with `TimeOverflow`
    /// unless its tick has fallen behind it. The sequence number is left as it
    /// is, and on failure the tick too.
    pub fn time_inc(&mut self, min_interval: u16) -> (r: Result<u64, Error>)
        ensures
            final(self).worker() == old(self).worker(),
            final(self).guarded() == old(self).guarded(),
            final(self).stamp() == match r {
                Ok(tick) => Stamp { timestamp: tick, sequence: old(self).stamp().sequence },
                Err(_) => old(self).stamp(),
            },
            !old(self).guarded() ==> r == old(self).stamp().roll_tick(min_interval, None),
            old(self).guarded() ==> {
                ||| r == Err::<u64, Error>(Error::SystemTimeException)
                ||| exists|wall: u64|
                    wall >= UUID_TICKS_BETWEEN_EPOCHS && r == #[trigger] old(
                        self,
                    ).stamp().roll_tick(min_interval, Some(wall))
            },
    {
        proof {
            use_type_invariant(&*self);
        }
        let wall = if self.guarded {
            match now() {
                Ok(tick) => Some(tick),
                Err(e) => {
                    return Err(e);
                },
            }
        } else {
            None
        };
        let mut stamp = self.stamp;
        let r = stamp.roll(min_interval, wall);
        self.stamp = stamp;
        r
    }

    /// Issues the next stamp.
    pub fn next(&mut self, min_interval: u16) -> (r: Result<Stamp, Error>)
        ensures
            Generator::advanced(*old(self), *final(self), min_interval, r),
    {
        proof {
            use_type_invariant(&*self);
        }
        if self.stamp.headroom() {
            let mut stamp = self.stamp;
            let r = stamp.next(min_interval, None);
            self.stamp = stamp;
            r
        } else {
            let ghost pre = self.stamp;
            let moved = self.time_inc(min_interval);
            proof {
                if self.guarded && moved != Err::<u64, Error>(Error::SystemTimeException) {
                    let wall = choose|wall: u64|
                        wall >= UUID_TICKS_BETWEEN_EPOCHS && moved == #[trigger] pre.roll_tick(
                            min_interval,
                            Some(wall),
                        );
                    assert(pre.step(min_interval, Some(wall)) == match moved {
                        Ok(tick) => Ok::<Stamp, Error>(Stamp { timestamp: tick, sequence: 0 }),
                        Err(e) => Err::<Stamp, Error>(e),
                    });
                }
            }
            match moved {
                Ok(_) => {
                    self.stamp.sequence = 0;
                    Ok(self.stamp)
                },
                Err(e) => Err(e),
            }
        }
    }
}

/// The 128-bit identifier of the stamp `stamp`, issued by `worker` on the
/// machine `machine_id`.
pub open spec fn id_128(stamp: Stamp, worker: u16, machine_id: Seq<u8>) -> Seq<u8> {
    be_bytes(
        layout_128(
            Fields {
                timestamp: stamp.timestamp,
                sequence: stamp.sequence,
                worker_id: worker,
                machine_id: machine_of(machine_id),
            },
        ),
        16,
    )
}

/// The 96-bit identifier of the stamp `stamp`, or why there is none: the
/// tick lies before `epoch`.
pub open spec fn id_96(stamp: Stamp, worker: u16, machine_id: Seq<u8>, epoch: u64) -> Result<
    Seq<u8>,
    Error,
> {
    match epoch_relative(stamp.timestamp, epoch) {
        Some(timestamp) => Ok(
            be_bytes(
                layout_96(
                    Fields {
                        timestamp,
                        sequence: stamp.sequence,
                        worker_id: worker,
                        machine_id: machine_of(machine_id),
                    },
                ),
                12,
            ),
        ),
        None => Err(Error::EpochException),
    }
}

/// The 64-bit identifier of the stamp `stamp`, or why there is none: the
/// worker identity needs more than a byte, or else the tick lies before
/// `epoch`.
pub open spec fn id_64(stamp: Stamp, worker: u16, epoch: u64) -> Result<Seq<u8>, Error> {
    if worker >= NARROW_WORKER_IDS {
        Err(Error::WorkerIDOverflow)
    } else {
        match epoch_relative(stamp.timestamp, epoch) {
            Some(timestamp) => Ok(
                be_bytes(
                    layout_64(
                        Fields {
                            timestamp,
                            sequence: stamp.sequence,
                            worker_id: worker,
                            machine_id: 0,
                        },
                    ),
                    8,
                ),
            ),
            None => Err(Error::EpochException),
        }
    }
}

/// Packs the 128-bit identifier of a stamp.
pub fn compose_128(stamp: Stamp, worker_id: u16, machine_id: &[u8; 4]) -> (id: [u8; 16])
    ensures
        id@ == id_128(stamp, worker_id, machine_id@),
        version_of(be_value(id@)) == UUID_VERSION,
        variant_of(be_value(id@)) == UUID_VARIANT,
{
    proof {
        crate::bytes::lemma_pow256_values();
    }
    let machine: u32 = from_be::<4>(machine_id) as u32;
    encode_128(
        &Fields {
            timestamp: stamp.timestamp,
            sequence: stamp.sequence,
            worker_id,
            machine_id: machine,
        },
    )
}

/// Packs the 96-bit identifier of a stamp. It is `EpochException` where the
/// tick lies before `epoch`.
pub fn compose_96(stamp: Stamp, worker_id: u16, machine_id: &[u8; 3], epoch: u64) -> (r: Result<
    [u8; 12],
    Error,
>)
    ensures
        agrees(r, id_96(stamp, worker_id, machine_id@, epoch)),
{
    proof {
        crate::bytes::lemma_pow256_values();
    }
    match relative_timestamp(stamp.timestamp, epoch) {
        Ok(timestamp) => {
            let machine: u32 = from_be::<3>(machine_id) as u32;
            Ok(
                encode_96(
                    &Fields {
                        timestamp,
                        sequence: stamp.sequence,
                        worker_id,
                        machine_id: machine,
                    },
                ),
            )
        },
        Err(e) => Err(e),
    }
}

/// Packs the 64-bit identifier of a stamp. It is `WorkerIDOverflow` where
/// the worker identity needs more than a byte, whatever the epoch, and else
/// `EpochException` where the tick lies before `epoch`.
pub fn compose_64(stamp: Stamp, worker_id: u16, epoch: u64) -> (r: Result<[u8; 8], Error>)
    ensures
        agrees(r, id_64(stamp, worker_id, epoch)),
{
    if worker_id >= NARROW_WORKER_IDS {
        return Err(Error::WorkerIDOverflow);
    }
    match relative_timestamp(stamp.timestamp, epoch) {
        Ok(timestamp) => Ok(
            encode_64(
                &Fields { timestamp, sequence: stamp.sequence, worker_id, machine_id: 0 },
            ),
        ),
        Err(e) => Err(e),
    }
}

/// Issues a 128-bit identifier: a version-1 UUID whose node is the worker
/// identity followed by `machine_id`. The tick moves in steps of one.
///
/// It fails only where the generator cannot issue a stamp, and then leaves
/// the generator as it was.
pub fn next_short_128(generator: &mut Generator, machine_id: [u8; 4]) -> (r: Result<
    [u8; 16],
    Error,
>)
    ensures
        match r {
            Ok(id) => {
                &&& Generator::advanced(
                    *old(generator),
                    *final(generator),
                    1,
                    Ok(final(generator).stamp()),
                )
                &&& id@ == id_128(final(generator).stamp(), old(generator).worker(), machine_id@)
                &&& version_of(be_value(id@)) == UUID_VERSION
                &&& variant_of(be_value(id@)) == UUID_VARIANT
            },
            Err(e) => Generator::advanced(*old(generator), *final(generator), 1, Err(e)),
        },
{
    match generator.next(1) {
        Ok(stamp) => Ok(compose_128(stamp, generator.worker_id(), &machine_id)),
        Err(e) => Err(e),
    }
}

/// Issues a 96-bit identifier. The tick moves in steps of `TICKS_PER_STEP`,
/// one step of the timestamp that the format stores.
///
/// A stamp is issued first. Where the generator cannot, the result is its
/// error and the generator stays as it was. Where the tick of the stamp lies
/// before `epoch`, the result is `EpochException` and the stamp is spent.
pub fn next_short_96(generator: &mut Generator, machine_id: [u8; 3], epoch: u64) -> (r: Result<
    [u8; 12],
    Error,
>)
    ensures
        match r {
            Err(e) if e != Error::EpochException => Generator::advanced(
                *old(generator),
                *final(generator),
                TICKS_PER_STEP,
                Err(e),
            ),
            _ => {
                &&& Generator::advanced(
                    *old(generator),
                    *final(generator),
                    TICKS_PER_STEP,
                    Ok(final(generator).stamp()),
                )
                &&& agrees(
                    r,
                    id_96(final(generator).stamp(), old(generator).worker(), machine_id@, epoch),
                )
            },
        },
{
    match generator.next(TICKS_PER_STEP) {
        Ok(stamp) => compose_96(stamp, generator.worker_id(), &machine_id, epoch),
        Err(e) => Err(e),
    }
}

/// Issues a 64-bit identifier. The tick moves in steps of `TICKS_PER_STEP`.
///
/// A generator whose worker identity needs more than a byte can never issue
/// one: every call is `WorkerIDOverflow`, whatever the epoch, and leaves the
/// generator as it was. Otherwise a stamp is issued first, as for the 96-bit
/// identifier.
pub fn next_short_64(generator: &mut Generator, epoch: u64) -> (r: Result<[u8; 8], Error>)
    ensures
        old(generator).worker() >= NARROW_WORKER_IDS ==> r == Err::<[u8; 8], Error>(
            Error::WorkerIDOverflow,
        ) && *final(generator) == *old(generator),
        old(generator).worker() < NARROW_WORKER_IDS ==> match r {
            Err(e) if e != Error::EpochException => Generator::advanced(
                *old(generator),
                *final(generator),
                TICKS_PER_STEP,
                Err(e),
            ),
            _ => {
                &&& Generator::advanced(
                    *old(generator),
                    *final(generator),
                    TICKS_PER_STEP,
                    Ok(final(generator).stamp()),
                )
                &&& agrees(r, id_64(final(generator).stamp(), old(generator).worker(), epoch))
            },
        },
{
    if generator.worker_id() >= NARROW_WORKER_IDS {
        return Err(Error::WorkerIDOverflow);
    }
    match generator.next(TICKS_PER_STEP) {
        Ok(stamp) => compose_64(stamp, generator.worker_id(), epoch),
        Err(e) => Err(e),
    }
}

} // verus!
