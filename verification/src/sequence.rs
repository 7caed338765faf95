//! The heart of the generator: a tick and a sequence number within it.
//!
//! Each request either takes the next sequence number of the current tick
//! or, when the tick has none left, moves the tick forward and starts the
//! sequence again at zero. Only the second reads a clock, and only where
//! the caller wants the tick held back to real time.

use crate::error::Error;
use vstd::prelude::*;

verus! {

/// The last sequence number of a tick, in every format: 14 bits of ones.
pub const SEQUENCE_CEILING: u16 = 0x3FFF;

/// A tick and a sequence number within it: what one identifier is issued at.
#[derive(Debug, Clone, Copy, PartialEq, Eq, Structural)]
pub struct Stamp {
    pub timestamp: u64,
    pub sequence: u16,
}

impl Stamp {
    /// The stamp that a tick starts from: sequence 0, which is never issued
    /// in the first tick of a generator.
    pub open spec fn fresh(timestamp: u64) -> Stamp {
        Stamp { timestamp, sequence: 0 }
    }

    /// The sequence number fits its 14 bits.
    pub open spec fn in_range(self) -> bool {
        self.sequence <= SEQUENCE_CEILING
    }

    /// The tick has sequence numbers left.
    pub open spec fn has_headroom(self) -> bool {
        self.sequence < SEQUENCE_CEILING
    }

    /// The next stamp within the same tick.
    pub open spec fn bumped(self) -> Stamp {
        Stamp { timestamp: self.timestamp, sequence: (self.sequence + 1) as u16 }
    }

    /// Whether the tick may move forward by `interval`: the new tick must fit
    /// 64 bits, and where a wall-clock tick is given, the old one must lie
    /// before it.
    pub open spec fn may_roll(self, interval: u16, wall: Option<u64>) -> bool {
        &&& self.timestamp + interval <= u64::MAX
        &&& wall matches Some(w) ==> self.timestamp < w
    }

    /// The tick that moving forward by `interval` leads to, or `TimeOverflow`
    /// where the tick may not move.
    pub open spec fn roll_tick(self, interval: u16, wall: Option<u64>) -> Result<u64, Error> {
        if self.may_roll(interval, wall) {
            Ok((self.timestamp + interval) as u64)
        } else {
            Err(Error::TimeOverflow)
        }
    }

    /// The first stamp of the tick `interval` later.
    pub open spec fn rolled(self, interval: u16) -> Stamp {
        Stamp { timestamp: (self.timestamp + interval) as u64, sequence: 0 }
    }

    /// What a request made at this stamp is answered with.
    pub open spec fn step(self, interval: u16, wall: Option<u64>) -> Result<Stamp, Error> {
        if self.has_headroom() {
            Ok(self.bumped())
        } else if self.may_roll(interval, wall) {
            Ok(self.rolled(interval))
        } else {
            Err(Error::TimeOverflow)
        }
    }

    /// Where the state stands after a request made at this stamp: at the
    /// stamp issued, or where it was if none was.
    pub open spec fn after_step(self, interval: u16, wall: Option<u64>) -> Stamp {
        match self.step(interval, wall) {
            Ok(next) => next,
            Err(_) => self,
        }
    }

    /// Where the state stands after `n` requests, none of them held back by
    /// a clock.
    pub open spec fn after(self, interval: u16, n: nat) -> Stamp
        decreases n,
    {
        if n == 0 {
            self
        } else {
            self.after(interval, (n - 1) as nat).after_step(interval, None)
        }
    }

    /// The stamp before the first of a tick.
    pub fn new(timestamp: u64) -> (stamp: Stamp)
        ensures
            stamp == Stamp::fresh(timestamp),
    {
        Stamp { timestamp, sequence: 0 }
    }

    /// Whether the tick has sequence numbers left.
    pub fn headroom(&self) -> (b: bool)
        ensures
            b == self.has_headroom(),
    {
        self.sequence < SEQUENCE_CEILING
    }

    /// Moves the tick forward by `interval` and returns the new tick; the
    /// sequence number is left alone. It fails with `TimeOverflow`, and leaves
    /// the stamp as it is, where the new tick would not fit 64 bits or where
    /// `wall` is given and the old tick has not fallen behind it.
    pub fn roll(&mut self, interval: u16, wall: Option<u64>) -> (r: Result<u64, Error>)
        ensures
            r == old(self).roll_tick(interval, wall),
            *final(self) == match r {
                Ok(tick) => Stamp { timestamp: tick, sequence: old(self).sequence },
                Err(_) => *old(self),
            },
    {
        let held_back = match wall {
            Some(w) => self.timestamp >= w,
            None => false,
        };
        if held_back || self.timestamp > u64::MAX - interval as u64 {
            Err(Error::TimeOverflow)
        } else {
            self.timestamp = self.timestamp + interval as u64;
            Ok(self.timestamp)
        }
    }

    /// Moves to the next stamp and returns it.
    ///
    /// Within a tick that is the next sequence number, and `interval` and
    /// `wall` play no part. At the end of a tick it is sequence 0 of the tick
    /// `interval` later; that fails with `TimeOverflow`, and leaves the stamp as
    /// it is, where the new tick would not fit 64 bits or where `wall` is given
    /// and the old tick has not fallen behind it.
    pub fn next(&mut self, interval: u16, wall: Option<u64>) -> (r: Result<Stamp, Error>)
        ensures
            r == old(self).step(interval, wall),
            *final(self) == old(self).after_step(interval, wall),
            old(self).in_range() ==> final(self).in_range(),
    {
        if self.sequence < SEQUENCE_CEILING {
            self.sequence = self.sequence + 1;
            Ok(*self)
        } else {
            match self.roll(interval, wall) {
                Ok(_) => {
                    self.sequence = 0;
                    Ok(*self)
                },
                Err(e) => Err(e),
            }
        }
    }
}

/// Within a tick the requests count upwards: after `n` requests, none held
/// back by a clock, a stamp with room for them stands `n` sequence numbers
/// further in the same tick.
pub proof fn lemma_counts_within_tick(start: Stamp, interval: u16, n: nat)
    requires
        start.sequence + n <= SEQUENCE_CEILING,
    ensures
        start.after(interval, n) == (Stamp {
            timestamp: start.timestamp,
            sequence: (start.sequence + n) as u16,
        }),
    decreases n,
{
    if n > 0 {
        lemma_counts_within_tick(start, interval, (n - 1) as nat);
    }
}

/// The sequence wraps once it is used up. From the start of a tick, with no
/// clock holding the tick back, the first `SEQUENCE_CEILING` requests are
/// answered in that tick with the sequence numbers 1, 2, ... up to the
/// ceiling; the request after them moves the tick forward by exactly
/// `interval` and starts the sequence again at 0.
pub proof fn lemma_sequence_wrap(timestamp: u64, interval: u16, n: nat)
    requires
        timestamp + interval <= u64::MAX,
        1 <= n <= SEQUENCE_CEILING + 1,
    ensures
        n <= SEQUENCE_CEILING ==> Stamp::fresh(timestamp).after(interval, n) == (Stamp {
            timestamp,
            sequence: n as u16,
        }),
        n == SEQUENCE_CEILING + 1 ==> Stamp::fresh(timestamp).after(interval, n) == (Stamp {
            timestamp: (timestamp + interval) as u64,
            sequence: 0,
        }),
{
    let start = Stamp::fresh(timestamp);
    if n <= SEQUENCE_CEILING {
        lemma_counts_within_tick(start, interval, n);
    } else {
        lemma_counts_within_tick(start, interval, SEQUENCE_CEILING as nat);
    }
}

} // verus!
