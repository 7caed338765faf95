//! The clock: wall time as a count of ticks.
//!
//! A tick is 100 ns. Ticks are counted from the start of the Gregorian
//! calendar, 15 October 1582, as the timestamps of version-1 UUIDs are.

use crate::error::Error;
use std::time::{Duration, SystemTime, SystemTimeError};
use vstd::prelude::*;

verus! {

/// The ticks between 15 October 1582 and the Unix epoch.
pub const UUID_TICKS_BETWEEN_EPOCHS: u64 = 0x01B2_1DD2_1381_4000;

/// The two short formats drop this many low bits of a tick.
pub const TIMESTAMP42SHIFT: u8 = 13;

/// The ticks that one step of a short format's timestamp stands for: two to
/// the power `TIMESTAMP42SHIFT`.
pub const TICKS_PER_STEP: u16 = 8192;

/// The nanoseconds in one tick.
pub const NANOS_PER_TICK: u64 = 100;

/// The tick in which the instant `nanos` nanoseconds after the Unix epoch
/// falls.
pub open spec fn tick_of_unix_nanos(nanos: nat) -> nat {
    (nanos / (NANOS_PER_TICK as nat) + UUID_TICKS_BETWEEN_EPOCHS) as nat
}

/// Turns a reading of the wall clock, in nanoseconds since the Unix epoch,
/// into a tick. A tick that 64 bits cannot hold is reported as a clock fault.
pub fn ticks_from_unix_nanos(nanos: u128) -> (r: Result<u64, Error>)
    ensures
        tick_of_unix_nanos(nanos as nat) <= u64::MAX ==> r == Ok::<u64, Error>(
            tick_of_unix_nanos(nanos as nat) as u64,
        ),
        tick_of_unix_nanos(nanos as nat) > u64::MAX ==> r == Err::<u64, Error>(
            Error::SystemTimeException,
        ),
{
    let since_unix: u128 = nanos / (NANOS_PER_TICK as u128);
    if since_unix <= (u64::MAX - UUID_TICKS_BETWEEN_EPOCHS) as u128 {
        Ok(since_unix as u64 + UUID_TICKS_BETWEEN_EPOCHS)
    } else {
        Err(Error::SystemTimeException)
    }
}

/// The timestamp that a short format stores for `tick`: the ticks since
/// `epoch`, itself counted from the Unix epoch, in steps of `TICKS_PER_STEP`.
/// There is none where `tick` lies before the epoch.
pub open spec fn epoch_relative(tick: u64, epoch: u64) -> Option<u64> {
    if tick >= UUID_TICKS_BETWEEN_EPOCHS + epoch {
        Some(((tick - UUID_TICKS_BETWEEN_EPOCHS - epoch) / (TICKS_PER_STEP as int)) as u64)
    } else {
        None
    }
}

/// The timestamp that a short format stores for `tick`, or `EpochException`
/// where `tick` lies before `epoch`.
pub fn relative_timestamp(tick: u64, epoch: u64) -> (r: Result<u64, Error>)
    ensures
        match epoch_relative(tick, epoch) {
            Some(t) => r == Ok::<u64, Error>(t),
            None => r == Err::<u64, Error>(Error::EpochException),
        },
{
    if tick < UUID_TICKS_BETWEEN_EPOCHS {
        return Err(Error::EpochException);
    }
    let since_unix: u64 = tick - UUID_TICKS_BETWEEN_EPOCHS;
    if since_unix < epoch {
        return Err(Error::EpochException);
    }
    Ok((since_unix - epoch) / (TICKS_PER_STEP as u64))
}

#[verifier::external_type_specification]
#[verifier::external_body]
pub struct ExSystemTime(std::time::SystemTime);

#[verifier::external_type_specification]
#[verifier::external_body]
pub struct ExSystemTimeError(std::time::SystemTimeError);

/// `SystemTime::now`: the wall clock as the system reports it at the moment
/// of the call. Nothing is claimed of what it returns.
#[verifier::external_body]
fn wall_clock() -> SystemTime {
    SystemTime::now()
}

/// `SystemTime::duration_since`, from the Unix epoch to `t`. It is an error
/// where `t` lies before the epoch. Nothing is claimed of what it returns.
#[verifier::external_body]
fn since_unix_epoch(t: &SystemTime) -> Result<Duration, SystemTimeError> {
    t.duration_since(std::time::UNIX_EPOCH)
}

/// `Duration::as_nanos`: the whole span in nanoseconds. Nothing is claimed
/// of what it returns.
#[verifier::external_body]
fn whole_nanos(d: &Duration) -> u128 {
    d.as_nanos()
}

/// The current tick. Every call reads the system clock anew.
///
/// Whatever the clock says, the result is either a tick at or after the Unix
/// epoch or `SystemTimeException`; the latter where the clock stands before
/// the Unix epoch or too far ahead for a tick of 64 bits.
pub fn now() -> (r: Result<u64, Error>)
    ensures
        match r {
            Ok(tick) => tick >= UUID_TICKS_BETWEEN_EPOCHS,
            Err(e) => e == Error::SystemTimeException,
        },
{
    let reading = wall_clock();
    match since_unix_epoch(&reading) {
        Ok(span) => ticks_from_unix_nanos(whole_nanos(&span)),
        Err(_) => Err(Error::SystemTimeException),
    }
}

} // verus!
