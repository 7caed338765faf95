//! The ways in which generating an identifier can fail.

use vstd::prelude::*;

verus! {

/// Why an identifier could not be issued.
#[derive(Debug, Clone, Copy, PartialEq, Eq, Structural)]
pub enum Error {
    /// The sequence space of the current tick is used up and the tick may not
    /// be advanced. The caller may try again a little later.
    TimeOverflow,
    /// The system clock reports a time that cannot be turned into a tick:
    /// one before the Unix epoch, or one too far ahead to be counted.
    SystemTimeException,
    /// The worker identity does not fit the field that the format has for it.
    WorkerIDOverflow,
    /// The tick to be encoded lies before the epoch the caller asked for.
    EpochException,
}

impl Error {
    /// The text of `message`, as a sequence of characters.
    pub open spec fn text(self) -> Seq<char> {
        match self {
            Error::TimeOverflow => "There is not enough ID now"@,
            Error::SystemTimeException => "SystemTime before UNIX EPOCH!"@,
            Error::WorkerIDOverflow => "Too many threads"@,
            Error::EpochException => "SystemTime before EPOCH!"@,
        }
    }

    /// A sentence for a human reader.
    pub fn message(&self) -> (s: String)
        ensures
            s@ == self.text(),
    {
        match self {
            Error::TimeOverflow => "There is not enough ID now".to_owned(),
            Error::SystemTimeException => "SystemTime before UNIX EPOCH!".to_owned(),
            Error::WorkerIDOverflow => "Too many threads".to_owned(),
            Error::EpochException => "SystemTime before EPOCH!".to_owned(),
        }
    }

    /// Whether trying again later can help. Only `TimeOverflow` passes with
    /// time; the others need the clock or the configuration to be put right.
    pub fn is_transient(&self) -> (b: bool)
        ensures
            b == (*self == Error::TimeOverflow),
    {
        match self {
            Error::TimeOverflow => true,
            _ => false,
        }
    }
}

/// An answer in bytes is the answer `want`.
pub open spec fn agrees<const N: usize>(r: Result<[u8; N], Error>, want: Result<Seq<u8>, Error>)
    -> bool {
    match r {
        Ok(id) => want == Ok::<Seq<u8>, Error>(id@),
        Err(e) => want == Err::<Seq<u8>, Error>(e),
    }
}

} // verus!
