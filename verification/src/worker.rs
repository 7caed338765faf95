//! Worker identities: one small number for each generation context.
//!
//! A registry hands out 0, 1, 2, ... in the order in which it is asked, and
//! never the same number twice. A context asks once and keeps what it got.

use crate::error::Error;
use vstd::prelude::*;

verus! {

/// How many identities 16 bits can tell apart.
pub const WORKER_IDS: u32 = 0x1_0000;

/// How many identities the 64-bit format, with its single byte, can tell
/// apart.
pub const NARROW_WORKER_IDS: u16 = 0x100;

/// What a registry that has handed out `issued` identities answers to the
/// next request: the identity, or that there is none left.
pub open spec fn assignment(issued: nat) -> Result<u16, Error> {
    if issued < WORKER_IDS {
        Ok(issued as u16)
    } else {
        Err(Error::WorkerIDOverflow)
    }
}

/// How many identities are out once a registry that had handed out `issued`
/// has answered one more request.
pub open spec fn issued_next(issued: nat) -> nat {
    if issued < WORKER_IDS {
        issued + 1
    } else {
        issued
    }
}

/// How many identities a new registry has handed out after `requests`
/// requests.
pub open spec fn issued_after(requests: nat) -> nat
    decreases requests,
{
    if requests == 0 {
        0
    } else {
        issued_next(issued_after((requests - 1) as nat))
    }
}

/// The registry of worker identities.
pub struct WorkerRegistry {
    issued: u32,
}

impl WorkerRegistry {
    #[verifier::type_invariant]
    spec fn bounded(self) -> bool {
        self.issued <= WORKER_IDS
    }

    /// How many identities have been handed out.
    pub closed spec fn issued(&self) -> nat {
        self.issued as nat
    }

    /// A registry that has handed out nothing yet.
    pub fn new() -> (registry: WorkerRegistry)
        ensures
            registry.issued() == 0,
    {
        WorkerRegistry { issued: 0 }
    }

    /// How many identities have been handed out.
    pub fn count(&self) -> (n: u32)
        ensures
            n == self.issued(),
            n <= WORKER_IDS,
    {
        proof {
            use_type_invariant(self);
        }
        self.issued
    }

    /// Hands out the next identity: the number of identities handed out
    /// before. Once all 65536 are out, every request fails with
    /// `WorkerIDOverflow` and the registry stays as it is.
    pub fn assign(&mut self) -> (r: Result<u16, Error>)
        ensures
            r == assignment(old(self).issued()),
            final(self).issued() == issued_next(old(self).issued()),
    {
        proof {
            use_type_invariant(&*self);
        }
        if self.issued < WORKER_IDS {
            let id: u16 = self.issued as u16;
            self.issued = self.issued + 1;
            Ok(id)
        } else {
            Err(Error::WorkerIDOverflow)
        }
    }
}

/// Identities come in the order of the requests: the n-th request to a new
/// registry is answered with `n - 1`, as long as `n` is at most 65536; every
/// later request fails with `WorkerIDOverflow`.
pub proof fn lemma_allocation_order(n: nat)
    requires
        n >= 1,
    ensures
        n <= WORKER_IDS ==> assignment(issued_after((n - 1) as nat)) == Ok::<u16, Error>(
            (n - 1) as u16,
        ),
        n > WORKER_IDS ==> assignment(issued_after((n - 1) as nat)) == Err::<u16, Error>(
            Error::WorkerIDOverflow,
        ),
{
    lemma_issued_after((n - 1) as nat);
}

/// After `requests` requests a new registry has handed out that many
/// identities, or all 65536 if there were more requests than that.
pub proof fn lemma_issued_after(requests: nat)
    ensures
        issued_after(requests) == if requests <= WORKER_IDS {
            requests
        } else {
            WORKER_IDS as nat
        },
    decreases requests,
{
    if requests > 0 {
        lemma_issued_after((requests - 1) as nat);
    }
}

} // verus!
