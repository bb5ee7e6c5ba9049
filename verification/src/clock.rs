//! Readings of a monotonic clock and the whole seconds between them.

use vstd::prelude::*;

verus! {

/// Nanoseconds in one second.
pub const NANOS_PER_SEC: u32 = 1_000_000_000;

/// Whole seconds from the reading `since` to the reading `now`, both in
/// nanoseconds; zero when `now` is not later than `since`.
pub open spec fn elapsed_secs(now: nat, since: nat) -> nat {
    if now >= since {
        ((now - since) / (NANOS_PER_SEC as int)) as nat
    } else {
        0
    }
}

/// A reading of a monotonic clock: whole seconds and the nanoseconds of the
/// second under way, counted from an origin that the host picks once.
#[derive(Clone, Copy, Debug)]
pub struct Moment {
    secs: u64,
    nanos: u32,
}

impl View for Moment {
    type V = nat;

    /// The reading in nanoseconds since the origin.
    closed spec fn view(&self) -> nat {
        (self.secs * NANOS_PER_SEC + self.nanos) as nat
    }
}

impl Moment {
    #[verifier::type_invariant]
    spec fn subsec_in_range(self) -> bool {
        self.nanos < NANOS_PER_SEC
    }

    /// The reading `secs` seconds and `nanos` nanoseconds after the origin,
    /// or `None` when `nanos` is a full second or more.
    pub fn new(secs: u64, nanos: u32) -> (r: Option<Moment>)
        ensures
            r is Some <==> nanos < NANOS_PER_SEC,
            r matches Some(m) ==> m@ == secs * NANOS_PER_SEC + nanos,
    {
        if nanos < NANOS_PER_SEC {
            Some(Moment { secs, nanos })
        } else {
            None
        }
    }

    /// The reading exactly `secs` seconds after the origin.
    pub fn from_secs(secs: u64) -> (m: Moment)
        ensures
            m@ == secs * NANOS_PER_SEC,
    {
        Moment { secs, nanos: 0 }
    }

    /// Whole seconds since the origin.
    pub fn as_secs(&self) -> (s: u64)
        ensures
            s == self@ / (NANOS_PER_SEC as nat),
    {
        proof {
            use_type_invariant(self);
        }
        self.secs
    }

    /// Nanoseconds into the second under way.
    pub fn subsec_nanos(&self) -> (n: u32)
        ensures
            n == self@ % (NANOS_PER_SEC as nat),
    {
        proof {
            use_type_invariant(self);
        }
        self.nanos
    }

    /// Whole seconds that passed from `earlier` to `self`, zero when `self`
    /// is not the later reading.
    pub fn secs_since(&self, earlier: Moment) -> (s: u64)
        ensures
            s == elapsed_secs(self@, earlier@),
    {
        proof {
            use_type_invariant(self);
            use_type_invariant(&earlier);
        }
        if self.secs < earlier.secs {
            0
        } else if self.nanos >= earlier.nanos {
            self.secs - earlier.secs
        } else if self.secs == earlier.secs {
            0
        } else {
            self.secs - earlier.secs - 1
        }
    }
}

/// Time never runs backwards on the seconds counter: a later reading is at
/// least as many whole seconds away from any anchor as an earlier one.
pub proof fn lemma_elapsed_secs_monotonic(earlier: nat, later: nat, since: nat)
    requires
        earlier <= later,
    ensures
        elapsed_secs(earlier, since) <= elapsed_secs(later, since),
{
    if earlier >= since {
        assert((earlier - since) / (NANOS_PER_SEC as int) <= (later - since) / (NANOS_PER_SEC as int))
            by (nonlinear_arith)
            requires
                0 <= earlier - since <= later - since,
                NANOS_PER_SEC == 1_000_000_000,
        ;
    }
}

} // verus!
