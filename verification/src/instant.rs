//! Points in time, as the host's clock reports them.

use vstd::prelude::*;

verus! {

/// The largest distance from the Unix epoch, in milliseconds, that a
/// [`Timestamp`] can lie at: one hundred million days.
pub const MAX_MILLIS: i64 = 8_640_000_000_000_000;

/// Milliseconds in one second.
pub const MILLIS_PER_SECOND: i64 = 1_000;

/// Milliseconds in one minute.
pub const MILLIS_PER_MINUTE: i64 = 60_000;

/// Whether `millis` milliseconds from the Unix epoch is an instant that a
/// [`Timestamp`] can hold.
pub open spec fn representable(millis: int) -> bool {
    -MAX_MILLIS <= millis <= MAX_MILLIS
}

/// An instant, counted in milliseconds from the Unix epoch and no further
/// than [`MAX_MILLIS`] from it in either direction.
#[derive(Clone, Copy, Debug, PartialEq, Eq, Structural)]
pub struct Timestamp {
    millis: i64,
}

impl View for Timestamp {
    type V = int;

    /// The instant as milliseconds from the Unix epoch.
    closed spec fn view(&self) -> int {
        self.millis as int
    }
}

impl Timestamp {
    #[verifier::type_invariant]
    pub open spec fn in_range(self) -> bool {
        representable(self@)
    }

    /// The instant `millis` milliseconds from the Unix epoch, if it is
    /// representable.
    pub fn from_millis(millis: i64) -> (t: Option<Timestamp>)
        ensures
            t is Some <==> representable(millis as int),
            t matches Some(ts) ==> ts@ == millis,
    {
        if -MAX_MILLIS <= millis && millis <= MAX_MILLIS {
            Some(Timestamp { millis })
        } else {
            None
        }
    }

    /// The instant as milliseconds from the Unix epoch.
    pub fn millis(&self) -> (m: i64)
        ensures
            m == self@,
            representable(m as int),
    {
        proof {
            use_type_invariant(self);
        }
        self.millis
    }
}

} // verus!
