//! How long a credential stays valid.

use vstd::prelude::*;
use vstd::std_specs::convert::FromSpecImpl;

verus! {

/// The validity window of a credential.
#[derive(Clone, Copy, Debug, PartialEq, Eq, Structural)]
pub enum LifeSpan {
    /// The credential never expires.
    Indefinite,
    /// The credential must be replaced on every access.
    SingleUse,
    /// The credential is valid for this many seconds from its issuance.
    Seconds(i64),
}

impl LifeSpan {
    /// The lifespan that a reported lifetime in seconds stands for: a negative
    /// lifetime never expires, zero is good for one use, and a positive one
    /// is a number of seconds.
    pub open spec fn of_lifetime(value: i64) -> LifeSpan {
        if value < 0 {
            LifeSpan::Indefinite
        } else if value == 0 {
            LifeSpan::SingleUse
        } else {
            LifeSpan::Seconds(value)
        }
    }

    /// A window of seconds is positive.
    pub open spec fn wf(self) -> bool {
        self matches LifeSpan::Seconds(n) ==> n > 0
    }

    /// Whether a credential with this lifespan has to be replaced once
    /// `elapsed` whole seconds have passed since its issuance. A window of
    /// `n` seconds is given up when more than half of it, rounded down, is
    /// gone.
    pub open spec fn stale_after(self, elapsed: nat) -> bool {
        match self {
            LifeSpan::Indefinite => false,
            LifeSpan::SingleUse => true,
            LifeSpan::Seconds(n) => elapsed > n / 2,
        }
    }
}

impl From<i64> for LifeSpan {
    fn from(value: i64) -> (lifespan: LifeSpan) {
        if value < 0 {
            LifeSpan::Indefinite
        } else if value == 0 {
            LifeSpan::SingleUse
        } else {
            LifeSpan::Seconds(value)
        }
    }
}

impl FromSpecImpl<i64> for LifeSpan {
    open spec fn obeys_from_spec() -> bool {
        true
    }

    open spec fn from_spec(value: i64) -> LifeSpan {
        LifeSpan::of_lifetime(value)
    }
}

} // verus!
