//! All error kinds tied to the light client.

use vstd::prelude::*;
use crate::lite::types::Time;

verus! {

/// The main error type verification methods will return.
/// See [`Kind`] for the different kinds of errors.
pub type Error = Kind;

/// All error kinds related to the light client.
#[derive(Clone, Copy, Debug, PartialEq, Eq, Structural)]
pub enum Kind {
    /// The provided header expired.
    Expired { at: Time, now: Time },

    /// Trusted header is from the future, or the end of its trusting period
    /// is not representable.
    DurationOutOfRange,

    /// Header height smaller than expected.
    NonIncreasingHeight { got: u64, expected: u64 },

    /// Header time is in the past compared to the already trusted header.
    NonIncreasingTime,

    /// Invalid validator hash.
    InvalidValidatorSet,

    /// Invalid next validator hash.
    InvalidNextValidatorSet,

    /// Commit is not for the header we expected.
    InvalidCommitValue,

    /// Signed power does not account for +2/3 of the total voting power.
    InvalidCommit { total: u64, signed: u64 },

    /// The trust threshold (default +1/3) is not met.
    InsufficientVotingPower { total: u64, signed: u64 },

    /// An invalid trust threshold was supplied.
    InvalidTrustThreshold,

    /// A request to the injected `Requester` failed.
    RequestFailed,

    /// An unexpected condition, such as overflow in height arithmetic.
    ImplementationSpecific,
}

} // verus!
