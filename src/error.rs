use vstd::prelude::*;

verus! {

/// Why an operation was rejected. A rejected operation leaves no state behind.
#[derive(Clone, Copy, Debug, PartialEq, Eq, Structural)]
pub enum NarrativeError {
    /// The score lies above 100.
    InvalidScore,
    /// The platform name is longer than 20 bytes.
    PlatformTooLong,
    /// The alternative name is longer than 20 bytes.
    AlternativeTooLong,
    /// Reserved: no operation treats a subscription as expired.
    SubscriptionExpired,
    /// The caller is not the subscriber that the subscription names.
    Unauthorized,
    /// The end of the subscription does not fit in a signed 64-bit time.
    EndTimeOverflow,
    /// The network clock could not be read.
    ClockUnavailable,
}

} // verus!
