//! The wire formats and what each one changes in a message.
//!
//! A format decides two things. It says whether the stock-locate and
//! tracking-number header stands in front of a message's timestamp, which is
//! the only difference in layout. And it says how the six-byte timestamp field
//! becomes nanoseconds since midnight: taken as it is, or added to the seconds
//! that the registry's clock has reached.

use vstd::prelude::*;

verus! {

/// Length of the stock-locate and tracking-number header.
pub const LOCATE_HEADER_LEN: usize = 4;

/// Nanoseconds in one tick of the registry's clock.
pub const NANOS_PER_SECOND: u64 = 1_000_000_000;

/// Largest value the six-byte timestamp field can hold.
pub const MAX_TIMESTAMP: u64 = 0xffff_ffff_ffff;

/// A supported wire format.
#[derive(Clone, Copy, Debug, PartialEq, Eq, Structural)]
pub enum Version {
    /// Messages without the header; their timestamps count from the clock.
    V41,
    /// Messages with the header; their timestamps count from midnight.
    V50,
}

impl Version {
    /// Whether order-touching messages carry the stock-locate and
    /// tracking-number header in front of their timestamp.
    pub open spec fn spec_has_header(&self) -> bool {
        *self == Version::V50
    }

    /// Whether order-touching messages carry the stock-locate and
    /// tracking-number header in front of their timestamp.
    #[verifier::when_used_as_spec(spec_has_header)]
    pub fn has_header(&self) -> (present: bool)
        ensures
            present == self.spec_has_header(),
    {
        match self {
            Version::V41 => false,
            Version::V50 => true,
        }
    }

    /// Number of header bytes between a message's start and its timestamp.
    pub open spec fn spec_header_len(&self) -> usize {
        if self.spec_has_header() {
            LOCATE_HEADER_LEN
        } else {
            0
        }
    }

    /// Number of header bytes between a message's start and its timestamp.
    #[verifier::when_used_as_spec(spec_header_len)]
    pub fn header_len(&self) -> (len: usize)
        ensures
            len == self.spec_header_len(),
    {
        if self.has_header() {
            LOCATE_HEADER_LEN
        } else {
            0
        }
    }

    /// Whether the timestamp field counts nanoseconds from the registry's
    /// clock; otherwise it counts them from midnight.
    pub open spec fn spec_clock_relative(&self) -> bool {
        *self == Version::V41
    }

    /// Whether the timestamp field counts nanoseconds from the registry's
    /// clock; otherwise it counts them from midnight.
    #[verifier::when_used_as_spec(spec_clock_relative)]
    pub fn clock_relative(&self) -> (relative: bool)
        ensures
            relative == self.spec_clock_relative(),
    {
        match self {
            Version::V41 => true,
            Version::V50 => false,
        }
    }

    /// Nanoseconds since midnight for a timestamp field read while the clock
    /// stood at `clock` seconds.
    pub open spec fn spec_nanoseconds(&self, clock: u32, field: u64) -> u64 {
        if self.spec_clock_relative() {
            (clock * NANOS_PER_SECOND + field) as u64
        } else {
            field
        }
    }

    /// Nanoseconds since midnight for a timestamp field read while the clock
    /// stood at `clock` seconds.
    #[verifier::when_used_as_spec(spec_nanoseconds)]
    pub fn nanoseconds(&self, clock: u32, field: u64) -> (nanoseconds: u64)
        requires
            field <= MAX_TIMESTAMP,
        ensures
            nanoseconds == self.spec_nanoseconds(clock, field),
            self.spec_clock_relative() ==> nanoseconds == clock * NANOS_PER_SECOND + field,
    {
        if self.clock_relative() {
            let seconds: u64 = clock as u64;
            seconds * NANOS_PER_SECOND + field
        } else {
            field
        }
    }
}

/// Expanding a timestamp never wraps: under a format that counts from the
/// clock the nanoseconds are the clock's seconds plus the field, for every
/// clock and every value the field can hold.
pub proof fn lemma_nanoseconds_never_wrap(version: Version, clock: u32, field: u64)
    requires
        field <= MAX_TIMESTAMP,
    ensures
        version.clock_relative() ==> version.nanoseconds(clock, field) == clock * NANOS_PER_SECOND
            + field,
        !version.clock_relative() ==> version.nanoseconds(clock, field) == field,
{
}

} // verus!
