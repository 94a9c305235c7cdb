//! Clock readings and 64-bit NTP timestamps, both modelled as a whole number of
//! microseconds since the Unix epoch.

use vstd::prelude::*;

verus! {

/// Seconds from 1900-01-01, where NTP starts counting, to 1970-01-01.
pub const NTP_UNIX_DELTA: u32 = 2_208_988_800;

/// Microseconds in one second.
pub const MICROS_PER_SECOND: u32 = 1_000_000;

/// Units of the 32-bit binary fraction in one second.
pub const FRACTIONS_PER_SECOND: u64 = 0x1_0000_0000;

/// A reading of the local wall clock: whole seconds since the Unix epoch and
/// the microseconds past that second.
///
/// Every pair of field values denotes the instant `seconds * 1_000_000 + micros`;
/// a reading is normalised when `micros` is below one million.
#[derive(Clone, Copy, Debug, PartialEq, Eq, Structural)]
pub struct Timestamp {
    pub seconds: u32,
    pub micros: u32,
}

/// A timestamp as it travels in an NTP packet: seconds since 1900 modulo 2^32
/// and a binary fraction of a second in units of 2^-32 s.
#[derive(Clone, Copy, Debug, PartialEq, Eq, Structural)]
pub struct NtpTimestamp {
    pub seconds: u32,
    pub fraction: u32,
}

/// The least binary fraction that is not below `micros` microseconds.
pub open spec fn fraction_of_micros(micros: int) -> int {
    (micros * 0x1_0000_0000 + 999_999) / 1_000_000
}

/// The whole microseconds held in a binary fraction.
pub open spec fn micros_of_fraction(fraction: int) -> int {
    (fraction * 1_000_000) / 0x1_0000_0000
}

impl Timestamp {
    /// Microseconds since the Unix epoch.
    pub open spec fn unix_micros(self) -> int {
        self.seconds * 1_000_000 + self.micros
    }

    /// Whether the sub-second part is below one second.
    pub open spec fn normalised(self) -> bool {
        self.micros < 1_000_000
    }

    /// The wire form of this reading.
    pub open spec fn ntp(self) -> NtpTimestamp {
        NtpTimestamp {
            seconds: ((self.unix_micros() / 1_000_000 + NTP_UNIX_DELTA) % 0x1_0000_0000) as u32,
            fraction: fraction_of_micros(self.unix_micros() % 1_000_000) as u32,
        }
    }

    /// Builds a reading from what a system clock reports.
    pub fn from_parts(seconds: u64, micros: u32) -> (r: Option<Timestamp>)
        ensures
            r matches Some(t) ==> t.seconds == seconds && t.micros == micros,
            r is Some <==> seconds <= u32::MAX && micros < 1_000_000,
    {
        if seconds <= 0xffff_ffff && micros < MICROS_PER_SECOND {
            Some(Timestamp { seconds: seconds as u32, micros })
        } else {
            None
        }
    }

    /// Microseconds since the Unix epoch.
    pub fn as_unix_micros(&self) -> (r: u64)
        ensures
            r == self.unix_micros(),
            r < 0x1_0000_0000 * 1_000_001,
    {
        self.seconds as u64 * 1_000_000 + self.micros as u64
    }

    /// Encodes the reading as an NTP timestamp. The fraction is rounded up to
    /// the next unit, so that decoding gives the same microsecond back.
    pub fn to_ntp(&self) -> (r: NtpTimestamp)
        ensures
            r == self.ntp(),
    {
        let total: u64 = self.as_unix_micros();
        let whole: u64 = total / 1_000_000;
        let part: u64 = total % 1_000_000;
        let seconds: u64 = (whole + NTP_UNIX_DELTA as u64) % FRACTIONS_PER_SECOND;
        let fraction: u64 = (part * FRACTIONS_PER_SECOND + 999_999) / 1_000_000;
        assert(fraction <= 0xffff_ffff) by {
            assert(part <= 999_999);
            assert(part * 0x1_0000_0000 + 999_999 <= 999_999 * 0x1_0000_0000 + 999_999);
        }
        NtpTimestamp { seconds: seconds as u32, fraction: fraction as u32 }
    }
}

impl NtpTimestamp {
    /// Seconds since the Unix epoch, read in the span from 1970 to 2106.
    pub open spec fn unix_seconds(self) -> int {
        if self.seconds >= NTP_UNIX_DELTA {
            self.seconds - NTP_UNIX_DELTA
        } else {
            self.seconds + 0x1_0000_0000 - NTP_UNIX_DELTA
        }
    }

    /// Whole microseconds past the second.
    pub open spec fn subsec_micros(self) -> int {
        micros_of_fraction(self.fraction as int)
    }

    /// Microseconds since the Unix epoch, truncated to one microsecond.
    pub open spec fn unix_micros(self) -> int {
        self.unix_seconds() * 1_000_000 + self.subsec_micros()
    }

    /// Seconds since the Unix epoch, read in the span from 1970 to 2106.
    pub fn to_unix_seconds(&self) -> (r: u32)
        ensures
            r == self.unix_seconds(),
    {
        if self.seconds >= NTP_UNIX_DELTA {
            self.seconds - NTP_UNIX_DELTA
        } else {
            self.seconds + (0xffff_ffff - NTP_UNIX_DELTA) + 1
        }
    }

    /// Whole microseconds past the second.
    pub fn to_subsec_micros(&self) -> (r: u32)
        ensures
            r == self.subsec_micros(),
            r < 1_000_000,
    {
        let scaled: u64 = self.fraction as u64 * 1_000_000;
        (scaled / FRACTIONS_PER_SECOND) as u32
    }

    /// Microseconds since the Unix epoch, truncated to one microsecond.
    pub fn as_unix_micros(&self) -> (r: u64)
        ensures
            r == self.unix_micros(),
            r < 0x1_0000_0000 * 1_000_000,
    {
        self.to_unix_seconds() as u64 * 1_000_000 + self.to_subsec_micros() as u64
    }
}

/// Encoding a clock reading for the wire and decoding it again gives the same
/// microsecond back, for every reading whose whole seconds fit in 32 bits.
pub proof fn lemma_wire_form_keeps_the_instant(t: Timestamp)
    requires
        t.unix_micros() < 0x1_0000_0000 * 1_000_000,
    ensures
        t.ntp().unix_micros() == t.unix_micros(),
        t.ntp().unix_seconds() == t.unix_micros() / 1_000_000,
        t.ntp().subsec_micros() == t.unix_micros() % 1_000_000,
{
    let total: int = t.unix_micros();
    let whole: int = total / 1_000_000;
    let part: int = total % 1_000_000;
    let fraction: int = fraction_of_micros(part);
    assert(part * 0x1_0000_0000 <= fraction * 1_000_000);
    assert(fraction * 1_000_000 < (part + 1) * 0x1_0000_0000);
    assert(micros_of_fraction(fraction) == part);
}

} // verus!
