//! Instants in UTC, as the data model carries them.
use vstd::prelude::*;

use chrono::TimeZone;

verus! {

/// Whether chrono accepts `secs` seconds and `nanos` nanoseconds since the
/// Unix epoch as one UTC instant (the result of
/// `Utc.timestamp_opt(secs, nanos).single().is_some()`).
pub uninterp spec fn chrono_accepts_timestamp(secs: i64, nanos: u32) -> bool;

/// Asks chrono (`TimeZone::timestamp_opt` on `Utc`, then
/// `MappedLocalTime::single`) whether `secs`/`nanos` name a single UTC
/// instant. Claimed: the answer is `chrono_accepts_timestamp(secs, nanos)`.
/// chrono's `NaiveTime::from_num_seconds_from_midnight_opt` refuses two
/// billion nanoseconds or more, and one billion or more (a leap second)
/// except in the last second of a minute; every instant of the years 1 to
/// 9999 with nanoseconds in that rule is accepted (those years lie well
/// inside chrono's date range). The exact bounds of that range are not
/// stated.
#[verifier::external_body]
fn utc_timestamp_is_valid(secs: i64, nanos: u32) -> (r: bool)
    ensures
        r == chrono_accepts_timestamp(secs, nanos),
        r ==> nanos < 2_000_000_000,
        r ==> (nanos >= 1_000_000_000 ==> secs % 60 == 59),
        spec_in_common_era(secs) && spec_nanos_fit(secs, nanos) ==> r,
{
    chrono::Utc.timestamp_opt(secs, nanos).single().is_some()
}

/// `secs` seconds after the Unix epoch falls within the years 1 to 9999:
/// from `0001-01-01T00:00:00Z` to `9999-12-31T23:59:59Z`.
pub open spec fn spec_in_common_era(secs: i64) -> bool {
    -62_135_596_800 <= secs <= 253_402_300_799
}

/// `nanos` nanoseconds fit the second `secs`: fewer than a billion, or,
/// in the last second of a minute (a leap second), fewer than two billion.
pub open spec fn spec_nanos_fit(secs: i64, nanos: u32) -> bool {
    nanos < 1_000_000_000 || (nanos < 2_000_000_000 && secs % 60 == 59)
}

/// A UTC instant: whole seconds since the Unix epoch plus the nanoseconds
/// within that second (a leap second reads as 1_000_000_000 or more).
#[derive(Debug, Clone, Copy, PartialEq, Eq)]
pub struct UtcDateTime {
    seconds: i64,
    nanos: u32,
}

impl UtcDateTime {
    /// The instant's seconds since the Unix epoch.
    pub closed spec fn spec_seconds(self) -> i64 {
        self.seconds
    }

    /// The instant's nanoseconds within its second.
    pub closed spec fn spec_nanos(self) -> u32 {
        self.nanos
    }

    /// Every instant is one chrono accepts.
    #[verifier::type_invariant]
    pub closed spec fn wf(self) -> bool {
        &&& chrono_accepts_timestamp(self.seconds, self.nanos)
        &&& self.nanos < 2_000_000_000
    }

    /// The instant `secs`/`nanos` names, built from its parts.
    pub closed spec fn spec_new(secs: i64, nanos: u32) -> UtcDateTime {
        UtcDateTime { seconds: secs, nanos }
    }

    /// The parts of an instant built by `spec_new` are the ones given.
    pub broadcast proof fn lemma_spec_new_parts(secs: i64, nanos: u32)
        ensures
            #[trigger] UtcDateTime::spec_new(secs, nanos).spec_seconds() == secs,
            UtcDateTime::spec_new(secs, nanos).spec_nanos() == nanos,
            UtcDateTime::spec_new(secs, nanos).wf() <==> (chrono_accepts_timestamp(secs, nanos)
                && nanos < 2_000_000_000),
    {
    }

    /// A valid instant is one chrono accepts, with fewer than two billion
    /// nanoseconds.
    pub broadcast proof fn lemma_wf_parts(dt: UtcDateTime)
        ensures
            #[trigger] dt.wf() <==> (chrono_accepts_timestamp(dt.spec_seconds(), dt.spec_nanos())
                && dt.spec_nanos() < 2_000_000_000),
    {
    }

    /// An instant is determined by its parts.
    pub broadcast proof fn lemma_parts_determine(a: UtcDateTime, b: UtcDateTime)
        ensures
            (#[trigger] a.spec_seconds() == #[trigger] b.spec_seconds() && a.spec_nanos()
                == b.spec_nanos()) ==> a == b,
    {
    }

    /// The instant `secs` seconds and `nanos` nanoseconds after the Unix
    /// epoch, if chrono accepts it (`Utc.timestamp_opt(..).single()`).
    pub fn from_timestamp(secs: i64, nanos: u32) -> (r: Option<UtcDateTime>)
        ensures
            r is Some <==> chrono_accepts_timestamp(secs, nanos),
            r is Some ==> r->0 == UtcDateTime::spec_new(secs, nanos),
            r is Some ==> spec_nanos_fit(secs, nanos),
            spec_in_common_era(secs) && spec_nanos_fit(secs, nanos) ==> r is Some,
    {
        if utc_timestamp_is_valid(secs, nanos) {
            Some(UtcDateTime { seconds: secs, nanos })
        } else {
            None
        }
    }

    /// Seconds since the Unix epoch (`DateTime::timestamp`).
    pub fn timestamp(&self) -> (r: i64)
        ensures
            r == self.spec_seconds(),
    {
        self.seconds
    }

    /// Nanoseconds within the second (`DateTime::timestamp_subsec_nanos`).
    pub fn timestamp_subsec_nanos(&self) -> (r: u32)
        ensures
            r == self.spec_nanos(),
            r < 2_000_000_000,
            chrono_accepts_timestamp(self.spec_seconds(), r),
    {
        proof {
            use_type_invariant(self);
        }
        self.nanos
    }
}

} // verus!
