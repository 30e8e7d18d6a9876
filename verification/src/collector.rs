//! The periodic collector that deletes old uploads.
use vstd::prelude::*;

use crate::config::{parse_unsigned_spec, settings_spec, Settings, WEEK_SECS};

verus! {

/// Seconds between two sweeps of the collector: two hours.
pub const SWEEP_INTERVAL_SECS: u64 = 7200;

/// A file of this age has outlived the limit.
pub open spec fn is_expired(age_secs: int, max_age_secs: int) -> bool {
    age_secs >= max_age_secs
}

/// Whether the collector deletes a file of the given age (whole seconds and
/// the nanoseconds beyond them) under an age limit of whole seconds: it keeps
/// the files younger than the limit and deletes the others.
pub fn should_delete(age_secs: u64, age_nanos: u32, max_age_secs: u64) -> (d: bool)
    requires
        age_nanos < 1_000_000_000,
    ensures
        d == !(age_secs * 1_000_000_000 + age_nanos < max_age_secs * 1_000_000_000),
        d == is_expired(age_secs as int, max_age_secs as int),
{
    !(age_secs < max_age_secs)
}

/// The directory the collector sweeps.
pub fn sweep_dir() -> (d: String)
    ensures
        d@ == "./uploads"@,
{
    String::from_str("./uploads")
}

/// The line logged after the collector deleted the file `name`.
pub fn deletion_notice(name: &str) -> (line: String)
    ensures
        line@ == "[Garbage collector]: deleted file "@ + name@,
{
    let mut line = String::from_str("[Garbage collector]: deleted file ");
    line.append(name);
    line
}

/// Law: under settings read with `ROCKET_FILE_AGE_WEEKS` set to `weeks`, an
/// upload expires exactly when it is at least that many weeks old.
pub proof fn uploads_live_for_configured_weeks(
    weeks: Seq<char>,
    s: Settings,
    age_secs: int,
)
    requires
        settings_spec(None, None, Some(weeks), None, None, s),
        parse_unsigned_spec(weeks, u64::MAX as int) is Some,
    ensures
        is_expired(age_secs, s.upload_max_age_secs as int) <==> age_secs >= WEEK_SECS
            * parse_unsigned_spec(weeks, u64::MAX as int).unwrap(),
{
}

} // verus!
