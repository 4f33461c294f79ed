use vstd::prelude::*;

verus! {

/// Nanoseconds in a second.
pub const NANOS_PER_SECOND: u32 = 1_000_000_000;

#[verifier::external_type_specification]
#[verifier::external_body]
pub struct ExSystemTime(std::time::SystemTime);

/// The time the system clock shows (`SystemTime::now`). Nothing is
/// promised of it.
#[verifier::external_body]
fn system_time_now() -> std::time::SystemTime {
    std::time::SystemTime::now()
}

/// How far `t` lies from the Unix epoch (`SystemTime::duration_since`), as
/// whole seconds and the nanoseconds past them (`Duration::as_secs`,
/// `Duration::subsec_nanos`): `Ok` when `t` is not before the epoch, `Err`
/// with the distance back when it is. It reads a clock value, so nothing is
/// promised of it but that the nanoseconds are under a second.
#[verifier::external_body]
fn distance_from_epoch(t: &std::time::SystemTime) -> (r: Result<(u64, u32), (u64, u32)>)
    ensures
        match r {
            Ok(d) => d.1 < NANOS_PER_SECOND,
            Err(d) => d.1 < NANOS_PER_SECOND,
        },
{
    match t.duration_since(std::time::UNIX_EPOCH) {
        Ok(d) => Ok((d.as_secs(), d.subsec_nanos())),
        Err(e) => Err((e.duration().as_secs(), e.duration().subsec_nanos())),
    }
}

/// A clock reading: whole seconds since the Unix epoch (rounded down) and
/// nanoseconds past them under a second. (Times read from text may also
/// carry a leap second, as nanoseconds from one second up; a clock reading
/// never does.)
pub open spec fn is_clock_time(t: (i64, u32)) -> bool {
    t.1 < NANOS_PER_SECOND
}

/// The time that lies the distance `d` from the Unix epoch: after it for
/// `Ok`, before it for `Err`, each given as whole seconds and nanoseconds.
/// Seconds beyond what `i64` holds are clamped to `i64::MAX` after the epoch
/// and to `i64::MIN` (with no nanoseconds) before it.
pub open spec fn time_at_distance(d: Result<(u64, u32), (u64, u32)>) -> (i64, u32) {
    match d {
        Ok((s, n)) => if s <= i64::MAX {
            (s as i64, n)
        } else {
            (i64::MAX, n)
        },
        Err((s, n)) => if n == 0 {
            if s <= i64::MAX {
                ((0 - s) as i64, 0)
            } else {
                (i64::MIN, 0)
            }
        } else if s < i64::MAX {
            ((0 - s - 1) as i64, (NANOS_PER_SECOND - n) as u32)
        } else {
            (i64::MIN, 0)
        },
    }
}

/// The time that lies the distance `d` (as `distance_from_epoch` gives it)
/// from the Unix epoch.
pub fn time_from_epoch_distance(d: Result<(u64, u32), (u64, u32)>) -> (r: (i64, u32))
    requires
        match d {
            Ok(x) => x.1 < NANOS_PER_SECOND,
            Err(x) => x.1 < NANOS_PER_SECOND,
        },
    ensures
        r == time_at_distance(d),
        is_clock_time(r),
{
    match d {
        Ok((s, n)) => if s <= i64::MAX as u64 {
            (s as i64, n)
        } else {
            (i64::MAX, n)
        },
        Err((s, n)) => {
            if n == 0 {
                if s <= i64::MAX as u64 {
                    (0 - (s as i64), 0)
                } else {
                    (i64::MIN, 0)
                }
            } else if s < i64::MAX as u64 {
                (0 - (s as i64) - 1, NANOS_PER_SECOND - n)
            } else {
                (i64::MIN, 0)
            }
        },
    }
}

/// The current time of the system clock: the time at the distance from the
/// Unix epoch that the clock shows.
pub fn current_time() -> (r: (i64, u32))
    ensures
        is_clock_time(r),
        exists|d: Result<(u64, u32), (u64, u32)>| r == time_at_distance(d),
{
    let now = system_time_now();
    let d = distance_from_epoch(&now);
    time_from_epoch_distance(d)
}

/// The time that chrono reads from `text` as a `DateTime<FixedOffset>`
/// (`str::parse`, relaxed RFC 3339, the form of serde's encoding), given as
/// its Unix timestamp and the nanoseconds past it; none when `text` is no
/// such time.
pub uninterp spec fn parsed_time(text: Seq<char>) -> Option<(i64, u32)>;

/// Reads a date and time as chrono's serde encoding does (`str::parse` into
/// `chrono::DateTime<FixedOffset>`, then `timestamp` and
/// `timestamp_subsec_nanos`).
#[verifier::external_body]
fn parse_time(text: &str) -> (r: Option<(i64, u32)>)
    ensures
        r == parsed_time(text@),
{
    match text.parse::<chrono::DateTime<chrono::FixedOffset>>() {
        Ok(t) => Some((t.timestamp(), t.timestamp_subsec_nanos())),
        Err(_) => None,
    }
}

/// An optional time as it is read: `Some(None)` for no time, `Some(Some(t))`
/// for a readable time, `None` when the text is not a time.
pub open spec fn read_time_result(text: Option<String>) -> Option<Option<(i64, u32)>> {
    match text {
        None => Some(None),
        Some(t) => match parsed_time(t@) {
            Some(p) => Some(Some(p)),
            None => None,
        },
    }
}

/// Reads an optional date and time, as GitHub and the stored files write
/// them; `None` when a time is present but cannot be read.
pub fn read_time(text: &Option<String>) -> (r: Option<Option<(i64, u32)>>)
    ensures
        r == read_time_result(*text),
{
    match text {
        None => Some(None),
        Some(t) => match parse_time(t.as_str()) {
            Some(p) => Some(Some(p)),
            None => None,
        },
    }
}

/// The text that chrono's serde encoding writes for the UTC time `t`
/// (`to_rfc3339_opts` with `SecondsFormat::AutoSi` and `Z`), if chrono can
/// hold that time.
pub uninterp spec fn time_text(t: (i64, u32)) -> Option<Seq<char>>;

/// Writes the UTC time `t` as chrono's serde encoding does
/// (`chrono::DateTime::from_timestamp`, then `to_rfc3339_opts` with
/// `SecondsFormat::AutoSi` and `Z`); `None` when chrono cannot hold it.
#[verifier::external_body]
fn format_time(t: (i64, u32)) -> (r: Option<String>)
    ensures
        match r {
            Some(s) => time_text(t) == Some(s@),
            None => time_text(t) is None,
        },
{
    match chrono::DateTime::from_timestamp(t.0, t.1) {
        Some(d) => Some(d.to_rfc3339_opts(chrono::SecondsFormat::AutoSi, true)),
        None => None,
    }
}

/// An optional time as it is written: `Some(None)` for no time,
/// `Some(Some(text))` for a time, `None` when the time cannot be written.
pub open spec fn write_time_result(t: Option<(i64, u32)>) -> Option<Option<Seq<char>>> {
    match t {
        None => Some(None),
        Some(t) => match time_text(t) {
            Some(s) => Some(Some(s)),
            None => None,
        },
    }
}

/// Writes an optional time for storing it.
pub fn write_time(t: Option<(i64, u32)>) -> (r: Option<Option<String>>)
    ensures
        match r {
            None => write_time_result(t) is None,
            Some(None) => write_time_result(t) == Some(None::<Seq<char>>),
            Some(Some(s)) => write_time_result(t) == Some(Some(s@)),
        },
{
    match t {
        None => Some(None),
        Some(t) => match format_time(t) {
            Some(s) => Some(Some(s)),
            None => None,
        },
    }
}

} // verus!
