//! Rendering of UTC instants, and the time elapsed since one.

use vstd::prelude::*;

verus! {

/// An instant: whole seconds since the Unix epoch and nanoseconds past it.
#[derive(Debug)]
pub struct Timestamp {
    pub seconds: i64,
    pub nanos: i32,
}

/// The RFC 3339 text chrono gives for the UTC instant `seconds` and
/// `nanos` after the epoch, or none when chrono cannot represent it.
pub uninterp spec fn utc_rfc3339(seconds: i64, nanos: u32) -> Option<Seq<char>>;

/// The `%Y-%m-%d %H:%M:%S` text chrono gives for the UTC instant, or none
/// when chrono cannot represent it.
pub uninterp spec fn utc_date_time(seconds: i64, nanos: u32) -> Option<Seq<char>>;

/// chrono's `DateTime::<Utc>::from_timestamp`, then `to_rfc3339` on the
/// instant it gives: the result is [`utc_rfc3339`] of the arguments.
#[verifier::external_body]
fn rfc3339_of(seconds: i64, nanos: u32) -> (r: Option<String>)
    ensures
        match utc_rfc3339(seconds, nanos) {
            Some(t) => r is Some && r->0@ == t,
            None => r is None,
        },
{
    match chrono::DateTime::<chrono::Utc>::from_timestamp(seconds, nanos) {
        Some(t) => Some(t.to_rfc3339()),
        None => None,
    }
}

/// chrono's `DateTime::<Utc>::from_timestamp`, then `format` with
/// `%Y-%m-%d %H:%M:%S`: the result is [`utc_date_time`] of the arguments.
#[verifier::external_body]
fn date_time_of(seconds: i64, nanos: u32) -> (r: Option<String>)
    ensures
        match utc_date_time(seconds, nanos) {
            Some(t) => r is Some && r->0@ == t,
            None => r is None,
        },
{
    match chrono::DateTime::<chrono::Utc>::from_timestamp(seconds, nanos) {
        Some(t) => Some(t.format("%Y-%m-%d %H:%M:%S").to_string()),
        None => None,
    }
}

/// chrono's `Utc::now`, as RFC 3339 text; it depends on the clock, so
/// nothing is stated of it.
#[verifier::external_body]
fn now_rfc3339() -> (r: String) {
    chrono::Utc::now().to_rfc3339()
}

/// chrono's `Utc::now`, as `%Y-%m-%d %H:%M:%S` text; it depends on the
/// clock, so nothing is stated of it.
#[verifier::external_body]
fn now_date_time() -> (r: String) {
    chrono::Utc::now().format("%Y-%m-%d %H:%M:%S").to_string()
}

/// chrono's `Utc::now`, as whole seconds since the epoch and the
/// nanoseconds past them (`timestamp`, `timestamp_subsec_nanos`); it depends
/// on the clock, so nothing is stated of it.
#[verifier::external_body]
pub(crate) fn now_instant() -> (r: (i64, u32)) {
    let t = chrono::Utc::now();
    (t.timestamp(), t.timestamp_subsec_nanos())
}

/// The whole seconds chrono counts from the first UTC instant to the second
/// (`num_seconds` of their difference), or none when chrono cannot
/// represent one of them.
pub uninterp spec fn utc_elapsed_seconds(
    from_seconds: i64,
    from_nanos: u32,
    to_seconds: i64,
    to_nanos: u32,
) -> Option<i64>;

/// chrono's `DateTime::<Utc>::from_timestamp` on both instants, then
/// `num_seconds` of the second minus the first: the result is
/// [`utc_elapsed_seconds`] of the arguments. It is none exactly when one
/// `from_timestamp` fails, as for [`utc_rfc3339`].
#[verifier::external_body]
fn elapsed_seconds_between(from_seconds: i64, from_nanos: u32, to_seconds: i64, to_nanos: u32) -> (r:
    Option<i64>)
    ensures
        r == utc_elapsed_seconds(from_seconds, from_nanos, to_seconds, to_nanos),
        r is None <==> (utc_rfc3339(from_seconds, from_nanos) is None || utc_rfc3339(
            to_seconds,
            to_nanos,
        ) is None),
{
    match (
        chrono::DateTime::<chrono::Utc>::from_timestamp(from_seconds, from_nanos),
        chrono::DateTime::<chrono::Utc>::from_timestamp(to_seconds, to_nanos),
    ) {
        (Some(from), Some(to)) => Some((to - from).num_seconds()),
        _ => None,
    }
}

/// The nanoseconds of `ts` as chrono takes them (`as u32`).
pub open spec fn nanos_of(ts: Timestamp) -> u32 {
    ts.nanos as u32
}

/// `text` is how `ts` reads in RFC 3339: chrono's text when chrono can
/// represent the instant (else the current time's, of which nothing is
/// stated).
pub open spec fn rfc3339_reads(ts: Timestamp, text: Seq<char>) -> bool {
    utc_rfc3339(ts.seconds, nanos_of(ts)) is Some ==> text == utc_rfc3339(
        ts.seconds,
        nanos_of(ts),
    )->0
}

/// `text` is how `ts` reads as `%Y-%m-%d %H:%M:%S` (see [`rfc3339_reads`]).
pub open spec fn date_time_reads(ts: Timestamp, text: Seq<char>) -> bool {
    utc_date_time(ts.seconds, nanos_of(ts)) is Some ==> text == utc_date_time(
        ts.seconds,
        nanos_of(ts),
    )->0
}

/// The RFC 3339 text of `ts`; the current time's when chrono cannot
/// represent it.
pub fn rfc3339_text(ts: &Timestamp) -> (r: String)
    ensures
        rfc3339_reads(*ts, r@),
{
    match rfc3339_of(ts.seconds, ts.nanos as u32) {
        Some(t) => t,
        None => now_rfc3339(),
    }
}

/// The `%Y-%m-%d %H:%M:%S` text of `ts`; the current time's when chrono
/// cannot represent it.
pub fn date_time_text(ts: &Timestamp) -> (r: String)
    ensures
        date_time_reads(*ts, r@),
{
    match date_time_of(ts.seconds, ts.nanos as u32) {
        Some(t) => t,
        None => now_date_time(),
    }
}

/// The whole seconds chrono counts from `ts` to the instant `now_seconds`,
/// `now_nanos`; zero where chrono cannot represent one of the two.
pub open spec fn elapsed_or_zero(ts: Timestamp, now_seconds: i64, now_nanos: u32) -> i64 {
    match utc_elapsed_seconds(ts.seconds, nanos_of(ts), now_seconds, now_nanos) {
        Some(e) => e,
        None => 0,
    }
}

/// `r` is the whole seconds chrono counts from `ts` to some instant (the
/// current one when it is read), or zero where chrono cannot represent one
/// of the two.
pub open spec fn elapsed_reads(ts: Timestamp, r: i64) -> bool {
    exists|now_seconds: i64, now_nanos: u32| r == #[trigger] elapsed_or_zero(ts, now_seconds, now_nanos)
}

/// Whole seconds from `ts` to the instant `now_seconds`, `now_nanos` (see
/// [`elapsed_or_zero`]).
pub fn seconds_between(ts: &Timestamp, now_seconds: i64, now_nanos: u32) -> (r: i64)
    ensures
        r == elapsed_or_zero(*ts, now_seconds, now_nanos),
        utc_rfc3339(ts.seconds, nanos_of(*ts)) is None ==> r == 0,
{
    match elapsed_seconds_between(ts.seconds, ts.nanos as u32, now_seconds, now_nanos) {
        Some(s) => s,
        None => 0,
    }
}

/// Whole seconds elapsed since `ts`, by the current time; zero when chrono
/// cannot represent it (the current time is then taken as the start).
pub fn seconds_since(ts: &Timestamp) -> (r: i64)
    ensures
        utc_rfc3339(ts.seconds, nanos_of(*ts)) is None ==> r == 0,
        elapsed_reads(*ts, r),
{
    let now = now_instant();
    let r = seconds_between(ts, now.0, now.1);
    assert(r == elapsed_or_zero(*ts, now.0, now.1));
    r
}

/// The RFC 3339 text chrono gives for the UTC instant with milliseconds
/// and a `+00:00` offset, or none when chrono cannot represent it.
pub uninterp spec fn utc_rfc3339_millis(seconds: i64, nanos: u32) -> Option<Seq<char>>;

/// chrono's `DateTime::<Utc>::from_timestamp`, then
/// `to_rfc3339_opts(SecondsFormat::Millis, false)`: the result is
/// [`utc_rfc3339_millis`] of the arguments.
#[verifier::external_body]
fn rfc3339_millis_of(seconds: i64, nanos: u32) -> (r: Option<String>)
    ensures
        match utc_rfc3339_millis(seconds, nanos) {
            Some(t) => r is Some && r->0@ == t,
            None => r is None,
        },
{
    match chrono::DateTime::<chrono::Utc>::from_timestamp(seconds, nanos) {
        Some(t) => Some(t.to_rfc3339_opts(chrono::SecondsFormat::Millis, false)),
        None => None,
    }
}

/// The offset of the machine's time zone at the UTC instant, in seconds
/// east of UTC: chrono's `DateTime::<Utc>::from_timestamp`, then
/// `with_timezone(&Local)` and `local_minus_utc` of its offset; none when
/// chrono cannot represent the instant (as for [`utc_rfc3339`]). Which
/// offset depends on the time zone, so only its bound is stated: a
/// `FixedOffset` is less than a day either way (`east_opt`).
#[verifier::external_body]
fn local_offset_at(seconds: i64, nanos: u32) -> (r: Option<i32>)
    ensures
        r is None <==> utc_rfc3339(seconds, nanos) is None,
        r matches Some(o) ==> -86400 < o < 86400,
{
    match chrono::DateTime::<chrono::Utc>::from_timestamp(seconds, nanos) {
        Some(t) => Some(t.with_timezone(&chrono::Local).offset().local_minus_utc()),
        None => None,
    }
}

/// The `%Y-%m-%d %H:%M:%S` text chrono gives for the UTC instant seen at a
/// fixed offset of `offset` seconds east of UTC, or none when chrono cannot
/// represent the instant or the offset.
pub uninterp spec fn offset_date_time(seconds: i64, nanos: u32, offset: i32) -> Option<Seq<char>>;

/// chrono's `DateTime::<Utc>::from_timestamp` and `FixedOffset::east_opt`,
/// then `with_timezone` and `format` with `%Y-%m-%d %H:%M:%S`: the result
/// is [`offset_date_time`] of the arguments.
#[verifier::external_body]
fn offset_date_time_of(seconds: i64, nanos: u32, offset: i32) -> (r: Option<String>)
    ensures
        match offset_date_time(seconds, nanos, offset) {
            Some(t) => r is Some && r->0@ == t,
            None => r is None,
        },
{
    match (
        chrono::DateTime::<chrono::Utc>::from_timestamp(seconds, nanos),
        chrono::FixedOffset::east_opt(offset),
    ) {
        (Some(t), Some(o)) => Some(t.with_timezone(&o).format("%Y-%m-%d %H:%M:%S").to_string()),
        _ => None,
    }
}

/// A text, or the empty text for none.
pub open spec fn text_or_empty(t: Option<Seq<char>>) -> Seq<char> {
    match t {
        Some(x) => x,
        None => Seq::empty(),
    }
}

/// `text` is how `ts` reads as `%Y-%m-%d %H:%M:%S` at some offset of less
/// than a day from UTC (the machine's time zone's, when it is read).
pub open spec fn local_text_reads(ts: Timestamp, text: Seq<char>) -> bool {
    exists|offset: i32|
        -86400 < offset < 86400 && text == text_or_empty(
            #[trigger] offset_date_time(ts.seconds, nanos_of(ts), offset),
        )
}

/// An instant in UTC as RFC 3339 text with milliseconds and a `+00:00` offset
/// (see [`utc_rfc3339_millis`]).
pub fn format_datetime_utc_with_tz(ts: &Timestamp) -> (r: Option<String>)
    ensures
        match utc_rfc3339_millis(ts.seconds, nanos_of(*ts)) {
            Some(t) => r is Some && r->0@ == t,
            None => r is None,
        },
{
    rfc3339_millis_of(ts.seconds, ts.nanos as u32)
}

/// An optional instant in the machine's time zone as
/// `%Y-%m-%d %H:%M:%S`: empty when there is none or chrono cannot represent
/// it.
pub fn format_timestamp_local(ts: Option<&Timestamp>) -> (r: String)
    ensures
        match ts {
            None => r@.len() == 0,
            Some(t) => if utc_rfc3339(t.seconds, nanos_of(*t)) is None {
                r@.len() == 0
            } else {
                local_text_reads(*t, r@)
            },
        },
{
    match ts {
        Some(t) => match local_offset_at(t.seconds, t.nanos as u32) {
            Some(offset) => {
                let r = match offset_date_time_of(t.seconds, t.nanos as u32, offset) {
                    Some(text) => text,
                    None => String::new(),
                };
                assert(r@ == text_or_empty(offset_date_time(t.seconds, nanos_of(*t), offset)));
                r
            },
            None => String::new(),
        },
        None => String::new(),
    }
}

/// The `%H:%M:%S` text chrono gives for the UTC instant seen at a fixed
/// offset of `offset` seconds east of UTC, or none when chrono cannot
/// represent the instant or the offset.
pub uninterp spec fn offset_clock_time(seconds: i64, nanos: u32, offset: i32) -> Option<Seq<char>>;

/// chrono's `DateTime::<Utc>::from_timestamp` and `FixedOffset::east_opt`,
/// then `with_timezone` and `format` with `%H:%M:%S`: the result is
/// [`offset_clock_time`] of the arguments.
#[verifier::external_body]
fn offset_clock_time_of(seconds: i64, nanos: u32, offset: i32) -> (r: Option<String>)
    ensures
        match offset_clock_time(seconds, nanos, offset) {
            Some(t) => r is Some && r->0@ == t,
            None => r is None,
        },
{
    match (
        chrono::DateTime::<chrono::Utc>::from_timestamp(seconds, nanos),
        chrono::FixedOffset::east_opt(offset),
    ) {
        (Some(t), Some(o)) => Some(t.with_timezone(&o).format("%H:%M:%S").to_string()),
        _ => None,
    }
}

/// `text` is the `%H:%M:%S` text of the instant `seconds`, `nanos` at some
/// offset of less than a day from UTC (the machine's time zone's, when it
/// is read).
pub open spec fn clock_text_at(seconds: i64, nanos: u32, text: Seq<char>) -> bool {
    exists|offset: i32|
        -86400 < offset < 86400 && text == text_or_empty(
            #[trigger] offset_clock_time(seconds, nanos, offset),
        )
}

/// `text` is how `ts` reads as a local `%H:%M:%S` time: the text of `ts`
/// itself when chrono can represent it, else that of some other instant
/// (the current one, when it is read) or, failing that, nothing.
pub open spec fn clock_text_reads(ts: Timestamp, text: Seq<char>) -> bool {
    if utc_rfc3339(ts.seconds, nanos_of(ts)) is Some {
        clock_text_at(ts.seconds, nanos_of(ts), text)
    } else {
        text.len() == 0 || exists|seconds: i64, nanos: u32|
            #[trigger] clock_text_at(seconds, nanos, text)
    }
}

/// The local `%H:%M:%S` text of the instant, at the machine's offset then.
fn clock_text_of(seconds: i64, nanos: u32) -> (r: Option<String>)
    ensures
        r is None <==> utc_rfc3339(seconds, nanos) is None,
        r matches Some(t) ==> clock_text_at(seconds, nanos, t@),
{
    match local_offset_at(seconds, nanos) {
        Some(offset) => {
            let t = match offset_clock_time_of(seconds, nanos, offset) {
                Some(t) => t,
                None => String::new(),
            };
            assert(t@ == text_or_empty(offset_clock_time(seconds, nanos, offset)));
            Some(t)
        },
        None => None,
    }
}

/// The local `%H:%M:%S` time of `ts`; the current time's when chrono
/// cannot represent `ts`.
pub fn local_clock_text(ts: &Timestamp) -> (r: String)
    ensures
        clock_text_reads(*ts, r@),
{
    match clock_text_of(ts.seconds, ts.nanos as u32) {
        Some(t) => t,
        None => {
            let now = now_instant();
            match clock_text_of(now.0, now.1) {
                Some(t) => {
                    assert(clock_text_at(now.0, now.1, t@));
                    t
                },
                None => String::new(),
            }
        },
    }
}

} // verus!
