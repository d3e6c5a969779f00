//! Instants in UTC and their RFC 3339 text, through `chrono`.

use vstd::prelude::*;

verus! {

/// An instant: whole seconds since 1970-01-01T00:00:00Z and the nanoseconds
/// past that second (from one billion on, a leap second).
#[derive(Debug, Clone, Copy, PartialEq, Eq, Structural)]
pub struct UtcTime {
    pub secs: i64,
    pub nanos: u32,
}

/// The instant that `chrono` parses from RFC 3339 text, as seconds and
/// nanoseconds in UTC, or `None` where the text is not RFC 3339.
pub uninterp spec fn rfc3339_instant(text: Seq<char>) -> Option<(i64, u32)>;

/// The RFC 3339 text, to whole seconds and with a `Z` suffix, that `chrono`
/// writes for an instant, or `None` where `chrono` cannot represent it.
pub uninterp spec fn rfc3339_secs_text(secs: i64, nanos: u32) -> Option<Seq<char>>;

/// Whether the instant has a four-digit year (0000-01-01 to 9999-12-31)
/// and is either no leap second or a leap second as `chrono` holds one: a
/// fraction from one to two billion nanoseconds on a second ending in `:59`.
pub open spec fn four_digit_year(t: UtcTime) -> bool {
    &&& -62_167_219_200 <= t.secs <= 253_402_300_799
    &&& (t.nanos < 1_000_000_000 || (t.nanos < 2_000_000_000 && t.secs % 60 == 59))
}

/// The nanoseconds that the whole-second text of an instant keeps: none,
/// or one billion for a leap second (written as second `60`).
pub open spec fn whole_second_nanos(t: UtcTime) -> u32 {
    if t.nanos >= 1_000_000_000 {
        1_000_000_000
    } else {
        0
    }
}

#[verifier::external_type_specification]
#[verifier::external_body]
pub struct ExSystemTime(std::time::SystemTime);

/// Calls `std::time::SystemTime::now`; the clock decides the result, so
/// nothing is stated of it.
#[verifier::external_body]
fn system_now() -> std::time::SystemTime {
    std::time::SystemTime::now()
}

/// Calls `SystemTime::duration_since(UNIX_EPOCH)` on `t`: `Ok` with how far
/// after the epoch `t` lies, `Err` with how far before it, each as whole
/// seconds and the nanoseconds past them (`Duration::as_secs`,
/// `Duration::subsec_nanos`, which is always below one billion). What `t`
/// holds is opaque, so nothing more is stated.
#[verifier::external_body]
fn since_epoch(t: &std::time::SystemTime) -> (r: Result<(u64, u32), (u64, u32)>)
    ensures
        match r {
            Ok((_, nanos)) => nanos < 1_000_000_000,
            Err((_, nanos)) => nanos < 1_000_000_000,
        },
{
    match t.duration_since(std::time::UNIX_EPOCH) {
        Ok(d) => Ok((d.as_secs(), d.subsec_nanos())),
        Err(e) => Err((e.duration().as_secs(), e.duration().subsec_nanos())),
    }
}

/// The instant that lies `offset` from 1970-01-01T00:00:00Z: `Ok((s, n))`
/// after it, `Err((s, n))` before it, `s` whole seconds and `n` nanoseconds.
/// An offset beyond the `i64` range of seconds saturates to the nearest end.
pub open spec fn instant_at_offset(offset: Result<(u64, u32), (u64, u32)>) -> UtcTime {
    match offset {
        Ok((s, n)) => if s <= i64::MAX {
            UtcTime { secs: s as i64, nanos: n }
        } else {
            UtcTime { secs: i64::MAX, nanos: 999_999_999 }
        },
        Err((s, n)) => if n == 0 {
            if s <= 0x8000_0000_0000_0000 {
                UtcTime { secs: (0 - s) as i64, nanos: 0 }
            } else {
                UtcTime { secs: i64::MIN, nanos: 0 }
            }
        } else {
            if s < 0x8000_0000_0000_0000 {
                UtcTime { secs: (0 - s - 1) as i64, nanos: (1_000_000_000 - n) as u32 }
            } else {
                UtcTime { secs: i64::MIN, nanos: 0 }
            }
        },
    }
}

/// The instant that lies `offset` from the Unix epoch, as `SystemTime`'s
/// distance from `UNIX_EPOCH` gives it (see `instant_at_offset`).
pub fn instant_from_epoch_offset(offset: Result<(u64, u32), (u64, u32)>) -> (t: UtcTime)
    requires
        match offset {
            Ok((_, n)) => n < 1_000_000_000,
            Err((_, n)) => n < 1_000_000_000,
        },
    ensures
        t == instant_at_offset(offset),
        t.nanos < 1_000_000_000,
{
    match offset {
        Ok((s, n)) => if s <= 0x7fff_ffff_ffff_ffff {
            UtcTime { secs: s as i64, nanos: n }
        } else {
            UtcTime { secs: i64::MAX, nanos: 999_999_999 }
        },
        Err((s, n)) => if n == 0 {
            if s < 0x8000_0000_0000_0000 {
                UtcTime { secs: 0 - (s as i64), nanos: 0 }
            } else {
                UtcTime { secs: i64::MIN, nanos: 0 }
            }
        } else {
            if s < 0x8000_0000_0000_0000 {
                UtcTime { secs: 0 - (s as i64) - 1, nanos: 1_000_000_000 - n }
            } else {
                UtcTime { secs: i64::MIN, nanos: 0 }
            }
        },
    }
}

/// The current instant, read from the system clock; a clock before 1970
/// gives a negative instant. The clock decides which instant it is; it is
/// never a leap second.
pub(crate) fn now_utc() -> (t: UtcTime)
    ensures
        t.nanos < 1_000_000_000,
{
    let now = system_now();
    let offset = since_epoch(&now);
    instant_from_epoch_offset(offset)
}

/// Calls `chrono::DateTime::parse_from_rfc3339` and takes the parsed instant
/// in UTC; the result is named `rfc3339_instant`.
#[verifier::external_body]
pub(crate) fn parse_rfc3339(text: &str) -> (t: Option<UtcTime>)
    ensures
        t.is_some() == rfc3339_instant(text@).is_some(),
        t.is_some() ==> rfc3339_instant(text@) == Some((t.unwrap().secs, t.unwrap().nanos)),
{
    match chrono::DateTime::parse_from_rfc3339(text) {
        Ok(d) => {
            let u = d.with_timezone(&chrono::Utc);
            Some(UtcTime { secs: u.timestamp(), nanos: u.timestamp_subsec_nanos() })
        },
        Err(_) => None,
    }
}

/// Calls `chrono::DateTime::from_timestamp` and `to_rfc3339_opts` with whole
/// seconds and a `Z` suffix; the result is named `rfc3339_secs_text`. For an
/// instant with a four-digit year, `from_timestamp` succeeds and the text is
/// `YYYY-MM-DDTHH:MM:SSZ` (second `60` for a leap second), which
/// `parse_from_rfc3339` reads back as the same second with no fraction, or
/// as the leap second with one billion nanoseconds.
#[verifier::external_body]
pub(crate) fn format_rfc3339_secs(t: UtcTime) -> (text: Option<String>)
    ensures
        text.is_some() == rfc3339_secs_text(t.secs, t.nanos).is_some(),
        text.is_some() ==> text.unwrap()@ == rfc3339_secs_text(t.secs, t.nanos).unwrap(),
        four_digit_year(t) ==> text.is_some(),
        four_digit_year(t) ==> rfc3339_instant(text.unwrap()@) == Some((t.secs, whole_second_nanos(t))),
{
    match chrono::DateTime::from_timestamp(t.secs, t.nanos) {
        Some(d) => Some(d.to_rfc3339_opts(chrono::SecondsFormat::Secs, true)),
        None => None,
    }
}

} // verus!
