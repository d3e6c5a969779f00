//! Contacts (QSOs) and the frequency texts the logbook shows and once stored.

use vstd::prelude::*;

use crate::text::{
    all_digits, chars_of, decimal, digits_value, is_ascii_digit, lemma_decimal_value, lemma_parse_decimal,
    lemma_split_three, lemma_zero_pad3_value, parse_u64_chars, parse_u64_spec, push_decimal,
    push_zero_pad3, split_chars, split_spec, zero_pad3,
};
use crate::time::{now_utc, UtcTime};

verus! {

/// One contact with another station.
#[derive(Debug)]
pub struct Qso {
    /// `None` for a contact not yet stored; the database's row id once read.
    pub id: Option<i64>,
    pub callsign: String,
    pub qso_datetime: UtcTime,
    /// Frequency in Hz.
    pub frequency: u64,
    /// Operating mode (SSB, CW, FT8, ...), free-form.
    pub mode: String,
    pub rst_sent: String,
    pub rst_rcvd: String,
    pub locator: String,
}

impl Clone for Qso {
    fn clone(&self) -> (q: Self)
        ensures
            q == *self,
    {
        Qso {
            id: self.id,
            callsign: self.callsign.clone(),
            qso_datetime: self.qso_datetime,
            frequency: self.frequency,
            mode: self.mode.clone(),
            rst_sent: self.rst_sent.clone(),
            rst_rcvd: self.rst_rcvd.clone(),
            locator: self.locator.clone(),
        }
    }
}

impl Qso {
    /// A contact not yet stored, made at the instant `at`.
    pub fn new_at(
        callsign: String,
        frequency: u64,
        mode: String,
        rst_sent: String,
        rst_rcvd: String,
        locator: String,
        at: UtcTime,
    ) -> (q: Self)
        ensures
            q == (Qso {
                id: None,
                callsign,
                qso_datetime: at,
                frequency,
                mode,
                rst_sent,
                rst_rcvd,
                locator,
            }),
    {
        Qso { id: None, callsign, qso_datetime: at, frequency, mode, rst_sent, rst_rcvd, locator }
    }

    /// A contact not yet stored, made now.
    pub fn new_now(
        callsign: String,
        frequency: u64,
        mode: String,
        rst_sent: String,
        rst_rcvd: String,
        locator: String,
    ) -> (q: Self)
        ensures
            q == (Qso {
                id: None,
                callsign,
                qso_datetime: q.qso_datetime,
                frequency,
                mode,
                rst_sent,
                rst_rcvd,
                locator,
            }),
            q.qso_datetime.nanos < 1_000_000_000,
    {
        Qso::new_at(callsign, frequency, mode, rst_sent, rst_rcvd, locator, now_utc())
    }
}

/// A frequency in Hz written as `MHz.kHz.Hz`, the kHz and Hz fields three
/// digits each: 14 200 000 Hz is `14.200.000`.
pub open spec fn frequency_text(hz: nat) -> Seq<char> {
    decimal(hz / 1_000_000) + seq!['.'] + zero_pad3(hz % 1_000_000 / 1_000) + seq!['.']
        + zero_pad3(hz % 1_000)
}

/// Formats a frequency in Hz as `MHz.kHz.Hz`. Example: `14_200_000` gives
/// `"14.200.000"`.
pub fn format_frequency_hz(hz: u64) -> (s: String)
    ensures
        s@ == frequency_text(hz as nat),
{
    let mhz = hz / 1_000_000;
    let khz = (hz % 1_000_000) / 1_000;
    let hz_part = hz % 1_000;
    let mut s = String::new();
    push_decimal(&mut s, mhz);
    s.append(".");
    push_zero_pad3(&mut s, khz);
    s.append(".");
    push_zero_pad3(&mut s, hz_part);
    proof {
        reveal_strlit(".");
    }
    assert(s@ =~= frequency_text(hz as nat));
    s
}

/// The three numbers of a legacy `MHz.kHz.HH` text: exactly three
/// dot-separated pieces, each of which parses as a `u64`.
pub open spec fn legacy_parts(s: Seq<char>) -> Option<(u64, u64, u64)> {
    let p = split_spec(s, '.');
    if p.len() == 3 && parse_u64_spec(p[0]).is_some() && parse_u64_spec(p[1]).is_some()
        && parse_u64_spec(p[2]).is_some() {
        Some((parse_u64_spec(p[0]).unwrap(), parse_u64_spec(p[1]).unwrap(), parse_u64_spec(p[2]).unwrap()))
    } else {
        None
    }
}

/// The frequency in Hz that a legacy `MHz.kHz.HH` text denotes (the last
/// field counts tens of Hz).
pub open spec fn legacy_value(s: Seq<char>) -> Option<int> {
    match legacy_parts(s) {
        Some((mhz, khz, hh)) => Some(mhz * 1_000_000 + khz * 1_000 + hh * 10),
        None => None,
    }
}

/// Whether the value a legacy text denotes, if any, fits in a `u64`; where
/// it does not, the arithmetic of `parse_legacy_frequency` would overflow.
pub open spec fn legacy_frequency_fits_spec(s: Seq<char>) -> bool {
    match legacy_value(s) {
        Some(v) => v <= u64::MAX,
        None => true,
    }
}

fn parse_legacy_chars(v: &Vec<char>) -> (r: Option<(u64, u64, u64)>)
    ensures
        r == legacy_parts(v@),
{
    let parts = split_chars(v, '.');
    if parts.len() != 3 {
        return None;
    }
    let mhz = parse_u64_chars(&parts[0]);
    let khz = parse_u64_chars(&parts[1]);
    let hh = parse_u64_chars(&parts[2]);
    match (mhz, khz, hh) {
        (Some(m), Some(k), Some(h)) => Some((m, k, h)),
        _ => None,
    }
}

/// Whether the text's legacy value, if it has one, fits in a `u64`.
pub fn legacy_frequency_fits(s: &str) -> (b: bool)
    ensures
        b == legacy_frequency_fits_spec(s@),
{
    let v = chars_of(s);
    match parse_legacy_chars(&v) {
        Some((m, k, h)) => {
            (m as u128) * 1_000_000 + (k as u128) * 1_000 + (h as u128) * 10 <= u64::MAX as u128
        },
        None => true,
    }
}

/// Parses the legacy `MHz.kHz.HH` text into Hz: `None` unless it has
/// exactly three dot-separated fields that each parse as a number.
pub fn parse_legacy_frequency(s: &str) -> (r: Option<u64>)
    requires
        legacy_frequency_fits_spec(s@),
    ensures
        r.is_some() == legacy_value(s@).is_some(),
        r.is_some() ==> r.unwrap() == legacy_value(s@).unwrap(),
{
    let v = chars_of(s);
    match parse_legacy_chars(&v) {
        Some((mhz, khz, hh)) => Some(mhz * 1_000_000 + khz * 1_000 + hh * 10),
        None => None,
    }
}

/// Parsing the text that `format_frequency_hz` writes as legacy
/// `MHz.kHz.HH` reads its last field as tens of Hz: the value is
/// `hz + 9 * (hz % 1000)`, and it fits exactly when that is at most
/// `u64::MAX`.
pub proof fn lemma_legacy_reads_formatted(hz: u64)
    ensures
        legacy_value(frequency_text(hz as nat)) == Some(hz + 9 * (hz % 1_000)),
        legacy_frequency_fits_spec(frequency_text(hz as nat)) == (hz + 9 * (hz % 1_000) <= u64::MAX),
{
    let n = hz as nat;
    let a = decimal(n / 1_000_000);
    let b = zero_pad3(n % 1_000_000 / 1_000);
    let c = zero_pad3(n % 1_000);
    lemma_decimal_value(n / 1_000_000);
    lemma_zero_pad3_value(n % 1_000_000 / 1_000);
    lemma_zero_pad3_value(n % 1_000);
    assert forall|i: int| 0 <= i < a.len() implies a[i] != '.' by {
        assert(is_ascii_digit(a[i]));
    }
    assert forall|i: int| 0 <= i < b.len() implies b[i] != '.' by {
        assert(is_ascii_digit(b[i]));
    }
    assert forall|i: int| 0 <= i < c.len() implies c[i] != '.' by {
        assert(is_ascii_digit(c[i]));
    }
    lemma_split_three(a, b, c, '.');
    lemma_parse_decimal((n / 1_000_000) as u64);
    assert(parse_u64_spec(b) == Some((n % 1_000_000 / 1_000) as u64)) by {
        assert(b[0] != '+') by {
            assert(is_ascii_digit(b[0]));
        }
    }
    assert(parse_u64_spec(c) == Some((n % 1_000) as u64)) by {
        assert(c[0] != '+') by {
            assert(is_ascii_digit(c[0]));
        }
    }
    assert(frequency_text(n) =~= a + seq!['.'] + b + seq!['.'] + c);
    assert((n / 1_000_000) * 1_000_000 + (n % 1_000_000 / 1_000) * 1_000 + n % 1_000 == n);
}

/// Formatting a frequency in whole kHz and parsing the text back as legacy
/// `MHz.kHz.HH` gives the same frequency, and the value fits.
pub proof fn lemma_legacy_reads_formatted_khz(hz: u64)
    requires
        hz % 1_000 == 0,
    ensures
        legacy_frequency_fits_spec(frequency_text(hz as nat)),
        legacy_value(frequency_text(hz as nat)) == Some(hz as int),
{
    lemma_legacy_reads_formatted(hz);
}

/// The text of a frequency has exactly three dot-separated fields, all
/// digits: the MHz in decimal, then the kHz within the MHz and the Hz
/// within the kHz, each exactly three digits wide whatever the MHz.
pub proof fn lemma_frequency_text_fields(hz: u64)
    ensures
        ({
            let p = split_spec(frequency_text(hz as nat), '.');
            &&& p.len() == 3
            &&& p[0].len() > 0 && all_digits(p[0]) && digits_value(p[0]) == hz / 1_000_000
            &&& p[1].len() == 3 && all_digits(p[1]) && digits_value(p[1]) == hz % 1_000_000 / 1_000
            &&& p[2].len() == 3 && all_digits(p[2]) && digits_value(p[2]) == hz % 1_000
        }),
{
    let n = hz as nat;
    let a = decimal(n / 1_000_000);
    let b = zero_pad3(n % 1_000_000 / 1_000);
    let c = zero_pad3(n % 1_000);
    lemma_decimal_value(n / 1_000_000);
    lemma_zero_pad3_value(n % 1_000_000 / 1_000);
    lemma_zero_pad3_value(n % 1_000);
    assert forall|i: int| 0 <= i < a.len() implies a[i] != '.' by {
        assert(is_ascii_digit(a[i]));
    }
    assert forall|i: int| 0 <= i < b.len() implies b[i] != '.' by {
        assert(is_ascii_digit(b[i]));
    }
    assert forall|i: int| 0 <= i < c.len() implies c[i] != '.' by {
        assert(is_ascii_digit(c[i]));
    }
    lemma_split_three(a, b, c, '.');
    assert(frequency_text(n) =~= a + seq!['.'] + b + seq!['.'] + c);
}

} // verus!
