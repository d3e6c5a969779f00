//! The rules behind the logbook database: when a logbook may be deleted and
//! which one becomes active instead, the schema migrations' decisions, and
//! the conversion between contacts and table rows.

use vstd::prelude::*;

use crate::models::log::{Log, LogKind};
use crate::models::qso::{legacy_frequency_fits_spec, legacy_value, parse_legacy_frequency, Qso};
use crate::text::{
    all_white_space, lemma_trim_padded,
    all_digits, contains, contains_spec, decimal, eq_ignore_ascii_case, eq_ignore_ascii_case_spec,
    is_ascii_digit, lemma_decimal_value, lemma_parse_decimal, lemma_split_three, parse_u64,
    parse_u64_spec, str_eq, trim, trim_spec,
};
use crate::time::{
    format_rfc3339_secs, four_digit_year, parse_rfc3339, whole_second_nanos, rfc3339_instant, rfc3339_secs_text, UtcTime,
};

verus! {

/// Why a logbook may not be deleted.
#[derive(Debug, Clone, Copy, PartialEq, Eq, Structural)]
pub enum LogDeleteRefusal {
    /// It is the only logbook left.
    LastRemainingLog,
    /// It still holds contacts.
    NotEmpty { id: i64, qso_count: i64 },
}

/// Whether the database deletes a logbook, given how many logbooks there
/// are and how many contacts it holds: never the last one, never one that
/// holds contacts.
pub open spec fn deletion_allowed(total_logs: int, qso_count: int) -> bool {
    total_logs > 1 && qso_count <= 0
}

/// Whether the logbook manager offers to delete a logbook: more than one
/// logbook exists and this one holds no contacts.
pub open spec fn deletion_offered(log_count: int, qso_count: int) -> bool {
    log_count > 1 && qso_count == 0
}

/// Whether logbook `id` may be deleted, and if not, why.
pub fn check_log_deletion(id: i64, total_logs: i64, qso_count: i64) -> (r: Result<(), LogDeleteRefusal>)
    ensures
        r.is_ok() == deletion_allowed(total_logs as int, qso_count as int),
        total_logs <= 1 ==> r == Err::<(), LogDeleteRefusal>(LogDeleteRefusal::LastRemainingLog),
        total_logs > 1 && qso_count > 0 ==> r == Err::<(), LogDeleteRefusal>(
            LogDeleteRefusal::NotEmpty { id, qso_count },
        ),
{
    if total_logs <= 1 {
        return Err(LogDeleteRefusal::LastRemainingLog);
    }
    if qso_count > 0 {
        return Err(LogDeleteRefusal::NotEmpty { id, qso_count });
    }
    Ok(())
}

/// The logbook to make active after deleting one: the oldest remaining
/// logbook when the deleted one was active (its `is_active` column not 0),
/// so that exactly one stays active; none otherwise.
pub fn log_to_promote(was_active: i64, oldest_remaining: Option<i64>) -> (r: Option<i64>)
    ensures
        r == (if was_active != 0 {
            oldest_remaining
        } else {
            None
        }),
{
    if was_active != 0 {
        oldest_remaining
    } else {
        None
    }
}

/// Whether the logbook manager offers to delete a logbook.
pub fn can_delete_log(log_count: usize, qso_count: i64) -> (b: bool)
    ensures
        b == deletion_offered(log_count as int, qso_count as int),
{
    log_count > 1 && qso_count == 0
}

/// The manager offers deletion exactly when the database accepts it, for
/// every contact count that a count query can give (never negative).
pub proof fn lemma_offer_matches_rule(log_count: int, qso_count: int)
    requires
        qso_count >= 0,
    ensures
        deletion_offered(log_count, qso_count) == deletion_allowed(log_count, qso_count),
{
}

/// A logbook as listed from its row: the kind read from its stored text,
/// active when the `is_active` column is not 0.
pub fn log_from_row(id: i64, name: String, kind: &str, is_active: i64) -> (l: Log)
    ensures
        l == (Log { id, name, kind: LogKind::from_db_text(kind@), is_active: is_active != 0 }),
{
    Log { id, name, kind: LogKind::from_db_str(kind), is_active: is_active != 0 }
}

/// Whether some column in `columns` has name `name`.
pub open spec fn has_column_spec(columns: Seq<String>, name: Seq<char>) -> bool {
    exists|i: int| 0 <= i < columns.len() && (#[trigger] columns[i])@ == name
}

/// Whether `columns` holds a column called `name`.
pub fn has_column(columns: &Vec<String>, name: &str) -> (b: bool)
    ensures
        b == has_column_spec(columns@, name@),
{
    let mut i: usize = 0;
    while i < columns.len()
        invariant
            i <= columns@.len(),
            forall|j: int| 0 <= j < i ==> (#[trigger] columns@[j])@ != name@,
        decreases columns@.len() - i,
    {
        if str_eq(columns[i].as_str(), name) {
            return true;
        }
        i = i + 1;
    }
    false
}

/// What the band-to-frequency migration does to the `qso` table.
#[derive(Debug, Clone, Copy, PartialEq, Eq, Structural)]
pub struct BandMigration {
    /// Add a `frequency` column.
    pub add_frequency: bool,
    /// Drop the `band` column.
    pub drop_band: bool,
}

/// The band-to-frequency migration for a `qso` table with these columns:
/// add `frequency` where it is missing, drop `band` where it is present.
pub fn band_migration(columns: &Vec<String>) -> (m: BandMigration)
    ensures
        m.add_frequency == !has_column_spec(columns@, "frequency"@),
        m.drop_band == has_column_spec(columns@, "band"@),
{
    BandMigration {
        add_frequency: !has_column(columns, "frequency"),
        drop_band: has_column(columns, "band"),
    }
}

/// Whether the `qso` table, with these columns, still lacks `log_id`.
pub fn needs_log_id_column(columns: &Vec<String>) -> (b: bool)
    ensures
        b == !has_column_spec(columns@, "log_id"@),
{
    !has_column(columns, "log_id")
}

/// Whether the `frequency` column's declared type (when the column exists)
/// is text in any letter case, so that the table must be rebuilt with
/// integer Hz.
pub fn frequency_column_is_text(column_type: Option<&str>) -> (b: bool)
    ensures
        b == match column_type {
            Some(t) => eq_ignore_ascii_case_spec(t@, "TEXT"@),
            None => false,
        },
{
    match column_type {
        Some(t) => eq_ignore_ascii_case(t, "TEXT"),
        None => false,
    }
}

/// The frequency in Hz that a legacy text cell holds once trimmed: 0 when
/// empty; a `MHz.kHz.HH` value when it holds a dot (0 where it does not
/// parse); otherwise the number itself (0 where it does not parse).
pub open spec fn legacy_cell_hz(cell: Seq<char>) -> int {
    let t = trim_spec(cell);
    if t.len() == 0 {
        0
    } else if contains_spec(t, seq!['.']) {
        match legacy_value(t) {
            Some(v) => v,
            None => 0,
        }
    } else {
        match parse_u64_spec(t) {
            Some(v) => v as int,
            None => 0,
        }
    }
}

/// Whether converting a legacy cell stays within `u64` arithmetic.
pub open spec fn legacy_cell_fits(cell: Seq<char>) -> bool {
    let t = trim_spec(cell);
    t.len() == 0 || !contains_spec(t, seq!['.']) || legacy_frequency_fits_spec(t)
}

/// Whether converting this legacy cell stays within `u64` arithmetic.
pub fn legacy_cell_fits_exec(cell: &str) -> (b: bool)
    ensures
        b == legacy_cell_fits(cell@),
{
    let t = trim(cell);
    if t.unicode_len() == 0 {
        return true;
    }
    proof {
        reveal_strlit(".");
        assert("."@ =~= seq!['.']);
    }
    if !contains(t.as_str(), ".") {
        return true;
    }
    crate::models::qso::legacy_frequency_fits(t.as_str())
}

/// Converts a legacy text frequency cell to Hz.
pub fn legacy_frequency_to_hz(cell: &str) -> (hz: u64)
    requires
        legacy_cell_fits(cell@),
    ensures
        hz == legacy_cell_hz(cell@),
{
    let t = trim(cell);
    if t.unicode_len() == 0 {
        return 0;
    }
    proof {
        reveal_strlit(".");
        assert("."@ =~= seq!['.']);
    }
    if contains(t.as_str(), ".") {
        match parse_legacy_frequency(t.as_str()) {
            Some(v) => v,
            None => 0,
        }
    } else {
        match parse_u64(t.as_str()) {
            Some(v) => v,
            None => 0,
        }
    }
}

/// How the logbook migration finds the logbook that unassigned contacts go
/// into.
#[derive(Debug, Clone, Copy, PartialEq, Eq, Structural)]
pub enum DefaultLogStep {
    /// No logbook exists: create the default one, active.
    CreateDefault,
    /// This logbook is active already.
    UseActive(i64),
    /// Logbooks exist but none is active: activate the oldest.
    ActivateOldest,
}

/// The logbook migration's choice, from the number of logbooks and the
/// active one, if any.
pub fn default_log_step(log_count: i64, active: Option<i64>) -> (s: DefaultLogStep)
    ensures
        log_count == 0 ==> s == DefaultLogStep::CreateDefault,
        log_count != 0 && active.is_some() ==> s == DefaultLogStep::UseActive(active.unwrap()),
        log_count != 0 && active.is_none() ==> s == DefaultLogStep::ActivateOldest,
{
    if log_count == 0 {
        DefaultLogStep::CreateDefault
    } else {
        match active {
            Some(id) => DefaultLogStep::UseActive(id),
            None => DefaultLogStep::ActivateOldest,
        }
    }
}

/// A contact as the `qso` table holds it.
#[derive(Debug)]
pub struct QsoRow {
    pub id: i64,
    pub callsign: String,
    /// RFC 3339 text.
    pub datetime: String,
    /// Frequency in Hz as the integer column holds it.
    pub frequency: i64,
    pub mode: String,
    pub rst_sent: String,
    pub rst_rcvd: String,
    pub locator: String,
}

/// A row whose date and time do not parse as RFC 3339.
#[derive(Debug)]
pub struct BadQsoDatetime {
    pub id: i64,
    pub text: String,
}

/// Whether a row's date and time parse.
pub open spec fn row_parses(row: QsoRow) -> bool {
    rfc3339_instant(row.datetime@).is_some()
}

/// The contact a parsing row denotes: its id, its text fields, its
/// frequency reinterpreted as unsigned, and the parsed instant.
pub open spec fn qso_of_row(row: QsoRow) -> Qso {
    Qso {
        id: Some(row.id),
        callsign: row.callsign,
        qso_datetime: UtcTime {
            secs: rfc3339_instant(row.datetime@).unwrap().0,
            nanos: rfc3339_instant(row.datetime@).unwrap().1,
        },
        frequency: row.frequency as u64,
        mode: row.mode,
        rst_sent: row.rst_sent,
        rst_rcvd: row.rst_rcvd,
        locator: row.locator,
    }
}

/// Reads a contact from its row.
pub fn qso_from_row(row: &QsoRow) -> (r: Result<Qso, BadQsoDatetime>)
    ensures
        r.is_ok() == row_parses(*row),
        r.is_ok() ==> r.unwrap() == qso_of_row(*row),
        r.is_err() ==> r.unwrap_err().id == row.id && r.unwrap_err().text == row.datetime,
{
    match parse_rfc3339(row.datetime.as_str()) {
        Some(t) => Ok(
            Qso {
                id: Some(row.id),
                callsign: row.callsign.clone(),
                qso_datetime: t,
                frequency: row.frequency as u64,
                mode: row.mode.clone(),
                rst_sent: row.rst_sent.clone(),
                rst_rcvd: row.rst_rcvd.clone(),
                locator: row.locator.clone(),
            },
        ),
        None => Err(BadQsoDatetime { id: row.id, text: row.datetime.clone() }),
    }
}

/// Whether every row of `rows` parses.
pub open spec fn rows_parse(rows: Seq<QsoRow>) -> bool {
    forall|i: int| 0 <= i < rows.len() ==> row_parses(#[trigger] rows[i])
}

/// Reads the contacts of a logbook from its rows, in order; the first row
/// that does not parse makes the whole listing fail.
pub fn qsos_from_rows(rows: &Vec<QsoRow>) -> (r: Result<Vec<Qso>, BadQsoDatetime>)
    ensures
        r.is_ok() == rows_parse(rows@),
        r.is_ok() ==> r.unwrap()@.len() == rows@.len() && forall|i: int|
            0 <= i < rows@.len() ==> #[trigger] r.unwrap()@[i] == qso_of_row(rows@[i]),
        r.is_err() ==> exists|i: int|
            0 <= i < rows@.len() && !row_parses(#[trigger] rows@[i]) && (forall|j: int|
                0 <= j < i ==> row_parses(#[trigger] rows@[j])) && r.unwrap_err().id
                == rows@[i].id && r.unwrap_err().text == rows@[i].datetime,
{
    let mut out: Vec<Qso> = Vec::new();
    let mut i: usize = 0;
    while i < rows.len()
        invariant
            i <= rows@.len(),
            out@.len() == i,
            forall|j: int| 0 <= j < i ==> row_parses(#[trigger] rows@[j]),
            forall|j: int| 0 <= j < i ==> #[trigger] out@[j] == qso_of_row(rows@[j]),
        decreases rows@.len() - i,
    {
        match qso_from_row(&rows[i]) {
            Ok(q) => {
                out.push(q);
            },
            Err(e) => {
                assert(!row_parses(rows@[i as int]));
                return Err(e);
            },
        }
        i = i + 1;
    }
    Ok(out)
}

/// The values inserted for a new contact of logbook `log_id`.
#[derive(Debug)]
pub struct QsoInsertRow {
    pub log_id: i64,
    pub callsign: String,
    /// RFC 3339 text to whole seconds, with a `Z` suffix.
    pub datetime: String,
    /// Frequency in Hz reinterpreted as the signed integer column holds it.
    pub frequency: i64,
    pub mode: String,
    pub rst_sent: String,
    pub rst_rcvd: String,
    pub locator: String,
}

/// Whether `ins` holds contact `q` of logbook `log_id` as it is inserted:
/// the same fields, the frequency reinterpreted as signed, and the instant
/// as `chrono`'s RFC 3339 text to whole seconds, which reads back as that
/// second (a leap second as the leap second) for an instant with a
/// four-digit year.
pub open spec fn stores(ins: QsoInsertRow, log_id: i64, q: Qso) -> bool {
    &&& ins.log_id == log_id
    &&& ins.callsign == q.callsign
    &&& ins.datetime@ == rfc3339_secs_text(q.qso_datetime.secs, q.qso_datetime.nanos).unwrap()
    &&& four_digit_year(q.qso_datetime) ==> rfc3339_instant(ins.datetime@) == Some(
        (q.qso_datetime.secs, whole_second_nanos(q.qso_datetime)),
    )
    &&& ins.frequency == q.frequency as i64
    &&& ins.mode == q.mode
    &&& ins.rst_sent == q.rst_sent
    &&& ins.rst_rcvd == q.rst_rcvd
    &&& ins.locator == q.locator
}

/// The values to insert for contact `qso` in logbook `log_id`; `None` only
/// where `chrono` cannot represent the contact's instant, which never
/// happens for a four-digit year (see `four_digit_year`).
pub fn qso_insert_row(log_id: i64, qso: &Qso) -> (r: Option<QsoInsertRow>)
    ensures
        r.is_some() == rfc3339_secs_text(qso.qso_datetime.secs, qso.qso_datetime.nanos).is_some(),
        four_digit_year(qso.qso_datetime) ==> r.is_some(),
        r.is_some() ==> stores(r.unwrap(), log_id, *qso),
{
    match format_rfc3339_secs(qso.qso_datetime) {
        Some(datetime) => Some(
            QsoInsertRow {
                log_id,
                callsign: qso.callsign.clone(),
                datetime,
                frequency: qso.frequency as i64,
                mode: qso.mode.clone(),
                rst_sent: qso.rst_sent.clone(),
                rst_rcvd: qso.rst_rcvd.clone(),
                locator: qso.locator.clone(),
            },
        ),
        None => None,
    }
}

/// A contact as a table with a text `frequency` column holds it.
#[derive(Debug)]
pub struct LegacyQsoRow {
    pub id: i64,
    pub callsign: String,
    pub datetime: String,
    pub frequency: String,
    pub mode: String,
    pub rst_sent: String,
    pub rst_rcvd: String,
    pub locator: String,
}

/// The row that the frequency migration copies a legacy row into: the same
/// fields, with the frequency converted to Hz.
pub fn migrate_legacy_row(row: LegacyQsoRow) -> (r: QsoRow)
    requires
        legacy_cell_fits(row.frequency@),
    ensures
        r.id == row.id,
        r.callsign == row.callsign,
        r.datetime == row.datetime,
        r.frequency == legacy_cell_hz(row.frequency@) as u64 as i64,
        r.mode == row.mode,
        r.rst_sent == row.rst_sent,
        r.rst_rcvd == row.rst_rcvd,
        r.locator == row.locator,
{
    let hz = legacy_frequency_to_hz(row.frequency.as_str());
    QsoRow {
        id: row.id,
        callsign: row.callsign,
        datetime: row.datetime,
        frequency: hz as i64,
        mode: row.mode,
        rst_sent: row.rst_sent,
        rst_rcvd: row.rst_rcvd,
        locator: row.locator,
    }
}

/// A frequency stored in the signed integer column reads back unchanged.
pub proof fn lemma_frequency_column_round_trip(hz: u64)
    ensures
        (hz as i64) as u64 == hz,
{
    assert((hz as i64) as u64 == hz) by (bit_vector);
}

/// A contact inserted and read back is the same contact, with the row's id
/// and its instant to whole seconds (a leap second stays the leap second),
/// when its year has four digits.
pub proof fn lemma_insert_then_read(q: Qso, log_id: i64, ins: QsoInsertRow, id: i64)
    requires
        stores(ins, log_id, q),
        four_digit_year(q.qso_datetime),
    ensures
        ({
            let row = QsoRow {
                id,
                callsign: ins.callsign,
                datetime: ins.datetime,
                frequency: ins.frequency,
                mode: ins.mode,
                rst_sent: ins.rst_sent,
                rst_rcvd: ins.rst_rcvd,
                locator: ins.locator,
            };
            &&& row_parses(row)
            &&& qso_of_row(row) == Qso {
                id: Some(id),
                qso_datetime: UtcTime {
                    secs: q.qso_datetime.secs,
                    nanos: whole_second_nanos(q.qso_datetime),
                },
                ..q
            }
        }),
{
    lemma_frequency_column_round_trip(q.frequency);
}

/// A legacy cell holding a frequency already in Hz, digits only, converts
/// to that frequency.
pub proof fn lemma_legacy_cell_plain_hz(hz: u64)
    ensures
        legacy_cell_fits(decimal(hz as nat)),
        legacy_cell_hz(decimal(hz as nat)) == hz,
{
    let d = decimal(hz as nat);
    lemma_decimal_value(hz as nat);
    lemma_parse_decimal(hz);
    lemma_trim_digits(d);
    assert(!contains_spec(d, seq!['.'])) by {
        if contains_spec(d, seq!['.']) {
            let i = choose|i: int| 0 <= i && i + 1 <= d.len() && #[trigger] d.subrange(i, i + 1) == seq!['.'];
            assert(d.subrange(i, i + 1)[0] == d[i]);
            assert(is_ascii_digit(d[i]));
        }
    }
}

/// A text of digits is its own trimmed form.
pub proof fn lemma_trim_digits(d: Seq<char>)
    requires
        all_digits(d),
    ensures
        trim_spec(d) == d,
{
    if d.len() > 0 {
        assert(is_ascii_digit(d[0]));
        assert(is_ascii_digit(d.last())) by {
            assert(d.last() == d[d.len() - 1]);
        }
    }
}

/// A legacy `MHz.kHz.HH` cell (around white space) whose three fields are
/// written as decimal numbers converts to MHz * 1 000 000 + kHz * 1 000 +
/// HH * 10.
pub proof fn lemma_legacy_cell_dotted(mhz: u64, khz: u64, hh: u64)
    requires
        mhz * 1_000_000 + khz * 1_000 + hh * 10 <= u64::MAX,
    ensures
        legacy_cell_fits(decimal(mhz as nat) + seq!['.'] + decimal(khz as nat) + seq!['.'] + decimal(hh as nat)),
        legacy_cell_hz(decimal(mhz as nat) + seq!['.'] + decimal(khz as nat) + seq!['.'] + decimal(hh as nat))
            == mhz * 1_000_000 + khz * 1_000 + hh * 10,
{
    let a = decimal(mhz as nat);
    let b = decimal(khz as nat);
    let c = decimal(hh as nat);
    let s = a + seq!['.'] + b + seq!['.'] + c;
    lemma_decimal_value(mhz as nat);
    lemma_decimal_value(khz as nat);
    lemma_decimal_value(hh as nat);
    lemma_parse_decimal(mhz);
    lemma_parse_decimal(khz);
    lemma_parse_decimal(hh);
    assert forall|i: int| 0 <= i < a.len() implies a[i] != '.' by {
        assert(is_ascii_digit(a[i]));
    }
    assert forall|i: int| 0 <= i < b.len() implies b[i] != '.' by {
        assert(is_ascii_digit(b[i]));
    }
    assert forall|i: int| 0 <= i < c.len() implies c[i] != '.' by {
        assert(is_ascii_digit(c[i]));
    }
    lemma_split_three(a, b, c, '.');
    assert(s[0] == a[0]);
    assert(is_ascii_digit(a[0]));
    assert(s.last() == c.last());
    assert(is_ascii_digit(c[c.len() - 1]));
    assert(trim_spec(s) == s);
    assert(s.subrange(a.len() as int, a.len() + 1 as int) =~= seq!['.']);
    assert(contains_spec(s, seq!['.']));
}

/// Converting a legacy cell depends only on its trimmed text: white space
/// around a cell changes neither its Hz nor whether it fits.
pub proof fn lemma_legacy_cell_padded(a: Seq<char>, cell: Seq<char>, b: Seq<char>)
    requires
        all_white_space(a),
        all_white_space(b),
    ensures
        legacy_cell_hz(a + cell + b) == legacy_cell_hz(cell),
        legacy_cell_fits(a + cell + b) == legacy_cell_fits(cell),
{
    lemma_trim_padded(a, cell, b);
}

/// A legacy `MHz.kHz.HH` cell written with decimal fields, with any white
/// space around it, converts to MHz * 1 000 000 + kHz * 1 000 + HH * 10.
pub proof fn lemma_legacy_cell_padded_dotted(a: Seq<char>, b: Seq<char>, mhz: u64, khz: u64, hh: u64)
    requires
        all_white_space(a),
        all_white_space(b),
        mhz * 1_000_000 + khz * 1_000 + hh * 10 <= u64::MAX,
    ensures
        ({
            let cell = a + (decimal(mhz as nat) + seq!['.'] + decimal(khz as nat) + seq!['.'] + decimal(
                hh as nat,
            )) + b;
            &&& legacy_cell_fits(cell)
            &&& legacy_cell_hz(cell) == mhz * 1_000_000 + khz * 1_000 + hh * 10
        }),
{
    let d = decimal(mhz as nat) + seq!['.'] + decimal(khz as nat) + seq!['.'] + decimal(hh as nat);
    lemma_legacy_cell_dotted(mhz, khz, hh);
    lemma_legacy_cell_padded(a, d, b);
}

/// A contact read from a row holds each column in the field of the same
/// name: the id, callsign, mode, both reports and locator as stored, the
/// frequency as the unsigned reading of the column.
pub proof fn lemma_row_fields(row: QsoRow)
    ensures
        qso_of_row(row).id == Some(row.id),
        qso_of_row(row).callsign == row.callsign,
        qso_of_row(row).frequency == row.frequency as u64,
        qso_of_row(row).mode == row.mode,
        qso_of_row(row).rst_sent == row.rst_sent,
        qso_of_row(row).rst_rcvd == row.rst_rcvd,
        qso_of_row(row).locator == row.locator,
{
}

/// A row inserted for a contact holds each field in the column of the same
/// name, in the given logbook.
pub proof fn lemma_insert_row_fields(ins: QsoInsertRow, log_id: i64, q: Qso)
    requires
        stores(ins, log_id, q),
    ensures
        ins.log_id == log_id,
        ins.callsign == q.callsign,
        ins.mode == q.mode,
        ins.rst_sent == q.rst_sent,
        ins.rst_rcvd == q.rst_rcvd,
        ins.locator == q.locator,
        ins.frequency as u64 == q.frequency,
{
    lemma_frequency_column_round_trip(q.frequency);
}

} // verus!
