use brlog::db::{
    band_migration, can_delete_log, check_log_deletion, default_log_step, frequency_column_is_text,
    legacy_cell_fits_exec, legacy_frequency_to_hz, log_from_row, log_to_promote,
    migrate_legacy_row, needs_log_id_column, qso_from_row, qso_insert_row, qsos_from_rows,
    DefaultLogStep, LegacyQsoRow, LogDeleteRefusal, QsoRow,
};
use brlog::models::log::LogKind;
use brlog::models::qso::Qso;
use brlog::time::UtcTime;

fn row(id: i64, datetime: &str, frequency: i64) -> QsoRow {
    QsoRow {
        id,
        callsign: "OK1ABC".to_string(),
        datetime: datetime.to_string(),
        frequency,
        mode: "SSB".to_string(),
        rst_sent: "59".to_string(),
        rst_rcvd: "57".to_string(),
        locator: "JN79".to_string(),
    }
}

#[test]
fn deletion_rules() {
    assert_eq!(check_log_deletion(5, 1, 0), Err(LogDeleteRefusal::LastRemainingLog));
    assert_eq!(check_log_deletion(5, 0, 3), Err(LogDeleteRefusal::LastRemainingLog));
    assert_eq!(check_log_deletion(5, 2, 3), Err(LogDeleteRefusal::NotEmpty { id: 5, qso_count: 3 }));
    assert_eq!(check_log_deletion(5, 2, 0), Ok(()));
}

#[test]
fn manager_offer_agrees_with_rule() {
    for n in 0usize..4 {
        for c in 0i64..3 {
            assert_eq!(can_delete_log(n, c), check_log_deletion(1, n as i64, c).is_ok());
        }
    }
}

#[test]
fn promotion_after_delete() {
    assert_eq!(log_to_promote(1, Some(2)), Some(2));
    assert_eq!(log_to_promote(1, None), None);
    assert_eq!(log_to_promote(0, Some(2)), None);
}

#[test]
fn migration_plans() {
    let cols: Vec<String> = ["id", "callsign", "band"].iter().map(|s| s.to_string()).collect();
    let m = band_migration(&cols);
    assert!(m.add_frequency && m.drop_band);
    assert!(needs_log_id_column(&cols));
    let cols: Vec<String> = ["id", "frequency", "log_id"].iter().map(|s| s.to_string()).collect();
    let m = band_migration(&cols);
    assert!(!m.add_frequency && !m.drop_band);
    assert!(!needs_log_id_column(&cols));
    assert!(frequency_column_is_text(Some("text")));
    assert!(frequency_column_is_text(Some("TEXT")));
    assert!(!frequency_column_is_text(Some("INTEGER")));
    assert!(!frequency_column_is_text(None));
    assert_eq!(default_log_step(0, None), DefaultLogStep::CreateDefault);
    assert_eq!(default_log_step(2, Some(7)), DefaultLogStep::UseActive(7));
    assert_eq!(default_log_step(2, None), DefaultLogStep::ActivateOldest);
}

#[test]
fn legacy_cells() {
    assert_eq!(legacy_frequency_to_hz(""), 0);
    assert_eq!(legacy_frequency_to_hz("   "), 0);
    assert_eq!(legacy_frequency_to_hz("14.200.00"), 14_200_000);
    assert_eq!(legacy_frequency_to_hz(" 14200000 "), 14_200_000);
    assert_eq!(legacy_frequency_to_hz("14.200"), 0);
    assert_eq!(legacy_frequency_to_hz("abc"), 0);
    assert!(legacy_cell_fits_exec("99999999999999.0.0") == false);
    assert!(legacy_cell_fits_exec("99999999999999999999"));
    assert_eq!(legacy_frequency_to_hz("99999999999999999999"), 0);
}

#[test]
fn legacy_row_migrates() {
    let r = migrate_legacy_row(LegacyQsoRow {
        id: 9,
        callsign: "OK1ABC".to_string(),
        datetime: "2024-01-01T10:00:00Z".to_string(),
        frequency: "7.074.00".to_string(),
        mode: "FT8".to_string(),
        rst_sent: String::new(),
        rst_rcvd: String::new(),
        locator: String::new(),
    });
    assert_eq!(r.id, 9);
    assert_eq!(r.frequency, 7_074_000);
    assert_eq!(r.mode, "FT8");
}

#[test]
fn logs_from_rows() {
    let l = log_from_row(3, "Contest 2026".to_string(), "contest", 1);
    assert_eq!(l.id, 3);
    assert_eq!(l.kind, LogKind::Contest);
    assert!(l.is_active);
    assert!(!log_from_row(3, "x".to_string(), "weird", 0).is_active);
}

#[test]
fn rows_to_qsos() {
    let q = qso_from_row(&row(4, "2024-05-06T07:08:09Z", 14_200_000)).unwrap();
    assert_eq!(q.id, Some(4));
    assert_eq!(q.qso_datetime, UtcTime { secs: 1_714_979_289, nanos: 0 });
    assert_eq!(q.frequency, 14_200_000);
    assert_eq!(q.locator, "JN79");
    let e = qso_from_row(&row(5, "yesterday", 1)).unwrap_err();
    assert_eq!(e.id, 5);
    assert_eq!(e.text, "yesterday");
    let q = qso_from_row(&row(6, "2024-05-06T09:08:09+02:00", -1)).unwrap();
    assert_eq!(q.qso_datetime.secs, 1_714_979_289);
    assert_eq!(q.frequency, u64::MAX);
}

#[test]
fn listing_fails_on_first_bad_row() {
    let rows = vec![row(1, "2024-05-06T07:08:09Z", 1), row(2, "bad", 2), row(3, "worse", 3)];
    assert_eq!(qsos_from_rows(&rows).unwrap_err().id, 2);
    let rows = vec![row(1, "2024-05-06T07:08:09Z", 1), row(2, "2024-05-06T07:08:10Z", 2)];
    let qs = qsos_from_rows(&rows).unwrap();
    assert_eq!(qs.len(), 2);
    assert_eq!(qs[1].id, Some(2));
}

#[test]
fn insert_then_read_back() {
    // 2024-05-06T07:08:09.750Z
    let t = UtcTime { secs: 1_714_979_289, nanos: 750_000_000 };
    let q = Qso::new_at(
        "OK1ABC".to_string(),
        u64::MAX,
        "CW".to_string(),
        "599".to_string(),
        "579".to_string(),
        "JN79".to_string(),
        t,
    );
    let ins = qso_insert_row(2, &q).unwrap();
    assert_eq!(ins.log_id, 2);
    assert_eq!(ins.datetime, "2024-05-06T07:08:09Z");
    assert_eq!(ins.frequency, -1);
    let back = qso_from_row(&QsoRow {
        id: 11,
        callsign: ins.callsign,
        datetime: ins.datetime,
        frequency: ins.frequency,
        mode: ins.mode,
        rst_sent: ins.rst_sent,
        rst_rcvd: ins.rst_rcvd,
        locator: ins.locator,
    })
    .unwrap();
    assert_eq!(back.frequency, u64::MAX);
    assert_eq!(back.callsign, "OK1ABC");
    assert_eq!(back.qso_datetime.secs, t.secs);
    assert_eq!(back.qso_datetime.nanos, 0);
}

#[test]
fn unrepresentable_instant_has_no_row() {
    let q = Qso::new_at(
        "X".to_string(),
        1,
        "SSB".to_string(),
        String::new(),
        String::new(),
        String::new(),
        UtcTime { secs: i64::MAX, nanos: 0 },
    );
    assert!(qso_insert_row(1, &q).is_none());
}

fn stored_and_read(secs: i64) -> (String, Result<Qso, brlog::db::BadQsoDatetime>) {
    let q = Qso::new_at(
        "OK1ABC".to_string(),
        7_000_000,
        "CW".to_string(),
        String::new(),
        String::new(),
        String::new(),
        UtcTime { secs, nanos: 0 },
    );
    let ins = qso_insert_row(1, &q).unwrap();
    let text = ins.datetime.clone();
    let back = qso_from_row(&QsoRow {
        id: 1,
        callsign: ins.callsign,
        datetime: ins.datetime,
        frequency: ins.frequency,
        mode: ins.mode,
        rst_sent: ins.rst_sent,
        rst_rcvd: ins.rst_rcvd,
        locator: ins.locator,
    });
    (text, back)
}

#[test]
fn four_digit_years_round_trip() {
    let (text, back) = stored_and_read(-62_167_219_200);
    assert_eq!(text, "0000-01-01T00:00:00Z");
    assert_eq!(back.unwrap().qso_datetime, UtcTime { secs: -62_167_219_200, nanos: 0 });
    let (text, back) = stored_and_read(253_402_300_799);
    assert_eq!(text, "9999-12-31T23:59:59Z");
    assert_eq!(back.unwrap().qso_datetime, UtcTime { secs: 253_402_300_799, nanos: 0 });
    let (text, back) = stored_and_read(253_402_300_800);
    assert_eq!(text, "+10000-01-01T00:00:00Z");
    assert!(back.is_err());
}

#[test]
fn leap_second_round_trips() {
    // 2016-12-31T23:59:60Z, the leap second at the end of 2016.
    let q = Qso::new_at(
        "OK1ABC".to_string(),
        7_000_000,
        "CW".to_string(),
        String::new(),
        String::new(),
        String::new(),
        UtcTime { secs: 1_483_228_799, nanos: 1_250_000_000 },
    );
    let ins = qso_insert_row(1, &q).unwrap();
    assert_eq!(ins.datetime, "2016-12-31T23:59:60Z");
    let back = qso_from_row(&QsoRow {
        id: 1,
        callsign: ins.callsign,
        datetime: ins.datetime,
        frequency: ins.frequency,
        mode: ins.mode,
        rst_sent: ins.rst_sent,
        rst_rcvd: ins.rst_rcvd,
        locator: ins.locator,
    })
    .unwrap();
    assert_eq!(back.qso_datetime, UtcTime { secs: 1_483_228_799, nanos: 1_000_000_000 });
}
