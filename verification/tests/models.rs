use brlog::time::instant_from_epoch_offset;
use brlog::models::log::{Log, LogKind};
use brlog::models::qso::{format_frequency_hz, legacy_frequency_fits, parse_legacy_frequency, Qso};
use brlog::time::UtcTime;

#[test]
fn log_kind_db_strings() {
    assert_eq!(LogKind::General.as_db_str(), "general");
    assert_eq!(LogKind::Contest.as_db_str(), "contest");
    assert_eq!(LogKind::Dxpedition.as_db_str(), "dxpedition");
    assert_eq!(LogKind::Sota.as_db_str(), "sota");
}

#[test]
fn log_kind_round_trip() {
    for k in LogKind::ALL {
        assert_eq!(LogKind::from_db_str(k.as_db_str()), k);
    }
}

#[test]
fn log_kind_unknown_text_is_general() {
    assert_eq!(LogKind::from_db_str("CONTEST"), LogKind::General);
    assert_eq!(LogKind::from_db_str(""), LogKind::General);
    assert_eq!(LogKind::from_db_str("pota"), LogKind::General);
    assert_eq!(LogKind::default(), LogKind::General);
}

#[test]
fn logs_compare_by_id() {
    let a = Log { id: 3, name: "A".to_string(), kind: LogKind::General, is_active: true };
    let b = Log { id: 3, name: "B".to_string(), kind: LogKind::Sota, is_active: false };
    let c = Log { id: 4, name: "A".to_string(), kind: LogKind::General, is_active: true };
    assert!(a == b);
    assert!(a != c);
    assert_eq!(a.display_text(), "A");
}

#[test]
fn frequency_formats_as_mhz_khz_hz() {
    assert_eq!(format_frequency_hz(14_200_000), "14.200.000");
    assert_eq!(format_frequency_hz(7_074_500), "7.074.500");
    assert_eq!(format_frequency_hz(0), "0.000.000");
    assert_eq!(format_frequency_hz(1_000_001), "1.000.001");
    assert_eq!(format_frequency_hz(u64::MAX), "18446744073709.551.615");
}

#[test]
fn legacy_frequency_parses() {
    assert_eq!(parse_legacy_frequency("14.200.00"), Some(14_200_000));
    assert_eq!(parse_legacy_frequency("7.074.15"), Some(7_074_150));
    assert_eq!(parse_legacy_frequency("+1.2.3"), Some(1_002_030));
}

#[test]
fn legacy_frequency_rejects() {
    assert_eq!(parse_legacy_frequency(""), None);
    assert_eq!(parse_legacy_frequency("14.200"), None);
    assert_eq!(parse_legacy_frequency("14.200.00.0"), None);
    assert_eq!(parse_legacy_frequency("14.2a0.00"), None);
    assert_eq!(parse_legacy_frequency("14..00"), None);
    assert_eq!(parse_legacy_frequency("-1.0.0"), None);
    assert_eq!(parse_legacy_frequency(" 14.200.00"), None);
}

#[test]
fn legacy_reads_formatted_khz() {
    for hz in [0u64, 1_000, 14_200_000, 28_074_000, 144_300_000] {
        assert_eq!(parse_legacy_frequency(&format_frequency_hz(hz)), Some(hz));
    }
}

#[test]
fn legacy_does_not_read_formatted_hz() {
    assert_eq!(parse_legacy_frequency(&format_frequency_hz(14_200_050)), Some(14_200_500));
}

#[test]
fn legacy_fits_check() {
    assert!(legacy_frequency_fits("14.200.00"));
    assert!(legacy_frequency_fits("not a number"));
    assert!(!legacy_frequency_fits("18446744073710.0.0"));
    assert!(legacy_frequency_fits("18446744073709.551.61"));
}

#[test]
fn qso_new_at_keeps_fields() {
    let t = UtcTime { secs: 1_700_000_000, nanos: 5 };
    let q = Qso::new_at(
        "OK1ABC".to_string(),
        14_200_000,
        "SSB".to_string(),
        "59".to_string(),
        "57".to_string(),
        "JO70".to_string(),
        t,
    );
    assert_eq!(q.id, None);
    assert_eq!(q.callsign, "OK1ABC");
    assert_eq!(q.qso_datetime, t);
    assert_eq!(q.frequency, 14_200_000);
    assert_eq!(q.mode, "SSB");
    assert_eq!(q.rst_sent, "59");
    assert_eq!(q.rst_rcvd, "57");
    assert_eq!(q.locator, "JO70");
}

#[test]
fn qso_new_now_is_recent() {
    let q = Qso::new_now(
        "OK1ABC".to_string(),
        7_000_000,
        "CW".to_string(),
        "599".to_string(),
        "599".to_string(),
        String::new(),
    );
    assert_eq!(q.id, None);
    assert_eq!(q.frequency, 7_000_000);
    assert!(q.qso_datetime.secs > 1_600_000_000);
}

#[test]
fn instants_from_the_clock_offset() {
    assert_eq!(instant_from_epoch_offset(Ok((1_714_979_289, 5))), UtcTime { secs: 1_714_979_289, nanos: 5 });
    assert_eq!(instant_from_epoch_offset(Err((10, 0))), UtcTime { secs: -10, nanos: 0 });
    assert_eq!(
        instant_from_epoch_offset(Err((10, 250_000_000))),
        UtcTime { secs: -11, nanos: 750_000_000 }
    );
    assert_eq!(
        instant_from_epoch_offset(Ok((u64::MAX, 0))),
        UtcTime { secs: i64::MAX, nanos: 999_999_999 }
    );
    assert_eq!(instant_from_epoch_offset(Err((u64::MAX, 1))), UtcTime { secs: i64::MIN, nanos: 0 });
    let q = Qso::new_now(
        "OK1ABC".to_string(),
        1,
        "CW".to_string(),
        String::new(),
        String::new(),
        String::new(),
    );
    assert!(q.qso_datetime.nanos < 1_000_000_000);
    assert!(q.qso_datetime.secs > 1_600_000_000);
}

#[test]
fn formatted_frequency_reads_back_as_legacy() {
    // The last field counts tens of Hz in the legacy format.
    assert_eq!(parse_legacy_frequency(&format_frequency_hz(14_200_050)), Some(14_200_500));
    assert_eq!(parse_legacy_frequency(&format_frequency_hz(14_200_000)), Some(14_200_000));
    assert!(!legacy_frequency_fits(&format_frequency_hz(u64::MAX)));
}
