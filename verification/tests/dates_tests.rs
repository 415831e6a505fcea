use sheet_codec::dates::{
    below_sixty, excel_serial_to_naive_datetime, looks_like_date_format, naive_datetime_to_excel_serial,
    parse_iso_date, parse_iso_datetime, Moment, EPOCH_UNIX_MS, LEAP_BUG_END_MS, MAX_MOMENT_MS,
    MAX_UNIX_MS, MIN_MOMENT_MS, MIN_UNIX_MS, MS_PER_DAY,
};

use sheet_codec::number::Number64;

fn num(f: f64) -> Number64 {
    Number64::from_bits(f.to_bits())
}

fn serial_to_ms(serial: f64) -> i64 {
    (serial * 86_400_000.0).round() as i64
}

fn moment_of(serial: f64) -> Option<Moment> {
    excel_serial_to_naive_datetime(num(serial), serial_to_ms(serial))
}

fn moment_at(ms: i64) -> Option<Moment> {
    excel_serial_to_naive_datetime(num(ms as f64 / 86_400_000.0), ms)
}

#[test]
fn below_sixty_is_decided_on_the_bits() {
    let samples = [
        0.0, -0.0, 1.0, 59.0, 59.999999999999, 60.0, 60.000000000001, 61.0, -1.0, -60.0, -1e300,
        1e300, 5e-324, -5e-324, f64::MAX, f64::MIN, f64::INFINITY, f64::NEG_INFINITY, f64::NAN,
        -f64::NAN, f64::MIN_POSITIVE,
    ];
    for f in samples {
        assert_eq!(below_sixty(num(f)), f < 60.0, "{f:?}");
    }
    assert!(below_sixty(Number64::from_bits(0x404D_FFFF_FFFF_FFFF)));
    assert!(!below_sixty(Number64::from_bits(0x404E_0000_0000_0000)));
    assert!(!below_sixty(Number64::from_bits(0x7FF8_0000_0000_0001)));
    assert!(!below_sixty(Number64::from_bits(0xFFF0_0000_0000_0001)));
    assert!(below_sixty(Number64::from_bits(0xFFF0_0000_0000_0000)));
}

#[test]
fn a_serial_just_below_sixty_is_shifted_before_it_is_rounded() {
    let serial = 59.999999999999;
    assert_eq!(serial_to_ms(serial), LEAP_BUG_END_MS);
    let m = moment_of(serial).unwrap();
    assert_eq!(m.millis(), 61 * MS_PER_DAY);
    assert_eq!(m.date_string(), "1900-03-01");
    assert_eq!(moment_of(60.0).unwrap().date_string(), "1900-02-28");
}

#[test]
fn a_nan_serial_is_not_shifted() {
    let m = moment_of(f64::NAN).unwrap();
    assert_eq!(m.millis(), 0);
    assert_eq!(m.date_string(), "1899-12-30");
    assert_eq!(moment_of(-0.0).unwrap().date_string(), "1899-12-31");
}

#[test]
fn serial_of_a_modern_date() {
    let m = moment_of(45306.0).unwrap();
    assert_eq!(m.millis(), 3_914_438_400_000);
    assert!(m.is_midnight());
    assert_eq!(m.date_string(), "2024-01-15");
    assert_eq!(m.datetime_string(), "2024-01-15T00:00:00");
}

#[test]
fn serial_with_a_time_of_day() {
    let m = moment_of(45306.4375).unwrap();
    assert_eq!(m.millis(), 3_914_476_200_000);
    assert!(!m.is_midnight());
    assert_eq!(m.datetime_string(), "2024-01-15T10:30:00");
    assert_eq!(m.date_string(), "2024-01-15");
}

#[test]
fn serials_below_sixty_are_moved_one_day_forward() {
    let one = moment_at(MS_PER_DAY).unwrap();
    assert_eq!(one.date_string(), "1900-01-01");
    let fifty_nine = moment_at(59 * MS_PER_DAY).unwrap();
    assert_eq!(fifty_nine.date_string(), "1900-02-28");
    let last = moment_at(LEAP_BUG_END_MS - 1).unwrap();
    assert_eq!(last.millis(), LEAP_BUG_END_MS - 1 + MS_PER_DAY);
    assert_eq!(last.datetime_string(), "1900-02-28T23:59:59");
}

#[test]
fn serials_from_sixty_on_are_read_as_they_are() {
    let sixty = moment_at(LEAP_BUG_END_MS).unwrap();
    assert_eq!(sixty.millis(), LEAP_BUG_END_MS);
    assert_eq!(sixty.date_string(), "1900-02-28");
    let sixty_one = moment_at(61 * MS_PER_DAY).unwrap();
    assert_eq!(sixty_one.date_string(), "1900-03-01");
}

#[test]
fn negative_serials_reach_before_the_epoch() {
    let m = moment_at(-36_523 * MS_PER_DAY).unwrap();
    assert_eq!(m.date_string(), "1800-01-01");
    assert!(m.is_midnight());
    let n = moment_at(-36_523 * MS_PER_DAY - 1).unwrap();
    assert!(!n.is_midnight());
    assert_eq!(n.datetime_string(), "1799-12-31T23:59:59");
}

#[test]
fn calendar_limits() {
    let last = Moment::from_millis(MAX_MOMENT_MS).unwrap();
    assert_eq!(last.date_string(), "+262142-12-31");
    assert_eq!(last.datetime_string(), "+262142-12-31T23:59:59");
    assert_eq!(Moment::from_millis(MAX_MOMENT_MS + 1), None);
    let first = Moment::from_millis(MIN_MOMENT_MS).unwrap();
    assert_eq!(first.date_string(), "-262143-01-01");
    assert!(first.is_midnight());
    assert_eq!(Moment::from_millis(MIN_MOMENT_MS - 1), None);
    assert_eq!(moment_at(i64::MAX), None);
    assert_eq!(moment_at(i64::MIN), None);
    assert_eq!(moment_at(MAX_MOMENT_MS + 1), None);
    assert!(moment_at(MIN_MOMENT_MS - MS_PER_DAY).is_some());
    assert_eq!(moment_at(MIN_MOMENT_MS - MS_PER_DAY - 1), None);
}

#[test]
fn calendar_limits_are_those_of_chrono() {
    let epoch = chrono::NaiveDate::from_ymd_opt(1899, 12, 30)
        .unwrap()
        .and_time(chrono::NaiveTime::MIN);
    assert_eq!(chrono::DateTime::from_timestamp_millis(EPOCH_UNIX_MS).unwrap().naive_utc(), epoch);
    assert_eq!(chrono::NaiveDateTime::MAX.and_utc().timestamp_millis(), MAX_UNIX_MS);
    assert_eq!(chrono::NaiveDateTime::MIN.and_utc().timestamp_millis(), MIN_UNIX_MS);
    assert!(chrono::DateTime::from_timestamp_millis(MAX_UNIX_MS).is_some());
    assert!(chrono::DateTime::from_timestamp_millis(MAX_UNIX_MS + 1).is_none());
    assert!(chrono::DateTime::from_timestamp_millis(MIN_UNIX_MS).is_some());
    assert!(chrono::DateTime::from_timestamp_millis(MIN_UNIX_MS - 1).is_none());
    assert_eq!(MAX_MOMENT_MS, MAX_UNIX_MS - EPOCH_UNIX_MS);
    assert_eq!(MIN_MOMENT_MS, MIN_UNIX_MS - EPOCH_UNIX_MS);
    let max = chrono::NaiveDateTime::MAX.signed_duration_since(epoch).num_milliseconds();
    let min = chrono::NaiveDateTime::MIN.signed_duration_since(epoch).num_milliseconds();
    assert_eq!(max, MAX_MOMENT_MS);
    assert_eq!(min, MIN_MOMENT_MS);
    assert!(epoch.checked_add_signed(chrono::TimeDelta::milliseconds(MAX_MOMENT_MS + 1)).is_none());
    assert!(epoch.checked_add_signed(chrono::TimeDelta::milliseconds(MIN_MOMENT_MS - 1)).is_none());
}

#[test]
fn moment_to_serial_is_the_distance_from_the_epoch() {
    let m = Moment::from_millis(3_914_476_200_000).unwrap();
    let ms = naive_datetime_to_excel_serial(m).unwrap();
    assert_eq!(ms, 3_914_476_200_000);
    assert_eq!(ms as f64 / 86_400_000.0, 45306.4375);
}

#[test]
fn serial_round_trip_from_day_sixty() {
    for ms in [LEAP_BUG_END_MS, LEAP_BUG_END_MS + 1, 3_914_476_200_123, MAX_MOMENT_MS] {
        let m = moment_at(ms).unwrap();
        assert_eq!(naive_datetime_to_excel_serial(m), Some(ms));
        let back = moment_at(naive_datetime_to_excel_serial(m).unwrap());
        assert_eq!(back, Some(m));
    }
}

#[test]
fn serial_round_trip_fails_before_day_sixty() {
    let m = Moment::from_millis(2 * MS_PER_DAY).unwrap();
    assert_eq!(m.date_string(), "1900-01-01");
    let back = moment_at(naive_datetime_to_excel_serial(m).unwrap()).unwrap();
    assert_eq!(back.date_string(), "1900-01-02");
}

#[test]
fn float_serials_round_trip_to_the_millisecond() {
    for ms in [LEAP_BUG_END_MS, 3_914_476_200_123, 3_914_438_400_001, 9_999_999_999_999] {
        let serial = ms as f64 / 86_400_000.0;
        assert_eq!(serial_to_ms(serial), ms);
    }
}

#[test]
fn parses_iso_dates() {
    let m = parse_iso_date("2024-01-15").unwrap();
    assert_eq!(m.millis(), 3_914_438_400_000);
    assert!(m.is_midnight());
    assert_eq!(parse_iso_date("1899-12-30").unwrap().millis(), 0);
    assert_eq!(parse_iso_date("1800-01-01").unwrap().millis(), -36_522 * MS_PER_DAY);
    assert_eq!(parse_iso_date("2024-02-30"), None);
    assert_eq!(parse_iso_date("2024-13-01"), None);
    assert_eq!(parse_iso_date("15/01/2024"), None);
    assert_eq!(parse_iso_date("2024-01-15T10:30:00"), None);
    assert_eq!(parse_iso_date(""), None);
}

#[test]
fn parses_iso_datetimes() {
    let m = parse_iso_datetime("2024-01-15T10:30:00").unwrap();
    assert_eq!(m.millis(), 3_914_476_200_000);
    assert_eq!(parse_iso_datetime("2024-01-15T10:30:00Z"), Some(m));
    assert_eq!(parse_iso_datetime("2024-01-15T10:30:00ZZ"), Some(m));
    let f = parse_iso_datetime("2024-01-15T10:30:00.250").unwrap();
    assert_eq!(f.millis(), 3_914_476_200_250);
    assert_eq!(parse_iso_datetime("2024-01-15T10:30:00.250Z"), Some(f));
    assert_eq!(parse_iso_datetime("2024-01-15"), None);
    assert_eq!(parse_iso_datetime("2024-01-15 10:30:00"), None);
    assert_eq!(parse_iso_datetime("2024-01-15T25:00:00"), None);
    assert_eq!(parse_iso_datetime("Z"), None);
}

#[test]
fn parsed_texts_are_written_back_the_same() {
    let d = parse_iso_date("2024-01-15").unwrap();
    assert_eq!(d.date_string(), "2024-01-15");
    let t = parse_iso_datetime("1999-12-31T23:59:59").unwrap();
    assert_eq!(t.datetime_string(), "1999-12-31T23:59:59");
}

#[test]
fn date_shaped_format_codes() {
    assert!(looks_like_date_format("yyyy-mm-dd"));
    assert!(looks_like_date_format("YYYY-MM-DD"));
    assert!(looks_like_date_format("d/m/yy"));
    assert!(looks_like_date_format("yyyy-mm-dd h:mm:ss"));
    assert!(!looks_like_date_format("General"));
    assert!(!looks_like_date_format("0.00"));
    assert!(!looks_like_date_format("h:mm:ss"));
    assert!(!looks_like_date_format("yyyy"));
    assert!(!looks_like_date_format("dd"));
    assert!(!looks_like_date_format(""));
}
