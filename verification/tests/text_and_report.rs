use rpbot::text::{decimal, parse_u64, signed_decimal, text_eq, chars_of, string_of};
use rpbot::report::{get_report_color, log_label, log_color, LogColor, format_log_date, log_line, pad_label, ReportType};
use rpbot::clock::get_timestamp;
use rpbot::constants::{GREEN_COLOR, ORANGE_COLOR, RED_COLOR};

#[test]
fn decimal_writes_digits() {
    assert_eq!(decimal(0), "0");
    assert_eq!(decimal(7), "7");
    assert_eq!(decimal(1234), "1234");
    assert_eq!(decimal(u64::MAX), u64::MAX.to_string());
}

#[test]
fn signed_decimal_writes_sign() {
    assert_eq!(signed_decimal(-5), "-5");
    assert_eq!(signed_decimal(42), "42");
    assert_eq!(signed_decimal(i64::MIN), i64::MIN.to_string());
    assert_eq!(signed_decimal(0), "0");
}

#[test]
fn parse_u64_accepts_what_std_accepts() {
    assert_eq!(parse_u64("42"), Some(42));
    assert_eq!(parse_u64("+42"), Some(42));
    assert_eq!(parse_u64("007"), Some(7));
    assert_eq!(parse_u64("18446744073709551615"), Some(u64::MAX));
}

#[test]
fn parse_u64_refuses_what_std_refuses() {
    for bad in ["", "+", "-1", "12a", " 1", "18446744073709551616", "1.5", "++1"] {
        assert_eq!(parse_u64(bad), None, "{}", bad);
        assert!(bad.parse::<u64>().is_err());
    }
}

#[test]
fn decimal_reads_back() {
    for n in [0u64, 9, 10, 99, 100, 123456789, u64::MAX] {
        assert_eq!(parse_u64(&decimal(n)), Some(n));
    }
}

#[test]
fn text_helpers() {
    assert!(text_eq("héllo", "héllo"));
    assert!(!text_eq("hello", "hellO"));
    assert!(!text_eq("hell", "hello"));
    let cs = chars_of("héllo");
    assert_eq!(cs, vec!['h', 'é', 'l', 'l', 'o']);
    assert_eq!(string_of(&cs), "héllo");
}

#[test]
fn report_colors() {
    assert_eq!(get_report_color(&ReportType::SUCCESS), GREEN_COLOR);
    assert_eq!(get_report_color(&ReportType::WARNING), ORANGE_COLOR);
    assert_eq!(get_report_color(&ReportType::ERROR), RED_COLOR);
    assert_eq!(get_report_color(&ReportType::ERROR), 0xFF0000);
    assert_eq!(get_report_color(&ReportType::SUCCESS), 0x00FF00);
}

#[test]
fn log_labels_and_colors() {
    assert_eq!(log_label(ReportType::SUCCESS), "SUCCESS");
    assert_eq!(log_label(ReportType::WARNING), "WARNING");
    assert_eq!(log_label(ReportType::ERROR), "ERROR");
    assert_eq!(log_color(ReportType::SUCCESS), LogColor::Green);
    assert_eq!(log_color(ReportType::WARNING), LogColor::Orange);
    assert_eq!(log_color(ReportType::ERROR), LogColor::Red);
}

#[test]
fn log_date_is_zero_padded() {
    assert_eq!(format_log_date(3, 7, 9, 5, 0), "d03 m07 09:05:00");
    assert_eq!(format_log_date(31, 12, 23, 59, 59), "d31 m12 23:59:59");
}

#[test]
fn log_line_frames_label() {
    let line = log_line(ReportType::ERROR, "d01 m02 03:04:05", "it broke");
    assert!(line.starts_with("[d01 m02 03:04:05] "));
    assert!(line.ends_with(" : it broke"));
    assert!(line.contains("ERROR"));
    let painted = &line["[d01 m02 03:04:05] ".len()..line.len() - " : it broke".len()];
    assert!(painted.chars().count() >= 7);
    assert!(painted == "ERROR  " || painted == "\x1b[31mERROR  \x1b[0m");
}

#[test]
fn labels_padded_to_seven() {
    assert_eq!(pad_label("ERROR"), "ERROR  ");
    assert_eq!(pad_label("SUCCESS"), "SUCCESS");
    assert_eq!(pad_label(""), "       ");
    assert_eq!(pad_label("TOO LONG LABEL"), "TOO LONG LABEL");
    for label in ["ERROR", "WARNING", "SUCCESS", "ab"] {
        assert_eq!(pad_label(label), format!("{:07}", label));
    }
}

#[test]
fn timestamp_is_after_2020() {
    let t = get_timestamp().unwrap();
    assert!(t > 1_577_836_800);
}
