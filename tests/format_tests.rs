use tui_torrent::piratebay::format_size;
use tui_torrent::text::{decimal_string, parse_unsigned};
use tui_torrent::utils::{format_bytes, format_speed};

fn read_back(s: &str) -> (f64, u32) {
    let (num, unit) = s.rsplit_once(' ').expect("unit suffix");
    let k = match unit {
        "KB" => 1,
        "MB" => 2,
        "GB" => 3,
        "TB" => 4,
        _ => panic!("unknown unit {unit}"),
    };
    (num.parse::<f64>().unwrap(), k)
}

#[test]
fn format_bytes_plain_below_1024() {
    assert_eq!(format_bytes(0), "0");
    assert_eq!(format_bytes(1023), "1023");
}

#[test]
fn format_bytes_scaled_units() {
    assert_eq!(format_bytes(1024), "1.0 KB");
    assert_eq!(format_bytes(1536), "1.5 KB");
    assert_eq!(format_bytes(1048576), "1.0 MB");
    assert_eq!(format_bytes(3221225472), "3.0 GB");
    assert_eq!(format_bytes(1099511627776), "1.0 TB");
    assert_eq!(format_bytes(u64::MAX), "16777216.0 TB");
}

#[test]
fn format_bytes_rounds_halves_to_even() {
    assert_eq!(format_bytes(1280), "1.2 KB");
    assert_eq!(format_bytes(1792), "1.8 KB");
    assert_eq!(format_bytes(1048575), "1024.0 KB");
}

#[test]
fn format_bytes_reads_back_within_rounding() {
    for &b in &[1024u64, 1500, 99_999, 5_000_000, 123_456_789_012, 9_999_999_999_999] {
        let (v, k) = read_back(&format_bytes(b));
        let exact = b as f64 / 1024f64.powi(k as i32);
        assert!(1024u64.pow(k as u32) <= b);
        assert!(k == 4 || b < 1024u64.pow(k as u32 + 1));
        assert!((v - exact).abs() <= 0.05 + 1e-9, "{b}: {v} vs {exact}");
    }
}

#[test]
fn format_speed_cases() {
    assert_eq!(format_speed("0"), "0B/s");
    assert_eq!(format_speed("512"), "512B/s");
    assert_eq!(format_speed("2048"), "2.0 KB/s");
    assert_eq!(format_speed("abc"), "abcB/s");
    assert_eq!(format_speed(""), "B/s");
}

#[test]
fn format_size_cases() {
    assert_eq!(format_size("3221225472"), "3.0 GB");
    assert_eq!(format_size("500"), "500 B");
    assert_eq!(format_size("2048"), "2.0 KB");
    assert_eq!(format_size("1099511627776"), "1024.0 GB");
    assert_eq!(format_size("1.2 GiB"), "1.2 GiB");
}

#[test]
fn parse_unsigned_follows_std() {
    assert_eq!(parse_unsigned("120", u32::MAX as u64), Some(120));
    assert_eq!(parse_unsigned("+5", u32::MAX as u64), Some(5));
    assert_eq!(parse_unsigned("", u32::MAX as u64), None);
    assert_eq!(parse_unsigned("+", u32::MAX as u64), None);
    assert_eq!(parse_unsigned("12a", u32::MAX as u64), None);
    assert_eq!(parse_unsigned("-1", u32::MAX as u64), None);
    assert_eq!(parse_unsigned("4294967295", u32::MAX as u64), Some(4294967295));
    assert_eq!(parse_unsigned("4294967296", u32::MAX as u64), None);
    assert_eq!(parse_unsigned("18446744073709551615", u64::MAX), Some(u64::MAX));
    assert_eq!(parse_unsigned("18446744073709551616", u64::MAX), None);
}

#[test]
fn decimal_string_digits() {
    assert_eq!(decimal_string(0), "0");
    assert_eq!(decimal_string(907), "907");
}
