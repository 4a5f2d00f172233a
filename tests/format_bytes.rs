use rust_get_system_info::format::{decimal_string, shown_hundredths_of, unit_index_of};
use rust_get_system_info::format_bytes;

#[test]
fn zero_bytes() {
    assert_eq!(format_bytes(0), "0 B");
}

#[test]
fn documented_examples() {
    assert_eq!(format_bytes(1024), "1.00 KB");
    assert_eq!(format_bytes(1536), "1.50 KB");
    assert_eq!(format_bytes(1073741824), "1.00 GB");
}

#[test]
fn small_counts_are_exact_integers() {
    for n in [1u64, 7, 10, 512, 999, 1023] {
        let text = format_bytes(n);
        assert_eq!(text, format!("{} B", n));
        assert!(!text.contains('.'));
    }
}

#[test]
fn megabytes_and_rounding_carry() {
    assert_eq!(format_bytes(1048576), "1.00 MB");
    assert_eq!(format_bytes(1048575), "1024.00 KB");
    assert_eq!(format_bytes(5 * 1048576 + 262144), "5.25 MB");
}

#[test]
fn ties_round_to_even() {
    assert_eq!(format_bytes(1152), "1.12 KB");
    assert_eq!(format_bytes(1408), "1.38 KB");
}

#[test]
fn terabytes_clamp_at_top_of_table() {
    let tb: u64 = 1024 * 1024 * 1024 * 1024;
    assert_eq!(format_bytes(tb), "1.00 TB");
    assert_eq!(format_bytes(2048 * tb), "2048.00 TB");
    assert_eq!(format_bytes(u64::MAX), "16777216.00 TB");
    assert_eq!(unit_index_of(u64::MAX), 4);
}

#[test]
fn same_unit_is_monotonic() {
    let samples = [1024u64, 1030, 1152, 1153, 1536, 2047, 4096, 1048575];
    for w in samples.windows(2) {
        assert_eq!(unit_index_of(w[0]), unit_index_of(w[1]));
        assert!(shown_hundredths_of(w[0]) <= shown_hundredths_of(w[1]));
    }
    assert!(shown_hundredths_of(1000) <= shown_hundredths_of(1001));
}

#[test]
fn decimal_notation() {
    assert_eq!(decimal_string(0), "0");
    assert_eq!(decimal_string(9), "9");
    assert_eq!(decimal_string(10), "10");
    assert_eq!(decimal_string(18446744073709551615), "18446744073709551615");
}
