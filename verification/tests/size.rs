use hdr_upload::size::{
    decimal_text, format_mebibytes, size_in_mebibyte_tenths, BYTES_PER_MEBIBYTE, MAX_IMAGE_BYTES,
};

fn float_text(size: usize) -> String {
    format!("{:.1}", size as f64 / 1024.0 / 1024.0)
}

#[test]
fn ceiling_is_ten_mebibytes() {
    assert_eq!(MAX_IMAGE_BYTES, 10 * 1024 * 1024);
    assert_eq!(BYTES_PER_MEBIBYTE, 1024 * 1024);
}

#[test]
fn tenths_of_whole_mebibytes() {
    assert_eq!(size_in_mebibyte_tenths(0), 0);
    assert_eq!(size_in_mebibyte_tenths(1_048_576), 10);
    assert_eq!(size_in_mebibyte_tenths(10_485_760), 100);
    assert_eq!(size_in_mebibyte_tenths(10_485_761), 100);
    assert_eq!(size_in_mebibyte_tenths(15 * 1_048_576), 150);
}

#[test]
fn tenths_round_to_nearest() {
    // 10.04 MiB and 10.06 MiB
    assert_eq!(size_in_mebibyte_tenths(10_527_703), 100);
    assert_eq!(size_in_mebibyte_tenths(10_548_675), 101);
    // 12.34 MiB
    assert_eq!(size_in_mebibyte_tenths(12_939_428), 123);
}

#[test]
fn halfway_sizes_round_to_even() {
    // 10.25 MiB, 10.75 MiB and 11.25 MiB are exact multiples of 256 KiB.
    assert_eq!(size_in_mebibyte_tenths(41 * 262_144), 102);
    assert_eq!(size_in_mebibyte_tenths(43 * 262_144), 108);
    assert_eq!(size_in_mebibyte_tenths(45 * 262_144), 112);
}

#[test]
fn reported_tenths_are_within_half_a_tenth() {
    let mut size: usize = 10_485_761;
    while size < 64 * 1_048_576 {
        let tenths = size_in_mebibyte_tenths(size) as i128;
        let error = tenths * 1_048_576 - (size as i128) * 10;
        assert!(2 * error.abs() <= 1_048_576, "size {size}");
        size += 52_429;
    }
}

#[test]
fn decimal_text_writes_numerals() {
    assert_eq!(decimal_text(0), "0");
    assert_eq!(decimal_text(7), "7");
    assert_eq!(decimal_text(10), "10");
    assert_eq!(decimal_text(1234567890), "1234567890");
    assert_eq!(decimal_text(u64::MAX), u64::MAX.to_string());
}

#[test]
fn mebibytes_are_written_with_one_decimal() {
    assert_eq!(format_mebibytes(10_485_761), "10.0");
    assert_eq!(format_mebibytes(12_939_428), "12.3");
    assert_eq!(format_mebibytes(0), "0.0");
    assert_eq!(format_mebibytes(104_858), "0.1");
    assert_eq!(format_mebibytes(1_073_741_824), "1024.0");
}

#[test]
fn mebibytes_agree_with_float_formatting() {
    let mut size: usize = 0;
    while size < 40 * 1_048_576 {
        assert_eq!(format_mebibytes(size), float_text(size), "size {size}");
        size += 13_107;
    }
    for quarter in 0..400usize {
        let size = quarter * 262_144;
        assert_eq!(format_mebibytes(size), float_text(size), "size {size}");
        assert_eq!(format_mebibytes(size + 1), float_text(size + 1), "size {size} + 1");
        if size > 0 {
            assert_eq!(format_mebibytes(size - 1), float_text(size - 1), "size {size} - 1");
        }
    }
}
