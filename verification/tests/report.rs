use echo_ranging::report::{bar_fill_extent, format_reading};

#[test]
fn formats_142_with_crlf() {
    assert_eq!(format_reading(142), b"142\r\n".to_vec());
}

#[test]
fn formats_zero_with_crlf() {
    assert_eq!(format_reading(0), b"0\r\n".to_vec());
}

#[test]
fn formats_without_leading_zeros() {
    assert_eq!(format_reading(10), b"10\r\n".to_vec());
    assert_eq!(format_reading(100), b"100\r\n".to_vec());
    assert_eq!(format_reading(9), b"9\r\n".to_vec());
}

#[test]
fn formats_large_values() {
    assert_eq!(format_reading(u64::MAX), b"18446744073709551615\r\n".to_vec());
}

#[test]
fn bar_fill_is_proportional() {
    // 80% of a 180-pixel box is 144 pixels.
    assert_eq!(bar_fill_extent(80, 100, 180), 144);
    assert_eq!(bar_fill_extent(0, 100, 180), 0);
    assert_eq!(bar_fill_extent(100, 100, 180), 180);
}

#[test]
fn bar_fill_is_clipped_to_the_box() {
    // A value over full scale never spills out of the bounding box.
    assert_eq!(bar_fill_extent(250, 100, 180), 180);
    assert_eq!(bar_fill_extent(u32::MAX, 1, 180), 180);
}
