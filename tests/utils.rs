use kontroll::api::ErrorKind;
use kontroll::utils::{hex_to_rgb, pos_to_voyager, UNUSED_LED};

#[test]
fn convert_hex_to_rgb() {
    let hex = "#ff0000";
    let (r, g, b) = hex_to_rgb(hex).unwrap();
    assert_eq!(r, 255);
    assert_eq!(g, 0);
    assert_eq!(b, 0);
}

#[test]
fn convert_hex_to_rgb_without_pound() {
    let hex = "3edece";
    let (r, g, b) = hex_to_rgb(hex).unwrap();
    assert_eq!(r, 62);
    assert_eq!(g, 222);
    assert_eq!(b, 206);
}

#[test]
fn hex_round_trip_over_sample_colors() {
    for &(r, g, b) in &[(0u8, 0u8, 0u8), (255, 255, 255), (18, 52, 86), (171, 205, 239), (1, 128, 254)] {
        let plain = format!("{:02x}{:02x}{:02x}", r, g, b);
        assert_eq!(hex_to_rgb(&plain).unwrap(), (r, g, b));
        let pound = format!("#{}", plain);
        assert_eq!(hex_to_rgb(&pound).unwrap(), (r, g, b));
        let upper = plain.to_uppercase();
        assert_eq!(hex_to_rgb(&upper).unwrap(), (r, g, b));
    }
}

#[test]
fn hex_with_mixed_case_digits() {
    assert_eq!(hex_to_rgb("#AbCdEf").unwrap(), (171, 205, 239));
}

#[test]
fn hex_too_short_is_an_error() {
    for text in ["", "#", "#ff00", "3edec", "#3edec"] {
        let e = hex_to_rgb(text).unwrap_err();
        assert_eq!(e.kind, ErrorKind::InvalidColorFormat);
    }
}

#[test]
fn hex_too_long_is_an_error() {
    assert_eq!(hex_to_rgb("ff00000").unwrap_err().kind, ErrorKind::InvalidColorFormat);
    assert_eq!(hex_to_rgb("#ff0000ff").unwrap_err().kind, ErrorKind::InvalidColorFormat);
}

#[test]
fn hex_with_non_hex_digit_is_an_error() {
    for text in ["gg0000", "#00zz00", "0000-1", "+f0000", "ff 000", "##ff00"] {
        assert_eq!(hex_to_rgb(text).unwrap_err().kind, ErrorKind::InvalidColorFormat);
    }
}

#[test]
fn hex_with_two_pounds_is_an_error() {
    assert_eq!(hex_to_rgb("##ff0000").unwrap_err().kind, ErrorKind::InvalidColorFormat);
}

#[test]
fn hex_with_non_ascii_text_is_an_error() {
    assert_eq!(hex_to_rgb("ffé000").unwrap_err().kind, ErrorKind::InvalidColorFormat);
}

#[test]
fn layout_blocks() {
    assert_eq!(pos_to_voyager(0, 0).unwrap(), 0);
    assert_eq!(pos_to_voyager(5, 0).unwrap(), 5);
    assert_eq!(pos_to_voyager(6, 0).unwrap(), 26);
    assert_eq!(pos_to_voyager(11, 0).unwrap(), 31);
    assert_eq!(pos_to_voyager(3, 2).unwrap(), 15);
    assert_eq!(pos_to_voyager(9, 2).unwrap(), 41);
    assert_eq!(pos_to_voyager(5, 3).unwrap(), 23);
    assert_eq!(pos_to_voyager(6, 3).unwrap(), 44);
    assert_eq!(pos_to_voyager(11, 3).unwrap(), 49);
}

#[test]
fn layout_thumb_keys() {
    assert_eq!(pos_to_voyager(4, 4).unwrap(), 24);
    assert_eq!(pos_to_voyager(5, 4).unwrap(), 25);
    assert_eq!(pos_to_voyager(6, 4).unwrap(), 50);
    assert_eq!(pos_to_voyager(7, 4).unwrap(), 51);
}

#[test]
fn layout_gap_cells_are_unused() {
    for x in [0u16, 1, 2, 3, 8, 9, 10, 11] {
        assert_eq!(pos_to_voyager(x, 4).unwrap(), UNUSED_LED);
    }
    assert_eq!(UNUSED_LED, 60);
}

#[test]
fn layout_real_leds_are_distinct() {
    let mut seen = Vec::new();
    for y in 0u16..5 {
        for x in 0u16..12 {
            let led = pos_to_voyager(x, y).unwrap();
            if led != UNUSED_LED {
                assert!(led < 52);
                assert!(!seen.contains(&led));
                seen.push(led);
            }
        }
    }
    assert_eq!(seen.len(), 52);
}

#[test]
fn layout_out_of_range_is_an_error() {
    for (x, y) in [(12u16, 0u16), (0, 5), (12, 5), (u16::MAX, 0), (0, u16::MAX)] {
        assert_eq!(pos_to_voyager(x, y).unwrap_err().kind, ErrorKind::PositionOutOfRange);
    }
}
