use ds3231::DS3231Time;

fn time(secs: u8, mins: u8, hours: u8) -> DS3231Time {
    DS3231Time { secs, mins, hours, wday: 1, mday: 1, month: 1, year: 0 }
}

#[test]
fn hour_min_single_digit_fields_write_only_ones_digit() {
    let t = time(0, 5, 9);
    let mut buf = [b'0'; 4];
    t.get_hour_min(&mut buf);
    assert_eq!(&buf, b"0905");
}

#[test]
fn hour_min_two_digit_fields_write_both_digits() {
    let t = time(0, 59, 23);
    let mut buf = [0u8; 4];
    t.get_hour_min(&mut buf);
    assert_eq!(&buf, b"2359");
}

#[test]
fn hour_min_leaves_tens_byte_at_prior_value() {
    let t = time(0, 5, 9);
    let mut buf = [0xAAu8; 4];
    t.get_hour_min(&mut buf);
    assert_eq!(buf, [0xAA, b'9', 0xAA, b'5']);
}

#[test]
fn hour_min_leaves_bytes_past_four_untouched() {
    let t = time(0, 59, 23);
    let mut buf = [0x77u8; 6];
    t.get_hour_min(&mut buf);
    assert_eq!(buf, [b'2', b'3', b'5', b'9', 0x77, 0x77]);
}

#[test]
fn simple_renders_minutes_then_seconds() {
    let t = time(7, 42, 0);
    let mut buf = [b'0'; 4];
    t.get_simple(&mut buf);
    assert_eq!(&buf, b"4207");
}

#[test]
fn simple_two_digit_fields_write_both_digits() {
    let t = time(30, 15, 0);
    let mut buf = [0u8; 4];
    t.get_simple(&mut buf);
    assert_eq!(&buf, b"1530");
}

#[test]
fn simple_zero_values_keep_prior_tens_bytes() {
    let t = time(0, 0, 0);
    let mut buf = [b'x'; 4];
    t.get_simple(&mut buf);
    assert_eq!(&buf, b"x0x0");
}
