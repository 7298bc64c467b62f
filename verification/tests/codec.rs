use ds3231::bcd_decode;
use ds3231::bcd_encode;

#[test]
fn decode_valid_bcd_bytes() {
    assert_eq!(bcd_decode(0x45), 45);
    assert_eq!(bcd_decode(0x00), 0);
    assert_eq!(bcd_decode(0x09), 9);
    assert_eq!(bcd_decode(0x10), 10);
    assert_eq!(bcd_decode(0x59), 59);
    assert_eq!(bcd_decode(0x99), 99);
}

#[test]
fn encode_two_digit_values() {
    assert_eq!(bcd_encode(45), 0x45);
    assert_eq!(bcd_encode(0), 0x00);
    assert_eq!(bcd_encode(9), 0x09);
    assert_eq!(bcd_encode(10), 0x10);
    assert_eq!(bcd_encode(99), 0x99);
}

#[test]
fn encode_decode_round_trip() {
    for v in 0u8..=99 {
        assert_eq!(bcd_decode(bcd_encode(v)), v);
    }
}

#[test]
fn decode_encode_round_trip_on_valid_bcd() {
    for hi in 0u8..=9 {
        for lo in 0u8..=9 {
            let raw = (hi << 4) | lo;
            assert_eq!(bcd_decode(raw), 10 * hi + lo);
            assert_eq!(bcd_encode(bcd_decode(raw)), raw);
        }
    }
}
