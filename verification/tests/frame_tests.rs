use air_relay::decimal::DecimalValue;
use air_relay::frame::{calc_co2, calc_tvoc, decode, DecodeError, Reading};

#[test]
fn co2_is_high_times_256_plus_low_for_every_byte_pair() {
    let mut h: u16 = 0;
    while h <= 255 {
        let mut l: u16 = 0;
        while l <= 255 {
            let value = calc_co2(h as u8, l as u8);
            assert_eq!(value.mantissa(), (h as i128) * 256 + (l as i128));
            assert_eq!(value.scale(), 0);
            l += 1;
        }
        h += 1;
    }
}

#[test]
fn tvoc_is_a_thousandth_of_the_raw_field_for_every_byte_pair() {
    let mut h: u16 = 0;
    while h <= 255 {
        let mut l: u16 = 0;
        while l <= 255 {
            let raw: i128 = (h as i128) * 256 + (l as i128);
            let value = calc_tvoc(h as u8, l as u8);
            assert_eq!(value.mantissa(), raw);
            if raw == 0 {
                assert_eq!(value.scale(), 0);
            } else {
                assert_eq!(value.scale(), 3);
            }
            l += 1;
        }
        h += 1;
    }
}

#[test]
fn field_of_1_and_44_is_300_and_three_tenths() {
    let co2 = calc_co2(1, 44);
    assert_eq!(co2.mantissa(), 300);
    assert_eq!(co2.scale(), 0);
    assert_eq!(co2.to_text(), "300");
    let tvoc = calc_tvoc(1, 44);
    assert_eq!(tvoc.mantissa(), 300);
    assert_eq!(tvoc.scale(), 3);
    assert_eq!(tvoc.to_text(), "0.300");
}

#[test]
fn largest_field_keeps_every_digit() {
    assert_eq!(calc_co2(255, 255).to_text(), "65535");
    assert_eq!(calc_tvoc(255, 255).to_text(), "65.535");
}

#[test]
fn field_of_zero_is_the_plain_zero() {
    let tvoc = calc_tvoc(0, 0);
    assert_eq!(tvoc.mantissa(), 0);
    assert_eq!(tvoc.scale(), 0);
    assert_eq!(tvoc.to_text(), "0");
    assert_eq!(calc_co2(0, 0).to_text(), "0");
}

#[test]
fn small_fields_are_padded_behind_the_point() {
    assert_eq!(calc_tvoc(0, 1).to_text(), "0.001");
    assert_eq!(calc_tvoc(0, 10).to_text(), "0.010");
    assert_eq!(calc_tvoc(0, 255).to_text(), "0.255");
    assert_eq!(calc_tvoc(3, 232).to_text(), "1.000");
}

#[test]
fn low_byte_alone_and_high_byte_alone() {
    assert_eq!(calc_co2(0, 200).mantissa(), 200);
    assert_eq!(calc_co2(200, 0).mantissa(), 51200);
    assert_eq!(calc_co2(0, 200).scale(), 0);
    assert_eq!(calc_co2(200, 0).scale(), 0);
}

#[test]
fn decode_reads_three_big_endian_fields() {
    let frame: [u8; 8] = [0xAA, 0xBB, 0x01, 0x2C, 0x00, 0x64, 0x00, 0x96];
    let reading: Reading = decode(&frame, 1_700_000_000_123).unwrap();
    assert_eq!(reading.tvoc, DecimalValue::new(300, 3).unwrap());
    assert_eq!(reading.formaldehyde, DecimalValue::new(100, 3).unwrap());
    assert_eq!(reading.co2, DecimalValue::new(150, 0).unwrap());
    assert_eq!(reading.captured_at, 1_700_000_000_123);
    assert_eq!(reading.tvoc.to_text(), "0.300");
    assert_eq!(reading.formaldehyde.to_text(), "0.100");
    assert_eq!(reading.co2.to_text(), "150");
}

#[test]
fn decode_ignores_the_first_two_bytes_and_what_follows_the_eighth() {
    let a: [u8; 8] = [0, 0, 9, 8, 7, 6, 5, 4];
    let b: [u8; 12] = [255, 17, 9, 8, 7, 6, 5, 4, 1, 2, 3, 4];
    assert_eq!(decode(&a, 5), decode(&b, 5));
}

#[test]
fn decode_refuses_every_frame_shorter_than_eight_bytes() {
    let bytes: [u8; 7] = [1, 2, 3, 4, 5, 6, 7];
    let mut len: usize = 0;
    while len < 8 {
        assert_eq!(decode(&bytes[..len], 0), Err(DecodeError::TooShort { len }));
        len += 1;
    }
}

#[test]
fn decode_takes_a_frame_of_exactly_eight_bytes() {
    let frame: [u8; 8] = [0; 8];
    let reading = decode(&frame, 0).unwrap();
    assert_eq!(reading.co2.mantissa(), 0);
    assert_eq!(reading.captured_at, 0);
}

#[test]
fn decode_takes_a_full_buffer() {
    let mut buffer: Vec<u8> = vec![0; 1024];
    buffer[6] = 0x12;
    buffer[7] = 0x34;
    let reading = decode(&buffer, 42).unwrap();
    assert_eq!(reading.co2.mantissa(), 0x1234);
    assert_eq!(reading.tvoc.mantissa(), 0);
}

#[test]
fn decimal_value_is_made_of_mantissa_and_scale() {
    let v = DecimalValue::new(12345, 2).unwrap();
    assert_eq!(v.mantissa(), 12345);
    assert_eq!(v.scale(), 2);
    assert_eq!(v.to_text(), "123.45");
}

#[test]
fn decimal_value_refuses_negative_mantissa_and_large_scale() {
    assert_eq!(DecimalValue::new(-1, 0), None);
    assert_eq!(DecimalValue::new(1, 29), None);
    assert!(DecimalValue::new(0, 28).is_some());
    assert!(DecimalValue::new(i64::MAX, 0).is_some());
}

#[test]
fn decimal_text_has_one_zero_before_the_point() {
    assert_eq!(DecimalValue::new(5, 3).unwrap().to_text(), "0.005");
    assert_eq!(DecimalValue::new(0, 3).unwrap().to_text(), "0.000");
    assert_eq!(DecimalValue::new(0, 0).unwrap().to_text(), "0");
    assert_eq!(DecimalValue::new(7, 0).unwrap().to_text(), "7");
    assert_eq!(DecimalValue::new(1000, 3).unwrap().to_text(), "1.000");
    assert_eq!(DecimalValue::new(1, 28).unwrap().to_text(), "0.0000000000000000000000000001");
    assert_eq!(DecimalValue::new(i64::MAX, 0).unwrap().to_text(), "9223372036854775807");
    assert_eq!(DecimalValue::new(i64::MAX, 19).unwrap().to_text(), "0.9223372036854775807");
}

#[test]
fn whole_number_has_no_fraction() {
    let v = DecimalValue::whole(256);
    assert_eq!(v.mantissa(), 256);
    assert_eq!(v.scale(), 0);
    assert_eq!(DecimalValue::whole(u32::MAX).to_text(), "4294967295");
}
