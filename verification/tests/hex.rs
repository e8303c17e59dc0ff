use bno055::BNO055Calibration;
use open_pi_scope::helpers::{
    calib_buffer, calib_from_hex, calib_to_hex, hex_decode, hex_encode, is_hex, vec_to_calib,
    CALIB_SIZE,
};

#[test]
fn bytes_are_written_as_two_lower_case_digits() {
    assert_eq!(hex_encode(&[]), "");
    assert_eq!(hex_encode(&[0x00, 0x0f, 0x10, 0xff, 0x1a, 0xa1]), "000f10ff1aa1");
    let all: Vec<u8> = (0..=255).collect();
    let text = hex_encode(&all);
    assert_eq!(text.len(), 512);
    assert_eq!(&text[0..8], "00010203");
    assert_eq!(&text[504..512], "fcfdfeff");
}

#[test]
fn hexadecimal_text_is_read_in_either_case() {
    assert_eq!(hex_decode(""), Vec::<u8>::new());
    assert_eq!(hex_decode("000f10ff1aa1"), vec![0x00, 0x0f, 0x10, 0xff, 0x1a, 0xa1]);
    assert_eq!(hex_decode("DEADbeEF"), vec![0xde, 0xad, 0xbe, 0xef]);
}

#[test]
fn plus_sign_may_stand_for_the_high_digit() {
    assert!(is_hex("+a"));
    assert_eq!(hex_decode("+a+0+F"), vec![10, 0, 15]);
    assert!(!is_hex("a+"));
    assert!(!is_hex("++"));
    assert!(!is_hex("-a"));
}

#[test]
fn text_that_is_not_hexadecimal_is_told_apart() {
    assert!(is_hex(""));
    assert!(is_hex("00"));
    assert!(is_hex("09afAF"));
    assert!(!is_hex("0"));
    assert!(!is_hex("000"));
    assert!(!is_hex("0g"));
    assert!(!is_hex("g0"));
    assert!(!is_hex(" 0"));
    assert!(!is_hex("0x"));
    assert!(!is_hex("é"));
    assert!(!is_hex("0é0"));
    assert!(!is_hex("/0"));
    assert!(!is_hex(":0"));
    assert!(!is_hex("@0"));
    assert!(!is_hex("G0"));
    assert!(!is_hex("`0"));
}

#[test]
fn bytes_written_are_read_again() {
    let all: Vec<u8> = (0..=255).rev().collect();
    let text = hex_encode(&all);
    assert!(is_hex(&text));
    assert_eq!(hex_decode(&text), all);
}

#[test]
fn calibration_buffer_is_cut_or_filled_with_zeros() {
    assert_eq!(CALIB_SIZE, 22);
    assert_eq!(calib_buffer(&vec![]), [0u8; 22]);
    let short = calib_buffer(&vec![1, 2, 3]);
    assert_eq!(&short[0..3], &[1, 2, 3]);
    assert_eq!(&short[3..], &[0u8; 19]);
    let long: Vec<u8> = (1..=30).collect();
    let cut = calib_buffer(&long);
    assert_eq!(cut.to_vec(), (1..=22).collect::<Vec<u8>>());
}

#[test]
fn calibration_profile_holds_the_bytes_in_register_order() {
    let bytes: Vec<u8> = (1..=22).collect();
    let calib: BNO055Calibration = vec_to_calib(bytes.clone());
    assert_eq!(calib.as_bytes(), &bytes[..]);
    assert_eq!(calib.acc_offset_x_lsb, 1);
    assert_eq!(calib.acc_offset_x_msb, 2);
    assert_eq!(calib.mag_offset_x_lsb, 7);
    assert_eq!(calib.gyr_offset_z_msb, 18);
    assert_eq!(calib.mag_radius_msb, 22);
    let short = vec_to_calib(vec![9, 8]);
    assert_eq!(short.acc_offset_x_lsb, 9);
    assert_eq!(short.acc_offset_x_msb, 8);
    assert_eq!(short.acc_offset_y_lsb, 0);
    assert_eq!(short.mag_radius_msb, 0);
}

#[test]
fn calibration_profile_as_text() {
    let text = "0102030405060708090a0b0c0d0e0f10111213141516";
    let calib = calib_from_hex(text);
    assert_eq!(calib.acc_offset_x_lsb, 1);
    assert_eq!(calib.mag_radius_msb, 0x16);
    assert_eq!(calib_to_hex(&calib), text);
    assert_eq!(calib_to_hex(&calib_from_hex("ff")), "ff000000000000000000000000000000000000000000");
    let long = calib_from_hex("0102030405060708090a0b0c0d0e0f101112131415161718");
    assert_eq!(calib_to_hex(&long), text);
}
