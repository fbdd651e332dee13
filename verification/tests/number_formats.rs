use bear_lib_terminal::geometry::Size;
use bear_lib_terminal::textfmt::{
    bool_str, i32_dec_str, u32_dec_str, u32_hex_lower_str, u32_hex_upper_str,
};

#[test]
fn decimal_rendering() {
    assert_eq!(u32_dec_str(0), "0");
    assert_eq!(u32_dec_str(7), "7");
    assert_eq!(u32_dec_str(10), "10");
    assert_eq!(u32_dec_str(1234), "1234");
    assert_eq!(u32_dec_str(u32::MAX), "4294967295");
}

#[test]
fn signed_decimal_rendering() {
    assert_eq!(i32_dec_str(0), "0");
    assert_eq!(i32_dec_str(500), "500");
    assert_eq!(i32_dec_str(-56), "-56");
    assert_eq!(i32_dec_str(i32::MIN), "-2147483648");
    assert_eq!(i32_dec_str(i32::MAX), "2147483647");
}

#[test]
fn hexadecimal_rendering() {
    assert_eq!(u32_hex_lower_str(0), "0");
    assert_eq!(u32_hex_lower_str(0x5F), "5f");
    assert_eq!(u32_hex_lower_str(0xDEADBEEF), "deadbeef");
    assert_eq!(u32_hex_upper_str(0x5E), "5E");
    assert_eq!(u32_hex_upper_str(0xE000), "E000");
    assert_eq!(u32_hex_upper_str(15), "F");
}

#[test]
fn boolean_rendering() {
    assert_eq!(bool_str(true), "true");
    assert_eq!(bool_str(false), "false");
}

#[test]
fn size_rendering() {
    assert_eq!(Size::new(30, 40).config_str(), "30x40");
    assert_eq!(Size::new(0, 12).config_str(), "0x12");
    assert_eq!(Size { width: -1, height: 2 }.config_str(), "-1x2");
}
