use piet_stdweb::css::{format_color, push_decimal, push_fixed_digits};

fn decimal_string(n: u32) -> String {
    let mut s = String::new();
    push_decimal(&mut s, n);
    s
}

#[test]
fn opaque_colors_are_hex() {
    assert_eq!(format_color(0xff0000ff), "#ff0000");
    assert_eq!(format_color(0x123456ff), "#123456");
    assert_eq!(format_color(0x000000ff), "#000000");
    assert_eq!(format_color(0xabcdefff), "#abcdef");
    assert_eq!(format_color(0xffffffff), "#ffffff");
}

#[test]
fn translucent_colors_are_rgba() {
    assert_eq!(format_color(0x11223380), "rgba(17,34,51,0.502)");
    assert_eq!(format_color(0x00000000), "rgba(0,0,0,0.000)");
    assert_eq!(format_color(0xff8000fe), "rgba(255,128,0,0.996)");
    assert_eq!(format_color(0x0a0b0c01), "rgba(10,11,12,0.004)");
}

#[test]
fn alpha_text_matches_three_decimals_of_a_fraction_of_255() {
    let mut a: u32 = 0;
    while a < 255 {
        let frac: f64 = f64::from(a) * (1.0 / 255.0);
        let expected = format!("rgba(200,7,99,{:.3})", frac);
        assert_eq!(format_color(0xc8076300 | a), expected);
        a += 1;
    }
}

#[test]
fn decimal_text_of_numbers() {
    assert_eq!(decimal_string(0), "0");
    assert_eq!(decimal_string(7), "7");
    assert_eq!(decimal_string(10), "10");
    assert_eq!(decimal_string(400), "400");
    assert_eq!(decimal_string(u32::MAX), "4294967295");
}

#[test]
fn every_opaque_grey_is_hex() {
    for g in 0u32..256 {
        let rgba = (g << 24) | (g << 16) | (g << 8) | 0xff;
        assert_eq!(format_color(rgba), format!("#{:06x}", rgba >> 8));
    }
}

#[test]
fn distinct_colors_have_distinct_text() {
    let mut seen = std::collections::HashSet::new();
    for a in 0u32..256 {
        assert!(seen.insert(format_color(0x10203000 | a)));
        assert!(seen.insert(format_color(0x01020300 | a)));
    }
    assert_ne!(format_color(0x010203ff), format_color(0x01020300));
    assert_ne!(format_color(0x11111180), format_color(0x11111181));
}

#[test]
fn fixed_digits_are_zero_padded() {
    let mut s = String::from("x");
    push_fixed_digits(&mut s, 0xab, 16, 6);
    assert_eq!(s, "x0000ab");
    let mut t = String::new();
    push_fixed_digits(&mut t, 1234, 10, 3);
    assert_eq!(t, "234");
}
