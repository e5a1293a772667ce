use mars::color::color_helpers::{ansi_to_4bit, ansi_to_rgb, rgb_to_4bit, rgb_to_ansi};
use mars::color::hex::HexError;
use mars::{Color, IndexedColor, Rgba};

#[test]
fn hex_reads_six_digits() {
    let c = Rgba::hex("#1a2b3c");
    assert_eq!(c.red(), 0x1a);
    assert_eq!(c.green(), 0x2b);
    assert_eq!(c.blue(), 0x3c);
    assert_eq!(c.alpha(), 0xff);
}

#[test]
fn hex_expands_three_digits() {
    assert_eq!(Rgba::hex("#abc"), Rgba(0xaa, 0xbb, 0xcc, 0xff));
    assert_eq!(Rgba::hex("#abc"), Rgba::hex("#aabbcc"));
}

#[test]
fn hex_reads_alpha_forms() {
    assert_eq!(Rgba::hex("#abcd"), Rgba(0xaa, 0xbb, 0xcc, 0xdd));
    assert_eq!(Rgba::hex("#01020304"), Rgba(1, 2, 3, 4));
    assert_eq!(Rgba::hex("#ABCDEF"), Rgba(0xab, 0xcd, 0xef, 0xff));
}

#[test]
fn hex_allows_surrounding_white_space() {
    assert_eq!(Rgba::try_hex("  \t#538\r\n"), Ok(Rgba(0x55, 0x33, 0x88, 0xff)));
}

#[test]
fn hex_rejects_what_is_no_colour() {
    assert_eq!(Rgba::try_hex(""), Err(HexError::Empty));
    assert_eq!(Rgba::try_hex(" \n "), Err(HexError::Empty));
    assert_eq!(Rgba::try_hex("abc"), Err(HexError::MissingPrefix));
    assert_eq!(Rgba::try_hex("#ab"), Err(HexError::InvalidLength));
    assert_eq!(Rgba::try_hex("#abcde"), Err(HexError::InvalidLength));
    assert_eq!(Rgba::try_hex("#abcdef012"), Err(HexError::InvalidLength));
    assert_eq!(Rgba::try_hex("#12x"), Err(HexError::InvalidDigit));
    assert_eq!(Rgba::try_hex("#fff rest"), Err(HexError::InvalidDigit));
    assert_eq!(Rgba::try_hex("#fff x"), Err(HexError::InvalidLength));
    assert_eq!(Rgba::try_hex("#ff f"), Err(HexError::InvalidDigit));
    assert_eq!(Rgba::try_hex("#\u{e9}1"), Err(HexError::InvalidLength));
}

#[test]
fn from_u32_reads_three_and_four_digits() {
    assert_eq!(Rgba::from_u32(0xF80), Rgba(0xFF, 0x88, 0x00, 0xFF));
    assert_eq!(Rgba::from_u32(0x1234), Rgba(0x11, 0x22, 0x33, 0x44));
    assert_eq!(Rgba::from_u32(0x0000), Rgba(0, 0, 0, 0xFF));
}

#[test]
fn blend_alpha_boundaries() {
    let below = Rgba(10, 20, 30, 40);
    assert_eq!(Rgba(200, 100, 0, 0).blend_alpha(below), below);
    assert_eq!(Rgba(200, 100, 0, 255).blend_alpha(below), Rgba(200, 100, 0, 255));
}

#[test]
fn blend_alpha_mixes_by_the_upper_alpha() {
    let mixed = Rgba(200, 100, 0, 128).blend_alpha(Rgba(0, 100, 200, 255));
    assert_eq!(mixed, Rgba(100, 100, 99, 128));
}

#[test]
fn colour_blend_needs_two_explicit_colours() {
    let upper = Color::Rgba(Rgba(255, 255, 255, 0));
    let lower = Color::Rgba(Rgba(1, 2, 3, 255));
    assert_eq!(upper.blend(lower), lower);
    let named = Color::Named(IndexedColor::red());
    assert_eq!(named.blend(lower), named);
    assert_eq!(upper.blend(Color::Default), upper);
}

#[test]
fn get_or_default_keeps_named_colours() {
    let red = Color::Named(IndexedColor::red());
    assert_eq!(red.get_or_default(Color::Default), red);
    assert_eq!(Color::Default.get_or_default(red), red);
    assert_eq!(Color::Transparent.get_or_default(red), red);
    let explicit = Color::Rgba(Rgba(1, 2, 3, 4));
    assert_eq!(explicit.get_or_default(red), explicit);
}

#[test]
fn colour_arithmetic() {
    let a = Rgba(200, 100, 0, 10);
    let b = Rgba(100, 100, 255, 20);
    assert_eq!(a + b, Rgba(255, 200, 255, 20));
    assert_eq!(a - b, Rgba(100, 0, 0, 20));
    assert_eq!(a * b, Rgba(78, 39, 0, 20));
    assert_eq!(a / b, Rgba(222, 161, 255, 20));
    assert_eq!(a ^ b, Rgba(200 ^ 100, 0, 255, 20));
}

#[test]
fn colours_convert() {
    assert_eq!(Color::from(Rgba(1, 2, 3, 4)), Color::Rgba(Rgba(1, 2, 3, 4)));
    assert_eq!(Color::from(IndexedColor(7)), Color::Named(IndexedColor(7)));
    assert_eq!(Color::from(None::<Rgba>), Color::Default);
    assert_eq!(Color::from(Some(IndexedColor(7))), Color::Named(IndexedColor(7)));
    assert_eq!(Color::default(), Color::Default);
}

#[test]
fn palette_names() {
    assert_eq!(IndexedColor::black(), IndexedColor(0));
    assert_eq!(IndexedColor::red(), IndexedColor(1));
    assert_eq!(IndexedColor::green(), IndexedColor(2));
    assert_eq!(IndexedColor::yellow(), IndexedColor(3));
    assert_eq!(IndexedColor::blue(), IndexedColor(4));
    assert_eq!(IndexedColor::magenta(), IndexedColor(5));
    assert_eq!(IndexedColor::cyan(), IndexedColor(6));
    assert_eq!(IndexedColor::light_grey(), IndexedColor(7));
    assert_eq!(IndexedColor::grey(), IndexedColor(8));
    assert_eq!(IndexedColor::light_red(), IndexedColor(9));
    assert_eq!(IndexedColor::light_green(), IndexedColor(10));
    assert_eq!(IndexedColor::light_yellow(), IndexedColor(11));
    assert_eq!(IndexedColor::light_blue(), IndexedColor(12));
    assert_eq!(IndexedColor::light_magenta(), IndexedColor(13));
    assert_eq!(IndexedColor::light_cyan(), IndexedColor(14));
    assert_eq!(IndexedColor::white(), IndexedColor(15));
    assert_eq!(IndexedColor::new(200).to_8bit(), 200);
}

#[test]
fn palette_conversions() {
    assert_eq!(ansi_to_rgb(0), (0, 0, 0));
    assert_eq!(ansi_to_rgb(9), (0xFF, 0x66, 0x00));
    assert_eq!(ansi_to_rgb(196), (0xFF, 0, 0));
    assert_eq!(ansi_to_rgb(255), (0xEE, 0xEE, 0xEE));
    assert_eq!(rgb_to_4bit(0, 0, 0), 0);
    assert_eq!(rgb_to_4bit(255, 255, 255), 15);
    assert_eq!(rgb_to_4bit(200, 200, 200), 7);
    assert_eq!(rgb_to_4bit(128, 128, 128), 8);
    assert_eq!(rgb_to_4bit(255, 0, 0), 9);
    assert_eq!(rgb_to_4bit(100, 0, 0), 1);
    assert_eq!(rgb_to_ansi(0, 0, 0), 0);
    assert_eq!(rgb_to_ansi(255, 255, 255), 15);
    assert_eq!(rgb_to_ansi(128, 128, 128), 8);
    assert_eq!(rgb_to_ansi(10, 10, 10), 233);
    assert_eq!(rgb_to_ansi(250, 250, 250), 255);
    assert_eq!(rgb_to_ansi(255, 0, 0), 196);
    assert_eq!(rgb_to_ansi(0, 95, 135), 16 + 6 + 2);
    assert_eq!(ansi_to_4bit(3), 3);
    assert_eq!(ansi_to_4bit(196), 9);
}

#[test]
fn indexed_colour_conversions() {
    assert_eq!(IndexedColor::approximate_rgb(255, 0, 0), IndexedColor(196));
    assert_eq!(IndexedColor(196).to_4bit(), 9);
    assert_eq!(IndexedColor(196).to_3bit(), 1);
    assert_eq!(IndexedColor(12).to_rgb(), Rgba(0x66, 0x99, 0xFF, 0xFF));
}

#[test]
fn colours_as_hexadecimal_text() {
    assert_eq!(Rgba(0xAB, 0x01, 0xF0, 0x9C).upper_hex(), "#AB01F09C");
    assert_eq!(Rgba(0xAB, 0x01, 0xF0, 0x9C).lower_hex(), "#ab01f09c");
    assert_eq!(Rgba::hex(&Rgba(1, 2, 3, 4).lower_hex()), Rgba(1, 2, 3, 4));
}
