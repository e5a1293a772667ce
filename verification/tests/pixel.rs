use mars::pixel::PixelData;
use mars::{Attributes, BlendMode, Color, IndexedColor, Pixel, Rgba};

#[test]
fn the_two_blank_cells_differ() {
    assert_ne!(Pixel::empty(), Pixel::dirty());
    assert_eq!(Pixel::default(), Pixel::empty());
    assert_eq!(Pixel::empty().background, Color::Default);
    assert_eq!(Pixel::dirty().background, Color::Rgba(Rgba(0xFF, 0x00, 0xFF, 0xFF)));
    assert_eq!(Pixel::empty(), Pixel::new(' '));
}

#[test]
fn the_mark_equals_no_cell_built_for_drawing() {
    let magenta = Color::Rgba(Rgba(0xFF, 0x00, 0xFF, 0xFF));
    let built = Pixel::new(' ').bg(magenta);
    assert_eq!(built.background, Pixel::dirty().background);
    assert_ne!(Pixel::dirty(), built);
    assert_ne!(Pixel::dirty(), Pixel::new(' ').fg(Color::Default).bg(magenta));
    assert_ne!(Pixel::dirty(), Pixel::new_str(" ").bg(magenta));
    assert_ne!(Pixel::dirty(), Pixel::const_str(" ").bg(magenta));
    let mut set = Pixel::empty();
    set.set_bg(magenta);
    set.set_fg(Color::Default);
    set.set_attribute(None);
    assert_ne!(Pixel::dirty(), set);
    assert!(Pixel::dirty().is_dirty());
    assert!(Pixel::dirty().clone().is_dirty());
    assert!(!built.is_dirty());
    assert!(!Pixel::empty().is_dirty());
    assert_eq!(Pixel::dirty(), Pixel::dirty());
    assert_eq!(Pixel::empty().merge_with(Pixel::new('x'), BlendMode::Blend).is_dirty(), false);
}

#[test]
fn cells_show_characters_and_short_texts() {
    assert_eq!(Pixel::new('x').text(), "x");
    assert_eq!(Pixel::new('x').data(), 'x');
    assert_eq!(Pixel::new_str("ab").text(), "ab");
    assert_eq!(Pixel::const_str("a text that is longer than a few bytes").text(), "a text that is longer than a few bytes");
    assert_eq!(Pixel::new_str("ab"), Pixel::const_str("ab"));
    assert_ne!(Pixel::new_str("ab"), Pixel::new_str("ac"));
    assert_ne!(Pixel::new_str("a"), Pixel::new('a'));
    assert!(matches!(Pixel::new_str("ab").data, PixelData::Str(_)));
}

#[test]
fn a_copy_equals_the_cell() {
    let cell = Pixel::new_str("ab").fg(Color::Named(IndexedColor::red()));
    let copy = cell.clone();
    assert_eq!(copy, cell);
    assert_eq!(copy.text(), "ab");
}

#[test]
fn colours_are_set() {
    let red = Color::Named(IndexedColor::red());
    let blue = Color::Named(IndexedColor::blue());
    let cell = Pixel::new('x').fg(red).bg(blue);
    assert_eq!(cell.foreground, red);
    assert_eq!(cell.background, blue);
    let mut other = Pixel::new('x');
    other.set_fg(red);
    other.set_bg(blue);
    assert_eq!(other, cell);
}

#[test]
fn attributes_are_added() {
    let mut cell = Pixel::new('x');
    cell.set_attribute(Some(Attributes::bold()));
    assert_eq!(cell.attributes, Some(Attributes::bold()));
    cell.set_attribute(Some(Attributes::italic()));
    assert_eq!(cell.attributes, Some(Attributes::bold() | Attributes::italic()));
    cell.set_attribute(None);
    assert_eq!(cell.attributes, None);
}

#[test]
fn merging_replaces() {
    let lower = Pixel::new('a').bg(Color::Rgba(Rgba(1, 2, 3, 255)));
    let upper = Pixel::new('b');
    assert_eq!(lower.clone().merge(upper.clone()), upper);
    let mut cell = lower.clone();
    cell.merge_mut(upper.clone());
    assert_eq!(cell, upper);
    assert_eq!(lower.merge_with(upper.clone(), BlendMode::Replace), upper);
}

#[test]
fn blending_mixes_colours_and_takes_the_upper_content() {
    let lower = Pixel::new('a')
        .fg(Color::Rgba(Rgba(0, 100, 200, 255)))
        .bg(Color::Named(IndexedColor(196)));
    let mut upper = Pixel::new('b')
        .fg(Color::Rgba(Rgba(200, 100, 0, 128)))
        .bg(Color::Transparent);
    upper.set_attribute(Some(Attributes::bold()));
    let merged = lower.merge_with(upper, BlendMode::Blend);
    assert_eq!(merged.text(), "b");
    assert_eq!(merged.attributes, Some(Attributes::bold()));
    assert_eq!(merged.foreground, Color::Rgba(Rgba(100, 100, 99, 128)));
    assert_eq!(merged.background, Color::Named(IndexedColor(196)));
}

#[test]
fn blending_one_colour() {
    let explicit = Color::Rgba(Rgba(10, 20, 30, 255));
    let clear = Color::Rgba(Rgba(10, 20, 30, 0));
    let named = Color::Named(IndexedColor(196));
    assert_eq!(Pixel::blend_color(explicit, Color::Transparent), explicit);
    assert_eq!(Pixel::blend_color(explicit, Color::Default), Color::Default);
    assert_eq!(Pixel::blend_color(Color::Default, explicit), explicit);
    assert_eq!(Pixel::blend_color(named, clear), Color::Rgba(Rgba(255, 0, 0, 255)));
    assert_eq!(Pixel::blend_color(explicit, named), Color::Rgba(Rgba(255, 0, 0, 255)));
}
