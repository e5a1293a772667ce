//! The 256-colour terminal palette and the conversions between it, the
//! 16-colour palette and RGB.

use vstd::prelude::*;

verus! {

/// The RGB value of each entry of the 256-colour palette, as `0xRRGGBB`.
pub const COLOR_256: [u32; 256] = [
    0x000000, 0x800000, 0x008000, 0x808000, 0x0000EE, 0x800080, 0x008080, 0xC0C0C0,
    0x808080, 0xFF6600, 0x00FF00, 0xFFFF00, 0x6699FF, 0xFF00FF, 0x00FFFF, 0xFFFFFF,
    0x000000, 0x00005F, 0x000087, 0x0000AF, 0x0000D7, 0x0000FF, 0x005F00, 0x005F5F,
    0x005F87, 0x005FAF, 0x005FD7, 0x005FFF, 0x008700, 0x00875F, 0x008787, 0x0087AF,
    0x0087D7, 0x0087FF, 0x00AF00, 0x00AF5F, 0x00AF87, 0x00AFAF, 0x00AFD7, 0x00AFFF,
    0x00D700, 0x00D75F, 0x00D787, 0x00D7AF, 0x00D7D7, 0x00D7FF, 0x00FF00, 0x00FF5F,
    0x00FF87, 0x00FFAF, 0x00FFD7, 0x00FFFF, 0x5F0000, 0x5F005F, 0x5F0087, 0x5F00AF,
    0x5F00D7, 0x5F00FF, 0x5F5F00, 0x5F5F5F, 0x5F5F87, 0x5F5FAF, 0x5F5FD7, 0x5F5FFF,
    0x5F8700, 0x5F875F, 0x5F8787, 0x5F87AF, 0x5F87D7, 0x5F87FF, 0x5FAF00, 0x5FAF5F,
    0x5FAF87, 0x5FAFAF, 0x5FAFD7, 0x5FAFFF, 0x5FD700, 0x5FD75F, 0x5FD787, 0x5FD7AF,
    0x5FD7D7, 0x5FD7FF, 0x5FFF00, 0x5FFF5F, 0x5FFF87, 0x5FFFAF, 0x5FFFD7, 0x5FFFFF,
    0x870000, 0x87005F, 0x870087, 0x8700AF, 0x8700D7, 0x8700FF, 0x875F00, 0x875F5F,
    0x875F87, 0x875FAF, 0x875FD7, 0x875FFF, 0x878700, 0x87875F, 0x878787, 0x8787AF,
    0x8787D7, 0x8787FF, 0x87AF00, 0x87AF5F, 0x87AF87, 0x87AFAF, 0x87AFD7, 0x87AFFF,
    0x87D700, 0x87D75F, 0x87D787, 0x87D7AF, 0x87D7D7, 0x87D7FF, 0x87FF00, 0x87FF5F,
    0x87FF87, 0x87FFAF, 0x87FFD7, 0x87FFFF, 0xAF0000, 0xAF005F, 0xAF0087, 0xAF00AF,
    0xAF00D7, 0xAF00FF, 0xAF5F00, 0xAF5F5F, 0xAF5F87, 0xAF5FAF, 0xAF5FD7, 0xAF5FFF,
    0xAF8700, 0xAF875F, 0xAF8787, 0xAF87AF, 0xAF87D7, 0xAF87FF, 0xAFAF00, 0xAFAF5F,
    0xAFAF87, 0xAFAFAF, 0xAFAFD7, 0xAFAFFF, 0xAFD700, 0xAFD75F, 0xAFD787, 0xAFD7AF,
    0xAFD7D7, 0xAFD7FF, 0xAFFF00, 0xAFFF5F, 0xAFFF87, 0xAFFFAF, 0xAFFFD7, 0xAFFFFF,
    0xD70000, 0xD7005F, 0xD70087, 0xD700AF, 0xD700D7, 0xD700FF, 0xD75F00, 0xD75F5F,
    0xD75F87, 0xD75FAF, 0xD75FD7, 0xD75FFF, 0xD78700, 0xD7875F, 0xD78787, 0xD787AF,
    0xD787D7, 0xD787FF, 0xD7AF00, 0xD7AF5F, 0xD7AF87, 0xD7AFAF, 0xD7AFD7, 0xD7AFFF,
    0xD7D700, 0xD7D75F, 0xD7D787, 0xD7D7AF, 0xD7D7D7, 0xD7D7FF, 0xD7FF00, 0xD7FF5F,
    0xD7FF87, 0xD7FFAF, 0xD7FFD7, 0xD7FFFF, 0xFF0000, 0xFF005F, 0xFF0087, 0xFF00AF,
    0xFF00D7, 0xFF00FF, 0xFF5F00, 0xFF5F5F, 0xFF5F87, 0xFF5FAF, 0xFF5FD7, 0xFF5FFF,
    0xFF8700, 0xFF875F, 0xFF8787, 0xFF87AF, 0xFF87D7, 0xFF87FF, 0xFFAF00, 0xFFAF5F,
    0xFFAF87, 0xFFAFAF, 0xFFAFD7, 0xFFAFFF, 0xFFD700, 0xFFD75F, 0xFFD787, 0xFFD7AF,
    0xFFD7D7, 0xFFD7FF, 0xFFFF00, 0xFFFF5F, 0xFFFF87, 0xFFFFAF, 0xFFFFD7, 0xFFFFFF,
    0x080808, 0x121212, 0x1C1C1C, 0x262626, 0x303030, 0x3A3A3A, 0x444444, 0x4E4E4E,
    0x585858, 0x626262, 0x6C6C6C, 0x767676, 0x808080, 0x8A8A8A, 0x949494, 0x9E9E9E,
    0xA8A8A8, 0xB2B2B2, 0xBCBCBC, 0xC6C6C6, 0xD0D0D0, 0xDADADA, 0xE4E4E4, 0xEEEEEE,
];

/// Whether a channel of this strength counts as present in the 16-colour
/// palette.
pub open spec fn channel_on(c: u8) -> bool {
    c >= 80
}

/// Whether a channel of this strength makes the colour a bright one.
pub open spec fn channel_high(c: u8) -> bool {
    c >= 180
}

/// Whether a channel is at full strength for its half of the palette: very
/// strong, or present without being bright.
pub open spec fn channel_full(c: u8) -> bool {
    c >= 230 || (80 <= c < 180)
}

/// The entry of the 16-colour palette nearest to an RGB colour.
///
/// Bit 0 is red, bit 1 green, bit 2 blue, bit 3 brightness. Two corrections
/// keep the greys apart: a bright white whose channels are not all at full
/// strength is light grey (7), and a dark white is dark grey (8).
pub open spec fn spec_rgb_to_4bit(r: u8, g: u8, b: u8) -> int {
    let v = (if channel_on(r) { 1int } else { 0 }) + (if channel_on(g) { 2int } else { 0 }) + (if channel_on(b) { 4int } else { 0 })
        + (if channel_high(r) || channel_high(g) || channel_high(b) { 8int } else { 0 });
    if v == 15 && !(channel_full(r) && channel_full(g) && channel_full(b)) {
        7
    } else if v == 7 {
        8
    } else {
        v
    }
}

/// The red, green and blue parts of a palette entry.
pub open spec fn spec_ansi_to_rgb(ansi: u8) -> (u8, u8, u8) {
    let c = COLOR_256[ansi as int];
    ((c / 0x10000 % 0x100) as u8, (c / 0x100 % 0x100) as u8, (c % 0x100) as u8)
}

/// The entry of the 24-step grey ramp for a grey of strength `c`; the
/// brightest greys share the last entry.
pub open spec fn spec_color256_to_ansi_grey(c: u8) -> int {
    if 232 + c / 10 <= 255 {
        232 + c / 10
    } else {
        255
    }
}

/// The entry of the 6x6x6 colour cube for an RGB colour.
pub open spec fn spec_rgb_to_ansi_index(r: u8, g: u8, b: u8) -> int {
    16 + 36 * (r / 51) + 6 * (g / 51) + b / 51
}

/// The palette entry that stands for an RGB colour: a 16-colour entry where
/// one matches exactly, else a grey of the ramp for a grey, else an entry of
/// the colour cube.
pub open spec fn spec_rgb_to_ansi(r: u8, g: u8, b: u8) -> int {
    let c = spec_rgb_to_4bit(r, g, b);
    if spec_ansi_to_rgb(c as u8) == (r, g, b) {
        c
    } else if r == g && g == b {
        spec_color256_to_ansi_grey(r)
    } else {
        spec_rgb_to_ansi_index(r, g, b)
    }
}

/// The entry of the 16-colour palette for an entry of the 256-colour one.
pub open spec fn spec_ansi_to_4bit(ansi: u8) -> int {
    if ansi < 16 {
        ansi as int
    } else {
        let (r, g, b) = spec_ansi_to_rgb(ansi);
        spec_rgb_to_4bit(r, g, b)
    }
}

/// For one channel: whether it makes the colour bright, and whether it is at
/// full strength for its half of the palette.
fn extract(c: u8) -> (r: (u8, u8))
    ensures
        r.0 == (if channel_high(c) { 1int } else { 0 }),
        r.1 == (if channel_full(c) { 1int } else { 0 }),
{
    if c >= 230 {
        (1, 1)
    } else if c >= 180 {
        (1, 0)
    } else if c >= 80 {
        (0, 1)
    } else {
        (0, 0)
    }
}

/// The entry of the 16-colour palette nearest to an RGB colour.
pub fn rgb_to_4bit(r: u8, g: u8, b: u8) -> (out: u8)
    ensures
        out == spec_rgb_to_4bit(r, g, b),
        out < 16,
{
    let (hr, lr) = extract(r);
    let (hg, lg) = extract(g);
    let (hb, lb) = extract(b);

    let v: u8 = lr | hr | (lg << 1) | (hg << 1) | (lb << 2) | (hb << 2) | ((hr | hg | hb) << 3);
    assert(v == (if lr == 1 || hr == 1 { 1int } else { 0 }) + (if lg == 1 || hg == 1 { 2int } else { 0 }) + (if lb == 1 || hb == 1 { 4int } else { 0 }) + (if hr == 1 || hg == 1 || hb == 1 { 8int } else { 0 })) by (bit_vector)
        requires
            v == lr | hr | (lg << 1) | (hg << 1) | (lb << 2) | (hb << 2) | ((hr | hg | hb) << 3),
            lr <= 1,
            hr <= 1,
            lg <= 1,
            hg <= 1,
            lb <= 1,
            hb <= 1,
    ;
    let all_full: u8 = lr & lg & lb;
    assert(all_full == 0 <==> !(lr == 1 && lg == 1 && lb == 1)) by (bit_vector)
        requires
            all_full == lr & lg & lb,
            lr <= 1,
            lg <= 1,
            lb <= 1,
    ;
    if v == 0b1111 && all_full == 0 {
        7
    } else if v == 0b0111 {
        8
    } else {
        v
    }
}

/// The entry of the 256-colour palette that stands for an RGB colour.
pub fn rgb_to_ansi(r: u8, g: u8, b: u8) -> (out: u8)
    ensures
        out == spec_rgb_to_ansi(r, g, b),
{
    let c: u8 = rgb_to_4bit(r, g, b);
    let (pr, pg, pb) = ansi_to_rgb(c);
    if r == pr && g == pg && b == pb {
        c
    } else if r == g && g == b {
        color256_to_ansi_grey(r)
    } else {
        rgb_to_ansi_index(r, g, b)
    }
}

/// The entry of the 16-colour palette for an entry of the 256-colour one.
pub fn ansi_to_4bit(ansi: u8) -> (out: u8)
    ensures
        out == spec_ansi_to_4bit(ansi),
        out < 16,
{
    if ansi < 16 {
        return ansi;
    }
    let (r, g, b) = ansi_to_rgb(ansi);
    rgb_to_4bit(r, g, b)
}

/// The red, green and blue parts of a palette entry.
pub fn ansi_to_rgb(ansi: u8) -> (out: (u8, u8, u8))
    ensures
        out == spec_ansi_to_rgb(ansi),
{
    let c: u32 = COLOR_256[ansi as usize];
    let r: u8 = (c >> 16) as u8;
    let g: u8 = (c >> 8) as u8;
    let b: u8 = c as u8;
    assert(r == c / 0x10000 % 0x100 && g == c / 0x100 % 0x100 && b == c % 0x100) by (bit_vector)
        requires
            r == (c >> 16) as u8,
            g == (c >> 8) as u8,
            b == c as u8,
    ;
    (r, g, b)
}

fn color256_to_ansi_grey(c: u8) -> (out: u8)
    ensures
        out == spec_color256_to_ansi_grey(c),
{
    match 232u8.checked_add(c / 10) {
        Some(c) => c,
        None => 255,
    }
}

fn rgb_to_ansi_index(r: u8, g: u8, b: u8) -> (out: u8)
    ensures
        out == spec_rgb_to_ansi_index(r, g, b),
{
    16 + 36 * (r / 51) + 6 * (g / 51) + (b / 51)
}

} // verus!
