use premium::glyphs::lookup;
use premium::premium::glyph;
use premium::ssh1106::Ssh1106;
use premium::{Measure, Premium, Rotate, Surface};

/// The pixels that are lit on a display, row by row.
fn lit(display: &Ssh1106) -> Vec<(i32, i32)> {
    let buffer = display.buffer();
    let mut pixels = Vec::new();
    for y in 0..64 {
        for x in 0..128 {
            if buffer[(y / 8) * 129 + 1 + x] & (1 << (y % 8)) != 0 {
                pixels.push((x as i32, y as i32));
            }
        }
    }
    pixels
}

/// Lights the set bits of some rows, the last of which lies `offset` rows
/// below the row above the baseline.
fn stamp(display: &mut Ssh1106, x: i32, y: i32, rows: &[u16], offset: i32) {
    let h = rows.len() as i32;
    for (i, row) in rows.iter().enumerate() {
        for j in 0..16 {
            if row & (1 << (15 - j)) != 0 {
                display.pixel(x + j - 2, y - h + offset + i as i32);
            }
        }
    }
}

const KNOWN: &str = "ABCDEFGHIJKLMNOPQRSTUVWXYZabcdefghijklmnopqrstuvwxyz0123456789.,:;!?'_+-/\\()<>[]{}°ÄÖÜäöüß$€ ";

#[test]
fn measuring_ab_gives_14() {
    assert_eq!(Measure.premium(0, 0, "AB"), 14);
}

#[test]
fn width_is_the_advances_and_the_gaps() {
    assert_eq!(Measure.premium(0, 0, ""), 0);
    assert_eq!(Measure.premium(0, 0, "A"), 6);
    assert_eq!(Measure.premium(0, 0, " "), 2);
    assert_eq!(Measure.premium(0, 0, "A B"), 6 + 2 + 2 + 2 + 6);
    assert_eq!(Measure.premium(0, 0, "I.m"), 2 + 2 + 2 + 2 + 10);
    assert_eq!(Measure.premium(5, -7, "AB"), 14);
}

#[test]
fn width_is_the_same_on_every_surface() {
    for text in ["", "A", "Hello, World!", "x\u{1}y", "€ 12.50"] {
        let measured = Measure.premium(0, 0, text);
        assert_eq!(Ssh1106::new().premium(3, 30, text), measured);
        assert_eq!(Rotate::by90(Ssh1106::new()).premium(-40, 1000, text), measured);
        assert_eq!(Rotate::by180(Measure).premium(0, 0, text), measured);
    }
}

#[test]
fn unknown_character_moves_the_pen_two_pixels_back() {
    assert_eq!(Measure.premium(0, 0, "\u{1}"), -2);
    assert_eq!(Measure.premium(0, 0, "\u{1}\u{2}"), -2);
    assert_eq!(Measure.premium(0, 0, "A\u{1}"), 6);
    assert_eq!(Measure.premium(0, 0, "A\u{1}B"), 14);
    assert_eq!(Measure.premium(0, 0, "\u{1}A"), 6);
    let mut with = Ssh1106::new();
    with.premium(10, 20, "A\u{1}B");
    let mut without = Ssh1106::new();
    without.premium(10, 20, "AB");
    assert_eq!(with.buffer(), without.buffer());
    let mut display = Ssh1106::new();
    display.premium(10, 20, "\u{1}");
    assert_eq!(lit(&display), vec![]);
}

#[test]
fn lookup_knows_the_typeface() {
    let (rows, advance, offset) = lookup('A');
    assert_eq!(
        rows,
        &[
            0b0001111000000000,
            0b0011001100000000,
            0b0011001100000000,
            0b0011001100000000,
            0b0011111100000000,
            0b0011001100000000,
            0b0011001100000000,
            0b0011001100000000,
            0b0011001100000000,
        ]
    );
    assert_eq!((advance, offset), (6, 0));
    assert_eq!(lookup('.'), (&[0b0011000000000000u16, 0b0011000000000000][..], 2, 0));
    assert_eq!(lookup('_'), (&[0b0011111000000000u16][..], 5, 0));
    assert_eq!(lookup('-'), (&[0b0011111000000000u16][..], 5, -3));
    assert_eq!(lookup(' '), (&[][..], 2, 0));
    assert_eq!(lookup('\u{1}'), (&[][..], -2, 0));
    assert_eq!(lookup('é'), (&[][..], -2, 0));
    let (rows, advance, _) = lookup('€');
    assert_eq!((rows.len(), rows[0], advance), (9, 0b0000111100000000, 7));
    for c in KNOWN.chars() {
        let (rows, advance, offset) = lookup(c);
        assert!(rows.len() <= 11 && (2..=10).contains(&advance) && (-6..=3).contains(&offset));
        assert!(c == ' ' || !rows.is_empty());
    }
}

#[test]
fn glyph_lights_the_set_bits_of_its_rows() {
    let mut display = Ssh1106::new();
    assert_eq!(glyph(&mut display, 10, 20, '.'), 2);
    assert_eq!(lit(&display), vec![(10, 18), (11, 18), (10, 19), (11, 19)]);
    let mut display = Ssh1106::new();
    assert_eq!(glyph(&mut display, 10, 20, '-'), 5);
    assert_eq!(lit(&display), vec![(10, 16), (11, 16), (12, 16), (13, 16), (14, 16)]);
    let mut display = Ssh1106::new();
    assert_eq!(glyph(&mut display, 10, 20, '_'), 5);
    assert_eq!(lit(&display), vec![(10, 19), (11, 19), (12, 19), (13, 19), (14, 19)]);
}

#[test]
fn glyph_of_every_character_is_its_bitmap() {
    for c in KNOWN.chars() {
        let (rows, advance, offset) = lookup(c);
        let mut display = Ssh1106::new();
        assert_eq!(glyph(&mut display, 40, 30, c), advance);
        let mut expected = Ssh1106::new();
        stamp(&mut expected, 40, 30, rows, offset);
        assert_eq!(display.buffer(), expected.buffer(), "glyph of {c}");
    }
}

#[test]
fn glyph_is_clipped_to_the_surface() {
    let mut display = Ssh1106::new();
    assert_eq!(glyph(&mut display, 0, 1, 'A'), 6);
    assert_eq!(lit(&display), vec![(0, 0), (1, 0), (4, 0), (5, 0)]);
    let mut display = Ssh1106::new();
    assert_eq!(glyph(&mut display, -0x1_0000_0000, i32::MIN, 'A'), 6);
    assert_eq!(glyph(&mut display, 0x1_0000_0000, i32::MAX, 'g'), lookup('g').1);
    assert_eq!(glyph(&mut display, i32::MAX as i64, 5, 'A'), 6);
    assert_eq!(lit(&display), vec![]);
}

#[test]
fn text_is_its_glyphs_two_pixels_apart() {
    let mut display = Ssh1106::new();
    assert_eq!(display.premium(10, 40, "Ag."), 6 + 2 + lookup('g').1 + 2 + 2);
    let mut expected = Ssh1106::new();
    let mut pen = 10;
    for c in "Ag.".chars() {
        let (rows, advance, offset) = lookup(c);
        stamp(&mut expected, pen, 40, rows, offset);
        pen += advance + 2;
    }
    assert_eq!(display.buffer(), expected.buffer());
    assert!(lit(&display).len() > 20);
}

#[test]
fn text_far_off_the_surface_draws_nothing() {
    for (x, y) in [(i32::MAX, 0), (i32::MIN, 0), (0, i32::MAX), (0, i32::MIN), (i32::MAX, i32::MAX)] {
        let mut display = Ssh1106::new();
        assert_eq!(display.premium(x, y, "Hello"), Measure.premium(0, 0, "Hello"));
        assert_eq!(lit(&display), vec![], "text at {x}, {y}");
    }
}

#[test]
fn text_on_a_rotated_surface_is_turned() {
    let mut rotated = Rotate::by90(Ssh1106::new());
    rotated.premium(10, 20, ".");
    assert_eq!(lit(&rotated.0), vec![(108, 10), (109, 10), (108, 11), (109, 11)]);
}
