use premium::ssh1106::Ssh1106;
use premium::{Measure, Rotate, Surface};

fn with_pixel(x: i32, y: i32) -> Ssh1106 {
    let mut display = Ssh1106::new();
    display.pixel(x, y);
    display
}

#[test]
fn by90_swaps_width_and_height() {
    let rotated = Rotate::by90(Ssh1106::new());
    assert_eq!(rotated.width(), 64);
    assert_eq!(rotated.height(), 128);
}

#[test]
fn by90_maps_a_pixel_a_quarter_turn_on() {
    for (x, y) in [(0, 0), (63, 0), (0, 127), (63, 127), (10, 20), (5, 100)] {
        let mut rotated = Rotate::by90(Ssh1106::new());
        rotated.pixel(x, y);
        assert_eq!(rotated.0.buffer(), with_pixel(128 - 1 - y, x).buffer(), "pixel {x}, {y}");
    }
}

#[test]
fn by180_is_the_half_turn() {
    let rotated = Rotate::by180(Ssh1106::new());
    assert_eq!(rotated.width(), 128);
    assert_eq!(rotated.height(), 64);
    for (x, y) in [(0, 0), (127, 0), (0, 63), (127, 63), (10, 20), (100, 5)] {
        let mut rotated = Rotate::by180(Ssh1106::new());
        rotated.pixel(x, y);
        assert_eq!(rotated.0.0.buffer(), with_pixel(127 - x, 63 - y).buffer(), "pixel {x}, {y}");
    }
}

#[test]
fn by270_is_a_quarter_turn_back() {
    let rotated = Rotate::by270(Ssh1106::new());
    assert_eq!(rotated.width(), 64);
    assert_eq!(rotated.height(), 128);
    for (x, y) in [(0, 0), (63, 0), (0, 127), (63, 127), (10, 20), (5, 100)] {
        let mut rotated = Rotate::by270(Ssh1106::new());
        rotated.pixel(x, y);
        assert_eq!(rotated.0.0.0.buffer(), with_pixel(y, 63 - x).buffer(), "pixel {x}, {y}");
    }
}

#[test]
fn four_quarter_turns_are_no_turn() {
    let rotated = Rotate::by90(Rotate::by270(Ssh1106::new()));
    assert_eq!(rotated.width(), 128);
    assert_eq!(rotated.height(), 64);
    for y in 0..64 {
        for x in 0..128 {
            let mut rotated = Rotate::by90(Rotate::by270(Ssh1106::new()));
            rotated.pixel(x, y);
            assert_eq!(rotated.0.0.0.0.buffer(), with_pixel(x, y).buffer(), "pixel {x}, {y}");
        }
    }
}

#[test]
fn two_quarter_turns_are_by180() {
    for (x, y) in [(0, 0), (127, 63), (17, 42)] {
        let mut twice = Rotate::by90(Rotate::by90(Ssh1106::new()));
        twice.pixel(x, y);
        let mut half = Rotate::by180(Ssh1106::new());
        half.pixel(x, y);
        assert_eq!(twice.0.0.buffer(), half.0.0.buffer());
    }
}

#[test]
fn rotated_pixel_off_the_surface_changes_nothing() {
    let blank = Ssh1106::new();
    for (x, y) in [
        (-1, 0),
        (0, -1),
        (64, 0),
        (0, 128),
        (0, i32::MIN),
        (0, i32::MAX),
        (i32::MIN, 0),
        (i32::MAX, 0),
        (i32::MIN, i32::MIN),
        (i32::MAX, i32::MAX),
    ] {
        let mut rotated = Rotate::by90(Ssh1106::new());
        rotated.pixel(x, y);
        assert_eq!(rotated.0.buffer(), blank.buffer(), "pixel {x}, {y}");
        let mut rotated = Rotate::by270(Ssh1106::new());
        rotated.pixel(x, y);
        assert_eq!(rotated.0.0.0.buffer(), blank.buffer(), "pixel {x}, {y}");
    }
}

#[test]
fn rotated_clear_clears_the_inner_surface() {
    let mut rotated = Rotate::by90(with_pixel(9, 9));
    rotated.clear();
    assert_eq!(rotated.0.buffer(), Ssh1106::new().buffer());
}

#[test]
fn rotated_line_is_the_turned_line() {
    let mut rotated = Rotate::by90(Ssh1106::new());
    rotated.line(0, 0, 3, 0);
    let mut expected = Ssh1106::new();
    expected.line(127, 0, 127, 3);
    assert_eq!(rotated.0.buffer(), expected.buffer());
}

#[test]
fn rotate_hands_out_the_inner_surface() {
    let mut rotated = Rotate::by90(Ssh1106::new());
    assert_eq!(rotated.buffer().len(), 1032);
    let inner: &mut Ssh1106 = &mut rotated;
    inner.pixel(5, 0);
    assert_eq!(rotated.0.buffer()[6], 0x01);
}

#[test]
fn measure_is_large_and_ignores_what_is_drawn() {
    let mut measure = Measure;
    assert_eq!(measure.width(), 1000);
    assert_eq!(measure.height(), 1000);
    measure.pixel(3, 3);
    measure.clear();
    measure.line(0, 0, 999, 999);
    assert_eq!(measure.width(), 1000);
    assert_eq!(measure.height(), 1000);
    let rotated = Rotate::by90(Measure);
    assert_eq!(rotated.width(), 1000);
}
