use premium::ssh1106::{Refresh, Ssh1106, Transfer, ADDRESS, INIT_SEQUENCE, MARKER, TRANSFERS};
use premium::Surface;

fn blank() -> Vec<u8> {
    (0..1032).map(|i| if i % 129 == 0 { 0x40 } else { 0x00 }).collect()
}

/// A bus that notes what is written to it and fails at one write.
struct Bus {
    writes: Vec<(u8, Vec<u8>)>,
    fails_at: Option<usize>,
}

impl Bus {
    fn write(&mut self, address: u8, bytes: &[u8]) -> Result<(), &'static str> {
        let index = self.writes.len();
        self.writes.push((address, bytes.to_vec()));
        if self.fails_at == Some(index) {
            Err("no acknowledge")
        } else {
            Ok(())
        }
    }
}

fn send(display: &Ssh1106, bus: &mut Bus) -> Result<(), &'static str> {
    let mut refresh = Refresh::new();
    while let Some(transfer) = display.display(&refresh) {
        let result = bus.write(ADDRESS, transfer.bytes());
        refresh.record(result.is_ok());
        result?;
    }
    assert!(refresh.complete());
    Ok(())
}

#[test]
fn fresh_display_is_128_by_64_and_blank() {
    let mut display = Ssh1106::new();
    assert_eq!(display.width(), 128);
    assert_eq!(display.height(), 64);
    display.clear();
    let buffer = display.buffer();
    assert_eq!(buffer.len(), 1032);
    for (i, byte) in buffer.iter().enumerate() {
        if [0, 129, 258, 387, 516, 645, 774, 903].contains(&i) {
            assert_eq!(*byte, 0x40, "page start {i}");
        } else {
            assert_eq!(*byte, 0x00, "byte {i}");
        }
    }
}

#[test]
fn pixel_5_0_sets_byte_6() {
    let mut display = Ssh1106::new();
    display.clear();
    display.pixel(5, 0);
    let mut expected = blank();
    expected[6] = 0x01;
    assert_eq!(display.buffer().to_vec(), expected);
}

#[test]
fn pixel_sets_one_bit_of_one_byte() {
    for y in 0..64 {
        for x in 0..128 {
            let mut display = Ssh1106::new();
            display.pixel(x, y);
            let p = (x + (y >> 3) * 128) as usize;
            let mut expected = blank();
            expected[p + 1 + p / 128] |= 1 << (y & 7);
            assert_eq!(display.buffer().to_vec(), expected, "pixel {x}, {y}");
            assert_eq!(p + 1 + p / 128, (y as usize / 8) * 129 + 1 + x as usize);
        }
    }
}

#[test]
fn pixel_keeps_what_is_lit() {
    let mut display = Ssh1106::new();
    display.pixel(127, 63);
    display.pixel(127, 62);
    display.pixel(127, 63);
    display.pixel(0, 8);
    let mut expected = blank();
    expected[1031] = 0xc0;
    expected[130] = 0x01;
    assert_eq!(display.buffer().to_vec(), expected);
}

#[test]
fn pixel_off_the_display_changes_nothing() {
    let mut display = Ssh1106::new();
    display.pixel(3, 3);
    let before = display.buffer().to_vec();
    for (x, y) in [
        (-1, 0),
        (0, -1),
        (128, 0),
        (0, 64),
        (128, 64),
        (-1, -1),
        (i32::MIN, 5),
        (5, i32::MIN),
        (i32::MAX, 5),
        (5, i32::MAX),
        (i32::MIN, i32::MAX),
    ] {
        display.pixel(x, y);
        assert_eq!(display.buffer().to_vec(), before, "pixel {x}, {y}");
    }
}

#[test]
fn clear_puts_out_every_pixel_and_keeps_the_markers() {
    let mut display = Ssh1106::new();
    for y in 0..64 {
        for x in 0..128 {
            display.pixel(x, y);
        }
    }
    assert!(display.buffer().iter().enumerate().all(|(i, b)| *b == if i % 129 == 0 { MARKER } else { 0xff }));
    display.clear();
    assert_eq!(display.buffer().to_vec(), blank());
}

#[test]
fn init_sequence_is_the_power_on_sequence() {
    assert_eq!(ADDRESS, 0x3c);
    assert_eq!(
        INIT_SEQUENCE,
        [
            0x00, 0xae, 0xd5, 0x80, 0xa8, 0x3f, 0xd3, 0x00, 0x40, 0x8d, 0x14, 0x20, 0x00, 0xa1,
            0xc8, 0xda, 0x12, 0x81, 0xcf, 0xd9, 0xf1, 0xdb, 0x40, 0xa4, 0xa6, 0xaf,
        ]
    );
}

#[test]
fn display_sends_a_command_and_the_page_for_each_page() {
    let mut display = Ssh1106::new();
    display.pixel(5, 0);
    display.pixel(100, 63);
    let mut bus = Bus { writes: Vec::new(), fails_at: None };
    assert_eq!(send(&display, &mut bus), Ok(()));
    assert_eq!(bus.writes.len(), 16);
    assert_eq!(TRANSFERS, 16);
    let buffer = display.buffer();
    for page in 0..8 {
        let (address, command) = &bus.writes[2 * page];
        assert_eq!(*address, 0x3c);
        assert_eq!(command, &vec![0x00, 0xb0 + page as u8, 0x02, 0x10]);
        let (address, data) = &bus.writes[2 * page + 1];
        assert_eq!(*address, 0x3c);
        assert_eq!(data.len(), 129);
        assert_eq!(data[0], 0x40);
        assert_eq!(data.as_slice(), &buffer[page * 129..(page + 1) * 129]);
    }
    assert_eq!(bus.writes[1].1[6], 0x01);
    assert_eq!(bus.writes[15].1[101], 0x80);
}

#[test]
fn display_stops_at_the_failure_of_the_fifth_page() {
    let display = Ssh1106::new();
    let mut bus = Bus { writes: Vec::new(), fails_at: Some(9) };
    assert_eq!(send(&display, &mut bus), Err("no acknowledge"));
    assert_eq!(bus.writes.len(), 10);
    assert_eq!(bus.writes[8].1, vec![0x00, 0xb4, 0x02, 0x10]);
    assert_eq!(bus.writes[9].1.len(), 129);
    assert!(bus.writes.iter().all(|(_, bytes)| bytes.len() != 4 || bytes[1] < 0xb5));
}

#[test]
fn display_stops_at_the_failure_of_a_command() {
    let display = Ssh1106::new();
    let mut bus = Bus { writes: Vec::new(), fails_at: Some(0) };
    assert_eq!(send(&display, &mut bus), Err("no acknowledge"));
    assert_eq!(bus.writes.len(), 1);
}

#[test]
fn display_leaves_the_buffer_as_it_is() {
    let mut display = Ssh1106::new();
    display.pixel(17, 23);
    let before = display.buffer().to_vec();
    let mut bus = Bus { writes: Vec::new(), fails_at: Some(3) };
    assert!(send(&display, &mut bus).is_err());
    assert_eq!(display.buffer().to_vec(), before);
    let mut bus = Bus { writes: Vec::new(), fails_at: None };
    assert!(send(&display, &mut bus).is_ok());
    assert_eq!(display.buffer().to_vec(), before);
}

#[test]
fn refresh_counts_successes_and_ends_at_a_failure() {
    let mut refresh = Refresh::new();
    assert_eq!(refresh, Refresh { sent: 0, failed: false });
    refresh.record(true);
    refresh.record(true);
    assert_eq!(refresh, Refresh { sent: 2, failed: false });
    assert!(!refresh.complete());
    refresh.record(false);
    assert_eq!(refresh, Refresh { sent: 2, failed: true });
    refresh.record(true);
    assert_eq!(refresh, Refresh { sent: 2, failed: true });
    assert!(!refresh.complete());
    assert!(Ssh1106::new().display(&refresh).is_none());
}

#[test]
fn refresh_is_complete_after_sixteen_transfers() {
    let display = Ssh1106::new();
    let mut refresh = Refresh::new();
    for i in 0..16 {
        assert!(!refresh.complete());
        match display.display(&refresh) {
            Some(Transfer::Command(bytes)) => {
                assert_eq!(i % 2, 0);
                assert_eq!(bytes, [0x00, 0xb0 + i / 2, 0x02, 0x10]);
            }
            Some(Transfer::Page(bytes)) => {
                assert_eq!(i % 2, 1);
                assert_eq!(bytes.len(), 129);
            }
            None => panic!("transfer {i} is due"),
        }
        refresh.record(true);
    }
    assert!(refresh.complete());
    assert!(display.display(&refresh).is_none());
    refresh.record(false);
    assert_eq!(refresh, Refresh { sent: 16, failed: false });
}
