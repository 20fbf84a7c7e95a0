use usb_screen::{
    encode_orientation_command, encode_region_command, find_screen_port, is_size_accepted,
    to_rgb565, Orientation, PixelBuffer, PortCandidate, ScreenCommand, ScreenError, Transfer,
};

fn decode(f: &[u8]) -> (u16, u16, u16, u16, u8) {
    let b: Vec<u16> = f.iter().map(|&v| v as u16).collect();
    (
        (b[0] << 2) | (b[1] >> 6),
        ((b[1] & 63) << 4) | (b[2] >> 4),
        ((b[2] & 15) << 6) | (b[3] >> 2),
        ((b[3] & 3) << 8) | b[4],
        f[5],
    )
}

/// Runs a transfer against a transport that answers with `ok(n)` on its
/// n-th write (1-based); returns the sizes of the writes issued and the result.
fn run(mut t: Transfer, ok: impl Fn(usize) -> bool) -> (Vec<usize>, Result<(), ScreenError>) {
    let mut sizes = Vec::new();
    while let Some(bytes) = t.next_write() {
        sizes.push(bytes.len());
        t.record(ok(sizes.len()));
    }
    (sizes, t.outcome().expect("a transfer with nothing pending is decided"))
}

fn first_write(t: &Transfer) -> Vec<u8> {
    t.next_write().expect("a write is pending")
}

fn image(width: u32, height: u32) -> PixelBuffer {
    PixelBuffer::from_raw(width, height, vec![0u8; (width * height * 3) as usize]).unwrap()
}

#[test]
fn region_frame_bit_layout() {
    let f = encode_region_command(319, 479, 100, 700, ScreenCommand::DisplayBitmap);
    assert_eq!(f[0], (319u16 >> 2) as u8);
    assert_eq!(f[1], (((319u16 & 3) << 6) | (479u16 >> 4)) as u8);
    assert_eq!(f[2], (((479u16 & 15) << 4) | (100u16 >> 6)) as u8);
    assert_eq!(f[3], (((100u16 & 63) << 2) | (700u16 >> 8)) as u8);
    assert_eq!(f[4], (700u16 & 255) as u8);
    assert_eq!(f[5], 197);
    assert_eq!(f, [79, 221, 241, 146, 188, 197]);
}

#[test]
fn region_frame_round_trip() {
    for &(x, y, ex, ey) in &[(0, 0, 0, 0), (1023, 1023, 1023, 1023), (5, 600, 319, 479), (512, 3, 77, 1000)] {
        let f = encode_region_command(x, y, ex, ey, ScreenCommand::Clear);
        assert_eq!(decode(&f), (x, y, ex, ey, 102));
    }
}

#[test]
fn region_frame_wraps_large_coordinates() {
    let f = encode_region_command(1024, 0, 0, 0, ScreenCommand::Clear);
    assert_eq!(f[0], 0);
    assert_ne!(decode(&f).0, 1024);
}

#[test]
fn opcode_and_orientation_codes() {
    assert_eq!(ScreenCommand::Reset.code(), 101);
    assert_eq!(ScreenCommand::Clear.code(), 102);
    assert_eq!(ScreenCommand::ToBlack.code(), 103);
    assert_eq!(ScreenCommand::ScreenOff.code(), 108);
    assert_eq!(ScreenCommand::ScreenOn.code(), 109);
    assert_eq!(ScreenCommand::SetBrigthness.code(), 110);
    assert_eq!(ScreenCommand::SetOrientation.code(), 121);
    assert_eq!(ScreenCommand::DisplayBitmap.code(), 197);
    assert_eq!(Orientation::Portrait.code(), 0);
    assert_eq!(Orientation::ReversePortrait.code(), 1);
    assert_eq!(Orientation::Landscape.code(), 2);
    assert_eq!(Orientation::ReverseLandscape.code(), 3);
}

#[test]
fn orientation_landscape_frame() {
    assert_eq!(encode_orientation_command(Orientation::Landscape), [0, 0, 0, 0, 0, 121, 102, 3, 200, 4, 0]);
    assert_eq!(first_write(&Transfer::orientation(Orientation::Landscape)), vec![0, 0, 0, 0, 0, 121, 102, 3, 200, 4, 0]);
    assert_eq!(encode_orientation_command(Orientation::ReverseLandscape)[6], 103);
}

#[test]
fn rgb565_fields() {
    let c = to_rgb565(0xAB, 0xCD, 0xEF);
    assert_eq!(c >> 11, (0xABu8 >> 3) as u16);
    assert_eq!((c >> 5) & 63, (0xCDu8 >> 2) as u16);
    assert_eq!(c & 31, (0xEFu8 >> 3) as u16);
    assert_eq!(to_rgb565(255, 255, 255), 0xFFFF);
    assert_eq!(to_rgb565(255, 0, 0), 0xF800);
    assert_eq!(to_rgb565(0, 255, 0), 0x07E0);
    assert_eq!(to_rgb565(0, 0, 255), 0x001F);
    assert_eq!(to_rgb565(0, 0, 0), 0);
}

#[test]
fn rgb565_collisions() {
    assert_eq!(to_rgb565(0, 0, 0), to_rgb565(4, 0, 0));
    assert_eq!(to_rgb565(10, 20, 30), to_rgb565(15, 23, 31));
}

#[test]
fn draw_portrait_writes() {
    let t = Transfer::draw(image(320, 480)).unwrap();
    assert_eq!(first_write(&t), encode_region_command(0, 0, 319, 479, ScreenCommand::DisplayBitmap).to_vec());
    let (sizes, result) = run(t, |_| true);
    assert_eq!(result, Ok(()));
    assert_eq!(sizes.len(), 1 + 60);
    assert_eq!(sizes[0], 6);
    assert!(sizes[1..].iter().all(|&s| s == 2 * 320 * 8));
}

#[test]
fn draw_landscape_writes() {
    let (sizes, result) = run(Transfer::draw(image(480, 320)).unwrap(), |_| true);
    assert_eq!(result, Ok(()));
    assert_eq!(sizes.len(), 1 + 40);
    assert!(sizes[1..].iter().all(|&s| s == 2 * 480 * 8));
}

#[test]
fn draw_remainder_write() {
    // accepted by the one-side size test: the width matches
    let (sizes, result) = run(Transfer::draw(image(320, 100)).unwrap(), |_| true);
    assert_eq!(result, Ok(()));
    assert_eq!(sizes.len(), 1 + 13);
    assert!(sizes[1..13].iter().all(|&s| s == 2 * 320 * 8));
    assert_eq!(sizes[13], 2 * 320 * 4);
}

#[test]
fn draw_pixel_bytes() {
    let mut data = vec![0u8; 320 * 3];
    data[0] = 255;
    data[4] = 255;
    data[8] = 255;
    data[9] = 0x12;
    data[10] = 0x34;
    data[11] = 0x56;
    let t = Transfer::draw(PixelBuffer::from_raw(320, 1, data).unwrap()).unwrap();
    let mut t = t;
    t.record(true);
    let bytes = t.next_write().unwrap();
    assert_eq!(bytes.len(), 640);
    assert_eq!(&bytes[0..8], &[0x00, 0xF8, 0xE0, 0x07, 0x1F, 0x00, 0xAA, 0x11]);
    t.record(true);
    assert!(t.next_write().is_none());
    assert_eq!(t.outcome(), Some(Ok(())));
}

#[test]
fn draw_wrong_size() {
    match Transfer::draw(image(100, 100)) {
        Err(e) => assert_eq!(e, ScreenError::WrongImageSize),
        Ok(_) => panic!("a 100x100 image must be refused"),
    }
    assert!(!is_size_accepted(100, 100));
}

#[test]
fn size_test_is_one_sided() {
    assert!(is_size_accepted(320, 480));
    assert!(is_size_accepted(480, 320));
    assert!(is_size_accepted(320, 320));
    assert!(is_size_accepted(7, 480));
    assert!(!is_size_accepted(321, 479));
    assert!(Transfer::draw(image(320, 320)).is_ok());
}

#[test]
fn draw_stops_at_failed_write() {
    for n in 1..=61 {
        let (sizes, result) = run(Transfer::draw(image(320, 480)).unwrap(), |k| k != n);
        assert_eq!(result, Err(ScreenError::WriteError));
        assert_eq!(sizes.len(), n);
    }
}

#[test]
fn command_failure() {
    let (sizes, result) = run(Transfer::clear(), |_| false);
    assert_eq!(sizes, vec![6]);
    assert_eq!(result, Err(ScreenError::WriteError));
    let mut t = Transfer::clear();
    assert_eq!(t.outcome(), None);
    t.record(false);
    t.record(true);
    assert_eq!(t.outcome(), Some(Err(ScreenError::WriteError)));
}

#[test]
fn brightness_levels() {
    let f = first_write(&Transfer::brightness(0));
    assert_eq!(decode(&f), (255, 0, 0, 0, 110));
    let f = first_write(&Transfer::brightness(255));
    assert_eq!(decode(&f), (0, 0, 0, 0, 110));
    let f = first_write(&Transfer::brightness(10));
    assert_eq!(decode(&f).0, 245);
}

#[test]
fn simple_commands() {
    assert_eq!(first_write(&Transfer::clear()), vec![0, 0, 0, 0, 0, 102]);
    assert_eq!(first_write(&Transfer::to_black()), vec![0, 0, 0, 0, 0, 103]);
    assert_eq!(first_write(&Transfer::screen_off()), vec![0, 0, 0, 0, 0, 108]);
    assert_eq!(first_write(&Transfer::screen_on()), vec![0, 0, 0, 0, 0, 109]);
    let (sizes, result) = run(Transfer::screen_on(), |_| true);
    assert_eq!(sizes, vec![6]);
    assert_eq!(result, Ok(()));
}

#[test]
fn pixel_buffer_length_checked() {
    assert!(PixelBuffer::from_raw(2, 2, vec![0; 12]).is_some());
    assert!(PixelBuffer::from_raw(2, 2, vec![0; 11]).is_none());
    assert!(PixelBuffer::from_raw(u32::MAX, u32::MAX, vec![0; 3]).is_none());
    let img = PixelBuffer::from_raw(2, 3, vec![1; 18]).unwrap();
    assert_eq!((img.width(), img.height(), img.data().len()), (2, 3, 18));
}

#[test]
fn screen_port_selection() {
    let port = |name: &str, serial: Option<&str>| PortCandidate {
        name: name.to_string(),
        usb_serial: serial.map(|s| s.to_string()),
    };
    assert_eq!(find_screen_port(&vec![]), "");
    let ports = vec![
        port("/dev/ttyS0", None),
        port("/dev/ttyACM0", Some("USB35INCHIPSV2")),
        port("/dev/ttyACM1", Some("OTHER")),
    ];
    assert_eq!(find_screen_port(&ports), "/dev/ttyACM0");
    let ports = vec![port("/dev/ttyACM0", Some("USB35INCHIPSV2")), port("/dev/ttyACM2", Some("USB35INCHIPSV2"))];
    assert_eq!(find_screen_port(&ports), "/dev/ttyACM2");
    assert_eq!(find_screen_port(&vec![port("/dev/ttyUSB0", Some("--"))]), "");
}

#[test]
fn error_messages() {
    assert_eq!(ScreenError::WriteError.message(), "Error writing data to screen");
    assert_eq!(ScreenError::WrongImageSize.message(), "Wrong image size; must be 320x480 or 480x320");
}
