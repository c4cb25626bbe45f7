use gnome_shot::capture::{png_dimensions, CaptureMode, Screenshot};

fn png_header(width: u32, height: u32) -> Vec<u8> {
    let mut h = vec![137u8, 80, 78, 71, 13, 10, 26, 10];
    // IHDR chunk length (13) and type.
    h.extend_from_slice(&[0, 0, 0, 13]);
    h.extend_from_slice(b"IHDR");
    h.extend_from_slice(&width.to_be_bytes());
    h.extend_from_slice(&height.to_be_bytes());
    h
}

#[test]
fn png_dimensions_reads_big_endian_ihdr() {
    let header = png_header(1920, 1080);
    assert_eq!(png_dimensions(&header), Some((1920, 1080)));
    let wide = png_header(70_000, 3);
    assert_eq!(png_dimensions(&wide), Some((70_000, 3)));
}

#[test]
fn png_dimensions_rejects_other_bytes() {
    assert_eq!(png_dimensions(&Vec::new()), None);
    assert_eq!(png_dimensions(&vec![0u8; 24]), None);
    let mut bad_sig = png_header(10, 10);
    bad_sig[0] = 136;
    assert_eq!(png_dimensions(&bad_sig), None);
    let mut bad_chunk = png_header(10, 10);
    bad_chunk[12] = 74;
    assert_eq!(png_dimensions(&bad_chunk), None);
    let short = png_header(10, 10)[..23].to_vec();
    assert_eq!(png_dimensions(&short), None);
}

#[test]
fn screenshot_carries_dimensions_and_mode() {
    let s = Screenshot::new(1, 1_000_000, CaptureMode::Window);
    assert_eq!(s.width(), 1);
    assert_eq!(s.height(), 1_000_000);
    assert_eq!(s.capture_mode, CaptureMode::Window);
}
