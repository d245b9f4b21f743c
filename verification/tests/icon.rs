use image::{ImageFormat, Rgba, RgbaImage};
use std::io::Cursor;
use swb021bk_driver::icon::load_icon;

fn png_bytes() -> Vec<u8> {
    let mut picture = RgbaImage::new(2, 3);
    picture.put_pixel(1, 2, Rgba([10, 20, 30, 40]));
    let mut out = Cursor::new(Vec::new());
    picture.write_to(&mut out, ImageFormat::Png).unwrap();
    out.into_inner()
}

#[test]
fn decodes_a_png_to_rgba() {
    let bytes = png_bytes();
    let icon = load_icon(&bytes).unwrap();
    assert_eq!(icon.width, 2);
    assert_eq!(icon.height, 3);
    assert_eq!(icon.rgba.len(), 24);
    assert_eq!(&icon.rgba[20..24], &[10, 20, 30, 40]);
    assert_eq!(&icon.rgba[0..4], &[0, 0, 0, 0]);
    assert_ne!(icon.rgba, bytes);
}

#[test]
fn garbage_does_not_decode() {
    assert!(load_icon(b"not a picture").is_none());
    assert!(load_icon(&[]).is_none());
}
