use rtiaw::image::ImageStream;
use rtiaw::ppm::{encode_header, push_decimal, push_pixel_line, Rgb};
use rtiaw::raster::{RasterSettings, RenderError};
use rtiaw::row::RowBuffer;

fn decimal_of(n: u32) -> String {
    let mut out = Vec::new();
    push_decimal(&mut out, n);
    String::from_utf8(out).unwrap()
}

fn full_row(pixels: &[Rgb]) -> RowBuffer {
    let mut row = RowBuffer::new(pixels.len());
    for (i, px) in pixels.iter().enumerate() {
        row.store(i, *px);
    }
    row
}

#[test]
fn decimal_digits() {
    assert_eq!(decimal_of(0), "0");
    assert_eq!(decimal_of(7), "7");
    assert_eq!(decimal_of(10), "10");
    assert_eq!(decimal_of(255), "255");
    assert_eq!(decimal_of(1200), "1200");
    assert_eq!(decimal_of(u32::MAX), "4294967295");
}

#[test]
fn decimal_appends_after_existing_bytes() {
    let mut out = b"x=".to_vec();
    push_decimal(&mut out, 42);
    assert_eq!(out, b"x=42".to_vec());
}

#[test]
fn header_bytes() {
    assert_eq!(encode_header(2, 2), b"P3\n2 2\n255\n".to_vec());
    assert_eq!(encode_header(1200, 675), b"P3\n1200 675\n255\n".to_vec());
}

#[test]
fn pixel_line_bytes() {
    let mut out = Vec::new();
    push_pixel_line(&mut out, Rgb::new(0, 128, 255));
    assert_eq!(out, b"0 128 255\n".to_vec());
    push_pixel_line(&mut out, Rgb::new(9, 10, 99));
    assert_eq!(out, b"0 128 255\n9 10 99\n".to_vec());
}

#[test]
fn row_buffer_starts_empty() {
    let row = RowBuffer::new(3);
    assert_eq!(row.len(), 3);
    assert!(!row.is_complete());
    assert!(row.encode().is_none());
}

#[test]
fn row_buffer_of_width_zero_is_complete() {
    let row = RowBuffer::new(0);
    assert!(row.is_complete());
    assert_eq!(row.encode(), Some(Vec::new()));
}

#[test]
fn row_buffer_filled_out_of_order() {
    let mut row = RowBuffer::new(3);
    row.store(2, Rgb::new(3, 3, 3));
    row.store(0, Rgb::new(1, 1, 1));
    assert!(!row.is_complete());
    assert!(row.encode().is_none());
    row.store(1, Rgb::new(2, 2, 2));
    assert!(row.is_complete());
    assert_eq!(row.encode().unwrap(), b"1 1 1\n2 2 2\n3 3 3\n".to_vec());
}

#[test]
fn row_buffer_store_replaces() {
    let mut row = RowBuffer::new(1);
    row.store(0, Rgb::new(1, 2, 3));
    row.store(0, Rgb::new(4, 5, 6));
    assert_eq!(row.encode().unwrap(), b"4 5 6\n".to_vec());
}

#[test]
fn stream_writes_whole_image() {
    let settings = RasterSettings::new(2, 2, 1, 1).unwrap();
    let (mut stream, header) = ImageStream::begin(&settings);
    let mut file = header;
    assert_eq!(stream.remaining_rows(), 2);
    assert!(!stream.is_finished());
    let top = full_row(&[Rgb::new(206, 227, 255), Rgb::new(206, 227, 255)]);
    file.extend(stream.write_row(&top).unwrap());
    assert_eq!(stream.remaining_rows(), 1);
    let bottom = full_row(&[Rgb::new(236, 244, 255), Rgb::new(236, 244, 255)]);
    file.extend(stream.write_row(&bottom).unwrap());
    assert!(stream.is_finished());
    assert_eq!(stream.remaining_rows(), 0);
    let text = String::from_utf8(file).unwrap();
    assert_eq!(text, "P3\n2 2\n255\n206 227 255\n206 227 255\n236 244 255\n236 244 255\n");
    assert_eq!(text.lines().count(), 3 + 2 * 2);
}

#[test]
fn stream_refuses_row_of_wrong_width() {
    let settings = RasterSettings::new(2, 1, 1, 1).unwrap();
    let (mut stream, _) = ImageStream::begin(&settings);
    let narrow = full_row(&[Rgb::new(1, 2, 3)]);
    assert_eq!(stream.write_row(&narrow), Err(RenderError));
    let wide = full_row(&[Rgb::new(1, 2, 3), Rgb::new(1, 2, 3), Rgb::new(1, 2, 3)]);
    assert_eq!(stream.write_row(&wide), Err(RenderError));
    assert_eq!(stream.remaining_rows(), 1);
}

#[test]
fn stream_refuses_incomplete_row() {
    let settings = RasterSettings::new(2, 1, 1, 1).unwrap();
    let (mut stream, _) = ImageStream::begin(&settings);
    let mut row = RowBuffer::new(2);
    row.store(0, Rgb::new(1, 2, 3));
    assert_eq!(stream.write_row(&row), Err(RenderError));
    assert_eq!(stream.remaining_rows(), 1);
    row.store(1, Rgb::new(4, 5, 6));
    assert_eq!(stream.write_row(&row).unwrap(), b"1 2 3\n4 5 6\n".to_vec());
}

#[test]
fn stream_refuses_row_past_the_last() {
    let settings = RasterSettings::new(1, 1, 1, 1).unwrap();
    let (mut stream, header) = ImageStream::begin(&settings);
    assert_eq!(header, b"P3\n1 1\n255\n".to_vec());
    let row = full_row(&[Rgb::new(0, 0, 0)]);
    assert_eq!(stream.write_row(&row).unwrap(), b"0 0 0\n".to_vec());
    assert!(stream.is_finished());
    assert_eq!(stream.write_row(&row), Err(RenderError));
}

/// An empty scene seen through a 2x2 camera at the origin looking down -z
/// with a 90 degree field of view and no jitter: every pixel is the sky
/// gradient along its ray, gamma-corrected, clamped and quantized.
#[test]
fn empty_scene_two_by_two_image() {
    let directions = [(-5.0f64, 5.0f64, -10.0f64), (5.0, 5.0, -10.0), (-5.0, -5.0, -10.0), (5.0, -5.0, -10.0)];
    let quantize = |c: f64| -> u8 {
        let g = if c > 0.0 { c.sqrt() } else { 0.0 };
        (256.0 * g.clamp(0.0, 0.999)) as u8
    };
    let sky: Vec<Rgb> = directions
        .iter()
        .map(|&(x, y, z)| {
            let len = (x * x + y * y + z * z).sqrt();
            let a = 0.5 * (y / len + 1.0);
            let (r, g, b) = ((1.0 - a) + a * 0.5, (1.0 - a) + a * 0.7, (1.0 - a) + a * 1.0);
            Rgb::new(quantize(r), quantize(g), quantize(b))
        })
        .collect();
    let settings = RasterSettings::new(2, 2, 1, 1).unwrap();
    let (mut stream, mut file) = ImageStream::begin(&settings);
    file.extend(stream.write_row(&full_row(&sky[0..2])).unwrap());
    file.extend(stream.write_row(&full_row(&sky[2..4])).unwrap());
    assert!(stream.is_finished());
    assert_eq!(
        String::from_utf8(file).unwrap(),
        "P3\n2 2\n255\n206 227 255\n206 227 255\n236 244 255\n236 244 255\n"
    );
}
