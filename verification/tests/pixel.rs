use schwitzerflut::coordinates::Coordinates;
use schwitzerflut::generator::CommandGenerator;
use schwitzerflut::pixel::Pixel;
use schwitzerflut::pixel::PixelBuffer;
use schwitzerflut::source::ImageRotation;
use schwitzerflut::source::ImageSource;
use schwitzerflut::transform::Reorient;

fn px(r: u8) -> Pixel {
    Pixel { r, g: 0, b: 0, a: 255 }
}

/// A 2x2 buffer:
///   0 1
///   2 3
fn two_by_two() -> PixelBuffer {
    PixelBuffer::new(2, 2, vec![px(0), px(1), px(2), px(3)]).unwrap()
}

fn reds(b: &PixelBuffer) -> Vec<u8> {
    b.pixels.iter().map(|p| p.r).collect()
}

#[test]
fn test_buffer_new_rejects_wrong_count() {
    assert!(PixelBuffer::new(2, 2, vec![px(0); 3]).is_none());
    assert!(PixelBuffer::new(2, 2, vec![px(0); 4]).is_some());
}

#[test]
fn test_raw_bytes_round_trip() {
    let b = two_by_two();
    let bytes = b.to_rgba_bytes();
    assert_eq!(bytes, vec![0, 0, 0, 255, 1, 0, 0, 255, 2, 0, 0, 255, 3, 0, 0, 255]);
    let back = PixelBuffer::from_rgba_bytes(&bytes, 2, 2).unwrap();
    assert_eq!(reds(&back), reds(&b));
}

#[test]
fn test_from_rgba_bytes_rejects_wrong_count() {
    assert!(PixelBuffer::from_rgba_bytes(&vec![0; 15], 2, 2).is_none());
}

#[test]
fn test_flip_horizontal() {
    let b = two_by_two().reoriented(Reorient::FlipHorizontal);
    assert_eq!((b.width, b.height), (2, 2));
    assert_eq!(reds(&b), vec![1, 0, 3, 2]);
}

#[test]
fn test_flip_vertical() {
    let b = two_by_two().reoriented(Reorient::FlipVertical);
    assert_eq!((b.width, b.height), (2, 2));
    assert_eq!(reds(&b), vec![2, 3, 0, 1]);
}

#[test]
fn test_rotate_90_clockwise() {
    // 3x1 row [0 1 2] becomes a 1x3 column reading top-down [0 1 2].
    let row = PixelBuffer::new(3, 1, vec![px(0), px(1), px(2)]).unwrap();
    let b = row.reoriented(Reorient::Rotate90);
    assert_eq!((b.width, b.height), (1, 3));
    assert_eq!(reds(&b), vec![0, 1, 2]);
}

#[test]
fn test_rotate_180() {
    let b = two_by_two().reoriented(Reorient::Rotate180);
    assert_eq!(reds(&b), vec![3, 2, 1, 0]);
}

#[test]
fn test_rotate_270_is_three_quarter_turns() {
    let once = two_by_two().reoriented(Reorient::Rotate270);
    let thrice = two_by_two()
        .reoriented(Reorient::Rotate90)
        .reoriented(Reorient::Rotate90)
        .reoriented(Reorient::Rotate90);
    assert_eq!(reds(&once), reds(&thrice));
}

#[test]
fn test_crop_half_open_rectangle() {
    // Keep the left column: x in [0, 1), y in [0, 2).
    let b = two_by_two().cropped(Coordinates::new(0, 0), Coordinates::new(1, 2));
    assert_eq!((b.width, b.height), (1, 2));
    assert_eq!(reds(&b), vec![0, 2]);
}

#[test]
fn test_crop_clamps_to_buffer() {
    let b = two_by_two().cropped(Coordinates::new(1, 1), Coordinates::new(10, 10));
    assert_eq!((b.width, b.height), (1, 1));
    assert_eq!(reds(&b), vec![3]);
}

#[test]
fn test_crop_outside_is_empty() {
    let b = two_by_two().cropped(Coordinates::new(5, 5), Coordinates::new(6, 6));
    assert_eq!((b.width, b.height), (0, 0));
    assert!(b.pixels.is_empty());
}

#[test]
fn test_image_rotation_new() {
    assert!(ImageRotation::new(90).is_ok());
    assert!(ImageRotation::new(180).is_ok());
    assert!(ImageRotation::new(270).is_ok());
    assert!(ImageRotation::new(0).is_err());
    assert!(ImageRotation::new(45).is_err());
    assert!(ImageRotation::new(360).is_err());
}

#[test]
fn test_resize_actually_resamples() {
    // A 4x4 buffer resized to fit 2x2 must come back 2x2: this fails if the
    // resampler hands its input back unchanged.
    let buffer = PixelBuffer::new(4, 4, vec![px(10); 16]).unwrap();
    let source = ImageSource::builder(buffer).resize((2, 2)).build();
    assert_eq!((source.image.width, source.image.height), (2, 2));
}

#[test]
fn test_source_pipeline_order_crop_then_flip() {
    // Crop the top row of [0 1 / 2 3], then flip horizontally: [1 0].
    // Flipping first and cropping after would give [0 1] of the flipped
    // grid, i.e. [1 0] only if crop ran first.
    let source = ImageSource::builder(two_by_two())
        .crop(Coordinates::new(0, 0), Coordinates::new(2, 1))
        .flip_horizontally()
        .build();
    assert_eq!((source.image.width, source.image.height), (2, 1));
    assert_eq!(reds(&source.image), vec![1, 0]);
}

#[test]
fn test_source_rotation_applied_last() {
    let source = ImageSource::builder(two_by_two())
        .rotate(ImageRotation::new(180).unwrap())
        .build();
    assert_eq!(reds(&source.image), vec![3, 2, 1, 0]);
}

#[test]
fn test_source_as_commands_skips_transparent() {
    let pixels = vec![
        Pixel { r: 1, g: 0, b: 0, a: 255 },
        Pixel { r: 2, g: 0, b: 0, a: 0 },
    ];
    let buffer = PixelBuffer::new(2, 1, pixels).unwrap();
    let source = ImageSource::builder(buffer).skip_transparent_pixels(true).build();
    let commands = source.as_commands();
    assert_eq!(commands.len(), 1);
    assert_eq!(commands, source.commands());
}

#[test]
fn test_source_as_commands_keeps_transparent_by_default() {
    let pixels = vec![
        Pixel { r: 1, g: 0, b: 0, a: 255 },
        Pixel { r: 2, g: 0, b: 0, a: 0 },
    ];
    let buffer = PixelBuffer::new(2, 1, pixels).unwrap();
    let source = ImageSource::builder(buffer).build();
    assert_eq!(source.as_commands().len(), 2);
}
