use schwitzerflut::color::Color;
use schwitzerflut::color::RgbColor;
use schwitzerflut::color::RgbaColor;
use schwitzerflut::command::Command;
use schwitzerflut::command::SetPixelCommand;
use schwitzerflut::coordinates::Coordinates;
use schwitzerflut::generator::CommandGenerator;
use schwitzerflut::generator::CommandGeneratorBuilder;
use schwitzerflut::pixel::Pixel;
use schwitzerflut::pixel::PixelBuffer;

/// A 4x4 buffer with rows colored red, green, (transparent white), blue;
/// alpha 1, 1, 0, 1 respectively.
fn get_test_image() -> PixelBuffer {
    let mut pixels = Vec::new();

    for _ in 0..4 {
        pixels.push(Pixel {
            r: 255,
            g: 0,
            b: 0,
            a: 1,
        });
    }
    for _ in 0..4 {
        pixels.push(Pixel {
            r: 0,
            g: 255,
            b: 0,
            a: 1,
        });
    }
    for _ in 0..4 {
        pixels.push(Pixel {
            r: 255,
            g: 255,
            b: 255,
            a: 0,
        });
    }
    for _ in 0..4 {
        pixels.push(Pixel {
            r: 0,
            g: 0,
            b: 255,
            a: 1,
        });
    }

    PixelBuffer::new(4, 4, pixels).unwrap()
}

fn set_pixel(x: u32, y: u32, r: u8, g: u8, b: u8, a: u8) -> Command {
    Command::SetPixel(SetPixelCommand::new(
        Coordinates::new(x, y),
        Color::Rgba(RgbaColor::new(RgbColor::new(r, g, b), a)),
    ))
}

#[test]
pub fn test_image() {
    let commands = CommandGeneratorBuilder::new(get_test_image())
        .include_transparent_pixels(true)
        .build()
        .unwrap()
        .commands();

    let expected = vec![
        set_pixel(0, 0, 255, 0, 0, 1),
        set_pixel(1, 0, 255, 0, 0, 1),
        set_pixel(2, 0, 255, 0, 0, 1),
        set_pixel(3, 0, 255, 0, 0, 1),
        set_pixel(0, 1, 0, 255, 0, 1),
        set_pixel(1, 1, 0, 255, 0, 1),
        set_pixel(2, 1, 0, 255, 0, 1),
        set_pixel(3, 1, 0, 255, 0, 1),
        set_pixel(0, 2, 255, 255, 255, 0),
        set_pixel(1, 2, 255, 255, 255, 0),
        set_pixel(2, 2, 255, 255, 255, 0),
        set_pixel(3, 2, 255, 255, 255, 0),
        set_pixel(0, 3, 0, 0, 255, 1),
        set_pixel(1, 3, 0, 0, 255, 1),
        set_pixel(2, 3, 0, 0, 255, 1),
        set_pixel(3, 3, 0, 0, 255, 1),
    ];

    assert_eq!(expected, commands);
}

#[test]
pub fn test_image_without_transparent_pixels() {
    let commands = CommandGeneratorBuilder::new(get_test_image())
        .include_transparent_pixels(false)
        .build()
        .unwrap()
        .commands();

    let expected = vec![
        set_pixel(0, 0, 255, 0, 0, 1),
        set_pixel(1, 0, 255, 0, 0, 1),
        set_pixel(2, 0, 255, 0, 0, 1),
        set_pixel(3, 0, 255, 0, 0, 1),
        set_pixel(0, 1, 0, 255, 0, 1),
        set_pixel(1, 1, 0, 255, 0, 1),
        set_pixel(2, 1, 0, 255, 0, 1),
        set_pixel(3, 1, 0, 255, 0, 1),
        set_pixel(0, 3, 0, 0, 255, 1),
        set_pixel(1, 3, 0, 0, 255, 1),
        set_pixel(2, 3, 0, 0, 255, 1),
        set_pixel(3, 3, 0, 0, 255, 1),
    ];

    assert_eq!(expected, commands);
}

#[test]
pub fn test_image_with_offset() {
    let commands = CommandGeneratorBuilder::new(get_test_image())
        .include_transparent_pixels(false)
        .offset(Coordinates::new(1, 1))
        .build()
        .unwrap()
        .commands();

    let expected = vec![
        set_pixel(1, 1, 255, 0, 0, 1),
        set_pixel(2, 1, 255, 0, 0, 1),
        set_pixel(3, 1, 255, 0, 0, 1),
        set_pixel(4, 1, 255, 0, 0, 1),
        set_pixel(1, 2, 0, 255, 0, 1),
        set_pixel(2, 2, 0, 255, 0, 1),
        set_pixel(3, 2, 0, 255, 0, 1),
        set_pixel(4, 2, 0, 255, 0, 1),
        set_pixel(1, 4, 0, 0, 255, 1),
        set_pixel(2, 4, 0, 0, 255, 1),
        set_pixel(3, 4, 0, 0, 255, 1),
        set_pixel(4, 4, 0, 0, 255, 1),
    ];

    assert_eq!(expected, commands);
}

#[test]
pub fn test_image_enumeration_is_restartable() {
    let image = CommandGeneratorBuilder::new(get_test_image())
        .include_transparent_pixels(false)
        .build()
        .unwrap();
    assert_eq!(image.commands(), image.commands());
}

#[test]
pub fn test_build_rejects_offset_overflow() {
    let buffer = PixelBuffer::new(2, 2, vec![Pixel { r: 0, g: 0, b: 0, a: 1 }; 4]).unwrap();
    let built = CommandGeneratorBuilder::new(buffer)
        .offset(Coordinates::new(u32::MAX, 0))
        .build();
    assert!(built.is_none());
}

#[test]
pub fn test_build_accepts_offset_at_bound() {
    let buffer = PixelBuffer::new(2, 2, vec![Pixel { r: 9, g: 8, b: 7, a: 1 }; 4]).unwrap();
    let commands = CommandGeneratorBuilder::new(buffer)
        .offset(Coordinates::new(u32::MAX - 1, 0))
        .build()
        .unwrap()
        .commands();
    assert_eq!(commands.len(), 4);
    assert_eq!(commands[1], set_pixel(u32::MAX, 0, 9, 8, 7, 1));
}
