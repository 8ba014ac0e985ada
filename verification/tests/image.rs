use pix_engine::color::Color;
use pix_engine::draw::{DrawCommand, Flipped};
use pix_engine::error::PixError;
use pix_engine::image::{Error, Image, PixelFormat, PngInfo, PNG_RGB, PNG_RGBA};
use pix_engine::shape::rect::{Pos, Rect};
use pix_engine::state::settings::DrawMode;
use pix_engine::state::PixState;
use pix_engine::texture::{row_bytes, to_side, Texture};

fn checker() -> Image {
    let mut img = Image::with_rgba(3, 2);
    for y in 0..2 {
        for x in 0..3 {
            let v = (40 * (y * 3 + x)) as u8;
            img.set_pixel(x, y, Color::rgba(v, 255 - v, v / 2, 200 + x as u8));
        }
    }
    img
}

#[test]
fn pixel_format_channels() {
    assert_eq!(PixelFormat::Rgb.channels(), 3);
    assert_eq!(PixelFormat::Rgba.channels(), 4);
    assert_eq!(PixelFormat::default(), PixelFormat::Rgba);
}

#[test]
fn new_images_are_blank() {
    let img = Image::new(4, 3);
    assert_eq!(img.dimensions(), (4, 3));
    assert_eq!(img.width(), 4);
    assert_eq!(img.height(), 3);
    assert_eq!(img.format(), PixelFormat::Rgba);
    assert_eq!(img.bytes(), &[0u8; 48][..]);
    assert_eq!(img.texture_cache(), None);
    let img = Image::with_rgb(4, 3);
    assert_eq!(img.format(), PixelFormat::Rgb);
    assert_eq!(img.bytes().len(), 36);
    assert_eq!(Image::with_rgba(0, 7).bytes().len(), 0);
    assert_eq!(img.center(), Pos::new(2, 1));
}

#[test]
fn byte_counts() {
    assert_eq!(Image::count_bytes(4, 3, PixelFormat::Rgb), Some(36));
    assert_eq!(Image::count_bytes(4, 3, PixelFormat::Rgba), Some(48));
    assert_eq!(Image::count_bytes(0, 3, PixelFormat::Rgba), Some(0));
    assert_eq!(Image::count_bytes(u32::MAX, u32::MAX, PixelFormat::Rgba), None);
    assert_eq!(
        Image::count_bytes(u32::MAX, 1, PixelFormat::Rgb),
        Some(3 * u32::MAX as usize)
    );
}

#[test]
fn from_bytes_checks_the_length() {
    let bytes = [1u8, 2, 3, 4, 5, 6];
    let img = Image::from_bytes(2, 1, &bytes, PixelFormat::Rgb).unwrap();
    assert_eq!(img.bytes(), &bytes[..]);
    assert_eq!(img.dimensions(), (2, 1));
    assert_eq!(img.format(), PixelFormat::Rgb);
    match Image::from_bytes(2, 1, &bytes, PixelFormat::Rgba) {
        Err(Error::InvalidImage(dimensions, len, format)) => {
            assert_eq!(dimensions, (2, 1));
            assert_eq!(len, 6);
            assert_eq!(format, PixelFormat::Rgba);
        }
        other => panic!("unexpected result {:?}", other),
    }
    assert!(matches!(
        Image::from_bytes(u32::MAX, u32::MAX, &bytes, PixelFormat::Rgba),
        Err(Error::InvalidImage(_, 6, PixelFormat::Rgba))
    ));
    assert!(Image::from_bytes(0, 0, &[], PixelFormat::Rgba).is_ok());
    // Nothing is checked when a vector is taken as it is.
    let img = Image::from_vec(100, 100, vec![1, 2, 3], PixelFormat::Rgb);
    assert_eq!(img.bytes(), &[1, 2, 3][..]);
}

#[test]
fn pixels_are_read_and_written_by_position() {
    let mut img = Image::with_rgb(3, 2);
    assert_eq!(img.idx(0, 0), 0);
    assert_eq!(img.idx(2, 0), 6);
    assert_eq!(img.idx(1, 1), 12);
    img.set_pixel(1, 1, Color::rgba(10, 20, 30, 40));
    assert_eq!(&img.bytes()[12..15], &[10, 20, 30][..]);
    assert_eq!(img.bytes().iter().filter(|b| **b != 0).count(), 3);
    assert_eq!(img.get_pixel(1, 1), Color::rgb(10, 20, 30));
    assert_eq!(img.get_pixel(0, 0), Color::rgb(0, 0, 0));

    let mut img = Image::with_rgba(3, 2);
    assert_eq!(img.idx(2, 1), 20);
    img.set_pixel(2, 1, Color::rgba(10, 20, 30, 40));
    assert_eq!(&img.bytes()[20..24], &[10, 20, 30, 40][..]);
    assert_eq!(img.get_pixel(2, 1), Color::rgba(10, 20, 30, 40));
    assert_eq!(img.get_pixel(2, 1).channels(), [10, 20, 30, 40]);
}

#[test]
fn changes_are_recorded_for_the_texture() {
    let mut img = Image::with_rgba(2, 2);
    // Without a texture there is nothing to record.
    img.set_updated(true);
    assert_eq!(img.texture_cache(), None);
    img.set_texture_id(7);
    assert_eq!(img.texture_cache(), Some((7, false)));
    img.set_pixel(0, 0, Color::rgb(1, 2, 3));
    assert_eq!(img.texture_cache(), Some((7, true)));
    img.set_updated(false);
    assert_eq!(img.texture_cache(), Some((7, false)));
    img.bytes_mut()[5] = 9;
    assert_eq!(img.texture_cache(), Some((7, true)));
    assert_eq!(img.bytes()[5], 9);
    img.set_updated(false);
    img.update_bytes(&[7u8; 16]);
    assert_eq!(img.texture_cache(), Some((7, true)));
    assert_eq!(img.bytes(), &[7u8; 16][..]);
}

#[test]
fn png_round_trip() {
    let img = checker();
    let file = img.to_png().unwrap();
    assert_eq!(&file[..8], &[137, 80, 78, 71, 13, 10, 26, 10][..]);
    assert_ne!(&file[..], img.bytes());
    let back = Image::from_png(&file).unwrap();
    assert_eq!(back.dimensions(), (3, 2));
    assert_eq!(back.format(), PixelFormat::Rgba);
    assert_eq!(back.bytes(), img.bytes());
    assert_eq!(back.texture_cache(), None);
    assert_eq!(back.get_pixel(2, 1), img.get_pixel(2, 1));
    // The same image encodes to the same file.
    assert_eq!(checker().to_png().unwrap(), file);
    assert_eq!(img.try_to_png().unwrap().unwrap(), file);
}

#[test]
fn png_encoder_refuses_what_is_no_rgba_image() {
    assert!(matches!(Image::with_rgba(0, 0).to_png(), Err(Error::EncodingError(_))));
    assert!(matches!(Image::with_rgba(0, 5).to_png(), Err(Error::EncodingError(_))));
    // Three bytes per pixel where four are written.
    assert!(matches!(Image::with_rgb(2, 2).to_png(), Err(Error::EncodingError(_))));
    let short = Image::from_vec(2, 2, vec![0; 15], PixelFormat::Rgba);
    assert!(matches!(short.to_png(), Err(Error::EncodingError(_))));
    let huge = Image::from_vec(u32::MAX, u32::MAX, Vec::new(), PixelFormat::Rgba);
    assert!(huge.try_to_png().is_none());
}

#[test]
fn png_decoder_refuses_what_is_no_png() {
    assert!(matches!(Image::from_png(&[]), Err(Error::DecodingError(_))));
    assert!(matches!(Image::from_png(b"not a png at all"), Err(Error::DecodingError(_))));
    let mut file = checker().to_png().unwrap();
    // Cut off in the middle of the pixels.
    file.truncate(50);
    assert!(matches!(Image::from_png(&file), Err(Error::DecodingError(_))));
}

#[test]
fn png_headers_of_other_kinds_are_refused() {
    let info =
        |color_type, bit_depth| PngInfo { width: 2, height: 2, color_type, bit_depth };
    assert!(matches!(Image::format_of(&info(PNG_RGB, 8)), Ok(PixelFormat::Rgb)));
    assert!(matches!(Image::format_of(&info(PNG_RGBA, 8)), Ok(PixelFormat::Rgba)));
    assert!(matches!(Image::format_of(&info(PNG_RGBA, 16)), Err(Error::UnsupportedBitDepth(16))));
    assert!(matches!(Image::format_of(&info(0, 1)), Err(Error::UnsupportedBitDepth(1))));
    assert!(matches!(Image::format_of(&info(0, 8)), Err(Error::UnsupportedColorType(0))));
    assert!(matches!(Image::format_of(&info(4, 8)), Err(Error::UnsupportedColorType(4))));
    assert!(matches!(Image::format_of(&info(3, 8)), Err(Error::UnsupportedColorType(3))));
}

/// A grayscale PNG of one pixel.
const GRAY_PNG: [u8; 67] = [
    137, 80, 78, 71, 13, 10, 26, 10, 0, 0, 0, 13, 73, 72, 68, 82, 0, 0, 0, 1, 0, 0, 0, 1, 8, 0, 0,
    0, 0, 58, 126, 155, 85, 0, 0, 0, 10, 73, 68, 65, 84, 120, 156, 99, 96, 0, 0, 0, 2, 0, 1, 72,
    175, 164, 113, 0, 0, 0, 0, 73, 69, 78, 68, 174, 66, 96, 130,
];

#[test]
fn grayscale_png_is_refused_by_its_color_type() {
    assert!(matches!(Image::from_png(&GRAY_PNG), Err(Error::UnsupportedColorType(0))));
}

#[test]
fn image_errors_become_engine_errors() {
    let err = Image::from_bytes(2, 1, &[0; 5], PixelFormat::Rgb).unwrap_err();
    assert!(matches!(
        PixError::from(err),
        PixError::ImageError(Error::InvalidImage((2, 1), 5, PixelFormat::Rgb))
    ));
}

#[test]
fn only_png_files_are_accepted() {
    assert!(Image::check_extension(Some("png")).is_ok());
    match Image::check_extension(Some("jpg")) {
        Err(Error::InvalidFileType(Some(ext))) => assert_eq!(ext, "jpg"),
        other => panic!("unexpected result {:?}", other),
    }
    assert!(matches!(Image::check_extension(Some("PNG")), Err(Error::InvalidFileType(Some(_)))));
    assert!(matches!(Image::check_extension(Some("")), Err(Error::InvalidFileType(Some(_)))));
    assert!(matches!(Image::check_extension(Some("pngx")), Err(Error::InvalidFileType(Some(_)))));
    assert!(matches!(Image::check_extension(None), Err(Error::InvalidFileType(None))));
}

#[test]
fn texture_getters() {
    let mut t = Texture::new(3, 640, 481, Some(PixelFormat::Rgb));
    assert_eq!(t.inner(), 3);
    assert_eq!(t.width(), 640);
    assert_eq!(t.height(), 481);
    assert_eq!(t.dimensions(), (640, 481));
    assert_eq!(t.center(), Pos::new(320, 240));
    assert_eq!(t.format(), Some(PixelFormat::Rgb));
    *t.inner_mut() = 9;
    assert_eq!(t, Texture::new(9, 640, 481, Some(PixelFormat::Rgb)));
    assert_eq!(Texture::new(0, u32::MAX, 0, None).center(), Pos::new(i32::MAX / 2, 0));
    assert_eq!(to_side(7), 7);
    assert_eq!(to_side(u32::MAX), i32::MAX);
    assert_eq!(row_bytes(10, PixelFormat::Rgb), 30);
    assert_eq!(row_bytes(10, PixelFormat::Rgba), 40);
}

#[test]
fn textures_are_numbered_and_drawn_by_commands() {
    let mut s = PixState::init("test");
    let a = s.create_texture(8, 4, None).unwrap();
    let b = s.create_texture(2, 2, Some(PixelFormat::Rgb)).unwrap();
    assert_eq!(a, Texture::new(0, 8, 4, None));
    assert_eq!(b, Texture::new(1, 2, 2, Some(PixelFormat::Rgb)));
    s.update_texture(&b, Some(Rect::new(0, 0, 1, 1)), &[1, 2, 3], 3);
    s.texture(&b, None, Some(Rect::new(5, 5, 2, 2)));
    let commands = s.take_commands();
    assert_eq!(commands.len(), 4);
    assert!(matches!(
        &commands[0],
        DrawCommand::CreateTexture { id: 0, width: 8, height: 4, format: None }
    ));
    assert!(matches!(
        &commands[1],
        DrawCommand::CreateTexture { id: 1, width: 2, height: 2, format: Some(PixelFormat::Rgb) }
    ));
    match &commands[2] {
        DrawCommand::UpdateTexture { id, part, pixels, pitch } => {
            assert_eq!(*id, 1);
            assert_eq!(*part, Some(Rect::new(0, 0, 1, 1)));
            assert_eq!(pixels, &vec![1, 2, 3]);
            assert_eq!(*pitch, 3);
        }
        other => panic!("unexpected command {:?}", other),
    }
    assert!(matches!(
        &commands[3],
        DrawCommand::Texture { id: 1, src: None, dst: Some(_), angle: 0, .. }
    ));

    s.next_texture = usize::MAX;
    assert!(matches!(s.create_texture(1, 1, None), Err(PixError::TextureLimit)));
    assert!(s.take_commands().is_empty());
}

#[test]
fn image_gets_a_texture_when_it_is_first_drawn() {
    let mut s = PixState::init("test");
    let mut img = checker();
    s.image(Pos::new(10, 20), &mut img).unwrap();
    assert_eq!(img.texture_cache(), Some((0, false)));
    let commands = s.take_commands();
    assert_eq!(commands.len(), 3);
    assert!(matches!(
        &commands[0],
        DrawCommand::CreateTexture { id: 0, width: 3, height: 2, format: Some(PixelFormat::Rgba) }
    ));
    match &commands[1] {
        DrawCommand::UpdateTexture { id, part, pixels, pitch } => {
            assert_eq!(*id, 0);
            assert_eq!(*part, None);
            assert_eq!(&pixels[..], img.bytes());
            assert_eq!(*pitch, 12);
        }
        other => panic!("unexpected command {:?}", other),
    }
    match &commands[2] {
        DrawCommand::Texture { id, src, dst, angle, center, flipped, tint } => {
            assert_eq!(*id, 0);
            assert_eq!(*src, None);
            assert_eq!(*dst, Some(Rect::new(10, 20, 3, 2)));
            assert_eq!(*angle, 0);
            assert_eq!(*center, None);
            assert_eq!(*flipped, None);
            assert_eq!(*tint, None);
        }
        other => panic!("unexpected command {:?}", other),
    }

    // Drawn again unchanged: only the draw itself.
    s.image(Pos::new(10, 20), &mut img).unwrap();
    assert_eq!(s.take_commands().len(), 1);

    // Changed: the pixels are copied again.
    img.set_pixel(0, 0, Color::rgb(9, 9, 9));
    s.image_tint(Some(Color::rgb(255, 0, 0)));
    s.image_mode(DrawMode::Center);
    s.image_transformed(
        Rect::new(0, 0, 30, 20),
        &mut img,
        90_000_000,
        Some(Pos::new(1, 1)),
        Some(Flipped::Both),
    )
    .unwrap();
    assert_eq!(img.texture_cache(), Some((0, false)));
    let commands = s.take_commands();
    assert_eq!(commands.len(), 2);
    assert!(matches!(&commands[0], DrawCommand::UpdateTexture { id: 0, .. }));
    match &commands[1] {
        DrawCommand::Texture { dst, angle, center, flipped, tint, .. } => {
            assert_eq!(*dst, Some(Rect::new(0, 0, 30, 20)));
            assert_eq!(*angle, 90_000_000);
            assert_eq!(*center, Some(Pos::new(1, 1)));
            assert_eq!(*flipped, Some(Flipped::Both));
            assert_eq!(*tint, Some(Color::rgb(255, 0, 0)));
        }
        other => panic!("unexpected command {:?}", other),
    }

    // Placed by its center.
    s.image(Pos::new(10, 20), &mut img).unwrap();
    let commands = s.take_commands();
    assert!(matches!(
        &commands[0],
        DrawCommand::Texture { dst: Some(dst), .. } if *dst == Rect::new(9, 19, 3, 2)
    ));
    assert_eq!(s.next_texture, 1);
}

#[test]
fn image_without_texture_fails_when_no_number_is_left() {
    let mut s = PixState::init("test");
    s.next_texture = usize::MAX;
    let mut img = checker();
    assert!(matches!(s.image(Pos::new(0, 0), &mut img), Err(PixError::TextureLimit)));
    assert_eq!(img.texture_cache(), None);
    assert!(s.take_commands().is_empty());
    // One that has a texture needs no number.
    img.set_texture_id(5);
    assert!(s.image(Pos::new(0, 0), &mut img).is_ok());
}
