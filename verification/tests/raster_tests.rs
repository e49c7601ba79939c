use image::{ImageOutputFormat, Rgba, RgbaImage};
use nasa_wallpaper::compositor::{prepare, prepare_decoded};
use nasa_wallpaper::error::OverlayError;
use nasa_wallpaper::overlay::{geometry, OverlaySpec};
use nasa_wallpaper::raster::Raster;
use std::io::Cursor;

fn caption(title: &str, body: &str) -> OverlaySpec {
    OverlaySpec { title: title.to_string(), body: body.to_string() }
}

fn png_of(image: &RgbaImage) -> Vec<u8> {
    let mut bytes = Vec::new();
    image.write_to(&mut Cursor::new(&mut bytes), ImageOutputFormat::Png).unwrap();
    bytes
}

fn uniform(width: u32, height: u32, pixel: [u8; 4]) -> Raster {
    let mut pixels = Vec::new();
    for _ in 0..(width as usize * height as usize) {
        pixels.extend_from_slice(&pixel);
    }
    Raster::new(width, height, pixels).unwrap()
}

#[test]
fn raster_needs_four_bytes_a_pixel() {
    assert!(Raster::new(2, 3, vec![0; 24]).is_some());
    assert!(Raster::new(2, 3, vec![0; 23]).is_none());
    assert!(Raster::new(2, 3, vec![0; 25]).is_none());
    assert!(Raster::new(0, 0, Vec::new()).is_some());
    assert!(Raster::new(0, 9, Vec::new()).is_some());
    assert!(Raster::new(0, 0, vec![0; 4]).is_none());
    assert!(Raster::new(u32::MAX, u32::MAX, vec![0; 4]).is_none());
}

#[test]
fn raster_gives_back_what_it_holds() {
    let pixels: Vec<u8> = (0..24).collect();
    let raster = Raster::new(3, 2, pixels.clone()).unwrap();
    assert_eq!(raster.width(), 3);
    assert_eq!(raster.height(), 2);
    assert_eq!(raster.pixels(), &pixels);
    assert_eq!(raster.pixel(0, 0), Some((0, 1, 2, 3)));
    assert_eq!(raster.pixel(2, 0), Some((8, 9, 10, 11)));
    assert_eq!(raster.pixel(0, 1), Some((12, 13, 14, 15)));
    assert_eq!(raster.pixel(2, 1), Some((20, 21, 22, 23)));
    assert_eq!(raster.pixel(3, 0), None);
    assert_eq!(raster.pixel(0, 2), None);
    assert_eq!(raster.into_pixels(), pixels);
}

#[test]
fn darken_dims_the_lowest_thirty_percent() {
    let darkened = uniform(4, 10, [200, 100, 50, 128]).darken_band();
    assert_eq!(darkened.width(), 4);
    assert_eq!(darkened.height(), 10);
    for y in 0..10 {
        for x in 0..4 {
            let expected = if y < 7 { (200, 100, 50, 128) } else { (60, 30, 15, 255) };
            assert_eq!(darkened.pixel(x, y), Some(expected));
        }
    }
}

#[test]
fn darken_rounds_each_channel_down() {
    let darkened = uniform(1, 10, [255, 9, 1, 0]).darken_band();
    assert_eq!(darkened.pixel(0, 6), Some((255, 9, 1, 0)));
    assert_eq!(darkened.pixel(0, 7), Some((76, 2, 0, 255)));
}

#[test]
fn darken_agrees_with_floating_point_on_every_channel_value() {
    let mut pixels = Vec::new();
    for value in 0..=255u8 {
        pixels.extend_from_slice(&[value, value, value, value]);
    }
    let darkened = Raster::new(256, 1, pixels).unwrap();
    assert_eq!(geometry(256, 1).band_height, 0);
    let darkened = darkened.darken_band();
    for value in 0..=255u8 {
        assert_eq!(darkened.pixel(value as u32, 0), Some((value, value, value, value)));
    }
    let mut column = Vec::new();
    for value in 0..=255u8 {
        column.extend_from_slice(&[value, value, value, value]);
        column.extend_from_slice(&[value, value, value, value]);
        column.extend_from_slice(&[value, value, value, value]);
        column.extend_from_slice(&[value, value, value, value]);
    }
    let tall = Raster::new(1, 1024, column).unwrap().darken_band();
    for y in 717..1024u32 {
        let value = (y / 4) as u8;
        let dimmed = (value as f32 * 0.3) as u8;
        assert_eq!(tall.pixel(0, y), Some((dimmed, dimmed, dimmed, 255)));
    }
    assert_eq!(tall.pixel(0, 716), Some((179, 179, 179, 179)));
}

#[test]
fn darken_leaves_images_without_band_alone() {
    let darkened = uniform(5, 3, [9, 8, 7, 6]).darken_band();
    for y in 0..3 {
        for x in 0..5 {
            assert_eq!(darkened.pixel(x, y), Some((9, 8, 7, 6)));
        }
    }
    assert_eq!(uniform(0, 0, [0; 4]).darken_band().into_pixels(), Vec::<u8>::new());
    assert_eq!(uniform(0, 50, [0; 4]).darken_band().height(), 50);
}

#[test]
fn decode_reads_a_png() {
    let mut image = RgbaImage::new(3, 2);
    image.put_pixel(1, 1, Rgba([10, 20, 30, 40]));
    let raster = Raster::decode(&png_of(&image)).unwrap();
    assert_eq!(raster.width(), 3);
    assert_eq!(raster.height(), 2);
    assert_eq!(raster.pixels().len(), 24);
    assert_eq!(raster.pixel(1, 1), Some((10, 20, 30, 40)));
    assert_eq!(raster.pixel(0, 0), Some((0, 0, 0, 0)));
}

#[test]
fn decode_refuses_what_is_no_image() {
    assert_eq!(Raster::decode(b"not an image").err(), Some(OverlayError::DecodeError));
    assert_eq!(Raster::decode(&[]).err(), Some(OverlayError::DecodeError));
    let mut cut = png_of(&RgbaImage::new(8, 8));
    cut.truncate(20);
    assert_eq!(Raster::decode(&cut).err(), Some(OverlayError::DecodeError));
}

#[test]
fn encode_writes_a_jpeg_of_the_same_sides() {
    let file = uniform(16, 8, [200, 10, 10, 255]).encode_jpeg().unwrap();
    assert_eq!(&file[..2], &[0xff, 0xd8]);
    let back = Raster::decode(&file).unwrap();
    assert_eq!(back.width(), 16);
    assert_eq!(back.height(), 8);
    let (r, g, b, a) = back.pixel(3, 3).unwrap();
    assert!(r > 0x80 && g < 0x80 && b < 0x80);
    assert_eq!(a, 255);
}

#[test]
fn encode_refuses_sides_beyond_what_jpeg_holds() {
    let wide = Raster::new(65_536, 1, vec![0; 4 * 65_536]).unwrap();
    assert_eq!(wide.encode_jpeg().err(), Some(OverlayError::EncodeError));
    let fits = Raster::new(65_535, 1, vec![0; 4 * 65_535]).unwrap();
    assert!(fits.encode_jpeg().is_ok());
}

#[test]
fn test_draw_overlay() {
    // Create a blank 100x100 image
    let mut image = image::RgbaImage::new(100, 100);
    // Fill with black
    for pixel in image.pixels_mut() {
        *pixel = image::Rgba([0, 0, 0, 255]);
    }
    let mut bytes = Vec::new();
    image.write_to(&mut std::io::Cursor::new(&mut bytes), image::ImageOutputFormat::Png).unwrap();

    let result = prepare(&bytes, &caption("Test Title", "Test Explanation"));
    assert!(result.is_ok());
    let job = result.unwrap();
    assert!(job.canvas.encode_jpeg().is_ok());
}

#[test]
fn prepare_darkens_and_plans() {
    let mut image = RgbaImage::new(120, 10);
    for pixel in image.pixels_mut() {
        *pixel = Rgba([100, 100, 100, 200]);
    }
    let job = prepare(&png_of(&image), &caption("T", "one two three four five six")).unwrap();
    assert_eq!(job.canvas.width(), 120);
    assert_eq!(job.canvas.height(), 10);
    assert_eq!(job.canvas.pixel(0, 6), Some((100, 100, 100, 200)));
    assert_eq!(job.canvas.pixel(0, 7), Some((30, 30, 30, 255)));
    assert_eq!(job.canvas.pixel(119, 9), Some((30, 30, 30, 255)));
    assert_eq!(job.plan.geometry, geometry(120, 10));
    assert_eq!(job.plan.title, "T");
    assert_eq!(job.plan.body, "one two\nthree four\nfive six");
}

#[test]
fn prepare_refuses_what_is_no_image() {
    assert_eq!(
        prepare(b"plain text", &caption("T", "B")).err(),
        Some(OverlayError::DecodeError)
    );
}

#[test]
fn prepare_darkens_the_same_whatever_the_caption() {
    let with_text = prepare_decoded(uniform(6, 10, [50, 60, 70, 80]), &caption("Title", "Body"));
    let without = prepare_decoded(uniform(6, 10, [50, 60, 70, 80]), &caption("", ""));
    assert_eq!(with_text.canvas.pixels(), without.canvas.pixels());
    assert_eq!(without.plan.title, "");
    assert_eq!(without.plan.body, "");
    assert_eq!(without.canvas.pixel(0, 9), Some((15, 18, 21, 255)));
}

#[test]
fn compositing_round_trip_keeps_the_sides() {
    let mut image = RgbaImage::new(40, 30);
    for (x, y, pixel) in image.enumerate_pixels_mut() {
        *pixel = Rgba([(x * 6) as u8, (y * 8) as u8, 128, 255]);
    }
    let first = Raster::decode(&png_of(&image)).unwrap().encode_jpeg().unwrap();
    let job = prepare(&first, &caption("", "")).unwrap();
    let second = job.canvas.encode_jpeg().unwrap();
    let back = Raster::decode(&second).unwrap();
    assert_eq!(back.width(), 40);
    assert_eq!(back.height(), 30);
    let (r, g, b, _) = back.pixel(20, 25).unwrap();
    assert!(r < 60 && g < 80 && b < 60);
    let (_, _, b, _) = back.pixel(20, 5).unwrap();
    assert!(b > 100);
}

#[test]
fn encode_of_an_image_without_pixels_is_written() {
    assert!(uniform(0, 0, [0; 4]).encode_jpeg().is_ok());
    assert!(uniform(0, 5, [0; 4]).encode_jpeg().is_ok());
    assert!(uniform(5, 0, [0; 4]).encode_jpeg().is_ok());
}
