use image::{DynamicImage, GrayImage, ImageBuffer, ImageOutputFormat, Luma, Rgb, RgbImage, Rgba, RgbaImage};
use image_optimizer::convert_image::ConvertImage;
use image_optimizer::failure::Failure;
use image_optimizer::image_optimizer::{fitted_height, within_budget, ImageOptimizer};
use std::io::Cursor;

fn rgb(width: u32, height: u32) -> DynamicImage {
    DynamicImage::ImageRgb8(RgbImage::from_fn(width, height, |x, y| {
        Rgb([(x * 7 % 256) as u8, (y * 11 % 256) as u8, ((x + y) % 256) as u8])
    }))
}

fn rgba(width: u32, height: u32) -> DynamicImage {
    DynamicImage::ImageRgba8(RgbaImage::from_fn(width, height, |x, y| {
        Rgba([(x * 5 % 256) as u8, (y * 3 % 256) as u8, 90, 200])
    }))
}

fn gray(width: u32, height: u32) -> DynamicImage {
    DynamicImage::ImageLuma8(GrayImage::from_fn(width, height, |x, y| Luma([((x + y) % 256) as u8])))
}

fn gray16(width: u32, height: u32) -> DynamicImage {
    let buffer: ImageBuffer<Luma<u16>, Vec<u16>> =
        ImageBuffer::from_fn(width, height, |x, y| Luma([(x * 300 + y) as u16]));
    DynamicImage::ImageLuma16(buffer)
}

fn jpeg_bytes(image: &DynamicImage) -> Vec<u8> {
    let mut out = Cursor::new(Vec::new());
    image.write_to(&mut out, ImageOutputFormat::Jpeg(90)).unwrap();
    out.into_inner()
}

fn png_bytes(image: &DynamicImage) -> Vec<u8> {
    let mut out = Cursor::new(Vec::new());
    image.write_to(&mut out, ImageOutputFormat::Png).unwrap();
    out.into_inner()
}

fn size_of(stream: &[u8]) -> (u32, u32) {
    let image = image::load_from_memory(stream).unwrap();
    (image.width(), image.height())
}

fn webp_size_of(stream: &[u8]) -> (u32, u32) {
    let image = webp::Decoder::new(stream).decode().unwrap();
    (image.width(), image.height())
}

#[test]
fn primary_keeps_proportions_rounding_down() {
    let made = ImageOptimizer::new(&rgb(40, 20), String::from("/d/a_10.jpg"), 10, 90).unwrap();
    assert_eq!((made.nwidth, made.nheight), (10, 5));
    assert_eq!((made.nimage.width(), made.nimage.height()), (10, 5));
    assert_eq!(made.nquality, 90);
    assert_eq!(made.nfilename, "/d/a_10.jpg");
    let odd = ImageOptimizer::new(&rgb(7, 5), String::from("x.png"), 3, 1).unwrap();
    assert_eq!((odd.nwidth, odd.nheight), (3, 2));
    assert_eq!((odd.nimage.width(), odd.nimage.height()), (3, 2));
    let up = ImageOptimizer::new(&rgb(3, 5), String::from("x.png"), 10, 1).unwrap();
    assert_eq!((up.nwidth, up.nheight), (10, 16));
    assert_eq!((up.nimage.width(), up.nimage.height()), (10, 16));
}

#[test]
fn primary_height_is_floor_not_nearest() {
    // 3 * 5 / 4 = 3.75
    let made = ImageOptimizer::new(&rgb(4, 3), String::from("x.png"), 5, 1).unwrap();
    assert_eq!(made.nheight, 3);
    assert_eq!(fitted_height(4, 3, 5), Some(3));
    assert_eq!(fitted_height(1920, 1080, 500), Some(281));
    assert_eq!(fitted_height(1, 4294967295, 2), None);
    assert_eq!(fitted_height(1, 4294967295, 1), Some(4294967295));
    assert_eq!(fitted_height(1000, 1, 10), Some(0));
}

#[test]
fn primary_of_same_width_keeps_size() {
    let made = ImageOptimizer::new(&rgb(12, 9), String::from("x.png"), 12, 1).unwrap();
    assert_eq!((made.nimage.width(), made.nimage.height()), (12, 9));
}

#[test]
fn thumbnail_is_square() {
    let wide =
        ImageOptimizer::new_thumbnail(&rgb(40, 20), String::from("t.jpg"), 10, 80).unwrap();
    assert_eq!((wide.nwidth, wide.nheight), (10, 10));
    assert_eq!((wide.nimage.width(), wide.nimage.height()), (10, 10));
    let tall = ImageOptimizer::new_thumbnail(&rgb(9, 31), String::from("t.jpg"), 6, 80).unwrap();
    assert_eq!((tall.nwidth, tall.nheight), (6, 6));
    assert_eq!((tall.nimage.width(), tall.nimage.height()), (6, 6));
    let up = ImageOptimizer::new_thumbnail(&rgb(3, 2), String::from("t.jpg"), 8, 80).unwrap();
    assert_eq!((up.nimage.width(), up.nimage.height()), (8, 8));
}

#[test]
fn thumbnail_is_cut_not_padded() {
    // left half red, right half blue; the square is cut from the middle
    let source = DynamicImage::ImageRgb8(RgbImage::from_fn(40, 10, |x, _| {
        if x < 20 {
            Rgb([255, 0, 0])
        } else {
            Rgb([0, 0, 255])
        }
    }));
    let made = ImageOptimizer::new_thumbnail(&source, String::from("t.png"), 10, 80).unwrap();
    let pixels = made.nimage.to_rgb8();
    let left = pixels.get_pixel(0, 5);
    let right = pixels.get_pixel(9, 5);
    assert!(left[0] > 200 && left[2] < 50);
    assert!(right[2] > 200 && right[0] < 50);
    let top = pixels.get_pixel(0, 0);
    let bottom = pixels.get_pixel(0, 9);
    assert!(top[0] > 200 && bottom[0] > 200);
}

#[test]
fn derivatives_without_pixels_are_refused() {
    let empty = DynamicImage::new_rgb8(0, 5);
    assert_eq!(
        ImageOptimizer::new(&empty, String::new(), 10, 1).err(),
        Some(Failure::EmptyImage)
    );
    assert_eq!(
        ImageOptimizer::new_thumbnail(&empty, String::new(), 10, 1).err(),
        Some(Failure::EmptyImage)
    );
    assert_eq!(
        ImageOptimizer::new(&rgb(4, 4), String::new(), 0, 1).err(),
        Some(Failure::EmptyDerivative)
    );
    assert_eq!(
        ImageOptimizer::new_thumbnail(&rgb(4, 4), String::new(), 0, 1).err(),
        Some(Failure::EmptyDerivative)
    );
    assert_eq!(
        ImageOptimizer::new(&rgb(1000, 1), String::new(), 10, 1).err(),
        Some(Failure::EmptyDerivative)
    );
}

#[test]
fn derivatives_too_large_are_refused() {
    assert_eq!(
        ImageOptimizer::new(&rgb(1, 3), String::new(), 4294967295, 1).err(),
        Some(Failure::TooLarge)
    );
    assert_eq!(
        ImageOptimizer::new_thumbnail(&rgb(1, 3), String::new(), 4294967295, 1).err(),
        Some(Failure::TooLarge)
    );
    assert!(within_budget(1000, 1000));
    assert!(!within_budget(4294967295, 4294967295));
}

#[test]
fn jpeg_stream_has_the_derivative_size() {
    let made = ImageOptimizer::new(&rgb(40, 20), String::from("a_10.jpg"), 10, 90).unwrap();
    let stream = made.save_jpg_image().unwrap();
    assert_eq!(&stream[..2], &[0xff, 0xd8]);
    assert_eq!(size_of(&stream), (10, 5));
    let grey = ImageOptimizer::new(&gray(8, 8), String::from("a_4.jpg"), 4, 50).unwrap();
    assert_eq!(size_of(&grey.save_jpg_image().unwrap()), (4, 4));
}

#[test]
fn jpeg_quality_changes_the_stream() {
    let source = rgb(64, 64);
    let low = ImageOptimizer::new(&source, String::from("a.jpg"), 32, 10).unwrap();
    let high = ImageOptimizer::new(&source, String::from("a.jpg"), 32, 95).unwrap();
    assert!(low.save_jpg_image().unwrap().len() < high.save_jpg_image().unwrap().len());
}

#[test]
fn png_stream_has_the_derivative_size() {
    let made = ImageOptimizer::new(&rgba(30, 12), String::from("a_15.png"), 15, 90).unwrap();
    let stream = made.save_png_image().unwrap();
    assert_eq!(&stream[..4], &[0x89, b'P', b'N', b'G']);
    assert_eq!(size_of(&stream), (15, 6));
    let deep = ImageOptimizer::new(&gray16(8, 6), String::from("a_4.png"), 4, 90).unwrap();
    let stream = deep.save_png_image().unwrap();
    let back = image::load_from_memory(&stream).unwrap();
    assert_eq!((back.width(), back.height()), (4, 3));
    assert_eq!(back.color(), image::ColorType::L16);
}

#[test]
fn webp_stream_has_the_derivative_size() {
    let made = ImageOptimizer::new(&rgb(40, 20), String::from("a_10.jpg"), 10, 90).unwrap();
    let stream = made.save_webp_image().unwrap();
    assert_eq!(&stream[..4], b"RIFF");
    assert_eq!(&stream[8..12], b"WEBP");
    assert_eq!(webp_size_of(&stream), (10, 5));
    let alpha = ImageOptimizer::new_thumbnail(&rgba(9, 31), String::from("t.png"), 6, 75).unwrap();
    assert_eq!(webp_size_of(&alpha.save_webp_image().unwrap()), (6, 6));
}

#[test]
fn webp_keeps_the_colours() {
    let red = DynamicImage::ImageRgb8(RgbImage::from_pixel(16, 16, Rgb([250, 10, 10])));
    let made = ImageOptimizer::new(&red, String::from("r.png"), 8, 100).unwrap();
    let back = webp::Decoder::new(&made.save_webp_image().unwrap()).decode().unwrap();
    assert!(back[0] > 200 && back[1] < 60 && back[2] < 60);
    let clear = DynamicImage::ImageRgba8(RgbaImage::from_pixel(16, 16, Rgba([10, 250, 10, 255])));
    let made = ImageOptimizer::new(&clear, String::from("g.png"), 8, 100).unwrap();
    let back = webp::Decoder::new(&made.save_webp_image().unwrap()).decode().unwrap();
    assert!(back[0] < 60 && back[1] > 200 && back[2] < 60);
}

#[test]
fn layouts_that_a_format_cannot_carry_are_refused() {
    let deep = ImageOptimizer::new(&gray16(8, 6), String::from("a_4.png"), 4, 90).unwrap();
    assert_eq!(deep.save_jpg_image().err(), Some(Failure::UnsupportedColor));
    let float = ImageOptimizer {
        nimage: DynamicImage::new_rgb32f(2, 2),
        nfilename: String::from("f.png"),
        nwidth: 2,
        nheight: 2,
        nquality: 9,
    };
    assert_eq!(float.save_png_image().err(), Some(Failure::UnsupportedColor));
    assert_eq!(float.save_jpg_image().err(), Some(Failure::UnsupportedColor));
}

#[test]
fn webp_takes_every_layout() {
    let grey = ImageOptimizer::new(&gray(8, 6), String::from("a_4.jpg"), 4, 90).unwrap();
    assert_eq!(webp_size_of(&grey.save_webp_image().unwrap()), (4, 3));
    let deep = ImageOptimizer::new(&gray16(8, 6), String::from("a_4.png"), 4, 90).unwrap();
    assert_eq!(webp_size_of(&deep.save_webp_image().unwrap()), (4, 3));
    let white = DynamicImage::ImageLuma8(GrayImage::from_pixel(16, 16, Luma([240])));
    let made = ImageOptimizer::new(&white, String::from("w.png"), 8, 100).unwrap();
    let back = webp::Decoder::new(&made.save_webp_image().unwrap()).decode().unwrap();
    assert!(!back.is_alpha());
    assert_eq!(back.len(), 8 * 8 * 3);
    assert!(back[0] > 220 && back[1] > 220 && back[2] > 220);
    let veiled = DynamicImage::ImageLumaA8(image::GrayAlphaImage::from_pixel(
        16,
        16,
        image::LumaA([10, 128]),
    ));
    let made = ImageOptimizer::new(&veiled, String::from("v.png"), 8, 100).unwrap();
    let back = webp::Decoder::new(&made.save_webp_image().unwrap()).decode().unwrap();
    assert!(back.is_alpha());
    assert_eq!(back.len(), 8 * 8 * 4);
    assert!(back[0] < 40 && back[3] > 100 && back[3] < 160);
}

#[test]
fn webp_is_given_the_derivative_as_it_is() {
    let plain = ImageOptimizer::new(&rgb(40, 20), String::from("a.jpg"), 10, 63).unwrap();
    let input = plain.webp_input().unwrap();
    assert!(input.converted.is_none());
    assert!(!input.alpha);
    assert!(!input.lossless);
    assert_eq!((input.width, input.height, input.quality), (10, 5, 63));
    let clear = ImageOptimizer::new(&rgba(40, 20), String::from("a.png"), 10, 64).unwrap();
    let input = clear.webp_input().unwrap();
    assert!(input.converted.is_none());
    assert!(input.alpha);
    assert_eq!((input.width, input.height, input.quality), (10, 5, 64));
    let grey = ImageOptimizer::new(&gray(40, 20), String::from("a.png"), 10, 65).unwrap();
    let input = grey.webp_input().unwrap();
    let pixels = input.converted.unwrap();
    assert_eq!(pixels.color(), image::ColorType::Rgb8);
    assert_eq!((pixels.width(), pixels.height()), (10, 5));
    assert_eq!(pixels.as_bytes().len(), 10 * 5 * 3);
    assert!(!input.alpha);
    let veiled = DynamicImage::ImageLumaA8(image::GrayAlphaImage::from_pixel(
        8,
        8,
        image::LumaA([10, 128]),
    ));
    let made = ImageOptimizer::new(&veiled, String::from("v.png"), 4, 100).unwrap();
    let input = made.webp_input().unwrap();
    assert!(input.alpha);
    let pixels = input.converted.unwrap();
    assert_eq!(pixels.color(), image::ColorType::Rgba8);
    assert_eq!(pixels.as_bytes().len(), 4 * 4 * 4);
    let wide = ImageOptimizer::new(&rgb(16384, 1), String::from("w.jpg"), 16384, 90).unwrap();
    assert_eq!(wide.webp_input().err(), Some(Failure::TooLarge));
}

#[test]
fn webp_stream_is_of_the_sides_as_they_are() {
    let made = ImageOptimizer::new(&rgb(60, 20), String::from("a.jpg"), 30, 90).unwrap();
    assert_eq!(webp_size_of(&made.save_webp_image().unwrap()), (30, 10));
    let tall = ImageOptimizer::new(&rgba(20, 60), String::from("a.png"), 10, 90).unwrap();
    let back = webp::Decoder::new(&tall.save_webp_image().unwrap()).decode().unwrap();
    assert_eq!((back.width(), back.height()), (10, 30));
    assert!(back.is_alpha());
    assert!(back[3] > 150 && back[3] < 250);
}

#[test]
fn png_without_pixels_is_refused() {
    let none = ImageOptimizer {
        nimage: DynamicImage::new_rgb8(0, 4),
        nfilename: String::from("n.png"),
        nwidth: 0,
        nheight: 4,
        nquality: 9,
    };
    assert_eq!(none.save_png_image().err(), Some(Failure::EmptyDerivative));
    assert_eq!(none.save_webp_image().err(), Some(Failure::EmptyDerivative));
    assert_eq!(none.refuses(image_optimizer::file_type::FileType::Jpeg), None);
    assert_eq!(none.refuses_webp(), Some(Failure::EmptyDerivative));
}

#[test]
fn streams_are_made_by_the_encoder_of_the_format() {
    let source = rgb(32, 16);
    let made = ImageOptimizer::new(&source, String::from("a.jpg"), 16, 77).unwrap();
    let mut jpeg = Vec::new();
    image::codecs::jpeg::JpegEncoder::new_with_quality(&mut jpeg, 77)
        .encode(made.nimage.as_bytes(), 16, 8, made.nimage.color())
        .unwrap();
    assert_eq!(made.save_jpg_image().unwrap(), jpeg);
    let mut png = Vec::new();
    image::ImageEncoder::write_image(
        image::codecs::png::PngEncoder::new_with_quality(
            &mut png,
            image::codecs::png::CompressionType::Default,
            image::codecs::png::FilterType::NoFilter,
        ),
        made.nimage.as_bytes(),
        16,
        8,
        made.nimage.color(),
    )
    .unwrap();
    assert_eq!(made.save_png_image().unwrap(), png);
}

#[test]
fn sizes_beyond_a_format_are_refused() {
    let wide = ImageOptimizer::new(&rgb(16384, 1), String::from("w.jpg"), 16384, 90).unwrap();
    assert_eq!(wide.save_webp_image().err(), Some(Failure::TooLarge));
    assert_eq!(size_of(&wide.save_jpg_image().unwrap()), (16384, 1));
    let wider = ImageOptimizer {
        nimage: rgb(65536, 1),
        nfilename: String::from("w.jpg"),
        nwidth: 65536,
        nheight: 1,
        nquality: 9,
    };
    assert_eq!(wider.save_jpg_image().err(), Some(Failure::TooLarge));
}

#[test]
fn webp_quality_above_hundred_is_the_encoders_to_refuse() {
    let made = ImageOptimizer::new(&rgb(8, 8), String::from("a.jpg"), 4, 101).unwrap();
    assert_eq!(made.save_webp_image().err(), Some(Failure::Encode));
}

#[test]
fn pixels_that_do_not_match_are_refused() {
    let wrong = ImageOptimizer {
        nimage: rgb(4, 4),
        nfilename: String::from("a.jpg"),
        nwidth: 5,
        nheight: 4,
        nquality: 9,
    };
    assert!(!wrong.is_consistent());
    assert_eq!(wrong.save_jpg_image().err(), Some(Failure::Inconsistent));
    assert_eq!(wrong.save_png_image().err(), Some(Failure::Inconsistent));
    assert_eq!(wrong.save_webp_image().err(), Some(Failure::Inconsistent));
    let loose = ImageOptimizer {
        nimage: DynamicImage::ImageRgb8(RgbImage::from_raw(2, 2, vec![0; 20]).unwrap()),
        nfilename: String::from("a.jpg"),
        nwidth: 2,
        nheight: 2,
        nquality: 9,
    };
    assert_eq!(loose.save_jpg_image().err(), Some(Failure::Inconsistent));
    let right = ImageOptimizer {
        nimage: rgb(4, 4),
        nfilename: String::from("a.jpg"),
        nwidth: 4,
        nheight: 4,
        nquality: 9,
    };
    assert!(right.is_consistent());
}

#[test]
fn extension_and_webp_path() {
    let made = ImageOptimizer::new(&rgb(4, 4), String::from("/d/a.b/fly_2.JPG"), 2, 9).unwrap();
    assert_eq!(made.extension(), Some(String::from("JPG")));
    assert_eq!(made.webp_filename(), "/d/a.b/fly_2.webp");
    let bare = ImageOptimizer::new(&rgb(4, 4), String::from("/d/jpg.dir/plain"), 2, 9).unwrap();
    assert_eq!(bare.extension(), None);
    assert_eq!(bare.webp_filename(), "/d/jpg.dir/plain.webp");
    let inside = ImageOptimizer::new(&rgb(4, 4), String::from("/jpg/x.jpg.jpg"), 2, 9).unwrap();
    assert_eq!(inside.webp_filename(), "/jpg/x.jpg.webp");
}

#[test]
fn resize_one_writes_the_format_of_the_extension() {
    let jpg = ConvertImage::new("/s/a.JPeG", "/s", false, "/d", "", 4).unwrap();
    let files = jpg.resize_one(&jpeg_bytes(&rgb(8, 8)), 4, 90, false, false).unwrap();
    assert_eq!(&files[0].bytes[..3], &[0xff, 0xd8, 0xff]);
    let png = ConvertImage::new("/s/a.PNG", "/s", false, "/d", "", 4).unwrap();
    let files = png.resize_one(&png_bytes(&rgb(8, 8)), 4, 90, false, true).unwrap();
    assert_eq!(&files[0].bytes[..4], &[0x89, 0x50, 0x4e, 0x47]);
    assert_eq!(files[0].path, "/d/a_4_thumbnail.PNG");
}

#[test]
fn resize_one_makes_the_primary_files() {
    let names = ConvertImage::new("/s/p/fly.JPG", "/s", false, "/d", "/w/", 10).unwrap();
    let source = jpeg_bytes(&rgb(40, 20));
    let files = names.resize_one(&source, 10, 90, true, false).unwrap();
    assert_eq!(files.len(), 2);
    assert_eq!(files[0].path, "/d/p/fly_10.webp");
    assert_eq!(files[1].path, "/d/p/fly_10.JPG");
    assert_eq!(webp_size_of(&files[0].bytes), (10, 5));
    assert_eq!(
        image::load_from_memory_with_format(&files[1].bytes, image::ImageFormat::Jpeg)
            .map(|image| (image.width(), image.height()))
            .unwrap(),
        (10, 5)
    );
    let alone = names.resize_one(&source, 10, 90, false, false).unwrap();
    assert_eq!(alone.len(), 1);
    assert_eq!(alone[0].path, "/d/p/fly_10.JPG");
}

#[test]
fn resize_one_makes_the_thumbnail_files() {
    let names = ConvertImage::new("/s/p/kite.png", "/s", false, "/d", "/w/", 8).unwrap();
    let source = png_bytes(&rgba(24, 40));
    let files = names.resize_one(&source, 8, 70, true, true).unwrap();
    assert_eq!(files.len(), 2);
    assert_eq!(files[0].path, "/d/p/kite_8_thumbnail.webp");
    assert_eq!(files[1].path, "/d/p/kite_8_thumbnail.png");
    assert_eq!(webp_size_of(&files[0].bytes), (8, 8));
    assert_eq!(size_of(&files[1].bytes), (8, 8));
    assert_eq!(&files[1].bytes[..4], &[0x89, b'P', b'N', b'G']);
}

#[test]
fn resize_one_goes_by_the_extension_not_the_content() {
    let names = ConvertImage::new("/s/fly.png", "/s", false, "/d", "", 10).unwrap();
    let jpeg = jpeg_bytes(&rgb(40, 20));
    assert_eq!(names.resize_one(&jpeg, 10, 90, false, false).err(), Some(Failure::Decode));
    assert_eq!(names.resize_one(&[1, 2, 3], 10, 90, false, false).err(), Some(Failure::Decode));
    assert_eq!(names.resize_one(&[], 10, 90, true, true).err(), Some(Failure::Decode));
}

#[test]
fn resize_one_passes_refusals_on() {
    let names = ConvertImage::new("/s/fly.png", "/s", false, "/d", "", 10).unwrap();
    let flat = png_bytes(&rgb(1000, 1));
    assert_eq!(
        names.resize_one(&flat, 10, 90, false, false).err(),
        Some(Failure::EmptyDerivative)
    );
    let grey = png_bytes(&gray(10, 10));
    assert_eq!(names.resize_one(&grey, 5, 90, true, false).map(|files| files.len()), Ok(2));
    assert_eq!(names.resize_one(&grey, 5, 90, false, false).map(|files| files.len()), Ok(1));
    let jpg = ConvertImage::new("/s/deep.jpg", "/s", false, "/d", "", 10).unwrap();
    let wide = jpeg_bytes(&rgb(20, 10));
    assert_eq!(jpg.resize_one(&wide, 0, 90, false, true).err(), Some(Failure::EmptyDerivative));
}

#[test]
fn resize_one_refuses_a_source_without_format() {
    let names = ConvertImage {
        dest_file: String::from("/d/a_1.png"),
        dest_parent: String::from("/d"),
        dest_thumbnail: String::from("/d/a_1_thumbnail.png"),
        file_name_src: String::from("a.gif"),
        file_name_thumbnail: String::new(),
        file_name_thumbnail_webp: String::new(),
        file_name: String::new(),
        file_name_webp: String::new(),
        file_type: String::from("gif"),
        width: 1,
        src_file: String::from("/s/a.gif"),
    };
    let source = png_bytes(&rgb(4, 4));
    assert_eq!(
        names.resize_one(&source, 1, 90, false, false).err(),
        Some(Failure::UnsupportedFormat)
    );
}
