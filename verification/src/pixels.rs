//! Decoded images. The pixels stay in the `image` crate's `DynamicImage`;
//! what the library reads of them is their geometry. Everything in this
//! file that is not proved is named as such.

use vstd::prelude::*;
use image::codecs::jpeg::JpegEncoder;
use image::codecs::png::{CompressionType, FilterType, PngEncoder};
use image::imageops;
use image::{ColorType, DynamicImage, ImageEncoder, ImageError, ImageFormat};
use webp::{Encoder, PixelLayout, WebPEncodingError};
use crate::file_type::FileType;
use crate::image_optimizer::{ImageOptimizer, WebpInput};

verus! {

#[verifier::external_type_specification]
#[verifier::external_body]
pub struct ExDynamicImage(image::DynamicImage);

#[verifier::external_type_specification]
#[verifier::external_body]
pub struct ExImageError(image::ImageError);

#[verifier::external_type_specification]
#[verifier::external_body]
pub struct ExWebPEncodingError(webp::WebPEncodingError);

/// How the samples of one pixel are laid out.
#[derive(Clone, Copy, Debug, PartialEq, Eq, Structural)]
pub enum ColorKind {
    L8,
    La8,
    Rgb8,
    Rgba8,
    L16,
    La16,
    Rgb16,
    Rgba16,
    Rgb32F,
    Rgba32F,
    /// A layout that this library does not know.
    Other,
}

impl ColorKind {
    /// The number of bytes that one pixel takes; 0 for an unknown layout.
    pub open spec fn pixel_bytes(self) -> nat {
        match self {
            ColorKind::L8 => 1,
            ColorKind::La8 => 2,
            ColorKind::Rgb8 => 3,
            ColorKind::Rgba8 => 4,
            ColorKind::L16 => 2,
            ColorKind::La16 => 4,
            ColorKind::Rgb16 => 6,
            ColorKind::Rgba16 => 8,
            ColorKind::Rgb32F => 12,
            ColorKind::Rgba32F => 16,
            ColorKind::Other => 0,
        }
    }

    /// Whether every sample is one byte.
    pub open spec fn eight_bit(self) -> bool {
        self == ColorKind::L8 || self == ColorKind::La8 || self == ColorKind::Rgb8 || self
            == ColorKind::Rgba8
    }

    /// Whether a pixel carries how opaque it is.
    pub open spec fn alpha(self) -> bool {
        self == ColorKind::La8 || self == ColorKind::Rgba8 || self == ColorKind::La16 || self
            == ColorKind::Rgba16 || self == ColorKind::Rgba32F
    }

    pub fn has_alpha(&self) -> (out: bool)
        ensures
            out == self.alpha(),
    {
        match self {
            ColorKind::La8 => true,
            ColorKind::Rgba8 => true,
            ColorKind::La16 => true,
            ColorKind::Rgba16 => true,
            ColorKind::Rgba32F => true,
            _ => false,
        }
    }

    pub fn bytes_per_pixel(&self) -> (out: u8)
        ensures
            out == self.pixel_bytes(),
    {
        match self {
            ColorKind::L8 => 1,
            ColorKind::La8 => 2,
            ColorKind::Rgb8 => 3,
            ColorKind::Rgba8 => 4,
            ColorKind::L16 => 2,
            ColorKind::La16 => 4,
            ColorKind::Rgb16 => 6,
            ColorKind::Rgba16 => 8,
            ColorKind::Rgb32F => 12,
            ColorKind::Rgba32F => 16,
            ColorKind::Other => 0,
        }
    }

    pub fn is_eight_bit(&self) -> (out: bool)
        ensures
            out == self.eight_bit(),
    {
        match self {
            ColorKind::L8 => true,
            ColorKind::La8 => true,
            ColorKind::Rgb8 => true,
            ColorKind::Rgba8 => true,
            _ => false,
        }
    }
}

/// How the pixels of a resized image are weighed from those of the source.
#[derive(Clone, Copy, Debug, PartialEq, Eq, Structural)]
pub enum Filter {
    Nearest,
    Triangle,
    CatmullRom,
    Gaussian,
    Lanczos3,
}

/// How hard a PNG stream is compressed.
#[derive(Clone, Copy, Debug, PartialEq, Eq, Structural)]
pub enum Compression {
    Default,
    Fast,
    Best,
}

/// How the rows of a PNG stream are filtered before they are compressed.
#[derive(Clone, Copy, Debug, PartialEq, Eq, Structural)]
pub enum RowFilter {
    NoFilter,
    Paeth,
    Adaptive,
}

/// The size of an image in pixels and the layout of one pixel.
#[derive(Clone, Copy, Debug, PartialEq, Eq, Structural)]
pub struct Geometry {
    pub width: u32,
    pub height: u32,
    pub color: ColorKind,
}

impl Geometry {
    /// The number of bytes that the samples of such an image take.
    pub open spec fn byte_count(self) -> nat {
        (self.width * self.height * self.color.pixel_bytes()) as nat
    }
}

/// The samples that a `DynamicImage` holds, as the bytes that its
/// `as_bytes` hands out.
pub uninterp spec fn samples(image: DynamicImage) -> Seq<u8>;

/// The geometry of a `DynamicImage`: what its `width`, `height` and `color`
/// report.
pub uninterp spec fn geometry(image: DynamicImage) -> Geometry;

/// The geometry of the image that `bytes` hold in the format `file_type`,
/// as the decoder finds it; none where the decoder finds no image in them.
pub uninterp spec fn decoded_geometry(bytes: Seq<u8>, file_type: FileType) -> Option<Geometry>;

/// The JPEG stream that the encoder writes for samples of the given
/// geometry at the given quality.
pub uninterp spec fn jpeg_stream(samples: Seq<u8>, geometry: Geometry, quality: u8) -> Seq<u8>;

/// The PNG stream that the encoder writes for samples of the given
/// geometry, compressed and filtered as asked.
pub uninterp spec fn png_stream(
    samples: Seq<u8>,
    geometry: Geometry,
    compression: Compression,
    filter: RowFilter,
) -> Seq<u8>;

/// The largest number of bytes asked of the allocator for one buffer.
pub open spec fn budget() -> int {
    (usize::MAX / 2) as int
}

/// An upper bound of the longer side of a `width` by `height` image that is
/// scaled, keeping its proportions, until its shorter side is `side`.
pub open spec fn cover(width: int, height: int, side: int) -> int {
    if width <= height {
        height * side / width + 1
    } else {
        width * side / height + 1
    }
}

/// `DynamicImage::width` reports the width of the geometry.
pub assume_specification[ DynamicImage::width ](image: &DynamicImage) -> (out: u32)
    ensures
        out == geometry(*image).width,
;

/// `DynamicImage::height` reports the height of the geometry.
pub assume_specification[ DynamicImage::height ](image: &DynamicImage) -> (out: u32)
    ensures
        out == geometry(*image).height,
;

/// `DynamicImage::as_bytes` hands out the samples.
pub assume_specification<'a>[ DynamicImage::as_bytes ](image: &'a DynamicImage) -> (out: &'a [u8])
    ensures
        out@ == samples(*image),
;

/// `DynamicImage::color`, as a layout of this library: the layout of the
/// geometry.
#[verifier::external_body]
pub(crate) fn color_of(image: &DynamicImage) -> (out: ColorKind)
    ensures
        out == geometry(*image).color,
{
    match image.color() {
        ColorType::L8 => ColorKind::L8,
        ColorType::La8 => ColorKind::La8,
        ColorType::Rgb8 => ColorKind::Rgb8,
        ColorType::Rgba8 => ColorKind::Rgba8,
        ColorType::L16 => ColorKind::L16,
        ColorType::La16 => ColorKind::La16,
        ColorType::Rgb16 => ColorKind::Rgb16,
        ColorType::Rgba16 => ColorKind::Rgba16,
        ColorType::Rgb32F => ColorKind::Rgb32F,
        ColorType::Rgba32F => ColorKind::Rgba32F,
        _ => ColorKind::Other,
    }
}

/// `image::load_from_memory_with_format`: the image that `bytes` hold in
/// the given format, or the decoder's error. Whether there is an image, and
/// its geometry, depend on the bytes and the format alone. Nothing is
/// claimed of its samples: the decoders may round differently from one
/// machine to the next.
#[verifier::external_body]
pub(crate) fn decode(bytes: &[u8], file_type: FileType) -> (out: Result<DynamicImage, ImageError>)
    ensures
        match out {
            Ok(image) => decoded_geometry(bytes@, file_type) == Some(geometry(image)),
            Err(_) => decoded_geometry(bytes@, file_type) is None,
        },
{
    let format = match file_type {
        FileType::Jpeg => ImageFormat::Jpeg,
        FileType::Png => ImageFormat::Png,
    };
    image::load_from_memory_with_format(bytes, format)
}

/// `DynamicImage::to_rgb8`: the image with every pixel converted to three
/// samples of one byte, in a buffer of its own that holds these pixels and
/// no more. Left out is a size whose buffer exceeds the budget.
#[verifier::external_body]
pub(crate) fn to_rgb8(image: &DynamicImage) -> (out: DynamicImage)
    requires
        4 * geometry(*image).width * geometry(*image).height <= budget(),
        samples(*image).len() == geometry(*image).byte_count(),
        geometry(*image).color != ColorKind::Other,
    ensures
        geometry(out) == (Geometry {
            width: geometry(*image).width,
            height: geometry(*image).height,
            color: ColorKind::Rgb8,
        }),
        samples(out).len() == geometry(out).byte_count(),
{
    DynamicImage::ImageRgb8(image.to_rgb8())
}

/// `DynamicImage::to_rgba8`: the image with every pixel converted to four
/// samples of one byte, in a buffer of its own that holds these pixels and
/// no more. Left out is a size whose buffer exceeds the budget.
#[verifier::external_body]
pub(crate) fn to_rgba8(image: &DynamicImage) -> (out: DynamicImage)
    requires
        4 * geometry(*image).width * geometry(*image).height <= budget(),
        samples(*image).len() == geometry(*image).byte_count(),
        geometry(*image).color != ColorKind::Other,
    ensures
        geometry(out) == (Geometry {
            width: geometry(*image).width,
            height: geometry(*image).height,
            color: ColorKind::Rgba8,
        }),
        samples(out).len() == geometry(out).byte_count(),
{
    DynamicImage::ImageRgba8(image.to_rgba8())
}

/// `DynamicImage::resize_exact` with the filter asked for. The result has
/// the width and height asked for and the layout of the source,
/// in a buffer of its own that holds these pixels and no more. Left out are
/// a source without pixels and sizes whose buffers, at 16 bytes a pixel
/// while the rows are resampled, exceed the budget.
#[verifier::external_body]
pub(crate) fn resize_exact(image: &DynamicImage, nwidth: u32, nheight: u32, filter: Filter) -> (out:
    DynamicImage)
    requires
        geometry(*image).width >= 1,
        geometry(*image).height >= 1,
        16 * geometry(*image).width * nheight <= budget(),
        16 * nwidth * nheight <= budget(),
    ensures
        geometry(out).width == nwidth,
        geometry(out).height == nheight,
        geometry(out).color == geometry(*image).color,
        geometry(out).color != ColorKind::Other ==> samples(out).len() == geometry(out).byte_count(),
{
    let filter = match filter {
        Filter::Nearest => imageops::FilterType::Nearest,
        Filter::Triangle => imageops::FilterType::Triangle,
        Filter::CatmullRom => imageops::FilterType::CatmullRom,
        Filter::Gaussian => imageops::FilterType::Gaussian,
        Filter::Lanczos3 => imageops::FilterType::Lanczos3,
    };
    image.resize_exact(nwidth, nheight, filter)
}

/// `DynamicImage::resize_to_fill` with the filter asked for, for a square
/// target. The source is scaled until it covers the square and the
/// overflow is cut away around the centre, so the result has the side asked
/// for, twice, and the layout of the source, in a buffer of its own that
/// holds these pixels and no more. Left out are a source without pixels, an
/// empty target, and a scaled size that does not fit in 32 bits or whose
/// buffers exceed the budget.
#[verifier::external_body]
pub(crate) fn resize_to_fill(image: &DynamicImage, nwidth: u32, nheight: u32, filter: Filter) -> (out:
    DynamicImage)
    requires
        nwidth == nheight,
        nwidth >= 1,
        geometry(*image).width >= 1,
        geometry(*image).height >= 1,
        cover(geometry(*image).width as int, geometry(*image).height as int, nwidth as int)
            <= u32::MAX,
        16 * cover(geometry(*image).width as int, geometry(*image).height as int, nwidth as int)
            * cover(geometry(*image).width as int, geometry(*image).height as int, nwidth as int)
            <= budget(),
        16 * geometry(*image).width * cover(
            geometry(*image).width as int,
            geometry(*image).height as int,
            nwidth as int,
        ) <= budget(),
    ensures
        geometry(out).width == nwidth,
        geometry(out).height == nheight,
        geometry(out).color == geometry(*image).color,
        geometry(out).color != ColorKind::Other ==> samples(out).len() == geometry(out).byte_count(),
{
    let filter = match filter {
        Filter::Nearest => imageops::FilterType::Nearest,
        Filter::Triangle => imageops::FilterType::Triangle,
        Filter::CatmullRom => imageops::FilterType::CatmullRom,
        Filter::Gaussian => imageops::FilterType::Gaussian,
        Filter::Lanczos3 => imageops::FilterType::Lanczos3,
    };
    image.resize_to_fill(nwidth, nheight, filter)
}

/// `JpegEncoder::new_with_quality` and `encode`, into a vector: the JPEG
/// stream of the samples, or the encoder's error. The encoder refuses
/// nothing but samples of more than one byte and a side above 65535. It
/// panics unless the samples take exactly width times height times the
/// pixel's bytes.
#[verifier::external_body]
pub(crate) fn encode_jpeg(image: &DynamicImage, width: u32, height: u32, quality: u8) -> (out:
    Result<Vec<u8>, ImageError>)
    requires
        geometry(*image).color != ColorKind::Other,
        samples(*image).len() == width * height * geometry(*image).color.pixel_bytes(),
    ensures
        out matches Ok(stream) ==> stream@ == jpeg_stream(
            samples(*image),
            Geometry { width, height, color: geometry(*image).color },
            quality,
        ),
        geometry(*image).color.eight_bit() && width <= 65535 && height <= 65535 ==> out is Ok,
{
    let mut out = Vec::new();
    JpegEncoder::new_with_quality(&mut out, quality).encode(
        image.as_bytes(),
        width,
        height,
        image.color(),
    )?;
    Ok(out)
}

/// `PngEncoder::new_with_quality`, with the compression and the row filter
/// asked for, and `write_image`, into a vector: the PNG stream of the
/// samples, or the encoder's error. The encoder refuses nothing but samples
/// of four bytes and an image without pixels. Samples of one byte give the
/// same stream everywhere; those of two bytes are read in the byte order of
/// the machine, so nothing is claimed of their stream. The encoder panics
/// unless the samples take exactly width times height times the pixel's
/// bytes.
#[verifier::external_body]
pub(crate) fn encode_png(
    image: &DynamicImage,
    width: u32,
    height: u32,
    compression: Compression,
    filter: RowFilter,
) -> (out: Result<Vec<u8>, ImageError>)
    requires
        geometry(*image).color != ColorKind::Other,
        samples(*image).len() == width * height * geometry(*image).color.pixel_bytes(),
    ensures
        out matches Ok(stream) ==> (geometry(*image).color.eight_bit() ==> stream@ == png_stream(
            samples(*image),
            Geometry { width, height, color: geometry(*image).color },
            compression,
            filter,
        )),
        geometry(*image).color != ColorKind::Rgb32F && geometry(*image).color
            != ColorKind::Rgba32F && width >= 1 && height >= 1 ==> out is Ok,
{
    let level = match compression {
        Compression::Default => CompressionType::Default,
        Compression::Fast => CompressionType::Fast,
        Compression::Best => CompressionType::Best,
    };
    let rows = match filter {
        RowFilter::NoFilter => FilterType::NoFilter,
        RowFilter::Paeth => FilterType::Paeth,
        RowFilter::Adaptive => FilterType::Adaptive,
    };
    let mut out = Vec::new();
    let encoder = PngEncoder::new_with_quality(&mut out, level, rows);
    encoder.write_image(image.as_bytes(), width, height, image.color())?;
    Ok(out)
}

/// `webp::Encoder::new` and `encode_simple`: the WebP stream of `pixels`,
/// or the encoder's error. Nothing is claimed of either: the encoder may
/// fail for reasons of its own, and its arithmetic is that of the machine.
/// It reads width times height pixels of three bytes, or of four with
/// alpha, without looking at the length of what it is given, and WebP has
/// no image beyond 16383 pixels a side. So it is called with nothing but
/// what is ready for a derivative that WebP can hold.
#[verifier::external_body]
pub(crate) fn encode_webp(derivative: &ImageOptimizer, input: &WebpInput, pixels: &DynamicImage) -> (out:
    Result<Vec<u8>, WebPEncodingError>)
    requires
        derivative.webp_refusal() is None,
        derivative.webp_ready(*input),
        *pixels == input.pixels(derivative.nimage),
{
    let layout = if input.alpha { PixelLayout::Rgba } else { PixelLayout::Rgb };
    let encoder = Encoder::new(pixels.as_bytes(), layout, input.width, input.height);
    match encoder.encode_simple(input.lossless, input.quality.into()) {
        Ok(memory) => Ok(memory.to_vec()),
        Err(error) => Err(error),
    }
}

} // verus!
