//! One derivative of one source image: the resized pixels, the file they
//! are meant for, and the streams that the encoders make of them.

use vstd::prelude::*;
use image::{DynamicImage, ImageError};
use webp::WebPEncodingError;
use crate::failure::Failure;
use crate::paths::{
    copy_range, extension, extension_of, file_name, file_name_of, with_extension,
    with_extension_of,
};
use crate::file_type::FileType;
use crate::pixels::{
    budget, color_of, cover, encode_jpeg, encode_png, encode_webp, geometry, jpeg_stream,
    png_stream, resize_exact, resize_to_fill, samples, to_rgb8, to_rgba8, ColorKind, Compression,
    Filter, Geometry, RowFilter,
};
use crate::text::{append, chars_of, string_of};

verus! {

/// The height of an image of `width` by `height` pixels that is resized to
/// the width `target` keeping its proportions: `height * target / width`,
/// rounded down.
pub open spec fn fit_height(width: nat, height: nat, target: nat) -> nat {
    height * target / width
}

/// Why no derivative of width `nwidth` that keeps the proportions can be
/// made of a source with the geometry `source`, if that is so.
pub open spec fn fit_refusal(source: Geometry, nwidth: u32) -> Option<Failure> {
    let nheight = fit_height(source.width as nat, source.height as nat, nwidth as nat);
    if source.width == 0 || source.height == 0 {
        Some(Failure::EmptyImage)
    } else if nwidth == 0 || nheight == 0 {
        Some(Failure::EmptyDerivative)
    } else if nheight > u32::MAX || 16 * source.width * nheight > budget() || 16 * nwidth * nheight
        > budget() {
        Some(Failure::TooLarge)
    } else {
        None
    }
}

/// Why no square derivative of side `nwidth` can be made of a source with
/// the geometry `source`, if that is so.
pub open spec fn fill_refusal(source: Geometry, nwidth: u32) -> Option<Failure> {
    let scaled = cover(source.width as int, source.height as int, nwidth as int);
    if source.width == 0 || source.height == 0 {
        Some(Failure::EmptyImage)
    } else if nwidth == 0 {
        Some(Failure::EmptyDerivative)
    } else if scaled > u32::MAX || 16 * scaled * scaled > budget() || 16 * source.width * scaled
        > budget() {
        Some(Failure::TooLarge)
    } else {
        None
    }
}

/// `path` with the extension of its last component replaced by `ext`.
pub open spec fn sibling(path: Seq<char>, ext: Seq<char>) -> Seq<char> {
    path.take(path.len() - file_name(path).len()) + with_extension(file_name(path), ext)
}

/// The height that `fit_height` gives, where the source has a width and
/// the height fits in 32 bits.
pub fn fitted_height(width: u32, height: u32, target: u32) -> (out: Option<u32>)
    ensures
        match out {
            Some(nheight) => width > 0 && nheight == fit_height(
                width as nat,
                height as nat,
                target as nat,
            ),
            None => width == 0 || fit_height(width as nat, height as nat, target as nat)
                > u32::MAX,
        },
{
    if width == 0 {
        return None;
    }
    assert(height * target <= 0xffff_ffff * 0xffff_ffff) by (nonlinear_arith)
        requires
            height <= 0xffff_ffff,
            target <= 0xffff_ffff,
    ;
    let product: u64 = (height as u64) * (target as u64);
    let nheight: u64 = product / (width as u64);
    if nheight > 0xffff_ffff {
        None
    } else {
        Some(nheight as u32)
    }
}

/// Whether a buffer of 16 bytes for each pixel of a `width` by `height`
/// image stays within the budget.
pub fn within_budget(width: u32, height: u32) -> (out: bool)
    ensures
        out == (16 * width * height <= budget()),
{
    assert(16 * width * height <= 16 * 0xffff_ffff * 0xffff_ffff) by (nonlinear_arith)
        requires
            width <= 0xffff_ffff,
            height <= 0xffff_ffff,
    ;
    let needed: u128 = 16 * (width as u128) * (height as u128);
    needed <= ((usize::MAX / 2) as u128)
}

/// Why no stream of the format `kind` is made of pixels of the geometry
/// `shape`, if none is: JPEG carries samples of one byte and sides up to
/// 65535, PNG samples of one or two bytes and no image without pixels.
pub open spec fn stream_refusal(kind: FileType, shape: Geometry) -> Option<Failure> {
    match kind {
        FileType::Jpeg => {
            if !shape.color.eight_bit() {
                Some(Failure::UnsupportedColor)
            } else if shape.width > 65535 || shape.height > 65535 {
                Some(Failure::TooLarge)
            } else {
                None
            }
        },
        FileType::Png => {
            if shape.color == ColorKind::Rgb32F || shape.color == ColorKind::Rgba32F {
                Some(Failure::UnsupportedColor)
            } else if shape.width == 0 || shape.height == 0 {
                Some(Failure::EmptyDerivative)
            } else {
                None
            }
        },
    }
}

/// Why no WebP stream is made of pixels of the geometry `shape`, if none
/// is: WebP has no image without pixels and none beyond 16383 pixels a
/// side. Pixels of any known layout can be carried.
pub open spec fn webp_limit(shape: Geometry) -> Option<Failure> {
    if shape.width == 0 || shape.height == 0 {
        Some(Failure::EmptyDerivative)
    } else if shape.width > 16383 || shape.height > 16383 {
        Some(Failure::TooLarge)
    } else {
        None
    }
}

/// What the WebP encoder is given for one derivative.
pub struct WebpInput {
    /// The pixels converted to three or four samples of one byte, where
    /// those of the derivative are not so laid out.
    pub converted: Option<DynamicImage>,
    /// Whether a pixel has four samples, the last saying how opaque it is.
    pub alpha: bool,
    pub width: u32,
    pub height: u32,
    /// Whether the stream is to hold the pixels without loss.
    pub lossless: bool,
    pub quality: u8,
}

impl WebpInput {
    /// The pixels that the encoder is given where those of the derivative
    /// are `original`: the converted ones where there are any.
    pub open spec fn pixels(self, original: DynamicImage) -> DynamicImage {
        match self.converted {
            Some(pixels) => pixels,
            None => original,
        }
    }
}

/// One derivative: the resized pixels, the path of the file they go to, the
/// size they were resized to and the quality to encode them with.
pub struct ImageOptimizer {
    pub nimage: DynamicImage,
    pub nfilename: String,
    pub nwidth: u32,
    pub nheight: u32,
    pub nquality: u8,
}

impl ImageOptimizer {
    /// The pixels have the stated size, in a known layout, and their samples
    /// take exactly the bytes that this size and layout need.
    pub open spec fn consistent(&self) -> bool {
        &&& geometry(self.nimage).width == self.nwidth
        &&& geometry(self.nimage).height == self.nheight
        &&& geometry(self.nimage).color != ColorKind::Other
        &&& samples(self.nimage).len() == geometry(self.nimage).byte_count()
    }

    /// The geometry of the derivative: its stated size and the layout of
    /// its pixels.
    pub open spec fn shape(&self) -> Geometry {
        Geometry { width: self.nwidth, height: self.nheight, color: geometry(self.nimage).color }
    }

    /// Why no stream of the format `kind` is made, if none is.
    pub open spec fn refusal(&self, kind: FileType) -> Option<Failure> {
        if !self.consistent() {
            Some(Failure::Inconsistent)
        } else {
            stream_refusal(kind, self.shape())
        }
    }

    /// Why no JPEG stream is made, if none is.
    pub open spec fn jpg_refusal(&self) -> Option<Failure> {
        self.refusal(FileType::Jpeg)
    }

    /// Why no PNG stream is made, if none is.
    pub open spec fn png_refusal(&self) -> Option<Failure> {
        self.refusal(FileType::Png)
    }

    /// Why the pixels are not handed to the WebP encoder, if they are not.
    pub open spec fn webp_refusal(&self) -> Option<Failure> {
        if !self.consistent() {
            Some(Failure::Inconsistent)
        } else {
            webp_limit(self.shape())
        }
    }

    /// The stream of the format `kind` that is made of the derivative: what
    /// the encoder of that format writes for its samples, size and layout,
    /// for JPEG at its quality, for PNG with default compression and no
    /// row filter. The PNG stream of samples of two bytes depends on the
    /// machine and has no such statement.
    pub open spec fn stream(&self, kind: FileType) -> Option<Seq<u8>> {
        match kind {
            FileType::Jpeg => Some(jpeg_stream(samples(self.nimage), self.shape(), self.nquality)),
            FileType::Png => {
                if self.shape().color.eight_bit() {
                    Some(
                        png_stream(
                            samples(self.nimage),
                            self.shape(),
                            Compression::Default,
                            RowFilter::NoFilter,
                        ),
                    )
                } else {
                    None
                }
            },
        }
    }

    /// Whether this is the derivative of a source of the geometry `source`
    /// that was asked for: at the path and quality given, of the width
    /// given, as high as it is wide for a thumbnail and else as the
    /// proportions of the source make it, with pixels of that size in the
    /// layout of the source.
    pub open spec fn derived(
        &self,
        source: Geometry,
        nfilename: Seq<char>,
        nwidth: u32,
        nquality: u8,
        thumbnail: bool,
    ) -> bool {
        &&& self.nfilename@ == nfilename
        &&& self.nwidth == nwidth
        &&& self.nheight == (if thumbnail {
            nwidth as nat
        } else {
            fit_height(source.width as nat, source.height as nat, nwidth as nat)
        })
        &&& self.nquality == nquality
        &&& geometry(self.nimage) == self.shape()
        &&& self.shape().color == source.color
        &&& source.color != ColorKind::Other ==> self.consistent()
    }

    /// The primary derivative: `original_image` resized to the width
    /// `nwidth`, keeping its proportions.
    pub fn new(original_image: &DynamicImage, nfilename: String, nwidth: u32, nquality: u8) -> (out:
        Result<ImageOptimizer, Failure>)
        ensures
            match out {
                Ok(made) => {
                    &&& fit_refusal(geometry(*original_image), nwidth) is None
                    &&& made.nfilename == nfilename
                    &&& made.nwidth == nwidth
                    &&& made.nheight == fit_height(
                        geometry(*original_image).width as nat,
                        geometry(*original_image).height as nat,
                        nwidth as nat,
                    )
                    &&& made.nquality == nquality
                    &&& geometry(made.nimage) == (Geometry {
                        width: made.nwidth,
                        height: made.nheight,
                        color: geometry(*original_image).color,
                    })
                    &&& geometry(*original_image).color != ColorKind::Other ==> made.consistent()
                    &&& made.derived(geometry(*original_image), nfilename@, nwidth, nquality, false)
                },
                Err(failure) => fit_refusal(geometry(*original_image), nwidth) == Some(failure),
            },
    {
        let width = original_image.width();
        let height = original_image.height();
        if width == 0 || height == 0 {
            return Err(Failure::EmptyImage);
        }
        let nheight = match fitted_height(width, height, nwidth) {
            Some(nheight) => nheight,
            None => {
                assert(nwidth != 0) by (nonlinear_arith)
                    requires
                        height * nwidth / (width as int) > 0,
                        width > 0,
                ;
                return Err(Failure::TooLarge);
            },
        };
        if nwidth == 0 || nheight == 0 {
            return Err(Failure::EmptyDerivative);
        }
        if !within_budget(width, nheight) || !within_budget(nwidth, nheight) {
            return Err(Failure::TooLarge);
        }
        let nimage = resize_exact(original_image, nwidth, nheight, Filter::Lanczos3);
        Ok(ImageOptimizer { nimage, nfilename, nwidth, nheight, nquality })
    }

    /// The thumbnail: `original_image` scaled until it covers a square of
    /// side `nwidth` and cut to that square around its centre.
    pub fn new_thumbnail(
        original_image: &DynamicImage,
        nfilename: String,
        nwidth: u32,
        nquality: u8,
    ) -> (out: Result<ImageOptimizer, Failure>)
        ensures
            match out {
                Ok(made) => {
                    &&& fill_refusal(geometry(*original_image), nwidth) is None
                    &&& made.nfilename == nfilename
                    &&& made.nwidth == nwidth
                    &&& made.nheight == nwidth
                    &&& made.nquality == nquality
                    &&& geometry(made.nimage) == (Geometry {
                        width: nwidth,
                        height: nwidth,
                        color: geometry(*original_image).color,
                    })
                    &&& geometry(*original_image).color != ColorKind::Other ==> made.consistent()
                    &&& made.derived(geometry(*original_image), nfilename@, nwidth, nquality, true)
                },
                Err(failure) => fill_refusal(geometry(*original_image), nwidth) == Some(failure),
            },
    {
        let width = original_image.width();
        let height = original_image.height();
        if width == 0 || height == 0 {
            return Err(Failure::EmptyImage);
        }
        if nwidth == 0 {
            return Err(Failure::EmptyDerivative);
        }
        let (long, short) = if width <= height {
            (height, width)
        } else {
            (width, height)
        };
        assert(long * nwidth <= 0xffff_ffff * 0xffff_ffff) by (nonlinear_arith)
            requires
                long <= 0xffff_ffff,
                nwidth <= 0xffff_ffff,
        ;
        let scaled: u64 = (long as u64) * (nwidth as u64) / (short as u64) + 1;
        assert(scaled == cover(width as int, height as int, nwidth as int));
        if scaled > 0xffff_ffff {
            return Err(Failure::TooLarge);
        }
        let scaled: u32 = scaled as u32;
        if !within_budget(scaled, scaled) || !within_budget(width, scaled) {
            return Err(Failure::TooLarge);
        }
        let nheight = nwidth;
        let nimage = resize_to_fill(original_image, nwidth, nheight, Filter::Lanczos3);
        Ok(ImageOptimizer { nimage, nfilename, nwidth, nheight, nquality })
    }

    /// The extension of the file that the derivative goes to.
    pub fn extension(&self) -> (out: Option<String>)
        ensures
            match out {
                Some(ext) => extension(file_name(self.nfilename@)) == Some(ext@),
                None => extension(file_name(self.nfilename@)) is None,
            },
    {
        let path = chars_of(self.nfilename.as_str());
        let name = file_name_of(path.as_slice());
        match extension_of(name.as_slice()) {
            Some(ext) => Some(string_of(ext.as_slice())),
            None => None,
        }
    }

    /// The path of the WebP stream of the derivative: that of the
    /// derivative, with `webp` for its extension.
    pub fn webp_filename(&self) -> (out: String)
        ensures
            out@ == sibling(self.nfilename@, "webp"@),
    {
        let path = chars_of(self.nfilename.as_str());
        let name = file_name_of(path.as_slice());
        let webp = chars_of("webp");
        let renamed = with_extension_of(name.as_slice(), webp.as_slice());
        proof {
            crate::paths::lemma_last_index(path@, '/');
        }
        let mut out = copy_range(path.as_slice(), 0, path.len() - name.len());
        append(&mut out, renamed.as_slice());
        string_of(out.as_slice())
    }

    /// Whether the pixels are what the derivative states.
    pub fn is_consistent(&self) -> (out: bool)
        ensures
            out == self.consistent(),
    {
        let width = self.nimage.width();
        let height = self.nimage.height();
        let color = color_of(&self.nimage);
        let bytes = self.nimage.as_bytes();
        let pixel = color.bytes_per_pixel();
        assert(width * height <= 0xffff_ffff * 0xffff_ffff && width * height * pixel <= 0xffff_ffff
            * 0xffff_ffff * 16) by (nonlinear_arith)
            requires
                width <= 0xffff_ffff,
                height <= 0xffff_ffff,
                pixel <= 16,
        ;
        let needed: u128 = (width as u128) * (height as u128) * (pixel as u128);
        width == self.nwidth && height == self.nheight && pixel != 0 && (bytes.len() as u128)
            == needed
    }

    /// What an encoder of the `image` crate made of the pixels, as this
    /// library reports it.
    pub fn encoded(outcome: Result<Vec<u8>, ImageError>) -> (out: Result<Vec<u8>, Failure>)
        ensures
            match outcome {
                Ok(stream) => out == Ok::<Vec<u8>, Failure>(stream),
                Err(_) => out == Err::<Vec<u8>, Failure>(Failure::Encode),
            },
    {
        match outcome {
            Ok(stream) => Ok(stream),
            Err(_) => Err(Failure::Encode),
        }
    }

    /// What the WebP encoder made of the pixels, as this library reports it.
    pub fn encoded_webp(outcome: Result<Vec<u8>, WebPEncodingError>) -> (out: Result<
        Vec<u8>,
        Failure,
    >)
        ensures
            match outcome {
                Ok(stream) => out == Ok::<Vec<u8>, Failure>(stream),
                Err(_) => out == Err::<Vec<u8>, Failure>(Failure::Encode),
            },
    {
        match outcome {
            Ok(stream) => Ok(stream),
            Err(_) => Err(Failure::Encode),
        }
    }

    /// Why no stream of the format `kind` is made, if none is.
    pub fn refuses(&self, kind: FileType) -> (out: Option<Failure>)
        ensures
            out == self.refusal(kind),
    {
        if !self.is_consistent() {
            return Some(Failure::Inconsistent);
        }
        let color = color_of(&self.nimage);
        match kind {
            FileType::Jpeg => {
                if !color.is_eight_bit() {
                    Some(Failure::UnsupportedColor)
                } else if self.nwidth > 65535 || self.nheight > 65535 {
                    Some(Failure::TooLarge)
                } else {
                    None
                }
            },
            FileType::Png => {
                if color == ColorKind::Rgb32F || color == ColorKind::Rgba32F {
                    Some(Failure::UnsupportedColor)
                } else if self.nwidth == 0 || self.nheight == 0 {
                    Some(Failure::EmptyDerivative)
                } else {
                    None
                }
            },
        }
    }

    /// Why the pixels are not handed to the WebP encoder, if they are not.
    pub fn refuses_webp(&self) -> (out: Option<Failure>)
        ensures
            out == self.webp_refusal(),
    {
        if !self.is_consistent() {
            Some(Failure::Inconsistent)
        } else if self.nwidth == 0 || self.nheight == 0 {
            Some(Failure::EmptyDerivative)
        } else if self.nwidth > 16383 || self.nheight > 16383 {
            Some(Failure::TooLarge)
        } else {
            None
        }
    }

    /// The JPEG stream of the derivative, at its quality: what the encoder
    /// writes for the pixels at their stated size. None is made exactly
    /// where `jpg_refusal` says so.
    pub fn save_jpg_image(&self) -> (out: Result<Vec<u8>, Failure>)
        ensures
            match self.jpg_refusal() {
                Some(failure) => out == Err::<Vec<u8>, Failure>(failure),
                None => out matches Ok(stream) && Some(stream@) == self.stream(FileType::Jpeg),
            },
    {
        if let Some(failure) = self.refuses(FileType::Jpeg) {
            return Err(failure);
        }
        Self::encoded(encode_jpeg(&self.nimage, self.nwidth, self.nheight, self.nquality))
    }

    /// The PNG stream of the derivative: what the encoder writes for the
    /// pixels at their stated size. None is made exactly where
    /// `png_refusal` says so.
    pub fn save_png_image(&self) -> (out: Result<Vec<u8>, Failure>)
        ensures
            match self.png_refusal() {
                Some(failure) => out == Err::<Vec<u8>, Failure>(failure),
                None => out matches Ok(stream) && (self.stream(FileType::Png) matches Some(
                    known,
                ) ==> stream@ == known),
            },
    {
        if let Some(failure) = self.refuses(FileType::Png) {
            return Err(failure);
        }
        Self::encoded(
            encode_png(
                &self.nimage,
                self.nwidth,
                self.nheight,
                Compression::Default,
                RowFilter::NoFilter,
            ),
        )
    }

    /// Whether `input` is what the WebP encoder is to be given for this
    /// derivative: its own width, height and quality, lossy, with four
    /// samples a pixel exactly where its pixels say how opaque they are.
    /// Pixels of three or four samples of one byte go as they are; any
    /// others go converted to that, at the same size, in a buffer that
    /// holds these pixels and no more.
    pub open spec fn webp_ready(&self, input: WebpInput) -> bool {
        let color = geometry(self.nimage).color;
        &&& input.alpha == color.alpha()
        &&& input.width == self.nwidth
        &&& input.height == self.nheight
        &&& !input.lossless
        &&& input.quality == self.nquality
        &&& if color == ColorKind::Rgb8 || color == ColorKind::Rgba8 {
            input.converted is None
        } else {
            &&& input.converted matches Some(pixels)
            &&& geometry(pixels) == (Geometry {
                width: self.nwidth,
                height: self.nheight,
                color: if color.alpha() {
                    ColorKind::Rgba8
                } else {
                    ColorKind::Rgb8
                },
            })
            &&& samples(pixels).len() == geometry(pixels).byte_count()
        }
    }

    /// What the WebP encoder is given for this derivative, or why it is
    /// given nothing.
    pub fn webp_input(&self) -> (out: Result<WebpInput, Failure>)
        ensures
            match out {
                Ok(input) => self.webp_refusal() is None && self.webp_ready(input),
                Err(failure) => self.webp_refusal() == Some(failure),
            },
    {
        if let Some(failure) = self.refuses_webp() {
            return Err(failure);
        }
        let color = color_of(&self.nimage);
        assert(4 * self.nwidth * self.nheight <= budget()) by (nonlinear_arith)
            requires
                self.nwidth <= 16383,
                self.nheight <= 16383,
                budget() >= 0x7fff_ffff,
        ;
        let alpha = color.has_alpha();
        let converted = if color == ColorKind::Rgb8 || color == ColorKind::Rgba8 {
            None
        } else if alpha {
            Some(to_rgba8(&self.nimage))
        } else {
            Some(to_rgb8(&self.nimage))
        };
        Ok(
            WebpInput {
                converted,
                alpha,
                width: self.nwidth,
                height: self.nheight,
                lossless: false,
                quality: self.nquality,
            },
        )
    }

    /// The WebP stream of the derivative, at its quality. The encoder is
    /// given what `webp_input` makes, and nothing where that refuses; what
    /// it makes of it is the encoder's to say.
    pub fn save_webp_image(&self) -> (out: Result<Vec<u8>, Failure>)
        ensures
            self.webp_refusal() is Some ==> out == Err::<Vec<u8>, Failure>(
                self.webp_refusal().unwrap(),
            ),
            self.webp_refusal() is None ==> out is Ok || out == Err::<Vec<u8>, Failure>(
                Failure::Encode,
            ),
    {
        let input = match self.webp_input() {
            Ok(input) => input,
            Err(failure) => {
                return Err(failure);
            },
        };
        let outcome = match &input.converted {
            Some(pixels) => encode_webp(self, &input, pixels),
            None => encode_webp(self, &input, &self.nimage),
        };
        Self::encoded_webp(outcome)
    }
}

} // verus!
