//! Pixel buffers, and their PNG form.

use vstd::prelude::*;
use vstd::slice::slice_to_vec;
use vstd::string::StrSliceExecFns;
use crate::color::Color;
use crate::shape::rect::Pos;
use crate::texture::{side, to_side, TextureId};

verus! {

/// How the bytes of a pixel buffer are read.
#[derive(Clone, Copy, Debug, PartialEq, Eq, Structural, Hash)]
pub enum PixelFormat {
    /// 8-bit red, green and blue.
    Rgb,
    /// 8-bit red, green, blue and alpha.
    Rgba,
}

impl PixelFormat {
    /// The number of bytes of one pixel.
    pub open spec fn spec_channels(self) -> nat {
        match self {
            PixelFormat::Rgb => 3,
            PixelFormat::Rgba => 4,
        }
    }

    /// The number of bytes of one pixel.
    pub fn channels(&self) -> (n: usize)
        ensures
            n == self.spec_channels(),
    {
        match self {
            PixelFormat::Rgb => 3,
            PixelFormat::Rgba => 4,
        }
    }
}

impl Default for PixelFormat {
    fn default() -> (format: Self)
        ensures
            format == PixelFormat::Rgba,
    {
        PixelFormat::Rgba
    }
}

/// The error of the PNG decoder, `png::DecodingError`. It is carried as it
/// is; nothing is known of what it holds.
#[verifier::external_type_specification]
#[verifier::external_body]
pub struct ExDecodingError(png::DecodingError);

/// The error of the PNG encoder, `png::EncodingError`. It is carried as it
/// is; nothing is known of what it holds.
#[verifier::external_type_specification]
#[verifier::external_body]
pub struct ExEncodingError(png::EncodingError);

/// What can go wrong with an image.
#[derive(Debug)]
#[non_exhaustive]
pub enum Error {
    /// The number of bytes is not what the dimensions and the format ask for.
    /// Holds the dimensions, the number of bytes, and the format.
    InvalidImage((u32, u32), usize, PixelFormat),
    /// The file is not a PNG file by its extension, which this holds.
    InvalidFileType(Option<String>),
    /// The PNG color type, which this holds by its code, is neither RGB nor
    /// RGBA.
    UnsupportedColorType(u8),
    /// The PNG does not have the bit depth 8, but the one that this holds.
    UnsupportedBitDepth(u8),
    /// The bytes are not a PNG that can be decoded.
    DecodingError(png::DecodingError),
    /// The image cannot be encoded as PNG.
    EncodingError(png::EncodingError),
}

/// PNG code of the color type RGB.
pub const PNG_RGB: u8 = 2;

/// PNG code of the color type RGBA.
pub const PNG_RGBA: u8 = 6;

/// What the header of a PNG says of the decoded image.
#[derive(Clone, Copy, Debug, PartialEq, Eq, Structural, Hash)]
pub struct PngInfo {
    /// Width in pixels.
    pub width: u32,
    /// Height in pixels.
    pub height: u32,
    /// Color type of the decoded pixels, by its PNG code.
    pub color_type: u8,
    /// Bits per sample of the decoded pixels.
    pub bit_depth: u8,
}

/// What the PNG decoder reads from the header of `bytes`; nothing if it
/// rejects them.
pub uninterp spec fn png_info(bytes: Seq<u8>) -> Option<PngInfo>;

/// The pixels that the PNG decoder reads from the first frame of `bytes`;
/// nothing if it rejects them.
pub uninterp spec fn png_frame(bytes: Seq<u8>) -> Option<Seq<u8>>;

/// The PNG file that the encoder writes for RGBA pixels of the given
/// dimensions; nothing if it rejects them.
pub uninterp spec fn png_encoded(width: u32, height: u32, data: Seq<u8>) -> Option<Seq<u8>>;

/// Reads the header of a PNG with `png::Decoder::read_info`, with the
/// decoder's default limits and transformations. The contract claims that
/// the outcome depends on the bytes alone: it is `png_info` of them. It leaves
/// out no input: the decoder answers bytes that are no PNG with an error.
#[verifier::external_body]
fn png_read_info(bytes: &[u8]) -> (r: Result<PngInfo, png::DecodingError>)
    ensures
        r matches Ok(info) ==> png_info(bytes@) == Some(info),
        r is Err ==> png_info(bytes@) is None,
{
    let (info, _) = png::Decoder::new(bytes).read_info()?;
    Ok(
        PngInfo {
            width: info.width,
            height: info.height,
            color_type: info.color_type as u8,
            bit_depth: info.bit_depth as u8,
        },
    )
}

/// Decodes the first frame of a PNG with `png::Reader::next_frame`, into a
/// buffer of the size that the header asks for. The contract claims that the
/// outcome depends on the bytes alone: it is `png_frame` of them. It leaves
/// out no input: the decoder answers pixels that it cannot read with an
/// error.
#[verifier::external_body]
fn png_read_frame(bytes: &[u8]) -> (r: Result<Vec<u8>, png::DecodingError>)
    ensures
        r matches Ok(data) ==> png_frame(bytes@) == Some(data@),
        r is Err ==> png_frame(bytes@) is None,
{
    let (info, mut reader) = png::Decoder::new(bytes).read_info()?;
    let mut data = vec![0; info.buffer_size()];
    reader.next_frame(&mut data)?;
    Ok(data)
}

/// Encodes 8-bit RGBA pixels as a PNG file with `png::Encoder` and
/// `png::Writer::write_image_data`. The contract claims that the outcome
/// depends on the arguments alone, and that the encoder accepts no image
/// without pixels and no data of another length than four bytes per pixel. It
/// leaves out dimensions whose byte count does not fit a `usize`, which the
/// encoder multiplies without a check.
#[verifier::external_body]
fn png_write(width: u32, height: u32, data: &[u8]) -> (r: Result<Vec<u8>, png::EncodingError>)
    requires
        4 * width * height <= usize::MAX,
    ensures
        r matches Ok(file) ==> png_encoded(width, height, data@) == Some(file@),
        r is Err ==> png_encoded(width, height, data@) is None,
        r is Ok ==> width > 0 && height > 0 && data@.len() == 4 * width * height,
{
    let mut file = Vec::new();
    let mut encoder = png::Encoder::new(&mut file, width, height);
    encoder.set_color(png::ColorType::RGBA);
    encoder.write_header()?.write_image_data(data)?;
    Ok(file)
}

/// A buffer of pixels.
#[derive(Debug)]
#[non_exhaustive]
pub struct Image {
    /// Width in pixels.
    pub width: u32,
    /// Height in pixels.
    pub height: u32,
    /// The pixels, row by row.
    pub data: Vec<u8>,
    /// How the bytes are read.
    pub format: PixelFormat,
    /// The texture that holds a copy of the pixels, and whether the pixels have
    /// changed since the copy was made.
    pub texture_cache: Option<(TextureId, bool)>,
}

/// Whether `s` and `t` are the same string.
fn same_str(s: &str, t: &str) -> (same: bool)
    ensures
        same == (s@ == t@),
{
    let n = s.unicode_len();
    if n != t.unicode_len() {
        return false;
    }
    let mut i: usize = 0;
    while i < n
        invariant
            0 <= i <= n,
            n == s@.len(),
            n == t@.len(),
            forall|j: int| 0 <= j < i ==> s@[j] == t@[j],
        decreases n - i,
    {
        if s.get_char(i) != t.get_char(i) {
            return false;
        }
        i += 1;
    }
    assert(s@ =~= t@);
    true
}

impl Image {
    /// The number of bytes that an image of the given dimensions and format
    /// has.
    pub open spec fn byte_count(width: u32, height: u32, format: PixelFormat) -> nat {
        format.spec_channels() * width as nat * height as nat
    }

    /// Where in the bytes the pixel `(x, y)` starts.
    pub open spec fn spec_idx(&self, x: u32, y: u32) -> nat {
        self.format.spec_channels() * (y as nat * self.width as nat + x as nat)
    }

    /// Whether the bytes hold all of the pixel `(x, y)`.
    pub open spec fn holds(&self, x: u32, y: u32) -> bool {
        self.spec_idx(x, y) + self.format.spec_channels() <= self.data@.len()
    }

    /// The color that the bytes from `at` on stand for: red, green and blue,
    /// and alpha where the format has it.
    pub open spec fn color_at(&self, at: int) -> Color {
        match self.format {
            PixelFormat::Rgb => Color::of(
                crate::color::ColorMode::Rgb,
                crate::color::level_of(self.data@[at] as int),
                crate::color::level_of(self.data@[at + 1] as int),
                crate::color::level_of(self.data@[at + 2] as int),
                crate::color::ONE as int,
            ),
            PixelFormat::Rgba => Color::of(
                crate::color::ColorMode::Rgb,
                crate::color::level_of(self.data@[at] as int),
                crate::color::level_of(self.data@[at + 1] as int),
                crate::color::level_of(self.data@[at + 2] as int),
                crate::color::level_of(self.data@[at + 3] as int),
            ),
        }
    }

    /// An RGBA image of the given dimensions, all of its bytes zero.
    pub fn new(width: u32, height: u32) -> (img: Self)
        requires
            Image::byte_count(width, height, PixelFormat::Rgba) <= usize::MAX,
        ensures
            img.width == width,
            img.height == height,
            img.format == PixelFormat::Rgba,
            img.texture_cache is None,
            img.data@ == Seq::new(Image::byte_count(width, height, PixelFormat::Rgba), |i: int| 0u8),
    {
        Image::with_rgba(width, height)
    }

    /// An RGBA image of the given dimensions, all of its bytes zero.
    pub fn with_rgba(width: u32, height: u32) -> (img: Self)
        requires
            Image::byte_count(width, height, PixelFormat::Rgba) <= usize::MAX,
        ensures
            img.width == width,
            img.height == height,
            img.format == PixelFormat::Rgba,
            img.texture_cache is None,
            img.data@ == Seq::new(Image::byte_count(width, height, PixelFormat::Rgba), |i: int| 0u8),
    {
        Image::blank(width, height, PixelFormat::Rgba)
    }

    /// An RGB image of the given dimensions, all of its bytes zero.
    pub fn with_rgb(width: u32, height: u32) -> (img: Self)
        requires
            Image::byte_count(width, height, PixelFormat::Rgb) <= usize::MAX,
        ensures
            img.width == width,
            img.height == height,
            img.format == PixelFormat::Rgb,
            img.texture_cache is None,
            img.data@ == Seq::new(Image::byte_count(width, height, PixelFormat::Rgb), |i: int| 0u8),
    {
        Image::blank(width, height, PixelFormat::Rgb)
    }

    /// An image of the given dimensions and format, all of its bytes zero.
    fn blank(width: u32, height: u32, format: PixelFormat) -> (img: Self)
        requires
            Image::byte_count(width, height, format) <= usize::MAX,
        ensures
            img.width == width,
            img.height == height,
            img.format == format,
            img.texture_cache is None,
            img.data@ == Seq::new(Image::byte_count(width, height, format), |i: int| 0u8),
    {
        let n = Image::count_bytes(width, height, format);
        let n = match n {
            Some(n) => n,
            None => 0,
        };
        let data = vec![0u8; n];
        assert(data@ =~= Seq::new(Image::byte_count(width, height, format), |i: int| 0u8));
        Image { width, height, data, format, texture_cache: None }
    }

    /// The number of bytes that an image of the given dimensions and format
    /// has, if a `usize` can hold it.
    pub fn count_bytes(width: u32, height: u32, format: PixelFormat) -> (n: Option<usize>)
        ensures
            n matches Some(n) ==> n == Image::byte_count(width, height, format),
            n is None <==> Image::byte_count(width, height, format) > usize::MAX,
    {
        assert(width as nat * height as nat <= 0xffff_ffff * 0xffff_ffff) by (nonlinear_arith)
            requires
                width <= 0xffff_ffff,
                height <= 0xffff_ffff,
        ;
        let pixels = width as u64 * height as u64;
        let c = format.channels() as u128;
        assert(c * pixels as u128 == format.spec_channels() * width as nat * height as nat)
            by (nonlinear_arith)
            requires
                c == format.spec_channels(),
                pixels == width as nat * height as nat,
        ;
        assert(c * pixels as u128 <= 4 * 0xffff_ffff_ffff_ffff) by (nonlinear_arith)
            requires
                c <= 4,
                pixels <= 0xffff_ffff_ffff_ffff,
        ;
        let bytes = c * pixels as u128;
        if bytes > usize::MAX as u128 {
            None
        } else {
            Some(bytes as usize)
        }
    }

    /// An image of the given dimensions and format with a copy of `bytes` as
    /// its pixels. Fails with [`Error::InvalidImage`] exactly if the number of
    /// bytes is not the number of pixels times the bytes per pixel.
    pub fn from_bytes(width: u32, height: u32, bytes: &[u8], format: PixelFormat) -> (r: Result<
        Self,
        Error,
    >)
        ensures
            bytes@.len() == Image::byte_count(width, height, format) ==> {
                &&& r matches Ok(img)
                &&& img.width == width
                &&& img.height == height
                &&& img.format == format
                &&& img.data@ == bytes@
                &&& img.texture_cache is None
            },
            bytes@.len() != Image::byte_count(width, height, format) ==> {
                &&& r matches Err(Error::InvalidImage(dimensions, len, given))
                &&& dimensions == (width, height)
                &&& len == bytes@.len()
                &&& given == format
            },
    {
        let wanted = Image::count_bytes(width, height, format);
        let fits = match wanted {
            Some(n) => n == bytes.len(),
            None => false,
        };
        if !fits {
            return Err(Error::InvalidImage((width, height), bytes.len(), format));
        }
        Ok(Image::from_vec(width, height, slice_to_vec(bytes), format))
    }

    /// An image of the given dimensions and format with `data` as its pixels.
    /// Nothing is checked: the number of bytes may be any.
    pub fn from_vec(width: u32, height: u32, data: Vec<u8>, format: PixelFormat) -> (img: Self)
        ensures
            img.width == width,
            img.height == height,
            img.data == data,
            img.format == format,
            img.texture_cache is None,
    {
        Image { width, height, data, format, texture_cache: None }
    }

    /// Accepts the extension `png` and no other: fails with
    /// [`Error::InvalidFileType`], which holds the extension, for every other
    /// one and for none.
    pub fn check_extension(extension: Option<&str>) -> (r: Result<(), Error>)
        ensures
            r is Ok <==> (extension matches Some(e) && e@ == "png"@),
            r matches Err(e) ==> match extension {
                Some(given) => e matches Error::InvalidFileType(Some(held)) && held@ == given@,
                None => e matches Error::InvalidFileType(None),
            },
    {
        match extension {
            Some(e) => {
                if same_str(e, "png") {
                    Ok(())
                } else {
                    Err(Error::InvalidFileType(Some(e.to_string())))
                }
            },
            None => Err(Error::InvalidFileType(None)),
        }
    }

    /// The pixel format for a PNG with the header `info`. A bit depth other
    /// than 8 is refused first, then a color type other than RGB and RGBA.
    pub fn format_of(info: &PngInfo) -> (r: Result<PixelFormat, Error>)
        ensures
            r == Image::spec_format_of(*info),
    {
        if info.bit_depth != 8 {
            Err(Error::UnsupportedBitDepth(info.bit_depth))
        } else if info.color_type == PNG_RGB {
            Ok(PixelFormat::Rgb)
        } else if info.color_type == PNG_RGBA {
            Ok(PixelFormat::Rgba)
        } else {
            Err(Error::UnsupportedColorType(info.color_type))
        }
    }

    /// The pixel format for a PNG with the header `info`, or why it has none.
    pub open spec fn spec_format_of(info: PngInfo) -> Result<PixelFormat, Error> {
        if info.bit_depth != 8 {
            Err(Error::UnsupportedBitDepth(info.bit_depth))
        } else if info.color_type == PNG_RGB {
            Ok(PixelFormat::Rgb)
        } else if info.color_type == PNG_RGBA {
            Ok(PixelFormat::Rgba)
        } else {
            Err(Error::UnsupportedColorType(info.color_type))
        }
    }

    /// Decodes a PNG file.
    ///
    /// Fails with [`Error::DecodingError`] if the decoder rejects the header,
    /// with what [`Image::format_of`] says if the header is not of 8-bit RGB or
    /// RGBA, with [`Error::DecodingError`] if the decoder rejects the pixels,
    /// and with [`Error::InvalidImage`] if their number is not what the header
    /// gives. Else the image has the dimensions and format of the header and
    /// the decoded pixels.
    pub fn from_png(bytes: &[u8]) -> (r: Result<Self, Error>)
        ensures
            png_info(bytes@) is None ==> r matches Err(Error::DecodingError(_)),
            png_info(bytes@) matches Some(info) ==> match Image::spec_format_of(info) {
                Err(e) => r == Err::<Image, Error>(e),
                Ok(format) => match png_frame(bytes@) {
                    None => r matches Err(Error::DecodingError(_)),
                    Some(data) => if data.len() == Image::byte_count(
                        info.width,
                        info.height,
                        format,
                    ) {
                        &&& r matches Ok(img)
                        &&& img.width == info.width
                        &&& img.height == info.height
                        &&& img.format == format
                        &&& img.data@ == data
                        &&& img.texture_cache is None
                    } else {
                        r matches Err(Error::InvalidImage(_, _, _))
                    },
                },
            },
    {
        let info = match png_read_info(bytes) {
            Ok(info) => info,
            Err(e) => {
                return Err(Error::DecodingError(e));
            },
        };
        let format = match Image::format_of(&info) {
            Ok(format) => format,
            Err(e) => {
                return Err(e);
            },
        };
        match png_read_frame(bytes) {
            Ok(data) => Image::from_bytes(info.width, info.height, data.as_slice(), format),
            Err(e) => Err(Error::DecodingError(e)),
        }
    }

    /// Encodes the image as a PNG file. The bytes are written as RGBA pixels,
    /// whatever the format of the image is.
    ///
    /// Fails with [`Error::EncodingError`] exactly if the encoder rejects the
    /// image, which it does at least if the image has no pixels or not four
    /// bytes for each.
    pub fn to_png(&self) -> (r: Result<Vec<u8>, Error>)
        requires
            4 * self.width * self.height <= usize::MAX,
        ensures
            match png_encoded(self.width, self.height, self.data@) {
                Some(file) => r matches Ok(out) && out@ == file,
                None => r matches Err(Error::EncodingError(_)),
            },
            r is Ok ==> self.width > 0 && self.height > 0 && self.data@.len() == 4 * self.width
                * self.height,
    {
        match png_write(self.width, self.height, self.data.as_slice()) {
            Ok(file) => Ok(file),
            Err(e) => Err(Error::EncodingError(e)),
        }
    }

    /// Encodes the image as a PNG file if its dimensions allow it; returns
    /// nothing if an image of its width and height would have more bytes than
    /// a `usize` can count.
    pub fn try_to_png(&self) -> (r: Option<Result<Vec<u8>, Error>>)
        ensures
            r is None <==> 4 * self.width * self.height > usize::MAX,
            r matches Some(encoded) ==> match png_encoded(self.width, self.height, self.data@) {
                Some(file) => encoded matches Ok(out) && out@ == file,
                None => encoded matches Err(Error::EncodingError(_)),
            },
    {
        match Image::count_bytes(self.width, self.height, PixelFormat::Rgba) {
            Some(_) => {
                assert(4 * self.width * self.height == Image::byte_count(
                    self.width,
                    self.height,
                    PixelFormat::Rgba,
                )) by (nonlinear_arith);
                Some(self.to_png())
            },
            None => {
                assert(4 * self.width * self.height == Image::byte_count(
                    self.width,
                    self.height,
                    PixelFormat::Rgba,
                )) by (nonlinear_arith);
                None
            },
        }
    }

    /// Width in pixels.
    pub fn width(&self) -> (w: u32)
        ensures
            w == self.width,
    {
        self.width
    }

    /// Height in pixels.
    pub fn height(&self) -> (h: u32)
        ensures
            h == self.height,
    {
        self.height
    }

    /// Width and height in pixels.
    pub fn dimensions(&self) -> (d: (u32, u32))
        ensures
            d == (self.width, self.height),
    {
        (self.width, self.height)
    }

    /// The pixel in the middle of the image. A side too long for an `i32`
    /// counts as the longest that fits.
    pub fn center(&self) -> (p: Pos)
        ensures
            p == (Pos { x: (side(self.width) / 2) as i32, y: (side(self.height) / 2) as i32 }),
    {
        Pos { x: to_side(self.width) / 2, y: to_side(self.height) / 2 }
    }

    /// The pixels, row by row.
    pub fn bytes(&self) -> (bytes: &[u8])
        ensures
            bytes@ == self.data@,
    {
        self.data.as_slice()
    }

    /// The pixels for writing. The image counts as changed from now on, so
    /// that a texture made from it is brought up to date before it is drawn.
    pub fn bytes_mut(&mut self) -> (bytes: &mut [u8])
        ensures
            bytes@ == old(self).data@,
            final(self).data@ == final(bytes)@,
            final(self).width == old(self).width,
            final(self).height == old(self).height,
            final(self).format == old(self).format,
            final(self).texture_cache == Image::marked(old(self).texture_cache, true),
    {
        self.set_updated(true);
        self.data.as_mut_slice()
    }

    /// Where in the bytes the pixel `(x, y)` starts.
    pub fn idx(&self, x: u32, y: u32) -> (at: usize)
        requires
            self.holds(x, y),
        ensures
            at == self.spec_idx(x, y),
            at + self.format.spec_channels() <= self.data@.len() <= usize::MAX,
    {
        let c = self.format.channels();
        let len = self.data.len();
        let ghost wide = y as int * self.width as int;
        assert(0 <= wide <= wide + x <= c * (wide + x) <= len) by (nonlinear_arith)
            requires
                c >= 3,
                wide == y as int * self.width as int,
                c * (wide + x) + c <= len,
        ;
        let row = y as usize * self.width as usize;
        c * (row + x as usize)
    }

    /// The color of the pixel `(x, y)`; opaque if the format has no alpha.
    pub fn get_pixel(&self, x: u32, y: u32) -> (color: Color)
        requires
            self.holds(x, y),
        ensures
            color == self.color_at(self.spec_idx(x, y) as int),
    {
        let at = self.idx(x, y);
        match self.format {
            PixelFormat::Rgb => Color::rgb(self.data[at], self.data[at + 1], self.data[at + 2]),
            PixelFormat::Rgba => Color::rgba(
                self.data[at],
                self.data[at + 1],
                self.data[at + 2],
                self.data[at + 3],
            ),
        }
    }

    /// Gives the pixel `(x, y)` the channels of `color`, without the alpha if
    /// the format has none. The image counts as changed from now on.
    pub fn set_pixel(&mut self, x: u32, y: u32, color: Color)
        requires
            old(self).holds(x, y),
        ensures
            final(self).width == old(self).width,
            final(self).height == old(self).height,
            final(self).format == old(self).format,
            final(self).texture_cache == Image::marked(old(self).texture_cache, true),
            final(self).data@.len() == old(self).data@.len(),
            ({
                let at = old(self).spec_idx(x, y) as int;
                let c = color.spec_channels();
                forall|i: int|
                    0 <= i < old(self).data@.len() ==> #[trigger] final(self).data@[i] == if i
                        == at {
                        c.0
                    } else if i == at + 1 {
                        c.1
                    } else if i == at + 2 {
                        c.2
                    } else if i == at + 3 && old(self).format == PixelFormat::Rgba {
                        c.3
                    } else {
                        old(self).data@[i]
                    }
            }),
    {
        let at = self.idx(x, y);
        let channels = color.channels();
        self.data[at] = channels[0];
        self.data[at + 1] = channels[1];
        self.data[at + 2] = channels[2];
        match self.format {
            PixelFormat::Rgba => {
                self.data[at + 3] = channels[3];
            },
            PixelFormat::Rgb => {},
        }
        self.set_updated(true);
    }

    /// Replaces the pixels by a copy of `bytes`, which has to be as many bytes
    /// as the image has. The image counts as changed from now on.
    pub fn update_bytes(&mut self, bytes: &[u8])
        requires
            bytes@.len() == old(self).data@.len(),
        ensures
            final(self).data@ == bytes@,
            final(self).width == old(self).width,
            final(self).height == old(self).height,
            final(self).format == old(self).format,
            final(self).texture_cache == Image::marked(old(self).texture_cache, true),
    {
        self.set_updated(true);
        self.data = slice_to_vec(bytes);
    }

    /// How the bytes are read.
    pub fn format(&self) -> (f: PixelFormat)
        ensures
            f == self.format,
    {
        self.format
    }

    /// The texture that holds a copy of the pixels, and whether the pixels have
    /// changed since the copy was made; nothing if no texture was made.
    pub fn texture_cache(&self) -> (cache: Option<(TextureId, bool)>)
        ensures
            cache == self.texture_cache,
    {
        self.texture_cache
    }

    /// Records that the texture `texture_id` holds an up-to-date copy of the
    /// pixels.
    pub fn set_texture_id(&mut self, texture_id: TextureId)
        ensures
            *final(self) == (Image { texture_cache: Some((texture_id, false)), ..*old(self) }),
    {
        self.texture_cache = Some((texture_id, false));
    }

    /// The texture record `cache` with `val` as the mark of a change; nothing
    /// if there is no record.
    pub open spec fn marked(cache: Option<(TextureId, bool)>, val: bool) -> Option<
        (TextureId, bool),
    > {
        match cache {
            Some((id, _)) => Some((id, val)),
            None => None,
        }
    }

    /// Records whether the pixels have changed since the texture was made.
    /// Without a texture there is nothing to record.
    pub fn set_updated(&mut self, val: bool)
        ensures
            *final(self) == (Image {
                texture_cache: Image::marked(old(self).texture_cache, val),
                ..*old(self)
            }),
    {
        match self.texture_cache {
            Some((texture_id, _)) => {
                self.texture_cache = Some((texture_id, val));
            },
            None => {},
        }
    }
}

} // verus!
