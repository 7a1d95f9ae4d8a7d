use crate::gpu::{create_texture_2d, write_texture, Extent, GpuTexture, TextureFormat, MAX_TEXTURE_SIDE};
use std::sync::Arc;
use vstd::prelude::*;

verus! {

/// The file formats an image is decoded from.
#[derive(Debug, Clone, Copy, PartialEq, Eq, Structural)]
pub enum ImageFormat {
    Png,
    Hdr,
}

/// Why bytes could not be turned into an image.
#[derive(Debug, Clone, Copy, PartialEq, Eq, Structural)]
pub enum DecodeError {
    /// The path's extension names no supported format.
    UnknownFormat,
    /// The bytes are not an image of that format, or one without texels.
    Malformed,
}

/// The extension of a path, as `std::path::Path::extension` finds it.
pub uninterp spec fn extension_of(path: Seq<char>) -> Option<Seq<char>>;

/// The file name of a path without its extension, as
/// `std::path::Path::file_stem` finds it.
pub uninterp spec fn stem_of(path: Seq<char>) -> Option<Seq<char>>;

/// The width, height and RGBA8 texels of a PNG file, as the `image` crate
/// decodes it; `None` when it cannot.
pub uninterp spec fn png_rgba(raw: Seq<u8>) -> Option<(u32, u32, Seq<u8>)>;

/// Relies on `std::path::Path::extension` (read as UTF-8, which a `str` is).
#[verifier::external_body]
fn path_extension(path: &str) -> (r: Option<String>)
    ensures
        match r {
            Some(s) => extension_of(path@) == Some(s@),
            None => extension_of(path@) is None,
        },
{
    std::path::Path::new(path).extension().and_then(|e| e.to_str()).map(String::from)
}

/// Relies on `std::path::Path::file_stem` (read as UTF-8, which a `str` is).
#[verifier::external_body]
fn path_file_stem(path: &str) -> (r: Option<String>)
    ensures
        match r {
            Some(s) => stem_of(path@) == Some(s@),
            None => stem_of(path@) is None,
        },
{
    std::path::Path::new(path).file_stem().and_then(|e| e.to_str()).map(String::from)
}

/// Relies on `image::load_from_memory_with_format` with the PNG format,
/// followed by `DynamicImage::to_rgba8`, whose buffer `ImageBuffer::new`
/// allocates with four bytes for each texel, and `ImageBuffer::into_raw`.
#[verifier::external_body]
fn decode_png(raw: &[u8]) -> (r: Option<(u32, u32, Vec<u8>)>)
    ensures
        match r {
            Some((w, h, px)) => png_rgba(raw@) == Some((w, h, px@)) && px@.len() == 4 * w * h,
            None => png_rgba(raw@) is None,
        },
{
    match image::load_from_memory_with_format(raw, image::ImageFormat::Png) {
        Ok(img) => {
            let rgba = img.to_rgba8();
            let (w, h) = rgba.dimensions();
            Some((w, h, rgba.into_raw()))
        },
        Err(_) => None,
    }
}

/// The format a path's extension names: `png` is the one that is read.
pub open spec fn format_of_path(path: Seq<char>) -> Option<ImageFormat> {
    if extension_of(path) == Some("png"@) {
        Some(ImageFormat::Png)
    } else {
        None
    }
}

/// The texel format an image of format `f` is uploaded in.
pub open spec fn texture_format_of(f: ImageFormat) -> TextureFormat {
    match f {
        ImageFormat::Hdr => TextureFormat::Rgba32Float,
        ImageFormat::Png => TextureFormat::Rgba8Unorm,
    }
}

/// Bytes per row of an upload: the buffer's length over the number of rows
/// (at least one), rounded down and saturated to `u32`.
pub open spec fn row_bytes(len: nat, height: nat) -> nat
    recommends
        height > 0,
{
    if len / height > u32::MAX {
        u32::MAX as nat
    } else {
        len / height
    }
}

/// The format named by the extension of `path`, if it is one that is read.
pub fn get_format_from_extension(path: &str) -> (r: Option<ImageFormat>)
    ensures
        r == format_of_path(path@),
{
    match path_extension(path) {
        Some(ext) => {
            let png = "png".to_owned();
            if ext == png {
                Some(ImageFormat::Png)
            } else {
                None
            }
        },
        None => None,
    }
}

/// The texel format an image of format `f` is uploaded in.
pub fn convert_format(f: ImageFormat) -> (r: TextureFormat)
    ensures
        r == texture_format_of(f),
{
    match f {
        ImageFormat::Hdr => TextureFormat::Rgba32Float,
        ImageFormat::Png => TextureFormat::Rgba8Unorm,
    }
}

/// Bytes per row of an upload of `len` bytes in `height` rows.
pub fn bytes_per_row(len: usize, height: u32) -> (r: u32)
    requires
        height > 0,
    ensures
        r == row_bytes(len as nat, height as nat),
{
    let q = len / (height as usize);
    if q > u32::MAX as usize {
        u32::MAX
    } else {
        q as u32
    }
}

/// A decoded image: its name, its extent, its RGBA8 texels row by row, and
/// the format it was decoded from.
#[derive(Debug)]
pub struct ImageData {
    name: Option<String>,
    extent: Extent,
    raw: Vec<u8>,
    format: ImageFormat,
}

impl ImageData {
    pub closed spec fn name_spec(&self) -> Option<Seq<char>> {
        match self.name {
            Some(n) => Some(n@),
            None => None,
        }
    }

    pub closed spec fn extent_spec(&self) -> Extent {
        self.extent
    }

    pub closed spec fn raw_spec(&self) -> Seq<u8> {
        self.raw@
    }

    pub closed spec fn format_spec(&self) -> ImageFormat {
        self.format
    }

    /// A single layer with texels in it, four bytes to a texel.
    pub open spec fn wf(&self) -> bool {
        &&& self.extent_spec().width > 0
        &&& self.extent_spec().height > 0
        &&& self.extent_spec().depth == 1
        &&& self.raw_spec().len() == 4 * self.extent_spec().width * self.extent_spec().height
        &&& self.format_spec() == ImageFormat::Png
    }

    /// Decodes the bytes `raw` of the file at `path`. The format comes from
    /// the extension; the name is the file name without it.
    pub fn decode(path: &str, raw: Vec<u8>) -> (r: Result<ImageData, DecodeError>)
        ensures
            match format_of_path(path@) {
                None => r == Err::<ImageData, DecodeError>(DecodeError::UnknownFormat),
                Some(f) => match png_rgba(raw@) {
                    None => r == Err::<ImageData, DecodeError>(DecodeError::Malformed),
                    Some((w, h, px)) => if w == 0 || h == 0 {
                        r == Err::<ImageData, DecodeError>(DecodeError::Malformed)
                    } else {
                        match r {
                            Ok(d) => {
                                &&& d.wf()
                                &&& d.extent_spec() == Extent { width: w, height: h, depth: 1 }
                                &&& d.raw_spec() == px
                                &&& d.format_spec() == f
                                &&& d.name_spec() == stem_of(path@)
                            },
                            Err(_) => false,
                        }
                    },
                },
            },
    {
        match get_format_from_extension(path) {
            None => Err(DecodeError::UnknownFormat),
            Some(format) => match decode_png(raw.as_slice()) {
                None => Err(DecodeError::Malformed),
                Some((w, h, px)) => {
                    if w == 0 || h == 0 {
                        Err(DecodeError::Malformed)
                    } else {
                        let name = path_file_stem(path);
                        Ok(ImageData { name, extent: Extent { width: w, height: h, depth: 1 }, raw: px, format })
                    }
                },
            },
        }
    }

    /// Whether this image can be uploaded: the condition of `upload`.
    pub fn can_upload(&self) -> (r: bool)
        ensures
            r == (self.wf() && self.extent_spec().width <= MAX_TEXTURE_SIDE
                && self.extent_spec().height <= MAX_TEXTURE_SIDE),
    {
        let w = self.extent.width as u128;
        let h = self.extent.height as u128;
        assert(4 * w * h <= 4 * 0xffff_ffffu128 * 0xffff_ffffu128) by (nonlinear_arith)
            requires
                w <= 0xffff_ffffu128,
                h <= 0xffff_ffffu128,
        ;
        w > 0 && h > 0 && self.extent.depth == 1 && self.raw.len() as u128 == 4 * w * h
            && self.format == ImageFormat::Png && self.extent.width <= MAX_TEXTURE_SIDE
            && self.extent.height <= MAX_TEXTURE_SIDE
    }

    /// The name of the image: its file name without the extension.
    pub fn name(&self) -> (r: Option<&String>)
        ensures
            match r {
                Some(n) => self.name_spec() == Some(n@),
                None => self.name_spec() is None,
            },
    {
        match &self.name {
            Some(n) => Some(n),
            None => None,
        }
    }

    /// The extent of the image.
    pub fn extent(&self) -> (r: Extent)
        ensures
            r == self.extent_spec(),
    {
        self.extent
    }

    /// The RGBA8 texels, row by row.
    pub fn raw(&self) -> (r: &Vec<u8>)
        ensures
            r@ == self.raw_spec(),
    {
        &self.raw
    }

    /// The format the image was decoded from.
    pub fn format(&self) -> (r: ImageFormat)
        ensures
            r == self.format_spec(),
    {
        self.format
    }

    /// Creates a texture of this image's extent and format and writes the
    /// texels into it, one row of `width` texels after another. The image's
    /// sides must be ones every backend supports.
    pub fn upload(&self, device: Arc<wgpu::Device>, queue: Arc<wgpu::Queue>) -> (r: GpuTexture)
        requires
            self.wf(),
            self.extent_spec().width <= MAX_TEXTURE_SIDE,
            self.extent_spec().height <= MAX_TEXTURE_SIDE,
        ensures
            r.extent_spec() == self.extent_spec(),
            r.format_spec() == texture_format_of(self.format_spec()),
            r.written_spec() == Some(
                (self.raw_spec(), row_bytes(self.raw_spec().len(), self.extent_spec().height as nat) as u32),
            ),
            row_bytes(self.raw_spec().len(), self.extent_spec().height as nat) == 4
                * self.extent_spec().width,
    {
        let format = convert_format(self.format);
        let mut texture = create_texture_2d(&*device, self.extent, format);
        let stride = bytes_per_row(self.raw.len(), self.extent.height);
        proof {
            let ghost w = self.extent.width as int;
            let ghost h = self.extent.height as int;
            assert((4 * w * h) / h == 4 * w) by (nonlinear_arith)
                requires h > 0;
            assert(4 * w * (h - 1) + 4 * w == 4 * w * h) by (nonlinear_arith);
        }
        write_texture(&*queue, &mut texture, self.raw.as_slice(), stride);
        texture
    }
}

/// Decodes a file given as its path and its bytes; see `ImageData::decode`.
impl TryFrom<(String, Vec<u8>)> for ImageData {
    type Error = DecodeError;

    fn try_from(file: (String, Vec<u8>)) -> Result<ImageData, DecodeError> {
        let (path, raw) = file;
        ImageData::decode(path.as_str(), raw)
    }
}

/// What `try_from` returns is stated by `ImageData::decode`, not here.
impl vstd::std_specs::convert::TryFromSpecImpl<(String, Vec<u8>)> for ImageData {
    open spec fn obeys_try_from_spec() -> bool {
        false
    }

    open spec fn try_from_spec(file: (String, Vec<u8>)) -> Result<ImageData, DecodeError> {
        arbitrary()
    }
}

} // verus!
