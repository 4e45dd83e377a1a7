use vstd::prelude::*;
use crate::graphics::renderer::codes;
use crate::graphics::renderer::gl_enum::GlEnum;

verus! {

/// The error of the `image` crate, carried through as an opaque value.
#[verifier::external_type_specification]
#[verifier::external_body]
pub struct ExImageError(image::ImageError);

/// How a texture is sampled when it is magnified.
#[derive(Debug, Clone, Copy, PartialEq, Eq, Structural)]
pub enum MagFiltering {
    Nearest,
    Linear,
}

impl GlEnum for MagFiltering {
    open spec fn gl_value(&self) -> u32 {
        match *self {
            MagFiltering::Nearest => codes::GL_NEAREST,
            MagFiltering::Linear => codes::GL_LINEAR,
        }
    }

    proof fn lemma_gl_value_injective(a: Self, b: Self) {
    }

    fn to_gl_enum(&self) -> (r: u32) {
        match self {
            MagFiltering::Nearest => codes::GL_NEAREST,
            MagFiltering::Linear => codes::GL_LINEAR,
        }
    }

    fn from_gl_enum(value: u32) -> (r: Option<Self>) {
        if value == codes::GL_NEAREST {
            Some(MagFiltering::Nearest)
        } else if value == codes::GL_LINEAR {
            Some(MagFiltering::Linear)
        } else {
            None
        }
    }
}

/// How a texture is sampled when it is minified.
#[derive(Debug, Clone, Copy, PartialEq, Eq, Structural)]
pub enum MinFiltering {
    Nearest,
    Linear,
    NearestMipmapNearest,
    LinearMipmapNearest,
    NearestMipmapLinear,
    LinearMipmapLinear,
}

impl GlEnum for MinFiltering {
    open spec fn gl_value(&self) -> u32 {
        match *self {
            MinFiltering::Nearest => codes::GL_NEAREST,
            MinFiltering::Linear => codes::GL_LINEAR,
            MinFiltering::NearestMipmapNearest => codes::GL_NEAREST_MIPMAP_NEAREST,
            MinFiltering::LinearMipmapNearest => codes::GL_LINEAR_MIPMAP_NEAREST,
            MinFiltering::NearestMipmapLinear => codes::GL_NEAREST_MIPMAP_LINEAR,
            MinFiltering::LinearMipmapLinear => codes::GL_LINEAR_MIPMAP_LINEAR,
        }
    }

    proof fn lemma_gl_value_injective(a: Self, b: Self) {
    }

    fn to_gl_enum(&self) -> (r: u32) {
        match self {
            MinFiltering::Nearest => codes::GL_NEAREST,
            MinFiltering::Linear => codes::GL_LINEAR,
            MinFiltering::NearestMipmapNearest => codes::GL_NEAREST_MIPMAP_NEAREST,
            MinFiltering::LinearMipmapNearest => codes::GL_LINEAR_MIPMAP_NEAREST,
            MinFiltering::NearestMipmapLinear => codes::GL_NEAREST_MIPMAP_LINEAR,
            MinFiltering::LinearMipmapLinear => codes::GL_LINEAR_MIPMAP_LINEAR,
        }
    }

    fn from_gl_enum(value: u32) -> (r: Option<Self>) {
        if value == codes::GL_NEAREST {
            Some(MinFiltering::Nearest)
        } else if value == codes::GL_LINEAR {
            Some(MinFiltering::Linear)
        } else if value == codes::GL_NEAREST_MIPMAP_NEAREST {
            Some(MinFiltering::NearestMipmapNearest)
        } else if value == codes::GL_LINEAR_MIPMAP_NEAREST {
            Some(MinFiltering::LinearMipmapNearest)
        } else if value == codes::GL_NEAREST_MIPMAP_LINEAR {
            Some(MinFiltering::NearestMipmapLinear)
        } else if value == codes::GL_LINEAR_MIPMAP_LINEAR {
            Some(MinFiltering::LinearMipmapLinear)
        } else {
            None
        }
    }
}

impl MinFiltering {
    /// Whether sampling with this filter reads mipmap levels.
    pub open spec fn spec_uses_mipmap(self) -> bool {
        !(self is Nearest || self is Linear)
    }

    pub fn uses_mipmap(&self) -> (r: bool)
        ensures
            r == self.spec_uses_mipmap(),
    {
        match self {
            MinFiltering::Nearest | MinFiltering::Linear => false,
            _ => true,
        }
    }
}

/// How texture coordinates outside the unit square are resolved.
#[derive(Debug, Clone, Copy, PartialEq, Eq, Structural)]
pub enum TextureWrap {
    Repeat,
    MirroredRepeat,
    ClampToEdge,
    ClampToBorder,
}

impl GlEnum for TextureWrap {
    open spec fn gl_value(&self) -> u32 {
        match *self {
            TextureWrap::Repeat => codes::GL_REPEAT,
            TextureWrap::MirroredRepeat => codes::GL_MIRRORED_REPEAT,
            TextureWrap::ClampToEdge => codes::GL_CLAMP_TO_EDGE,
            TextureWrap::ClampToBorder => codes::GL_CLAMP_TO_BORDER,
        }
    }

    proof fn lemma_gl_value_injective(a: Self, b: Self) {
    }

    fn to_gl_enum(&self) -> (r: u32) {
        match self {
            TextureWrap::Repeat => codes::GL_REPEAT,
            TextureWrap::MirroredRepeat => codes::GL_MIRRORED_REPEAT,
            TextureWrap::ClampToEdge => codes::GL_CLAMP_TO_EDGE,
            TextureWrap::ClampToBorder => codes::GL_CLAMP_TO_BORDER,
        }
    }

    fn from_gl_enum(value: u32) -> (r: Option<Self>) {
        if value == codes::GL_REPEAT {
            Some(TextureWrap::Repeat)
        } else if value == codes::GL_MIRRORED_REPEAT {
            Some(TextureWrap::MirroredRepeat)
        } else if value == codes::GL_CLAMP_TO_EDGE {
            Some(TextureWrap::ClampToEdge)
        } else if value == codes::GL_CLAMP_TO_BORDER {
            Some(TextureWrap::ClampToBorder)
        } else {
            None
        }
    }
}

/// The pixel layout of a decoded image: 8-bit luma, luma and alpha, RGB,
/// RGBA, or any other layout.
#[derive(Debug, Clone, Copy, PartialEq, Eq, Structural)]
pub enum PixelLayout {
    Luma8,
    LumaA8,
    Rgb8,
    Rgba8,
    Other,
}

/// A decoded image: its layout, size in pixels, and samples row by row.
#[derive(Debug, Clone)]
pub struct DecodedImage {
    pub layout: PixelLayout,
    pub width: u32,
    pub height: u32,
    pub data: Vec<u8>,
}

/// Decodes an image file held in memory with `image::load_from_memory`,
/// whatever its format, and keeps its layout, size and samples. Nothing is
/// stated of the result: besides the bytes, `image` consults process-wide
/// format-detection and decoding hooks that any code may register, so the
/// same bytes need not decode to the same image.
#[verifier::external_body]
fn load_image(bytes: &[u8]) -> Result<DecodedImage, image::ImageError> {
    let img = image::load_from_memory(bytes)?;
    let (width, height) = (img.width(), img.height());
    let (layout, data) = match img {
        image::DynamicImage::ImageLuma8(b) => (PixelLayout::Luma8, b.into_raw()),
        image::DynamicImage::ImageLumaA8(b) => (PixelLayout::LumaA8, b.into_raw()),
        image::DynamicImage::ImageRgb8(b) => (PixelLayout::Rgb8, b.into_raw()),
        image::DynamicImage::ImageRgba8(b) => (PixelLayout::Rgba8, b.into_raw()),
        other => (PixelLayout::Other, other.into_bytes()),
    };
    Ok(DecodedImage { layout, width, height, data })
}

/// Why an image cannot become a texture.
#[derive(Debug)]
pub enum TextureError {
    /// The bytes are not an image that the decoder reads.
    Decode(image::ImageError),
    /// The image's pixel layout has no texture format here.
    UnsupportedFormat,
}

/// What a texture upload of an image needs: the internal and the pixel
/// format codes, the size, and the samples.
#[derive(Debug, Clone)]
pub struct TextureUpload {
    pub internal_format: u32,
    pub data_format: u32,
    pub width: u32,
    pub height: u32,
    pub data: Vec<u8>,
}

/// The (internal, pixel) format codes of a layout, if it has a texture format.
pub open spec fn spec_formats(layout: PixelLayout) -> Option<(u32, u32)> {
    match layout {
        PixelLayout::Luma8 => Some((codes::GL_RED, codes::GL_RED)),
        PixelLayout::LumaA8 => Some((codes::GL_RG, codes::GL_RG)),
        PixelLayout::Rgb8 => Some((codes::GL_RGB8, codes::GL_RGB)),
        PixelLayout::Rgba8 => Some((codes::GL_RGBA8, codes::GL_RGBA)),
        PixelLayout::Other => None,
    }
}

pub fn pixel_formats(layout: PixelLayout) -> (r: Option<(u32, u32)>)
    ensures
        r == spec_formats(layout),
{
    match layout {
        PixelLayout::Luma8 => Some((codes::GL_RED, codes::GL_RED)),
        PixelLayout::LumaA8 => Some((codes::GL_RG, codes::GL_RG)),
        PixelLayout::Rgb8 => Some((codes::GL_RGB8, codes::GL_RGB)),
        PixelLayout::Rgba8 => Some((codes::GL_RGBA8, codes::GL_RGBA)),
        PixelLayout::Other => None,
    }
}

/// The upload of a decoded image: refused exactly when its layout has no
/// texture format; otherwise its size and samples with the layout's formats.
pub fn upload_from_decoded(img: DecodedImage) -> (r: Result<TextureUpload, TextureError>)
    ensures
        r is Err <==> spec_formats(img.layout) is None,
        r matches Err(e) ==> e is UnsupportedFormat,
        r matches Ok(u) ==> {
            &&& spec_formats(img.layout) == Some((u.internal_format, u.data_format))
            &&& u.width == img.width
            &&& u.height == img.height
            &&& u.data@ == img.data@
        },
{
    match pixel_formats(img.layout) {
        Some((internal_format, data_format)) => Ok(
            TextureUpload { internal_format, data_format, width: img.width, height: img.height, data: img.data },
        ),
        None => Err(TextureError::UnsupportedFormat),
    }
}

/// Decodes the image file `bytes` and prepares its upload: decoding errors
/// come back as `Decode`; what the decoder gave is handled by
/// `upload_from_decoded`, which refuses layouts without a texture format as
/// `UnsupportedFormat`. Whatever the decoder gives, an upload carries the
/// format codes of a layout that has a texture format.
pub fn prepare_image_upload(bytes: &[u8]) -> (r: Result<TextureUpload, TextureError>)
    ensures
        r matches Ok(u) ==> exists|layout: PixelLayout|
            #[trigger] spec_formats(layout) == Some((u.internal_format, u.data_format)),
{
    match load_image(bytes) {
        Ok(img) => upload_from_decoded(img),
        Err(e) => Err(TextureError::Decode(e)),
    }
}

/// Each variant of `MagFiltering` has the OpenGL code of the same name, as the
/// Khronos registry numbers it (`MagFiltering::Nearest` is `GL_NEAREST`, 0x2600).
pub proof fn lemma_mag_filtering_codes()
    ensures
        MagFiltering::Nearest.gl_value() == 0x2600u32,
        MagFiltering::Linear.gl_value() == 0x2601u32,
{
}

/// Each variant of `MinFiltering` has the OpenGL code of the same name, as the
/// Khronos registry numbers it (`MinFiltering::Nearest` is `GL_NEAREST`, 0x2600).
pub proof fn lemma_min_filtering_codes()
    ensures
        MinFiltering::Nearest.gl_value() == 0x2600u32,
        MinFiltering::Linear.gl_value() == 0x2601u32,
        MinFiltering::NearestMipmapNearest.gl_value() == 0x2700u32,
        MinFiltering::LinearMipmapNearest.gl_value() == 0x2701u32,
        MinFiltering::NearestMipmapLinear.gl_value() == 0x2702u32,
        MinFiltering::LinearMipmapLinear.gl_value() == 0x2703u32,
{
}

/// Each variant of `TextureWrap` has the OpenGL code of the same name, as the
/// Khronos registry numbers it (`TextureWrap::Repeat` is `GL_REPEAT`, 0x2901).
pub proof fn lemma_texture_wrap_codes()
    ensures
        TextureWrap::Repeat.gl_value() == 0x2901u32,
        TextureWrap::MirroredRepeat.gl_value() == 0x8370u32,
        TextureWrap::ClampToEdge.gl_value() == 0x812Fu32,
        TextureWrap::ClampToBorder.gl_value() == 0x812Du32,
{
}

/// The texture formats of the pixel layouts, by their OpenGL codes: 8-bit
/// luma is uploaded as one red channel (`GL_RED`, 0x1903), luma and alpha as
/// red and green (`GL_RG`, 0x8227), RGB as `GL_RGB8` (0x8051) from `GL_RGB`
/// (0x1907) samples, RGBA as `GL_RGBA8` (0x8058) from `GL_RGBA` (0x1908)
/// samples; any other layout has no texture format.
pub proof fn lemma_layout_formats()
    ensures
        spec_formats(PixelLayout::Luma8) == Some((0x1903u32, 0x1903u32)),
        spec_formats(PixelLayout::LumaA8) == Some((0x8227u32, 0x8227u32)),
        spec_formats(PixelLayout::Rgb8) == Some((0x8051u32, 0x1907u32)),
        spec_formats(PixelLayout::Rgba8) == Some((0x8058u32, 0x1908u32)),
        spec_formats(PixelLayout::Other) is None,
{
}

} // verus!
