//! Textures: what a sampled texture is declared as, and how decoded pixels
//! are staged for the copy that fills it.

use crate::usage::TextureUsage;
use vstd::arithmetic::div_mod::lemma_fundamental_div_mod_converse;
use vstd::prelude::*;

verus! {

/// Size of a texture or of a copy, in texels.
#[derive(Copy, Clone, Debug, PartialEq, Eq, Structural)]
pub struct Extent3d {
    pub width: u32,
    pub height: u32,
    pub depth: u32,
}

/// Number of dimensions of a texture.
#[derive(Copy, Clone, Debug, PartialEq, Eq, Structural)]
pub enum TextureDimension {
    D1,
    D2,
    D3,
}

/// Texel formats in use: both are four bytes per texel, sRGB encoded.
#[derive(Copy, Clone, Debug, PartialEq, Eq, Structural)]
pub enum TextureFormat {
    Rgba8UnormSrgb,
    Bgra8UnormSrgb,
}

/// What a texture is created with.
#[derive(Copy, Clone, Debug, PartialEq, Eq, Structural)]
pub struct TextureDescriptor {
    pub size: Extent3d,
    pub array_layer_count: u32,
    pub mip_level_count: u32,
    pub sample_count: u32,
    pub dimension: TextureDimension,
    pub format: TextureFormat,
    pub usage: TextureUsage,
}

/// Where the rows of an image lie in the buffer that a texture copy reads.
#[derive(Copy, Clone, Debug, PartialEq, Eq, Structural)]
pub struct BufferCopyLayout {
    pub offset: u64,
    pub bytes_per_row: u32,
    pub rows_per_image: u32,
}

/// A position in a texture, in texels.
#[derive(Copy, Clone, Debug, PartialEq, Eq, Structural)]
pub struct Origin3d {
    pub x: u32,
    pub y: u32,
    pub z: u32,
}

/// Where in a texture a copy writes.
#[derive(Copy, Clone, Debug, PartialEq, Eq, Structural)]
pub struct TextureCopyTarget {
    pub mip_level: u32,
    pub array_layer: u32,
    pub origin: Origin3d,
}

/// Everything needed to create a sampled texture and fill it: the texture's
/// descriptor, the bytes of the staging buffer, where the rows lie in it,
/// where the copy writes, and the extent to copy.
#[derive(Clone, Debug, PartialEq, Eq)]
pub struct TextureUpload {
    pub descriptor: TextureDescriptor,
    pub data: Vec<u8>,
    pub layout: BufferCopyLayout,
    pub target: TextureCopyTarget,
    pub copy_size: Extent3d,
}

/// Why pixels cannot be staged.
#[derive(Copy, Clone, Debug, PartialEq, Eq, Structural)]
pub enum TextureError {
    /// The file is no image that can be decoded.
    Undecodable,
    /// The image decodes, but not to 8-bit RGBA.
    NotRgba8,
    /// The row alignment is zero.
    RowAlignment,
    /// The image has no texels.
    Empty,
    /// The pixel buffer is not exactly four bytes per texel.
    SizeMismatch,
    /// A padded row, or all padded rows together, are more bytes than a copy
    /// can address.
    TooLarge,
}

/// Bytes from the start of one row to the start of the next in a staging
/// buffer: the smallest multiple of `alignment` that holds a row of `width`
/// texels.
pub open spec fn row_pitch(width: u32, alignment: u32) -> int {
    (4 * width + alignment - 1) / (alignment as int) * alignment
}

/// The staging buffer for an image: row after row, each filled up with zero
/// bytes to `pitch`.
pub open spec fn staged_rows(pixels: Seq<u8>, width: u32, height: u32, pitch: int) -> Seq<u8> {
    Seq::new(
        (pitch * height) as nat,
        |k: int|
            if k % pitch < 4 * width {
                pixels[(k / pitch) * (4 * width) + k % pitch]
            } else {
                0u8
            },
    )
}

/// What is wrong with a request to stage `pixel_count` bytes as an image of
/// `width` by `height` texels; `None` where nothing is.
pub open spec fn staging_fault(pixel_count: nat, width: u32, height: u32, alignment: u32) -> Option<
    TextureError,
> {
    if alignment == 0 {
        Some(TextureError::RowAlignment)
    } else if width == 0 || height == 0 {
        Some(TextureError::Empty)
    } else if pixel_count != 4 * width * height {
        Some(TextureError::SizeMismatch)
    } else if row_pitch(width, alignment) > u32::MAX || row_pitch(width, alignment) * height
        > usize::MAX {
        Some(TextureError::TooLarge)
    } else {
        None
    }
}

/// The descriptor of a two-dimensional sRGB texture that is filled by a copy
/// and then sampled: one layer, one mip level, one sample per texel.
pub open spec fn sampled_texture(width: u32, height: u32) -> TextureDescriptor {
    TextureDescriptor {
        size: Extent3d { width, height, depth: 1 },
        array_layer_count: 1,
        mip_level_count: 1,
        sample_count: 1,
        dimension: TextureDimension::D2,
        format: TextureFormat::Rgba8UnormSrgb,
        usage: TextureUsage {
            copy_src: false,
            copy_dst: true,
            sampled: true,
            storage: false,
            output_attachment: false,
        },
    }
}

impl TextureUpload {
    /// This upload stages `pixels` as an image of `width` by `height` texels
    /// with rows aligned to `alignment`, and copies all of it to the corner
    /// of the only layer and mip level of the texture.
    pub open spec fn stages(self, pixels: Seq<u8>, width: u32, height: u32, alignment: u32) -> bool {
        &&& self.descriptor == sampled_texture(width, height)
        &&& self.copy_size == (Extent3d { width, height, depth: 1 })
        &&& self.target == (TextureCopyTarget {
            mip_level: 0,
            array_layer: 0,
            origin: Origin3d { x: 0, y: 0, z: 0 },
        })
        &&& self.layout == (BufferCopyLayout {
            offset: 0,
            bytes_per_row: row_pitch(width, alignment) as u32,
            rows_per_image: height,
        })
        &&& self.data@ == staged_rows(pixels, width, height, row_pitch(width, alignment))
    }
}

/// `r` is what staging `pixels` as an image of `width` by `height` texels
/// comes to: the upload where nothing is wrong, else the fault.
pub open spec fn is_staging_of(
    r: Result<TextureUpload, TextureError>,
    pixels: Seq<u8>,
    width: u32,
    height: u32,
    alignment: u32,
) -> bool {
    match r {
        Ok(upload) => staging_fault(pixels.len(), width, height, alignment) is None && upload.stages(
            pixels,
            width,
            height,
            alignment,
        ),
        Err(e) => staging_fault(pixels.len(), width, height, alignment) == Some(e),
    }
}

/// With rows that need no padding, the staging buffer is the pixel buffer.
pub proof fn lemma_tight_rows_are_the_pixels(pixels: Seq<u8>, width: u32, height: u32)
    requires
        width > 0,
        pixels.len() == 4 * width * height,
    ensures
        row_pitch(width, 1) == 4 * width,
        staged_rows(pixels, width, height, 4 * width) == pixels,
{
    let pitch: int = 4 * width;
    let staged = staged_rows(pixels, width, height, pitch);
    assert(pitch * height == 4 * width * height) by (nonlinear_arith)
        requires
            pitch == 4 * width,
    ;
    assert forall|k: int| 0 <= k < pixels.len() implies staged[k] == pixels[k] by {
        assert(k == (k / pitch) * pitch + k % pitch && 0 <= k % pitch < pitch)
            by (nonlinear_arith)
            requires
                pitch > 0,
        ;
    }
    assert(staged =~= pixels);
}

/// Stages decoded pixels for the copy that fills a sampled texture.
///
/// `pixels` holds `height` rows of `width` texels, four bytes each, with
/// nothing between the rows. In the staging buffer every row starts at a
/// multiple of `row_alignment`; the gap behind a row is filled with zeros.
pub fn stage_texture(pixels: &[u8], width: u32, height: u32, row_alignment: u32) -> (r: Result<
    TextureUpload,
    TextureError,
>)
    ensures
        is_staging_of(r, pixels@, width, height, row_alignment),
{
    if row_alignment == 0 {
        return Err(TextureError::RowAlignment);
    }
    if width == 0 || height == 0 {
        return Err(TextureError::Empty);
    }
    let row_bytes: u64 = 4 * (width as u64);
    assert(row_bytes * height <= 0x4_0000_0000 * 0x1_0000_0000) by (nonlinear_arith)
        requires
            0 <= row_bytes <= 0x4_0000_0000,
            0 <= height <= 0x1_0000_0000,
    ;
    assert(row_bytes * height == 4 * width * height) by (nonlinear_arith)
        requires
            row_bytes == 4 * width,
    ;
    let expected: u128 = (row_bytes as u128) * (height as u128);
    if pixels.len() as u128 != expected {
        return Err(TextureError::SizeMismatch);
    }
    let alignment: u64 = row_alignment as u64;
    let padded: u64 = row_bytes + alignment - 1;
    assert(padded / alignment * alignment <= padded) by (nonlinear_arith)
        requires
            alignment > 0,
            padded >= 0,
    ;
    let pitch: u64 = padded / alignment * alignment;
    assert(pitch == row_pitch(width, row_alignment));
    assert(pitch >= row_bytes) by (nonlinear_arith)
        requires
            alignment > 0,
            padded == row_bytes + alignment - 1,
            pitch == padded / alignment * alignment,
    ;
    if pitch > u32::MAX as u64 {
        return Err(TextureError::TooLarge);
    }
    assert(pitch * height <= 0xFFFF_FFFF * 0xFFFF_FFFF) by (nonlinear_arith)
        requires
            0 <= pitch <= 0xFFFF_FFFF,
            0 <= height <= 0xFFFF_FFFF,
    ;
    let total: u64 = pitch * (height as u64);
    if total > usize::MAX as u64 {
        return Err(TextureError::TooLarge);
    }
    assert(pitch <= total && height <= total) by (nonlinear_arith)
        requires
            total == pitch * height,
            pitch >= 1,
            height >= 1,
    ;
    let row_len: usize = row_bytes as usize;
    let step: usize = pitch as usize;
    let rows: usize = height as usize;
    let count: usize = pixels.len();
    let ghost staged = staged_rows(pixels@, width, height, pitch as int);
    let mut data: Vec<u8> = Vec::new();
    let mut row: usize = 0;
    while row < rows
        invariant
            rows == height,
            row_len == 4 * width,
            step == pitch,
            0 < row_len <= step,
            count == pixels@.len(),
            count == row_len * rows,
            staged == staged_rows(pixels@, width, height, pitch as int),
            row <= rows,
            data@.len() == row * step,
            forall|k: int| 0 <= k < data@.len() ==> data@[k] == staged[k],
        decreases rows - row,
    {
        let mut col: usize = 0;
        while col < step
            invariant
                rows == height,
                row_len == 4 * width,
                step == pitch,
                0 < row_len <= step,
                count == pixels@.len(),
                count == row_len * rows,
                staged == staged_rows(pixels@, width, height, pitch as int),
                row < rows,
                col <= step,
                data@.len() == row * step + col,
                forall|k: int| 0 <= k < data@.len() ==> data@[k] == staged[k],
            decreases step - col,
        {
            let ghost k: int = row * step + col;
            proof {
                lemma_fundamental_div_mod_converse(k, step as int, row as int, col as int);
                assert(k < step * rows) by (nonlinear_arith)
                    requires
                        k == row * step + col,
                        0 <= col < step,
                        0 <= row < rows,
                ;
            }
            let byte: u8 = if col < row_len {
                assert(0 <= row * row_len && row * row_len + col < row_len * rows)
                    by (nonlinear_arith)
                    requires
                        0 <= col < row_len,
                        0 <= row < rows,
                ;
                pixels[row * row_len + col]
            } else {
                0
            };
            assert(byte == staged[k]);
            data.push(byte);
            col += 1;
        }
        assert((row + 1) * step == row * step + step) by (nonlinear_arith);
        row += 1;
    }
    assert(data@.len() == step * rows) by (nonlinear_arith)
        requires
            data@.len() == row * step,
            row == rows,
    ;
    assert(data@ =~= staged);
    Ok(
        TextureUpload {
            descriptor: TextureDescriptor {
                size: Extent3d { width, height, depth: 1 },
                array_layer_count: 1,
                mip_level_count: 1,
                sample_count: 1,
                dimension: TextureDimension::D2,
                format: TextureFormat::Rgba8UnormSrgb,
                usage: TextureUsage {
                    copy_src: false,
                    copy_dst: true,
                    sampled: true,
                    storage: false,
                    output_attachment: false,
                },
            },
            data,
            layout: BufferCopyLayout {
                offset: 0,
                bytes_per_row: pitch as u32,
                rows_per_image: height,
            },
            target: TextureCopyTarget {
                mip_level: 0,
                array_layer: 0,
                origin: Origin3d { x: 0, y: 0, z: 0 },
            },
            copy_size: Extent3d { width, height, depth: 1 },
        },
    )
}

/// What decoding an image file yields: `None` where the bytes are no image
/// that the decoder takes, `Some(None)` where they decode to anything but
/// 8-bit RGBA, else width, height and the pixel buffer.
pub uninterp spec fn rgba8_decoding(file: Seq<u8>) -> Option<Option<(u32, u32, Seq<u8>)>>;

/// `image::ImageError`, which is handed through and never looked into.
#[verifier::external_type_specification]
#[verifier::external_body]
pub struct ExImageError(image::ImageError);

/// `image::load_from_memory`, which guesses the format of the file and
/// decodes it, followed by `DynamicImage::as_rgba8`, which hands out the
/// image only where it was decoded to 8-bit RGBA. Width, height and the raw
/// buffer of that image are returned as they are. The outcome depends on the
/// bytes of the file alone.
#[verifier::external_body]
fn decode_rgba8(file: &[u8]) -> (r: Result<Option<(u32, u32, Vec<u8>)>, image::ImageError>)
    ensures
        match r {
            Ok(Some(image)) => rgba8_decoding(file@) == Some(
                Some((image.0, image.1, image.2@)),
            ),
            Ok(None) => rgba8_decoding(file@) == Some(None::<(u32, u32, Seq<u8>)>),
            Err(_) => rgba8_decoding(file@) is None,
        },
{
    let decoded = image::load_from_memory(file)?;
    Ok(decoded.as_rgba8().map(|rgba| (rgba.width(), rgba.height(), rgba.as_raw().clone())))
}

/// `r` is what loading a texture comes to, given what decoding the file
/// yielded.
pub open spec fn is_texture_of(
    r: Result<TextureUpload, TextureError>,
    decoding: Option<Option<(u32, u32, Seq<u8>)>>,
    alignment: u32,
) -> bool {
    match decoding {
        None => r == Err::<TextureUpload, TextureError>(TextureError::Undecodable),
        Some(None) => r == Err::<TextureUpload, TextureError>(TextureError::NotRgba8),
        Some(Some(image)) => is_staging_of(r, image.2, image.0, image.1, alignment),
    }
}

/// Decodes an image file and stages its pixels as [`stage_texture`] does.
pub fn load_texture(file: &[u8], row_alignment: u32) -> (r: Result<TextureUpload, TextureError>)
    ensures
        is_texture_of(r, rgba8_decoding(file@), row_alignment),
{
    match decode_rgba8(file) {
        Err(_) => Err(TextureError::Undecodable),
        Ok(None) => Err(TextureError::NotRgba8),
        Ok(Some(image)) => stage_texture(image.2.as_slice(), image.0, image.1, row_alignment),
    }
}

/// What a sampler does with coordinates outside the texture.
#[derive(Copy, Clone, Debug, PartialEq, Eq, Structural)]
pub enum AddressMode {
    ClampToEdge,
    Repeat,
    MirrorRepeat,
}

/// How a sampler picks a colour between texels.
#[derive(Copy, Clone, Debug, PartialEq, Eq, Structural)]
pub enum FilterMode {
    Nearest,
    Linear,
}

/// The comparison of a sampler.
#[derive(Copy, Clone, Debug, PartialEq, Eq, Structural)]
pub enum CompareFunction {
    Undefined,
    Never,
    Less,
    Equal,
    LessEqual,
    Greater,
    NotEqual,
    GreaterEqual,
    Always,
}

/// What a sampler is created with. The two level-of-detail clamps are
/// IEEE-754 singles, held as their bit patterns.
#[derive(Copy, Clone, Debug, PartialEq, Eq, Structural)]
pub struct SamplerDescriptor {
    pub address_mode_u: AddressMode,
    pub address_mode_v: AddressMode,
    pub address_mode_w: AddressMode,
    pub mag_filter: FilterMode,
    pub min_filter: FilterMode,
    pub mipmap_filter: FilterMode,
    pub lod_min_clamp: u32,
    pub lod_max_clamp: u32,
    pub compare: CompareFunction,
}

/// The bit pattern of the single-precision number -100.
pub const LOD_MIN_CLAMP: u32 = 0xC2C8_0000;

/// The bit pattern of the single-precision number 100.
pub const LOD_MAX_CLAMP: u32 = 0x42C8_0000;

/// The sampler of the diffuse texture: coordinates clamp to the edge,
/// magnification blends texels, minification and mip selection take the
/// nearest, levels of detail from -100 to 100, and every comparison passes.
pub fn diffuse_sampler() -> (sampler: SamplerDescriptor)
    ensures
        sampler == (SamplerDescriptor {
            address_mode_u: AddressMode::ClampToEdge,
            address_mode_v: AddressMode::ClampToEdge,
            address_mode_w: AddressMode::ClampToEdge,
            mag_filter: FilterMode::Linear,
            min_filter: FilterMode::Nearest,
            mipmap_filter: FilterMode::Nearest,
            lod_min_clamp: LOD_MIN_CLAMP,
            lod_max_clamp: LOD_MAX_CLAMP,
            compare: CompareFunction::Always,
        }),
{
    SamplerDescriptor {
        address_mode_u: AddressMode::ClampToEdge,
        address_mode_v: AddressMode::ClampToEdge,
        address_mode_w: AddressMode::ClampToEdge,
        mag_filter: FilterMode::Linear,
        min_filter: FilterMode::Nearest,
        mipmap_filter: FilterMode::Nearest,
        lod_min_clamp: LOD_MIN_CLAMP,
        lod_max_clamp: LOD_MAX_CLAMP,
        compare: CompareFunction::Always,
    }
}

} // verus!
