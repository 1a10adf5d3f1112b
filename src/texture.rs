use vstd::prelude::*;
use crate::extent::{clamp_dim, Extent2d};

verus! {

/// The texel formats that textures and attachments of the renderer use.
#[derive(Clone, Copy, Debug, PartialEq, Eq, Structural)]
pub enum TextureFormat {
    R8Unorm,
    R8Snorm,
    R8Uint,
    R8Sint,
    Rg8Unorm,
    Rg8Snorm,
    Rg8Uint,
    Rg8Sint,
    Rgba8Unorm,
    Rgba8UnormSrgb,
    Bgra8Unorm,
    Bgra8UnormSrgb,
    R16Uint,
    R16Sint,
    R16Unorm,
    R16Snorm,
    R16Float,
    Rg16Uint,
    Rg16Sint,
    Rg16Unorm,
    Rg16Snorm,
    Rg16Float,
    Rgba16Uint,
    Rgba16Sint,
    Rgba16Unorm,
    Rgba16Snorm,
    Rgba16Float,
    Depth32Float,
}

pub const DEPTH_ATTACHMENT_FORMAT: TextureFormat = TextureFormat::Depth32Float;
pub const DIFFUSE_ATTACHMENT_FORMAT: TextureFormat = TextureFormat::Rgba8UnormSrgb;
pub const FINAL_ATTACHMENT_FORMAT: TextureFormat = TextureFormat::Rgba8UnormSrgb;
pub const NORMAL_ATTACHMENT_FORMAT: TextureFormat = TextureFormat::Rgba8Unorm;
pub const LIGHT_ATTACHMENT_FORMAT: TextureFormat = TextureFormat::Rgba8Unorm;

pub const DIFFUSE_TEXTURE_FORMAT: TextureFormat = TextureFormat::Rgba8UnormSrgb;
pub const FULLBRIGHT_TEXTURE_FORMAT: TextureFormat = TextureFormat::R8Unorm;
pub const LIGHTMAP_TEXTURE_FORMAT: TextureFormat = TextureFormat::R8Unorm;

/// Bytes per texel of a color format; a depth format has no upload stride.
pub open spec fn texel_size(f: TextureFormat) -> Option<u32> {
    match f {
        TextureFormat::R8Unorm | TextureFormat::R8Snorm | TextureFormat::R8Uint
        | TextureFormat::R8Sint => Some(1),
        TextureFormat::Rg8Unorm | TextureFormat::Rg8Snorm | TextureFormat::Rg8Uint
        | TextureFormat::Rg8Sint => Some(2),
        TextureFormat::Rgba8Unorm | TextureFormat::Rgba8UnormSrgb | TextureFormat::Bgra8Unorm
        | TextureFormat::Bgra8UnormSrgb => Some(4),
        TextureFormat::R16Uint | TextureFormat::R16Sint | TextureFormat::R16Unorm
        | TextureFormat::R16Snorm | TextureFormat::R16Float => Some(2),
        TextureFormat::Rg16Uint | TextureFormat::Rg16Sint | TextureFormat::Rg16Unorm
        | TextureFormat::Rg16Snorm | TextureFormat::Rg16Float => Some(4),
        TextureFormat::Rgba16Uint | TextureFormat::Rgba16Sint | TextureFormat::Rgba16Unorm
        | TextureFormat::Rgba16Snorm | TextureFormat::Rgba16Float => Some(8),
        TextureFormat::Depth32Float => None,
    }
}

/// Bytes per texel of `format`, or `None` for a format that is never uploaded.
pub fn bytes_per_texel(format: TextureFormat) -> (r: Option<u32>)
    ensures
        r == texel_size(format),
{
    match format {
        TextureFormat::R8Unorm | TextureFormat::R8Snorm | TextureFormat::R8Uint
        | TextureFormat::R8Sint => Some(1),
        TextureFormat::Rg8Unorm | TextureFormat::Rg8Snorm | TextureFormat::Rg8Uint
        | TextureFormat::Rg8Sint => Some(2),
        TextureFormat::Rgba8Unorm | TextureFormat::Rgba8UnormSrgb | TextureFormat::Bgra8Unorm
        | TextureFormat::Bgra8UnormSrgb => Some(4),
        TextureFormat::R16Uint | TextureFormat::R16Sint | TextureFormat::R16Unorm
        | TextureFormat::R16Snorm | TextureFormat::R16Float => Some(2),
        TextureFormat::Rg16Uint | TextureFormat::Rg16Sint | TextureFormat::Rg16Unorm
        | TextureFormat::Rg16Snorm | TextureFormat::Rg16Float => Some(4),
        TextureFormat::Rgba16Uint | TextureFormat::Rgba16Sint | TextureFormat::Rgba16Unorm
        | TextureFormat::Rgba16Snorm | TextureFormat::Rgba16Float => Some(8),
        TextureFormat::Depth32Float => None,
    }
}

/// RGBA texels of a diffuse texture.
pub struct DiffuseData {
    pub rgba: Vec<u8>,
}

/// One byte per texel: the fullbright mask of a texture.
pub struct FullbrightData {
    pub fullbright: Vec<u8>,
}

/// One byte per texel: light intensity of a surface.
pub struct LightmapData {
    pub lightmap: Vec<u8>,
}

/// Texel data of one texture, tagged with what it holds.
pub enum TextureData {
    Diffuse(DiffuseData),
    Fullbright(FullbrightData),
    Lightmap(LightmapData),
}

impl TextureData {
    pub open spec fn format_spec(&self) -> TextureFormat {
        match self {
            TextureData::Diffuse(_) => DIFFUSE_TEXTURE_FORMAT,
            TextureData::Fullbright(_) => FULLBRIGHT_TEXTURE_FORMAT,
            TextureData::Lightmap(_) => LIGHTMAP_TEXTURE_FORMAT,
        }
    }

    pub open spec fn bytes(&self) -> Seq<u8> {
        match self {
            TextureData::Diffuse(d) => d.rgba@,
            TextureData::Fullbright(d) => d.fullbright@,
            TextureData::Lightmap(d) => d.lightmap@,
        }
    }

    /// Bytes per texel of this data: four for RGBA, one for single-channel.
    pub open spec fn stride_spec(&self) -> u32 {
        match self {
            TextureData::Diffuse(_) => 4,
            _ => 1,
        }
    }

    /// The format in which this data is uploaded.
    pub fn format(&self) -> (r: TextureFormat)
        ensures
            r == self.format_spec(),
    {
        match self {
            TextureData::Diffuse(_) => DIFFUSE_TEXTURE_FORMAT,
            TextureData::Fullbright(_) => FULLBRIGHT_TEXTURE_FORMAT,
            TextureData::Lightmap(_) => LIGHTMAP_TEXTURE_FORMAT,
        }
    }

    /// The texel bytes.
    pub fn data(&self) -> (r: &[u8])
        ensures
            r@ == self.bytes(),
    {
        match self {
            TextureData::Diffuse(d) => d.rgba.as_slice(),
            TextureData::Fullbright(d) => d.fullbright.as_slice(),
            TextureData::Lightmap(d) => d.lightmap.as_slice(),
        }
    }

    /// Bytes per texel of this data's format.
    pub fn stride(&self) -> (r: u32)
        ensures
            r == self.stride_spec(),
            Some(r) == texel_size(self.format_spec()),
    {
        match bytes_per_texel(self.format()) {
            Some(s) => s,
            None => 1,
        }
    }

    /// Number of texel bytes.
    pub fn size(&self) -> (r: u64)
        ensures
            r == self.bytes().len(),
    {
        self.data().len() as u64
    }
}

/// What the device is asked to allocate for a sampled texture: a single 2D
/// layer with one mip level and one sample, writable by copies.
#[derive(Clone, Debug, PartialEq, Eq)]
pub struct TextureDescriptor {
    pub label: Option<String>,
    pub width: u32,
    pub height: u32,
    pub depth_or_array_layers: u32,
    pub mip_level_count: u32,
    pub sample_count: u32,
    pub format: TextureFormat,
    pub copy_dst: bool,
    pub texture_binding: bool,
}

impl TextureDescriptor {
    pub open spec fn describes(&self, label: Option<String>, width: u32, height: u32, format: TextureFormat) -> bool {
        &&& self.label == label
        &&& self.width == width
        &&& self.height == height
        &&& self.depth_or_array_layers == 1
        &&& self.mip_level_count == 1
        &&& self.sample_count == 1
        &&& self.format == format
        &&& self.copy_dst
        &&& self.texture_binding
    }
}

/// Descriptor of a sampled 2D texture of the given size and format.
pub fn texture_descriptor(label: Option<String>, width: u32, height: u32, format: TextureFormat) -> (r: TextureDescriptor)
    ensures
        r.describes(label, width, height, format),
{
    TextureDescriptor {
        label,
        width,
        height,
        depth_or_array_layers: 1,
        mip_level_count: 1,
        sample_count: 1,
        format,
        copy_dst: true,
        texture_binding: true,
    }
}

/// How one texture is created and filled: the allocation, and the copy of the
/// texel bytes into it.
#[derive(Clone, Debug, PartialEq, Eq)]
pub struct TextureUpload {
    pub descriptor: TextureDescriptor,
    pub bytes_per_row: u32,
    pub copy_width: u32,
    pub copy_height: u32,
}

/// Plans the creation of a texture of `width` by `height` texels holding
/// `data`. A zero dimension is allocated as one texel, while the copy keeps
/// the requested (possibly empty) extent and rows of `width * stride` bytes.
pub fn create_texture(label: Option<String>, width: u32, height: u32, data: &TextureData) -> (r: TextureUpload)
    requires
        width * data.stride_spec() <= u32::MAX,
    ensures
        r.descriptor.describes(label, clamp_dim(width), clamp_dim(height), data.format_spec()),
        r.bytes_per_row == width * data.stride_spec(),
        r.copy_width == width,
        r.copy_height == height,
{
    let size = Extent2d { width, height }.allocation_extent();
    let descriptor = texture_descriptor(label, size.width, size.height, data.format());
    TextureUpload { descriptor, bytes_per_row: width * data.stride(), copy_width: width, copy_height: height }
}

} // verus!
