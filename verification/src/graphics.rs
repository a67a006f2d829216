//! Geometry and texture helpers: vertex buffer layouts with computed
//! attribute offsets, and a builder that plans a texture, its sampler and
//! the layout of uploaded texel data.

use vstd::prelude::*;

verus! {

/// A texel format, as far as this library's planning reads it: whether it is
/// sRGB-encoded and how many bytes one texel occupies. Formats outside this
/// list are carried as `Unrecognized`.
#[derive(Clone, Copy, Debug, PartialEq, Eq, Structural)]
pub enum TextureFormat {
    R8Unorm,
    R16Uint,
    Rg8Unorm,
    R32Uint,
    Rg16Uint,
    Rgba8Unorm,
    Rgba8UnormSrgb,
    Bgra8Unorm,
    Bgra8UnormSrgb,
    Rg32Uint,
    Rgba16Uint,
    Rgba32Uint,
    Unrecognized,
}

/// How many bytes one texel of the format occupies, where the format is
/// recognized.
pub open spec fn spec_block_size(f: TextureFormat) -> Option<u32> {
    match f {
        TextureFormat::R8Unorm => Some(1u32),
        TextureFormat::R16Uint => Some(2u32),
        TextureFormat::Rg8Unorm => Some(2u32),
        TextureFormat::R32Uint => Some(4u32),
        TextureFormat::Rg16Uint => Some(4u32),
        TextureFormat::Rgba8Unorm => Some(4u32),
        TextureFormat::Rgba8UnormSrgb => Some(4u32),
        TextureFormat::Bgra8Unorm => Some(4u32),
        TextureFormat::Bgra8UnormSrgb => Some(4u32),
        TextureFormat::Rg32Uint => Some(8u32),
        TextureFormat::Rgba16Uint => Some(8u32),
        TextureFormat::Rgba32Uint => Some(16u32),
        TextureFormat::Unrecognized => None,
    }
}

impl TextureFormat {
    /// How many bytes one texel of the format occupies, where the format is
    /// recognized.
    pub fn block_size(self) -> (r: Option<u32>)
        ensures
            r == spec_block_size(self),
    {
        match self {
            TextureFormat::R8Unorm => Some(1u32),
            TextureFormat::R16Uint => Some(2u32),
            TextureFormat::Rg8Unorm => Some(2u32),
            TextureFormat::R32Uint => Some(4u32),
            TextureFormat::Rg16Uint => Some(4u32),
            TextureFormat::Rgba8Unorm => Some(4u32),
            TextureFormat::Rgba8UnormSrgb => Some(4u32),
            TextureFormat::Bgra8Unorm => Some(4u32),
            TextureFormat::Bgra8UnormSrgb => Some(4u32),
            TextureFormat::Rg32Uint => Some(8u32),
            TextureFormat::Rgba16Uint => Some(8u32),
            TextureFormat::Rgba32Uint => Some(16u32),
            TextureFormat::Unrecognized => None,
        }
    }

    /// Whether the format is sRGB-encoded.
    pub fn is_srgb(self) -> (r: bool)
        ensures
            r == (self == TextureFormat::Rgba8UnormSrgb
                || self == TextureFormat::Bgra8UnormSrgb),
    {
        match self {
            TextureFormat::Rgba8UnormSrgb => true,
            TextureFormat::Bgra8UnormSrgb => true,
            _ => false,
        }
    }
}

/// The shape of one vertex attribute in shader terms.
#[derive(Clone, Copy, Debug, PartialEq, Eq, Structural)]
pub enum VertexFormat {
    Float32,
    Float32x2,
    Float32x3,
    Float32x4,
}

/// How many bytes one attribute of the format occupies.
pub open spec fn spec_vertex_format_size(f: VertexFormat) -> u64 {
    match f {
        VertexFormat::Float32 => 4u64,
        VertexFormat::Float32x2 => 8u64,
        VertexFormat::Float32x3 => 12u64,
        VertexFormat::Float32x4 => 16u64,
    }
}

/// How many bytes one attribute of the format occupies.
pub fn vertex_format_size(f: VertexFormat) -> (r: u64)
    ensures
        r == spec_vertex_format_size(f),
{
    match f {
        VertexFormat::Float32 => 4u64,
        VertexFormat::Float32x2 => 8u64,
        VertexFormat::Float32x3 => 12u64,
        VertexFormat::Float32x4 => 16u64,
    }
}

/// The bytes a run of attributes occupies when packed in order.
pub open spec fn packed_size(formats: Seq<VertexFormat>) -> int
    decreases formats.len(),
{
    if formats.len() == 0 {
        0
    } else {
        packed_size(formats.drop_last()) + spec_vertex_format_size(formats.last())
    }
}

/// Whether a buffer step advances per vertex or per instance.
#[derive(Clone, Copy, Debug, PartialEq, Eq, Structural)]
pub enum VertexStepMode {
    Vertex,
    Instance,
}

/// One attribute of a vertex buffer: its shape, its byte offset inside a
/// vertex, and the shader location it binds to.
#[derive(Clone, Copy, Debug, PartialEq, Eq, Structural)]
pub struct VertexAttribute {
    pub format: VertexFormat,
    pub offset: u64,
    pub shader_location: u32,
}

/// The layout of one vertex buffer: its stride, step mode, and attributes.
#[derive(Clone, Debug, PartialEq, Eq)]
pub struct VertexLayout {
    pub array_stride: u64,
    pub step_mode: VertexStepMode,
    pub attributes: Vec<VertexAttribute>,
}

/// Lay the given attribute shapes out packed in declaration order: each
/// attribute's offset is the packed size of those before it, shader locations
/// count up from zero, and the stride is the packed size of them all.
pub fn vertex_layout(formats: &Vec<VertexFormat>) -> (r: VertexLayout)
    requires
        formats@.len() <= 0xFFFF,
    ensures
        r.step_mode == VertexStepMode::Vertex,
        r.attributes@.len() == formats@.len(),
        forall|i: int| 0 <= i < formats@.len() ==> #[trigger] r.attributes@[i] == (VertexAttribute {
            format: formats@[i],
            offset: packed_size(formats@.take(i)) as u64,
            shader_location: i as u32,
        }),
        r.array_stride == packed_size(formats@),
{
    let mut attributes: Vec<VertexAttribute> = Vec::new();
    let mut offset: u64 = 0;
    let mut i: usize = 0;
    while i < formats.len()
        invariant
            formats@.len() <= 0xFFFF,
            i <= formats@.len(),
            attributes@.len() == i,
            offset == packed_size(formats@.take(i as int)),
            offset <= 16 * i,
            forall|k: int| 0 <= k < i ==> #[trigger] attributes@[k] == (VertexAttribute {
                format: formats@[k],
                offset: packed_size(formats@.take(k)) as u64,
                shader_location: k as u32,
            }),
        decreases formats@.len() - i,
    {
        let f = formats[i];
        attributes.push(VertexAttribute {
            format: f,
            offset,
            shader_location: i as u32,
        });
        proof {
            assert(formats@.take(i + 1).drop_last() =~= formats@.take(i as int));
            assert(formats@.take(i + 1).last() == formats@[i as int]);
        }
        offset = offset + vertex_format_size(f);
        i = i + 1;
    }
    proof {
        assert(formats@.take(i as int) =~= formats@);
    }
    VertexLayout {
        array_stride: offset,
        step_mode: VertexStepMode::Vertex,
        attributes,
    }
}

/// The layout of a two-dimensional textured vertex: a two-component position
/// followed by a two-component texture coordinate, sixteen bytes in all.
pub fn vertex2d_desc() -> (r: VertexLayout)
    ensures
        r.array_stride == 16,
        r.step_mode == VertexStepMode::Vertex,
        r.attributes@ =~= seq![
            VertexAttribute { format: VertexFormat::Float32x2, offset: 0, shader_location: 0 },
            VertexAttribute { format: VertexFormat::Float32x2, offset: 8, shader_location: 1 },
        ],
{
    let mut formats: Vec<VertexFormat> = Vec::new();
    formats.push(VertexFormat::Float32x2);
    formats.push(VertexFormat::Float32x2);
    let r = vertex_layout(&formats);
    proof {
        let s = formats@;
        assert(s.take(0) =~= Seq::<VertexFormat>::empty());
        assert(packed_size(s.take(0)) == 0);
        assert(s.take(1).drop_last() =~= s.take(0));
        assert(s.take(1).last() == s[0]);
        assert(packed_size(s.take(1)) == 8);
        assert(s.drop_last() =~= s.take(1));
        assert(packed_size(s) == 16);
        assert(r.attributes@[0] == (VertexAttribute {
            format: VertexFormat::Float32x2, offset: 0, shader_location: 0 }));
        assert(r.attributes@[1] == (VertexAttribute {
            format: VertexFormat::Float32x2, offset: 8, shader_location: 1 }));
    }
    r
}

/// The layout of a three-dimensional textured, lit vertex: a four-component
/// position, a three-component normal and a two-component texture
/// coordinate, thirty-six bytes in all.
pub fn vertex_desc() -> (r: VertexLayout)
    ensures
        r.array_stride == 36,
        r.step_mode == VertexStepMode::Vertex,
        r.attributes@ =~= seq![
            VertexAttribute { format: VertexFormat::Float32x4, offset: 0, shader_location: 0 },
            VertexAttribute { format: VertexFormat::Float32x3, offset: 16, shader_location: 1 },
            VertexAttribute { format: VertexFormat::Float32x2, offset: 28, shader_location: 2 },
        ],
{
    let mut formats: Vec<VertexFormat> = Vec::new();
    formats.push(VertexFormat::Float32x4);
    formats.push(VertexFormat::Float32x3);
    formats.push(VertexFormat::Float32x2);
    let r = vertex_layout(&formats);
    proof {
        let s = formats@;
        assert(s.take(0) =~= Seq::<VertexFormat>::empty());
        assert(packed_size(s.take(0)) == 0);
        assert(s.take(1).drop_last() =~= s.take(0));
        assert(s.take(1).last() == s[0]);
        assert(packed_size(s.take(1)) == 16);
        assert(s.take(2).drop_last() =~= s.take(1));
        assert(s.take(2).last() == s[1]);
        assert(packed_size(s.take(2)) == 28);
        assert(s.drop_last() =~= s.take(2));
        assert(packed_size(s) == 36);
        assert(r.attributes@[0] == (VertexAttribute {
            format: VertexFormat::Float32x4, offset: 0, shader_location: 0 }));
        assert(r.attributes@[1] == (VertexAttribute {
            format: VertexFormat::Float32x3, offset: 16, shader_location: 1 }));
        assert(r.attributes@[2] == (VertexAttribute {
            format: VertexFormat::Float32x2, offset: 28, shader_location: 2 }));
    }
    r
}

/// The indices of the two triangles that cover a quad of four vertices.
pub fn quad_indices() -> (r: Vec<u32>)
    ensures
        r@ =~= seq![0u32, 1u32, 3u32, 1u32, 2u32, 3u32],
{
    vec![0u32, 1u32, 3u32, 1u32, 2u32, 3u32]
}

/// Usage bit allowing a texture to be the source of a copy.
pub const TEXTURE_USAGE_COPY_SRC: u32 = 1;
/// Usage bit allowing a texture to be the destination of a copy or write.
pub const TEXTURE_USAGE_COPY_DST: u32 = 2;
/// Usage bit allowing a texture to be bound in a shader.
pub const TEXTURE_USAGE_TEXTURE_BINDING: u32 = 4;
/// Usage bit allowing a texture to be bound as a storage texture.
pub const TEXTURE_USAGE_STORAGE_BINDING: u32 = 8;

/// How a sampler treats texture coordinates outside the unit square.
#[derive(Clone, Copy, Debug, PartialEq, Eq, Structural)]
pub enum AddressMode {
    ClampToEdge,
    Repeat,
    MirrorRepeat,
    ClampToBorder,
}

/// How a sampler blends texels when a pixel does not land on one exactly.
#[derive(Clone, Copy, Debug, PartialEq, Eq, Structural)]
pub enum FilterMode {
    Nearest,
    Linear,
}

/// How many axes a texture extends along.
#[derive(Clone, Copy, Debug, PartialEq, Eq, Structural)]
pub enum TextureDimension {
    D1,
    D2,
    D3,
}

/// The extent of a texture: width, height, and depth or number of array
/// layers.
#[derive(Clone, Copy, Debug, PartialEq, Eq, Structural)]
pub struct Extent3d {
    pub width: u32,
    pub height: u32,
    pub depth_or_array_layers: u32,
}

/// Everything the texture creation call is given: format, dimensionality,
/// usage bits, mip and sample counts, and the extent.
#[derive(Clone, Copy, Debug, PartialEq, Eq, Structural)]
pub struct TextureDesc {
    pub format: TextureFormat,
    pub dimension: TextureDimension,
    pub usages: u32,
    pub mip_level_count: u32,
    pub sample_count: u32,
    pub size: Extent3d,
}

/// Everything the sampler creation call is given: the address mode on each
/// axis and the two scaling filters.
#[derive(Clone, Copy, Debug, PartialEq, Eq, Structural)]
pub struct SamplerDesc {
    pub address_mode_u: AddressMode,
    pub address_mode_v: AddressMode,
    pub address_mode_w: AddressMode,
    pub min_filter: FilterMode,
    pub mag_filter: FilterMode,
}

/// Preferences for creating a texture and its sampler. The format, usage,
/// address-mode and filter fields feed defaulted descriptors; a full
/// descriptor, where given, replaces the defaulted one outright.
#[derive(Clone, Debug, PartialEq, Eq)]
pub struct TextureBuilder {
    pub data: Vec<u8>,
    pub format: TextureFormat,
    pub usages: u32,
    pub address_mode: AddressMode,
    pub min_filter: FilterMode,
    pub mag_filter: FilterMode,
    pub texture_desc: Option<TextureDesc>,
    pub sampler_desc: Option<SamplerDesc>,
}

impl Default for TextureBuilder {
    /// An sRGB eight-bit color format, writable and bindable, edge-clamping,
    /// nearest-texel minification and linear magnification, no descriptor
    /// overrides, and no texel data.
    fn default() -> (r: Self)
        ensures
            r.data@ =~= Seq::<u8>::empty(),
            r.format == TextureFormat::Rgba8UnormSrgb,
            r.usages == TEXTURE_USAGE_COPY_DST | TEXTURE_USAGE_TEXTURE_BINDING,
            r.address_mode == AddressMode::ClampToEdge,
            r.min_filter == FilterMode::Nearest,
            r.mag_filter == FilterMode::Linear,
            r.texture_desc is None,
            r.sampler_desc is None,
    {
        TextureBuilder {
            data: Vec::new(),
            format: TextureFormat::Rgba8UnormSrgb,
            usages: TEXTURE_USAGE_COPY_DST | TEXTURE_USAGE_TEXTURE_BINDING,
            address_mode: AddressMode::ClampToEdge,
            min_filter: FilterMode::Nearest,
            mag_filter: FilterMode::Linear,
            texture_desc: None,
            sampler_desc: None,
        }
    }
}

/// The planned outcome of building a texture: the descriptors to create the
/// texture and sampler with, the extent, and the size of one texel of the
/// builder's format.
#[derive(Clone, Copy, Debug, PartialEq, Eq, Structural)]
pub struct TexturePlan {
    pub texture_desc: TextureDesc,
    pub sampler_desc: SamplerDesc,
    pub size: Extent3d,
    pub texel_size: u32,
}

impl TextureBuilder {
    /// A builder with the default preferences.
    pub fn new() -> (r: Self)
        ensures
            r.data@ =~= Seq::<u8>::empty(),
            r.format == TextureFormat::Rgba8UnormSrgb,
            r.usages == TEXTURE_USAGE_COPY_DST | TEXTURE_USAGE_TEXTURE_BINDING,
            r.address_mode == AddressMode::ClampToEdge,
            r.min_filter == FilterMode::Nearest,
            r.mag_filter == FilterMode::Linear,
            r.texture_desc is None,
            r.sampler_desc is None,
    {
        Self::default()
    }

    /// Use this texel format.
    pub fn with_format(self, f: TextureFormat) -> (r: Self)
        ensures
            r == (TextureBuilder { format: f, ..self }),
    {
        TextureBuilder { format: f, ..self }
    }

    /// Allow these usages in addition to those already allowed
    /// (a bit mask over the `TEXTURE_USAGE_*` bits, combined by bitwise or).
    pub fn with_usages(self, u: u32) -> (r: Self)
        ensures
            r == (TextureBuilder { usages: self.usages | u, ..self }),
    {
        TextureBuilder { usages: self.usages | u, ..self }
    }

    /// Treat out-of-range coordinates this way on every axis.
    pub fn with_address_mode(self, m: AddressMode) -> (r: Self)
        ensures
            r == (TextureBuilder { address_mode: m, ..self }),
    {
        TextureBuilder { address_mode: m, ..self }
    }

    /// Filter this way when the texture is drawn smaller than it is.
    pub fn with_min_filter(self, ft: FilterMode) -> (r: Self)
        ensures
            r == (TextureBuilder { min_filter: ft, ..self }),
    {
        TextureBuilder { min_filter: ft, ..self }
    }

    /// Filter this way when the texture is drawn larger than it is.
    pub fn with_mag_filter(self, ft: FilterMode) -> (r: Self)
        ensures
            r == (TextureBuilder { mag_filter: ft, ..self }),
    {
        TextureBuilder { mag_filter: ft, ..self }
    }

    /// Create the texture from this full descriptor instead of the defaulted
    /// one.
    pub fn with_texture_desc(self, td: TextureDesc) -> (r: Self)
        ensures
            r == (TextureBuilder { texture_desc: Some(td), ..self }),
    {
        TextureBuilder { texture_desc: Some(td), ..self }
    }

    /// Create the sampler from this full descriptor instead of the defaulted
    /// one.
    pub fn with_sampler_desc(self, sd: SamplerDesc) -> (r: Self)
        ensures
            r == (TextureBuilder { sampler_desc: Some(sd), ..self }),
    {
        TextureBuilder { sampler_desc: Some(sd), ..self }
    }

    /// Upload these texels into the texture once it is created.
    pub fn with_data(self, data: Vec<u8>) -> (r: Self)
        ensures
            r == (TextureBuilder { data, ..self }),
    {
        TextureBuilder { data, ..self }
    }

    /// Plan the texture for the given width and height: a defaulted
    /// two-dimensional, single-mip, single-sample descriptor and a sampler
    /// from the builder's modes and filters, each unless overridden; the
    /// texel size always comes from the builder's own format, which must be
    /// a recognized one.
    pub fn build(&self, dim: (u32, u32)) -> (r: TexturePlan)
        requires
            spec_block_size(self.format) is Some,
        ensures
            r.size == (Extent3d { width: dim.0, height: dim.1, depth_or_array_layers: 1 }),
            r.texture_desc == match self.texture_desc {
                Some(td) => td,
                None => TextureDesc {
                    format: self.format,
                    dimension: TextureDimension::D2,
                    usages: self.usages,
                    mip_level_count: 1,
                    sample_count: 1,
                    size: r.size,
                },
            },
            r.sampler_desc == match self.sampler_desc {
                Some(sd) => sd,
                None => SamplerDesc {
                    address_mode_u: self.address_mode,
                    address_mode_v: self.address_mode,
                    address_mode_w: self.address_mode,
                    min_filter: self.min_filter,
                    mag_filter: self.mag_filter,
                },
            },
            Some(r.texel_size) == spec_block_size(self.format),
    {
        let size = Extent3d {
            width: dim.0,
            height: dim.1,
            depth_or_array_layers: 1,
        };
        let texture_desc = match self.texture_desc {
            Some(td) => td,
            None => TextureDesc {
                format: self.format,
                dimension: TextureDimension::D2,
                usages: self.usages,
                mip_level_count: 1,
                sample_count: 1,
                size,
            },
        };
        let sampler_desc = match self.sampler_desc {
            Some(sd) => sd,
            None => SamplerDesc {
                address_mode_u: self.address_mode,
                address_mode_v: self.address_mode,
                address_mode_w: self.address_mode,
                min_filter: self.min_filter,
                mag_filter: self.mag_filter,
            },
        };
        let texel_size = match self.format.block_size() {
            Some(ts) => ts,
            None => 0,
        };
        TexturePlan {
            texture_desc,
            sampler_desc,
            size,
            texel_size,
        }
    }
}

/// The layout of texel data handed to a texture write: where the data
/// starts, how many bytes one row takes, and how many rows one image takes.
#[derive(Clone, Copy, Debug, PartialEq, Eq, Structural)]
pub struct ImageLayout {
    pub offset: u64,
    pub bytes_per_row: Option<u32>,
    pub rows_per_image: Option<u32>,
}

/// What the upload planning reads of a created texture: its extent and the
/// size of one of its texels.
#[derive(Clone, Copy, Debug, PartialEq, Eq, Structural)]
pub struct Texture {
    pub size: Extent3d,
    pub texel_size: u32,
}

impl Texture {
    /// How texel data of the given length is written into this texture:
    /// nothing is written when there is none; otherwise the write covers the
    /// whole extent, row by row from the start of the data.
    pub fn upload_layout(&self, data_len: usize) -> (r: Option<ImageLayout>)
        requires
            self.size.width * self.texel_size <= u32::MAX,
        ensures
            data_len == 0 ==> r is None,
            data_len != 0 ==> r == Some(ImageLayout {
                offset: 0u64,
                bytes_per_row: Some((self.size.width * self.texel_size) as u32),
                rows_per_image: Some(self.size.height),
            }),
    {
        if data_len != 0 {
            Some(ImageLayout {
                offset: 0,
                bytes_per_row: Some(self.size.width * self.texel_size),
                rows_per_image: Some(self.size.height),
            })
        } else {
            None
        }
    }
}

} // verus!
