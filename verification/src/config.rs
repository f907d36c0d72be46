//! The fixed resource configuration built once at start-up: the empty vertex
//! buffer, the spritesheet texture, the texture binding, and the two render
//! pipelines.

use vstd::prelude::*;

verus! {

/// Side length in texels of the square spritesheet texture.
pub const SPRITESHEET_RESOLUTION: u32 = 256;

/// Texel formats a pipeline can target. The quad pipeline always targets the
/// spritesheet's own format; the blit pipeline targets whatever format the
/// output surface was configured with.
#[derive(Clone, Copy, PartialEq, Eq, Structural, Debug)]
pub enum TextureFormat {
    Rgba8Unorm,
    Rgba8UnormSrgb,
    Bgra8Unorm,
    Bgra8UnormSrgb,
}

/// Whether a vertex buffer slot advances per vertex or per instance.
#[derive(Clone, Copy, PartialEq, Eq, Structural, Debug)]
pub enum StepMode {
    Vertex,
    Instance,
}

/// Layout of the single vertex buffer slot both pipelines declare.
#[derive(Clone, Copy, PartialEq, Eq, Structural, Debug)]
pub struct VertexLayout {
    pub array_stride: u64,
    pub step_mode: StepMode,
    pub attribute_count: usize,
}

/// Configuration of the vertex buffer both passes bind.
#[derive(Clone, Copy, PartialEq, Eq, Structural, Debug)]
pub struct BufferConfig {
    pub size: u64,
    pub usage_vertex: bool,
    pub mapped_at_creation: bool,
}

/// Configuration of a two-dimensional colour texture.
#[derive(Clone, Copy, PartialEq, Eq, Structural, Debug)]
pub struct TextureConfig {
    pub width: u32,
    pub height: u32,
    pub depth_or_array_layers: u32,
    pub mip_level_count: u32,
    pub sample_count: u32,
    pub format: TextureFormat,
    pub usage_render_attachment: bool,
    pub usage_texture_binding: bool,
}

/// A texture configuration the backend accepts: no extent is zero and there
/// is at least one mip level and one sample.
pub open spec fn texture_well_formed(t: TextureConfig) -> bool {
    &&& t.width >= 1
    &&& t.height >= 1
    &&& t.depth_or_array_layers >= 1
    &&& t.mip_level_count >= 1
    &&& t.sample_count >= 1
}

/// The single texture binding the blit pipeline exposes to its fragment
/// stage.
#[derive(Clone, Copy, PartialEq, Eq, Structural, Debug)]
pub struct TextureBindingLayout {
    pub binding: u32,
    pub fragment_visible: bool,
    pub filterable: bool,
    pub multisampled: bool,
}

/// The shader entry points the two pipelines are built from.
#[derive(Clone, Copy, PartialEq, Eq, Structural, Debug)]
pub enum EntryPoint {
    VertMain,
    FragMain,
    BlitVertMain,
    BlitFragMain,
}

/// Configuration of one render pipeline: its two shader entry points, its
/// single colour target, and the vertex buffer slot it declares. Both
/// pipelines blend with premultiplied alpha and write every channel.
#[derive(Clone, Copy, PartialEq, Eq, Structural, Debug)]
pub struct PipelineConfig {
    pub vertex_entry: EntryPoint,
    pub fragment_entry: EntryPoint,
    pub target_format: TextureFormat,
    pub premultiplied_alpha_blend: bool,
    pub write_all_channels: bool,
    pub vertex_layout: VertexLayout,
    pub texture_binding_count: usize,
}

impl EntryPoint {
    /// The entry point's name in the shader module source.
    pub fn wgsl_name(&self) -> (r: &'static str)
        ensures
            self is VertMain ==> r@ == "vert_main"@,
            self is FragMain ==> r@ == "frag_main"@,
            self is BlitVertMain ==> r@ == "blit_vert_main"@,
            self is BlitFragMain ==> r@ == "blit_frag_main"@,
    {
        match self {
            EntryPoint::VertMain => "vert_main",
            EntryPoint::FragMain => "frag_main",
            EntryPoint::BlitVertMain => "blit_vert_main",
            EntryPoint::BlitFragMain => "blit_frag_main",
        }
    }
}

/// The deliberately degenerate vertex layout: zero stride and no attributes,
/// so the bound buffer may be empty.
pub fn empty_vertex_layout() -> (l: VertexLayout)
    ensures
        l.array_stride == 0,
        l.step_mode is Vertex,
        l.attribute_count == 0,
{
    VertexLayout { array_stride: 0, step_mode: StepMode::Vertex, attribute_count: 0 }
}

/// The zero-size vertex buffer both passes bind: usable only as a vertex
/// buffer and never mapped.
pub fn empty_vertex_buffer() -> (b: BufferConfig)
    ensures
        b.size == 0,
        b.usage_vertex,
        !b.mapped_at_creation,
{
    BufferConfig { size: 0, usage_vertex: true, mapped_at_creation: false }
}

/// The spritesheet: a square single-mip, single-sample texture that the quad
/// pass renders into and the blit pass samples from.
pub fn spritesheet_texture() -> (t: TextureConfig)
    ensures
        t.width == SPRITESHEET_RESOLUTION,
        t.height == SPRITESHEET_RESOLUTION,
        t.depth_or_array_layers == 1,
        t.mip_level_count == 1,
        t.sample_count == 1,
        t.format is Rgba8Unorm,
        t.usage_render_attachment,
        t.usage_texture_binding,
        texture_well_formed(t),
{
    TextureConfig {
        width: SPRITESHEET_RESOLUTION,
        height: SPRITESHEET_RESOLUTION,
        depth_or_array_layers: 1,
        mip_level_count: 1,
        sample_count: 1,
        format: TextureFormat::Rgba8Unorm,
        usage_render_attachment: true,
        usage_texture_binding: true,
    }
}

/// The binding through which the blit fragment shader reads the spritesheet:
/// binding slot zero, fragment stage only, a non-filterable single-sampled
/// two-dimensional texture.
pub fn blit_texture_binding() -> (b: TextureBindingLayout)
    ensures
        b.binding == 0,
        b.fragment_visible,
        !b.filterable,
        !b.multisampled,
{
    TextureBindingLayout {
        binding: 0,
        fragment_visible: true,
        filterable: false,
        multisampled: false,
    }
}

/// The quad pipeline: draws a sprite cell into the spritesheet. It binds no
/// textures and always targets the spritesheet's format.
pub fn quad_pipeline() -> (p: PipelineConfig)
    ensures
        p.vertex_entry is VertMain,
        p.fragment_entry is FragMain,
        p.target_format is Rgba8Unorm,
        p.premultiplied_alpha_blend,
        p.write_all_channels,
        p.vertex_layout.array_stride == 0,
        p.vertex_layout.step_mode is Vertex,
        p.vertex_layout.attribute_count == 0,
        p.texture_binding_count == 0,
{
    PipelineConfig {
        vertex_entry: EntryPoint::VertMain,
        fragment_entry: EntryPoint::FragMain,
        target_format: TextureFormat::Rgba8Unorm,
        premultiplied_alpha_blend: true,
        write_all_channels: true,
        vertex_layout: empty_vertex_layout(),
        texture_binding_count: 0,
    }
}

/// The blit pipeline: copies the spritesheet onto the output target. It binds
/// the spritesheet through one texture binding and targets the format the
/// output surface was configured with.
pub fn blit_pipeline(surface_format: TextureFormat) -> (p: PipelineConfig)
    ensures
        p.vertex_entry is BlitVertMain,
        p.fragment_entry is BlitFragMain,
        p.target_format == surface_format,
        p.premultiplied_alpha_blend,
        p.write_all_channels,
        p.vertex_layout.array_stride == 0,
        p.vertex_layout.step_mode is Vertex,
        p.vertex_layout.attribute_count == 0,
        p.texture_binding_count == 1,
{
    PipelineConfig {
        vertex_entry: EntryPoint::BlitVertMain,
        fragment_entry: EntryPoint::BlitFragMain,
        target_format: surface_format,
        premultiplied_alpha_blend: true,
        write_all_channels: true,
        vertex_layout: empty_vertex_layout(),
        texture_binding_count: 1,
    }
}

} // verus!
