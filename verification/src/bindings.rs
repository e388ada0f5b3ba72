//! The resource bindings shared by the two pipelines, and the agreement
//! between each bind group layout and the bind group built for it.
//!
//! The compute pipeline reads the frame parameters from a uniform buffer and
//! writes the image into a storage texture; the render pipeline samples that
//! texture onto the surface. Each layout is the pipeline's half of a
//! contract, each bind group the other half: they must list the same
//! bindings, each with a resource of the kind the layout declares.

use vstd::prelude::*;

verus! {

/// The shader stage that sees a binding.
#[derive(Clone, Copy, Debug, PartialEq, Eq, Structural)]
pub enum ShaderStage {
    Compute,
    Fragment,
}

/// Texel formats the application uses for its own textures.
#[derive(Clone, Copy, Debug, PartialEq, Eq, Structural)]
pub enum TexelFormat {
    /// Four 8-bit unsigned normalized channels, read as floats in 0..=1.
    Rgba8Unorm,
}

/// The format of the storage texture: written by the compute shader,
/// sampled as filterable floats by the fragment shader.
pub const STORAGE_FORMAT: TexelFormat = TexelFormat::Rgba8Unorm;

/// What a layout declares at a binding.
#[derive(Clone, Copy, Debug, PartialEq, Eq, Structural)]
pub enum BindingKind {
    /// A uniform buffer without dynamic offset.
    UniformBuffer,
    /// A write-only two-dimensional storage texture of the given format.
    WriteOnlyStorageTexture { format: TexelFormat },
    /// A two-dimensional, single-sampled, filterable float texture.
    FilterableTexture,
    /// A filtering sampler.
    FilteringSampler,
}

/// One entry of a bind group layout.
#[derive(Clone, Copy, Debug, PartialEq, Eq, Structural)]
pub struct LayoutEntry {
    pub binding: u32,
    pub visibility: ShaderStage,
    pub kind: BindingKind,
}

/// The resources the application binds.
#[derive(Clone, Copy, Debug, PartialEq, Eq, Structural)]
pub enum Resource {
    /// The uniform buffer holding the frame parameters.
    ParamsBuffer,
    /// The full view of the storage texture.
    StorageTextureView,
    /// The texture sampler.
    Sampler,
}

/// One entry of a bind group.
#[derive(Clone, Copy, Debug, PartialEq, Eq, Structural)]
pub struct GroupEntry {
    pub binding: u32,
    pub resource: Resource,
}

/// The usages the storage texture is created with.
#[derive(Clone, Copy, Debug, PartialEq, Eq, Structural)]
pub struct TextureUsage {
    /// Shaders may write it as a storage texture.
    pub storage_binding: bool,
    /// Shaders may sample it.
    pub texture_binding: bool,
}

/// Sampler filtering modes.
#[derive(Clone, Copy, Debug, PartialEq, Eq, Structural)]
pub enum FilterMode {
    Nearest,
    Linear,
}

/// How the storage texture is created.
#[derive(Clone, Copy, Debug, PartialEq, Eq, Structural)]
pub struct StorageTextureDesc {
    pub width: u32,
    pub height: u32,
    /// Depth of the two-dimensional texture: one layer.
    pub depth_or_array_layers: u32,
    pub mip_level_count: u32,
    pub sample_count: u32,
    pub format: TexelFormat,
    pub usage: TextureUsage,
}

/// How the sampler filters when the texture is magnified and minified.
#[derive(Clone, Copy, Debug, PartialEq, Eq, Structural)]
pub struct SamplerDesc {
    pub mag_filter: FilterMode,
    pub min_filter: FilterMode,
}

/// The usages the parameters buffer is created with.
#[derive(Clone, Copy, Debug, PartialEq, Eq, Structural)]
pub struct BufferUsage {
    /// Shaders may bind it as a uniform buffer.
    pub uniform: bool,
    /// The queue may write into it (each frame's parameters).
    pub copy_dst: bool,
}

/// The storage texture for a `width` × `height` target.
pub open spec fn spec_storage_texture(width: u32, height: u32) -> StorageTextureDesc {
    StorageTextureDesc {
        width,
        height,
        depth_or_array_layers: 1,
        mip_level_count: 1,
        sample_count: 1,
        format: STORAGE_FORMAT,
        usage: TextureUsage { storage_binding: true, texture_binding: true },
    }
}

/// The sampler: bilinear both ways.
pub open spec fn spec_sampler() -> SamplerDesc {
    SamplerDesc { mag_filter: FilterMode::Linear, min_filter: FilterMode::Linear }
}

/// The parameters buffer's usages.
pub open spec fn spec_params_buffer_usage() -> BufferUsage {
    BufferUsage { uniform: true, copy_dst: true }
}

/// Layout of the compute bind group: the parameters at binding 0, the
/// output texture at binding 1.
pub open spec fn spec_compute_layout() -> Seq<LayoutEntry> {
    seq![
        LayoutEntry { binding: 0, visibility: ShaderStage::Compute, kind: BindingKind::UniformBuffer },
        LayoutEntry { binding: 1, visibility: ShaderStage::Compute, kind: BindingKind::WriteOnlyStorageTexture { format: STORAGE_FORMAT } },
    ]
}

/// Layout of the render bind group: the texture at binding 0, the sampler at
/// binding 1.
pub open spec fn spec_render_layout() -> Seq<LayoutEntry> {
    seq![
        LayoutEntry { binding: 0, visibility: ShaderStage::Fragment, kind: BindingKind::FilterableTexture },
        LayoutEntry { binding: 1, visibility: ShaderStage::Fragment, kind: BindingKind::FilteringSampler },
    ]
}

/// Entries of the compute bind group.
pub open spec fn spec_compute_group() -> Seq<GroupEntry> {
    seq![
        GroupEntry { binding: 0, resource: Resource::ParamsBuffer },
        GroupEntry { binding: 1, resource: Resource::StorageTextureView },
    ]
}

/// Entries of the render bind group.
pub open spec fn spec_render_group() -> Seq<GroupEntry> {
    seq![
        GroupEntry { binding: 0, resource: Resource::StorageTextureView },
        GroupEntry { binding: 1, resource: Resource::Sampler },
    ]
}

/// The entries of the compute bind group layout.
pub fn compute_layout() -> (entries: Vec<LayoutEntry>)
    ensures
        entries@ == spec_compute_layout(),
{
    vec![
        LayoutEntry { binding: 0, visibility: ShaderStage::Compute, kind: BindingKind::UniformBuffer },
        LayoutEntry { binding: 1, visibility: ShaderStage::Compute, kind: BindingKind::WriteOnlyStorageTexture { format: STORAGE_FORMAT } },
    ]
}

/// The entries of the render bind group layout.
pub fn render_layout() -> (entries: Vec<LayoutEntry>)
    ensures
        entries@ == spec_render_layout(),
{
    vec![
        LayoutEntry { binding: 0, visibility: ShaderStage::Fragment, kind: BindingKind::FilterableTexture },
        LayoutEntry { binding: 1, visibility: ShaderStage::Fragment, kind: BindingKind::FilteringSampler },
    ]
}

/// The entries of the compute bind group.
pub fn compute_group() -> (entries: Vec<GroupEntry>)
    ensures
        entries@ == spec_compute_group(),
{
    vec![
        GroupEntry { binding: 0, resource: Resource::ParamsBuffer },
        GroupEntry { binding: 1, resource: Resource::StorageTextureView },
    ]
}

/// The entries of the render bind group.
pub fn render_group() -> (entries: Vec<GroupEntry>)
    ensures
        entries@ == spec_render_group(),
{
    vec![
        GroupEntry { binding: 0, resource: Resource::StorageTextureView },
        GroupEntry { binding: 1, resource: Resource::Sampler },
    ]
}

/// The usages of the storage texture: written by the compute shader,
/// sampled by the fragment shader.
pub fn storage_texture_usage() -> (usage: TextureUsage)
    ensures
        usage == spec_storage_texture(0, 0).usage,
{
    TextureUsage { storage_binding: true, texture_binding: true }
}

/// The storage texture for a `width` × `height` target: one layer, one mip
/// level, one sample, in `STORAGE_FORMAT`.
pub fn storage_texture(width: u32, height: u32) -> (desc: StorageTextureDesc)
    ensures
        desc == spec_storage_texture(width, height),
        desc.width == width,
        desc.height == height,
        desc.depth_or_array_layers == 1,
        desc.mip_level_count == 1,
        desc.sample_count == 1,
        desc.format == TexelFormat::Rgba8Unorm,
        desc.usage.storage_binding,
        desc.usage.texture_binding,
{
    StorageTextureDesc {
        width,
        height,
        depth_or_array_layers: 1,
        mip_level_count: 1,
        sample_count: 1,
        format: STORAGE_FORMAT,
        usage: storage_texture_usage(),
    }
}

/// The sampler the render bind group uses.
pub fn sampler() -> (desc: SamplerDesc)
    ensures
        desc == spec_sampler(),
{
    SamplerDesc { mag_filter: FilterMode::Linear, min_filter: FilterMode::Linear }
}

/// The usages of the parameters buffer.
pub fn params_buffer_usage() -> (usage: BufferUsage)
    ensures
        usage == spec_params_buffer_usage(),
{
    BufferUsage { uniform: true, copy_dst: true }
}

/// Whether a resource can stand at a binding of the given kind.
pub open spec fn resource_fits(resource: Resource, kind: BindingKind) -> bool {
    match kind {
        BindingKind::UniformBuffer => resource is ParamsBuffer,
        BindingKind::WriteOnlyStorageTexture { .. } => resource is StorageTextureView,
        BindingKind::FilterableTexture => resource is StorageTextureView,
        BindingKind::FilteringSampler => resource is Sampler,
    }
}

/// Whether texels of `format` are sampled as filterable floats.
pub open spec fn is_filterable_float(format: TexelFormat) -> bool {
    match format {
        TexelFormat::Rgba8Unorm => true,
    }
}

/// Whether the texture may be bound as `kind`: it has the usage the binding
/// needs, and the format the binding declares or samples.
pub open spec fn texture_fits(texture: StorageTextureDesc, kind: BindingKind) -> bool {
    match kind {
        BindingKind::WriteOnlyStorageTexture { format } => texture.usage.storage_binding
            && texture.format == format,
        BindingKind::FilterableTexture => texture.usage.texture_binding && is_filterable_float(
            texture.format,
        ),
        _ => false,
    }
}

/// Whether a sampler filters: at least one of its filters is linear.
pub open spec fn is_filtering(sampler: SamplerDesc) -> bool {
    sampler.mag_filter == FilterMode::Linear || sampler.min_filter == FilterMode::Linear
}

/// Whether the concrete resources may stand at the bindings of `layout` that
/// `group` assigns them to.
pub open spec fn resources_fit(
    buffer: BufferUsage,
    texture: StorageTextureDesc,
    sampler: SamplerDesc,
    group: Seq<GroupEntry>,
    layout: Seq<LayoutEntry>,
) -> bool {
    forall|i: int|
        0 <= i < group.len() ==> match #[trigger] group[i].resource {
            Resource::ParamsBuffer => buffer.uniform && layout[i].kind == BindingKind::UniformBuffer,
            Resource::StorageTextureView => texture_fits(texture, layout[i].kind),
            Resource::Sampler => is_filtering(sampler) && layout[i].kind
                == BindingKind::FilteringSampler,
        }
}

/// Whether a bind group satisfies a layout: no binding number is declared
/// twice, and the group gives, binding for binding, a resource of the
/// declared kind.
pub open spec fn group_matches_layout(group: Seq<GroupEntry>, layout: Seq<LayoutEntry>) -> bool {
    &&& group.len() == layout.len()
    &&& forall|i: int, j: int|
        0 <= i < layout.len() && 0 <= j < layout.len() && i != j ==> #[trigger] layout[i].binding
            != #[trigger] layout[j].binding
    &&& forall|i: int|
        0 <= i < layout.len() ==> #[trigger] group[i].binding == layout[i].binding
            && resource_fits(group[i].resource, layout[i].kind)
}

/// The storage texture has exactly the target's size, in every orientation:
/// one layer of `width` × `height` texels of `Rgba8Unorm`, usable as a
/// storage texture and as a sampled texture.
pub proof fn lemma_storage_texture_has_target_size(width: u32, height: u32)
    ensures
        spec_storage_texture(width, height).width == width,
        spec_storage_texture(width, height).height == height,
        spec_storage_texture(height, width).width == spec_storage_texture(width, height).height,
        spec_storage_texture(width, height).depth_or_array_layers == 1,
        spec_storage_texture(width, height).format == TexelFormat::Rgba8Unorm,
        spec_storage_texture(width, height).usage.storage_binding,
        spec_storage_texture(width, height).usage.texture_binding,
{
}

/// The storage texture's format at the compute layout's storage binding.
pub open spec fn declared_storage_format(layout: Seq<LayoutEntry>) -> Option<TexelFormat> {
    if exists|i: int| 0 <= i < layout.len() && #[trigger] layout[i].kind is WriteOnlyStorageTexture {
        let i = choose|i: int| 0 <= i < layout.len() && #[trigger] layout[i].kind is WriteOnlyStorageTexture;
        Some(layout[i].kind->format)
    } else {
        None
    }
}

/// Each bind group satisfies the layout of its pipeline, for a storage
/// texture of any size: binding for binding, the parameters buffer is a
/// uniform buffer, the storage texture has the format the compute layout
/// declares and the usages both pipelines need, and the sampler filters as
/// the render layout declares.
pub proof fn lemma_bind_groups_match_layouts(width: u32, height: u32)
    ensures
        group_matches_layout(spec_compute_group(), spec_compute_layout()),
        group_matches_layout(spec_render_group(), spec_render_layout()),
        declared_storage_format(spec_compute_layout()) == Some(spec_storage_texture(width, height).format),
        resources_fit(
            spec_params_buffer_usage(),
            spec_storage_texture(width, height),
            spec_sampler(),
            spec_compute_group(),
            spec_compute_layout(),
        ),
        resources_fit(
            spec_params_buffer_usage(),
            spec_storage_texture(width, height),
            spec_sampler(),
            spec_render_group(),
            spec_render_layout(),
        ),
{
    assert(spec_compute_layout()[0].binding != spec_compute_layout()[1].binding);
    assert(spec_render_layout()[0].binding != spec_render_layout()[1].binding);
    let layout = spec_compute_layout();
    assert(layout[1].kind is WriteOnlyStorageTexture);
    let i = choose|i: int| 0 <= i < layout.len() && #[trigger] layout[i].kind is WriteOnlyStorageTexture;
    assert(i == 1);
}

/// Number of entries of `layout` of the given kind seen by the given stage.
pub open spec fn count_bindings(layout: Seq<LayoutEntry>, stage: ShaderStage, kind: BindingKind) -> nat
    decreases layout.len(),
{
    if layout.len() == 0 {
        0
    } else {
        count_bindings(layout.drop_last(), stage, kind) + if layout.last().visibility == stage
            && layout.last().kind == kind {
            1nat
        } else {
            0nat
        }
    }
}

} // verus!
