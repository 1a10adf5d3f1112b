use vstd::prelude::*;
use crate::extent::Extent2d;
use crate::target::{PassTarget, PassTargetKind};
use crate::texture::{
    create_texture, LightmapData, TextureData, TextureFormat, TextureUpload, FINAL_ATTACHMENT_FORMAT,
};
use crate::uniform::{aligned, DynamicUniformBuffer, SlotWrite};

verus! {

/// Number of bytes of a palette lump: 256 entries of red, green and blue.
pub const PALETTE_BYTES: usize = 768;

/// Why the graphics state could not be built.
#[derive(Clone, Copy, Debug, PartialEq, Eq, Structural)]
pub enum RenderError {
    /// The palette lump does not hold exactly 256 RGB entries.
    InvalidPalette { len: usize },
    /// The UI texture archive is not a WAD2 archive whose directory lies
    /// within it.
    InvalidArchive,
}

/// Alignment of each block in the entity uniform buffer.
pub const UNIFORM_ALIGNMENT: u64 = 256;

/// The little-endian 32-bit number at `i` of `b`.
pub open spec fn u32_le(b: Seq<u8>, i: int) -> int {
    b[i] as int + 256 * b[i + 1] as int + 65536 * b[i + 2] as int + 16777216 * b[i + 3] as int
}

/// `b` starts with a WAD2 header, the magic `WAD2` followed by the number of
/// directory entries and the directory's offset, and the directory of
/// 32-byte entries lies within `b`.
pub open spec fn archive_header_ok(b: Seq<u8>) -> bool {
    &&& b.len() >= 12
    &&& b[0] == 0x57u8 && b[1] == 0x41u8 && b[2] == 0x44u8 && b[3] == 0x32u8
    &&& u32_le(b, 8) + 32 * u32_le(b, 4) <= b.len()
}

fn read_u32_le(b: &[u8], i: usize) -> (r: u64)
    requires
        i + 4 <= b@.len(),
    ensures
        r == u32_le(b@, i as int),
{
    b[i] as u64 + 256 * (b[i + 1] as u64) + 65536 * (b[i + 2] as u64) + 16777216 * (b[i + 3] as u64)
}

/// Checks the header of the UI texture archive.
pub fn check_archive(data: &[u8]) -> (r: Result<(), RenderError>)
    ensures
        r is Ok <==> archive_header_ok(data@),
        r matches Err(e) ==> e == RenderError::InvalidArchive,
{
    if data.len() < 12 {
        return Err(RenderError::InvalidArchive);
    }
    if !(data[0] == 0x57u8 && data[1] == 0x41u8 && data[2] == 0x44u8 && data[3] == 0x32u8) {
        return Err(RenderError::InvalidArchive);
    }
    let count = read_u32_le(data, 4);
    let offset = read_u32_le(data, 8);
    if offset + 32 * count <= data.len() as u64 {
        Ok(())
    } else {
        Err(RenderError::InvalidArchive)
    }
}

fn copy_bytes(data: &[u8]) -> (r: Vec<u8>)
    ensures
        r@ == data@,
{
    let mut r: Vec<u8> = Vec::new();
    let mut i: usize = 0;
    while i < data.len()
        invariant
            i <= data@.len(),
            r@ == data@.subrange(0, i as int),
        decreases data@.len() - i,
    {
        r.push(data[i]);
        i = i + 1;
    }
    assert(r@ == data@);
    r
}

/// The 256-entry RGB color table that indexed textures refer to.
#[derive(Clone, Debug)]
pub struct Palette {
    rgb: Vec<u8>,
}

impl Palette {
    pub closed spec fn bytes(&self) -> Seq<u8> {
        self.rgb@
    }

    pub open spec fn wf(&self) -> bool {
        self.bytes().len() == PALETTE_BYTES
    }

    /// Reads a palette lump: 256 entries of three bytes each.
    pub fn from_lmp(data: &[u8]) -> (r: Result<Palette, RenderError>)
        ensures
            data@.len() == PALETTE_BYTES <==> r is Ok,
            r matches Ok(p) ==> p.wf() && p.bytes() == data@,
            r matches Err(e) ==> e == (RenderError::InvalidPalette { len: data@.len() as usize }),
    {
        if data.len() != PALETTE_BYTES {
            return Err(RenderError::InvalidPalette { len: data.len() });
        }
        Ok(Palette { rgb: copy_bytes(data) })
    }

    /// The red, green and blue components of entry `index`.
    pub fn color(&self, index: u8) -> (r: (u8, u8, u8))
        requires
            self.wf(),
        ensures
            r.0 == self.bytes()[3 * index as int],
            r.1 == self.bytes()[3 * index as int + 1],
            r.2 == self.bytes()[3 * index as int + 2],
    {
        let base: usize = 3 * index as usize;
        (self.rgb[base], self.rgb[base + 1], self.rgb[base + 2])
    }
}

/// How a sampler addresses texels outside the texture.
#[derive(Clone, Copy, Debug, PartialEq, Eq, Structural)]
pub enum AddressMode {
    Repeat,
    ClampToEdge,
}

/// How a sampler filters between texels and mip levels.
#[derive(Clone, Copy, Debug, PartialEq, Eq, Structural)]
pub enum FilterMode {
    Nearest,
    Linear,
}

/// Addressing and filtering of one of the shared samplers; the same mode
/// applies on every axis and for magnification, minification and mipmaps.
#[derive(Clone, Copy, Debug, PartialEq, Eq, Structural)]
pub struct SamplerSpec {
    pub address_mode: AddressMode,
    pub filter: FilterMode,
}

/// The fixed state of a render pipeline that depends on the frame: how many
/// samples per pixel it writes.
#[derive(Clone, Copy, Debug, PartialEq, Eq, Structural)]
pub struct PipelineState {
    pub sample_count: u32,
}

/// The pipeline that copies the final color to the presentation surface.
#[derive(Clone, Copy, Debug, PartialEq, Eq, Structural)]
pub struct BlitPipeline {
    pub format: TextureFormat,
}

impl BlitPipeline {
    /// The format of the surface this pipeline writes.
    pub fn format(&self) -> (r: TextureFormat)
        ensures
            r == self.format,
    {
        self.format
    }

    /// Points the pipeline at a surface of another format.
    pub fn set_format(&mut self, format: TextureFormat)
        ensures
            final(self).format == format,
    {
        self.format = format;
    }
}

/// The two shared bind groups of world rendering.
#[derive(Clone, Copy, Debug, PartialEq, Eq, Structural)]
pub enum BindGroupLayoutId {
    PerFrame,
    PerEntity,
}

/// What one binding of a bind group refers to.
#[derive(Clone, Copy, Debug, PartialEq, Eq, Structural)]
pub enum BindingResource {
    /// The frame uniform buffer, whole.
    FrameUniformBuffer,
    /// One block of the entity uniform buffer, `block_size` bytes long.
    EntityUniformBuffer { block_size: u64 },
    DiffuseSampler,
    LightmapSampler,
}

/// One binding slot of a bind group.
#[derive(Clone, Copy, Debug, PartialEq, Eq, Structural)]
pub struct BindGroupEntry {
    pub binding: u32,
    pub resource: BindingResource,
}

/// A bind group: its layout and what each binding refers to.
#[derive(Clone, Debug, PartialEq, Eq)]
pub struct BindGroupSpec {
    pub layout: BindGroupLayoutId,
    pub entries: Vec<BindGroupEntry>,
}

/// Sample counts the renderer supports.
pub open spec fn valid_sample_count(s: u32) -> bool {
    s == 1 || s == 2 || s == 4
}

/// Which of the graphics state's objects one call of `update` rebuilt.
#[derive(Clone, Copy, Debug, PartialEq, Eq, Structural)]
pub struct UpdateReport {
    pub pipelines_rebuilt: bool,
    pub initial_target_replaced: bool,
    pub deferred_target_replaced: bool,
    pub final_target_replaced: bool,
}

/// The report of a call that changed nothing.
pub open spec fn unchanged_report() -> UpdateReport {
    UpdateReport {
        pipelines_rebuilt: false,
        initial_target_replaced: false,
        deferred_target_replaced: false,
        final_target_replaced: false,
    }
}

/// Everything the renderer can currently draw with: the pass targets, the
/// configuration of each pipeline, the shared samplers and the palette.
#[derive(Clone, Debug)]
pub struct GraphicsState {
    initial_pass_target: PassTarget,
    deferred_pass_target: PassTarget,
    final_pass_target: PassTarget,
    sample_count: u32,
    alias_pipeline: PipelineState,
    brush_pipeline: PipelineState,
    sprite_pipeline: PipelineState,
    deferred_pipeline: PipelineState,
    particle_pipeline: PipelineState,
    postprocess_pipeline: PipelineState,
    glyph_pipeline: PipelineState,
    quad_pipeline: PipelineState,
    blit_pipeline: BlitPipeline,
    entity_uniform_buffer: DynamicUniformBuffer,
    entity_block_size: u64,
    palette: Palette,
    gfx_wad: Vec<u8>,
}

/// Abstract contents of a graphics state.
pub struct GraphicsView {
    pub initial: PassTarget,
    pub deferred: PassTarget,
    pub final_target: PassTarget,
    pub sample_count: u32,
    pub pipeline_samples: Seq<u32>,
    pub format: TextureFormat,
    pub entity_uniforms: DynamicUniformBuffer,
    pub entity_block_size: u64,
    pub palette: Seq<u8>,
    pub gfx_wad: Seq<u8>,
}

/// Every pipeline writes `s` samples per pixel.
pub open spec fn all_at(samples: Seq<u32>, s: u32) -> bool {
    samples.len() == 8 && forall|i: int| 0 <= i < samples.len() ==> #[trigger] samples[i] == s
}

/// `next` is what `update(size, samples)` leaves of `prev`, with `r` its report:
/// pipelines are rebuilt when the sample count changes, and each target is
/// replaced when its size or sample count no longer matches.
pub open spec fn update_post(prev: GraphicsView, next: GraphicsView, size: Extent2d, samples: u32, r: UpdateReport) -> bool {
    &&& next.sample_count == samples
    &&& r.pipelines_rebuilt == (prev.sample_count != samples)
    &&& if r.pipelines_rebuilt {
        all_at(next.pipeline_samples, samples)
    } else {
        next.pipeline_samples == prev.pipeline_samples
    }
    &&& r.initial_target_replaced == (prev.initial.size_spec() != size
        || prev.initial.sample_count_spec() != samples)
    &&& if r.initial_target_replaced {
        next.initial.built(PassTargetKind::Initial, size, samples)
    } else {
        next.initial == prev.initial
    }
    &&& r.deferred_target_replaced == (prev.deferred.size_spec() != size
        || prev.deferred.sample_count_spec() != samples)
    &&& if r.deferred_target_replaced {
        next.deferred.built(PassTargetKind::Deferred, size, samples)
    } else {
        next.deferred == prev.deferred
    }
    &&& r.final_target_replaced == (prev.final_target.size_spec() != size)
    &&& if r.final_target_replaced {
        next.final_target.built(PassTargetKind::Final, size, samples)
    } else {
        next.final_target == prev.final_target
    }
    &&& next.format == prev.format
    &&& next.entity_uniforms == prev.entity_uniforms
    &&& next.entity_block_size == prev.entity_block_size
    &&& next.palette == prev.palette
    &&& next.gfx_wad == prev.gfx_wad
}

impl GraphicsState {
    pub closed spec fn view(&self) -> GraphicsView {
        GraphicsView {
            initial: self.initial_pass_target,
            deferred: self.deferred_pass_target,
            final_target: self.final_pass_target,
            sample_count: self.sample_count,
            pipeline_samples: seq![
                self.alias_pipeline.sample_count,
                self.brush_pipeline.sample_count,
                self.sprite_pipeline.sample_count,
                self.deferred_pipeline.sample_count,
                self.particle_pipeline.sample_count,
                self.postprocess_pipeline.sample_count,
                self.glyph_pipeline.sample_count,
                self.quad_pipeline.sample_count,
            ],
            format: self.blit_pipeline.format,
            entity_uniforms: self.entity_uniform_buffer,
            entity_block_size: self.entity_block_size,
            palette: self.palette.bytes(),
            gfx_wad: self.gfx_wad@,
        }
    }

    /// Each target matches the state's sample count as last built, the three
    /// targets share one size, and the entity uniform buffer is usable.
    pub open spec fn wf(&self) -> bool {
        let v = self.view();
        &&& valid_sample_count(v.sample_count)
        &&& v.initial.size_spec() == v.deferred.size_spec()
        &&& v.deferred.size_spec() == v.final_target.size_spec()
        &&& v.entity_uniforms.wf()
        &&& v.pipeline_samples.len() == 8
        &&& v.initial.built(PassTargetKind::Initial, v.initial.size_spec(), v.sample_count)
        &&& v.deferred.built(PassTargetKind::Deferred, v.deferred.size_spec(), v.sample_count)
        &&& v.final_target.built(PassTargetKind::Final, v.final_target.size_spec(), v.sample_count)
        &&& v.palette.len() == PALETTE_BYTES
    }

    /// Builds the graphics state for a surface of `size` at `sample_count`
    /// samples per pixel, reading the palette from `palette_lmp` and keeping
    /// the UI texture archive `gfx_wad`. Entity uniform blocks are
    /// `entity_block_size` bytes long.
    pub fn new(
        size: Extent2d,
        sample_count: u32,
        palette_lmp: &[u8],
        gfx_wad: &[u8],
        entity_block_size: u64,
    ) -> (r: Result<GraphicsState, RenderError>)
        requires
            valid_sample_count(sample_count),
            0 < entity_block_size <= u32::MAX,
        ensures
            r is Ok <==> palette_lmp@.len() == PALETTE_BYTES && archive_header_ok(gfx_wad@),
            r matches Err(e) ==> if palette_lmp@.len() != PALETTE_BYTES {
                e == (RenderError::InvalidPalette { len: palette_lmp@.len() as usize })
            } else {
                e == RenderError::InvalidArchive
            },
            r matches Ok(g) ==> {
                &&& g.wf()
                &&& g.view().sample_count == sample_count
                &&& all_at(g.view().pipeline_samples, sample_count)
                &&& g.view().initial.built(PassTargetKind::Initial, size, sample_count)
                &&& g.view().deferred.built(PassTargetKind::Deferred, size, sample_count)
                &&& g.view().final_target.built(PassTargetKind::Final, size, sample_count)
                &&& g.view().format == FINAL_ATTACHMENT_FORMAT
                &&& g.view().palette == palette_lmp@
                &&& g.view().gfx_wad == gfx_wad@
                &&& g.view().entity_block_size == entity_block_size
                &&& g.view().entity_uniforms.stride_spec() == aligned(entity_block_size, UNIFORM_ALIGNMENT)
                &&& g.view().entity_uniforms.valid_slots() == seq![false]
            },
    {
        let palette = match Palette::from_lmp(palette_lmp) {
            Ok(p) => p,
            Err(e) => return Err(e),
        };
        match check_archive(gfx_wad) {
            Ok(()) => {},
            Err(e) => return Err(e),
        }
        let pipeline = PipelineState { sample_count };
        let final_pass_target = PassTarget::new(PassTargetKind::Final, size, sample_count);
        let blit_pipeline = BlitPipeline { format: final_pass_target.format() };
        Ok(GraphicsState {
            initial_pass_target: PassTarget::new(PassTargetKind::Initial, size, sample_count),
            deferred_pass_target: PassTarget::new(PassTargetKind::Deferred, size, sample_count),
            final_pass_target,
            sample_count,
            alias_pipeline: pipeline,
            brush_pipeline: pipeline,
            sprite_pipeline: pipeline,
            deferred_pipeline: pipeline,
            particle_pipeline: pipeline,
            postprocess_pipeline: pipeline,
            glyph_pipeline: pipeline,
            quad_pipeline: pipeline,
            blit_pipeline,
            entity_uniform_buffer: DynamicUniformBuffer::new(entity_block_size, UNIFORM_ALIGNMENT),
            entity_block_size,
            palette,
            gfx_wad: copy_bytes(gfx_wad),
        })
    }

    /// Points the blit pipeline at a presentation surface of `format`. The
    /// pipelines must then be rebuilt before the next draw.
    pub fn set_format(&mut self, format: TextureFormat)
        requires
            old(self).wf(),
        ensures
            final(self).wf(),
            final(self).view() == (GraphicsView { format, ..old(self).view() }),
    {
        self.blit_pipeline.set_format(format);
    }

    /// The format of the presentation surface the blit pipeline writes.
    pub fn format(&self) -> (r: TextureFormat)
        ensures
            r == self.view().format,
    {
        self.blit_pipeline.format()
    }

    /// Rebuilds every pipeline to write `sample_count` samples per pixel.
    fn recreate_pipelines(&mut self, sample_count: u32)
        ensures
            all_at(final(self).view().pipeline_samples, sample_count),
            final(self).view() == (GraphicsView {
                pipeline_samples: final(self).view().pipeline_samples,
                ..old(self).view()
            }),
    {
        let pipeline = PipelineState { sample_count };
        self.alias_pipeline = pipeline;
        self.brush_pipeline = pipeline;
        self.sprite_pipeline = pipeline;
        self.deferred_pipeline = pipeline;
        self.particle_pipeline = pipeline;
        self.postprocess_pipeline = pipeline;
        self.glyph_pipeline = pipeline;
        self.quad_pipeline = pipeline;
    }

    /// Brings the state to a surface of `size` at `sample_count` samples per
    /// pixel, rebuilding only what no longer matches.
    pub fn update(&mut self, size: Extent2d, sample_count: u32) -> (r: UpdateReport)
        requires
            old(self).wf(),
            valid_sample_count(sample_count),
        ensures
            final(self).wf(),
            update_post(old(self).view(), final(self).view(), size, sample_count, r),
    {
        let mut report = UpdateReport {
            pipelines_rebuilt: false,
            initial_target_replaced: false,
            deferred_target_replaced: false,
            final_target_replaced: false,
        };
        if self.sample_count != sample_count {
            self.sample_count = sample_count;
            self.recreate_pipelines(sample_count);
            report.pipelines_rebuilt = true;
        }
        if self.initial_pass_target.size() != size || self.initial_pass_target.sample_count() != sample_count {
            self.initial_pass_target = PassTarget::new(PassTargetKind::Initial, size, sample_count);
            report.initial_target_replaced = true;
        }
        if self.deferred_pass_target.size() != size || self.deferred_pass_target.sample_count() != sample_count {
            self.deferred_pass_target = PassTarget::new(PassTargetKind::Deferred, size, sample_count);
            report.deferred_target_replaced = true;
        }
        if self.final_pass_target.size() != size {
            self.final_pass_target = PassTarget::new(PassTargetKind::Final, size, sample_count);
            report.final_target_replaced = true;
        }
        report
    }
    /// Follows a presentation surface of `format`: when it differs from the
    /// blit pipeline's, points the blit pipeline at it and rebuilds every
    /// pipeline at the current sample count. Returns whether it did so.
    pub fn sync_format(&mut self, format: TextureFormat) -> (r: bool)
        requires
            old(self).wf(),
        ensures
            final(self).wf(),
            r == (old(self).view().format != format),
            final(self).view().format == format,
            r ==> all_at(final(self).view().pipeline_samples, old(self).view().sample_count),
            !r ==> final(self).view() == old(self).view(),
            final(self).view() == (GraphicsView {
                format,
                pipeline_samples: final(self).view().pipeline_samples,
                ..old(self).view()
            }),
    {
        if self.format() == format {
            return false;
        }
        self.set_format(format);
        let samples = self.sample_count;
        self.recreate_pipelines(samples);
        true
    }

    /// The sample count the state was last built or updated with.
    pub fn sample_count(&self) -> (r: u32)
        ensures
            r == self.view().sample_count,
    {
        self.sample_count
    }

    /// The geometry pass target.
    pub fn initial_pass_target(&self) -> (r: &PassTarget)
        ensures
            *r == self.view().initial,
    {
        &self.initial_pass_target
    }

    /// The deferred lighting pass target.
    pub fn deferred_pass_target(&self) -> (r: &PassTarget)
        ensures
            *r == self.view().deferred,
    {
        &self.deferred_pass_target
    }

    /// The final pass target.
    pub fn final_pass_target(&self) -> (r: &PassTarget)
        ensures
            *r == self.view().final_target,
    {
        &self.final_pass_target
    }

    /// The palette.
    pub fn palette(&self) -> (r: &Palette)
        ensures
            r.bytes() == self.view().palette,
    {
        &self.palette
    }

    /// The blit pipeline.
    pub fn blit_pipeline(&self) -> (r: &BlitPipeline)
        ensures
            r.format == self.view().format,
    {
        &self.blit_pipeline
    }

    /// Linear filtering, repeating: for diffuse textures.
    pub fn diffuse_sampler(&self) -> (r: SamplerSpec)
        ensures
            r == (SamplerSpec { address_mode: AddressMode::Repeat, filter: FilterMode::Linear }),
    {
        SamplerSpec { address_mode: AddressMode::Repeat, filter: FilterMode::Linear }
    }

    /// Nearest filtering, repeating.
    pub fn nearest_sampler(&self) -> (r: SamplerSpec)
        ensures
            r == (SamplerSpec { address_mode: AddressMode::Repeat, filter: FilterMode::Nearest }),
    {
        SamplerSpec { address_mode: AddressMode::Repeat, filter: FilterMode::Nearest }
    }

    /// Linear filtering, clamped to the edge: for lightmaps.
    pub fn lightmap_sampler(&self) -> (r: SamplerSpec)
        ensures
            r == (SamplerSpec { address_mode: AddressMode::ClampToEdge, filter: FilterMode::Linear }),
    {
        SamplerSpec { address_mode: AddressMode::ClampToEdge, filter: FilterMode::Linear }
    }

    /// The texel of the lightmap bound where a surface has none: one fully
    /// lit texel.
    pub fn default_lightmap_data(&self) -> (r: TextureData)
        ensures
            r is Lightmap,
            r.bytes() == seq![0xFFu8],
            r.format_spec() == TextureFormat::R8Unorm,
    {
        let mut lightmap: Vec<u8> = Vec::new();
        lightmap.push(0xFF);
        assert(lightmap@ =~= seq![0xFFu8]);
        TextureData::Lightmap(LightmapData { lightmap })
    }

    /// How the default lightmap is created: one texel of
    /// `default_lightmap_data`.
    pub fn default_lightmap(&self) -> (r: TextureUpload)
        ensures
            r.descriptor.describes(None, 1, 1, TextureFormat::R8Unorm),
            r.bytes_per_row == 1,
            r.copy_width == 1,
            r.copy_height == 1,
    {
        create_texture(None, 1, 1, &self.default_lightmap_data())
    }

    /// The UI texture archive.
    pub fn gfx_wad(&self) -> (r: &[u8])
        ensures
            r@ == self.view().gfx_wad,
    {
        self.gfx_wad.as_slice()
    }

    /// The entity uniform buffer.
    pub fn entity_uniform_buffer(&self) -> (r: &DynamicUniformBuffer)
        ensures
            *r == self.view().entity_uniforms,
    {
        &self.entity_uniform_buffer
    }

    /// Records an entity uniform block written at `slot`; see
    /// `DynamicUniformBuffer::write`.
    pub fn write_entity_uniforms(&mut self, slot: usize) -> (r: SlotWrite)
        requires
            old(self).wf(),
            (slot + 1) * old(self).view().entity_uniforms.stride_spec() <= u64::MAX,
        ensures
            final(self).wf(),
            final(self).view() == (GraphicsView { entity_uniforms: final(self).view().entity_uniforms, ..old(self).view() }),
            final(self).view().entity_uniforms.stride_spec() == old(self).view().entity_uniforms.stride_spec(),
            r.offset == slot * old(self).view().entity_uniforms.stride_spec(),
            r.reallocated == (slot >= old(self).view().entity_uniforms.valid_slots().len()),
            !r.reallocated ==> final(self).view().entity_uniforms.valid_slots()
                == old(self).view().entity_uniforms.valid_slots().update(slot as int, true),
            r.reallocated ==> final(self).view().entity_uniforms.valid_slots().len() == slot + 1
                && forall|i: int| 0 <= i <= slot ==> #[trigger] final(self).view().entity_uniforms.valid_slots()[i] == (i == slot),
    {
        self.entity_uniform_buffer.write(slot)
    }

    /// Starts a frame of entity uniforms: no block is valid, capacity kept.
    pub fn clear_entity_uniforms(&mut self)
        requires
            old(self).wf(),
        ensures
            final(self).wf(),
            final(self).view() == (GraphicsView { entity_uniforms: final(self).view().entity_uniforms, ..old(self).view() }),
            final(self).view().entity_uniforms.stride_spec() == old(self).view().entity_uniforms.stride_spec(),
            final(self).view().entity_uniforms.valid_slots().len() == old(self).view().entity_uniforms.valid_slots().len(),
            forall|i: int| 0 <= i < final(self).view().entity_uniforms.valid_slots().len()
                ==> !#[trigger] final(self).view().entity_uniforms.valid_slots()[i],
    {
        self.entity_uniform_buffer.clear();
    }

    /// The shared bind groups of world rendering: per frame, the frame
    /// uniform buffer; per entity, one entity uniform block, the diffuse
    /// sampler and the lightmap sampler.
    pub fn world_bind_groups(&self) -> (r: Vec<BindGroupSpec>)
        ensures
            r@.len() == 2,
            r@[0].layout == BindGroupLayoutId::PerFrame,
            r@[0].entries@ == seq![BindGroupEntry { binding: 0, resource: BindingResource::FrameUniformBuffer }],
            r@[1].layout == BindGroupLayoutId::PerEntity,
            r@[1].entries@ == seq![
                BindGroupEntry {
                    binding: 0,
                    resource: BindingResource::EntityUniformBuffer { block_size: self.view().entity_block_size },
                },
                BindGroupEntry { binding: 1, resource: BindingResource::DiffuseSampler },
                BindGroupEntry { binding: 2, resource: BindingResource::LightmapSampler },
            ],
    {
        let mut per_frame: Vec<BindGroupEntry> = Vec::new();
        per_frame.push(BindGroupEntry { binding: 0, resource: BindingResource::FrameUniformBuffer });
        let mut per_entity: Vec<BindGroupEntry> = Vec::new();
        per_entity.push(BindGroupEntry {
            binding: 0,
            resource: BindingResource::EntityUniformBuffer { block_size: self.entity_block_size },
        });
        per_entity.push(BindGroupEntry { binding: 1, resource: BindingResource::DiffuseSampler });
        per_entity.push(BindGroupEntry { binding: 2, resource: BindingResource::LightmapSampler });
        let mut r: Vec<BindGroupSpec> = Vec::new();
        r.push(BindGroupSpec { layout: BindGroupLayoutId::PerFrame, entries: per_frame });
        r.push(BindGroupSpec { layout: BindGroupLayoutId::PerEntity, entries: per_entity });
        assert(r@[0].entries@ =~= seq![BindGroupEntry { binding: 0, resource: BindingResource::FrameUniformBuffer }]);
        assert(r@[1].entries@ =~= seq![
            BindGroupEntry {
                binding: 0,
                resource: BindingResource::EntityUniformBuffer { block_size: self.view().entity_block_size },
            },
            BindGroupEntry { binding: 1, resource: BindingResource::DiffuseSampler },
            BindGroupEntry { binding: 2, resource: BindingResource::LightmapSampler },
        ]);
        r
    }

    /// The alias pipeline.
    pub fn alias_pipeline(&self) -> (r: PipelineState)
        ensures
            r.sample_count == self.view().pipeline_samples[0],
    {
        self.alias_pipeline
    }

    /// The brush pipeline.
    pub fn brush_pipeline(&self) -> (r: PipelineState)
        ensures
            r.sample_count == self.view().pipeline_samples[1],
    {
        self.brush_pipeline
    }

    /// The sprite pipeline.
    pub fn sprite_pipeline(&self) -> (r: PipelineState)
        ensures
            r.sample_count == self.view().pipeline_samples[2],
    {
        self.sprite_pipeline
    }

    /// The deferred pipeline.
    pub fn deferred_pipeline(&self) -> (r: PipelineState)
        ensures
            r.sample_count == self.view().pipeline_samples[3],
    {
        self.deferred_pipeline
    }

    /// The particle pipeline.
    pub fn particle_pipeline(&self) -> (r: PipelineState)
        ensures
            r.sample_count == self.view().pipeline_samples[4],
    {
        self.particle_pipeline
    }

    /// The postprocess pipeline.
    pub fn postprocess_pipeline(&self) -> (r: PipelineState)
        ensures
            r.sample_count == self.view().pipeline_samples[5],
    {
        self.postprocess_pipeline
    }

    /// The glyph pipeline.
    pub fn glyph_pipeline(&self) -> (r: PipelineState)
        ensures
            r.sample_count == self.view().pipeline_samples[6],
    {
        self.glyph_pipeline
    }

    /// The quad pipeline.
    pub fn quad_pipeline(&self) -> (r: PipelineState)
        ensures
            r.sample_count == self.view().pipeline_samples[7],
    {
        self.quad_pipeline
    }
}

/// A second `update` with the arguments of the first rebuilds nothing and
/// leaves the state as the first left it.
pub proof fn lemma_update_idempotent(
    g0: GraphicsView,
    g1: GraphicsView,
    g2: GraphicsView,
    size: Extent2d,
    samples: u32,
    r1: UpdateReport,
    r2: UpdateReport,
)
    requires
        update_post(g0, g1, size, samples, r1),
        update_post(g1, g2, size, samples, r2),
    ensures
        r2 == unchanged_report(),
        g2 == g1,
{
    assert(g2.pipeline_samples == g1.pipeline_samples);
}

/// A new size alone replaces all three targets and rebuilds no pipeline.
pub proof fn lemma_resize_replaces_targets(
    g: GraphicsState,
    next: GraphicsView,
    size: Extent2d,
    r: UpdateReport,
)
    requires
        g.wf(),
        update_post(g.view(), next, size, g.view().sample_count, r),
        g.view().initial.size_spec() != size,
    ensures
        !r.pipelines_rebuilt,
        next.pipeline_samples == g.view().pipeline_samples,
        r.initial_target_replaced && next.initial.built(PassTargetKind::Initial, size, g.view().sample_count),
        r.deferred_target_replaced && next.deferred.built(PassTargetKind::Deferred, size, g.view().sample_count),
        r.final_target_replaced && next.final_target.built(PassTargetKind::Final, size, g.view().sample_count),
{
}

/// Rebuilding the pipelines for a new sample count leaves every pipeline
/// writing exactly that many samples per pixel.
pub proof fn lemma_rebuild_sample_count(
    prev: GraphicsView,
    next: GraphicsView,
    size: Extent2d,
    samples: u32,
    r: UpdateReport,
)
    requires
        update_post(prev, next, size, samples, r),
        prev.sample_count != samples,
    ensures
        r.pipelines_rebuilt,
        next.sample_count == samples,
        forall|i: int| 0 <= i < 8 ==> #[trigger] next.pipeline_samples[i] == samples,
{
}

} // verus!
