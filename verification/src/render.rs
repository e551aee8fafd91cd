//! The pass renderer: a render pipeline generator for a fragment shader
//! with optional input textures, an optional sampler and an optional
//! uniform buffer.
//!
//! Binding slots are derived positionally from which optional inputs are
//! present: first every input texture in sequence order, then the sampler
//! if present, then the uniform buffer if present. That order must match
//! the order the fragment shader declares its bindings — an implicit
//! contract between shader source and host code. A mismatch fails at
//! pipeline-creation time with [`ConstructionError::BindingMismatch`],
//! never silently.

use crate::gpu::{bytes_per_pixel, create_app_texture, CommandEncoder, CommandModel, Device, DeviceModel, ShaderEffect, TextureModel};
use crate::gpu::Command;
use crate::ConstructionError;
use vstd::prelude::*;

verus! {

/// One slot of a binding layout.
#[derive(Debug, Clone, Copy, PartialEq, Eq, Structural)]
pub enum BindingKind {
    /// A sampled input texture.
    Texture,
    /// The texture sampler.
    Sampler,
    /// The shared uniform buffer.
    UniformBuffer,
}

/// The host-visible shape of a compiled shader: the binding slots its
/// source declares, in declaration order, and — for a fragment shader —
/// what it writes (see [`ShaderEffect`]).
#[derive(Debug)]
pub struct ShaderModule {
    /// The declared binding slots, in order.
    pub bindings: Vec<BindingKind>,
    /// What a draw with this fragment shader writes.
    pub effect: ShaderEffect,
}

/// A sampler for reading input textures. The model carries no filtering
/// state; presence alone affects the binding layout.
#[derive(Debug, Clone, Copy)]
pub struct Sampler {}

impl Sampler {
    /// Creates the sampler.
    pub fn new() -> (s: Sampler) {
        Sampler {}
    }
}

/// The binding layout derived from which optional inputs are present:
/// every input texture in order, then the sampler if present, then the
/// uniform buffer if present.
pub open spec fn expected_layout(n_textures: nat, has_sampler: bool, has_uniform: bool) -> Seq<
    BindingKind,
> {
    Seq::new(n_textures, |i: int| BindingKind::Texture) + (if has_sampler {
        seq![BindingKind::Sampler]
    } else {
        Seq::empty()
    }) + (if has_uniform {
        seq![BindingKind::UniformBuffer]
    } else {
        Seq::empty()
    })
}

/// Accumulates a binding layout, slot by slot.
#[derive(Debug)]
pub struct BindGroupLayoutBuilder {
    /// The slots added so far, in order.
    pub entries: Vec<BindingKind>,
}

/// A finished binding layout.
#[derive(Debug)]
pub struct BindGroupLayout {
    /// The slots, in order.
    pub entries: Vec<BindingKind>,
}

impl BindGroupLayoutBuilder {
    /// An empty layout.
    pub fn new() -> (b: BindGroupLayoutBuilder)
        ensures
            b.entries@ == Seq::<BindingKind>::empty(),
    {
        let b = BindGroupLayoutBuilder { entries: Vec::new() };
        proof {
            assert(b.entries@ =~= Seq::<BindingKind>::empty());
        }
        b
    }

    /// Adds a sampled-texture slot.
    pub fn texture(self) -> (b: BindGroupLayoutBuilder)
        ensures
            b.entries@ == self.entries@.push(BindingKind::Texture),
    {
        let mut entries = self.entries;
        entries.push(BindingKind::Texture);
        BindGroupLayoutBuilder { entries }
    }

    /// Adds a sampler slot.
    pub fn sampler(self) -> (b: BindGroupLayoutBuilder)
        ensures
            b.entries@ == self.entries@.push(BindingKind::Sampler),
    {
        let mut entries = self.entries;
        entries.push(BindingKind::Sampler);
        BindGroupLayoutBuilder { entries }
    }

    /// Adds a uniform-buffer slot.
    pub fn uniform_buffer(self) -> (b: BindGroupLayoutBuilder)
        ensures
            b.entries@ == self.entries@.push(BindingKind::UniformBuffer),
    {
        let mut entries = self.entries;
        entries.push(BindingKind::UniformBuffer);
        BindGroupLayoutBuilder { entries }
    }

    /// Finishes the layout.
    pub fn build(self) -> (l: BindGroupLayout)
        ensures
            l.entries@ == self.entries@,
    {
        BindGroupLayout { entries: self.entries }
    }
}

/// One bound resource of a bind group.
#[derive(Debug, Clone, Copy, PartialEq, Eq, Structural)]
pub enum BindingResource {
    /// A view of the texture with this index.
    TextureView {
        /// The texture bound at this slot.
        texture: usize,
    },
    /// The sampler.
    Sampler,
    /// The buffer with this index, bound as a uniform block.
    Buffer {
        /// The buffer bound at this slot.
        buffer: usize,
    },
}

/// The slot kind a resource occupies.
pub open spec fn resource_kind(r: BindingResource) -> BindingKind {
    match r {
        BindingResource::TextureView { .. } => BindingKind::Texture,
        BindingResource::Sampler => BindingKind::Sampler,
        BindingResource::Buffer { .. } => BindingKind::UniformBuffer,
    }
}

/// The slot kinds of a resource list, in order.
pub open spec fn resource_kinds(rs: Seq<BindingResource>) -> Seq<BindingKind> {
    rs.map_values(|r: BindingResource| resource_kind(r))
}

/// The texture indices among a resource list, in binding order.
pub open spec fn texture_ids(rs: Seq<BindingResource>) -> Seq<usize>
    decreases rs.len(),
{
    if rs.len() == 0 {
        Seq::empty()
    } else {
        (match rs[0] {
            BindingResource::TextureView { texture } => seq![texture],
            _ => Seq::<usize>::empty(),
        }) + texture_ids(rs.drop_first())
    }
}

/// Appending a non-texture resource leaves the texture list unchanged;
/// appending a texture view appends its index.
proof fn lemma_texture_ids_snoc(rs: Seq<BindingResource>, r: BindingResource)
    ensures
        texture_ids(rs.push(r)) == texture_ids(rs) + (match r {
            BindingResource::TextureView { texture } => seq![texture],
            _ => Seq::<usize>::empty(),
        }),
    decreases rs.len(),
{
    if rs.len() == 0 {
        assert(rs.push(r)[0] == r);
        assert(rs.push(r).drop_first() =~= Seq::<BindingResource>::empty());
        assert(texture_ids(Seq::<BindingResource>::empty()) =~= Seq::<usize>::empty());
        assert(texture_ids(rs.push(r)) =~= (match r {
            BindingResource::TextureView { texture } => seq![texture],
            _ => Seq::<usize>::empty(),
        }));
        assert(texture_ids(rs) + (match r {
            BindingResource::TextureView { texture } => seq![texture],
            _ => Seq::<usize>::empty(),
        }) =~= texture_ids(rs.push(r)));
    } else {
        assert(rs.push(r)[0] == rs[0]);
        assert(rs.push(r).drop_first() =~= rs.drop_first().push(r));
        lemma_texture_ids_snoc(rs.drop_first(), r);
        assert(texture_ids(rs.push(r)) =~= texture_ids(rs) + (match r {
            BindingResource::TextureView { texture } => seq![texture],
            _ => Seq::<usize>::empty(),
        }));
    }
}

/// Accumulates the resources of a bind group, slot by slot.
#[derive(Debug)]
pub struct BindGroupBuilder {
    /// The resources added so far, in order.
    pub resources: Vec<BindingResource>,
}

/// A finished bind group: the resources a pass's draw reads, in slot
/// order. Immutable once built; rebinding requires reconstructing the
/// whole pass.
#[derive(Debug)]
pub struct BindGroup {
    /// The bound resources, in slot order.
    pub resources: Vec<BindingResource>,
}

impl BindGroupBuilder {
    /// An empty bind group.
    pub fn new() -> (b: BindGroupBuilder)
        ensures
            b.resources@ == Seq::<BindingResource>::empty(),
    {
        let b = BindGroupBuilder { resources: Vec::new() };
        proof {
            assert(b.resources@ =~= Seq::<BindingResource>::empty());
        }
        b
    }

    /// Binds a view of the texture with index `texture`.
    pub fn texture_view(self, texture: usize) -> (b: BindGroupBuilder)
        ensures
            b.resources@ == self.resources@.push(BindingResource::TextureView { texture }),
    {
        let mut resources = self.resources;
        resources.push(BindingResource::TextureView { texture });
        BindGroupBuilder { resources }
    }

    /// Binds the sampler.
    pub fn sampler(self, _sampler: &Sampler) -> (b: BindGroupBuilder)
        ensures
            b.resources@ == self.resources@.push(BindingResource::Sampler),
    {
        let mut resources = self.resources;
        resources.push(BindingResource::Sampler);
        BindGroupBuilder { resources }
    }

    /// Binds the buffer with index `buffer` as a uniform block.
    pub fn buffer(self, buffer: usize) -> (b: BindGroupBuilder)
        ensures
            b.resources@ == self.resources@.push(BindingResource::Buffer { buffer }),
    {
        let mut resources = self.resources;
        resources.push(BindingResource::Buffer { buffer });
        BindGroupBuilder { resources }
    }

    /// Finishes the bind group against its layout. The device validates
    /// that each resource matches its slot's kind, so a caller must have
    /// built the two in lockstep.
    pub fn build(self, layout: &BindGroupLayout) -> (g: BindGroup)
        requires
            resource_kinds(self.resources@) == layout.entries@,
        ensures
            g.resources@ == self.resources@,
    {
        BindGroup { resources: self.resources }
    }
}

/// A pipeline layout: the binding layout a pipeline will be created
/// against.
#[derive(Debug)]
pub struct PipelineLayout {
    /// The slots, in order.
    pub entries: Vec<BindingKind>,
}

/// A render pipeline: the validated pairing of a binding layout with a
/// shader pair, drawing the fixed quad as a triangle strip.
#[derive(Debug)]
pub struct RenderPipeline {
    /// The validated binding slots, in order.
    pub bindings: Vec<BindingKind>,
    /// What the fragment shader writes.
    pub effect: ShaderEffect,
    /// Samples per pixel of the color target.
    pub sample_count: u32,
}

/// Wraps a binding layout for pipeline creation.
pub(crate) fn create_pipeline_layout(bind_group_layout: &BindGroupLayout) -> (l: PipelineLayout)
    ensures
        l.entries@ == bind_group_layout.entries@,
{
    let entries = clone_bindings(&bind_group_layout.entries);
    PipelineLayout { entries }
}

/// Copies a binding list.
fn clone_bindings(src: &Vec<BindingKind>) -> (r: Vec<BindingKind>)
    ensures
        r@ == src@,
{
    let mut r: Vec<BindingKind> = Vec::new();
    let mut i: usize = 0;
    while i < src.len()
        invariant
            i <= src@.len(),
            r@ == src@.take(i as int),
        decreases src@.len() - i,
    {
        r.push(src[i]);
        proof {
            assert(r@ =~= src@.take(i + 1));
        }
        i = i + 1;
    }
    proof {
        assert(src@.take(src@.len() as int) =~= src@);
    }
    r
}

/// Whether two binding lists are equal.
fn binding_lists_eq(a: &Vec<BindingKind>, b: &Vec<BindingKind>) -> (r: bool)
    ensures
        r <==> a@ == b@,
{
    if a.len() != b.len() {
        return false;
    }
    let mut i: usize = 0;
    while i < a.len()
        invariant
            i <= a@.len(),
            a@.len() == b@.len(),
            forall|j: int| 0 <= j < i ==> a@[j] == b@[j],
        decreases a@.len() - i,
    {
        let same = match (&a[i], &b[i]) {
            (BindingKind::Texture, BindingKind::Texture) => true,
            (BindingKind::Sampler, BindingKind::Sampler) => true,
            (BindingKind::UniformBuffer, BindingKind::UniformBuffer) => true,
            _ => false,
        };
        if !same {
            return false;
        }
        i = i + 1;
    }
    proof {
        assert(a@ =~= b@);
    }
    true
}

/// Creates the render pipeline for a shader pair against a binding layout.
/// This is where the implicit contract between shader source and host code
/// is checked: creation succeeds exactly when the fragment shader declares
/// its binding slots in the layout's order, and fails with
/// [`ConstructionError::BindingMismatch`] otherwise, never silently.
pub fn create_render_pipeline(
    layout: &PipelineLayout,
    vs_mod: &ShaderModule,
    fs_mod: &ShaderModule,
    sample_count: u32,
) -> (r: Result<RenderPipeline, ConstructionError>)
    ensures
        r is Ok <==> fs_mod.bindings@ == layout.entries@,
        r is Ok ==> {
            &&& r->Ok_0.bindings@ == layout.entries@
            &&& r->Ok_0.effect == fs_mod.effect
            &&& r->Ok_0.sample_count == sample_count
        },
        r is Err ==> r->Err_0 == ConstructionError::BindingMismatch,
{
    if !binding_lists_eq(&fs_mod.bindings, &layout.entries) {
        return Err(ConstructionError::BindingMismatch);
    }
    let bindings = clone_bindings(&layout.entries);
    Ok(RenderPipeline { bindings, effect: fs_mod.effect, sample_count })
}

/// Converts an internal render target into the format and sample count a
/// destination requires. With equal formats and sample counts — the case
/// throughout the working pipeline — the reshape is a byte-for-byte copy;
/// the orchestrator uses one to close the feedback loop.
#[derive(Debug, Clone, Copy)]
pub struct TextureReshaper {
    /// The texture the reshaper reads.
    pub src_texture: usize,
    /// Samples per pixel of the source.
    pub src_sample_count: u32,
    /// Samples per pixel of the destination.
    pub dst_sample_count: u32,
}

/// Builds a reshaper over one texture.
pub fn create_texture_reshaper(
    texture: usize,
    src_sample_count: u32,
    dst_sample_count: u32,
) -> (r: TextureReshaper)
    ensures
        r == (TextureReshaper { src_texture: texture, src_sample_count, dst_sample_count }),
{
    TextureReshaper { src_texture: texture, src_sample_count, dst_sample_count }
}

impl TextureReshaper {
    /// Enqueues the reshape of the source into `dst_texture`: with equal
    /// dimensions, formats and sample counts, a byte-for-byte copy.
    pub fn encode_render_pass(&self, dst_texture: usize, encoder: &mut CommandEncoder)
        ensures
            final(encoder)@ == old(encoder)@.push(
                CommandModel::CopyTextureToTexture { src: self.src_texture, dst: dst_texture },
            ),
    {
        encoder.copy_texture_to_texture(self.src_texture, dst_texture);
    }
}

/// The texture indices bound by a bind group, in binding order.
fn texture_inputs_of(g: &BindGroup) -> (r: Vec<usize>)
    ensures
        r@ == texture_ids(g.resources@),
{
    let mut r: Vec<usize> = Vec::new();
    let mut i: usize = 0;
    proof {
        assert(g.resources@.take(0) =~= Seq::<BindingResource>::empty());
        assert(texture_ids(Seq::<BindingResource>::empty()) =~= Seq::<usize>::empty());
        assert(r@ =~= Seq::<usize>::empty());
    }
    while i < g.resources.len()
        invariant
            i <= g.resources@.len(),
            r@ == texture_ids(g.resources@.take(i as int)),
        decreases g.resources@.len() - i,
    {
        match &g.resources[i] {
            BindingResource::TextureView { texture } => {
                r.push(*texture);
            },
            _ => {},
        }
        proof {
            assert(g.resources@.take(i + 1) =~= g.resources@.take(i as int).push(
                g.resources@[i as int],
            ));
            lemma_texture_ids_snoc(g.resources@.take(i as int), g.resources@[i as int]);
            assert(r@ =~= texture_ids(g.resources@.take(i + 1)));
        }
        i = i + 1;
    }
    proof {
        assert(g.resources@.take(g.resources@.len() as int) =~= g.resources@);
    }
    r
}

/// A pass renderer. It owns its binding set, its pipeline and its output
/// texture; the binding set is immutable once built, and the output
/// texture's dimensions are fixed at construction and never change.
#[derive(Debug)]
pub struct CustomRenderer {
    /// The bound inputs of every draw of this pass.
    pub bind_group: BindGroup,
    /// The validated pipeline.
    pub render_pipeline: RenderPipeline,
    /// The pass's own output texture: written only by this pass's draws.
    pub output_texture: usize,
    /// Reshapes the output for a destination of another sample count.
    pub texture_reshaper: TextureReshaper,
}

impl CustomRenderer {
    /// The input textures this pass's draws read, in binding order.
    pub open spec fn spec_inputs(&self) -> Seq<usize> {
        texture_ids(self.bind_group.resources@)
    }

    /// What this pass's fragment shader writes.
    pub open spec fn spec_effect(&self) -> ShaderEffect {
        self.render_pipeline.effect
    }
}

/// A pass renderer's resources exist on the device, and its draws are
/// valid: every input texture exists, and a pass-through shader reads an
/// input of its output's size.
pub open spec fn renderer_wf(cr: CustomRenderer, d: DeviceModel) -> bool {
    &&& cr.output_texture < d.textures.len()
    &&& forall|i: int|
        0 <= i < cr.spec_inputs().len() ==> #[trigger] cr.spec_inputs()[i] < d.textures.len()
    &&& match cr.spec_effect() {
        ShaderEffect::CopyInput { index } => {
            &&& index < cr.spec_inputs().len()
            &&& d.textures[cr.spec_inputs()[index as int] as int].data.len()
                == d.textures[cr.output_texture as int].data.len()
        },
        ShaderEffect::Fill { .. } => true,
    }
    &&& cr.texture_reshaper.src_texture == cr.output_texture
}

impl CustomRenderer {
    /// Builds a pass renderer for a shader pair over an arbitrary
    /// combination of input textures, an optional sampler and an optional
    /// uniform buffer. Binding slots are derived positionally from which
    /// inputs are present; construction succeeds exactly when the fragment
    /// shader declares its slots in that order, and allocates a fresh
    /// output texture of the given dimensions, cleared to zero. On a
    /// mismatch the device is left untouched.
    pub fn new(
        device: &mut Device,
        vs_mod: &ShaderModule,
        fs_mod: &ShaderModule,
        uniform_textures: Option<&Vec<usize>>,
        sampler: Option<&Sampler>,
        uniform_buffer: Option<usize>,
        width: u32,
        height: u32,
        sample_count: u32,
    ) -> (r: Result<CustomRenderer, ConstructionError>)
        requires
            width * height * bytes_per_pixel() <= usize::MAX,
            (match uniform_textures {
                Some(ts) => forall|i: int|
                    0 <= i < ts@.len() ==> #[trigger] ts@[i] < old(device)@.textures.len(),
                None => true,
            }),
            (match fs_mod.effect {
                ShaderEffect::CopyInput { index } => {
                    &&& uniform_textures is Some
                    &&& index < uniform_textures->0@.len()
                    &&& old(device)@.textures[uniform_textures->0@[index as int] as int].data.len()
                        == width * height * bytes_per_pixel()
                },
                ShaderEffect::Fill { .. } => true,
            }),
        ensures
            r is Ok <==> fs_mod.bindings@ == expected_layout(
                (match uniform_textures {
                    Some(ts) => ts@.len(),
                    None => 0,
                }),
                sampler is Some,
                uniform_buffer is Some,
            ),
            r is Err ==> {
                &&& r->Err_0 == ConstructionError::BindingMismatch
                &&& final(device)@ == old(device)@
            },
            r is Ok ==> {
                &&& final(device)@ == (DeviceModel {
                    textures: old(device)@.textures.push(
                        TextureModel {
                            width,
                            height,
                            data: Seq::new(
                                (width * height * bytes_per_pixel()) as nat,
                                |i: int| 0u8,
                            ),
                        },
                    ),
                    ..old(device)@
                })
                &&& r->Ok_0.output_texture == old(device)@.textures.len()
                &&& r->Ok_0.spec_inputs() == (match uniform_textures {
                    Some(ts) => ts@,
                    None => Seq::<usize>::empty(),
                })
                &&& r->Ok_0.spec_effect() == fs_mod.effect
                &&& r->Ok_0.texture_reshaper == (TextureReshaper {
                    src_texture: r->Ok_0.output_texture,
                    src_sample_count: 1,
                    dst_sample_count: sample_count,
                })
                &&& renderer_wf(r->Ok_0, final(device)@)
            },
    {
        let mut bind_group_layout_builder = BindGroupLayoutBuilder::new();
        let mut bind_group_builder = BindGroupBuilder::new();
        proof {
            assert(texture_ids(bind_group_builder.resources@) =~= Seq::<usize>::empty());
            assert(resource_kinds(bind_group_builder.resources@) =~= Seq::<BindingKind>::empty());
        }
        let ghost n_textures: nat = match uniform_textures {
            Some(ts) => ts@.len(),
            None => 0,
        };
        match uniform_textures {
            Some(textures) => {
                let mut i: usize = 0;
                proof {
                    assert(textures@.take(0) =~= Seq::<usize>::empty());
                }
                while i < textures.len()
                    invariant
                        i <= textures@.len(),
                        bind_group_layout_builder.entries@ == Seq::new(
                            i as nat,
                            |j: int| BindingKind::Texture,
                        ),
                        texture_ids(bind_group_builder.resources@) == textures@.take(i as int),
                        resource_kinds(bind_group_builder.resources@) == Seq::new(
                            i as nat,
                            |j: int| BindingKind::Texture,
                        ),
                    decreases textures@.len() - i,
                {
                    let ghost rs0 = bind_group_builder.resources@;
                    bind_group_layout_builder = bind_group_layout_builder.texture();
                    bind_group_builder = bind_group_builder.texture_view(textures[i]);
                    proof {
                        assert(bind_group_layout_builder.entries@ =~= Seq::new(
                            (i + 1) as nat,
                            |j: int| BindingKind::Texture,
                        ));
                        lemma_texture_ids_snoc(
                            rs0,
                            BindingResource::TextureView { texture: textures@[i as int] },
                        );
                        assert(texture_ids(bind_group_builder.resources@) =~= textures@.take(
                            i + 1,
                        ));
                        assert(resource_kinds(bind_group_builder.resources@) =~= Seq::new(
                            (i + 1) as nat,
                            |j: int| BindingKind::Texture,
                        ));
                    }
                    i = i + 1;
                }
                proof {
                    assert(textures@.take(textures@.len() as int) =~= textures@);
                }
            },
            None => {},
        }
        let ghost tex_entries = bind_group_layout_builder.entries@;
        let ghost tex_resources = bind_group_builder.resources@;
        match sampler {
            Some(s) => {
                let ghost rs0 = bind_group_builder.resources@;
                bind_group_layout_builder = bind_group_layout_builder.sampler();
                bind_group_builder = bind_group_builder.sampler(s);
                proof {
                    lemma_texture_ids_snoc(rs0, BindingResource::Sampler);
                    assert(resource_kinds(bind_group_builder.resources@) =~= resource_kinds(rs0)
                        .push(BindingKind::Sampler));
                }
            },
            None => {},
        }
        match uniform_buffer {
            Some(buffer) => {
                let ghost rs0 = bind_group_builder.resources@;
                bind_group_layout_builder = bind_group_layout_builder.uniform_buffer();
                bind_group_builder = bind_group_builder.buffer(buffer);
                proof {
                    lemma_texture_ids_snoc(rs0, BindingResource::Buffer { buffer });
                    assert(resource_kinds(bind_group_builder.resources@) =~= resource_kinds(rs0)
                        .push(BindingKind::UniformBuffer));
                }
            },
            None => {},
        }
        proof {
            assert(bind_group_layout_builder.entries@ =~= expected_layout(
                n_textures,
                sampler is Some,
                uniform_buffer is Some,
            ));
            assert(resource_kinds(bind_group_builder.resources@) =~= bind_group_layout_builder
                .entries@);
            assert(texture_ids(bind_group_builder.resources@) == (match uniform_textures {
                Some(ts) => ts@,
                None => Seq::<usize>::empty(),
            }));
        }
        let bind_group_layout = bind_group_layout_builder.build();
        let pipeline_layout = create_pipeline_layout(&bind_group_layout);
        let render_pipeline = match create_render_pipeline(&pipeline_layout, vs_mod, fs_mod, 1) {
            Ok(p) => p,
            Err(e) => {
                return Err(e);
            },
        };
        let bind_group = bind_group_builder.build(&bind_group_layout);
        let output_texture = create_app_texture(device, width, height, 1);
        let texture_reshaper = create_texture_reshaper(output_texture, 1, sample_count);
        Ok(CustomRenderer { bind_group, render_pipeline, output_texture, texture_reshaper })
    }

    /// Enqueues one draw of the fixed quad into this pass's output texture,
    /// reading the bound inputs. The work is queued, not complete, until
    /// the stream is submitted.
    pub fn render(&self, encoder: &mut CommandEncoder, vertex_buffer: usize)
        ensures
            final(encoder)@ == old(encoder)@.push(
                CommandModel::Draw {
                    output: self.output_texture,
                    inputs: self.spec_inputs(),
                    effect: self.spec_effect(),
                    vertices: vertex_buffer,
                },
            ),
    {
        let inputs = texture_inputs_of(&self.bind_group);
        encoder.enqueue(
            Command::Draw {
                output: self.output_texture,
                inputs,
                effect: self.render_pipeline.effect,
                vertices: vertex_buffer,
            },
        );
    }
}

} // verus!
