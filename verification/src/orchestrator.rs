//! The frame orchestrator: owns the chain of pass renderers, the feedback
//! texture and the shared uniform buffer, and drives one tick at a time.
//!
//! Each tick, in this order: refresh the uniform buffer through a staging
//! copy, enqueue a capture of the feedback texture before any pass mutates
//! it, run the field pass then the sort pass, copy the final pass's output
//! back into the feedback texture, and submit the whole stream at once.
//! Ordering within that one stream is the sole correctness guarantee; the
//! contract of [`update`] states the stream exactly and what the device
//! holds once the queue has executed it.

use crate::capture::{CapturedFrame, FrameCapturer};
use crate::geometry::{quad, quad_vertices, vertex_in_range, vertices_as_bytes, vertices_repr};
use crate::gpu::{bytes_per_pixel, cmd_wf, cmds_wf, create_app_texture, create_texture_init, effect_output, texture_written, run, step, texture_wf, Command, CommandModel, Device, DeviceModel, ShaderEffect, SnapshotSlotModel, TextureModel};
use crate::render::{create_pipeline_layout, create_render_pipeline, create_texture_reshaper, expected_layout, renderer_wf, resource_kinds, BindGroupBuilder, BindGroupLayoutBuilder, CustomRenderer, Sampler, ShaderModule, TextureReshaper};
use crate::uniforms::{create_uniforms, iteration_of, uniforms_as_bytes, uniforms_repr, Uniforms};
use crate::{CaptureError, ConstructionError};
use vstd::prelude::*;

verus! {

/// The orchestrator's state: the working dimensions fixed at startup, the
/// feedback texture, the two passes in execution order, the shared
/// buffers, the capturer and the tick counter.
#[derive(Debug)]
pub struct Model {
    /// Working width in pixels, fixed for the whole run.
    pub width: u32,
    /// Working height in pixels, fixed for the whole run.
    pub height: u32,
    /// The feedback texture: read by the passes, overwritten at the end
    /// of every tick with the final pass's output.
    pub uniform_texture: usize,
    /// Captures the feedback texture each tick.
    pub frame_capturer: FrameCapturer,
    /// The first pass.
    pub field_generator: CustomRenderer,
    /// The second and final pass.
    pub sorter: CustomRenderer,
    /// The buffer holding the quad's vertices.
    pub vertex_buffer: usize,
    /// The one resident uniform buffer shared by all passes.
    pub uniform_buffer: usize,
    /// Closes the feedback loop: reshapes the sorter's output into the
    /// feedback texture.
    pub texture_reshaper: TextureReshaper,
    /// Ticks run so far.
    pub elapsed_frames: u64,
}

/// The uniform block tick `m.elapsed_frames` uploads: the current
/// dimensions and the toggling iteration counter.
pub open spec fn tick_uniforms(m: Model) -> Uniforms {
    Uniforms { iteration: iteration_of(m.elapsed_frames), width: m.width, height: m.height }
}

/// The orchestrator's resources exist on the device with the configured
/// dimensions, the passes are well formed, the capturer is idle between
/// ticks and numbers frames by tick index.
pub open spec fn model_wf(m: Model, d: DeviceModel) -> bool {
    &&& m.width < 0x100_0000
    &&& m.height < 0x100_0000
    &&& m.width * m.height * bytes_per_pixel() <= usize::MAX
    &&& model_resources_wf(m, d)
    &&& m.texture_reshaper == (TextureReshaper {
        src_texture: m.sorter.output_texture,
        src_sample_count: 1,
        dst_sample_count: 1,
    })
    &&& m.uniform_texture != m.field_generator.output_texture
    &&& m.uniform_texture != m.sorter.output_texture
    &&& m.field_generator.output_texture != m.sorter.output_texture
    &&& m.frame_capturer.pending is None
    &&& m.frame_capturer.next_frame == m.elapsed_frames
}

/// The device right after a tick's host-side preparation: a staging
/// buffer holding this tick's uniform block, and a fresh, unsubmitted
/// snapshot slot.
pub open spec fn tick_start(d: DeviceModel, m: Model) -> DeviceModel {
    DeviceModel {
        textures: d.textures,
        buffers: d.buffers.push(uniforms_repr(tick_uniforms(m))),
        snapshots: d.snapshots.push(SnapshotSlotModel { submitted: false, data: Seq::empty() }),
    }
}

/// The five commands of one tick, in the order they are enqueued and
/// executed: the uniform copy before any pass that reads the block, the
/// capture before any pass mutates the feedback texture, the passes in
/// declared order, and the feedback copy after the last pass.
pub open spec fn tick_commands(m: Model, staging: usize, slot: usize) -> Seq<CommandModel> {
    seq![
        CommandModel::CopyBufferToBuffer { src: staging, dst: m.uniform_buffer },
        CommandModel::Capture { src: m.uniform_texture, slot },
        CommandModel::Draw {
            output: m.field_generator.output_texture,
            inputs: m.field_generator.spec_inputs(),
            effect: m.field_generator.spec_effect(),
            vertices: m.vertex_buffer,
        },
        CommandModel::Draw {
            output: m.sorter.output_texture,
            inputs: m.sorter.spec_inputs(),
            effect: m.sorter.spec_effect(),
            vertices: m.vertex_buffer,
        },
        CommandModel::CopyTextureToTexture {
            src: m.sorter.output_texture,
            dst: m.uniform_texture,
        },
    ]
}

/// A still image decoded into host memory: the pixel source for the whole
/// run, whose dimensions become the fixed working resolution.
#[derive(Debug)]
pub struct SourceImage {
    /// Width in pixels.
    pub width: u32,
    /// Height in pixels.
    pub height: u32,
    /// The pixel bytes, row-major, four bytes per pixel.
    pub data: Vec<u8>,
}

/// An image's byte count agrees with its dimensions.
pub open spec fn image_wf(img: SourceImage) -> bool {
    img.data@.len() == img.width * img.height * bytes_per_pixel()
}

/// The device with an image just uploaded as a texture.
pub open spec fn image_upload_start(d: DeviceModel, img: SourceImage) -> DeviceModel {
    DeviceModel {
        textures: d.textures.push(
            TextureModel { width: img.width, height: img.height, data: img.data@ },
        ),
        ..d
    }
}

/// Writes an image into a texture using a one-shot pass: uploads the image
/// as a texture, binds it with a sampler, and draws the quad through a
/// blit shader into the target. With a pass-through blit shader the target
/// afterwards holds exactly the image's bytes.
pub fn copy_image_to_texture(
    device: &mut Device,
    image: &SourceImage,
    texture: usize,
    sample_count: u32,
    vertex_buffer: usize,
    vs_mod: &ShaderModule,
    image_fs_mod: &ShaderModule,
) -> (r: Result<(), ConstructionError>)
    requires
        image_wf(*image),
        texture < old(device)@.textures.len(),
        old(device)@.textures[texture as int].data.len() == image.data@.len(),
        vertex_buffer < old(device)@.buffers.len(),
        (match image_fs_mod.effect {
            ShaderEffect::CopyInput { index } => index == 0,
            ShaderEffect::Fill { .. } => true,
        }),
    ensures
        r is Ok <==> image_fs_mod.bindings@ == expected_layout(1, true, false),
        r is Err ==> {
            &&& r->Err_0 == ConstructionError::BindingMismatch
            &&& final(device)@ == old(device)@
        },
        r is Ok ==> ({
            let d1 = image_upload_start(old(device)@, *image);
            let img_id = old(device)@.textures.len() as usize;
            final(device)@ == (DeviceModel {
                textures: d1.textures.update(
                    texture as int,
                    TextureModel {
                        data: effect_output(
                            image_fs_mod.effect,
                            seq![img_id],
                            d1,
                            d1.textures[texture as int].data.len(),
                        ),
                        ..d1.textures[texture as int]
                    },
                ),
                ..d1
            })
        }),
        (r is Ok && image_fs_mod.effect == (ShaderEffect::CopyInput { index: 0usize }))
            ==> final(device)@.textures[texture as int].data == image.data@,
{
    let ghost d0 = device@;
    proof {
        assert(device.textures.len() == d0.textures.len());
    }

    // Build the blit pass's layout and validate the shader against it
    // before touching the device.
    let bind_group_layout = BindGroupLayoutBuilder::new().texture().sampler().build();
    let pipeline_layout = create_pipeline_layout(&bind_group_layout);
    let render_pipeline = match create_render_pipeline(
        &pipeline_layout,
        vs_mod,
        image_fs_mod,
        sample_count,
    ) {
        Ok(p) => p,
        Err(e) => {
            proof {
                assert(bind_group_layout.entries@ =~= expected_layout(1, true, false));
            }
            return Err(e);
        },
    };
    proof {
        assert(bind_group_layout.entries@ =~= expected_layout(1, true, false));
    }

    // Upload the image and bind it with a sampler.
    let image_data = copy_image_bytes(&image.data);
    let image_texture = create_texture_init(device, image.width, image.height, image_data);
    let sampler = Sampler::new();
    let bind_group_builder = BindGroupBuilder::new().texture_view(image_texture).sampler(&sampler);
    proof {
        assert(resource_kinds(bind_group_builder.resources@) =~= bind_group_layout.entries@);
    }
    let bind_group = bind_group_builder.build(&bind_group_layout);

    // One draw of the quad into the target, then submit.
    let mut encoder = device.create_command_encoder();
    let mut inputs: Vec<usize> = Vec::new();
    inputs.push(image_texture);
    encoder.enqueue(
        Command::Draw { output: texture, inputs, effect: render_pipeline.effect, vertices: vertex_buffer },
    );
    let ghost d1 = device@;
    let ghost draw = CommandModel::Draw {
        output: texture,
        inputs: seq![image_texture],
        effect: image_fs_mod.effect,
        vertices: vertex_buffer,
    };
    proof {
        assert(encoder@ =~= seq![draw]);
        assert(d1 =~~= image_upload_start(d0, *image));
        assert(cmd_wf(d1, draw));
        assert(seq![draw][0] == draw);
        assert(seq![draw].drop_first() =~= Seq::<CommandModel>::empty());
        assert(cmds_wf(step(d1, draw), Seq::<CommandModel>::empty()));
        assert(cmds_wf(d1, encoder@));
    }
    device.submit(encoder);
    proof {
        assert(run(step(d1, draw), Seq::<CommandModel>::empty()) == step(d1, draw));
        assert(run(d1, seq![draw]) == step(d1, draw));
        assert(device@ == step(d1, draw));
    }
    Ok(())
}

/// Copies an image's bytes for upload.
fn copy_image_bytes(src: &Vec<u8>) -> (r: Vec<u8>)
    ensures
        r@ == src@,
{
    let mut r: Vec<u8> = Vec::new();
    let mut i: usize = 0;
    while i < src.len()
        invariant
            i <= src@.len(),
            r@ == src@.take(i as int),
        decreases src@.len() - i,
    {
        r.push(src[i]);
        proof {
            assert(r@ =~= src@.take(i + 1));
        }
        i = i + 1;
    }
    proof {
        assert(src@.take(src@.len() as int) =~= src@);
    }
    r
}

/// Builds the orchestrator: the feedback texture sized to the image, the
/// initial uniform block, the field and sort passes, the quad's vertex
/// buffer, and the one-shot upload of the image into the feedback texture.
/// Construction succeeds exactly when all three fragment shaders declare
/// their binding slots in the orders the passes derive; a mismatch aborts
/// before any tick runs. With a pass-through blit shader the feedback
/// texture afterwards holds exactly the image, the state tick 0 reads.
///
/// Each shader's modeled behavior must fit the inputs its pass binds: the
/// field pass binds no input texture, so its shader cannot pass one
/// through; the sorter binds two; the blit pass binds the image alone.
pub fn model(
    device: &mut Device,
    image: &SourceImage,
    vs_mod: &ShaderModule,
    field_fs_mod: &ShaderModule,
    sort_fs_mod: &ShaderModule,
    image_fs_mod: &ShaderModule,
    sample_count: u32,
) -> (r: Result<Model, ConstructionError>)
    requires
        image_wf(*image),
        image.width < 0x100_0000,
        image.height < 0x100_0000,
        image.width * image.height * bytes_per_pixel() <= usize::MAX,
        field_fs_mod.effect is Fill,
        (match sort_fs_mod.effect {
            ShaderEffect::CopyInput { index } => index < 2,
            ShaderEffect::Fill { .. } => true,
        }),
        (match image_fs_mod.effect {
            ShaderEffect::CopyInput { index } => index == 0,
            ShaderEffect::Fill { .. } => true,
        }),
    ensures
        r is Ok <==> {
            &&& field_fs_mod.bindings@ == expected_layout(0, false, true)
            &&& sort_fs_mod.bindings@ == expected_layout(2, true, true)
            &&& image_fs_mod.bindings@ == expected_layout(1, true, false)
        },
        r is Err ==> r->Err_0 == ConstructionError::BindingMismatch,
        r is Ok ==> ({
            let m = r->Ok_0;
            &&& model_wf(m, final(device)@)
            &&& m.width == image.width
            &&& m.height == image.height
            &&& m.elapsed_frames == 0
            &&& m.uniform_texture == old(device)@.textures.len()
            &&& m.field_generator.output_texture == old(device)@.textures.len() + 1
            &&& m.sorter.output_texture == old(device)@.textures.len() + 2
            &&& m.uniform_buffer == old(device)@.buffers.len()
            &&& m.vertex_buffer == old(device)@.buffers.len() + 1
            &&& m.field_generator.spec_inputs() == Seq::<usize>::empty()
            &&& m.field_generator.spec_effect() == field_fs_mod.effect
            &&& m.sorter.spec_inputs() == seq![m.uniform_texture, m.field_generator.output_texture]
            &&& m.sorter.spec_effect() == sort_fs_mod.effect
            &&& final(device)@.textures.len() == old(device)@.textures.len() + 4
            &&& final(device)@.buffers.len() == old(device)@.buffers.len() + 2
            &&& final(device)@.buffers[m.uniform_buffer as int] == uniforms_repr(
                Uniforms { iteration: 0u32, width: image.width, height: image.height },
            )
            &&& final(device)@.buffers[m.vertex_buffer as int] == vertices_repr(quad())
            &&& final(device)@.snapshots == old(device)@.snapshots
        }),
        (r is Ok && image_fs_mod.effect == (ShaderEffect::CopyInput { index: 0usize }))
            ==> final(device)@.textures[r->Ok_0.uniform_texture as int].data == image.data@,
{
    let width = image.width;
    let height = image.height;

    let uniform_texture = create_app_texture(device, width, height, 1);

    // The sampler for reading from the source textures.
    let sampler = Sampler::new();

    // The resident uniform buffer, holding the block for tick 0.
    let uniforms = create_uniforms(width, height, 0);
    let uniforms_bytes = uniforms_as_bytes(&uniforms);
    let uniform_buffer = device.create_buffer_init(uniforms_bytes);

    let field_generator = match CustomRenderer::new(
        device,
        vs_mod,
        field_fs_mod,
        None,
        None,
        Some(uniform_buffer),
        width,
        height,
        sample_count,
    ) {
        Ok(p) => p,
        Err(e) => {
            return Err(e);
        },
    };

    let mut sorter_uniform_textures: Vec<usize> = Vec::new();
    sorter_uniform_textures.push(uniform_texture);
    sorter_uniform_textures.push(field_generator.output_texture);

    let sorter = match CustomRenderer::new(
        device,
        vs_mod,
        sort_fs_mod,
        Some(&sorter_uniform_textures),
        Some(&sampler),
        Some(uniform_buffer),
        width,
        height,
        sample_count,
    ) {
        Ok(p) => p,
        Err(e) => {
            return Err(e);
        },
    };
    proof {
        assert(sorter_uniform_textures@ =~= seq![
            uniform_texture,
            field_generator.output_texture,
        ]);
    }

    let vertices = quad_vertices();
    proof {
        assert(forall|i: int| 0 <= i < quad().len() ==> vertex_in_range(#[trigger] quad()[i]));
    }
    let vertices_bytes = vertices_as_bytes(vertices.as_slice());
    let vertex_buffer = device.create_buffer_init(vertices_bytes);

    match copy_image_to_texture(
        device,
        image,
        uniform_texture,
        1,
        vertex_buffer,
        vs_mod,
        image_fs_mod,
    ) {
        Ok(u) => u,
        Err(e) => {
            return Err(e);
        },
    };

    let frame_capturer = FrameCapturer::new();

    let texture_reshaper = create_texture_reshaper(sorter.output_texture, 1, 1);

    Ok(
        Model {
            width,
            height,
            uniform_texture,
            frame_capturer,
            field_generator,
            sorter,
            vertex_buffer,
            uniform_buffer,
            texture_reshaper,
            elapsed_frames: 0,
        },
    )
}

/// Runs one tick and returns the frame captured from the feedback texture
/// as it stood before the tick — the previous tick's final state.
///
/// The contract pins the whole tick down: the device ends in exactly the
/// state left by executing this tick's five commands, in order, from the
/// prepared state; the resident uniform buffer then holds the block for
/// tick `N == old(model).elapsed_frames` with `iteration == N mod 2`; and
/// the feedback texture holds exactly the final pass's output, closing
/// the loop for the next tick.
pub fn update(device: &mut Device, model: &mut Model) -> (r: Result<CapturedFrame, CaptureError>)
    requires
        model_wf(*old(model), old(device)@),
        old(model).elapsed_frames < u64::MAX,
    ensures
        final(device)@ == run(
            tick_start(old(device)@, *old(model)),
            tick_commands(
                *old(model),
                old(device)@.buffers.len() as usize,
                old(device)@.snapshots.len() as usize,
            ),
        ),
        *final(model) == (Model {
            frame_capturer: FrameCapturer {
                pending: None::<crate::capture::Snapshot>,
                next_frame: (old(model).elapsed_frames + 1) as u64,
            },
            elapsed_frames: (old(model).elapsed_frames + 1) as u64,
            ..*old(model)
        }),
        model_wf(*final(model), final(device)@),
        final(device)@.buffers[old(model).uniform_buffer as int] == uniforms_repr(
            tick_uniforms(*old(model)),
        ),
        final(device)@.textures[old(model).uniform_texture as int].data == final(device)@.textures[old(model).sorter.output_texture as int].data,
        r is Ok,
        r->Ok_0.index == old(model).elapsed_frames,
        r->Ok_0.data@ == old(device)@.textures[old(model).uniform_texture as int].data,
{
    let ghost m0 = *model;
    let ghost d0 = device@;
    proof {
        assert(device.buffers.len() == d0.buffers.len());
        assert(device.snapshots.len() == d0.snapshots.len());
    }

    // An update for the uniform buffer with this tick's block.
    let iteration: u32 = (model.elapsed_frames % 2) as u32;
    let uniforms = create_uniforms(model.width, model.height, iteration);
    let uniforms_bytes = uniforms_as_bytes(&uniforms);
    let new_uniform_buffer = device.create_buffer_init(uniforms_bytes);

    let mut encoder = device.create_command_encoder();
    encoder.copy_buffer_to_buffer(new_uniform_buffer, model.uniform_buffer);

    // Capture the feedback texture before any pass mutates it, so the
    // snapshot reflects the previous tick's final state.
    model.frame_capturer.take_snapshot(device, &mut encoder, model.uniform_texture);

    model.field_generator.render(&mut encoder, model.vertex_buffer);
    model.sorter.render(&mut encoder, model.vertex_buffer);

    // Copy the sorter's output back into the feedback texture.
    model.texture_reshaper.encode_render_pass(model.uniform_texture, &mut encoder);

    let ghost staging: usize = new_uniform_buffer;
    let ghost slot: usize = d0.snapshots.len() as usize;
    let ghost d1 = tick_start(d0, m0);
    let ghost cs = tick_commands(m0, staging, slot);

    proof {
        assert(device@ =~~= d1);
        assert(encoder@ =~= cs);
        assert(uniforms_repr(tick_uniforms(m0)).len() == 12);
        lemma_tick_commands_wf(d1, m0, staging, slot);
    }

    // Submit the whole tick as one ordered stream.
    device.submit(encoder);

    proof {
        lemma_tick_run(d1, m0, staging, slot);
    }

    let frame = model.frame_capturer.save_frame(device);
    model.elapsed_frames = model.elapsed_frames + 1;
    proof {
        assert(run(d1, cs).snapshots[slot as int].submitted);
        assert(run(d1, cs).snapshots[slot as int].data == d0.textures[m0.uniform_texture as int].data);
    }
    frame
}

/// Law: within one tick's stream, no two commands write the same texture.
/// Every mutator of a texture is identified by its position in the stream,
/// so this single-writer-per-texture-per-tick rule — enforced by program
/// order, not by a lock — is the pipeline's whole data-race avoidance.
pub proof fn lemma_single_writer_per_tick(m: Model, staging: usize, slot: usize)
    requires
        m.uniform_texture != m.field_generator.output_texture,
        m.uniform_texture != m.sorter.output_texture,
        m.field_generator.output_texture != m.sorter.output_texture,
    ensures
        forall|i: int, j: int|
            (0 <= i < j < tick_commands(m, staging, slot).len() && texture_written(
                #[trigger] tick_commands(m, staging, slot)[i],
            ) is Some && texture_written(#[trigger] tick_commands(m, staging, slot)[j]) is Some)
                ==> texture_written(tick_commands(m, staging, slot)[i]) != texture_written(
                tick_commands(m, staging, slot)[j],
            ),
{
}

/// The tick's five commands are each valid in the state they execute in.
proof fn lemma_tick_commands_wf(d1: DeviceModel, m: Model, staging: usize, slot: usize)
    requires
        staging + 1 == d1.buffers.len(),
        d1.buffers[staging as int].len() == 12,
        slot + 1 == d1.snapshots.len(),
        model_resources_wf(m, d1),
    ensures
        cmds_wf(d1, tick_commands(m, staging, slot)),
{
    let cs = tick_commands(m, staging, slot);
    let d2 = step(d1, cs[0]);
    let d3 = step(d2, cs[1]);
    let d4 = step(d3, cs[2]);
    let d5 = step(d4, cs[3]);
    let d6 = step(d5, cs[4]);
    assert(cmd_wf(d1, cs[0]));
    assert(cmd_wf(d2, cs[1]));
    assert(cmd_wf(d3, cs[2]));
    assert(cmd_wf(d4, cs[3]));
    assert(cmd_wf(d5, cs[4]));
    let cs1 = cs.drop_first();
    let cs2 = cs1.drop_first();
    let cs3 = cs2.drop_first();
    let cs4 = cs3.drop_first();
    let cs5 = cs4.drop_first();
    assert(cs1 =~= seq![cs[1], cs[2], cs[3], cs[4]]);
    assert(cs2 =~= seq![cs[2], cs[3], cs[4]]);
    assert(cs3 =~= seq![cs[3], cs[4]]);
    assert(cs4 =~= seq![cs[4]]);
    assert(cs5 =~= Seq::<CommandModel>::empty());
    assert(cmds_wf(d6, cs5));
    assert(cmds_wf(d5, cs4));
    assert(cmds_wf(d4, cs3));
    assert(cmds_wf(d3, cs2));
    assert(cmds_wf(d2, cs1));
    assert(cmds_wf(d1, cs));
}

/// The resource part of [`model_wf`]: the orchestrator's textures and
/// buffers exist on the device, sized to the working dimensions, and both
/// passes are well formed. This is what a tick's commands need of the
/// state they execute in.
pub open spec fn model_resources_wf(m: Model, d: DeviceModel) -> bool {
    &&& m.uniform_texture < d.textures.len()
    &&& d.textures[m.uniform_texture as int].width == m.width
    &&& d.textures[m.uniform_texture as int].height == m.height
    &&& texture_wf(d.textures[m.uniform_texture as int])
    &&& m.uniform_buffer < d.buffers.len()
    &&& d.buffers[m.uniform_buffer as int].len() == 12
    &&& m.vertex_buffer < d.buffers.len()
    &&& renderer_wf(m.field_generator, d)
    &&& renderer_wf(m.sorter, d)
    &&& d.textures[m.field_generator.output_texture as int].width == m.width
    &&& d.textures[m.field_generator.output_texture as int].height == m.height
    &&& texture_wf(d.textures[m.field_generator.output_texture as int])
    &&& d.textures[m.sorter.output_texture as int].width == m.width
    &&& d.textures[m.sorter.output_texture as int].height == m.height
    &&& texture_wf(d.textures[m.sorter.output_texture as int])
}

/// Unrolls the tick's run: what each resource holds once the queue has
/// executed the five commands.
proof fn lemma_tick_run(d1: DeviceModel, m: Model, staging: usize, slot: usize)
    requires
        staging < d1.buffers.len(),
        staging != m.uniform_buffer,
        d1.buffers[staging as int].len() == 12,
        slot + 1 == d1.snapshots.len(),
        model_resources_wf(m, d1),
    ensures
        ({
            let df = run(d1, tick_commands(m, staging, slot));
            &&& df.buffers[m.uniform_buffer as int] == d1.buffers[staging as int]
            &&& df.textures[m.uniform_texture as int].data == df.textures[m.sorter.output_texture as int].data
            &&& df.snapshots[slot as int] == (SnapshotSlotModel {
                submitted: true,
                data: d1.textures[m.uniform_texture as int].data,
            })
            &&& df.textures.len() == d1.textures.len()
            &&& df.buffers.len() == d1.buffers.len()
            &&& df.snapshots.len() == d1.snapshots.len()
            &&& forall|i: int|
                0 <= i < d1.textures.len() ==> #[trigger] df.textures[i].width
                    == d1.textures[i].width
            &&& forall|i: int|
                0 <= i < d1.textures.len() ==> #[trigger] df.textures[i].height
                    == d1.textures[i].height
            &&& forall|i: int|
                0 <= i < d1.textures.len() ==> #[trigger] df.textures[i].data.len()
                    == d1.textures[i].data.len()
            &&& forall|i: int|
                0 <= i < d1.buffers.len() ==> #[trigger] df.buffers[i].len() == d1.buffers[i].len()
        }),
{
    let cs = tick_commands(m, staging, slot);
    let d2 = step(d1, cs[0]);
    let d3 = step(d2, cs[1]);
    let d4 = step(d3, cs[2]);
    let d5 = step(d4, cs[3]);
    let d6 = step(d5, cs[4]);
    let cs1 = cs.drop_first();
    let cs2 = cs1.drop_first();
    let cs3 = cs2.drop_first();
    let cs4 = cs3.drop_first();
    let cs5 = cs4.drop_first();
    assert(cs1 =~= seq![cs[1], cs[2], cs[3], cs[4]]);
    assert(cs2 =~= seq![cs[2], cs[3], cs[4]]);
    assert(cs3 =~= seq![cs[3], cs[4]]);
    assert(cs4 =~= seq![cs[4]]);
    assert(cs5 =~= Seq::<CommandModel>::empty());
    assert(run(d1, cs) == run(d2, cs1));
    assert(run(d2, cs1) == run(d3, cs2));
    assert(run(d3, cs2) == run(d4, cs3));
    assert(run(d4, cs3) == run(d5, cs4));
    assert(run(d5, cs4) == run(d6, cs5));
    assert(run(d6, cs5) == d6);
    assert(run(d1, cs) == d6);
}

} // verus!
