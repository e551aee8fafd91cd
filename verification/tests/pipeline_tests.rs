//! End-to-end behavior of the orchestrated pipeline on the device model.

use pixelsort::capture::FrameCapturer;
use pixelsort::gpu::{create_app_texture, Device, ShaderEffect};
use pixelsort::orchestrator::{copy_image_to_texture, model, update, SourceImage};
use pixelsort::render::{BindingKind, CustomRenderer, Sampler, ShaderModule};
use pixelsort::{CaptureError, ConstructionError};

fn vertex_shader() -> ShaderModule {
    ShaderModule { bindings: vec![], effect: ShaderEffect::Fill { value: 0 } }
}

fn field_shader() -> ShaderModule {
    // Reads only the uniform block; fills its output.
    ShaderModule {
        bindings: vec![BindingKind::UniformBuffer],
        effect: ShaderEffect::Fill { value: 0 },
    }
}

fn identity_sort_shader() -> ShaderModule {
    // Reads [feedback, field output] with a sampler and the uniforms;
    // passes the feedback texture through unchanged.
    ShaderModule {
        bindings: vec![
            BindingKind::Texture,
            BindingKind::Texture,
            BindingKind::Sampler,
            BindingKind::UniformBuffer,
        ],
        effect: ShaderEffect::CopyInput { index: 0 },
    }
}

fn blit_shader() -> ShaderModule {
    ShaderModule {
        bindings: vec![BindingKind::Texture, BindingKind::Sampler],
        effect: ShaderEffect::CopyInput { index: 0 },
    }
}

fn solid_image(width: u32, height: u32, value: u8) -> SourceImage {
    SourceImage { width, height, data: vec![value; (width * height * 4) as usize] }
}

#[test]
fn pipeline_identity_on_a_solid_image() {
    // A 64x64 solid-color image through a pass-through field shader and an
    // identity sort shader: the frame captured at tick 1 is the input image.
    let mut device = Device::new();
    let image = solid_image(64, 64, 0x2A);
    let mut m = model(
        &mut device,
        &image,
        &vertex_shader(),
        &field_shader(),
        &identity_sort_shader(),
        &blit_shader(),
        1,
    )
    .expect("construction");

    let frame0 = update(&mut device, &mut m).expect("tick 0 capture");
    assert_eq!(frame0.index, 0);
    assert_eq!(frame0.data, image.data);

    let frame1 = update(&mut device, &mut m).expect("tick 1 capture");
    assert_eq!(frame1.index, 1);
    assert_eq!(frame1.data, image.data);
}

#[test]
fn feedback_texture_equals_last_pass_output_after_each_tick() {
    // A sort pass that reads the field pass's output: the feedback texture
    // changes every tick and always equals the sorter's output afterwards.
    let mut device = Device::new();
    let image = solid_image(8, 4, 9);
    let sort = ShaderModule {
        bindings: vec![
            BindingKind::Texture,
            BindingKind::Texture,
            BindingKind::Sampler,
            BindingKind::UniformBuffer,
        ],
        effect: ShaderEffect::CopyInput { index: 1 },
    };
    let field = ShaderModule {
        bindings: vec![BindingKind::UniformBuffer],
        effect: ShaderEffect::Fill { value: 7 },
    };
    let mut m = model(&mut device, &image, &vertex_shader(), &field, &sort, &blit_shader(), 1)
        .expect("construction");

    let frame0 = update(&mut device, &mut m).expect("tick 0 capture");
    assert_eq!(frame0.data, image.data);
    assert_eq!(
        device.textures[m.uniform_texture].data,
        device.textures[m.sorter.output_texture].data
    );
    assert_eq!(device.textures[m.uniform_texture].data, vec![7u8; 8 * 4 * 4]);

    let frame1 = update(&mut device, &mut m).expect("tick 1 capture");
    assert_eq!(frame1.data, vec![7u8; 8 * 4 * 4]);
    assert_eq!(
        device.textures[m.uniform_texture].data,
        device.textures[m.sorter.output_texture].data
    );
}

#[test]
fn iteration_oscillates_between_zero_and_one() {
    let mut device = Device::new();
    let image = solid_image(4, 4, 1);
    let mut m = model(
        &mut device,
        &image,
        &vertex_shader(),
        &field_shader(),
        &identity_sort_shader(),
        &blit_shader(),
        1,
    )
    .expect("construction");

    // The resident block starts at iteration 0.
    assert_eq!(&device.buffers[m.uniform_buffer][0..4], &0u32.to_le_bytes());
    for tick in 0u32..4 {
        update(&mut device, &mut m).expect("tick");
        let expected = tick % 2;
        assert_eq!(
            &device.buffers[m.uniform_buffer][0..4],
            &expected.to_le_bytes(),
            "iteration at tick {}",
            tick
        );
    }
}

#[test]
fn identical_runs_capture_bit_identical_frames() {
    // Determinism: re-running the pipeline from the same initial state
    // produces bit-identical captured frames across runs.
    let run = || {
        let mut device = Device::new();
        let image = solid_image(16, 16, 0x55);
        let field = ShaderModule {
            bindings: vec![BindingKind::UniformBuffer],
            effect: ShaderEffect::Fill { value: 3 },
        };
        let sort = ShaderModule {
            bindings: vec![
                BindingKind::Texture,
                BindingKind::Texture,
                BindingKind::Sampler,
                BindingKind::UniformBuffer,
            ],
            effect: ShaderEffect::CopyInput { index: 1 },
        };
        let mut m = model(&mut device, &image, &vertex_shader(), &field, &sort, &blit_shader(), 1)
            .expect("construction");
        let mut frames: Vec<Vec<u8>> = Vec::new();
        for _ in 0..3 {
            frames.push(update(&mut device, &mut m).expect("tick").data);
        }
        frames
    };
    assert_eq!(run(), run());
}

#[test]
fn binding_order_mismatch_fails_pass_construction() {
    // A fragment shader declaring the uniform block before the textures is
    // inconsistent with the derived layout and must be rejected.
    let mut device = Device::new();
    let texture = create_app_texture(&mut device, 4, 4, 1);
    let uniforms = device.create_buffer_init(vec![0u8; 12]);
    let sampler = Sampler::new();
    let inputs = vec![texture];
    let shuffled = ShaderModule {
        bindings: vec![BindingKind::UniformBuffer, BindingKind::Texture, BindingKind::Sampler],
        effect: ShaderEffect::CopyInput { index: 0 },
    };
    let r = CustomRenderer::new(
        &mut device,
        &vertex_shader(),
        &shuffled,
        Some(&inputs),
        Some(&sampler),
        Some(uniforms),
        4,
        4,
        1,
    );
    assert!(matches!(r, Err(ConstructionError::BindingMismatch)));

    let declared = ShaderModule {
        bindings: vec![BindingKind::Texture, BindingKind::Sampler, BindingKind::UniformBuffer],
        effect: ShaderEffect::CopyInput { index: 0 },
    };
    let r = CustomRenderer::new(
        &mut device,
        &vertex_shader(),
        &declared,
        Some(&inputs),
        Some(&sampler),
        Some(uniforms),
        4,
        4,
        1,
    );
    assert!(r.is_ok());
}

#[test]
fn binding_order_mismatch_fails_model_construction() {
    let mut device = Device::new();
    let image = solid_image(4, 4, 0);
    let backwards_sort = ShaderModule {
        bindings: vec![
            BindingKind::UniformBuffer,
            BindingKind::Sampler,
            BindingKind::Texture,
            BindingKind::Texture,
        ],
        effect: ShaderEffect::CopyInput { index: 0 },
    };
    let r = model(
        &mut device,
        &image,
        &vertex_shader(),
        &field_shader(),
        &backwards_sort,
        &blit_shader(),
        1,
    );
    assert!(matches!(r, Err(ConstructionError::BindingMismatch)));
}

#[test]
fn image_upload_with_a_mismatched_blit_shader_fails() {
    let mut device = Device::new();
    let image = solid_image(4, 4, 0xA1);
    let texture = create_app_texture(&mut device, 4, 4, 1);
    let vertices = device.create_buffer_init(vec![0u8; 32]);
    let backwards_blit = ShaderModule {
        bindings: vec![BindingKind::Sampler, BindingKind::Texture],
        effect: ShaderEffect::CopyInput { index: 0 },
    };
    let r = copy_image_to_texture(
        &mut device,
        &image,
        texture,
        1,
        vertices,
        &vertex_shader(),
        &backwards_blit,
    );
    assert!(matches!(r, Err(ConstructionError::BindingMismatch)));
    // The target is untouched.
    assert_eq!(device.textures[texture].data, vec![0u8; 4 * 4 * 4]);
}

#[test]
fn smallest_image_runs_a_tick() {
    let mut device = Device::new();
    let image = solid_image(1, 1, 0xFF);
    let mut m = model(
        &mut device,
        &image,
        &vertex_shader(),
        &field_shader(),
        &identity_sort_shader(),
        &blit_shader(),
        1,
    )
    .expect("construction");
    let frame = update(&mut device, &mut m).expect("tick");
    assert_eq!(frame.data, vec![0xFF; 4]);
}

#[test]
fn snapshot_read_before_submission_fails() {
    // The ordering hazard: reading a snapshot whose enqueue was never
    // submitted must fail, never silently return stale data.
    let mut device = Device::new();
    let texture = create_app_texture(&mut device, 4, 4, 1);
    let mut capturer = FrameCapturer::new();
    let mut encoder = device.create_command_encoder();
    capturer.take_snapshot(&mut device, &mut encoder, texture);
    // The encoder is never submitted.
    let snapshot = capturer.pending.expect("pending snapshot");
    assert_eq!(snapshot.read(&device), Err(CaptureError::NotSubmitted));
    assert!(matches!(capturer.save_frame(&device), Err(CaptureError::NotSubmitted)));
}

#[test]
fn snapshot_read_after_submission_returns_the_pixels() {
    let mut device = Device::new();
    let image = solid_image(4, 4, 0xA1);
    let texture = create_app_texture(&mut device, 4, 4, 1);
    let vertices = device.create_buffer_init(vec![0u8; 32]);
    copy_image_to_texture(&mut device, &image, texture, 1, vertices, &vertex_shader(), &blit_shader())
        .expect("upload");
    let mut capturer = FrameCapturer::new();
    let mut encoder = device.create_command_encoder();
    capturer.take_snapshot(&mut device, &mut encoder, texture);
    device.submit(encoder);
    let frame = capturer.save_frame(&device).expect("capture");
    assert_eq!(frame.index, 0);
    assert_eq!(frame.data, image.data);
}

#[test]
fn save_frame_without_a_snapshot_reports_nothing_captured() {
    let device = Device::new();
    let mut capturer = FrameCapturer::new();
    assert!(matches!(capturer.save_frame(&device), Err(CaptureError::NothingCaptured)));
}
