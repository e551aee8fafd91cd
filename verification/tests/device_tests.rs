//! The device model's queue: strict in-order execution of one stream.

use pixelsort::gpu::{create_app_texture, create_texture_init, Command, Device, ShaderEffect};

#[test]
fn buffer_copy_overwrites_the_destination() {
    let mut device = Device::new();
    let src = device.create_buffer_init(vec![1, 2, 3, 4]);
    let dst = device.create_buffer_init(vec![0, 0, 0, 0]);
    let mut encoder = device.create_command_encoder();
    encoder.copy_buffer_to_buffer(src, dst);
    device.submit(encoder);
    assert_eq!(device.buffers[dst], vec![1, 2, 3, 4]);
    assert_eq!(device.buffers[src], vec![1, 2, 3, 4]);
}

#[test]
fn texture_copy_is_byte_for_byte() {
    let mut device = Device::new();
    let src = create_texture_init(&mut device, 2, 2, (0u8..16).collect());
    let dst = create_app_texture(&mut device, 2, 2, 1);
    assert_eq!(device.textures[dst].data, vec![0u8; 16]);
    let mut encoder = device.create_command_encoder();
    encoder.copy_texture_to_texture(src, dst);
    device.submit(encoder);
    assert_eq!(device.textures[dst].data, (0u8..16).collect::<Vec<u8>>());
}

#[test]
fn draws_execute_in_submission_order() {
    // Two draws into the same chain: the second reads what the first
    // wrote, so in-order execution is observable in the final contents.
    let mut device = Device::new();
    let vertices = device.create_buffer_init(vec![0u8; 32]);
    let first_out = create_app_texture(&mut device, 2, 2, 1);
    let second_out = create_app_texture(&mut device, 2, 2, 1);
    let mut encoder = device.create_command_encoder();
    encoder.commands.push(Command::Draw {
        output: first_out,
        inputs: vec![],
        effect: ShaderEffect::Fill { value: 0xC3 },
        vertices,
    });
    encoder.commands.push(Command::Draw {
        output: second_out,
        inputs: vec![first_out],
        effect: ShaderEffect::CopyInput { index: 0 },
        vertices,
    });
    device.submit(encoder);
    assert_eq!(device.textures[first_out].data, vec![0xC3; 16]);
    assert_eq!(device.textures[second_out].data, vec![0xC3; 16]);
}
