use render_core::bytes::{mat4_to_bytes, push_u32_le, words_to_bytes, SCALAR_ONE_BITS};
use render_core::camera::CameraUniform;
use render_core::gpu::{copy_buffer_to_buffer, StagingBuffer, UniformBuffer};
use render_core::light::{LightUniform, LIGHT_POS_X_BITS, LIGHT_POS_Y_BITS};
use render_core::movement::{MovementUniform, Transform};

fn le_bytes(words: &[u32]) -> Vec<u8> {
    let mut out = Vec::new();
    for w in words {
        out.extend_from_slice(&w.to_le_bytes());
    }
    out
}

#[test]
fn word_serialization_is_little_endian() {
    let mut out = Vec::new();
    push_u32_le(&mut out, 0x0102_0304);
    assert_eq!(out, vec![0x04, 0x03, 0x02, 0x01]);

    let ws = vec![0xAABB_CCDD_u32, 0x0000_0001];
    assert_eq!(words_to_bytes(&ws), vec![0xDD, 0xCC, 0xBB, 0xAA, 0x01, 0x00, 0x00, 0x00]);
}

#[test]
fn light_uniform_byte_image() {
    let u = LightUniform::new();
    let expected = le_bytes(&[
        LIGHT_POS_X_BITS,
        LIGHT_POS_Y_BITS,
        0,
        0,
        SCALAR_ONE_BITS,
        SCALAR_ONE_BITS,
        SCALAR_ONE_BITS,
        0,
    ]);
    assert_eq!(u.to_bytes(), expected);
    assert_eq!(u.to_bytes().len(), 32);
}

#[test]
fn camera_uniform_round_trip() {
    let mut words = [0u32; 16];
    for (i, w) in words.iter_mut().enumerate() {
        *w = 0x1000_0000 + i as u32;
    }
    let mut u = CameraUniform::new();
    u.update_view_proj(&words);
    let payload = u.to_bytes();

    let mut buffer = UniformBuffer::new_init(vec![0u8; 64]);
    buffer.write(&payload);
    assert_eq!(buffer.read(), payload);
    assert_eq!(buffer.read(), le_bytes(&words));
}

#[test]
fn staged_copy_agrees_with_direct_write() {
    let payload = le_bytes(&[7, 11, 13, 17]);

    let mut direct = UniformBuffer::new_init(vec![0u8; 16]);
    direct.write(&payload);

    let mut staged = UniformBuffer::new_init(vec![0xFFu8; 16]);
    let staging = StagingBuffer::new_init(payload.clone());
    copy_buffer_to_buffer(&staging, &mut staged);

    assert_eq!(direct.read(), staged.read());
    assert_eq!(staged.read(), payload);
}

#[test]
fn movement_uniform_starts_as_identity() {
    let u = MovementUniform::new();
    let mut expected = [0u32; 16];
    expected[0] = SCALAR_ONE_BITS;
    expected[5] = SCALAR_ONE_BITS;
    expected[10] = SCALAR_ONE_BITS;
    expected[15] = SCALAR_ONE_BITS;
    assert_eq!(u.to_bytes(), le_bytes(&expected));
    assert_eq!(mat4_to_bytes(&expected), le_bytes(&expected));
}

#[test]
fn rotation_angle_advances_and_wraps() {
    let mut t = Transform { rotation_angle: 0 };
    t.update_rotation(16);
    assert_eq!(t.rotation_angle, 2880);

    let mut near_turn = Transform { rotation_angle: 359_000 };
    near_turn.update_rotation(10);
    assert_eq!(near_turn.rotation_angle, 800);
}
