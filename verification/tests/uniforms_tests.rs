use render_core::uniforms::{Matrix4, SkyboxUniforms, ONE, UNIFORM_SIZE};

fn matrix(first: u32) -> Matrix4 {
    let mut words = [0u32; 16];
    for (i, word) in words.iter_mut().enumerate() {
        *word = first + i as u32;
    }
    Matrix4 { words }
}

#[test]
fn one_is_the_word_of_single_precision_one() {
    assert_eq!(ONE, 1.0f32.to_bits());
}

#[test]
fn payload_is_projection_then_view_in_machine_byte_order() {
    let uniforms = SkyboxUniforms { proj: matrix(0x0102_0304), view: matrix(0xA0B0_C0D0) };
    let bytes = uniforms.to_bytes();
    assert_eq!(bytes.len(), UNIFORM_SIZE);
    assert_eq!(bytes.len(), 128);
    let mut expected = Vec::new();
    for word in uniforms.proj.words.iter().chain(uniforms.view.words.iter()) {
        expected.extend_from_slice(&word.to_ne_bytes());
    }
    assert_eq!(bytes, expected);
}

#[test]
fn payload_bytes_are_those_of_the_numbers() {
    let mut proj = [0u32; 16];
    let mut view = [0u32; 16];
    for i in 0..16 {
        proj[i] = (i as f32 + 0.5).to_bits();
        view[i] = (-(i as f32) * 2.0).to_bits();
    }
    let bytes =
        SkyboxUniforms { proj: Matrix4 { words: proj }, view: Matrix4 { words: view } }.to_bytes();
    for i in 0..16 {
        let p = f32::from_ne_bytes([bytes[4 * i], bytes[4 * i + 1], bytes[4 * i + 2], bytes[4 * i + 3]]);
        assert_eq!(p, i as f32 + 0.5);
        let at = 64 + 4 * i;
        let v = f32::from_ne_bytes([bytes[at], bytes[at + 1], bytes[at + 2], bytes[at + 3]]);
        assert_eq!(v, -(i as f32) * 2.0);
    }
}

#[test]
fn payload_of_one_on_a_little_endian_machine() {
    let mut words = [0u32; 16];
    words[0] = ONE;
    let bytes = SkyboxUniforms { proj: Matrix4 { words }, view: Matrix4 { words: [0; 16] } }.to_bytes();
    if u32::from_ne_bytes([1, 0, 0, 0]) == 1 {
        assert_eq!(&bytes[0..4], &[0x00, 0x00, 0x80, 0x3F]);
    } else {
        assert_eq!(&bytes[0..4], &[0x3F, 0x80, 0x00, 0x00]);
    }
    assert!(bytes[4..].iter().all(|b| *b == 0));
}
