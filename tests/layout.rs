use sdf_scene::{CubeData, F32x3, F32x4, ShapeData, SphereData, UnionData};

fn word(bytes: &[u8], i: usize) -> u32 {
    u32::from_le_bytes([bytes[4 * i], bytes[4 * i + 1], bytes[4 * i + 2], bytes[4 * i + 3]])
}

#[test]
fn sentinel_shape_record() {
    let mut out = Vec::new();
    ShapeData::default().write_to(&mut out);
    assert_eq!(out.len(), 48);
    for i in 0..4 {
        assert_eq!(word(&out, i), 0);
    }
    assert_eq!(word(&out, 4), u32::MAX);
    assert_eq!(word(&out, 5), u32::MAX);
    assert_eq!(word(&out, 6), 0);
    assert_eq!(word(&out, 7), 0);
    assert_eq!(f32::from_bits(word(&out, 8)), f32::MIN);
    assert_eq!(f32::from_bits(word(&out, 9)), f32::MIN);
    assert_eq!(f32::from_bits(word(&out, 10)), f32::MAX);
    assert_eq!(f32::from_bits(word(&out, 11)), f32::MAX);
}

#[test]
fn words_are_little_endian() {
    let d = UnionData { left: 0x0403_0201, right: 5, index: 0xa0b0_c0d0 };
    let mut out = vec![9u8];
    d.write_to(&mut out);
    assert_eq!(out, vec![9, 1, 2, 3, 4, 5, 0, 0, 0, 0xd0, 0xc0, 0xb0, 0xa0]);
}

#[test]
fn sphere_and_cube_records() {
    let s = SphereData { model: F32x4::new(1.0f32.to_bits(), 2.0f32.to_bits(), 3.0f32.to_bits(), 0.5f32.to_bits()) };
    let mut out = Vec::new();
    s.write_to(&mut out);
    assert_eq!(out.len(), 16);
    assert_eq!(f32::from_bits(word(&out, 0)), 1.0);
    assert_eq!(f32::from_bits(word(&out, 3)), 0.5);

    let c = CubeData {
        model: F32x3::new(1.0f32.to_bits(), 2.0f32.to_bits(), 3.0f32.to_bits()),
        size: F32x3::new(4.0f32.to_bits(), 5.0f32.to_bits(), 6.0f32.to_bits()),
        rot: F32x4::new(7.0f32.to_bits(), 8.0f32.to_bits(), 9.0f32.to_bits(), 10.0f32.to_bits()),
    };
    let mut out = Vec::new();
    c.write_to(&mut out);
    assert_eq!(out.len(), 48);
    let expected = [1.0f32, 2.0, 3.0, 0.0, 4.0, 5.0, 6.0, 0.0, 7.0, 8.0, 9.0, 10.0];
    for (i, e) in expected.iter().enumerate() {
        assert_eq!(f32::from_bits(word(&out, i)), *e);
    }
}
