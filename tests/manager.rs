use sdf_scene::{
    Flag, F32x3, F32x4, ObjectCounts, Shape, ShapeKind, ShapeManager,
};

fn v3(x: f32, y: f32, z: f32) -> F32x3 {
    F32x3::new(x.to_bits(), y.to_bits(), z.to_bits())
}

fn v4(x: f32, y: f32, z: f32, w: f32) -> F32x4 {
    F32x4::new(x.to_bits(), y.to_bits(), z.to_bits(), w.to_bits())
}

fn word(bytes: &[u8], i: usize) -> u32 {
    u32::from_le_bytes([bytes[4 * i], bytes[4 * i + 1], bytes[4 * i + 2], bytes[4 * i + 3]])
}

fn float(bytes: &[u8], i: usize) -> f32 {
    f32::from_bits(word(bytes, i))
}

#[test]
fn sphere_indices_ignore_cubes() {
    let mut m = ShapeManager::new();
    let a = m.new_sphere(v3(0.0, 0.0, 0.0), 1.0f32.to_bits(), v3(1.0, 1.0, 1.0)).get_index();
    let c0 = m.new_cube(v3(0.0, 0.0, 0.0), v3(1.0, 1.0, 1.0), v3(0.0, 0.0, 0.0)).get_index();
    let c1 = m.new_cube(v3(0.0, 0.0, 0.0), v3(1.0, 1.0, 1.0), v3(0.0, 0.0, 0.0)).get_index();
    let b = m.new_sphere(v3(2.0, 0.0, 0.0), 1.0f32.to_bits(), v3(1.0, 1.0, 1.0)).get_index();
    assert_eq!((a, b), (0, 1));
    assert_eq!((c0, c1), (0, 1));
    assert_eq!(m.shape_count(), 4);
    assert_eq!(m.sphere_count(), 2);
    assert_eq!(m.cube_count(), 2);
    assert_eq!(m.get_shape(3).unwrap().get_index(), 1);
    assert_eq!(m.get_shape(3).unwrap().shape_kind(), ShapeKind::Sphere);
}

#[test]
fn union_disables_operands() {
    let mut m = ShapeManager::new();
    m.new_sphere(v3(0.0, 0.0, 0.0), 1.0f32.to_bits(), v3(1.0, 1.0, 1.0));
    m.new_cube(v3(1.0, 0.0, 0.0), v3(1.0, 1.0, 1.0), v3(0.0, 0.0, 0.0));
    let u = m.new_union(0, 1).expect("both operands exist");
    assert_eq!(u.get_left(), 0);
    assert_eq!(u.get_right(), 1);
    assert_eq!(u.get_index(), 0);
    assert!(u.get_flag(Flag::Enabled));
    let d = u.union_data();
    assert_eq!((d.left, d.right, d.index), (0, 1, 0));
    assert!(!m.get_shape(0).unwrap().get_flag(Flag::Enabled));
    assert!(!m.get_shape(1).unwrap().get_flag(Flag::Enabled));
    assert!(m.get_shape(2).unwrap().get_flag(Flag::Enabled));
    assert_eq!(m.shape_count(), 3);
}

#[test]
fn union_with_missing_operand_is_refused() {
    let mut m = ShapeManager::new();
    m.new_sphere(v3(0.0, 0.0, 0.0), 1.0f32.to_bits(), v3(1.0, 1.0, 1.0));
    assert!(m.new_union(0, 1).is_none());
    assert!(m.new_union(5, 0).is_none());
    assert_eq!(m.shape_count(), 1);
    assert!(m.get_shape(0).unwrap().get_flag(Flag::Enabled));
}

#[test]
fn empty_manager_serializes_sentinel() {
    let m = ShapeManager::new();
    let bytes = m.serialize_shapes(&Vec::new());
    assert_eq!(bytes.len(), 48);
    assert_eq!(word(&bytes, 4), u32::MAX);
    assert_eq!(word(&bytes, 5), u32::MAX);
    assert_eq!(word(&bytes, 6), 0);
}

#[test]
fn one_sphere_serializes_one_record() {
    let mut m = ShapeManager::new();
    m.new_sphere(v3(1.0, 2.0, 3.0), 0.5f32.to_bits(), v3(0.25, 0.5, 0.75));
    let bytes = m.serialize_shapes(&vec![v4(10.0, 20.0, 30.0, 40.0)]);
    assert_eq!(bytes.len(), 48);
    assert_eq!(float(&bytes, 0), 0.25);
    assert_eq!(float(&bytes, 1), 0.5);
    assert_eq!(float(&bytes, 2), 0.75);
    assert_eq!(float(&bytes, 3), 0.0);
    assert_eq!(word(&bytes, 4), 0);
    assert_eq!(word(&bytes, 5), 0);
    assert_eq!(word(&bytes, 6), 1);
    assert_eq!(word(&bytes, 7), 0);
    assert_eq!(float(&bytes, 8), 10.0);
    assert_eq!(float(&bytes, 11), 40.0);
}

#[test]
fn mixed_scene_records_follow_storage_order() {
    let mut m = ShapeManager::new();
    m.new_cube(v3(0.0, 0.0, 0.0), v3(1.0, 1.0, 1.0), v3(0.0, 0.0, 0.0));
    m.new_sphere(v3(0.0, 0.0, 0.0), 1.0f32.to_bits(), v3(1.0, 1.0, 1.0));
    m.new_union(0, 1);
    let boxes = vec![v4(0.0, 0.0, 1.0, 1.0); 3];
    let bytes = m.serialize_shapes(&boxes);
    assert_eq!(bytes.len(), 144);
    assert_eq!(word(&bytes, 5), 1);
    assert_eq!(word(&bytes, 12 + 5), 0);
    assert_eq!(word(&bytes, 24 + 5), 2);
    assert_eq!(word(&bytes, 6), 0);
    assert_eq!(word(&bytes, 12 + 6), 0);
    assert_eq!(word(&bytes, 24 + 6), 1);
    assert_eq!(float(&bytes, 24), 0.0);
}

#[test]
fn sphere_buffer_placeholder_and_records() {
    let mut m = ShapeManager::new();
    let bytes = m.serialize_spheres();
    assert_eq!(bytes.len(), 16);
    assert_eq!(float(&bytes, 3), 1.0);
    m.new_cube(v3(9.0, 9.0, 9.0), v3(1.0, 1.0, 1.0), v3(0.0, 0.0, 0.0));
    m.new_sphere(v3(1.0, 2.0, 3.0), 4.0f32.to_bits(), v3(1.0, 1.0, 1.0));
    m.new_sphere(v3(5.0, 6.0, 7.0), 8.0f32.to_bits(), v3(1.0, 1.0, 1.0));
    let bytes = m.serialize_spheres();
    assert_eq!(bytes.len(), 32);
    let expected = [1.0f32, 2.0, 3.0, 4.0, 5.0, 6.0, 7.0, 8.0];
    for (i, e) in expected.iter().enumerate() {
        assert_eq!(float(&bytes, i), *e);
    }
}

#[test]
fn cube_buffer_placeholder_and_records() {
    let mut m = ShapeManager::new();
    let bytes = m.serialize_cubes();
    assert_eq!(bytes.len(), 48);
    let placeholder = [0.0f32, 0.0, 0.0, 0.0, 1.0, 1.0, 1.0, 0.0, 0.0, 0.0, 0.0, 1.0];
    for (i, e) in placeholder.iter().enumerate() {
        assert_eq!(float(&bytes, i), *e);
    }
    m.new_sphere(v3(0.0, 0.0, 0.0), 1.0f32.to_bits(), v3(1.0, 1.0, 1.0));
    m.new_cube(v3(1.0, 2.0, 3.0), v3(0.5, 0.5, 0.5), v3(0.0, 0.0, 0.0));
    let bytes = m.serialize_cubes();
    assert_eq!(bytes.len(), 48);
    let expected = [1.0f32, 2.0, 3.0, 0.0, 0.5, 0.5, 0.5, 0.0, 0.0, 0.0, 0.0, 1.0];
    for (i, e) in expected.iter().enumerate() {
        assert_eq!(float(&bytes, i), *e);
    }
}

#[test]
fn lookups_by_kind_local_index() {
    let mut m = ShapeManager::new();
    m.new_cube(v3(0.0, 0.0, 0.0), v3(1.0, 1.0, 1.0), v3(0.0, 0.0, 0.0));
    m.new_sphere(v3(3.0, 0.0, 0.0), 2.0f32.to_bits(), v3(1.0, 0.0, 0.0));
    let s = m.get_sphere(0).unwrap();
    assert_eq!(s.get_center(), v3(3.0, 0.0, 0.0));
    assert_eq!(s.get_radius(), 2.0f32.to_bits());
    assert_eq!(s.get_color(), v3(1.0, 0.0, 0.0));
    assert!(m.get_sphere(1).is_none());
    assert!(m.get_cube(1).is_none());
    assert!(m.get_shape(2).is_none());
    m.get_cube_mut(0).unwrap().set_bounds(v3(2.0, 3.0, 4.0));
    assert_eq!(m.get_cube(0).unwrap().get_bounds(), v3(2.0, 3.0, 4.0));
    m.get_sphere_mut(0).unwrap().set_pos(v3(5.0, 5.0, 5.0));
    assert_eq!(m.get_sphere(0).unwrap().get_center(), v3(5.0, 5.0, 5.0));
    assert_eq!(m.get_sphere(0).unwrap().get_index(), 0);
}

#[test]
fn shape_mutators_respect_kind() {
    let mut m = ShapeManager::new();
    m.new_sphere(v3(0.0, 0.0, 0.0), 1.0f32.to_bits(), v3(1.0, 1.0, 1.0));
    m.new_cube(v3(0.0, 0.0, 0.0), v3(1.0, 1.0, 1.0), v3(0.0, 0.0, 0.0));
    m.new_union(0, 1);
    let q = v4(0.0, 0.0, 1.0, 0.0);
    m.get_shape_mut(0).unwrap().set_rotation(q);
    m.get_shape_mut(1).unwrap().set_rotation(q);
    m.get_shape_mut(2).unwrap().set_pos(v3(7.0, 7.0, 7.0));
    m.get_shape_mut(1).unwrap().set_pos(v3(7.0, 7.0, 7.0));
    assert_eq!(m.get_cube(0).unwrap().get_rotation(), q);
    assert_eq!(m.get_cube(0).unwrap().get_pos(), v3(7.0, 7.0, 7.0));
    assert_eq!(m.get_sphere(0).unwrap().get_center(), v3(0.0, 0.0, 0.0));
    match m.get_shape(2).unwrap() {
        Shape::Union(u) => assert_eq!((u.get_left(), u.get_right()), (0, 1)),
        _ => panic!("position 2 holds the union"),
    }
}

#[test]
fn new_cube_starts_unrotated() {
    let mut m = ShapeManager::new();
    let c = m.new_cube(v3(0.0, 0.0, 0.0), v3(1.0, 1.0, 1.0), v3(0.0, 0.0, 0.0));
    assert_eq!(c.get_rotation(), v4(0.0, 0.0, 0.0, 1.0));
}

#[test]
fn buffer_sizes_round_up() {
    assert_eq!(ShapeManager::buffer_size(100, 64), 128);
    assert_eq!(ShapeManager::buffer_size(128, 64), 128);
    assert_eq!(ShapeManager::buffer_size(0, 256), 0);
    assert_eq!(ShapeManager::buffer_size(1, 1), 1);
    let mut m = ShapeManager::new();
    assert_eq!(m.shape_buffer_size(256), 0);
    m.new_sphere(v3(0.0, 0.0, 0.0), 1.0f32.to_bits(), v3(1.0, 1.0, 1.0));
    m.new_sphere(v3(0.0, 0.0, 0.0), 1.0f32.to_bits(), v3(1.0, 1.0, 1.0));
    m.new_cube(v3(0.0, 0.0, 0.0), v3(1.0, 1.0, 1.0), v3(0.0, 0.0, 0.0));
    assert_eq!(m.shape_buffer_size(256), 256);
    assert_eq!(m.shape_buffer_size(32), 160);
    assert_eq!(m.sphere_buffer_size(24), 48);
    assert_eq!(m.cube_buffer_size(64), 64);
}

#[test]
fn shader_config_counts() {
    let mut m = ShapeManager::new();
    m.new_sphere(v3(0.0, 0.0, 0.0), 1.0f32.to_bits(), v3(1.0, 1.0, 1.0));
    m.new_cube(v3(0.0, 0.0, 0.0), v3(1.0, 1.0, 1.0), v3(0.0, 0.0, 0.0));
    m.new_cube(v3(0.0, 0.0, 0.0), v3(1.0, 1.0, 1.0), v3(0.0, 0.0, 0.0));
    m.new_union(0, 1);
    let mut c = ObjectCounts { shape_count: 0, sphere_count: 0, cube_count: 0 };
    m.update_shader_config(&mut c);
    assert_eq!(c, ObjectCounts { shape_count: 4, sphere_count: 1, cube_count: 2 });
    assert_eq!(m.iter_shapes().len(), 4);
}

#[test]
fn buffers_match_reported_counts() {
    let mut m = ShapeManager::new();
    for i in 0..5 {
        m.new_sphere(v3(i as f32, 0.0, 0.0), 1.0f32.to_bits(), v3(1.0, 1.0, 1.0));
    }
    for i in 0..3 {
        m.new_cube(v3(0.0, i as f32, 0.0), v3(1.0, 1.0, 1.0), v3(0.0, 0.0, 0.0));
    }
    let mut c = ObjectCounts { shape_count: 0, sphere_count: 0, cube_count: 0 };
    m.update_shader_config(&mut c);
    assert_eq!(m.serialize_spheres().len(), 16 * c.sphere_count as usize);
    assert_eq!(m.serialize_cubes().len(), 48 * c.cube_count as usize);
    let boxes = vec![v4(0.0, 0.0, 0.0, 0.0); c.shape_count as usize];
    assert_eq!(m.serialize_shapes(&boxes).len(), 48 * c.shape_count as usize);
}
