use render_4d::rotation::{sweep_entries, Generator, SWEEP_ONE};
use render_4d::uniform::{
    init_uniforms, to_u32_array, update_uniform_buffer, words_to_le_bytes, CameraInternal,
    MatBits, Uniforms, Vec4Bits,
};

fn mat_bits(rows: [[f32; 4]; 4]) -> MatBits {
    MatBits {
        m00: rows[0][0].to_bits(), m01: rows[0][1].to_bits(),
        m02: rows[0][2].to_bits(), m03: rows[0][3].to_bits(),
        m10: rows[1][0].to_bits(), m11: rows[1][1].to_bits(),
        m12: rows[1][2].to_bits(), m13: rows[1][3].to_bits(),
        m20: rows[2][0].to_bits(), m21: rows[2][1].to_bits(),
        m22: rows[2][2].to_bits(), m23: rows[2][3].to_bits(),
        m30: rows[3][0].to_bits(), m31: rows[3][1].to_bits(),
        m32: rows[3][2].to_bits(), m33: rows[3][3].to_bits(),
    }
}

fn rows_of(m: &MatBits) -> [[f32; 4]; 4] {
    [
        [f32::from_bits(m.m00), f32::from_bits(m.m01), f32::from_bits(m.m02), f32::from_bits(m.m03)],
        [f32::from_bits(m.m10), f32::from_bits(m.m11), f32::from_bits(m.m12), f32::from_bits(m.m13)],
        [f32::from_bits(m.m20), f32::from_bits(m.m21), f32::from_bits(m.m22), f32::from_bits(m.m23)],
        [f32::from_bits(m.m30), f32::from_bits(m.m31), f32::from_bits(m.m32), f32::from_bits(m.m33)],
    ]
}

fn position(x: f32, y: f32, z: f32, w: f32) -> Vec4Bits {
    Vec4Bits { x: x.to_bits(), y: y.to_bits(), z: z.to_bits(), w: w.to_bits() }
}

/// A mid-sweep rotation as f32 rows, for exercising the record.
fn sample_rotation(fraction: f32) -> [[f32; 4]; 4] {
    let angle = fraction * std::f32::consts::FRAC_PI_2;
    let c = (angle.cos() as f64 * SWEEP_ONE as f64).round() as i64;
    let s = (angle.sin() as f64 * SWEEP_ONE as f64).round() as i64;
    let m = sweep_entries(Generator::R1, c, s);
    let u = SWEEP_ONE as f32;
    [
        [m.m00 as f32 / u, m.m01 as f32 / u, m.m02 as f32 / u, m.m03 as f32 / u],
        [m.m10 as f32 / u, m.m11 as f32 / u, m.m12 as f32 / u, m.m13 as f32 / u],
        [m.m20 as f32 / u, m.m21 as f32 / u, m.m22 as f32 / u, m.m23 as f32 / u],
        [m.m30 as f32 / u, m.m31 as f32 / u, m.m32 as f32 / u, m.m33 as f32 / u],
    ]
}

#[test]
fn record_stores_the_transpose_as_the_inverse() {
    let rot = mat_bits(sample_rotation(0.4));
    let rec = CameraInternal::new(position(0.0, 0.0, 0.0, 0.0), rot);
    assert_eq!(rec.inv_rotation.m01, rot.m10);
    assert_eq!(rec.inv_rotation.m10, rot.m01);
    assert_eq!(rec.inv_rotation.m23, rot.m32);
    assert_eq!(rec.inv_rotation.m30, rot.m03);
    assert_eq!(rec.inv_rotation.m00, rot.m00);
}

#[test]
fn rotation_times_stored_inverse_is_identity_within_tolerance() {
    let rows = sample_rotation(0.7);
    let rec = CameraInternal::new(position(1.0, 2.0, 3.0, 4.0), mat_bits(rows));
    let inv = rows_of(&rec.inv_rotation);
    for r in 0..4 {
        for c in 0..4 {
            let mut sum = 0.0f32;
            for k in 0..4 {
                sum += rows[r][k] * inv[k][c];
            }
            let expected = if r == c { 1.0 } else { 0.0 };
            assert!((sum - expected).abs() < 1e-5);
        }
    }
}

#[test]
fn camera_record_bytes_are_80_position_first_column_major() {
    let rot = mat_bits([
        [1.0, 2.0, 3.0, 4.0],
        [5.0, 6.0, 7.0, 8.0],
        [9.0, 10.0, 11.0, 12.0],
        [13.0, 14.0, 15.0, 16.0],
    ]);
    let rec = CameraInternal::new(position(-1.0, 0.5, 2.0, 8.0), rot);
    let bytes = rec.to_bytes();
    assert_eq!(bytes.len(), 80);
    assert_eq!(&bytes[0..4], &(-1.0f32).to_bits().to_le_bytes());
    assert_eq!(&bytes[4..8], &0.5f32.to_bits().to_le_bytes());
    // The stored matrix is the transpose of `rot`, serialized column by
    // column, so its first column is the first column of `rot` transposed —
    // that is, the first row of `rot`.
    assert_eq!(&bytes[16..20], &1.0f32.to_bits().to_le_bytes());
    assert_eq!(&bytes[20..24], &2.0f32.to_bits().to_le_bytes());
    assert_eq!(&bytes[24..28], &3.0f32.to_bits().to_le_bytes());
    assert_eq!(&bytes[28..32], &4.0f32.to_bits().to_le_bytes());
    // Second column of the stored inverse: the second row of `rot`.
    assert_eq!(&bytes[32..36], &5.0f32.to_bits().to_le_bytes());
    // Last word: the bottom-right entry.
    assert_eq!(&bytes[76..80], &16.0f32.to_bits().to_le_bytes());
}

#[test]
fn uniform_bytes_append_the_world_size() {
    let rec = CameraInternal::new(position(0.0, 0.0, 0.0, 0.0), mat_bits([[0.0; 4]; 4]));
    let u = Uniforms { camera: rec, world_size: 0x0102_0304 };
    let bytes = u.to_bytes();
    assert_eq!(bytes.len(), 84);
    assert_eq!(&bytes[80..84], &[0x04, 0x03, 0x02, 0x01]);
}

#[test]
fn init_uniforms_zeroes_the_camera_and_pads_the_world_size() {
    let u = init_uniforms(88);
    assert_eq!(u.world_size, 90);
    assert_eq!(u.camera.position.x, 0);
    assert_eq!(u.camera.inv_rotation.m33, 0);
}

#[test]
fn upload_only_when_the_block_changed() {
    let base = init_uniforms(88);
    let same = init_uniforms(88);
    assert!(update_uniform_buffer(&base, &same).is_none());

    let mut moved = base;
    moved.camera.position.x = 1.5f32.to_bits();
    let bytes = update_uniform_buffer(&base, &moved).expect("a changed block must upload");
    assert_eq!(bytes, moved.to_bytes());
}

#[test]
fn words_read_back_from_little_endian_bytes() {
    let bytes = vec![0x78, 0x56, 0x34, 0x12, 0xff, 0x00, 0x00, 0x80];
    let words = to_u32_array(&bytes);
    assert_eq!(words, vec![0x1234_5678, 0x8000_00ff]);
}

#[test]
fn byte_packing_and_word_reading_round_trip() {
    let words = vec![0, 1, 0xdead_beef, u32::MAX, 7.25f32.to_bits()];
    let bytes = words_to_le_bytes(&words);
    assert_eq!(bytes.len(), 20);
    assert_eq!(to_u32_array(&bytes), words);
}
