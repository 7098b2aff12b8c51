//! The GPU-facing uniform block and its byte layout.
//!
//! The shader reads one uniform block: a 4-component position, the inverse
//! of the current rotation as a column-major 4x4 matrix of 32-bit floats,
//! and a trailing world-size word. Float values pass through this module
//! only as their 32-bit bit patterns, held in plain `u32` words, so the
//! layout — 80 bytes of camera record, 4 bytes of world size, little-endian
//! throughout, no interior padding — is pinned down byte by byte. Because
//! the rotation is orthonormal its inverse is its transpose, and transposing
//! bit patterns is exact.

use vstd::prelude::*;

verus! {

/// A 4-component vector of 32-bit float bit patterns.
#[derive(Clone, Copy, PartialEq, Eq, Structural, Debug)]
pub struct Vec4Bits {
    pub x: u32,
    pub y: u32,
    pub z: u32,
    pub w: u32,
}

/// A 4x4 matrix of 32-bit float bit patterns, row-major field names:
/// `m02` is row 0, column 2.
#[derive(Clone, Copy, PartialEq, Eq, Structural, Debug)]
pub struct MatBits {
    pub m00: u32, pub m01: u32, pub m02: u32, pub m03: u32,
    pub m10: u32, pub m11: u32, pub m12: u32, pub m13: u32,
    pub m20: u32, pub m21: u32, pub m22: u32, pub m23: u32,
    pub m30: u32, pub m31: u32, pub m32: u32, pub m33: u32,
}

pub open spec fn bits_transpose(m: MatBits) -> MatBits {
    MatBits {
        m00: m.m00, m01: m.m10, m02: m.m20, m03: m.m30,
        m10: m.m01, m11: m.m11, m12: m.m21, m13: m.m31,
        m20: m.m02, m21: m.m12, m22: m.m22, m23: m.m32,
        m30: m.m03, m31: m.m13, m32: m.m23, m33: m.m33,
    }
}

/// The all-zero bit patterns, the bit form of a zeroed float record.
pub open spec fn camera_zeroed() -> CameraInternal {
    CameraInternal {
        position: Vec4Bits { x: 0, y: 0, z: 0, w: 0 },
        inv_rotation: MatBits {
            m00: 0, m01: 0, m02: 0, m03: 0,
            m10: 0, m11: 0, m12: 0, m13: 0,
            m20: 0, m21: 0, m22: 0, m23: 0,
            m30: 0, m31: 0, m32: 0, m33: 0,
        },
    }
}

/// The GPU-facing camera record: the fixed 4D camera position followed by
/// the inverse of the current rotation.
#[derive(Clone, Copy, PartialEq, Eq, Structural, Debug)]
pub struct CameraInternal {
    pub position: Vec4Bits,
    pub inv_rotation: MatBits,
}

/// The whole uniform block: the camera record, then the world-size word
/// that trails it in the same buffer and must ride along unclobbered.
#[derive(Clone, Copy, PartialEq, Eq, Structural, Debug)]
pub struct Uniforms {
    pub camera: CameraInternal,
    pub world_size: u32,
}

/// The 20 words of the camera record in upload order: the position, then
/// the inverse rotation column by column.
pub open spec fn camera_words(c: CameraInternal) -> Seq<u32> {
    seq![
        c.position.x, c.position.y, c.position.z, c.position.w,
        c.inv_rotation.m00, c.inv_rotation.m10, c.inv_rotation.m20, c.inv_rotation.m30,
        c.inv_rotation.m01, c.inv_rotation.m11, c.inv_rotation.m21, c.inv_rotation.m31,
        c.inv_rotation.m02, c.inv_rotation.m12, c.inv_rotation.m22, c.inv_rotation.m32,
        c.inv_rotation.m03, c.inv_rotation.m13, c.inv_rotation.m23, c.inv_rotation.m33,
    ]
}

/// The 21 words of the whole uniform block.
pub open spec fn uniform_words(u: Uniforms) -> Seq<u32> {
    camera_words(u.camera).push(u.world_size)
}

/// Byte `j` of word `w`, little-endian.
pub open spec fn word_byte(w: u32, j: int) -> u8
    recommends
        0 <= j < 4,
{
    if j == 0 {
        (w % 0x100) as u8
    } else if j == 1 {
        ((w / 0x100) % 0x100) as u8
    } else if j == 2 {
        ((w / 0x1_0000) % 0x100) as u8
    } else {
        ((w / 0x100_0000) % 0x100) as u8
    }
}

/// The little-endian byte stream of a word sequence.
pub open spec fn le_bytes_of_words(ws: Seq<u32>) -> Seq<u8> {
    Seq::new(ws.len() * 4, |i: int| word_byte(ws[i / 4], i % 4))
}

/// The word read back from four bytes, little-endian.
pub open spec fn word_of_le_bytes(b0: u8, b1: u8, b2: u8, b3: u8) -> u32 {
    (b0 + b1 * 0x100 + b2 * 0x1_0000 + b3 * 0x100_0000) as u32
}

/// Packing then reading is the identity: the four little-endian bytes that
/// the byte stream holds for word `i` read back as exactly that word, so
/// what the GPU sees is what the record held.
pub proof fn lemma_le_round_trip(ws: Seq<u32>, i: int)
    requires
        0 <= i < ws.len(),
    ensures
        word_of_le_bytes(
            le_bytes_of_words(ws)[4 * i],
            le_bytes_of_words(ws)[4 * i + 1],
            le_bytes_of_words(ws)[4 * i + 2],
            le_bytes_of_words(ws)[4 * i + 3],
        ) == ws[i],
{
    let w = ws[i];
    assert(le_bytes_of_words(ws)[4 * i] == word_byte(w, 0));
    assert(le_bytes_of_words(ws)[4 * i + 1] == word_byte(w, 1));
    assert(le_bytes_of_words(ws)[4 * i + 2] == word_byte(w, 2));
    assert(le_bytes_of_words(ws)[4 * i + 3] == word_byte(w, 3));
    assert(w % 0x100 + ((w / 0x100) % 0x100) * 0x100 + ((w / 0x1_0000) % 0x100) * 0x1_0000
        + ((w / 0x100_0000) % 0x100) * 0x100_0000 == w) by (bit_vector);
}

/// Appends the four little-endian bytes of `w`.
fn push_word_le(out: &mut Vec<u8>, w: u32)
    ensures
        final(out)@ == old(out)@ + seq![
            word_byte(w, 0), word_byte(w, 1), word_byte(w, 2), word_byte(w, 3),
        ],
{
    out.push((w % 0x100) as u8);
    out.push(((w / 0x100) % 0x100) as u8);
    out.push(((w / 0x1_0000) % 0x100) as u8);
    out.push(((w / 0x100_0000) % 0x100) as u8);
    proof {
        assert(out@ =~= old(out)@ + seq![
            word_byte(w, 0), word_byte(w, 1), word_byte(w, 2), word_byte(w, 3),
        ]);
    }
}

/// The little-endian byte stream of a word list.
pub fn words_to_le_bytes(ws: &Vec<u32>) -> (r: Vec<u8>)
    requires
        4 * ws@.len() <= usize::MAX,
    ensures
        r@ == le_bytes_of_words(ws@),
{
    let mut out: Vec<u8> = Vec::new();
    let mut i: usize = 0;
    while i < ws.len()
        invariant
            i <= ws@.len(),
            out@.len() == 4 * i,
            forall|k: int| 0 <= k < out@.len() ==> out@[k] == word_byte(ws@[k / 4], k % 4),
        decreases ws@.len() - i,
    {
        push_word_le(&mut out, ws[i]);
        i += 1;
    }
    proof {
        assert(out@ =~= le_bytes_of_words(ws@));
    }
    out
}

impl CameraInternal {
    /// The record for a rotation: the inverse of an orthonormal rotation is
    /// its transpose, so the stored inverse is exactly the transposed bit
    /// pattern — no general inversion, no rounding.
    pub fn new(position: Vec4Bits, rotation: MatBits) -> (r: CameraInternal)
        ensures
            r.position == position,
            r.inv_rotation == bits_transpose(rotation),
    {
        CameraInternal {
            position,
            inv_rotation: MatBits {
                m00: rotation.m00, m01: rotation.m10, m02: rotation.m20, m03: rotation.m30,
                m10: rotation.m01, m11: rotation.m11, m12: rotation.m21, m13: rotation.m31,
                m20: rotation.m02, m21: rotation.m12, m22: rotation.m22, m23: rotation.m32,
                m30: rotation.m03, m31: rotation.m13, m32: rotation.m23, m33: rotation.m33,
            },
        }
    }

    /// The 80-byte image of the record: position then inverse rotation,
    /// column-major, little-endian, no interior padding.
    pub fn to_bytes(&self) -> (r: Vec<u8>)
        ensures
            r@ == le_bytes_of_words(camera_words(*self)),
            r@.len() == 80,
    {
        let ws = self.words();
        words_to_le_bytes(&ws)
    }

    /// The 20 words of the record in upload order.
    fn words(&self) -> (ws: Vec<u32>)
        ensures
            ws@ == camera_words(*self),
    {
        let mut ws: Vec<u32> = Vec::new();
        ws.push(self.position.x);
        ws.push(self.position.y);
        ws.push(self.position.z);
        ws.push(self.position.w);
        ws.push(self.inv_rotation.m00);
        ws.push(self.inv_rotation.m10);
        ws.push(self.inv_rotation.m20);
        ws.push(self.inv_rotation.m30);
        ws.push(self.inv_rotation.m01);
        ws.push(self.inv_rotation.m11);
        ws.push(self.inv_rotation.m21);
        ws.push(self.inv_rotation.m31);
        ws.push(self.inv_rotation.m02);
        ws.push(self.inv_rotation.m12);
        ws.push(self.inv_rotation.m22);
        ws.push(self.inv_rotation.m32);
        ws.push(self.inv_rotation.m03);
        ws.push(self.inv_rotation.m13);
        ws.push(self.inv_rotation.m23);
        ws.push(self.inv_rotation.m33);
        proof {
            assert(ws@ =~= camera_words(*self));
        }
        ws
    }
}

impl Uniforms {
    /// The 84-byte image of the whole block: the camera record's 80 bytes,
    /// then the world-size word. Uploading the whole block rewrites the
    /// trailing world size with the value carried here, so the field it
    /// occupies is preserved rather than clobbered.
    pub fn to_bytes(&self) -> (r: Vec<u8>)
        ensures
            r@ == le_bytes_of_words(uniform_words(*self)),
            r@.len() == 84,
    {
        let mut ws = self.camera.words();
        ws.push(self.world_size);
        proof {
            assert(ws@ =~= uniform_words(*self));
        }
        words_to_le_bytes(&ws)
    }
}

/// The startup value of the uniform block: a zeroed camera record, and the
/// world size padded by the one-cell empty border on each side of the voxel
/// volume.
pub fn init_uniforms(world_size: u32) -> (u: Uniforms)
    requires
        world_size + 2 <= u32::MAX,
    ensures
        u.camera == camera_zeroed(),
        u.world_size == world_size + 2,
{
    Uniforms {
        camera: CameraInternal {
            position: Vec4Bits { x: 0, y: 0, z: 0, w: 0 },
            inv_rotation: MatBits {
                m00: 0, m01: 0, m02: 0, m03: 0,
                m10: 0, m11: 0, m12: 0, m13: 0,
                m20: 0, m21: 0, m22: 0, m23: 0,
                m30: 0, m31: 0, m32: 0, m33: 0,
            },
        },
        world_size: world_size + 2,
    }
}

/// The per-tick upload decision: the full byte image of the block when its
/// value changed since the last upload, nothing otherwise, so an idle
/// camera costs no redundant transfer.
pub fn update_uniform_buffer(last: &Uniforms, current: &Uniforms) -> (r: Option<Vec<u8>>)
    ensures
        (*last == *current) ==> r is None,
        (*last != *current) ==> (r matches Some(b)
            && b@ == le_bytes_of_words(uniform_words(*current))),
{
    if last == current {
        None
    } else {
        Some(current.to_bytes())
    }
}

/// Little-endian 32-bit words read out of a raw byte stream, as packed
/// shader binaries are loaded word by word.
pub fn to_u32_array(x: &[u8]) -> (r: Vec<u32>)
    requires
        x@.len() % 4 == 0,
    ensures
        r@.len() == x@.len() / 4,
        forall|i: int| 0 <= i < r@.len() ==> r@[i] == word_of_le_bytes(
            x@[4 * i], x@[4 * i + 1], x@[4 * i + 2], x@[4 * i + 3],
        ),
{
    let n = x.len() / 4;
    let mut r: Vec<u32> = Vec::new();
    let mut i: usize = 0;
    while i < n
        invariant
            x@.len() % 4 == 0,
            x@.len() <= usize::MAX,
            n == x@.len() / 4,
            i <= n,
            r@.len() == i,
            forall|k: int| 0 <= k < r@.len() ==> r@[k] == word_of_le_bytes(
                x@[4 * k], x@[4 * k + 1], x@[4 * k + 2], x@[4 * k + 3],
            ),
        decreases n - i,
    {
        proof {
            vstd::arithmetic::div_mod::lemma_fundamental_div_mod(x@.len() as int, 4);
            assert(4 * i + 3 < x@.len());
        }
        let b0 = x[4 * i];
        let b1 = x[4 * i + 1];
        let b2 = x[4 * i + 2];
        let b3 = x[4 * i + 3];
        let w = (b0 as u32) + (b1 as u32) * 0x100 + (b2 as u32) * 0x1_0000
            + (b3 as u32) * 0x100_0000;
        r.push(w);
        i += 1;
    }
    r
}

} // verus!
