//! Exact 4D rotation matrices and the quarter-turn double-rotation sweeps.
//!
//! A 4D orientation is a 4x4 orthonormal matrix with determinant +1. The
//! orientations this camera can commit to are exact: the fixed starting
//! orientation and the endpoints of four quarter-turn sweeps are signed
//! permutation matrices, so `Mat4` carries plain `i64` entries. A sweep at an
//! intermediate angle is assembled from a fixed-point cosine/sine sample
//! `(c, s)` handed in by the caller; the matrix layout — which entry holds
//! `c`, `s`, `-s` or `0` — is what this module pins down and proves about.

use vstd::prelude::*;

verus! {

/// Fixed-point unit for cosine/sine samples: a sample of 1.0 is `SWEEP_ONE`.
pub const SWEEP_ONE: i64 = 0x100_0000;

/// Largest entry magnitude accepted by the matrix operations; chosen so a
/// four-term dot product of bounded entries cannot overflow an `i64`.
pub const ENTRY_BOUND: i64 = 0x4000_0000;

/// A 4x4 matrix with exact integer entries, row-major field names:
/// `m02` is row 0, column 2.
#[derive(Clone, Copy, PartialEq, Eq, Structural, Debug)]
#[verifier::ext_equal]
pub struct Mat4 {
    pub m00: i64, pub m01: i64, pub m02: i64, pub m03: i64,
    pub m10: i64, pub m11: i64, pub m12: i64, pub m13: i64,
    pub m20: i64, pub m21: i64, pub m22: i64, pub m23: i64,
    pub m30: i64, pub m31: i64, pub m32: i64, pub m33: i64,
}

/// The four quarter-turn generators: two canonical double rotations and
/// their inverse sweeps.
#[derive(Clone, Copy, PartialEq, Eq, Structural, Debug)]
pub enum Generator {
    /// Forward double rotation in the (x,w) and (y,z) planes.
    R1,
    /// Forward double rotation in the (x,y) and (z,w) planes.
    R2,
    /// The (x,w)/(y,z) sweep run in the opposite angular direction.
    R1Inv,
    /// The (x,y)/(z,w) sweep run in the opposite angular direction.
    R2Inv,
}

pub open spec fn mat_identity() -> Mat4 {
    Mat4 {
        m00: 1, m01: 0, m02: 0, m03: 0,
        m10: 0, m11: 1, m12: 0, m13: 0,
        m20: 0, m21: 0, m22: 1, m23: 0,
        m30: 0, m31: 0, m32: 0, m33: 1,
    }
}

/// The diagonal matrix with `d` at every diagonal entry.
pub open spec fn mat_diag(d: i64) -> Mat4 {
    Mat4 {
        m00: d, m01: 0, m02: 0, m03: 0,
        m10: 0, m11: d, m12: 0, m13: 0,
        m20: 0, m21: 0, m22: d, m23: 0,
        m30: 0, m31: 0, m32: 0, m33: d,
    }
}

pub open spec fn mat_transpose(m: Mat4) -> Mat4 {
    Mat4 {
        m00: m.m00, m01: m.m10, m02: m.m20, m03: m.m30,
        m10: m.m01, m11: m.m11, m12: m.m21, m13: m.m31,
        m20: m.m02, m21: m.m12, m22: m.m22, m23: m.m32,
        m30: m.m03, m31: m.m13, m32: m.m23, m33: m.m33,
    }
}

/// Every entry of `m` lies in `[-b, b]`.
pub open spec fn entries_bounded(m: Mat4, b: int) -> bool {
    &&& -b <= m.m00 <= b && -b <= m.m01 <= b && -b <= m.m02 <= b && -b <= m.m03 <= b
    &&& -b <= m.m10 <= b && -b <= m.m11 <= b && -b <= m.m12 <= b && -b <= m.m13 <= b
    &&& -b <= m.m20 <= b && -b <= m.m21 <= b && -b <= m.m22 <= b && -b <= m.m23 <= b
    &&& -b <= m.m30 <= b && -b <= m.m31 <= b && -b <= m.m32 <= b && -b <= m.m33 <= b
}

/// The matrix product, each entry truncated into `i64`; exact whenever the
/// mathematical entries stay within `i64`, which `entries_bounded` at
/// `ENTRY_BOUND` guarantees.
pub open spec fn mat_mul(a: Mat4, b: Mat4) -> Mat4 {
    Mat4 {
        m00: (a.m00 * b.m00 + a.m01 * b.m10 + a.m02 * b.m20 + a.m03 * b.m30) as i64,
        m01: (a.m00 * b.m01 + a.m01 * b.m11 + a.m02 * b.m21 + a.m03 * b.m31) as i64,
        m02: (a.m00 * b.m02 + a.m01 * b.m12 + a.m02 * b.m22 + a.m03 * b.m32) as i64,
        m03: (a.m00 * b.m03 + a.m01 * b.m13 + a.m02 * b.m23 + a.m03 * b.m33) as i64,
        m10: (a.m10 * b.m00 + a.m11 * b.m10 + a.m12 * b.m20 + a.m13 * b.m30) as i64,
        m11: (a.m10 * b.m01 + a.m11 * b.m11 + a.m12 * b.m21 + a.m13 * b.m31) as i64,
        m12: (a.m10 * b.m02 + a.m11 * b.m12 + a.m12 * b.m22 + a.m13 * b.m32) as i64,
        m13: (a.m10 * b.m03 + a.m11 * b.m13 + a.m12 * b.m23 + a.m13 * b.m33) as i64,
        m20: (a.m20 * b.m00 + a.m21 * b.m10 + a.m22 * b.m20 + a.m23 * b.m30) as i64,
        m21: (a.m20 * b.m01 + a.m21 * b.m11 + a.m22 * b.m21 + a.m23 * b.m31) as i64,
        m22: (a.m20 * b.m02 + a.m21 * b.m12 + a.m22 * b.m22 + a.m23 * b.m32) as i64,
        m23: (a.m20 * b.m03 + a.m21 * b.m13 + a.m22 * b.m23 + a.m23 * b.m33) as i64,
        m30: (a.m30 * b.m00 + a.m31 * b.m10 + a.m32 * b.m20 + a.m33 * b.m30) as i64,
        m31: (a.m30 * b.m01 + a.m31 * b.m11 + a.m32 * b.m21 + a.m33 * b.m31) as i64,
        m32: (a.m30 * b.m02 + a.m31 * b.m12 + a.m32 * b.m22 + a.m33 * b.m32) as i64,
        m33: (a.m30 * b.m03 + a.m31 * b.m13 + a.m32 * b.m23 + a.m33 * b.m33) as i64,
    }
}

/// Determinant (cofactor expansion along the first row), as an exact integer.
pub open spec fn mat_det(m: Mat4) -> int {
    m.m00 * (m.m11 * (m.m22 * m.m33 - m.m23 * m.m32)
        - m.m12 * (m.m21 * m.m33 - m.m23 * m.m31)
        + m.m13 * (m.m21 * m.m32 - m.m22 * m.m31))
    - m.m01 * (m.m10 * (m.m22 * m.m33 - m.m23 * m.m32)
        - m.m12 * (m.m20 * m.m33 - m.m23 * m.m30)
        + m.m13 * (m.m20 * m.m32 - m.m22 * m.m30))
    + m.m02 * (m.m10 * (m.m21 * m.m33 - m.m23 * m.m31)
        - m.m11 * (m.m20 * m.m33 - m.m23 * m.m30)
        + m.m13 * (m.m20 * m.m31 - m.m21 * m.m30))
    - m.m03 * (m.m10 * (m.m21 * m.m32 - m.m22 * m.m31)
        - m.m11 * (m.m20 * m.m32 - m.m22 * m.m30)
        + m.m12 * (m.m20 * m.m31 - m.m21 * m.m30))
}

/// An element of the 4D proper rotation group over exact entries:
/// orthonormal (the transpose is the inverse) and of determinant +1.
pub open spec fn is_rotation(m: Mat4) -> bool {
    mat_mul(m, mat_transpose(m)) == mat_identity() && mat_det(m) == 1
}

/// The fixed starting orientation: a signed basis permutation (determinant
/// +1) chosen so the initial 3D slice faces a sensible default direction.
pub open spec fn initial_rotation_spec() -> Mat4 {
    Mat4 {
        m00: 0, m01: 1, m02: 0, m03: 0,
        m10: 0, m11: 0, m12: 0, m13: 1,
        m20: 1, m21: 0, m22: 0, m23: 0,
        m30: 0, m31: 0, m32: (-1) as i64, m33: 0,
    }
}

/// The double rotation sweeping the (x,w) and (y,z) planes together, at a
/// cosine/sine sample `(c, s)` of the swept angle.
pub open spec fn double_rotation_a(c: i64, s: i64) -> Mat4 {
    Mat4 {
        m00: c, m01: 0, m02: 0, m03: (-s) as i64,
        m10: 0, m11: c, m12: (-s) as i64, m13: 0,
        m20: 0, m21: s, m22: c, m23: 0,
        m30: s, m31: 0, m32: 0, m33: c,
    }
}

/// The double rotation sweeping the (x,y) and (z,w) planes together, at a
/// cosine/sine sample `(c, s)` of the swept angle.
pub open spec fn double_rotation_b(c: i64, s: i64) -> Mat4 {
    Mat4 {
        m00: c, m01: (-s) as i64, m02: 0, m03: 0,
        m10: s, m11: c, m12: 0, m13: 0,
        m20: 0, m21: 0, m22: c, m23: (-s) as i64,
        m30: 0, m31: 0, m32: s, m33: c,
    }
}

/// The sweep matrix of a generator at a cosine/sine sample `(c, s)`; an
/// inverse generator sweeps the same planes with the angle negated, which
/// keeps the cosine and negates the sine.
pub open spec fn sweep_spec(g: Generator, c: i64, s: i64) -> Mat4 {
    match g {
        Generator::R1 => double_rotation_a(c, s),
        Generator::R2 => double_rotation_b(c, s),
        Generator::R1Inv => double_rotation_a(c, (-s) as i64),
        Generator::R2Inv => double_rotation_b(c, (-s) as i64),
    }
}

/// The exact quarter-turn endpoint of a generator: its sweep at a right
/// angle, whose cosine/sine sample is `(0, 1)`.
pub open spec fn quarter_spec(g: Generator) -> Mat4 {
    sweep_spec(g, 0, 1)
}

/// The generator that sweeps the same planes in the opposite direction.
pub open spec fn gen_inverse(g: Generator) -> Generator {
    match g {
        Generator::R1 => Generator::R1Inv,
        Generator::R2 => Generator::R2Inv,
        Generator::R1Inv => Generator::R1,
        Generator::R2Inv => Generator::R2,
    }
}

impl Mat4 {
    /// The identity matrix.
    pub fn identity() -> (r: Mat4)
        ensures
            r == mat_identity(),
    {
        Mat4 {
            m00: 1, m01: 0, m02: 0, m03: 0,
            m10: 0, m11: 1, m12: 0, m13: 0,
            m20: 0, m21: 0, m22: 1, m23: 0,
            m30: 0, m31: 0, m32: 0, m33: 1,
        }
    }

    pub fn transpose(&self) -> (r: Mat4)
        ensures
            r == mat_transpose(*self),
    {
        Mat4 {
            m00: self.m00, m01: self.m10, m02: self.m20, m03: self.m30,
            m10: self.m01, m11: self.m11, m12: self.m21, m13: self.m31,
            m20: self.m02, m21: self.m12, m22: self.m22, m23: self.m32,
            m30: self.m03, m31: self.m13, m32: self.m23, m33: self.m33,
        }
    }

    /// The matrix product `self * other`, exact under the entry bound.
    pub fn compose(&self, other: &Mat4) -> (r: Mat4)
        requires
            entries_bounded(*self, ENTRY_BOUND as int),
            entries_bounded(*other, ENTRY_BOUND as int),
        ensures
            r == mat_mul(*self, *other),
    {
        Mat4 {
            m00: dot4(self.m00, self.m01, self.m02, self.m03, other.m00, other.m10, other.m20, other.m30),
            m01: dot4(self.m00, self.m01, self.m02, self.m03, other.m01, other.m11, other.m21, other.m31),
            m02: dot4(self.m00, self.m01, self.m02, self.m03, other.m02, other.m12, other.m22, other.m32),
            m03: dot4(self.m00, self.m01, self.m02, self.m03, other.m03, other.m13, other.m23, other.m33),
            m10: dot4(self.m10, self.m11, self.m12, self.m13, other.m00, other.m10, other.m20, other.m30),
            m11: dot4(self.m10, self.m11, self.m12, self.m13, other.m01, other.m11, other.m21, other.m31),
            m12: dot4(self.m10, self.m11, self.m12, self.m13, other.m02, other.m12, other.m22, other.m32),
            m13: dot4(self.m10, self.m11, self.m12, self.m13, other.m03, other.m13, other.m23, other.m33),
            m20: dot4(self.m20, self.m21, self.m22, self.m23, other.m00, other.m10, other.m20, other.m30),
            m21: dot4(self.m20, self.m21, self.m22, self.m23, other.m01, other.m11, other.m21, other.m31),
            m22: dot4(self.m20, self.m21, self.m22, self.m23, other.m02, other.m12, other.m22, other.m32),
            m23: dot4(self.m20, self.m21, self.m22, self.m23, other.m03, other.m13, other.m23, other.m33),
            m30: dot4(self.m30, self.m31, self.m32, self.m33, other.m00, other.m10, other.m20, other.m30),
            m31: dot4(self.m30, self.m31, self.m32, self.m33, other.m01, other.m11, other.m21, other.m31),
            m32: dot4(self.m30, self.m31, self.m32, self.m33, other.m02, other.m12, other.m22, other.m32),
            m33: dot4(self.m30, self.m31, self.m32, self.m33, other.m03, other.m13, other.m23, other.m33),
        }
    }
}

/// Four-term dot product of entries bounded by `ENTRY_BOUND`; the bound keeps
/// every partial sum within `i64`.
fn dot4(a0: i64, a1: i64, a2: i64, a3: i64, b0: i64, b1: i64, b2: i64, b3: i64) -> (r: i64)
    requires
        -ENTRY_BOUND <= a0 <= ENTRY_BOUND,
        -ENTRY_BOUND <= a1 <= ENTRY_BOUND,
        -ENTRY_BOUND <= a2 <= ENTRY_BOUND,
        -ENTRY_BOUND <= a3 <= ENTRY_BOUND,
        -ENTRY_BOUND <= b0 <= ENTRY_BOUND,
        -ENTRY_BOUND <= b1 <= ENTRY_BOUND,
        -ENTRY_BOUND <= b2 <= ENTRY_BOUND,
        -ENTRY_BOUND <= b3 <= ENTRY_BOUND,
    ensures
        r == a0 * b0 + a1 * b1 + a2 * b2 + a3 * b3,
{
    proof {
        assert(-0x1000_0000_0000_0000 <= a0 * b0 <= 0x1000_0000_0000_0000) by (nonlinear_arith)
            requires
                -0x4000_0000 <= a0 <= 0x4000_0000,
                -0x4000_0000 <= b0 <= 0x4000_0000;
        assert(-0x1000_0000_0000_0000 <= a1 * b1 <= 0x1000_0000_0000_0000) by (nonlinear_arith)
            requires
                -0x4000_0000 <= a1 <= 0x4000_0000,
                -0x4000_0000 <= b1 <= 0x4000_0000;
        assert(-0x1000_0000_0000_0000 <= a2 * b2 <= 0x1000_0000_0000_0000) by (nonlinear_arith)
            requires
                -0x4000_0000 <= a2 <= 0x4000_0000,
                -0x4000_0000 <= b2 <= 0x4000_0000;
        assert(-0x1000_0000_0000_0000 <= a3 * b3 <= 0x1000_0000_0000_0000) by (nonlinear_arith)
            requires
                -0x4000_0000 <= a3 <= 0x4000_0000,
                -0x4000_0000 <= b3 <= 0x4000_0000;
    }
    a0 * b0 + a1 * b1 + a2 * b2 + a3 * b3
}

/// The fixed starting orientation, an exact proper rotation.
pub fn initial_rotation() -> (r: Mat4)
    ensures
        r == initial_rotation_spec(),
        is_rotation(r),
{
    proof {
        assert(mat_mul(initial_rotation_spec(), mat_transpose(initial_rotation_spec()))
            =~= mat_identity()) by (nonlinear_arith);
        assert(mat_det(initial_rotation_spec()) == 1) by (nonlinear_arith);
    }
    Mat4 {
        m00: 0, m01: 1, m02: 0, m03: 0,
        m10: 0, m11: 0, m12: 0, m13: 1,
        m20: 1, m21: 0, m22: 0, m23: 0,
        m30: 0, m31: 0, m32: -1, m33: 0,
    }
}

/// The sweep matrix of `g` at a fixed-point cosine/sine sample `(c, s)`;
/// the caller samples `c = cos(angle) * SWEEP_ONE`, `s = sin(angle) *
/// SWEEP_ONE` for the angle the animation has reached.
pub fn sweep_entries(g: Generator, c: i64, s: i64) -> (r: Mat4)
    requires
        -ENTRY_BOUND <= c <= ENTRY_BOUND,
        -ENTRY_BOUND <= s <= ENTRY_BOUND,
    ensures
        r == sweep_spec(g, c, s),
{
    match g {
        Generator::R1 => Mat4 {
            m00: c, m01: 0, m02: 0, m03: -s,
            m10: 0, m11: c, m12: -s, m13: 0,
            m20: 0, m21: s, m22: c, m23: 0,
            m30: s, m31: 0, m32: 0, m33: c,
        },
        Generator::R2 => Mat4 {
            m00: c, m01: -s, m02: 0, m03: 0,
            m10: s, m11: c, m12: 0, m13: 0,
            m20: 0, m21: 0, m22: c, m23: -s,
            m30: 0, m31: 0, m32: s, m33: c,
        },
        Generator::R1Inv => Mat4 {
            m00: c, m01: 0, m02: 0, m03: s,
            m10: 0, m11: c, m12: s, m13: 0,
            m20: 0, m21: -s, m22: c, m23: 0,
            m30: -s, m31: 0, m32: 0, m33: c,
        },
        Generator::R2Inv => Mat4 {
            m00: c, m01: s, m02: 0, m03: 0,
            m10: -s, m11: c, m12: 0, m13: 0,
            m20: 0, m21: 0, m22: c, m23: s,
            m30: 0, m31: 0, m32: -s, m33: c,
        },
    }
}

/// The exact quarter-turn endpoint of a generator, a proper rotation.
pub fn quarter_matrix(g: Generator) -> (r: Mat4)
    ensures
        r == quarter_spec(g),
        is_rotation(r),
{
    proof {
        match g {
            Generator::R1 => {
                assert(mat_mul(quarter_spec(Generator::R1), mat_transpose(quarter_spec(Generator::R1)))
                    =~= mat_identity()) by (nonlinear_arith);
                assert(mat_det(quarter_spec(Generator::R1)) == 1) by (nonlinear_arith);
            },
            Generator::R2 => {
                assert(mat_mul(quarter_spec(Generator::R2), mat_transpose(quarter_spec(Generator::R2)))
                    =~= mat_identity()) by (nonlinear_arith);
                assert(mat_det(quarter_spec(Generator::R2)) == 1) by (nonlinear_arith);
            },
            Generator::R1Inv => {
                assert(mat_mul(quarter_spec(Generator::R1Inv), mat_transpose(quarter_spec(Generator::R1Inv)))
                    =~= mat_identity()) by (nonlinear_arith);
                assert(mat_det(quarter_spec(Generator::R1Inv)) == 1) by (nonlinear_arith);
            },
            Generator::R2Inv => {
                assert(mat_mul(quarter_spec(Generator::R2Inv), mat_transpose(quarter_spec(Generator::R2Inv)))
                    =~= mat_identity()) by (nonlinear_arith);
                assert(mat_det(quarter_spec(Generator::R2Inv)) == 1) by (nonlinear_arith);
            },
        }
    }
    sweep_entries(g, 0, 1)
}

/// Every generator's sweep at angle zero is the (scaled) identity: a sample
/// with sine 0 leaves every axis in place, whatever the cosine sample is;
/// with the unit cosine sample it is the identity itself.
pub proof fn lemma_sweep_at_zero(g: Generator, c: i64)
    ensures
        sweep_spec(g, c, 0) == mat_diag(c),
        sweep_spec(g, 1, 0) == mat_identity(),
{
}

/// Four quarter turns of any one generator return to the start: the fourth
/// power of its exact quarter-turn matrix is the identity.
pub proof fn lemma_four_quarter_turns(g: Generator)
    ensures
        mat_mul(
            mat_mul(quarter_spec(g), quarter_spec(g)),
            mat_mul(quarter_spec(g), quarter_spec(g)),
        ) == mat_identity(),
{
    match g {
        Generator::R1 => {
            assert(mat_mul(
                mat_mul(quarter_spec(Generator::R1), quarter_spec(Generator::R1)),
                mat_mul(quarter_spec(Generator::R1), quarter_spec(Generator::R1)),
            ) =~= mat_identity()) by (nonlinear_arith);
        },
        Generator::R2 => {
            assert(mat_mul(
                mat_mul(quarter_spec(Generator::R2), quarter_spec(Generator::R2)),
                mat_mul(quarter_spec(Generator::R2), quarter_spec(Generator::R2)),
            ) =~= mat_identity()) by (nonlinear_arith);
        },
        Generator::R1Inv => {
            assert(mat_mul(
                mat_mul(quarter_spec(Generator::R1Inv), quarter_spec(Generator::R1Inv)),
                mat_mul(quarter_spec(Generator::R1Inv), quarter_spec(Generator::R1Inv)),
            ) =~= mat_identity()) by (nonlinear_arith);
        },
        Generator::R2Inv => {
            assert(mat_mul(
                mat_mul(quarter_spec(Generator::R2Inv), quarter_spec(Generator::R2Inv)),
                mat_mul(quarter_spec(Generator::R2Inv), quarter_spec(Generator::R2Inv)),
            ) =~= mat_identity()) by (nonlinear_arith);
        },
    }
}

/// A backward sweep equals the forward sweep of the negated angle: negating
/// the angle keeps the cosine sample and negates the sine sample.
pub proof fn lemma_backward_reverses_angle(c: i64, s: i64, s_neg: i64)
    requires
        -ENTRY_BOUND <= s <= ENTRY_BOUND,
        s_neg == -s,
    ensures
        sweep_spec(Generator::R1Inv, c, s) == sweep_spec(Generator::R1, c, s_neg),
        sweep_spec(Generator::R2Inv, c, s) == sweep_spec(Generator::R2, c, s_neg),
        sweep_spec(Generator::R1, c, s) == sweep_spec(Generator::R1Inv, c, s_neg),
        sweep_spec(Generator::R2, c, s) == sweep_spec(Generator::R2Inv, c, s_neg),
{
}

/// A sweep matrix times its transpose is diagonal with `c*c + s*s` at every
/// diagonal entry: at any exact sample on the unit circle the transpose is
/// the inverse, so the committed orientations stay orthonormal.
pub proof fn lemma_sweep_orthonormal(g: Generator, c: i64, s: i64)
    requires
        -ENTRY_BOUND <= c <= ENTRY_BOUND,
        -ENTRY_BOUND <= s <= ENTRY_BOUND,
    ensures
        mat_mul(sweep_spec(g, c, s), mat_transpose(sweep_spec(g, c, s)))
            == mat_diag((c * c + s * s) as i64),
{
    match g {
        Generator::R1 => {
            assert(mat_mul(sweep_spec(Generator::R1, c, s), mat_transpose(sweep_spec(Generator::R1, c, s)))
                =~= mat_diag((c * c + s * s) as i64)) by (nonlinear_arith)
                requires
                    -0x4000_0000 <= c <= 0x4000_0000,
                    -0x4000_0000 <= s <= 0x4000_0000;
        },
        Generator::R2 => {
            assert(mat_mul(sweep_spec(Generator::R2, c, s), mat_transpose(sweep_spec(Generator::R2, c, s)))
                =~= mat_diag((c * c + s * s) as i64)) by (nonlinear_arith)
                requires
                    -0x4000_0000 <= c <= 0x4000_0000,
                    -0x4000_0000 <= s <= 0x4000_0000;
        },
        Generator::R1Inv => {
            assert(mat_mul(sweep_spec(Generator::R1Inv, c, s), mat_transpose(sweep_spec(Generator::R1Inv, c, s)))
                =~= mat_diag((c * c + s * s) as i64)) by (nonlinear_arith)
                requires
                    -0x4000_0000 <= c <= 0x4000_0000,
                    -0x4000_0000 <= s <= 0x4000_0000;
        },
        Generator::R2Inv => {
            assert(mat_mul(sweep_spec(Generator::R2Inv, c, s), mat_transpose(sweep_spec(Generator::R2Inv, c, s)))
                =~= mat_diag((c * c + s * s) as i64)) by (nonlinear_arith)
                requires
                    -0x4000_0000 <= c <= 0x4000_0000,
                    -0x4000_0000 <= s <= 0x4000_0000;
        },
    }
}

/// Transposing a sweep matrix selects the opposite generator at the same
/// sample: the transpose of each sweep is the matching inverse sweep.
pub proof fn lemma_transpose_is_inverse_sweep(g: Generator, c: i64, s: i64)
    requires
        -ENTRY_BOUND <= s <= ENTRY_BOUND,
    ensures
        mat_transpose(sweep_spec(g, c, s)) == sweep_spec(gen_inverse(g), c, s),
{
}

} // verus!
