//! Camera pose and its GPU-ready uniform snapshot.
//!
//! The pose is plain data: a fixed-point position and yaw/pitch angles in
//! millidegrees.  [`Camera::update_view_matrix`] clamps the pitch to
//! ±89° before the caller recomputes the derived floating-point view
//! matrix; [`Camera::direction`] gives the orientation vector's exact
//! components from the sines and cosines of the pose angles.  The
//! [`CameraRaw`] snapshot carries the derived 4×4 matrix and the position
//! as 32-bit words and serializes to exactly [`CAMERA_RAW_SIZE`] bytes.

use vstd::prelude::*;
use crate::FX_ONE;
use crate::bytes::{words_le_bytes, words_to_bytes, extend_words_le, lemma_words_le_bytes_concat, lemma_words_le_bytes_len};
use crate::layouts::{Bindeable, BindingKind, LayoutEntry, LayoutShape, Visibility, uniform_shape};
use crate::vec3::Vec3Fx;

verus! {

/// Pitch is clamped to ±89 degrees, in millidegrees.
pub const PITCH_LIMIT_MDEG: i64 = 89_000;

/// Byte size of the camera uniform block: a 4×4 matrix of 32-bit scalars
/// plus a position padded to four 32-bit lanes.
pub const CAMERA_RAW_SIZE: usize = 80;

/// `p` pulled to the nearest point of `[-PITCH_LIMIT_MDEG, PITCH_LIMIT_MDEG]`.
pub open spec fn clamp_pitch(p: int) -> int {
    if p > PITCH_LIMIT_MDEG as int {
        PITCH_LIMIT_MDEG as int
    } else if p < -(PITCH_LIMIT_MDEG as int) {
        -(PITCH_LIMIT_MDEG as int)
    } else {
        p
    }
}

/// Out-of-range pitches land exactly on the nearest bound, and in-range
/// pitches pass through unchanged.
pub proof fn lemma_pitch_clamp_saturates(p: int)
    ensures
        p > PITCH_LIMIT_MDEG as int ==> clamp_pitch(p) == PITCH_LIMIT_MDEG as int,
        p < -(PITCH_LIMIT_MDEG as int) ==> clamp_pitch(p) == -(PITCH_LIMIT_MDEG as int),
        -(PITCH_LIMIT_MDEG as int) <= p <= PITCH_LIMIT_MDEG as int ==> clamp_pitch(p) == p,
        -(PITCH_LIMIT_MDEG as int) <= clamp_pitch(p) <= PITCH_LIMIT_MDEG as int,
{
}

/// The camera pose.  Derived floating-point state (perspective and view
/// matrices, the unit orientation vector) lives with the caller, which
/// rebuilds it from this pose after every update.
pub struct Camera {
    /// World position in fixed-point steps.
    pub position: Vec3Fx,
    /// Pitch in millidegrees.
    pub pitch_mdeg: i64,
    /// Yaw in millidegrees.
    pub yaw_mdeg: i64,
    /// Movement speed in fixed-point steps per second.
    pub speed: i64,
}

impl Camera {
    pub fn new(position: Vec3Fx, pitch_mdeg: i64, yaw_mdeg: i64, speed: i64) -> (r: Camera)
        ensures
            r.position == position,
            r.pitch_mdeg == pitch_mdeg,
            r.yaw_mdeg == yaw_mdeg,
            r.speed == speed,
    {
        Camera { position, pitch_mdeg, yaw_mdeg, speed }
    }

    /// Accumulates the input deltas of one simulated step into the pose.
    /// The pitch may leave its limits here; the next
    /// [`Camera::update_view_matrix`] clamps it.
    pub fn apply_pose_delta(&mut self, dyaw_mdeg: i64, dpitch_mdeg: i64, dpos: Vec3Fx)
        requires
            i64::MIN <= old(self).yaw_mdeg + dyaw_mdeg <= i64::MAX,
            i64::MIN <= old(self).pitch_mdeg + dpitch_mdeg <= i64::MAX,
            i64::MIN <= old(self).position.x + dpos.x <= i64::MAX,
            i64::MIN <= old(self).position.y + dpos.y <= i64::MAX,
            i64::MIN <= old(self).position.z + dpos.z <= i64::MAX,
        ensures
            final(self).yaw_mdeg == old(self).yaw_mdeg + dyaw_mdeg,
            final(self).pitch_mdeg == old(self).pitch_mdeg + dpitch_mdeg,
            final(self).position.x == old(self).position.x + dpos.x,
            final(self).position.y == old(self).position.y + dpos.y,
            final(self).position.z == old(self).position.z + dpos.z,
            final(self).speed == old(self).speed,
    {
        self.yaw_mdeg = self.yaw_mdeg + dyaw_mdeg;
        self.pitch_mdeg = self.pitch_mdeg + dpitch_mdeg;
        let p = self.position;
        self.position = p.plus(&dpos);
    }

    /// Clamps the pitch to ±89°, the step that precedes every derived-vector
    /// recomputation.  Everything else in the pose is untouched.
    pub fn update_view_matrix(&mut self)
        ensures
            final(self).pitch_mdeg == clamp_pitch(old(self).pitch_mdeg as int),
            final(self).yaw_mdeg == old(self).yaw_mdeg,
            final(self).position == old(self).position,
            final(self).speed == old(self).speed,
            -PITCH_LIMIT_MDEG <= final(self).pitch_mdeg <= PITCH_LIMIT_MDEG,
    {
        if self.pitch_mdeg > PITCH_LIMIT_MDEG {
            self.pitch_mdeg = PITCH_LIMIT_MDEG;
        }
        if self.pitch_mdeg < -PITCH_LIMIT_MDEG {
            self.pitch_mdeg = -PITCH_LIMIT_MDEG;
        }
    }

    /// The orientation vector's components from the pose angles' sines and
    /// cosines, each given in fixed point (one is `FX_ONE`):
    /// (cos yaw · cos pitch, sin pitch, sin yaw · cos pitch).  The result is
    /// in `FX_ONE²` scale, so the three components stay exact.
    pub fn direction(sin_pitch: i64, cos_pitch: i64, sin_yaw: i64, cos_yaw: i64) -> (r: Vec3Fx)
        requires
            -FX_ONE <= sin_pitch <= FX_ONE,
            -FX_ONE <= cos_pitch <= FX_ONE,
            -FX_ONE <= sin_yaw <= FX_ONE,
            -FX_ONE <= cos_yaw <= FX_ONE,
        ensures
            r.x == cos_yaw * cos_pitch,
            r.y == sin_pitch * FX_ONE,
            r.z == sin_yaw * cos_pitch,
    {
        proof {
            lemma_unit_product_bounded(cos_yaw as int, cos_pitch as int);
            lemma_unit_product_bounded(sin_pitch as int, FX_ONE as int);
            lemma_unit_product_bounded(sin_yaw as int, cos_pitch as int);
        }
        Vec3Fx { x: cos_yaw * cos_pitch, y: sin_pitch * FX_ONE, z: sin_yaw * cos_pitch }
    }

    /// Packs the caller-computed view-projection words and position words
    /// into the uniform snapshot.
    pub fn to_camera_raw(&self, view_matrix: Vec<u32>, px: u32, py: u32, pz: u32) -> (r: CameraRaw)
        requires
            view_matrix@.len() == 16,
        ensures
            r.wf(),
            r.view_matrix@ == view_matrix@,
            r.position@ == seq![px, py, pz, 0u32],
    {
        CameraRaw::new(view_matrix, px, py, pz)
    }
}

/// A product of two fixed-point scalars of at most unit magnitude stays
/// inside `i64`.
pub proof fn lemma_unit_product_bounded(a: int, b: int)
    requires
        -(FX_ONE as int) <= a <= FX_ONE as int,
        -(FX_ONE as int) <= b <= FX_ONE as int,
    ensures
        -(FX_ONE as int) * (FX_ONE as int) <= a * b <= (FX_ONE as int) * (FX_ONE as int),
{
    assert(-(FX_ONE as int) * (FX_ONE as int) <= a * b <= (FX_ONE as int) * (FX_ONE as int))
        by (nonlinear_arith)
        requires
            -(FX_ONE as int) <= a <= FX_ONE as int,
            -(FX_ONE as int) <= b <= FX_ONE as int,
    ;
}

/// The camera uniform snapshot: the view-projection matrix as sixteen
/// 32-bit words and the position as three words padded with a zero word.
pub struct CameraRaw {
    pub view_matrix: Vec<u32>,
    pub position: Vec<u32>,
}

impl CameraRaw {
    pub open spec fn wf(self) -> bool {
        &&& self.view_matrix@.len() == 16
        &&& self.position@.len() == 4
        &&& self.position@[3] == 0
    }

    /// The exact byte image of the block: the matrix words, then the padded
    /// position words, all little-endian.
    pub open spec fn spec_bytes(self) -> Seq<u8> {
        words_le_bytes(self.view_matrix@ + self.position@)
    }

    pub fn new(view_matrix: Vec<u32>, px: u32, py: u32, pz: u32) -> (r: CameraRaw)
        requires
            view_matrix@.len() == 16,
        ensures
            r.wf(),
            r.view_matrix@ == view_matrix@,
            r.position@ == seq![px, py, pz, 0u32],
    {
        let mut position: Vec<u32> = Vec::new();
        position.push(px);
        position.push(py);
        position.push(pz);
        position.push(0);
        assert(position@ =~= seq![px, py, pz, 0u32]);
        CameraRaw { view_matrix, position }
    }

    /// Serializes the block; the result is exactly 80 bytes.
    pub fn to_bytes(&self) -> (r: Vec<u8>)
        requires
            self.wf(),
        ensures
            r@ == self.spec_bytes(),
            r@.len() == CAMERA_RAW_SIZE,
    {
        let mut out = words_to_bytes(&self.view_matrix);
        extend_words_le(&mut out, &self.position);
        proof {
            lemma_words_le_bytes_concat(self.view_matrix@, self.position@);
            lemma_words_le_bytes_len(self.view_matrix@ + self.position@);
        }
        out
    }

    /// The single-slot layout of a camera-only binding: one uniform buffer
    /// of at least the block's 80 bytes, visible to both stages.
    pub fn bind_group_layout() -> (r: LayoutShape)
        ensures
            r.entries@ =~= seq![
                LayoutEntry {
                    binding: 0,
                    visibility: Visibility::VertexFragment,
                    kind: BindingKind::UniformBuffer { min_size: CAMERA_RAW_SIZE },
                },
            ],
            r.wf(),
            r.is_uniform_shape(),
    {
        uniform_shape(Visibility::VertexFragment, CAMERA_RAW_SIZE)
    }
}

impl Bindeable for CameraRaw {
    fn bind_group_layout() -> LayoutShape {
        CameraRaw::bind_group_layout()
    }
}

/// A well-formed camera block serializes to exactly the 80 bytes its
/// layout declares as the minimum binding size.
pub proof fn lemma_camera_block_size(c: CameraRaw)
    requires
        c.wf(),
    ensures
        c.spec_bytes().len() == CAMERA_RAW_SIZE,
{
    lemma_words_le_bytes_len(c.view_matrix@ + c.position@);
}

} // verus!
