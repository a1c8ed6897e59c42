//! The cube-shadow face table.
//!
//! The shadow pass renders the scene six times, once per cube face, in the
//! fixed order +X, −X, +Y, −Y, +Z, −Z.  Each face's view is a left-handed
//! look-at from the light's position toward the face's axis; for the ±Y
//! faces the up vector leaves the world Y axis (which would be parallel to
//! the view direction) for the ∓Z axis.  This module states the table and
//! proves it sound: the target of each face is the light position moved one
//! world unit along the face axis, the directions are pairwise distinct,
//! and no face's up vector is parallel to its direction.

use vstd::prelude::*;
use crate::FX_ONE;
use crate::vec3::Vec3Fx;

verus! {

/// Number of cube faces rendered by the shadow pass.
pub const SHADOW_FACE_COUNT: usize = 6;

/// The unit axis a face looks along, in face order +X, −X, +Y, −Y, +Z, −Z.
pub open spec fn spec_face_direction(face: int) -> Vec3Fx {
    if face == 0 {
        Vec3Fx { x: 1, y: 0, z: 0 }
    } else if face == 1 {
        Vec3Fx { x: -1i64, y: 0, z: 0 }
    } else if face == 2 {
        Vec3Fx { x: 0, y: 1, z: 0 }
    } else if face == 3 {
        Vec3Fx { x: 0, y: -1i64, z: 0 }
    } else if face == 4 {
        Vec3Fx { x: 0, y: 0, z: 1 }
    } else {
        Vec3Fx { x: 0, y: 0, z: -1i64 }
    }
}

/// The up vector a face's look-at uses: world Y, except the ∓Z axis for
/// the ±Y faces.
pub open spec fn spec_face_up(face: int) -> Vec3Fx {
    if face == 2 {
        Vec3Fx { x: 0, y: 0, z: -1i64 }
    } else if face == 3 {
        Vec3Fx { x: 0, y: 0, z: 1 }
    } else {
        Vec3Fx { x: 0, y: 1, z: 0 }
    }
}

/// The look-at target of a face: the eye moved one world unit along the
/// face's axis.
pub open spec fn spec_face_target(eye: Vec3Fx, face: int) -> Vec3Fx {
    Vec3Fx {
        x: (eye.x + FX_ONE * spec_face_direction(face).x) as i64,
        y: (eye.y + FX_ONE * spec_face_direction(face).y) as i64,
        z: (eye.z + FX_ONE * spec_face_direction(face).z) as i64,
    }
}

pub fn face_direction(face: usize) -> (d: Vec3Fx)
    requires
        face < SHADOW_FACE_COUNT,
    ensures
        d == spec_face_direction(face as int),
{
    if face == 0 {
        Vec3Fx { x: 1, y: 0, z: 0 }
    } else if face == 1 {
        Vec3Fx { x: -1i64, y: 0, z: 0 }
    } else if face == 2 {
        Vec3Fx { x: 0, y: 1, z: 0 }
    } else if face == 3 {
        Vec3Fx { x: 0, y: -1i64, z: 0 }
    } else if face == 4 {
        Vec3Fx { x: 0, y: 0, z: 1 }
    } else {
        Vec3Fx { x: 0, y: 0, z: -1i64 }
    }
}

pub fn face_up(face: usize) -> (u: Vec3Fx)
    requires
        face < SHADOW_FACE_COUNT,
    ensures
        u == spec_face_up(face as int),
{
    if face == 2 {
        Vec3Fx { x: 0, y: 0, z: -1i64 }
    } else if face == 3 {
        Vec3Fx { x: 0, y: 0, z: 1 }
    } else {
        Vec3Fx { x: 0, y: 1, z: 0 }
    }
}

/// Computes a face's look-at target from the light's position.
pub fn face_target(eye: &Vec3Fx, face: usize) -> (t: Vec3Fx)
    requires
        face < SHADOW_FACE_COUNT,
        i64::MIN + FX_ONE <= eye.x <= i64::MAX - FX_ONE,
        i64::MIN + FX_ONE <= eye.y <= i64::MAX - FX_ONE,
        i64::MIN + FX_ONE <= eye.z <= i64::MAX - FX_ONE,
    ensures
        t == spec_face_target(*eye, face as int),
        t.x == eye.x + FX_ONE * spec_face_direction(face as int).x,
        t.y == eye.y + FX_ONE * spec_face_direction(face as int).y,
        t.z == eye.z + FX_ONE * spec_face_direction(face as int).z,
{
    let d = face_direction(face);
    let step = d.scaled(FX_ONE);
    eye.plus(&step)
}

/// The ±Y faces are exactly the ones whose up vector leaves the world Y
/// axis, and they take the ∓Z axis.
pub proof fn lemma_up_flips_only_on_y_faces()
    ensures
        spec_face_up(2) == (Vec3Fx { x: 0, y: 0, z: -1i64 }),
        spec_face_up(3) == (Vec3Fx { x: 0, y: 0, z: 1 }),
        forall|f: int| 0 <= f < 6 && f != 2 && f != 3
            ==> spec_face_up(f) == (Vec3Fx { x: 0, y: 1, z: 0 }),
{
}

/// The six face directions are pairwise distinct.
pub proof fn lemma_face_directions_distinct(i: int, j: int)
    requires
        0 <= i < 6,
        0 <= j < 6,
        i != j,
    ensures
        spec_face_direction(i) != spec_face_direction(j),
{
}

/// Distinct faces give distinct look-at inputs from the same eye: the
/// targets differ, so the six shadow views are built from six different
/// view descriptions.
pub proof fn lemma_face_targets_distinct(eye: Vec3Fx, i: int, j: int)
    requires
        0 <= i < 6,
        0 <= j < 6,
        i != j,
        i64::MIN + FX_ONE <= eye.x <= i64::MAX - FX_ONE,
        i64::MIN + FX_ONE <= eye.y <= i64::MAX - FX_ONE,
        i64::MIN + FX_ONE <= eye.z <= i64::MAX - FX_ONE,
    ensures
        spec_face_target(eye, i) != spec_face_target(eye, j),
{
    lemma_face_directions_distinct(i, j);
}

/// No face's frame is degenerate: the cross product of its direction and
/// its up vector is never the zero vector, so every look-at basis is
/// well defined.
pub proof fn lemma_face_frame_nondegenerate(face: int)
    requires
        0 <= face < 6,
    ensures
        ({
            let d = spec_face_direction(face);
            let u = spec_face_up(face);
            d.y * u.z - d.z * u.y != 0
                || d.z * u.x - d.x * u.z != 0
                || d.x * u.y - d.y * u.x != 0
        }),
{
}

} // verus!
