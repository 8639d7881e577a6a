use vstd::prelude::*;

verus! {

/// A quaternion over the mathematical integers: scalar part `w`, vector part `(x, y, z)`.
pub struct Quat {
    pub w: int,
    pub x: int,
    pub y: int,
    pub z: int,
}

/// A triple of mathematical integers.
pub struct Vec3 {
    pub x: int,
    pub y: int,
    pub z: int,
}

pub open spec fn quat(w: int, x: int, y: int, z: int) -> Quat {
    Quat { w, x, y, z }
}

pub open spec fn vec3(x: int, y: int, z: int) -> Vec3 {
    Vec3 { x, y, z }
}

/// The vector part of a quaternion.
pub open spec fn vector_part(q: Quat) -> Vec3 {
    vec3(q.x, q.y, q.z)
}

/// The pure quaternion `(0, v)`.
pub open spec fn pure_quat(v: Vec3) -> Quat {
    quat(0, v.x, v.y, v.z)
}

pub open spec fn quat_id() -> Quat {
    quat(1, 0, 0, 0)
}

pub open spec fn quat_add(a: Quat, b: Quat) -> Quat {
    quat(a.w + b.w, a.x + b.x, a.y + b.y, a.z + b.z)
}

pub open spec fn quat_scale(q: Quat, t: int) -> Quat {
    quat(q.w * t, q.x * t, q.y * t, q.z * t)
}

pub open spec fn vec3_dot(a: Vec3, b: Vec3) -> int {
    a.x * b.x + a.y * b.y + a.z * b.z
}

pub open spec fn vec3_cross(a: Vec3, b: Vec3) -> Vec3 {
    vec3(a.y * b.z - a.z * b.y, a.z * b.x - a.x * b.z, a.x * b.y - a.y * b.x)
}

pub open spec fn vec3_square_len(v: Vec3) -> int {
    vec3_dot(v, v)
}

/// The four-dimensional dot product.
pub open spec fn quat_dot(a: Quat, b: Quat) -> int {
    a.w * b.w + vec3_dot(vector_part(a), vector_part(b))
}

/// The Hamilton product: scalar part `a.w*b.w - a.v.b.v`,
/// vector part `a.w*b.v + b.w*a.v + a.v x b.v`.
pub open spec fn quat_mul(a: Quat, b: Quat) -> Quat {
    let av = vector_part(a);
    let bv = vector_part(b);
    let c = vec3_cross(av, bv);
    quat(
        a.w * b.w - vec3_dot(av, bv),
        a.w * bv.x + b.w * av.x + c.x,
        a.w * bv.y + b.w * av.y + c.y,
        a.w * bv.z + b.w * av.z + c.z,
    )
}

pub open spec fn quat_conj(q: Quat) -> Quat {
    quat(q.w, -q.x, -q.y, -q.z)
}

pub open spec fn quat_square_len(q: Quat) -> int {
    q.w * q.w + q.x * q.x + q.y * q.y + q.z * q.z
}

/// A unit quaternion: one that represents a rotation.
pub open spec fn is_unit(q: Quat) -> bool {
    quat_square_len(q) == 1
}

/// The sandwich product `q (0, v) conj(q)`, whose vector part is `v` rotated by `q`.
pub open spec fn quat_rotate(q: Quat, v: Vec3) -> Quat {
    quat_mul(quat_mul(q, pure_quat(v)), quat_conj(q))
}

/// A square length is never negative.
pub proof fn lemma_square_len_nonneg(q: Quat)
    ensures
        quat_square_len(q) >= 0,
{
    assert(q.w * q.w >= 0 && q.x * q.x >= 0 && q.y * q.y >= 0 && q.z * q.z >= 0) by (nonlinear_arith);
}

} // verus!
