//! Quaternion algebra over integer components, for composing and applying
//! rotations exactly.
//!
//! Every operation is stated over the mathematical model in [`model`]: a
//! quaternion is read as four unbounded integers, and each function returns
//! the machine value of the model's result. Where the result would not fit in
//! an `i64`, the function's precondition leaves that input out.
use vstd::prelude::*;

pub mod laws;
pub mod model;

use crate::model::{
    pure_quat, quat, quat_add, quat_conj, quat_dot, quat_id, quat_mul, quat_rotate, quat_scale,
    quat_square_len, vec3, vector_part, lemma_square_len_nonneg, Quat, Vec3,
};

verus! {

/// A triple of components: a direction, an axis or a point in space.
pub type Vector3 = [i64; 3];

/// A quaternion as its scalar part and its vector part.
pub type Quaternion = (i64, [i64; 3]);

/// The model of a vector.
pub open spec fn vec_view(v: Vector3) -> Vec3 {
    vec3(v[0] as int, v[1] as int, v[2] as int)
}

/// The model of a quaternion.
pub open spec fn quat_view(q: Quaternion) -> Quat {
    quat(q.0 as int, q.1[0] as int, q.1[1] as int, q.1[2] as int)
}

/// Whether every component of the model fits in an `i64`.
pub open spec fn fits(q: Quat) -> bool {
    i64::MIN <= q.w <= i64::MAX && i64::MIN <= q.x <= i64::MAX && i64::MIN <= q.y <= i64::MAX
        && i64::MIN <= q.z <= i64::MAX
}

/// The identity quaternion `(1, [0, 0, 0])`: no rotation.
pub fn id() -> (r: Quaternion)
    ensures
        quat_view(r) == quat_id(),
{
    (1, [0, 0, 0])
}

/// Adds two quaternions component by component.
pub fn add(a: Quaternion, b: Quaternion) -> (r: Quaternion)
    requires
        fits(quat_add(quat_view(a), quat_view(b))),
    ensures
        quat_view(r) == quat_add(quat_view(a), quat_view(b)),
{
    (a.0 + b.0, [a.1[0] + b.1[0], a.1[1] + b.1[1], a.1[2] + b.1[2]])
}

/// The exact product of two `i64` values.
fn wide_mul(a: i64, b: i64) -> (r: i128)
    ensures
        r == a * b,
        -0x4000_0000_0000_0000_0000_0000_0000_0000 < r <= 0x4000_0000_0000_0000_0000_0000_0000_0000,
{
    let (x, y) = (a as i128, b as i128);
    proof {
        assert(-0x4000_0000_0000_0000_0000_0000_0000_0000 < x * y
            <= 0x4000_0000_0000_0000_0000_0000_0000_0000) by (nonlinear_arith)
            requires
                -0x8000_0000_0000_0000 <= x < 0x8000_0000_0000_0000,
                -0x8000_0000_0000_0000 <= y < 0x8000_0000_0000_0000,
        ;
    }
    x * y
}

/// The sum of four products, each exact in `i128`, where the sum itself fits
/// in an `i64`. The partial sums may leave the range of `i128`; the wrapped
/// sum still equals the exact one, as the two differ by a multiple of 2^128
/// and both lie in `i128`.
fn sum4(p1: i128, p2: i128, p3: i128, p4: i128) -> (r: i64)
    requires
        i64::MIN <= p1 + p2 + p3 + p4 <= i64::MAX,
    ensures
        r == p1 + p2 + p3 + p4,
{
    let s = p1.wrapping_add(p2).wrapping_add(p3).wrapping_add(p4);
    s as i64
}

/// Multiplies two quaternions (the Hamilton product).
///
/// Scalar part `a.w*b.w - a.v.b.v`, vector part `a.w*b.v + b.w*a.v + a.v x b.v`.
pub fn mul(a: Quaternion, b: Quaternion) -> (r: Quaternion)
    requires
        fits(quat_mul(quat_view(a), quat_view(b))),
    ensures
        quat_view(r) == quat_mul(quat_view(a), quat_view(b)),
{
    let (aw, av) = a;
    let (bw, bv) = b;
    let w = sum4(wide_mul(aw, bw), -wide_mul(av[0], bv[0]), -wide_mul(av[1], bv[1]), -wide_mul(av[2], bv[2]));
    let x = sum4(wide_mul(aw, bv[0]), wide_mul(bw, av[0]), wide_mul(av[1], bv[2]), -wide_mul(av[2], bv[1]));
    let y = sum4(wide_mul(aw, bv[1]), wide_mul(bw, av[1]), wide_mul(av[2], bv[0]), -wide_mul(av[0], bv[2]));
    let z = sum4(wide_mul(aw, bv[2]), wide_mul(bw, av[2]), wide_mul(av[0], bv[1]), -wide_mul(av[1], bv[0]));
    (w, [x, y, z])
}

/// Scales both parts of a quaternion by the scalar `t`.
pub fn scale(q: Quaternion, t: i64) -> (r: Quaternion)
    requires
        fits(quat_scale(quat_view(q), t as int)),
    ensures
        quat_view(r) == quat_scale(quat_view(q), t as int),
{
    (q.0 * t, [q.1[0] * t, q.1[1] * t, q.1[2] * t])
}

/// The dot product of two quaternions taken as four-component vectors.
pub fn dot(a: Quaternion, b: Quaternion) -> (r: i64)
    requires
        i64::MIN <= quat_dot(quat_view(a), quat_view(b)) <= i64::MAX,
    ensures
        r == quat_dot(quat_view(a), quat_view(b)),
{
    sum4(wide_mul(a.0, b.0), wide_mul(a.1[0], b.1[0]), wide_mul(a.1[1], b.1[1]), wide_mul(a.1[2], b.1[2]))
}

/// The conjugate: the same scalar part and the negated vector part.
pub fn conj(a: Quaternion) -> (r: Quaternion)
    requires
        fits(quat_conj(quat_view(a))),
    ensures
        quat_view(r) == quat_conj(quat_view(a)),
{
    (a.0, [-a.1[0], -a.1[1], -a.1[2]])
}

/// The square of the length of a quaternion.
pub fn square_len(q: Quaternion) -> (r: i64)
    requires
        quat_square_len(quat_view(q)) <= i64::MAX,
    ensures
        r == quat_square_len(quat_view(q)),
{
    proof {
        lemma_square_len_nonneg(quat_view(q));
    }
    sum4(wide_mul(q.0, q.0), wide_mul(q.1[0], q.1[0]), wide_mul(q.1[1], q.1[1]), wide_mul(q.1[2], q.1[2]))
}

/// Rotates the vector `v` by the quaternion `q`: the vector part of the
/// product `q (0, v) conj(q)`.
///
/// For a unit `q` this is `v` turned about the axis of `q` by its angle; for
/// another `q` the rotated vector comes out scaled by `square_len(q)`.
pub fn rotate_vector(q: Quaternion, v: Vector3) -> (r: Vector3)
    requires
        fits(quat_conj(quat_view(q))),
        fits(quat_mul(quat_view(q), pure_quat(vec_view(v)))),
        fits(quat_rotate(quat_view(q), vec_view(v))),
    ensures
        vec_view(r) == vector_part(quat_rotate(quat_view(q), vec_view(v))),
{
    let v_as_q: Quaternion = (0, v);
    let c = conj(q);
    assert(quat_view(v_as_q) == pure_quat(vec_view(v)));
    crate::mul(crate::mul(q, v_as_q), c).1
}

} // verus!
