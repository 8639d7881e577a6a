//! Algebraic laws of the quaternion operations, stated over the models that
//! the operations' contracts use.
use vstd::prelude::*;

use crate::model::{
    is_unit, pure_quat, quat, quat_add, quat_conj, quat_dot, quat_id, quat_mul, quat_rotate, quat_scale,
    quat_square_len, vec3_square_len, vector_part, Quat,
};
use crate::{quat_view, vec_view, Quaternion, Vector3};

verus! {

/// The identity is a two-sided unit of the Hamilton product:
/// `mul(id(), q) == q` and `mul(q, id()) == q`, for every `q`.
pub proof fn lemma_mul_identity(q: Quaternion)
    ensures
        quat_mul(quat_id(), quat_view(q)) == quat_view(q),
        quat_mul(quat_view(q), quat_id()) == quat_view(q),
{
    let p = quat_view(q);
    assert(1 * p.w == p.w && p.w * 1 == p.w && 1 * p.x == p.x && p.x * 1 == p.x && 1 * p.y == p.y
        && p.y * 1 == p.y && 1 * p.z == p.z && p.z * 1 == p.z) by (nonlinear_arith);
    assert(0 * p.w == 0 && p.w * 0 == 0 && 0 * p.x == 0 && p.x * 0 == 0 && 0 * p.y == 0 && p.y * 0
        == 0 && 0 * p.z == 0 && p.z * 0 == 0) by (nonlinear_arith);
}

/// The identity of the product is no identity of the sum:
/// `add(id(), q) != q`, for every `q`.
pub proof fn lemma_id_not_additive_identity(q: Quaternion)
    ensures
        quat_add(quat_id(), quat_view(q)) != quat_view(q),
{
}

/// Addition is associative: `add(add(a, b), c) == add(a, add(b, c))`.
pub proof fn lemma_add_associative(a: Quaternion, b: Quaternion, c: Quaternion)
    ensures
        quat_add(quat_add(quat_view(a), quat_view(b)), quat_view(c)) == quat_add(
            quat_view(a),
            quat_add(quat_view(b), quat_view(c)),
        ),
{
}

/// Addition is commutative: `add(a, b) == add(b, a)`.
pub proof fn lemma_add_commutative(a: Quaternion, b: Quaternion)
    ensures
        quat_add(quat_view(a), quat_view(b)) == quat_add(quat_view(b), quat_view(a)),
{
}

/// Scaling distributes over addition:
/// `scale(add(a, b), t) == add(scale(a, t), scale(b, t))`.
pub proof fn lemma_scale_distributes(a: Quaternion, b: Quaternion, t: i64)
    ensures
        quat_scale(quat_add(quat_view(a), quat_view(b)), t as int) == quat_add(
            quat_scale(quat_view(a), t as int),
            quat_scale(quat_view(b), t as int),
        ),
{
    let (x, y) = (quat_view(a), quat_view(b));
    let t = t as int;
    assert((x.w + y.w) * t == x.w * t + y.w * t) by (nonlinear_arith);
    assert((x.x + y.x) * t == x.x * t + y.x * t) by (nonlinear_arith);
    assert((x.y + y.y) * t == x.y * t + y.y * t) by (nonlinear_arith);
    assert((x.z + y.z) * t == x.z * t + y.z * t) by (nonlinear_arith);
}

/// The dot product is symmetric: `dot(a, b) == dot(b, a)`.
pub proof fn lemma_dot_symmetric(a: Quaternion, b: Quaternion)
    ensures
        quat_dot(quat_view(a), quat_view(b)) == quat_dot(quat_view(b), quat_view(a)),
{
    let (x, y) = (quat_view(a), quat_view(b));
    assert(x.w * y.w == y.w * x.w && x.x * y.x == y.x * x.x && x.y * y.y == y.y * x.y && x.z * y.z
        == y.z * x.z) by (nonlinear_arith);
}

/// The square length is the dot product of a quaternion with itself:
/// `square_len(q) == dot(q, q)`.
pub proof fn lemma_square_len_is_dot(q: Quaternion)
    ensures
        quat_square_len(quat_view(q)) == quat_dot(quat_view(q), quat_view(q)),
{
}

/// A quaternion times its conjugate is its square length on the scalar part:
/// `mul(q, conj(q)) == (square_len(q), [0, 0, 0])`, so for a unit `q` the
/// conjugate is the inverse and the product is `id()`.
pub proof fn lemma_mul_conj(q: Quaternion)
    ensures
        quat_mul(quat_view(q), quat_conj(quat_view(q))) == quat(quat_square_len(quat_view(q)), 0, 0, 0),
        is_unit(quat_view(q)) ==> quat_mul(quat_view(q), quat_conj(quat_view(q)))
            == quat_id(),
{
    let p = quat_view(q);
    assert(p.w * (-p.x) + p.w * p.x == 0 && p.w * (-p.y) + p.w * p.y == 0 && p.w * (-p.z) + p.w * p.z
        == 0) by (nonlinear_arith);
    assert(p.y * (-p.z) - p.z * (-p.y) == 0 && p.z * (-p.x) - p.x * (-p.z) == 0 && p.x * (-p.y) - p.y
        * (-p.x) == 0) by (nonlinear_arith);
    assert(p.w * p.w - (p.x * (-p.x) + p.y * (-p.y) + p.z * (-p.z)) == quat_square_len(p))
        by (nonlinear_arith);
}

/// Rotating a vector leaves no scalar part, and scales the square length of
/// the vector by `square_len(q)` squared; so a unit `q` keeps the length of
/// every vector: `len(rotate_vector(q, v)) == len(v)`.
pub proof fn lemma_rotation_preserves_norm(q: Quaternion, v: Vector3)
    ensures
        quat_rotate(quat_view(q), vec_view(v)).w == 0,
        vec3_square_len(vector_part(quat_rotate(quat_view(q), vec_view(v)))) == quat_square_len(
            quat_view(q),
        ) * quat_square_len(quat_view(q)) * vec3_square_len(vec_view(v)),
        is_unit(quat_view(q)) ==> vec3_square_len(
            vector_part(quat_rotate(quat_view(q), vec_view(v))),
        ) == vec3_square_len(vec_view(v)),
{
    let p = quat_view(q);
    let u = pure_quat(vec_view(v));
    let c = quat_conj(p);
    let m = quat_mul(p, u);
    let r = quat_mul(m, c);
    let (pw, px, py, pz) = (p.w, p.x, p.y, p.z);
    let (vx, vy, vz) = (u.x, u.y, u.z);
    let (mw, mx, my, mz) = (m.w, m.x, m.y, m.z);
    assert(mw == -(px * vx + py * vy + pz * vz) && mx == pw * vx + (py * vz - pz * vy) && my == pw
        * vy + (pz * vx - px * vz) && mz == pw * vz + (px * vy - py * vx)) by (nonlinear_arith)
        requires
            u.w == 0,
            mw == pw * u.w - (px * vx + py * vy + pz * vz),
            mx == pw * vx + u.w * px + (py * vz - pz * vy),
            my == pw * vy + u.w * py + (pz * vx - px * vz),
            mz == pw * vz + u.w * pz + (px * vy - py * vx),
    ;
    lemma_distribute(pw, px * vx, py * vy, pz * vz);
    lemma_distribute(px, pw * vx, py * vz, pz * vy);
    lemma_distribute(py, pw * vy, pz * vx, px * vz);
    lemma_distribute(pz, pw * vz, px * vy, py * vx);
    lemma_mul3(pw, px, vx);
    lemma_mul3(pw, py, vy);
    lemma_mul3(pw, pz, vz);
    lemma_mul3(px, py, vz);
    lemma_mul3(px, pz, vy);
    lemma_mul3(py, pz, vx);
    assert(r.w == mw * pw + mx * px + my * py + mz * pz) by (nonlinear_arith)
        requires
            r.w == mw * pw - (mx * -px + my * -py + mz * -pz),
    ;
    lemma_square_len_mul(p, u);
    lemma_square_len_mul(m, c);
    let (sp, sv) = (quat_square_len(p), vec3_square_len(vec_view(v)));
    assert(quat_square_len(c) == sp && quat_square_len(u) == sv) by (nonlinear_arith)
        requires
            c.w == pw && c.x == -px && c.y == -py && c.z == -pz,
            u.w == 0 && u.x == vx && u.y == vy && u.z == vz,
            sp == pw * pw + px * px + py * py + pz * pz,
            sv == vx * vx + vy * vy + vz * vz,
            quat_square_len(c) == c.w * c.w + c.x * c.x + c.y * c.y + c.z * c.z,
            quat_square_len(u) == u.w * u.w + u.x * u.x + u.y * u.y + u.z * u.z,
    ;
    assert(quat_square_len(r) == sp * sp * sv) by (nonlinear_arith)
        requires
            quat_square_len(r) == quat_square_len(m) * quat_square_len(c),
            quat_square_len(m) == sp * sv,
            quat_square_len(c) == sp,
    ;
    assert(vec3_square_len(vector_part(r)) == quat_square_len(r)) by (nonlinear_arith)
        requires
            r.w == 0,
            vec3_square_len(vector_part(r)) == r.x * r.x + r.y * r.y + r.z * r.z,
            quat_square_len(r) == r.w * r.w + r.x * r.x + r.y * r.y + r.z * r.z,
    ;
}

/// Multiplying a sum of three terms by `k`, term by term.
proof fn lemma_distribute(k: int, a: int, b: int, c: int) by (nonlinear_arith)
    ensures
        (a + (b - c)) * k == a * k + b * k - c * k,
        -(a + b + c) * k == -(a * k) - b * k - c * k,
{
}

/// Multiplying a sum of four terms by `k`, term by term, on either side.
proof fn lemma_distribute4(k: int, a: int, b: int, c: int, d: int) by (nonlinear_arith)
    ensures
        (a + b + c + d) * k == a * k + b * k + c * k + d * k,
        k * (a + b + c + d) == k * a + k * b + k * c + k * d,
{
}

/// A product of three factors does not depend on their order.
proof fn lemma_mul3(a: int, b: int, c: int) by (nonlinear_arith)
    ensures
        (a * c) * b == (a * b) * c,
        (b * c) * a == (a * b) * c,
        (c * a) * b == (a * b) * c,
        (c * b) * a == (a * b) * c,
        (b * a) * c == (a * b) * c,
{
}

/// `(a * b) * (c * d) == (a * d) * (c * b)`, in each order of the outer factors.
proof fn lemma_swap_factors(a: int, b: int, c: int, d: int) by (nonlinear_arith)
    ensures
        (a * b) * (c * d) == (a * d) * (c * b),
        (c * d) * (a * b) == (a * d) * (c * b),
        (a * b) * (c * d) == (c * b) * (a * d),
        (c * d) * (a * b) == (c * b) * (a * d),
{
}

/// `(a * a) * (b * b) == (a * b) * (a * b)`.
proof fn lemma_square_of_product(a: int, b: int) by (nonlinear_arith)
    ensures
        (a * a) * (b * b) == (a * b) * (a * b),
{
}

/// The square length of a product is the product of the square lengths.
pub proof fn lemma_square_len_mul(a: Quat, b: Quat)
    ensures
        quat_square_len(quat_mul(a, b)) == quat_square_len(a) * quat_square_len(b),
{
    let (aw, ax, ay, az) = (a.w, a.x, a.y, a.z);
    let (bw, bx, by, bz) = (b.w, b.x, b.y, b.z);
    let (pww, pwx, pwy, pwz) = (aw * bw, aw * bx, aw * by, aw * bz);
    let (pxw, pxx, pxy, pxz) = (ax * bw, ax * bx, ax * by, ax * bz);
    let (pyw, pyx, pyy, pyz) = (ay * bw, ay * bx, ay * by, ay * bz);
    let (pzw, pzx, pzy, pzz) = (az * bw, az * bx, az * by, az * bz);
    let m = quat_mul(a, b);
    let (mw, mx, my, mz) = (m.w, m.x, m.y, m.z);
    assert(bw * ax == pxw && bw * ay == pyw && bw * az == pzw) by (nonlinear_arith)
        requires
            pxw == ax * bw && pyw == ay * bw && pzw == az * bw,
    ;
    assert(mw * mw == pww * pww - 2 * (pww * pxx) - 2 * (pww * pyy) - 2 * (pww * pzz) + pxx * pxx + 2 * (pxx * pyy) + 2 * (pxx * pzz) + pyy * pyy + 2 * (pyy * pzz) + pzz * pzz) by (nonlinear_arith)
        requires
            mw == pww - pxx - pyy - pzz,
    ;
    assert(mx * mx == pwx * pwx + 2 * (pwx * pxw) + 2 * (pwx * pyz) - 2 * (pwx * pzy) + pxw * pxw + 2 * (pxw * pyz) - 2 * (pxw * pzy) + pyz * pyz - 2 * (pyz * pzy) + pzy * pzy) by (nonlinear_arith)
        requires
            mx == pwx + pxw + pyz - pzy,
    ;
    assert(my * my == pwy * pwy - 2 * (pwy * pxz) + 2 * (pwy * pyw) + 2 * (pwy * pzx) + pxz * pxz - 2 * (pxz * pyw) - 2 * (pxz * pzx) + pyw * pyw + 2 * (pyw * pzx) + pzx * pzx) by (nonlinear_arith)
        requires
            my == pwy + pyw + pzx - pxz,
    ;
    assert(mz * mz == pwz * pwz + 2 * (pwz * pxy) - 2 * (pwz * pyx) + 2 * (pwz * pzw) + pxy * pxy - 2 * (pxy * pyx) + 2 * (pxy * pzw) + pyx * pyx - 2 * (pyx * pzw) + pzw * pzw) by (nonlinear_arith)
        requires
            mz == pwz + pzw + pxy - pyx,
    ;
    lemma_swap_factors(aw, bw, ax, bx);
    lemma_swap_factors(aw, bw, ay, by);
    lemma_swap_factors(aw, bw, az, bz);
    lemma_swap_factors(aw, bx, ay, bz);
    lemma_swap_factors(aw, bx, az, by);
    lemma_swap_factors(aw, by, ax, bz);
    lemma_swap_factors(ax, bw, ay, bz);
    lemma_swap_factors(ax, bw, az, by);
    lemma_swap_factors(ax, bx, ay, by);
    lemma_swap_factors(ax, bx, az, bz);
    lemma_swap_factors(ay, bw, az, bx);
    lemma_swap_factors(ay, by, az, bz);
    lemma_square_of_product(aw, bw);
    lemma_square_of_product(aw, bx);
    lemma_square_of_product(aw, by);
    lemma_square_of_product(aw, bz);
    lemma_square_of_product(ax, bw);
    lemma_square_of_product(ax, bx);
    lemma_square_of_product(ax, by);
    lemma_square_of_product(ax, bz);
    lemma_square_of_product(ay, bw);
    lemma_square_of_product(ay, bx);
    lemma_square_of_product(ay, by);
    lemma_square_of_product(ay, bz);
    lemma_square_of_product(az, bw);
    lemma_square_of_product(az, bx);
    lemma_square_of_product(az, by);
    lemma_square_of_product(az, bz);
    let (sw, sx, sy, sz) = (aw * aw, ax * ax, ay * ay, az * az);
    let (tw, tx, ty, tz) = (bw * bw, bx * bx, by * by, bz * bz);
    let (na, nb) = (quat_square_len(a), quat_square_len(b));
    assert(na == sw + sx + sy + sz && nb == tw + tx + ty + tz);
    lemma_distribute4(nb, sw, sx, sy, sz);
    lemma_distribute4(sw, tw, tx, ty, tz);
    lemma_distribute4(sx, tw, tx, ty, tz);
    lemma_distribute4(sy, tw, tx, ty, tz);
    lemma_distribute4(sz, tw, tx, ty, tz);
}

} // verus!
