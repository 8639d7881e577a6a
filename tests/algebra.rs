use quaternion::{add, conj, dot, id, mul, rotate_vector, scale, square_len, Quaternion};
use vecmath::{vec3_add, vec3_cross, vec3_dot, vec3_scale, vec3_square_len};

#[test]
fn test_add() {
    let q0: Quaternion = id();
    let q1: Quaternion = (1, [1, 1, 1]);
    assert_eq!(add(q0, q1), (2, [1, 1, 1]));
}

#[test]
fn test_scale() {
    let q: Quaternion = id();
    let t = 5;
    assert_eq!(scale(q, t), (5, [0, 0, 0]));
}

#[test]
fn test_dot() {
    let q0: Quaternion = id();
    let q1: Quaternion = id();
    assert_eq!(dot(q0, q1), 1);
}

#[test]
fn test_mul() {
    let q0: Quaternion = (2, [1, 1, 1]);
    let q1: Quaternion = (3, [1, 1, 1]);

    let q: Quaternion = (
        q0.0 * q1.0 - vec3_dot(q0.1, q1.1),
        vec3_add(vec3_cross(q0.1, q1.1), vec3_add(vec3_scale(q1.1, q0.0), vec3_scale(q0.1, q1.0))),
    );
    assert_eq!(q, mul(q0, q1));
}

#[test]
fn test_conj() {
    let q: Quaternion = (2, [1, 1, 1]);
    let q_conj: Quaternion = (2, [-1, -1, -1]);

    assert_eq!(q_conj, conj(q));
}

#[test]
fn test_square_len() {
    let q: Quaternion = (2, [1, 1, 1]);
    assert_eq!(q.0 * q.0 + vec3_square_len(q.1), square_len(q));
}

#[test]
fn id_is_the_unit_of_mul() {
    let q: Quaternion = (3, [-4, 5, 7]);
    assert_eq!(mul(id(), q), q);
    assert_eq!(mul(q, id()), q);
}

#[test]
fn id_is_not_the_unit_of_add() {
    let q: Quaternion = (3, [-4, 5, 7]);
    assert_ne!(add(id(), q), q);
}

#[test]
fn add_commutes() {
    let a: Quaternion = (1, [2, -3, 4]);
    let b: Quaternion = (-5, [6, 7, -8]);
    assert_eq!(add(a, b), add(b, a));
    assert_eq!(add(a, b), (-4, [8, 4, -4]));
}

#[test]
fn scale_distributes_over_add() {
    let a: Quaternion = (1, [2, -3, 4]);
    let b: Quaternion = (-5, [6, 7, -8]);
    assert_eq!(scale(add(a, b), -3), add(scale(a, -3), scale(b, -3)));
    assert_eq!(scale(a, -3), (-3, [-6, 9, -12]));
}

#[test]
fn dot_is_symmetric() {
    let a: Quaternion = (1, [2, -3, 4]);
    let b: Quaternion = (-5, [6, 7, -8]);
    assert_eq!(dot(a, b), dot(b, a));
    assert_eq!(dot(a, b), -5 + 12 - 21 - 32);
}

#[test]
fn square_len_is_self_dot() {
    let q: Quaternion = (1, [2, -3, 4]);
    assert_eq!(square_len(q), dot(q, q));
    assert_eq!(square_len(q), 30);
}

#[test]
fn mul_is_not_commutative() {
    let i: Quaternion = (0, [1, 0, 0]);
    let j: Quaternion = (0, [0, 1, 0]);
    assert_eq!(mul(i, j), (0, [0, 0, 1]));
    assert_eq!(mul(j, i), (0, [0, 0, -1]));
}

#[test]
fn mul_by_conj_gives_square_len() {
    let q: Quaternion = (1, [2, -3, 4]);
    assert_eq!(mul(q, conj(q)), (30, [0, 0, 0]));
    let u: Quaternion = (0, [0, 0, 1]);
    assert_eq!(mul(u, conj(u)), id());
}

#[test]
fn mul_large_components() {
    let a: Quaternion = (i64::MAX, [0, 0, 0]);
    let b: Quaternion = (1, [0, 0, 0]);
    assert_eq!(mul(a, b), (i64::MAX, [0, 0, 0]));
    let c: Quaternion = (i64::MIN, [0, 0, 0]);
    let d: Quaternion = (0, [1, 0, 1]);
    assert_eq!(mul(c, d), (0, [i64::MIN, 0, i64::MIN]));
}

#[test]
fn rotate_by_unit_half_turn() {
    let q: Quaternion = (0, [0, 0, 1]);
    let v = [1, 2, 3];
    let r = rotate_vector(q, v);
    assert_eq!(r, [-1, -2, 3]);
    assert_eq!(square_len((0, r)), square_len((0, v)));
}

#[test]
fn rotate_opposite_direction_scaled() {
    let q: Quaternion = (0, [0, -1, 1]);
    let a = [1, 1, 1];
    assert_eq!(rotate_vector(q, a), [-2, -2, -2]);
}

#[test]
fn rotate_by_identity() {
    let v = [4, -5, 6];
    assert_eq!(rotate_vector(id(), v), v);
}
