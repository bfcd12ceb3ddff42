//! Exact laws of the vector and camera algebra.
//!
//! The front-end computes with approximate arithmetic, but the formulas it
//! evaluates — dot and cross products, Rodrigues' rotation, the projection
//! onto the camera basis, the gravity kicks of a body pair — are algebraic,
//! and their structural laws hold exactly.  This module states the formulas
//! over unbounded integers and proves those laws: the symmetry of the pair
//! interaction, the linearity of the projection, the behaviour of rotation,
//! the orthogonality of the derived camera basis, and the composition of
//! zooms.

use vstd::prelude::*;

verus! {

/// A point or direction, by components.
pub type Vector3 = (int, int, int);

/// Componentwise sum.
pub open spec fn add3(a: Vector3, b: Vector3) -> Vector3 {
    (a.0 + b.0, a.1 + b.1, a.2 + b.2)
}

/// Componentwise difference.
pub open spec fn sub3(a: Vector3, b: Vector3) -> Vector3 {
    (a.0 - b.0, a.1 - b.1, a.2 - b.2)
}

/// The vector scaled by `k`.
pub open spec fn scale3(a: Vector3, k: int) -> Vector3 {
    (a.0 * k, a.1 * k, a.2 * k)
}

/// The opposite vector.
pub open spec fn neg3(a: Vector3) -> Vector3 {
    (-a.0, -a.1, -a.2)
}

/// The zero vector.
pub open spec fn zero3() -> Vector3 {
    (0, 0, 0)
}

/// Dot product.
pub open spec fn dot3(a: Vector3, b: Vector3) -> int {
    a.0 * b.0 + a.1 * b.1 + a.2 * b.2
}

/// Cross product, by the determinant formula.
pub open spec fn cross3(a: Vector3, b: Vector3) -> Vector3 {
    (a.1 * b.2 - a.2 * b.1, a.2 * b.0 - a.0 * b.2, a.0 * b.1 - a.1 * b.0)
}

/// Squared Euclidean norm.
pub open spec fn norm2(a: Vector3) -> int {
    dot3(a, a)
}

/// Rodrigues' rotation of `v` about the unit axis `a`, written with the
/// cosine `c` and sine `s` of the angle as parameters:
/// `v*c + a*(v . a)*(1 - c) + (a x v)*s`.
pub open spec fn rotate3(v: Vector3, a: Vector3, c: int, s: int) -> Vector3 {
    add3(add3(scale3(v, c), scale3(a, dot3(v, a) * (1 - c))), scale3(cross3(a, v), s))
}

/// Projection of the point `p` onto the camera basis `(right, up, fwd)`:
/// screen x (negated by the screen-handedness convention), screen y, and
/// the depth along the forward axis.
pub open spec fn project3(p: Vector3, right: Vector3, up: Vector3, fwd: Vector3) -> (
    int,
    int,
    int,
) {
    (-dot3(p, right), dot3(p, up), dot3(p, fwd))
}

/// Dot distributes over a sum on the left.
pub proof fn lemma_dot_add_left(a: Vector3, b: Vector3, w: Vector3)
    ensures
        dot3(add3(a, b), w) == dot3(a, w) + dot3(b, w),
{
    assert((a.0 + b.0) * w.0 == a.0 * w.0 + b.0 * w.0) by (nonlinear_arith);
    assert((a.1 + b.1) * w.1 == a.1 * w.1 + b.1 * w.1) by (nonlinear_arith);
    assert((a.2 + b.2) * w.2 == a.2 * w.2 + b.2 * w.2) by (nonlinear_arith);
}

/// Dot distributes over a sum on the right.
pub proof fn lemma_dot_add_right(w: Vector3, a: Vector3, b: Vector3)
    ensures
        dot3(w, add3(a, b)) == dot3(w, a) + dot3(w, b),
{
    assert(w.0 * (a.0 + b.0) == w.0 * a.0 + w.0 * b.0) by (nonlinear_arith);
    assert(w.1 * (a.1 + b.1) == w.1 * a.1 + w.1 * b.1) by (nonlinear_arith);
    assert(w.2 * (a.2 + b.2) == w.2 * a.2 + w.2 * b.2) by (nonlinear_arith);
}

/// A scale factor moves out of the left argument of a dot product.
pub proof fn lemma_dot_scale_left(a: Vector3, k: int, w: Vector3)
    ensures
        dot3(scale3(a, k), w) == k * dot3(a, w),
{
    assert((a.0 * k) * w.0 == k * (a.0 * w.0)) by (nonlinear_arith);
    assert((a.1 * k) * w.1 == k * (a.1 * w.1)) by (nonlinear_arith);
    assert((a.2 * k) * w.2 == k * (a.2 * w.2)) by (nonlinear_arith);
    assert(k * (a.0 * w.0) + k * (a.1 * w.1) + k * (a.2 * w.2) == k * (a.0 * w.0 + a.1 * w.1 + a.2
        * w.2)) by (nonlinear_arith);
}

/// A scale factor moves out of the right argument of a dot product.
pub proof fn lemma_dot_scale_right(w: Vector3, a: Vector3, k: int)
    ensures
        dot3(w, scale3(a, k)) == k * dot3(w, a),
{
    assert(w.0 * (a.0 * k) == k * (w.0 * a.0)) by (nonlinear_arith);
    assert(w.1 * (a.1 * k) == k * (w.1 * a.1)) by (nonlinear_arith);
    assert(w.2 * (a.2 * k) == k * (w.2 * a.2)) by (nonlinear_arith);
    assert(k * (w.0 * a.0) + k * (w.1 * a.1) + k * (w.2 * a.2) == k * (w.0 * a.0 + w.1 * a.1 + w.2
        * a.2)) by (nonlinear_arith);
}

/// Dot is symmetric.
pub proof fn lemma_dot_comm(a: Vector3, b: Vector3)
    ensures
        dot3(a, b) == dot3(b, a),
{
    assert(a.0 * b.0 + a.1 * b.1 + a.2 * b.2 == b.0 * a.0 + b.1 * a.1 + b.2 * a.2)
        by (nonlinear_arith);
}

/// The cross product is perpendicular to both of its factors: the camera
/// basis invariant.  The basis is built as `up = fwd x right'`, and the
/// azimuth reference as `right' = dir x z`, so both derived axes are
/// perpendicular to the axes they were derived from.
pub proof fn lemma_cross_orthogonal(a: Vector3, b: Vector3)
    ensures
        dot3(cross3(a, b), a) == 0,
        dot3(cross3(a, b), b) == 0,
{
    assert((a.1 * b.2 - a.2 * b.1) * a.0 + (a.2 * b.0 - a.0 * b.2) * a.1 + (a.0 * b.1 - a.1 * b.0)
        * a.2 == 0) by (nonlinear_arith);
    assert((a.1 * b.2 - a.2 * b.1) * b.0 + (a.2 * b.0 - a.0 * b.2) * b.1 + (a.0 * b.1 - a.1 * b.0)
        * b.2 == 0) by (nonlinear_arith);
}

/// A vector is parallel to itself: its self-cross-product vanishes, so the
/// `is_parallel` test by cross product accepts equal directions.
pub proof fn lemma_cross_self(a: Vector3)
    ensures
        cross3(a, a) == zero3(),
{
    assert(a.1 * a.2 - a.2 * a.1 == 0);
    assert(a.2 * a.0 - a.0 * a.2 == 0);
    assert(a.0 * a.1 - a.1 * a.0 == 0);
}

/// Lagrange's identity: the squared norm of a cross product.
pub proof fn lemma_lagrange(a: Vector3, b: Vector3)
    ensures
        norm2(cross3(a, b)) == norm2(a) * norm2(b) - dot3(a, b) * dot3(a, b),
{
    let a0: int = a.0;
    let a1: int = a.1;
    let a2: int = a.2;
    let b0: int = b.0;
    let b1: int = b.1;
    let b2: int = b.2;
    let nb: int = b0 * b0 + b1 * b1 + b2 * b2;
    let u0: int = a0 * b0;
    let u1: int = a1 * b1;
    let u2: int = a2 * b2;

    // The three squared components of the cross product.
    assert((a1 * b2 - a2 * b1) * (a1 * b2 - a2 * b1) == (a1 * b2) * (a1 * b2) - 2 * ((a1 * b2) * (
    a2 * b1)) + (a2 * b1) * (a2 * b1)) by (nonlinear_arith);
    assert((a2 * b0 - a0 * b2) * (a2 * b0 - a0 * b2) == (a2 * b0) * (a2 * b0) - 2 * ((a2 * b0) * (
    a0 * b2)) + (a0 * b2) * (a0 * b2)) by (nonlinear_arith);
    assert((a0 * b1 - a1 * b0) * (a0 * b1 - a1 * b0) == (a0 * b1) * (a0 * b1) - 2 * ((a0 * b1) * (
    a1 * b0)) + (a1 * b0) * (a1 * b0)) by (nonlinear_arith);

    // The product of the two squared norms, one row at a time.
    assert((a0 * a0 + a1 * a1 + a2 * a2) * nb == (a0 * a0) * nb + (a1 * a1) * nb + (a2 * a2) * nb)
        by (nonlinear_arith);
    let c0: int = b0 * b0;
    let c1: int = b1 * b1;
    let c2: int = b2 * b2;
    assert((a0 * a0) * nb == (a0 * a0) * c0 + (a0 * a0) * c1 + (a0 * a0) * c2) by (nonlinear_arith)
        requires
            nb == c0 + c1 + c2,
    ;
    assert((a1 * a1) * nb == (a1 * a1) * c0 + (a1 * a1) * c1 + (a1 * a1) * c2) by (nonlinear_arith)
        requires
            nb == c0 + c1 + c2,
    ;
    assert((a2 * a2) * nb == (a2 * a2) * c0 + (a2 * a2) * c1 + (a2 * a2) * c2) by (nonlinear_arith)
        requires
            nb == c0 + c1 + c2,
    ;
    assert((a0 * a0) * (b0 * b0) == (a0 * b0) * (a0 * b0)) by (nonlinear_arith);
    assert((a0 * a0) * (b1 * b1) == (a0 * b1) * (a0 * b1)) by (nonlinear_arith);
    assert((a0 * a0) * (b2 * b2) == (a0 * b2) * (a0 * b2)) by (nonlinear_arith);
    assert((a1 * a1) * (b0 * b0) == (a1 * b0) * (a1 * b0)) by (nonlinear_arith);
    assert((a1 * a1) * (b1 * b1) == (a1 * b1) * (a1 * b1)) by (nonlinear_arith);
    assert((a1 * a1) * (b2 * b2) == (a1 * b2) * (a1 * b2)) by (nonlinear_arith);
    assert((a2 * a2) * (b0 * b0) == (a2 * b0) * (a2 * b0)) by (nonlinear_arith);
    assert((a2 * a2) * (b1 * b1) == (a2 * b1) * (a2 * b1)) by (nonlinear_arith);
    assert((a2 * a2) * (b2 * b2) == (a2 * b2) * (a2 * b2)) by (nonlinear_arith);

    // The squared dot product.
    assert((u0 + u1 + u2) * (u0 + u1 + u2) == u0 * u0 + u1 * u1 + u2 * u2 + 2 * (u0 * u1) + 2 * (u0
        * u2) + 2 * (u1 * u2)) by (nonlinear_arith);

    // The mixed cross-term monomials regroup into products of diagonals.
    assert((a1 * b2) * (a2 * b1) == (a1 * b1) * (a2 * b2)) by (nonlinear_arith);
    assert((a2 * b0) * (a0 * b2) == (a0 * b0) * (a2 * b2)) by (nonlinear_arith);
    assert((a0 * b1) * (a1 * b0) == (a0 * b0) * (a1 * b1)) by (nonlinear_arith);

    assert(u0 * u0 == (a0 * b0) * (a0 * b0));
    assert(u1 * u1 == (a1 * b1) * (a1 * b1));
    assert(u2 * u2 == (a2 * b2) * (a2 * b2));
    assert(u0 * u1 == (a0 * b0) * (a1 * b1));
    assert(u0 * u2 == (a0 * b0) * (a2 * b2));
    assert(u1 * u2 == (a1 * b1) * (a2 * b2));

    assert(norm2(a) * norm2(b) == (a0 * a0 + a1 * a1 + a2 * a2) * nb);
    assert(dot3(a, b) * dot3(a, b) == (u0 + u1 + u2) * (u0 + u1 + u2));
}

/// The separation of a body pair is antisymmetric: each body sees the
/// other along the opposite direction, so one difference vector serves
/// both kicks of the pair.
pub proof fn lemma_diff_antisymmetric(a: Vector3, b: Vector3)
    ensures
        sub3(a, b) == neg3(sub3(b, a)),
{
}

/// Symmetry of the pair interaction: in one force-accumulation step the two
/// bodies of a pair receive kicks along the same unit direction `u`, scaled
/// by opposite factors; the kicks are opposite vectors and therefore equal
/// in magnitude.
pub proof fn lemma_kick_antisymmetric(u: Vector3, k: int)
    ensures
        scale3(u, -k) == neg3(scale3(u, k)),
        add3(scale3(u, -k), scale3(u, k)) == zero3(),
        norm2(scale3(u, -k)) == norm2(scale3(u, k)),
{
    assert(u.0 * -k == -(u.0 * k)) by (nonlinear_arith);
    assert(u.1 * -k == -(u.1 * k)) by (nonlinear_arith);
    assert(u.2 * -k == -(u.2 * k)) by (nonlinear_arith);
    assert((-(u.0 * k)) * (-(u.0 * k)) == (u.0 * k) * (u.0 * k)) by (nonlinear_arith);
    assert((-(u.1 * k)) * (-(u.1 * k)) == (u.1 * k) * (u.1 * k)) by (nonlinear_arith);
    assert((-(u.2 * k)) * (-(u.2 * k)) == (u.2 * k) * (u.2 * k)) by (nonlinear_arith);
}

/// The projection is additive: converting a sum of points gives the
/// componentwise sum of the conversions, for a fixed basis.
pub proof fn lemma_project_additive(p: Vector3, q: Vector3, right: Vector3, up: Vector3, fwd: Vector3)
    ensures
        project3(add3(p, q), right, up, fwd).0 == project3(p, right, up, fwd).0 + project3(
            q,
            right,
            up,
            fwd,
        ).0,
        project3(add3(p, q), right, up, fwd).1 == project3(p, right, up, fwd).1 + project3(
            q,
            right,
            up,
            fwd,
        ).1,
        project3(add3(p, q), right, up, fwd).2 == project3(p, right, up, fwd).2 + project3(
            q,
            right,
            up,
            fwd,
        ).2,
{
    lemma_dot_add_left(p, q, right);
    lemma_dot_add_left(p, q, up);
    lemma_dot_add_left(p, q, fwd);
}

/// The projection is homogeneous: converting a scaled point scales each
/// component of the conversion, for a fixed basis.
pub proof fn lemma_project_homogeneous(p: Vector3, k: int, right: Vector3, up: Vector3, fwd: Vector3)
    ensures
        project3(scale3(p, k), right, up, fwd).0 == k * project3(p, right, up, fwd).0,
        project3(scale3(p, k), right, up, fwd).1 == k * project3(p, right, up, fwd).1,
        project3(scale3(p, k), right, up, fwd).2 == k * project3(p, right, up, fwd).2,
{
    lemma_dot_scale_left(p, k, right);
    lemma_dot_scale_left(p, k, up);
    lemma_dot_scale_left(p, k, fwd);
    assert(-(k * dot3(p, right)) == k * (-dot3(p, right))) by (nonlinear_arith);
}

/// Rotation by a zero angle (cosine 1, sine 0) is the identity, whatever
/// the axis.
pub proof fn lemma_rotate_zero(v: Vector3, a: Vector3)
    ensures
        rotate3(v, a, 1, 0) == v,
{
    let d: int = dot3(v, a);
    let cr = cross3(a, v);
    assert(v.0 * 1 + a.0 * (d * (1 - 1)) + cr.0 * 0 == v.0) by (nonlinear_arith);
    assert(v.1 * 1 + a.1 * (d * (1 - 1)) + cr.1 * 0 == v.1) by (nonlinear_arith);
    assert(v.2 * 1 + a.2 * (d * (1 - 1)) + cr.2 * 0 == v.2) by (nonlinear_arith);
    assert(rotate3(v, a, 1, 0).0 == v.0);
    assert(rotate3(v, a, 1, 0).1 == v.1);
    assert(rotate3(v, a, 1, 0).2 == v.2);
}

/// Rotation about a unit axis preserves the squared norm, for any exact
/// cosine/sine pair.
pub proof fn lemma_rotate_preserves_norm(v: Vector3, a: Vector3, c: int, s: int)
    requires
        norm2(a) == 1,
        c * c + s * s == 1,
    ensures
        norm2(rotate3(v, a, c, s)) == norm2(v),
{
    let nv: int = norm2(v);
    let d: int = dot3(v, a);
    let dc: int = d * (1 - c);
    let t1 = scale3(v, c);
    let t2 = scale3(a, dc);
    let t3 = scale3(cross3(a, v), s);
    let av = cross3(a, v);
    let u = add3(t1, t2);
    let w = add3(u, t3);
    assert(w == rotate3(v, a, c, s));

    lemma_dot_add_left(u, t3, w);
    lemma_dot_add_right(u, u, t3);
    lemma_dot_add_right(t3, u, t3);
    lemma_dot_add_left(t1, t2, u);
    lemma_dot_add_right(t1, t1, t2);
    lemma_dot_add_right(t2, t1, t2);
    lemma_dot_add_left(t1, t2, t3);
    lemma_dot_add_right(t3, t1, t2);

    // The six distinct pair products, reduced to scalars.
    lemma_dot_scale_left(v, c, t1);
    lemma_dot_scale_right(v, v, c);
    assert(dot3(t1, t1) == c * (c * nv));

    lemma_dot_scale_left(v, c, t2);
    lemma_dot_scale_right(v, a, dc);
    assert(dot3(t1, t2) == c * (dc * d));
    lemma_dot_scale_left(a, dc, t1);
    lemma_dot_scale_right(a, v, c);
    lemma_dot_comm(a, v);
    assert(dot3(t2, t1) == dc * (c * d));

    lemma_dot_scale_left(v, c, t3);
    lemma_dot_scale_right(v, av, s);
    lemma_cross_orthogonal(a, v);
    lemma_dot_comm(v, av);
    assert(dot3(v, av) == 0);
    assert(dot3(t1, t3) == c * (s * 0));
    lemma_dot_scale_left(av, s, t1);
    lemma_dot_scale_right(av, v, c);
    assert(dot3(t3, t1) == s * (c * 0));

    lemma_dot_scale_left(a, dc, t2);
    lemma_dot_scale_right(a, a, dc);
    assert(dot3(t2, t2) == dc * (dc * 1));

    lemma_dot_scale_left(a, dc, t3);
    lemma_dot_scale_right(a, av, s);
    lemma_dot_comm(a, av);
    assert(dot3(a, av) == 0);
    assert(dot3(t2, t3) == dc * (s * 0));
    lemma_dot_scale_left(av, s, t2);
    lemma_dot_scale_right(av, a, dc);
    assert(dot3(t3, t2) == s * (dc * 0));

    lemma_dot_scale_left(av, s, t3);
    lemma_dot_scale_right(av, av, s);
    lemma_lagrange(a, v);
    lemma_dot_comm(a, v);
    assert(dot3(av, av) == 1 * nv - d * d);
    assert(dot3(t3, t3) == s * (s * (1 * nv - d * d)));

    assert(norm2(w) == c * (c * nv) + c * (dc * d) + dc * (c * d) + c * (s * 0) + s * (c * 0) + dc
        * (dc * 1) + dc * (s * 0) + s * (dc * 0) + s * (s * (1 * nv - d * d)));

    let t: int = 1 - c;
    assert(c * (c * nv) == (c * c) * nv) by (nonlinear_arith);
    assert(c * (dc * d) + dc * (c * d) == 2 * ((c * t) * (d * d))) by (nonlinear_arith)
        requires
            dc == d * t,
    ;
    assert(dc * (dc * 1) == (t * t) * (d * d)) by (nonlinear_arith)
        requires
            dc == d * t,
    ;
    assert(s * (s * (1 * nv - d * d)) == (s * s) * nv - (s * s) * (d * d)) by (nonlinear_arith);
    assert((c * c) * nv + 2 * ((c * t) * (d * d)) + (t * t) * (d * d) + ((s * s) * nv - (s * s) * (
    d * d)) == nv) by (nonlinear_arith)
        requires
            t == 1 - c,
            c * c + s * s == 1,
    ;
}

/// Rotation about a unit axis keeps the component along that axis: the
/// azimuth rotation of the camera turns the right axis around the viewing
/// axis without tilting it out of the view plane.
pub proof fn lemma_rotate_keeps_axis_component(v: Vector3, a: Vector3, c: int, s: int)
    requires
        norm2(a) == 1,
    ensures
        dot3(rotate3(v, a, c, s), a) == dot3(v, a),
{
    let d: int = dot3(v, a);
    let dc: int = d * (1 - c);
    let t1 = scale3(v, c);
    let t2 = scale3(a, dc);
    let t3 = scale3(cross3(a, v), s);
    let u = add3(t1, t2);
    lemma_dot_add_left(u, t3, a);
    lemma_dot_add_left(t1, t2, a);
    lemma_dot_scale_left(v, c, a);
    lemma_dot_scale_left(a, dc, a);
    lemma_dot_scale_left(cross3(a, v), s, a);
    lemma_cross_orthogonal(a, v);
    assert(c * d + dc * 1 + s * 0 == d) by (nonlinear_arith)
        requires
            dc == d * (1 - c),
    ;
}

/// The camera basis is orthogonal, as derived: for a unit viewing axis off
/// the world z axis, the azimuth reference `dir x z` is perpendicular to
/// the viewing axis, rotating it about that axis and scaling it keep it
/// so, and the up axis, a cross product of the two, is perpendicular to
/// both.
pub proof fn lemma_camera_basis_orthogonal(dir: Vector3, scale: int, c: int, s: int)
    requires
        norm2(dir) == 1,
    ensures
        ({
            let right = scale3(rotate3(cross3(dir, (0, 0, 1)), dir, c, s), scale);
            let up = cross3(dir, right);
            &&& dot3(right, dir) == 0
            &&& dot3(up, dir) == 0
            &&& dot3(up, right) == 0
        }),
{
    let rb = cross3(dir, (0, 0, 1));
    let rotated = rotate3(rb, dir, c, s);
    let right = scale3(rotated, scale);
    let up = cross3(dir, right);
    lemma_cross_orthogonal(dir, (0, 0, 1));
    lemma_rotate_keeps_axis_component(rb, dir, c, s);
    lemma_dot_scale_left(rotated, scale, dir);
    lemma_cross_orthogonal(dir, right);
    lemma_dot_comm(up, dir);
    lemma_dot_comm(up, right);
}

/// A vector and any multiple of it are parallel: their cross product
/// vanishes, so the cross-product test for parallel directions accepts
/// every pair on one line through the origin.
pub proof fn lemma_scaled_parallel(a: Vector3, k: int)
    ensures
        cross3(a, scale3(a, k)) == zero3(),
{
    assert(a.1 * (a.2 * k) - a.2 * (a.1 * k) == 0) by (nonlinear_arith);
    assert(a.2 * (a.0 * k) - a.0 * (a.2 * k) == 0) by (nonlinear_arith);
    assert(a.0 * (a.1 * k) - a.1 * (a.0 * k) == 0) by (nonlinear_arith);
}

/// The pair rule conserves momentum exactly: weighing each kick by the
/// mass of the body that receives it, the two momentum changes of a pair
/// cancel, whatever the masses.  The scalar `q` stands for the shared
/// factor of the kick strengths (the time step over the squared
/// separation).
pub proof fn lemma_momentum_conserved(u: Vector3, mi: int, mj: int, q: int)
    ensures
        add3(scale3(scale3(u, -(q * mj)), mi), scale3(scale3(u, q * mi), mj)) == zero3(),
{
    assert((u.0 * -(q * mj)) * mi + (u.0 * (q * mi)) * mj == 0) by (nonlinear_arith);
    assert((u.1 * -(q * mj)) * mi + (u.1 * (q * mi)) * mj == 0) by (nonlinear_arith);
    assert((u.2 * -(q * mj)) * mi + (u.2 * (q * mi)) * mj == 0) by (nonlinear_arith);
}

/// A point or direction in the view plane, by components.
pub type Vector2 = (int, int);

/// Rotation in the plane, written with the cosine `c` and sine `s` of the
/// angle as parameters: the standard rotation matrix applied to `v`.
pub open spec fn rotate2(v: Vector2, c: int, s: int) -> Vector2 {
    (c * v.0 - s * v.1, c * v.1 + s * v.0)
}

/// Squared Euclidean norm in the plane.
pub open spec fn norm2_2d(v: Vector2) -> int {
    v.0 * v.0 + v.1 * v.1
}

/// Plane rotation by a zero angle (cosine 1, sine 0) is the identity.
pub proof fn lemma_rotate2_zero(v: Vector2)
    ensures
        rotate2(v, 1, 0) == v,
{
}

/// Plane rotation preserves the squared norm, for any exact cosine/sine
/// pair.
pub proof fn lemma_rotate2_preserves_norm(v: Vector2, c: int, s: int)
    requires
        c * c + s * s == 1,
    ensures
        norm2_2d(rotate2(v, c, s)) == norm2_2d(v),
{
    assert((c * v.0 - s * v.1) * (c * v.0 - s * v.1) + (c * v.1 + s * v.0) * (c * v.1 + s * v.0)
        == v.0 * v.0 + v.1 * v.1) by (nonlinear_arith)
        requires
            c * c + s * s == 1,
    ;
}

/// Composing two zooms multiplies their factors: scaling a basis vector by
/// `f1` and then by `f2` is scaling it once by `f1 * f2`.
pub proof fn lemma_zoom_composition(base: Vector3, f1: int, f2: int)
    ensures
        scale3(scale3(base, f1), f2) == scale3(base, f1 * f2),
{
    assert((base.0 * f1) * f2 == base.0 * (f1 * f2)) by (nonlinear_arith);
    assert((base.1 * f1) * f2 == base.1 * (f1 * f2)) by (nonlinear_arith);
    assert((base.2 * f1) * f2 == base.2 * (f1 * f2)) by (nonlinear_arith);
}

} // verus!
