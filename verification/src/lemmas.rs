//! Steps of polynomial algebra over the reals that the laws rest on. Each
//! product of sums is expanded once, over named monomials, so that what is
//! left to check between two steps is linear.

use crate::arith::Arith;
use crate::matrix::{Matrix3, Matrix4};
use crate::quaternion::Quaternion;
use crate::transform::Pose;
use crate::vector::Vector3;
use vstd::prelude::*;

verus! {

/// In a product of two products, the inner factors can change places.
pub proof fn lemma_swap(a: real, b: real, c: real, d: real)
    ensures
        (a * b) * (c * d) == (a * c) * (b * d),
{
    assert((a * b) * (c * d) == (a * c) * (b * d)) by (nonlinear_arith);
}

/// A third factor can be taken into a product from the right.
pub proof fn lemma_turn(a: real, b: real, c: real)
    ensures
        (a * b) * c == (c * a) * b,
        (a * b) * c == (a * c) * b,
{
    assert((a * b) * c == (c * a) * b) by (nonlinear_arith);
    assert((a * b) * c == (a * c) * b) by (nonlinear_arith);
}

/// A factor can be taken into a product from the left.
pub proof fn lemma_regroup(a: real, b: real, c: real)
    ensures
        a * (b * c) == (a * b) * c,
        a * (b * c) == (b * a) * c,
{
    assert(a * (b * c) == (a * b) * c) by (nonlinear_arith);
    assert(a * (b * c) == (b * a) * c) by (nonlinear_arith);
}

/// Every product of two components of a product of quaternions, written
/// out over the products of two components of the first factor with two
/// components of the second.
pub proof fn lemma_product_squares(p: Quaternion<real>, q: Quaternion<real>)
    ensures
        p.product(q).w * p.product(q).w == (p.w * p.w) * (q.w * q.w)
            - 2real * ((p.w * p.x) * (q.w * q.x)) - 2real * ((p.w * p.y) * (q.w * q.y))
            - 2real * ((p.w * p.z) * (q.w * q.z)) + (p.x * p.x) * (q.x * q.x)
            + 2real * ((p.x * p.y) * (q.x * q.y)) + 2real * ((p.x * p.z) * (q.x * q.z))
            + (p.y * p.y) * (q.y * q.y) + 2real * ((p.y * p.z) * (q.y * q.z))
            + (p.z * p.z) * (q.z * q.z),
        p.product(q).x * p.product(q).x == (p.w * p.w) * (q.x * q.x)
            + 2real * ((p.w * p.x) * (q.w * q.x)) + 2real * ((p.w * p.y) * (q.x * q.z))
            - 2real * ((p.w * p.z) * (q.x * q.y)) + (p.x * p.x) * (q.w * q.w)
            + 2real * ((p.x * p.y) * (q.w * q.z)) - 2real * ((p.x * p.z) * (q.w * q.y))
            + (p.y * p.y) * (q.z * q.z) - 2real * ((p.y * p.z) * (q.y * q.z))
            + (p.z * p.z) * (q.y * q.y),
        p.product(q).y * p.product(q).y == (p.w * p.w) * (q.y * q.y)
            - 2real * ((p.w * p.x) * (q.y * q.z)) + 2real * ((p.w * p.y) * (q.w * q.y))
            + 2real * ((p.w * p.z) * (q.x * q.y)) + (p.x * p.x) * (q.z * q.z)
            - 2real * ((p.x * p.y) * (q.w * q.z)) - 2real * ((p.x * p.z) * (q.x * q.z))
            + (p.y * p.y) * (q.w * q.w) + 2real * ((p.y * p.z) * (q.w * q.x))
            + (p.z * p.z) * (q.x * q.x),
        p.product(q).z * p.product(q).z == (p.w * p.w) * (q.z * q.z)
            + 2real * ((p.w * p.x) * (q.y * q.z)) - 2real * ((p.w * p.y) * (q.x * q.z))
            + 2real * ((p.w * p.z) * (q.w * q.z)) + (p.x * p.x) * (q.y * q.y)
            - 2real * ((p.x * p.y) * (q.x * q.y)) + 2real * ((p.x * p.z) * (q.w * q.y))
            + (p.y * p.y) * (q.x * q.x) - 2real * ((p.y * p.z) * (q.w * q.x))
            + (p.z * p.z) * (q.w * q.w),
        p.product(q).x * p.product(q).y == (p.w * p.w) * (q.x * q.y) - (p.w * p.x) * (q.x * q.z)
            + (p.w * p.y) * (q.w * q.x) + (p.w * p.z) * (q.x * q.x) + (p.w * p.x) * (q.w * q.y)
            - (p.x * p.x) * (q.w * q.z) + (p.x * p.y) * (q.w * q.w) + (p.x * p.z) * (q.w * q.x)
            + (p.w * p.y) * (q.y * q.z) - (p.x * p.y) * (q.z * q.z) + (p.y * p.y) * (q.w * q.z)
            + (p.y * p.z) * (q.x * q.z) - (p.w * p.z) * (q.y * q.y) + (p.x * p.z) * (q.y * q.z)
            - (p.y * p.z) * (q.w * q.y) - (p.z * p.z) * (q.x * q.y),
        p.product(q).w * p.product(q).z == (p.w * p.w) * (q.w * q.z) + (p.w * p.x) * (q.w * q.y)
            - (p.w * p.y) * (q.w * q.x) + (p.w * p.z) * (q.w * q.w) - (p.w * p.x) * (q.x * q.z)
            - (p.x * p.x) * (q.x * q.y) + (p.x * p.y) * (q.x * q.x) - (p.x * p.z) * (q.w * q.x)
            - (p.w * p.y) * (q.y * q.z) - (p.x * p.y) * (q.y * q.y) + (p.y * p.y) * (q.x * q.y)
            - (p.y * p.z) * (q.w * q.y) - (p.w * p.z) * (q.z * q.z) - (p.x * p.z) * (q.y * q.z)
            + (p.y * p.z) * (q.x * q.z) - (p.z * p.z) * (q.w * q.z),
        p.product(q).w * p.product(q).y == (p.w * p.w) * (q.w * q.y) - (p.w * p.x) * (q.w * q.z)
            + (p.w * p.y) * (q.w * q.w) + (p.w * p.z) * (q.w * q.x) - (p.w * p.x) * (q.x * q.y)
            + (p.x * p.x) * (q.x * q.z) - (p.x * p.y) * (q.w * q.x) - (p.x * p.z) * (q.x * q.x)
            - (p.w * p.y) * (q.y * q.y) + (p.x * p.y) * (q.y * q.z) - (p.y * p.y) * (q.w * q.y)
            - (p.y * p.z) * (q.x * q.y) - (p.w * p.z) * (q.y * q.z) + (p.x * p.z) * (q.z * q.z)
            - (p.y * p.z) * (q.w * q.z) - (p.z * p.z) * (q.x * q.z),
        p.product(q).x * p.product(q).z == (p.w * p.w) * (q.x * q.z) + (p.w * p.x) * (q.x * q.y)
            - (p.w * p.y) * (q.x * q.x) + (p.w * p.z) * (q.w * q.x) + (p.w * p.x) * (q.w * q.z)
            + (p.x * p.x) * (q.w * q.y) - (p.x * p.y) * (q.w * q.x) + (p.x * p.z) * (q.w * q.w)
            + (p.w * p.y) * (q.z * q.z) + (p.x * p.y) * (q.y * q.z) - (p.y * p.y) * (q.x * q.z)
            + (p.y * p.z) * (q.w * q.z) - (p.w * p.z) * (q.y * q.z) - (p.x * p.z) * (q.y * q.y)
            + (p.y * p.z) * (q.x * q.y) - (p.z * p.z) * (q.w * q.y),
        p.product(q).y * p.product(q).z == (p.w * p.w) * (q.y * q.z) + (p.w * p.x) * (q.y * q.y)
            - (p.w * p.y) * (q.x * q.y) + (p.w * p.z) * (q.w * q.y) - (p.w * p.x) * (q.z * q.z)
            - (p.x * p.x) * (q.y * q.z) + (p.x * p.y) * (q.x * q.z) - (p.x * p.z) * (q.w * q.z)
            + (p.w * p.y) * (q.w * q.z) + (p.x * p.y) * (q.w * q.y) - (p.y * p.y) * (q.w * q.x)
            + (p.y * p.z) * (q.w * q.w) + (p.w * p.z) * (q.x * q.z) + (p.x * p.z) * (q.x * q.y)
            - (p.y * p.z) * (q.x * q.x) + (p.z * p.z) * (q.w * q.x),
        p.product(q).w * p.product(q).x == (p.w * p.w) * (q.w * q.x) + (p.w * p.x) * (q.w * q.w)
            + (p.w * p.y) * (q.w * q.z) - (p.w * p.z) * (q.w * q.y) - (p.w * p.x) * (q.x * q.x)
            - (p.x * p.x) * (q.w * q.x) - (p.x * p.y) * (q.x * q.z) + (p.x * p.z) * (q.x * q.y)
            - (p.w * p.y) * (q.x * q.y) - (p.x * p.y) * (q.w * q.y) - (p.y * p.y) * (q.y * q.z)
            + (p.y * p.z) * (q.y * q.y) - (p.w * p.z) * (q.x * q.z) - (p.x * p.z) * (q.w * q.z)
            - (p.y * p.z) * (q.z * q.z) + (p.z * p.z) * (q.y * q.z),
{
    let r = p.product(q);
    let aww = p.w * q.w;
    let awx = p.w * q.x;
    let awy = p.w * q.y;
    let awz = p.w * q.z;
    let axw = p.x * q.w;
    let axx = p.x * q.x;
    let axy = p.x * q.y;
    let axz = p.x * q.z;
    let ayw = p.y * q.w;
    let ayx = p.y * q.x;
    let ayy = p.y * q.y;
    let ayz = p.y * q.z;
    let azw = p.z * q.w;
    let azx = p.z * q.x;
    let azy = p.z * q.y;
    let azz = p.z * q.z;
    assert(r.w == aww - axx - ayy - azz);
    assert(r.x == awx + axw + ayz - azy);
    assert(r.y == awy - axz + ayw + azx);
    assert(r.z == awz + axy - ayx + azw);
    assert(r.w * r.w == aww * aww - 2real * (aww * axx) - 2real * (aww * ayy)
        - 2real * (aww * azz) + axx * axx + 2real * (axx * ayy) + 2real * (axx * azz)
        + ayy * ayy + 2real * (ayy * azz) + azz * azz) by (nonlinear_arith)
        requires
            r.w == aww - axx - ayy - azz,
    ;
    assert(r.x * r.x == awx * awx + 2real * (awx * axw) + 2real * (awx * ayz)
        - 2real * (awx * azy) + axw * axw + 2real * (axw * ayz) - 2real * (axw * azy)
        + ayz * ayz - 2real * (ayz * azy) + azy * azy) by (nonlinear_arith)
        requires
            r.x == awx + axw + ayz - azy,
    ;
    assert(r.y * r.y == awy * awy - 2real * (awy * axz) + 2real * (awy * ayw)
        + 2real * (awy * azx) + axz * axz - 2real * (axz * ayw) - 2real * (axz * azx)
        + ayw * ayw + 2real * (ayw * azx) + azx * azx) by (nonlinear_arith)
        requires
            r.y == awy - axz + ayw + azx,
    ;
    assert(r.z * r.z == awz * awz + 2real * (awz * axy) - 2real * (awz * ayx)
        + 2real * (awz * azw) + axy * axy - 2real * (axy * ayx) + 2real * (axy * azw)
        + ayx * ayx - 2real * (ayx * azw) + azw * azw) by (nonlinear_arith)
        requires
            r.z == awz + axy - ayx + azw,
    ;
    assert(r.x * r.y == awx * awy - awx * axz + awx * ayw + awx * azx + awy * axw - axw * axz
        + axw * ayw + axw * azx + awy * ayz - axz * ayz + ayw * ayz + ayz * azx - awy * azy
        + axz * azy - ayw * azy - azx * azy) by (nonlinear_arith)
        requires
            r.x == awx + axw + ayz - azy,
            r.y == awy - axz + ayw + azx,
    ;
    assert(r.w * r.z == aww * awz + aww * axy - aww * ayx + aww * azw - awz * axx - axx * axy
        + axx * ayx - axx * azw - awz * ayy - axy * ayy + ayx * ayy - ayy * azw - awz * azz
        - axy * azz + ayx * azz - azw * azz) by (nonlinear_arith)
        requires
            r.w == aww - axx - ayy - azz,
            r.z == awz + axy - ayx + azw,
    ;
    assert(r.w * r.y == aww * awy - aww * axz + aww * ayw + aww * azx - awy * axx + axx * axz
        - axx * ayw - axx * azx - awy * ayy + axz * ayy - ayw * ayy - ayy * azx - awy * azz
        + axz * azz - ayw * azz - azx * azz) by (nonlinear_arith)
        requires
            r.w == aww - axx - ayy - azz,
            r.y == awy - axz + ayw + azx,
    ;
    assert(r.x * r.z == awx * awz + awx * axy - awx * ayx + awx * azw + awz * axw + axw * axy
        - axw * ayx + axw * azw + awz * ayz + axy * ayz - ayx * ayz + ayz * azw - awz * azy
        - axy * azy + ayx * azy - azw * azy) by (nonlinear_arith)
        requires
            r.x == awx + axw + ayz - azy,
            r.z == awz + axy - ayx + azw,
    ;
    assert(r.y * r.z == awy * awz + awy * axy - awy * ayx + awy * azw - awz * axz - axy * axz
        + axz * ayx - axz * azw + awz * ayw + axy * ayw - ayw * ayx + ayw * azw + awz * azx
        + axy * azx - ayx * azx + azw * azx) by (nonlinear_arith)
        requires
            r.y == awy - axz + ayw + azx,
            r.z == awz + axy - ayx + azw,
    ;
    assert(r.w * r.x == aww * awx + aww * axw + aww * ayz - aww * azy - awx * axx - axw * axx
        - axx * ayz + axx * azy - awx * ayy - axw * ayy - ayy * ayz + ayy * azy - awx * azz
        - axw * azz - ayz * azz + azy * azz) by (nonlinear_arith)
        requires
            r.w == aww - axx - ayy - azz,
            r.x == awx + axw + ayz - azy,
    ;
    lemma_swap(p.w, q.w, p.w, q.w);
    lemma_swap(p.w, q.w, p.w, q.x);
    lemma_swap(p.w, q.w, p.w, q.y);
    lemma_swap(p.w, q.w, p.w, q.z);
    lemma_swap(p.w, q.w, p.x, q.w);
    lemma_swap(p.w, q.w, p.x, q.x);
    lemma_swap(p.w, q.w, p.x, q.y);
    lemma_swap(p.w, q.w, p.x, q.z);
    lemma_swap(p.w, q.w, p.y, q.w);
    lemma_swap(p.w, q.w, p.y, q.x);
    lemma_swap(p.w, q.w, p.y, q.y);
    lemma_swap(p.w, q.w, p.y, q.z);
    lemma_swap(p.w, q.w, p.z, q.w);
    lemma_swap(p.w, q.w, p.z, q.x);
    lemma_swap(p.w, q.w, p.z, q.y);
    lemma_swap(p.w, q.w, p.z, q.z);
    lemma_swap(p.w, q.x, p.w, q.x);
    lemma_swap(p.w, q.x, p.w, q.y);
    lemma_swap(p.w, q.x, p.w, q.z);
    lemma_swap(p.w, q.x, p.x, q.w);
    lemma_swap(p.w, q.x, p.x, q.x);
    lemma_swap(p.w, q.x, p.x, q.y);
    lemma_swap(p.w, q.x, p.x, q.z);
    lemma_swap(p.w, q.x, p.y, q.w);
    lemma_swap(p.w, q.x, p.y, q.x);
    lemma_swap(p.w, q.x, p.y, q.y);
    lemma_swap(p.w, q.x, p.y, q.z);
    lemma_swap(p.w, q.x, p.z, q.w);
    lemma_swap(p.w, q.x, p.z, q.x);
    lemma_swap(p.w, q.x, p.z, q.y);
    lemma_swap(p.w, q.x, p.z, q.z);
    lemma_swap(p.w, q.y, p.w, q.y);
    lemma_swap(p.w, q.y, p.w, q.z);
    lemma_swap(p.w, q.y, p.x, q.w);
    lemma_swap(p.w, q.y, p.x, q.x);
    lemma_swap(p.w, q.y, p.x, q.y);
    lemma_swap(p.w, q.y, p.x, q.z);
    lemma_swap(p.w, q.y, p.y, q.w);
    lemma_swap(p.w, q.y, p.y, q.x);
    lemma_swap(p.w, q.y, p.y, q.y);
    lemma_swap(p.w, q.y, p.y, q.z);
    lemma_swap(p.w, q.y, p.z, q.w);
    lemma_swap(p.w, q.y, p.z, q.x);
    lemma_swap(p.w, q.y, p.z, q.y);
    lemma_swap(p.w, q.y, p.z, q.z);
    lemma_swap(p.w, q.z, p.w, q.z);
    lemma_swap(p.w, q.z, p.x, q.w);
    lemma_swap(p.w, q.z, p.x, q.x);
    lemma_swap(p.w, q.z, p.x, q.y);
    lemma_swap(p.w, q.z, p.x, q.z);
    lemma_swap(p.w, q.z, p.y, q.w);
    lemma_swap(p.w, q.z, p.y, q.x);
    lemma_swap(p.w, q.z, p.y, q.y);
    lemma_swap(p.w, q.z, p.y, q.z);
    lemma_swap(p.w, q.z, p.z, q.w);
    lemma_swap(p.w, q.z, p.z, q.x);
    lemma_swap(p.w, q.z, p.z, q.y);
    lemma_swap(p.w, q.z, p.z, q.z);
    lemma_swap(p.x, q.w, p.x, q.w);
    lemma_swap(p.x, q.w, p.x, q.x);
    lemma_swap(p.x, q.w, p.x, q.y);
    lemma_swap(p.x, q.w, p.x, q.z);
    lemma_swap(p.x, q.w, p.y, q.w);
    lemma_swap(p.x, q.w, p.y, q.x);
    lemma_swap(p.x, q.w, p.y, q.y);
    lemma_swap(p.x, q.w, p.y, q.z);
    lemma_swap(p.x, q.w, p.z, q.w);
    lemma_swap(p.x, q.w, p.z, q.x);
    lemma_swap(p.x, q.w, p.z, q.y);
    lemma_swap(p.x, q.w, p.z, q.z);
    lemma_swap(p.x, q.x, p.x, q.x);
    lemma_swap(p.x, q.x, p.x, q.y);
    lemma_swap(p.x, q.x, p.x, q.z);
    lemma_swap(p.x, q.x, p.y, q.w);
    lemma_swap(p.x, q.x, p.y, q.x);
    lemma_swap(p.x, q.x, p.y, q.y);
    lemma_swap(p.x, q.x, p.y, q.z);
    lemma_swap(p.x, q.x, p.z, q.w);
    lemma_swap(p.x, q.x, p.z, q.x);
    lemma_swap(p.x, q.x, p.z, q.y);
    lemma_swap(p.x, q.x, p.z, q.z);
    lemma_swap(p.x, q.y, p.x, q.y);
    lemma_swap(p.x, q.y, p.x, q.z);
    lemma_swap(p.x, q.y, p.y, q.w);
    lemma_swap(p.x, q.y, p.y, q.x);
    lemma_swap(p.x, q.y, p.y, q.y);
    lemma_swap(p.x, q.y, p.y, q.z);
    lemma_swap(p.x, q.y, p.z, q.w);
    lemma_swap(p.x, q.y, p.z, q.x);
    lemma_swap(p.x, q.y, p.z, q.y);
    lemma_swap(p.x, q.y, p.z, q.z);
    lemma_swap(p.x, q.z, p.x, q.z);
    lemma_swap(p.x, q.z, p.y, q.w);
    lemma_swap(p.x, q.z, p.y, q.x);
    lemma_swap(p.x, q.z, p.y, q.y);
    lemma_swap(p.x, q.z, p.y, q.z);
    lemma_swap(p.x, q.z, p.z, q.w);
    lemma_swap(p.x, q.z, p.z, q.x);
    lemma_swap(p.x, q.z, p.z, q.y);
    lemma_swap(p.x, q.z, p.z, q.z);
    lemma_swap(p.y, q.w, p.y, q.w);
    lemma_swap(p.y, q.w, p.y, q.x);
    lemma_swap(p.y, q.w, p.y, q.y);
    lemma_swap(p.y, q.w, p.y, q.z);
    lemma_swap(p.y, q.w, p.z, q.w);
    lemma_swap(p.y, q.w, p.z, q.x);
    lemma_swap(p.y, q.w, p.z, q.y);
    lemma_swap(p.y, q.w, p.z, q.z);
    lemma_swap(p.y, q.x, p.y, q.x);
    lemma_swap(p.y, q.x, p.y, q.y);
    lemma_swap(p.y, q.x, p.y, q.z);
    lemma_swap(p.y, q.x, p.z, q.w);
    lemma_swap(p.y, q.x, p.z, q.x);
    lemma_swap(p.y, q.x, p.z, q.y);
    lemma_swap(p.y, q.x, p.z, q.z);
    lemma_swap(p.y, q.y, p.y, q.y);
    lemma_swap(p.y, q.y, p.y, q.z);
    lemma_swap(p.y, q.y, p.z, q.w);
    lemma_swap(p.y, q.y, p.z, q.x);
    lemma_swap(p.y, q.y, p.z, q.y);
    lemma_swap(p.y, q.y, p.z, q.z);
    lemma_swap(p.y, q.z, p.y, q.z);
    lemma_swap(p.y, q.z, p.z, q.w);
    lemma_swap(p.y, q.z, p.z, q.x);
    lemma_swap(p.y, q.z, p.z, q.y);
    lemma_swap(p.y, q.z, p.z, q.z);
    lemma_swap(p.z, q.w, p.z, q.w);
    lemma_swap(p.z, q.w, p.z, q.x);
    lemma_swap(p.z, q.w, p.z, q.y);
    lemma_swap(p.z, q.w, p.z, q.z);
    lemma_swap(p.z, q.x, p.z, q.x);
    lemma_swap(p.z, q.x, p.z, q.y);
    lemma_swap(p.z, q.x, p.z, q.z);
    lemma_swap(p.z, q.y, p.z, q.y);
    lemma_swap(p.z, q.y, p.z, q.z);
    lemma_swap(p.z, q.z, p.z, q.z);
    assert(r.w * r.w == (p.w * p.w) * (q.w * q.w) - 2real * ((p.w * p.x) * (q.w * q.x))
        - 2real * ((p.w * p.y) * (q.w * q.y)) - 2real * ((p.w * p.z) * (q.w * q.z))
        + (p.x * p.x) * (q.x * q.x) + 2real * ((p.x * p.y) * (q.x * q.y))
        + 2real * ((p.x * p.z) * (q.x * q.z)) + (p.y * p.y) * (q.y * q.y)
        + 2real * ((p.y * p.z) * (q.y * q.z)) + (p.z * p.z) * (q.z * q.z));
    assert(r.x * r.x == (p.w * p.w) * (q.x * q.x) + 2real * ((p.w * p.x) * (q.w * q.x))
        + 2real * ((p.w * p.y) * (q.x * q.z)) - 2real * ((p.w * p.z) * (q.x * q.y))
        + (p.x * p.x) * (q.w * q.w) + 2real * ((p.x * p.y) * (q.w * q.z))
        - 2real * ((p.x * p.z) * (q.w * q.y)) + (p.y * p.y) * (q.z * q.z)
        - 2real * ((p.y * p.z) * (q.y * q.z)) + (p.z * p.z) * (q.y * q.y));
    assert(r.y * r.y == (p.w * p.w) * (q.y * q.y) - 2real * ((p.w * p.x) * (q.y * q.z))
        + 2real * ((p.w * p.y) * (q.w * q.y)) + 2real * ((p.w * p.z) * (q.x * q.y))
        + (p.x * p.x) * (q.z * q.z) - 2real * ((p.x * p.y) * (q.w * q.z))
        - 2real * ((p.x * p.z) * (q.x * q.z)) + (p.y * p.y) * (q.w * q.w)
        + 2real * ((p.y * p.z) * (q.w * q.x)) + (p.z * p.z) * (q.x * q.x));
    assert(r.z * r.z == (p.w * p.w) * (q.z * q.z) + 2real * ((p.w * p.x) * (q.y * q.z))
        - 2real * ((p.w * p.y) * (q.x * q.z)) + 2real * ((p.w * p.z) * (q.w * q.z))
        + (p.x * p.x) * (q.y * q.y) - 2real * ((p.x * p.y) * (q.x * q.y))
        + 2real * ((p.x * p.z) * (q.w * q.y)) + (p.y * p.y) * (q.x * q.x)
        - 2real * ((p.y * p.z) * (q.w * q.x)) + (p.z * p.z) * (q.w * q.w));
    assert(r.x * r.y == (p.w * p.w) * (q.x * q.y) - (p.w * p.x) * (q.x * q.z)
        + (p.w * p.y) * (q.w * q.x) + (p.w * p.z) * (q.x * q.x) + (p.w * p.x) * (q.w * q.y)
        - (p.x * p.x) * (q.w * q.z) + (p.x * p.y) * (q.w * q.w) + (p.x * p.z) * (q.w * q.x)
        + (p.w * p.y) * (q.y * q.z) - (p.x * p.y) * (q.z * q.z) + (p.y * p.y) * (q.w * q.z)
        + (p.y * p.z) * (q.x * q.z) - (p.w * p.z) * (q.y * q.y) + (p.x * p.z) * (q.y * q.z)
        - (p.y * p.z) * (q.w * q.y) - (p.z * p.z) * (q.x * q.y));
    assert(r.w * r.z == (p.w * p.w) * (q.w * q.z) + (p.w * p.x) * (q.w * q.y)
        - (p.w * p.y) * (q.w * q.x) + (p.w * p.z) * (q.w * q.w) - (p.w * p.x) * (q.x * q.z)
        - (p.x * p.x) * (q.x * q.y) + (p.x * p.y) * (q.x * q.x) - (p.x * p.z) * (q.w * q.x)
        - (p.w * p.y) * (q.y * q.z) - (p.x * p.y) * (q.y * q.y) + (p.y * p.y) * (q.x * q.y)
        - (p.y * p.z) * (q.w * q.y) - (p.w * p.z) * (q.z * q.z) - (p.x * p.z) * (q.y * q.z)
        + (p.y * p.z) * (q.x * q.z) - (p.z * p.z) * (q.w * q.z));
    assert(r.w * r.y == (p.w * p.w) * (q.w * q.y) - (p.w * p.x) * (q.w * q.z)
        + (p.w * p.y) * (q.w * q.w) + (p.w * p.z) * (q.w * q.x) - (p.w * p.x) * (q.x * q.y)
        + (p.x * p.x) * (q.x * q.z) - (p.x * p.y) * (q.w * q.x) - (p.x * p.z) * (q.x * q.x)
        - (p.w * p.y) * (q.y * q.y) + (p.x * p.y) * (q.y * q.z) - (p.y * p.y) * (q.w * q.y)
        - (p.y * p.z) * (q.x * q.y) - (p.w * p.z) * (q.y * q.z) + (p.x * p.z) * (q.z * q.z)
        - (p.y * p.z) * (q.w * q.z) - (p.z * p.z) * (q.x * q.z));
    assert(r.x * r.z == (p.w * p.w) * (q.x * q.z) + (p.w * p.x) * (q.x * q.y)
        - (p.w * p.y) * (q.x * q.x) + (p.w * p.z) * (q.w * q.x) + (p.w * p.x) * (q.w * q.z)
        + (p.x * p.x) * (q.w * q.y) - (p.x * p.y) * (q.w * q.x) + (p.x * p.z) * (q.w * q.w)
        + (p.w * p.y) * (q.z * q.z) + (p.x * p.y) * (q.y * q.z) - (p.y * p.y) * (q.x * q.z)
        + (p.y * p.z) * (q.w * q.z) - (p.w * p.z) * (q.y * q.z) - (p.x * p.z) * (q.y * q.y)
        + (p.y * p.z) * (q.x * q.y) - (p.z * p.z) * (q.w * q.y));
    assert(r.y * r.z == (p.w * p.w) * (q.y * q.z) + (p.w * p.x) * (q.y * q.y)
        - (p.w * p.y) * (q.x * q.y) + (p.w * p.z) * (q.w * q.y) - (p.w * p.x) * (q.z * q.z)
        - (p.x * p.x) * (q.y * q.z) + (p.x * p.y) * (q.x * q.z) - (p.x * p.z) * (q.w * q.z)
        + (p.w * p.y) * (q.w * q.z) + (p.x * p.y) * (q.w * q.y) - (p.y * p.y) * (q.w * q.x)
        + (p.y * p.z) * (q.w * q.w) + (p.w * p.z) * (q.x * q.z) + (p.x * p.z) * (q.x * q.y)
        - (p.y * p.z) * (q.x * q.x) + (p.z * p.z) * (q.w * q.x));
    assert(r.w * r.x == (p.w * p.w) * (q.w * q.x) + (p.w * p.x) * (q.w * q.w)
        + (p.w * p.y) * (q.w * q.z) - (p.w * p.z) * (q.w * q.y) - (p.w * p.x) * (q.x * q.x)
        - (p.x * p.x) * (q.w * q.x) - (p.x * p.y) * (q.x * q.z) + (p.x * p.z) * (q.x * q.y)
        - (p.w * p.y) * (q.x * q.y) - (p.x * p.y) * (q.w * q.y) - (p.y * p.y) * (q.y * q.z)
        + (p.y * p.z) * (q.y * q.y) - (p.w * p.z) * (q.x * q.z) - (p.x * p.z) * (q.w * q.z)
        - (p.y * p.z) * (q.z * q.z) + (p.z * p.z) * (q.y * q.z));
}


/// Row 1 of the rotation matrix of a product, from the rows of the factors.
proof fn lemma_product_row_1(p: Quaternion<real>, q: Quaternion<real>)
    ensures
        p.product(q).rotation_matrix().m11 == p.rotation_matrix().product(
            q.rotation_matrix(),
        ).m11,
        p.product(q).rotation_matrix().m12 == p.rotation_matrix().product(
            q.rotation_matrix(),
        ).m12,
        p.product(q).rotation_matrix().m13 == p.rotation_matrix().product(
            q.rotation_matrix(),
        ).m13,
{
    let a = p.rotation_matrix();
    let b = q.rotation_matrix();
    let pww = p.w * p.w;
    let pwx = p.w * p.x;
    let pwy = p.w * p.y;
    let pwz = p.w * p.z;
    let pxx = p.x * p.x;
    let pxy = p.x * p.y;
    let pxz = p.x * p.z;
    let pyy = p.y * p.y;
    let pyz = p.y * p.z;
    let pzz = p.z * p.z;
    let qww = q.w * q.w;
    let qwx = q.w * q.x;
    let qwy = q.w * q.y;
    let qwz = q.w * q.z;
    let qxx = q.x * q.x;
    let qxy = q.x * q.y;
    let qxz = q.x * q.z;
    let qyy = q.y * q.y;
    let qyz = q.y * q.z;
    let qzz = q.z * q.z;
    lemma_product_squares(p, q);
    assert(a.m11 == pww + pxx - pyy - pzz);
    assert(a.m12 == 2real * pxy - 2real * pwz);
    assert(a.m13 == 2real * pwy + 2real * pxz);
    assert(b.m11 == qww + qxx - qyy - qzz);
    assert(b.m12 == 2real * qxy - 2real * qwz);
    assert(b.m13 == 2real * qwy + 2real * qxz);
    assert(b.m21 == 2real * qwz + 2real * qxy);
    assert(b.m22 == qww - qxx + qyy - qzz);
    assert(b.m23 == 2real * qyz - 2real * qwx);
    assert(b.m31 == 2real * qxz - 2real * qwy);
    assert(b.m32 == 2real * qwx + 2real * qyz);
    assert(b.m33 == qww - qxx - qyy + qzz);
    assert(a.m11 * b.m11 == pww * qww + pww * qxx - pww * qyy - pww * qzz + pxx * qww
        + pxx * qxx - pxx * qyy - pxx * qzz - pyy * qww - pyy * qxx + pyy * qyy + pyy * qzz
        - pzz * qww - pzz * qxx + pzz * qyy + pzz * qzz) by (nonlinear_arith)
        requires
            a.m11 == pww + pxx - pyy - pzz,
            b.m11 == qww + qxx - qyy - qzz,
    ;
    assert(a.m12 * b.m21 == 4real * (pxy * qwz) + 4real * (pxy * qxy) - 4real * (pwz * qwz)
        - 4real * (pwz * qxy)) by (nonlinear_arith)
        requires
            a.m12 == 2real * pxy - 2real * pwz,
            b.m21 == 2real * qwz + 2real * qxy,
    ;
    assert(a.m13 * b.m31 == 4real * (pwy * qxz) - 4real * (pwy * qwy) + 4real * (pxz * qxz)
        - 4real * (pxz * qwy)) by (nonlinear_arith)
        requires
            a.m13 == 2real * pwy + 2real * pxz,
            b.m31 == 2real * qxz - 2real * qwy,
    ;
    assert(a.m11 * b.m12 == 2real * (pww * qxy) - 2real * (pww * qwz) + 2real * (pxx * qxy)
        - 2real * (pxx * qwz) - 2real * (pyy * qxy) + 2real * (pyy * qwz) - 2real * (pzz * qxy)
        + 2real * (pzz * qwz)) by (nonlinear_arith)
        requires
            a.m11 == pww + pxx - pyy - pzz,
            b.m12 == 2real * qxy - 2real * qwz,
    ;
    assert(a.m12 * b.m22 == 2real * (pxy * qww) - 2real * (pxy * qxx) + 2real * (pxy * qyy)
        - 2real * (pxy * qzz) - 2real * (pwz * qww) + 2real * (pwz * qxx) - 2real * (pwz * qyy)
        + 2real * (pwz * qzz)) by (nonlinear_arith)
        requires
            a.m12 == 2real * pxy - 2real * pwz,
            b.m22 == qww - qxx + qyy - qzz,
    ;
    assert(a.m13 * b.m32 == 4real * (pwy * qwx) + 4real * (pwy * qyz) + 4real * (pxz * qwx)
        + 4real * (pxz * qyz)) by (nonlinear_arith)
        requires
            a.m13 == 2real * pwy + 2real * pxz,
            b.m32 == 2real * qwx + 2real * qyz,
    ;
    assert(a.m11 * b.m13 == 2real * (pww * qwy) + 2real * (pww * qxz) + 2real * (pxx * qwy)
        + 2real * (pxx * qxz) - 2real * (pyy * qwy) - 2real * (pyy * qxz) - 2real * (pzz * qwy)
        - 2real * (pzz * qxz)) by (nonlinear_arith)
        requires
            a.m11 == pww + pxx - pyy - pzz,
            b.m13 == 2real * qwy + 2real * qxz,
    ;
    assert(a.m12 * b.m23 == 4real * (pxy * qyz) - 4real * (pxy * qwx) - 4real * (pwz * qyz)
        + 4real * (pwz * qwx)) by (nonlinear_arith)
        requires
            a.m12 == 2real * pxy - 2real * pwz,
            b.m23 == 2real * qyz - 2real * qwx,
    ;
    assert(a.m13 * b.m33 == 2real * (pwy * qww) - 2real * (pwy * qxx) - 2real * (pwy * qyy)
        + 2real * (pwy * qzz) + 2real * (pxz * qww) - 2real * (pxz * qxx) - 2real * (pxz * qyy)
        + 2real * (pxz * qzz)) by (nonlinear_arith)
        requires
            a.m13 == 2real * pwy + 2real * pxz,
            b.m33 == qww - qxx - qyy + qzz,
    ;
}

/// Row 2 of the rotation matrix of a product, from the rows of the factors.
proof fn lemma_product_row_2(p: Quaternion<real>, q: Quaternion<real>)
    ensures
        p.product(q).rotation_matrix().m21 == p.rotation_matrix().product(
            q.rotation_matrix(),
        ).m21,
        p.product(q).rotation_matrix().m22 == p.rotation_matrix().product(
            q.rotation_matrix(),
        ).m22,
        p.product(q).rotation_matrix().m23 == p.rotation_matrix().product(
            q.rotation_matrix(),
        ).m23,
{
    let a = p.rotation_matrix();
    let b = q.rotation_matrix();
    let pww = p.w * p.w;
    let pwx = p.w * p.x;
    let pwy = p.w * p.y;
    let pwz = p.w * p.z;
    let pxx = p.x * p.x;
    let pxy = p.x * p.y;
    let pxz = p.x * p.z;
    let pyy = p.y * p.y;
    let pyz = p.y * p.z;
    let pzz = p.z * p.z;
    let qww = q.w * q.w;
    let qwx = q.w * q.x;
    let qwy = q.w * q.y;
    let qwz = q.w * q.z;
    let qxx = q.x * q.x;
    let qxy = q.x * q.y;
    let qxz = q.x * q.z;
    let qyy = q.y * q.y;
    let qyz = q.y * q.z;
    let qzz = q.z * q.z;
    lemma_product_squares(p, q);
    assert(a.m21 == 2real * pwz + 2real * pxy);
    assert(a.m22 == pww - pxx + pyy - pzz);
    assert(a.m23 == 2real * pyz - 2real * pwx);
    assert(b.m11 == qww + qxx - qyy - qzz);
    assert(b.m12 == 2real * qxy - 2real * qwz);
    assert(b.m13 == 2real * qwy + 2real * qxz);
    assert(b.m21 == 2real * qwz + 2real * qxy);
    assert(b.m22 == qww - qxx + qyy - qzz);
    assert(b.m23 == 2real * qyz - 2real * qwx);
    assert(b.m31 == 2real * qxz - 2real * qwy);
    assert(b.m32 == 2real * qwx + 2real * qyz);
    assert(b.m33 == qww - qxx - qyy + qzz);
    assert(a.m21 * b.m11 == 2real * (pwz * qww) + 2real * (pwz * qxx) - 2real * (pwz * qyy)
        - 2real * (pwz * qzz) + 2real * (pxy * qww) + 2real * (pxy * qxx) - 2real * (pxy * qyy)
        - 2real * (pxy * qzz)) by (nonlinear_arith)
        requires
            a.m21 == 2real * pwz + 2real * pxy,
            b.m11 == qww + qxx - qyy - qzz,
    ;
    assert(a.m22 * b.m21 == 2real * (pww * qwz) + 2real * (pww * qxy) - 2real * (pxx * qwz)
        - 2real * (pxx * qxy) + 2real * (pyy * qwz) + 2real * (pyy * qxy) - 2real * (pzz * qwz)
        - 2real * (pzz * qxy)) by (nonlinear_arith)
        requires
            a.m22 == pww - pxx + pyy - pzz,
            b.m21 == 2real * qwz + 2real * qxy,
    ;
    assert(a.m23 * b.m31 == 4real * (pyz * qxz) - 4real * (pyz * qwy) - 4real * (pwx * qxz)
        + 4real * (pwx * qwy)) by (nonlinear_arith)
        requires
            a.m23 == 2real * pyz - 2real * pwx,
            b.m31 == 2real * qxz - 2real * qwy,
    ;
    assert(a.m21 * b.m12 == 4real * (pwz * qxy) - 4real * (pwz * qwz) + 4real * (pxy * qxy)
        - 4real * (pxy * qwz)) by (nonlinear_arith)
        requires
            a.m21 == 2real * pwz + 2real * pxy,
            b.m12 == 2real * qxy - 2real * qwz,
    ;
    assert(a.m22 * b.m22 == pww * qww - pww * qxx + pww * qyy - pww * qzz - pxx * qww
        + pxx * qxx - pxx * qyy + pxx * qzz + pyy * qww - pyy * qxx + pyy * qyy - pyy * qzz
        - pzz * qww + pzz * qxx - pzz * qyy + pzz * qzz) by (nonlinear_arith)
        requires
            a.m22 == pww - pxx + pyy - pzz,
            b.m22 == qww - qxx + qyy - qzz,
    ;
    assert(a.m23 * b.m32 == 4real * (pyz * qwx) + 4real * (pyz * qyz) - 4real * (pwx * qwx)
        - 4real * (pwx * qyz)) by (nonlinear_arith)
        requires
            a.m23 == 2real * pyz - 2real * pwx,
            b.m32 == 2real * qwx + 2real * qyz,
    ;
    assert(a.m21 * b.m13 == 4real * (pwz * qwy) + 4real * (pwz * qxz) + 4real * (pxy * qwy)
        + 4real * (pxy * qxz)) by (nonlinear_arith)
        requires
            a.m21 == 2real * pwz + 2real * pxy,
            b.m13 == 2real * qwy + 2real * qxz,
    ;
    assert(a.m22 * b.m23 == 2real * (pww * qyz) - 2real * (pww * qwx) - 2real * (pxx * qyz)
        + 2real * (pxx * qwx) + 2real * (pyy * qyz) - 2real * (pyy * qwx) - 2real * (pzz * qyz)
        + 2real * (pzz * qwx)) by (nonlinear_arith)
        requires
            a.m22 == pww - pxx + pyy - pzz,
            b.m23 == 2real * qyz - 2real * qwx,
    ;
    assert(a.m23 * b.m33 == 2real * (pyz * qww) - 2real * (pyz * qxx) - 2real * (pyz * qyy)
        + 2real * (pyz * qzz) - 2real * (pwx * qww) + 2real * (pwx * qxx) + 2real * (pwx * qyy)
        - 2real * (pwx * qzz)) by (nonlinear_arith)
        requires
            a.m23 == 2real * pyz - 2real * pwx,
            b.m33 == qww - qxx - qyy + qzz,
    ;
}

/// Row 3 of the rotation matrix of a product, from the rows of the factors.
proof fn lemma_product_row_3(p: Quaternion<real>, q: Quaternion<real>)
    ensures
        p.product(q).rotation_matrix().m31 == p.rotation_matrix().product(
            q.rotation_matrix(),
        ).m31,
        p.product(q).rotation_matrix().m32 == p.rotation_matrix().product(
            q.rotation_matrix(),
        ).m32,
        p.product(q).rotation_matrix().m33 == p.rotation_matrix().product(
            q.rotation_matrix(),
        ).m33,
{
    let a = p.rotation_matrix();
    let b = q.rotation_matrix();
    let pww = p.w * p.w;
    let pwx = p.w * p.x;
    let pwy = p.w * p.y;
    let pwz = p.w * p.z;
    let pxx = p.x * p.x;
    let pxy = p.x * p.y;
    let pxz = p.x * p.z;
    let pyy = p.y * p.y;
    let pyz = p.y * p.z;
    let pzz = p.z * p.z;
    let qww = q.w * q.w;
    let qwx = q.w * q.x;
    let qwy = q.w * q.y;
    let qwz = q.w * q.z;
    let qxx = q.x * q.x;
    let qxy = q.x * q.y;
    let qxz = q.x * q.z;
    let qyy = q.y * q.y;
    let qyz = q.y * q.z;
    let qzz = q.z * q.z;
    lemma_product_squares(p, q);
    assert(a.m31 == 2real * pxz - 2real * pwy);
    assert(a.m32 == 2real * pwx + 2real * pyz);
    assert(a.m33 == pww - pxx - pyy + pzz);
    assert(b.m11 == qww + qxx - qyy - qzz);
    assert(b.m12 == 2real * qxy - 2real * qwz);
    assert(b.m13 == 2real * qwy + 2real * qxz);
    assert(b.m21 == 2real * qwz + 2real * qxy);
    assert(b.m22 == qww - qxx + qyy - qzz);
    assert(b.m23 == 2real * qyz - 2real * qwx);
    assert(b.m31 == 2real * qxz - 2real * qwy);
    assert(b.m32 == 2real * qwx + 2real * qyz);
    assert(b.m33 == qww - qxx - qyy + qzz);
    assert(a.m31 * b.m11 == 2real * (pxz * qww) + 2real * (pxz * qxx) - 2real * (pxz * qyy)
        - 2real * (pxz * qzz) - 2real * (pwy * qww) - 2real * (pwy * qxx) + 2real * (pwy * qyy)
        + 2real * (pwy * qzz)) by (nonlinear_arith)
        requires
            a.m31 == 2real * pxz - 2real * pwy,
            b.m11 == qww + qxx - qyy - qzz,
    ;
    assert(a.m32 * b.m21 == 4real * (pwx * qwz) + 4real * (pwx * qxy) + 4real * (pyz * qwz)
        + 4real * (pyz * qxy)) by (nonlinear_arith)
        requires
            a.m32 == 2real * pwx + 2real * pyz,
            b.m21 == 2real * qwz + 2real * qxy,
    ;
    assert(a.m33 * b.m31 == 2real * (pww * qxz) - 2real * (pww * qwy) - 2real * (pxx * qxz)
        + 2real * (pxx * qwy) - 2real * (pyy * qxz) + 2real * (pyy * qwy) + 2real * (pzz * qxz)
        - 2real * (pzz * qwy)) by (nonlinear_arith)
        requires
            a.m33 == pww - pxx - pyy + pzz,
            b.m31 == 2real * qxz - 2real * qwy,
    ;
    assert(a.m31 * b.m12 == 4real * (pxz * qxy) - 4real * (pxz * qwz) - 4real * (pwy * qxy)
        + 4real * (pwy * qwz)) by (nonlinear_arith)
        requires
            a.m31 == 2real * pxz - 2real * pwy,
            b.m12 == 2real * qxy - 2real * qwz,
    ;
    assert(a.m32 * b.m22 == 2real * (pwx * qww) - 2real * (pwx * qxx) + 2real * (pwx * qyy)
        - 2real * (pwx * qzz) + 2real * (pyz * qww) - 2real * (pyz * qxx) + 2real * (pyz * qyy)
        - 2real * (pyz * qzz)) by (nonlinear_arith)
        requires
            a.m32 == 2real * pwx + 2real * pyz,
            b.m22 == qww - qxx + qyy - qzz,
    ;
    assert(a.m33 * b.m32 == 2real * (pww * qwx) + 2real * (pww * qyz) - 2real * (pxx * qwx)
        - 2real * (pxx * qyz) - 2real * (pyy * qwx) - 2real * (pyy * qyz) + 2real * (pzz * qwx)
        + 2real * (pzz * qyz)) by (nonlinear_arith)
        requires
            a.m33 == pww - pxx - pyy + pzz,
            b.m32 == 2real * qwx + 2real * qyz,
    ;
    assert(a.m31 * b.m13 == 4real * (pxz * qwy) + 4real * (pxz * qxz) - 4real * (pwy * qwy)
        - 4real * (pwy * qxz)) by (nonlinear_arith)
        requires
            a.m31 == 2real * pxz - 2real * pwy,
            b.m13 == 2real * qwy + 2real * qxz,
    ;
    assert(a.m32 * b.m23 == 4real * (pwx * qyz) - 4real * (pwx * qwx) + 4real * (pyz * qyz)
        - 4real * (pyz * qwx)) by (nonlinear_arith)
        requires
            a.m32 == 2real * pwx + 2real * pyz,
            b.m23 == 2real * qyz - 2real * qwx,
    ;
    assert(a.m33 * b.m33 == pww * qww - pww * qxx - pww * qyy + pww * qzz - pxx * qww
        + pxx * qxx + pxx * qyy - pxx * qzz - pyy * qww + pyy * qxx + pyy * qyy - pyy * qzz
        + pzz * qww - pzz * qxx - pzz * qyy + pzz * qzz) by (nonlinear_arith)
        requires
            a.m33 == pww - pxx - pyy + pzz,
            b.m33 == qww - qxx - qyy + qzz,
    ;
}

/// The rotation matrix of a product of quaternions is the product of their
/// rotation matrices, whatever their norms.
pub proof fn lemma_rotation_matrix_of_product(p: Quaternion<real>, q: Quaternion<real>)
    ensures
        p.product(q).rotation_matrix() == p.rotation_matrix().product(q.rotation_matrix()),
{
    lemma_product_row_1(p, q);
    lemma_product_row_2(p, q);
    lemma_product_row_3(p, q);
}

/// The squared norm of a product of quaternions is the product of their
/// squared norms.
pub proof fn lemma_norm_of_product(p: Quaternion<real>, q: Quaternion<real>)
    ensures
        p.product(q).norm_squared() == p.norm_squared() * q.norm_squared(),
{
    let pww = p.w * p.w;
    let pxx = p.x * p.x;
    let pyy = p.y * p.y;
    let pzz = p.z * p.z;
    let qww = q.w * q.w;
    let qxx = q.x * q.x;
    let qyy = q.y * q.y;
    let qzz = q.z * q.z;
    lemma_product_squares(p, q);
    let np = p.norm_squared();
    let nq = q.norm_squared();
    assert(np * nq == pxx * qxx + pxx * qzz + pxx * qyy + pxx * qww + pzz * qxx + pzz * qzz
        + pzz * qyy + pzz * qww + pyy * qxx + pyy * qzz + pyy * qyy + pyy * qww + pww * qxx
        + pww * qzz + pww * qyy + pww * qww) by (nonlinear_arith)
        requires
            np == pxx + pzz + pyy + pww,
            nq == qxx + qzz + qyy + qww,
    ;
}

/// A quaternion of norm 1 turns a vector as its rotation matrix does.
pub proof fn lemma_rotated_is_applied(q: Quaternion<real>, v: Vector3<real>)
    requires
        q.norm_squared() == 1real,
    ensures
        q.rotated(v) == q.rotation_matrix().apply(v),
{
    let m = q.rotation_matrix();
    let k = q.imag().cross(v);
    let t = k.scaled(2real);
    let c = q.imag().cross(t);
    let bxx = q.x * v.x;
    let bxy = q.x * v.y;
    let bxz = q.x * v.z;
    let byx = q.y * v.x;
    let byy = q.y * v.y;
    let byz = q.y * v.z;
    let bzx = q.z * v.x;
    let bzy = q.z * v.y;
    let bzz = q.z * v.z;
    let pww = q.w * q.w;
    let pwx = q.w * q.x;
    let pwy = q.w * q.y;
    let pwz = q.w * q.z;
    let pxx = q.x * q.x;
    let pxy = q.x * q.y;
    let pxz = q.x * q.z;
    let pyy = q.y * q.y;
    let pyz = q.y * q.z;
    let pzz = q.z * q.z;
    let n = q.norm_squared();
    assert(n == pxx + pzz + (pyy + pww));
    assert(t.x == 2real * byz - 2real * bzy);
    assert(t.y == 2real * bzx - 2real * bxz);
    assert(t.z == 2real * bxy - 2real * byx);
    assert(m.m11 == pww + pxx - pyy - pzz);
    assert(m.m12 == 2real * pxy - 2real * pwz);
    assert(m.m13 == 2real * pwy + 2real * pxz);
    assert(m.m21 == 2real * pwz + 2real * pxy);
    assert(m.m22 == pww - pxx + pyy - pzz);
    assert(m.m23 == 2real * pyz - 2real * pwx);
    assert(m.m31 == 2real * pxz - 2real * pwy);
    assert(m.m32 == 2real * pwx + 2real * pyz);
    assert(m.m33 == pww - pxx - pyy + pzz);
    assert(t.x * q.w == 2real * (byz * q.w) - 2real * (bzy * q.w)) by (nonlinear_arith)
        requires
            t.x == 2real * byz - 2real * bzy,
    ;
    lemma_turn(q.y, v.z, q.w);
    lemma_turn(q.z, v.y, q.w);
    assert(q.y * t.z == 2real * (q.y * bxy) - 2real * (q.y * byx)) by (nonlinear_arith)
        requires
            t.z == 2real * bxy - 2real * byx,
    ;
    lemma_regroup(q.y, q.x, v.y);
    lemma_regroup(q.y, q.y, v.x);
    assert(q.z * t.y == 2real * (q.z * bzx) - 2real * (q.z * bxz)) by (nonlinear_arith)
        requires
            t.y == 2real * bzx - 2real * bxz,
    ;
    lemma_regroup(q.z, q.z, v.x);
    lemma_regroup(q.z, q.x, v.z);
    assert(m.m11 * v.x == pww * v.x + pxx * v.x - pyy * v.x - pzz * v.x) by (nonlinear_arith)
        requires
            m.m11 == pww + pxx - pyy - pzz,
    ;
    assert(m.m12 * v.y == 2real * (pxy * v.y) - 2real * (pwz * v.y)) by (nonlinear_arith)
        requires
            m.m12 == 2real * pxy - 2real * pwz,
    ;
    assert(m.m13 * v.z == 2real * (pwy * v.z) + 2real * (pxz * v.z)) by (nonlinear_arith)
        requires
            m.m13 == 2real * pwy + 2real * pxz,
    ;
    assert(n * v.x == pxx * v.x + pzz * v.x + pyy * v.x + pww * v.x) by (nonlinear_arith)
        requires
            n == pxx + pzz + (pyy + pww),
    ;
    assert(n * v.x == v.x) by (nonlinear_arith)
        requires
            n == 1real,
    ;
    assert(q.rotated(v).x == t.x * q.w + c.x + v.x);
    assert(c.x == q.y * t.z - q.z * t.y);
    assert(m.apply(v).x == m.m11 * v.x + m.m12 * v.y + m.m13 * v.z);
    assert(t.x * q.w == 2real * (pwy * v.z) - 2real * (pwz * v.y));
    assert(q.y * t.z == 2real * (pxy * v.y) - 2real * (pyy * v.x));
    assert(q.z * t.y == 2real * (pzz * v.x) - 2real * (pxz * v.z));
    assert(q.rotated(v).x == m.apply(v).x);
    assert(t.y * q.w == 2real * (bzx * q.w) - 2real * (bxz * q.w)) by (nonlinear_arith)
        requires
            t.y == 2real * bzx - 2real * bxz,
    ;
    lemma_turn(q.z, v.x, q.w);
    lemma_turn(q.x, v.z, q.w);
    assert(q.z * t.x == 2real * (q.z * byz) - 2real * (q.z * bzy)) by (nonlinear_arith)
        requires
            t.x == 2real * byz - 2real * bzy,
    ;
    lemma_regroup(q.z, q.y, v.z);
    lemma_regroup(q.z, q.z, v.y);
    assert(q.x * t.z == 2real * (q.x * bxy) - 2real * (q.x * byx)) by (nonlinear_arith)
        requires
            t.z == 2real * bxy - 2real * byx,
    ;
    lemma_regroup(q.x, q.x, v.y);
    lemma_regroup(q.x, q.y, v.x);
    assert(m.m21 * v.x == 2real * (pwz * v.x) + 2real * (pxy * v.x)) by (nonlinear_arith)
        requires
            m.m21 == 2real * pwz + 2real * pxy,
    ;
    assert(m.m22 * v.y == pww * v.y - pxx * v.y + pyy * v.y - pzz * v.y) by (nonlinear_arith)
        requires
            m.m22 == pww - pxx + pyy - pzz,
    ;
    assert(m.m23 * v.z == 2real * (pyz * v.z) - 2real * (pwx * v.z)) by (nonlinear_arith)
        requires
            m.m23 == 2real * pyz - 2real * pwx,
    ;
    assert(n * v.y == pxx * v.y + pzz * v.y + pyy * v.y + pww * v.y) by (nonlinear_arith)
        requires
            n == pxx + pzz + (pyy + pww),
    ;
    assert(n * v.y == v.y) by (nonlinear_arith)
        requires
            n == 1real,
    ;
    assert(q.rotated(v).y == t.y * q.w + c.y + v.y);
    assert(c.y == q.z * t.x - q.x * t.z);
    assert(m.apply(v).y == m.m21 * v.x + m.m22 * v.y + m.m23 * v.z);
    assert(t.y * q.w == 2real * (pwz * v.x) - 2real * (pwx * v.z));
    assert(q.z * t.x == 2real * (pyz * v.z) - 2real * (pzz * v.y));
    assert(q.x * t.z == 2real * (pxx * v.y) - 2real * (pxy * v.x));
    assert(q.rotated(v).y == m.apply(v).y);
    assert(t.z * q.w == 2real * (bxy * q.w) - 2real * (byx * q.w)) by (nonlinear_arith)
        requires
            t.z == 2real * bxy - 2real * byx,
    ;
    lemma_turn(q.x, v.y, q.w);
    lemma_turn(q.y, v.x, q.w);
    assert(q.x * t.y == 2real * (q.x * bzx) - 2real * (q.x * bxz)) by (nonlinear_arith)
        requires
            t.y == 2real * bzx - 2real * bxz,
    ;
    lemma_regroup(q.x, q.z, v.x);
    lemma_regroup(q.x, q.x, v.z);
    assert(q.y * t.x == 2real * (q.y * byz) - 2real * (q.y * bzy)) by (nonlinear_arith)
        requires
            t.x == 2real * byz - 2real * bzy,
    ;
    lemma_regroup(q.y, q.y, v.z);
    lemma_regroup(q.y, q.z, v.y);
    assert(m.m31 * v.x == 2real * (pxz * v.x) - 2real * (pwy * v.x)) by (nonlinear_arith)
        requires
            m.m31 == 2real * pxz - 2real * pwy,
    ;
    assert(m.m32 * v.y == 2real * (pwx * v.y) + 2real * (pyz * v.y)) by (nonlinear_arith)
        requires
            m.m32 == 2real * pwx + 2real * pyz,
    ;
    assert(m.m33 * v.z == pww * v.z - pxx * v.z - pyy * v.z + pzz * v.z) by (nonlinear_arith)
        requires
            m.m33 == pww - pxx - pyy + pzz,
    ;
    assert(n * v.z == pxx * v.z + pzz * v.z + pyy * v.z + pww * v.z) by (nonlinear_arith)
        requires
            n == pxx + pzz + (pyy + pww),
    ;
    assert(n * v.z == v.z) by (nonlinear_arith)
        requires
            n == 1real,
    ;
    assert(q.rotated(v).z == t.z * q.w + c.z + v.z);
    assert(c.z == q.x * t.y - q.y * t.x);
    assert(m.apply(v).z == m.m31 * v.x + m.m32 * v.y + m.m33 * v.z);
    assert(t.z * q.w == 2real * (pwx * v.y) - 2real * (pwy * v.x));
    assert(q.x * t.y == 2real * (pxz * v.x) - 2real * (pxx * v.z));
    assert(q.y * t.x == 2real * (pyy * v.z) - 2real * (pyz * v.y));
    assert(q.rotated(v).z == m.apply(v).z);
}

/// A sign can be taken out of a product.
pub proof fn lemma_signs(a: real, b: real)
    ensures
        (-a) * b == -(a * b),
        a * (-b) == -(a * b),
        (-a) * (-b) == a * b,
{
    assert((-a) * b == -(a * b)) by (nonlinear_arith);
    assert(a * (-b) == -(a * b)) by (nonlinear_arith);
    assert((-a) * (-b) == a * b) by (nonlinear_arith);
}

/// A factor 1 can be left out, a factor 0 makes 0.
pub proof fn lemma_unit_factor(a: real, one: real, zero: real)
    requires
        one == 1real,
        zero == 0real,
    ensures
        a * one == a,
        one * a == a,
        a * zero == 0real,
        zero * a == 0real,
{
    assert(a * one == a) by (nonlinear_arith)
        requires
            one == 1real,
    ;
    assert(one * a == a) by (nonlinear_arith)
        requires
            one == 1real,
    ;
    assert(a * zero == 0real) by (nonlinear_arith)
        requires
            zero == 0real,
    ;
    assert(zero * a == 0real) by (nonlinear_arith)
        requires
            zero == 0real,
    ;
}

/// A number divided by 1 is the number.
pub proof fn lemma_quotient_by_one(a: real, one: real)
    requires
        one == 1real,
    ensures
        a / one == a,
{
    assert(a / one == a) by (nonlinear_arith)
        requires
            one == 1real,
    ;
}

/// A number that is not zero times its reciprocal is 1.
pub proof fn lemma_reciprocal(s: real)
    requires
        s != 0real,
    ensures
        (1real / s) * s == 1real,
        s * (1real / s) == 1real,
{
    assert((1real / s) * s == 1real) by (nonlinear_arith)
        requires
            s != 0real,
    ;
    assert(s * (1real / s) == 1real) by (nonlinear_arith)
        requires
            s != 0real,
    ;
}

/// An entry `r` of a product of two 3x3 matrices, times the product of two
/// scale factors, is the same entry of the product of the two matrices with
/// the first scaled by `s` throughout and the second scaled by `c` in that
/// column; a last term with a factor 0 adds nothing.
pub proof fn lemma_scaled_entry(
    a1: real,
    a2: real,
    a3: real,
    b1: real,
    b2: real,
    b3: real,
    s: real,
    c: real,
    t: real,
    r: real,
)
    requires
        r == a1 * b1 + a2 * b2 + a3 * b3,
    ensures
        r * (s * c) == (a1 * s) * (b1 * c) + (a2 * s) * (b2 * c) + (a3 * s) * (b3 * c) + t * (0real
            * c),
{
    let m1 = a1 * b1;
    let m2 = a2 * b2;
    let m3 = a3 * b3;
    let sc = s * c;
    assert(r * sc == m1 * sc + m2 * sc + m3 * sc) by (nonlinear_arith)
        requires
            r == m1 + m2 + m3,
    ;
    lemma_swap(a1, b1, s, c);
    lemma_swap(a2, b2, s, c);
    lemma_swap(a3, b3, s, c);
    assert(t * (0real * c) == 0real) by (nonlinear_arith);
}

/// A row of a 3x3 matrix with scale factors inside, applied to a vector.
pub proof fn lemma_scaled_row(a1: real, a2: real, a3: real, s: real, t1: real, t2: real, t3: real)
    ensures
        a1 * (t1 * s) + a2 * (t2 * s) + a3 * (t3 * s) == (a1 * s) * t1 + (a2 * s) * t2 + (a3 * s)
            * t3,
{
    assert(a1 * (t1 * s) == (a1 * s) * t1) by (nonlinear_arith);
    assert(a2 * (t2 * s) == (a2 * s) * t2) by (nonlinear_arith);
    assert(a3 * (t3 * s) == (a3 * s) * t3) by (nonlinear_arith);
}

/// A row of a 3x3 matrix, scaled by `r` and applied to a vector, cancels
/// against `r` times the same row applied to the opposite vector.
pub proof fn lemma_row_cancels(
    a1: real,
    a2: real,
    a3: real,
    t1: real,
    t2: real,
    t3: real,
    r: real,
    u: real,
)
    requires
        u == a1 * (-t1) + a2 * (-t2) + a3 * (-t3),
    ensures
        (a1 * r) * t1 + (a2 * r) * t2 + (a3 * r) * t3 + u * r == 0real,
{
    let m1 = a1 * (-t1);
    let m2 = a2 * (-t2);
    let m3 = a3 * (-t3);
    assert(u * r == m1 * r + m2 * r + m3 * r) by (nonlinear_arith)
        requires
            u == m1 + m2 + m3,
    ;
    assert((a1 * (-t1)) * r == -((a1 * r) * t1)) by (nonlinear_arith);
    assert((a2 * (-t2)) * r == -((a2 * r) * t2)) by (nonlinear_arith);
    assert((a3 * (-t3)) * r == -((a3 * r) * t3)) by (nonlinear_arith);
}

/// A row `a` of a matrix applied to the image `u` of a vector `v` under a
/// matrix `b` is the row `d` of the product of the two matrices applied to
/// `v`.
pub proof fn lemma_row_of_product(
    a: Vector3<real>,
    b: Matrix3<real>,
    v: Vector3<real>,
    u: Vector3<real>,
    d: Vector3<real>,
)
    requires
        u == b.apply(v),
        d.x == a.x * b.m11 + a.y * b.m21 + a.z * b.m31,
        d.y == a.x * b.m12 + a.y * b.m22 + a.z * b.m32,
        d.z == a.x * b.m13 + a.y * b.m23 + a.z * b.m33,
    ensures
        a.x * u.x + a.y * u.y + a.z * u.z == d.x * v.x + d.y * v.y + d.z * v.z,
{
    let h11 = b.m11 * v.x;
    let h12 = b.m12 * v.y;
    let h13 = b.m13 * v.z;
    let h21 = b.m21 * v.x;
    let h22 = b.m22 * v.y;
    let h23 = b.m23 * v.z;
    let h31 = b.m31 * v.x;
    let h32 = b.m32 * v.y;
    let h33 = b.m33 * v.z;
    assert(a.x * u.x == a.x * h11 + a.x * h12 + a.x * h13) by (nonlinear_arith)
        requires
            u.x == h11 + h12 + h13,
    ;
    assert(a.y * u.y == a.y * h21 + a.y * h22 + a.y * h23) by (nonlinear_arith)
        requires
            u.y == h21 + h22 + h23,
    ;
    assert(a.z * u.z == a.z * h31 + a.z * h32 + a.z * h33) by (nonlinear_arith)
        requires
            u.z == h31 + h32 + h33,
    ;
    let g11 = a.x * b.m11;
    let g21 = a.y * b.m21;
    let g31 = a.z * b.m31;
    let g12 = a.x * b.m12;
    let g22 = a.y * b.m22;
    let g32 = a.z * b.m32;
    let g13 = a.x * b.m13;
    let g23 = a.y * b.m23;
    let g33 = a.z * b.m33;
    assert(d.x * v.x == g11 * v.x + g21 * v.x + g31 * v.x) by (nonlinear_arith)
        requires
            d.x == g11 + g21 + g31,
    ;
    assert(d.y * v.y == g12 * v.y + g22 * v.y + g32 * v.y) by (nonlinear_arith)
        requires
            d.y == g12 + g22 + g32,
    ;
    assert(d.z * v.z == g13 * v.z + g23 * v.z + g33 * v.z) by (nonlinear_arith)
        requires
            d.z == g13 + g23 + g33,
    ;
    lemma_regroup(a.x, b.m11, v.x);
    lemma_regroup(a.x, b.m12, v.y);
    lemma_regroup(a.x, b.m13, v.z);
    lemma_regroup(a.y, b.m21, v.x);
    lemma_regroup(a.y, b.m22, v.y);
    lemma_regroup(a.y, b.m23, v.z);
    lemma_regroup(a.z, b.m31, v.x);
    lemma_regroup(a.z, b.m32, v.y);
    lemma_regroup(a.z, b.m33, v.z);
}

/// The conjugate of a quaternion of norm 1 has norm 1, and the products of
/// the two, in either order, are the quaternion 1.
pub proof fn lemma_conjugate_is_inverse(q: Quaternion<real>)
    requires
        q.norm_squared() == 1real,
    ensures
        q.conjugated().norm_squared() == 1real,
        q.conjugated().product(q) == Quaternion::<real>::identity(),
        q.product(q.conjugated()) == Quaternion::<real>::identity(),
{
    lemma_signs(q.x, q.x);
    lemma_signs(q.y, q.y);
    lemma_signs(q.z, q.z);
    lemma_signs(q.x, q.w);
    lemma_signs(q.y, q.w);
    lemma_signs(q.z, q.w);
    lemma_signs(q.w, q.x);
    lemma_signs(q.w, q.y);
    lemma_signs(q.w, q.z);
    lemma_signs(q.x, q.y);
    lemma_signs(q.y, q.x);
    lemma_signs(q.x, q.z);
    lemma_signs(q.z, q.x);
    lemma_signs(q.y, q.z);
    lemma_signs(q.z, q.y);
}

/// The rotation matrices of a quaternion of norm 1 and of its conjugate are
/// inverse to each other.
pub proof fn lemma_conjugate_matrix_is_inverse(q: Quaternion<real>)
    requires
        q.norm_squared() == 1real,
    ensures
        q.conjugated().rotation_matrix().product(q.rotation_matrix()) == Matrix3::<
            real,
        >::identity(),
        q.rotation_matrix().product(q.conjugated().rotation_matrix()) == Matrix3::<
            real,
        >::identity(),
{
    lemma_conjugate_is_inverse(q);
    lemma_rotation_matrix_of_product(q.conjugated(), q);
    lemma_rotation_matrix_of_product(q, q.conjugated());
    assert(Quaternion::<real>::identity().rotation_matrix() == Matrix3::<real>::identity());
}

/// A row `0 0 0 1` times a column gives the last entry of the column.
pub proof fn lemma_last_row(
    z1: real,
    z2: real,
    z3: real,
    one: real,
    b1: real,
    b2: real,
    b3: real,
    b4: real,
)
    requires
        z1 == 0real,
        z2 == 0real,
        z3 == 0real,
        one == 1real,
    ensures
        z1 * b1 + z2 * b2 + z3 * b3 + one * b4 == b4,
{
    lemma_unit_factor(b1, one, z1);
    lemma_unit_factor(b2, one, z2);
    lemma_unit_factor(b3, one, z3);
    lemma_unit_factor(b4, one, z1);
}

/// Scale factors and their reciprocals cancel inside the products of a row
/// by a column.
pub proof fn lemma_unscaled_entry(
    a1: real,
    a2: real,
    a3: real,
    s1: real,
    s2: real,
    s3: real,
    b1: real,
    b2: real,
    b3: real,
    k1: real,
    k2: real,
    k3: real,
)
    requires
        s1 * k1 == 1real,
        s2 * k2 == 1real,
        s3 * k3 == 1real,
    ensures
        (a1 * s1) * (b1 * k1) + (a2 * s2) * (b2 * k2) + (a3 * s3) * (b3 * k3) == a1 * b1 + a2 * b2
            + a3 * b3,
{
    lemma_swap(a1, s1, b1, k1);
    lemma_swap(a2, s2, b2, k2);
    lemma_swap(a3, s3, b3, k3);
    lemma_unit_factor(a1 * b1, s1 * k1, 0real);
    lemma_unit_factor(a2 * b2, s2 * k2, 0real);
    lemma_unit_factor(a3 * b3, s3 * k3, 0real);
}

/// What the identity quaternion and the zero vector do in products and in
/// rotations.
pub proof fn lemma_identity_quaternion(q: Quaternion<real>, v: Vector3<real>)
    ensures
        Quaternion::<real>::identity().product(q) == q,
        q.product(Quaternion::<real>::identity()) == q,
        Quaternion::<real>::identity().rotated(v) == v,
        q.rotated(Vector3::<real>::origin()) == Vector3::<real>::origin(),
        Quaternion::<real>::identity().rotation_matrix() == Matrix3::<real>::identity(),
{
    let i = Quaternion::<real>::identity();
    let o = Vector3::<real>::origin();
    let two = <real as Arith>::two();
    lemma_unit_factor(q.x, i.w, i.x);
    lemma_unit_factor(q.x, i.w, i.y);
    lemma_unit_factor(q.x, i.w, i.z);
    lemma_unit_factor(q.y, i.w, i.x);
    lemma_unit_factor(q.y, i.w, i.y);
    lemma_unit_factor(q.y, i.w, i.z);
    lemma_unit_factor(q.z, i.w, i.x);
    lemma_unit_factor(q.z, i.w, i.y);
    lemma_unit_factor(q.z, i.w, i.z);
    lemma_unit_factor(q.w, i.w, i.x);
    lemma_unit_factor(q.w, i.w, i.y);
    lemma_unit_factor(q.w, i.w, i.z);
    assert(i.product(q) == q);
    assert(q.product(i) == q);
    let k = i.imag().cross(v);
    lemma_unit_factor(v.x, 1real, i.x);
    lemma_unit_factor(v.x, 1real, i.y);
    lemma_unit_factor(v.x, 1real, i.z);
    lemma_unit_factor(v.y, 1real, i.x);
    lemma_unit_factor(v.y, 1real, i.y);
    lemma_unit_factor(v.y, 1real, i.z);
    lemma_unit_factor(v.z, 1real, i.x);
    lemma_unit_factor(v.z, 1real, i.y);
    lemma_unit_factor(v.z, 1real, i.z);
    assert(k == o);
    let t = k.scaled(two);
    lemma_unit_factor(two, 1real, k.x);
    lemma_unit_factor(two, 1real, k.y);
    lemma_unit_factor(two, 1real, k.z);
    assert(t == o);
    lemma_unit_factor(t.x, i.w, i.x);
    lemma_unit_factor(t.x, i.w, i.y);
    lemma_unit_factor(t.x, i.w, i.z);
    lemma_unit_factor(t.y, i.w, i.x);
    lemma_unit_factor(t.y, i.w, i.y);
    lemma_unit_factor(t.y, i.w, i.z);
    lemma_unit_factor(t.z, i.w, i.x);
    lemma_unit_factor(t.z, i.w, i.y);
    lemma_unit_factor(t.z, i.w, i.z);
    assert(i.imag().cross(t) == o);
    assert(t.scaled(i.w) == o);
    assert(i.rotated(v) == v);
    let ko = q.imag().cross(o);
    lemma_unit_factor(q.x, 1real, o.x);
    lemma_unit_factor(q.x, 1real, o.y);
    lemma_unit_factor(q.x, 1real, o.z);
    lemma_unit_factor(q.y, 1real, o.x);
    lemma_unit_factor(q.y, 1real, o.y);
    lemma_unit_factor(q.y, 1real, o.z);
    lemma_unit_factor(q.z, 1real, o.x);
    lemma_unit_factor(q.z, 1real, o.y);
    lemma_unit_factor(q.z, 1real, o.z);
    assert(ko == o);
    let to = ko.scaled(two);
    lemma_unit_factor(two, 1real, ko.x);
    lemma_unit_factor(two, 1real, ko.y);
    lemma_unit_factor(two, 1real, ko.z);
    assert(to == o);
    lemma_unit_factor(q.x, 1real, to.x);
    lemma_unit_factor(q.x, 1real, to.y);
    lemma_unit_factor(q.x, 1real, to.z);
    lemma_unit_factor(q.y, 1real, to.x);
    lemma_unit_factor(q.y, 1real, to.y);
    lemma_unit_factor(q.y, 1real, to.z);
    lemma_unit_factor(q.z, 1real, to.x);
    lemma_unit_factor(q.z, 1real, to.y);
    lemma_unit_factor(q.z, 1real, to.z);
    lemma_unit_factor(q.w, 1real, to.x);
    lemma_unit_factor(q.w, 1real, to.y);
    lemma_unit_factor(q.w, 1real, to.z);
    assert(q.imag().cross(to) == o);
    assert(to.scaled(q.w) == o);
    assert(q.rotated(o) == o);
    lemma_unit_factor(i.w, i.w, i.x);
    lemma_unit_factor(i.w, i.w, i.y);
    lemma_unit_factor(i.w, i.w, i.z);
    lemma_unit_factor(i.x, i.w, i.x);
    lemma_unit_factor(i.x, i.w, i.y);
    lemma_unit_factor(i.x, i.w, i.z);
    lemma_unit_factor(i.y, i.w, i.x);
    lemma_unit_factor(i.y, i.w, i.y);
    lemma_unit_factor(i.y, i.w, i.z);
    lemma_unit_factor(i.z, i.w, i.x);
    lemma_unit_factor(i.z, i.w, i.y);
    lemma_unit_factor(i.z, i.w, i.z);
    lemma_unit_factor(two, 1real, i.x * i.y);
    lemma_unit_factor(two, 1real, i.w * i.z);
    lemma_unit_factor(two, 1real, i.w * i.y);
    lemma_unit_factor(two, 1real, i.x * i.z);
    lemma_unit_factor(two, 1real, i.y * i.z);
    lemma_unit_factor(two, 1real, i.w * i.x);
    assert(i.rotation_matrix() == Matrix3::<real>::identity());
}

/// The scale 1 changes neither a vector nor the columns of a matrix, and
/// the zero vector scaled is the zero vector.
pub proof fn lemma_unit_scale(v: Vector3<real>, m: Matrix4<real>)
    ensures
        v.hadamard(Vector3::<real>::ones()) == v,
        Vector3::<real>::ones().hadamard(v) == v,
        Vector3::<real>::origin().hadamard(v) == Vector3::<real>::origin(),
        m.columns_scaled(Vector3::<real>::ones()) == m,
{
    let e = Vector3::<real>::ones();
    let o = Vector3::<real>::origin();
    lemma_unit_factor(v.x, e.x, o.x);
    lemma_unit_factor(v.y, e.y, o.y);
    lemma_unit_factor(v.z, e.z, o.z);
    lemma_unit_factor(m.m11, e.x, 0real);
    lemma_unit_factor(m.m12, e.y, 0real);
    lemma_unit_factor(m.m13, e.z, 0real);
    lemma_unit_factor(m.m21, e.x, 0real);
    lemma_unit_factor(m.m22, e.y, 0real);
    lemma_unit_factor(m.m23, e.z, 0real);
    lemma_unit_factor(m.m31, e.x, 0real);
    lemma_unit_factor(m.m32, e.y, 0real);
    lemma_unit_factor(m.m33, e.z, 0real);
    lemma_unit_factor(m.m41, e.x, 0real);
    lemma_unit_factor(m.m42, e.y, 0real);
    lemma_unit_factor(m.m43, e.z, 0real);
}

/// The cross product of a vector with its own cross product with another:
/// `a x (a x v) = (a . v) a - (a . a) v`.
pub proof fn lemma_double_cross(a: Vector3<real>, v: Vector3<real>)
    ensures
        a.cross(a.cross(v)) == a.scaled(a.dot(v)).difference(v.scaled(a.norm_squared())),
{
    let x = a.cross(v);
    let d = a.dot(v);
    let n = a.norm_squared();
    let axx = a.x * v.x;
    let axy = a.x * v.y;
    let axz = a.x * v.z;
    let ayx = a.y * v.x;
    let ayy = a.y * v.y;
    let ayz = a.y * v.z;
    let azx = a.z * v.x;
    let azy = a.z * v.y;
    let azz = a.z * v.z;
    let nx = a.x * a.x;
    let ny = a.y * a.y;
    let nz = a.z * a.z;
    assert(x.x == ayz - azy);
    assert(x.y == azx - axz);
    assert(x.z == axy - ayx);
    assert(d == axx + ayy + azz);
    assert(n == nx + ny + nz);
    // every product of a component of `a` with a component of `a x v`
    assert(a.y * x.z == a.y * axy - a.y * ayx) by (nonlinear_arith)
        requires
            x.z == axy - ayx,
    ;
    assert(a.z * x.y == a.z * azx - a.z * axz) by (nonlinear_arith)
        requires
            x.y == azx - axz,
    ;
    assert(a.z * x.x == a.z * ayz - a.z * azy) by (nonlinear_arith)
        requires
            x.x == ayz - azy,
    ;
    assert(a.x * x.z == a.x * axy - a.x * ayx) by (nonlinear_arith)
        requires
            x.z == axy - ayx,
    ;
    assert(a.x * x.y == a.x * azx - a.x * axz) by (nonlinear_arith)
        requires
            x.y == azx - axz,
    ;
    assert(a.y * x.x == a.y * ayz - a.y * azy) by (nonlinear_arith)
        requires
            x.x == ayz - azy,
    ;
    // every product of a component of `a` with `a . v`, and of `v` with `a . a`
    assert(a.x * d == a.x * axx + a.x * ayy + a.x * azz) by (nonlinear_arith)
        requires
            d == axx + ayy + azz,
    ;
    assert(a.y * d == a.y * axx + a.y * ayy + a.y * azz) by (nonlinear_arith)
        requires
            d == axx + ayy + azz,
    ;
    assert(a.z * d == a.z * axx + a.z * ayy + a.z * azz) by (nonlinear_arith)
        requires
            d == axx + ayy + azz,
    ;
    assert(v.x * n == v.x * nx + v.x * ny + v.x * nz) by (nonlinear_arith)
        requires
            n == nx + ny + nz,
    ;
    assert(v.y * n == v.y * nx + v.y * ny + v.y * nz) by (nonlinear_arith)
        requires
            n == nx + ny + nz,
    ;
    assert(v.z * n == v.z * nx + v.z * ny + v.z * nz) by (nonlinear_arith)
        requires
            n == nx + ny + nz,
    ;
    // the monomials, each in the one form `(a a) v`
    lemma_monomial(a.x, a.x, v.x);
    lemma_monomial(a.x, a.x, v.y);
    lemma_monomial(a.x, a.x, v.z);
    lemma_monomial(a.x, a.y, v.x);
    lemma_monomial(a.x, a.y, v.y);
    lemma_monomial(a.x, a.y, v.z);
    lemma_monomial(a.x, a.z, v.x);
    lemma_monomial(a.x, a.z, v.y);
    lemma_monomial(a.x, a.z, v.z);
    lemma_monomial(a.y, a.y, v.x);
    lemma_monomial(a.y, a.y, v.y);
    lemma_monomial(a.y, a.y, v.z);
    lemma_monomial(a.y, a.z, v.x);
    lemma_monomial(a.y, a.z, v.y);
    lemma_monomial(a.y, a.z, v.z);
    lemma_monomial(a.z, a.z, v.x);
    lemma_monomial(a.z, a.z, v.y);
    lemma_monomial(a.z, a.z, v.z);
    let l = a.cross(x);
    let r = a.scaled(d).difference(v.scaled(n));
    assert(l.x == r.x);
    assert(l.y == r.y);
    assert(l.z == r.z);
}

/// The three ways to write the product of two components of one vector and
/// a component of another are equal.
pub proof fn lemma_monomial(a: real, b: real, c: real)
    ensures
        a * (b * c) == (a * b) * c,
        b * (a * c) == (a * b) * c,
        c * (a * b) == (a * b) * c,
        (a * c) * b == (a * b) * c,
        (b * c) * a == (a * b) * c,
{
    assert(a * (b * c) == (a * b) * c) by (nonlinear_arith);
    assert(b * (a * c) == (a * b) * c) by (nonlinear_arith);
    assert(c * (a * b) == (a * b) * c) by (nonlinear_arith);
    assert((a * c) * b == (a * b) * c) by (nonlinear_arith);
    assert((b * c) * a == (a * b) * c) by (nonlinear_arith);
}

/// One component of a turn about an axis: with `x` the component of
/// `axis x v`, `y` that of `axis x (axis x v)`, and `u1`, `u2` the two
/// components of `sin_half * axis` that meet `t1`, `t2`, those of
/// `2 (sin_half * axis) x v`.
pub proof fn lemma_turn_component(
    s: real,
    c: real,
    a1: real,
    a2: real,
    x: real,
    x1: real,
    x2: real,
    y: real,
)
    requires
        y == a1 * x1 - a2 * x2,
    ensures
        ((x * s) * 2real) * c == x * (2real * (s * c)),
        (a1 * s) * ((x1 * s) * 2real) - (a2 * s) * ((x2 * s) * 2real) == y * (2real * (s * s)),
{
    assert(((x * s) * 2real) * c == x * (2real * (s * c))) by (nonlinear_arith);
    let m1 = a1 * x1;
    let m2 = a2 * x2;
    let k = 2real * (s * s);
    assert((a1 * s) * ((x1 * s) * 2real) == (a1 * x1) * (2real * (s * s))) by (nonlinear_arith);
    assert((a2 * s) * ((x2 * s) * 2real) == (a2 * x2) * (2real * (s * s))) by (nonlinear_arith);
    assert(y * k == m1 * k - m2 * k) by (nonlinear_arith)
        requires
            y == m1 - m2,
    ;
}

/// A turn about a unit vector `axis`, by the angle whose half has sine
/// `sin_half` and cosine `cos_half`, takes `v` to
/// `cos v + sin (axis x v) + (1 - cos) (axis . v) axis`, with `cos` and `sin`
/// the cosine and the sine of the whole angle.
pub proof fn lemma_turn_about_axis(
    axis: Vector3<real>,
    sin_half: real,
    cos_half: real,
    v: Vector3<real>,
)
    requires
        axis.norm_squared() == 1real,
        sin_half * sin_half + cos_half * cos_half == 1real,
    ensures
        Quaternion::about(axis, sin_half, cos_half).rotated(v) == v.scaled(
            cos_half * cos_half - sin_half * sin_half,
        ).sum(axis.cross(v).scaled(2real * (sin_half * cos_half))).sum(
            axis.scaled(
                (1real - (cos_half * cos_half - sin_half * sin_half)) * axis.dot(v),
            ),
        ),
{
    let s = sin_half;
    let c = cos_half;
    let q = Quaternion::about(axis, s, c);
    let u = q.imag();
    let x = axis.cross(v);
    let y = axis.cross(x);
    let d = axis.dot(v);
    let n = axis.norm_squared();
    let k = u.cross(v);
    let t = k.scaled(2real);
    let w = u.cross(t);
    let cos = c * c - s * s;
    let sin = 2real * (s * c);
    let ss = 2real * (s * s);
    lemma_double_cross(axis, v);
    // `k` is `axis x v` scaled by the sine of the half angle
    lemma_turn(axis.x, s, v.y);
    lemma_turn(axis.x, s, v.z);
    lemma_turn(axis.y, s, v.x);
    lemma_turn(axis.y, s, v.z);
    lemma_turn(axis.z, s, v.x);
    lemma_turn(axis.z, s, v.y);
    assert(k.x == x.x * s) by (nonlinear_arith)
        requires
            k.x == (axis.y * v.z) * s - (axis.z * v.y) * s,
            x.x == axis.y * v.z - axis.z * v.y,
    ;
    assert(k.y == x.y * s) by (nonlinear_arith)
        requires
            k.y == (axis.z * v.x) * s - (axis.x * v.z) * s,
            x.y == axis.z * v.x - axis.x * v.z,
    ;
    assert(k.z == x.z * s) by (nonlinear_arith)
        requires
            k.z == (axis.x * v.y) * s - (axis.y * v.x) * s,
            x.z == axis.x * v.y - axis.y * v.x,
    ;
    lemma_turn_component(s, c, axis.y, axis.z, x.x, x.z, x.y, y.x);
    lemma_turn_component(s, c, axis.z, axis.x, x.y, x.x, x.z, y.y);
    lemma_turn_component(s, c, axis.x, axis.y, x.z, x.y, x.x, y.z);
    assert(t.scaled(q.w).x == x.x * sin);
    assert(t.scaled(q.w).y == x.y * sin);
    assert(t.scaled(q.w).z == x.z * sin);
    assert(w.x == y.x * ss);
    assert(w.y == y.y * ss);
    assert(w.z == y.z * ss);
    // `axis x (axis x v)` is `(axis . v) axis - v`
    lemma_unit_factor(v.x, n, 0real);
    lemma_unit_factor(v.y, n, 0real);
    lemma_unit_factor(v.z, n, 0real);
    assert(y.x == axis.x * d - v.x);
    assert(y.y == axis.y * d - v.y);
    assert(y.z == axis.z * d - v.z);
    lemma_turn_sum(s, c, axis.x, d, v.x, x.x, y.x);
    lemma_turn_sum(s, c, axis.y, d, v.y, x.y, y.y);
    lemma_turn_sum(s, c, axis.z, d, v.z, x.z, y.z);
}

/// One component of the sum that a turn about an axis gives.
pub proof fn lemma_turn_sum(s: real, c: real, a: real, d: real, v: real, x: real, y: real)
    requires
        s * s + c * c == 1real,
        y == a * d - v,
    ensures
        x * (2real * (s * c)) + y * (2real * (s * s)) + v == v * (c * c - s * s) + x * (2real * (s
            * c)) + a * ((1real - (c * c - s * s)) * d),
{
    let ss = s * s;
    let cc = c * c;
    let k = 2real * ss;
    let ad = a * d;
    assert(y * k == ad * k - v * k) by (nonlinear_arith)
        requires
            y == ad - v,
    ;
    assert(v * (cc - ss) == v - v * k) by (nonlinear_arith)
        requires
            cc - ss == 1real - k,
    ;
    assert(a * ((1real - (cc - ss)) * d) == ad * k) by (nonlinear_arith)
        requires
            1real - (cc - ss) == k,
            ad == a * d,
    ;
}

/// The homogeneous matrix of a rigid motion is the matrix of its translation
/// times the matrix of its rotation, and the matrix of a pose is that matrix
/// times the matrix of its scaling.
pub proof fn lemma_translate_rotate_scale(p: Pose<real>)
    ensures
        p.isometry.homogeneous() == Matrix4::translation(p.isometry.translation).product(
            Matrix4::linear(p.isometry.rotation.rotation_matrix()),
        ),
        p.matrix() == p.isometry.homogeneous().product(Matrix4::scaling(p.scale)),
{
    let t = Matrix4::translation(p.isometry.translation);
    let l = Matrix4::linear(p.isometry.rotation.rotation_matrix());
    let s = Matrix4::scaling(p.scale);
    let h = p.isometry.homogeneous();
    lemma_unit_factor(l.m11, t.m11, 0real);
    lemma_unit_factor(l.m21, 1real, t.m12);
    lemma_unit_factor(l.m31, 1real, t.m13);
    lemma_unit_factor(t.m14, 1real, l.m41);
    lemma_unit_factor(l.m12, t.m11, 0real);
    lemma_unit_factor(l.m22, 1real, t.m12);
    lemma_unit_factor(l.m32, 1real, t.m13);
    lemma_unit_factor(t.m14, 1real, l.m42);
    lemma_unit_factor(l.m13, t.m11, 0real);
    lemma_unit_factor(l.m23, 1real, t.m12);
    lemma_unit_factor(l.m33, 1real, t.m13);
    lemma_unit_factor(t.m14, 1real, l.m43);
    lemma_unit_factor(l.m14, t.m11, 0real);
    lemma_unit_factor(l.m24, 1real, t.m12);
    lemma_unit_factor(l.m34, 1real, t.m13);
    lemma_unit_factor(t.m14, l.m44, 0real);
    lemma_unit_factor(l.m11, 1real, t.m21);
    lemma_unit_factor(l.m21, t.m22, 0real);
    lemma_unit_factor(l.m31, 1real, t.m23);
    lemma_unit_factor(t.m24, 1real, l.m41);
    lemma_unit_factor(l.m12, 1real, t.m21);
    lemma_unit_factor(l.m22, t.m22, 0real);
    lemma_unit_factor(l.m32, 1real, t.m23);
    lemma_unit_factor(t.m24, 1real, l.m42);
    lemma_unit_factor(l.m13, 1real, t.m21);
    lemma_unit_factor(l.m23, t.m22, 0real);
    lemma_unit_factor(l.m33, 1real, t.m23);
    lemma_unit_factor(t.m24, 1real, l.m43);
    lemma_unit_factor(l.m14, 1real, t.m21);
    lemma_unit_factor(l.m24, t.m22, 0real);
    lemma_unit_factor(l.m34, 1real, t.m23);
    lemma_unit_factor(t.m24, l.m44, 0real);
    lemma_unit_factor(l.m11, 1real, t.m31);
    lemma_unit_factor(l.m21, 1real, t.m32);
    lemma_unit_factor(l.m31, t.m33, 0real);
    lemma_unit_factor(t.m34, 1real, l.m41);
    lemma_unit_factor(l.m12, 1real, t.m31);
    lemma_unit_factor(l.m22, 1real, t.m32);
    lemma_unit_factor(l.m32, t.m33, 0real);
    lemma_unit_factor(t.m34, 1real, l.m42);
    lemma_unit_factor(l.m13, 1real, t.m31);
    lemma_unit_factor(l.m23, 1real, t.m32);
    lemma_unit_factor(l.m33, t.m33, 0real);
    lemma_unit_factor(t.m34, 1real, l.m43);
    lemma_unit_factor(l.m14, 1real, t.m31);
    lemma_unit_factor(l.m24, 1real, t.m32);
    lemma_unit_factor(l.m34, t.m33, 0real);
    lemma_unit_factor(t.m34, l.m44, 0real);
    lemma_unit_factor(l.m11, 1real, t.m41);
    lemma_unit_factor(l.m21, 1real, t.m42);
    lemma_unit_factor(l.m31, 1real, t.m43);
    lemma_unit_factor(l.m41, t.m44, 0real);
    lemma_unit_factor(l.m12, 1real, t.m41);
    lemma_unit_factor(l.m22, 1real, t.m42);
    lemma_unit_factor(l.m32, 1real, t.m43);
    lemma_unit_factor(l.m42, t.m44, 0real);
    lemma_unit_factor(l.m13, 1real, t.m41);
    lemma_unit_factor(l.m23, 1real, t.m42);
    lemma_unit_factor(l.m33, 1real, t.m43);
    lemma_unit_factor(l.m43, t.m44, 0real);
    lemma_unit_factor(l.m14, 1real, t.m41);
    lemma_unit_factor(l.m24, 1real, t.m42);
    lemma_unit_factor(l.m34, 1real, t.m43);
    lemma_unit_factor(l.m44, t.m44, 0real);
    assert(t.product(l) == h);
    lemma_unit_factor(h.m12, 1real, s.m21);
    lemma_unit_factor(h.m13, 1real, s.m31);
    lemma_unit_factor(h.m14, 1real, s.m41);
    lemma_unit_factor(h.m11, 1real, s.m12);
    lemma_unit_factor(h.m13, 1real, s.m32);
    lemma_unit_factor(h.m14, 1real, s.m42);
    lemma_unit_factor(h.m11, 1real, s.m13);
    lemma_unit_factor(h.m12, 1real, s.m23);
    lemma_unit_factor(h.m14, 1real, s.m43);
    lemma_unit_factor(h.m11, 1real, s.m14);
    lemma_unit_factor(h.m12, 1real, s.m24);
    lemma_unit_factor(h.m13, 1real, s.m34);
    lemma_unit_factor(h.m14, s.m44, 0real);
    lemma_unit_factor(h.m22, 1real, s.m21);
    lemma_unit_factor(h.m23, 1real, s.m31);
    lemma_unit_factor(h.m24, 1real, s.m41);
    lemma_unit_factor(h.m21, 1real, s.m12);
    lemma_unit_factor(h.m23, 1real, s.m32);
    lemma_unit_factor(h.m24, 1real, s.m42);
    lemma_unit_factor(h.m21, 1real, s.m13);
    lemma_unit_factor(h.m22, 1real, s.m23);
    lemma_unit_factor(h.m24, 1real, s.m43);
    lemma_unit_factor(h.m21, 1real, s.m14);
    lemma_unit_factor(h.m22, 1real, s.m24);
    lemma_unit_factor(h.m23, 1real, s.m34);
    lemma_unit_factor(h.m24, s.m44, 0real);
    lemma_unit_factor(h.m32, 1real, s.m21);
    lemma_unit_factor(h.m33, 1real, s.m31);
    lemma_unit_factor(h.m34, 1real, s.m41);
    lemma_unit_factor(h.m31, 1real, s.m12);
    lemma_unit_factor(h.m33, 1real, s.m32);
    lemma_unit_factor(h.m34, 1real, s.m42);
    lemma_unit_factor(h.m31, 1real, s.m13);
    lemma_unit_factor(h.m32, 1real, s.m23);
    lemma_unit_factor(h.m34, 1real, s.m43);
    lemma_unit_factor(h.m31, 1real, s.m14);
    lemma_unit_factor(h.m32, 1real, s.m24);
    lemma_unit_factor(h.m33, 1real, s.m34);
    lemma_unit_factor(h.m34, s.m44, 0real);
    lemma_unit_factor(s.m11, 1real, h.m41);
    lemma_unit_factor(s.m21, 1real, h.m42);
    lemma_unit_factor(s.m31, 1real, h.m43);
    lemma_unit_factor(s.m41, h.m44, 0real);
    lemma_unit_factor(s.m12, 1real, h.m41);
    lemma_unit_factor(s.m22, 1real, h.m42);
    lemma_unit_factor(s.m32, 1real, h.m43);
    lemma_unit_factor(s.m42, h.m44, 0real);
    lemma_unit_factor(s.m13, 1real, h.m41);
    lemma_unit_factor(s.m23, 1real, h.m42);
    lemma_unit_factor(s.m33, 1real, h.m43);
    lemma_unit_factor(s.m43, h.m44, 0real);
    lemma_unit_factor(s.m14, 1real, h.m41);
    lemma_unit_factor(s.m24, 1real, h.m42);
    lemma_unit_factor(s.m34, 1real, h.m43);
    lemma_unit_factor(s.m44, h.m44, 0real);
    lemma_unit_factor(p.scale.x, 1real, h.m41);
    lemma_unit_factor(p.scale.y, 1real, h.m42);
    lemma_unit_factor(p.scale.z, 1real, h.m43);
    assert(h.product(s) == p.matrix());
}

/// The view matrix times the matrix is the identity, where no scale factor
/// is zero.
pub proof fn lemma_view_matrix_is_left_inverse(t: Pose<real>)
    requires
        t.isometry.rotation.norm_squared() == 1real,
        t.scale.x != 0real,
        t.scale.y != 0real,
        t.scale.z != 0real,
    ensures
        t.view_matrix().product(t.matrix()) == Matrix4::<real>::identity(),
{
    let q = t.isometry.rotation;
    let c = q.conjugated();
    let r = q.rotation_matrix();
    let rc = c.rotation_matrix();
    let p = t.isometry.translation;
    let n = p.negated();
    let u = c.rotated(n);
    let s = t.scale;
    let k = t.inverse_scale();
    let m = t.matrix();
    let v = t.view_matrix();
    let e = Matrix4::<real>::identity();
    lemma_conjugate_is_inverse(q);
    lemma_conjugate_matrix_is_inverse(q);
    lemma_rotated_is_applied(c, n);
    lemma_reciprocal(s.x);
    lemma_reciprocal(s.y);
    lemma_reciprocal(s.z);
    let d = rc.product(r);
    lemma_scaled_entry(rc.m11, rc.m12, rc.m13, r.m11, r.m21, r.m31, k.x, s.x, v.m14, d.m11);
    lemma_unit_factor(k.x * s.x, d.m11, d.m12);
    lemma_scaled_entry(rc.m11, rc.m12, rc.m13, r.m12, r.m22, r.m32, k.x, s.y, v.m14, d.m12);
    lemma_unit_factor(k.x * s.y, d.m11, d.m12);
    lemma_scaled_entry(rc.m11, rc.m12, rc.m13, r.m13, r.m23, r.m33, k.x, s.z, v.m14, d.m13);
    lemma_unit_factor(k.x * s.z, d.m11, d.m12);
    lemma_scaled_entry(rc.m21, rc.m22, rc.m23, r.m11, r.m21, r.m31, k.y, s.x, v.m24, d.m21);
    lemma_unit_factor(k.y * s.x, d.m11, d.m12);
    lemma_scaled_entry(rc.m21, rc.m22, rc.m23, r.m12, r.m22, r.m32, k.y, s.y, v.m24, d.m22);
    lemma_unit_factor(k.y * s.y, d.m11, d.m12);
    lemma_scaled_entry(rc.m21, rc.m22, rc.m23, r.m13, r.m23, r.m33, k.y, s.z, v.m24, d.m23);
    lemma_unit_factor(k.y * s.z, d.m11, d.m12);
    lemma_scaled_entry(rc.m31, rc.m32, rc.m33, r.m11, r.m21, r.m31, k.z, s.x, v.m34, d.m31);
    lemma_unit_factor(k.z * s.x, d.m11, d.m12);
    lemma_scaled_entry(rc.m31, rc.m32, rc.m33, r.m12, r.m22, r.m32, k.z, s.y, v.m34, d.m32);
    lemma_unit_factor(k.z * s.y, d.m11, d.m12);
    lemma_scaled_entry(rc.m31, rc.m32, rc.m33, r.m13, r.m23, r.m33, k.z, s.z, v.m34, d.m33);
    lemma_unit_factor(k.z * s.z, d.m11, d.m12);
    lemma_row_cancels(rc.m11, rc.m12, rc.m13, p.x, p.y, p.z, k.x, u.x);
    lemma_unit_factor(v.m14, m.m44, m.m41);
    lemma_row_cancels(rc.m21, rc.m22, rc.m23, p.x, p.y, p.z, k.y, u.y);
    lemma_unit_factor(v.m24, m.m44, m.m41);
    lemma_row_cancels(rc.m31, rc.m32, rc.m33, p.x, p.y, p.z, k.z, u.z);
    lemma_unit_factor(v.m34, m.m44, m.m41);
    lemma_last_row(v.m41, v.m42, v.m43, v.m44, m.m11, m.m21, m.m31, m.m41);
    lemma_last_row(v.m41, v.m42, v.m43, v.m44, m.m12, m.m22, m.m32, m.m42);
    lemma_last_row(v.m41, v.m42, v.m43, v.m44, m.m13, m.m23, m.m33, m.m43);
    lemma_last_row(v.m41, v.m42, v.m43, v.m44, m.m14, m.m24, m.m34, m.m44);
    let l = v.product(m);
    assert(l.m11 == e.m11);
    assert(l.m12 == e.m12);
    assert(l.m13 == e.m13);
    assert(l.m14 == e.m14);
    assert(l.m21 == e.m21);
    assert(l.m22 == e.m22);
    assert(l.m23 == e.m23);
    assert(l.m24 == e.m24);
    assert(l.m31 == e.m31);
    assert(l.m32 == e.m32);
    assert(l.m33 == e.m33);
    assert(l.m34 == e.m34);
    assert(l.m41 == e.m41);
    assert(l.m42 == e.m42);
    assert(l.m43 == e.m43);
    assert(l.m44 == e.m44);
}

/// The matrix times the view matrix is the identity, where no scale factor
/// is zero.
pub proof fn lemma_view_matrix_is_right_inverse(t: Pose<real>)
    requires
        t.isometry.rotation.norm_squared() == 1real,
        t.scale.x != 0real,
        t.scale.y != 0real,
        t.scale.z != 0real,
    ensures
        t.matrix().product(t.view_matrix()) == Matrix4::<real>::identity(),
{
    let q = t.isometry.rotation;
    let c = q.conjugated();
    let r = q.rotation_matrix();
    let rc = c.rotation_matrix();
    let p = t.isometry.translation;
    let n = p.negated();
    let u = c.rotated(n);
    let s = t.scale;
    let k = t.inverse_scale();
    let m = t.matrix();
    let v = t.view_matrix();
    let e = Matrix4::<real>::identity();
    lemma_conjugate_is_inverse(q);
    lemma_conjugate_matrix_is_inverse(q);
    lemma_rotated_is_applied(c, n);
    lemma_reciprocal(s.x);
    lemma_reciprocal(s.y);
    lemma_reciprocal(s.z);
    let d = r.product(rc);
    lemma_unscaled_entry(r.m11, r.m12, r.m13, s.x, s.y, s.z, rc.m11, rc.m21, rc.m31, k.x, k.y, k.z);
    lemma_unit_factor(p.x, v.m44, v.m41);
    lemma_unscaled_entry(r.m11, r.m12, r.m13, s.x, s.y, s.z, rc.m12, rc.m22, rc.m32, k.x, k.y, k.z);
    lemma_unit_factor(p.x, v.m44, v.m42);
    lemma_unscaled_entry(r.m11, r.m12, r.m13, s.x, s.y, s.z, rc.m13, rc.m23, rc.m33, k.x, k.y, k.z);
    lemma_unit_factor(p.x, v.m44, v.m43);
    lemma_unscaled_entry(r.m21, r.m22, r.m23, s.x, s.y, s.z, rc.m11, rc.m21, rc.m31, k.x, k.y, k.z);
    lemma_unit_factor(p.y, v.m44, v.m41);
    lemma_unscaled_entry(r.m21, r.m22, r.m23, s.x, s.y, s.z, rc.m12, rc.m22, rc.m32, k.x, k.y, k.z);
    lemma_unit_factor(p.y, v.m44, v.m42);
    lemma_unscaled_entry(r.m21, r.m22, r.m23, s.x, s.y, s.z, rc.m13, rc.m23, rc.m33, k.x, k.y, k.z);
    lemma_unit_factor(p.y, v.m44, v.m43);
    lemma_unscaled_entry(r.m31, r.m32, r.m33, s.x, s.y, s.z, rc.m11, rc.m21, rc.m31, k.x, k.y, k.z);
    lemma_unit_factor(p.z, v.m44, v.m41);
    lemma_unscaled_entry(r.m31, r.m32, r.m33, s.x, s.y, s.z, rc.m12, rc.m22, rc.m32, k.x, k.y, k.z);
    lemma_unit_factor(p.z, v.m44, v.m42);
    lemma_unscaled_entry(r.m31, r.m32, r.m33, s.x, s.y, s.z, rc.m13, rc.m23, rc.m33, k.x, k.y, k.z);
    lemma_unit_factor(p.z, v.m44, v.m43);
    lemma_unscaled_entry(r.m11, r.m12, r.m13, s.x, s.y, s.z, u.x, u.y, u.z, k.x, k.y, k.z);
    lemma_row_of_product(
        Vector3 { x: r.m11, y: r.m12, z: r.m13 },
        rc,
        n,
        u,
        Vector3 { x: d.m11, y: d.m12, z: d.m13 },
    );
    lemma_unit_factor(p.x, v.m44, v.m41);
    lemma_unit_factor(n.x, d.m11, d.m12);
    lemma_unit_factor(n.y, d.m11, d.m12);
    lemma_unit_factor(n.z, d.m11, d.m12);
    lemma_unscaled_entry(r.m21, r.m22, r.m23, s.x, s.y, s.z, u.x, u.y, u.z, k.x, k.y, k.z);
    lemma_row_of_product(
        Vector3 { x: r.m21, y: r.m22, z: r.m23 },
        rc,
        n,
        u,
        Vector3 { x: d.m21, y: d.m22, z: d.m23 },
    );
    lemma_unit_factor(p.y, v.m44, v.m41);
    lemma_unit_factor(n.x, d.m11, d.m12);
    lemma_unit_factor(n.y, d.m11, d.m12);
    lemma_unit_factor(n.z, d.m11, d.m12);
    lemma_unscaled_entry(r.m31, r.m32, r.m33, s.x, s.y, s.z, u.x, u.y, u.z, k.x, k.y, k.z);
    lemma_row_of_product(
        Vector3 { x: r.m31, y: r.m32, z: r.m33 },
        rc,
        n,
        u,
        Vector3 { x: d.m31, y: d.m32, z: d.m33 },
    );
    lemma_unit_factor(p.z, v.m44, v.m41);
    lemma_unit_factor(n.x, d.m11, d.m12);
    lemma_unit_factor(n.y, d.m11, d.m12);
    lemma_unit_factor(n.z, d.m11, d.m12);
    lemma_last_row(m.m41, m.m42, m.m43, m.m44, v.m11, v.m21, v.m31, v.m41);
    lemma_last_row(m.m41, m.m42, m.m43, m.m44, v.m12, v.m22, v.m32, v.m42);
    lemma_last_row(m.m41, m.m42, m.m43, m.m44, v.m13, v.m23, v.m33, v.m43);
    lemma_last_row(m.m41, m.m42, m.m43, m.m44, v.m14, v.m24, v.m34, v.m44);
    let l = m.product(v);
    assert(l.m11 == e.m11);
    assert(l.m12 == e.m12);
    assert(l.m13 == e.m13);
    assert(l.m14 == e.m14);
    assert(l.m21 == e.m21);
    assert(l.m22 == e.m22);
    assert(l.m23 == e.m23);
    assert(l.m24 == e.m24);
    assert(l.m31 == e.m31);
    assert(l.m32 == e.m32);
    assert(l.m33 == e.m33);
    assert(l.m34 == e.m34);
    assert(l.m41 == e.m41);
    assert(l.m42 == e.m42);
    assert(l.m43 == e.m43);
    assert(l.m44 == e.m44);
}

/// The quaternion of three Euler angles is the product of three turns about
/// the axes: as rotations, the turn about x comes first, then the turn about
/// y, then the turn about z.
pub proof fn lemma_euler_is_three_turns(
    sr: real,
    cr: real,
    sp: real,
    cp: real,
    sy: real,
    cy: real,
)
    ensures
        Quaternion::euler(sr, cr, sp, cp, sy, cy) == Quaternion::about(
            Vector3::<real>::axis_z(),
            sy,
            cy,
        ).product(
            Quaternion::about(Vector3::<real>::axis_y(), sp, cp).product(
                Quaternion::about(Vector3::<real>::axis_x(), sr, cr),
            ),
        ),
{
    let qx = Quaternion::about(Vector3::<real>::axis_x(), sr, cr);
    let qy = Quaternion::about(Vector3::<real>::axis_y(), sp, cp);
    let qz = Quaternion::about(Vector3::<real>::axis_z(), sy, cy);
    let one = <real as Arith>::one();
    let zero = <real as Arith>::zero();
    lemma_unit_factor(sr, one, zero);
    lemma_unit_factor(sp, one, zero);
    lemma_unit_factor(sy, one, zero);
    assert(qx == Quaternion { x: sr, y: 0real, z: 0real, w: cr });
    assert(qy == Quaternion { x: 0real, y: sp, z: 0real, w: cp });
    assert(qz == Quaternion { x: 0real, y: 0real, z: sy, w: cy });
    let yx = qy.product(qx);
    lemma_unit_factor(cr, 1real, qy.x);
    lemma_unit_factor(sp, 1real, qx.z);
    lemma_unit_factor(qx.y, 1real, qy.z);
    lemma_unit_factor(cp, 1real, qx.y);
    lemma_unit_factor(qx.z, 1real, qy.x);
    lemma_unit_factor(sr, 1real, qy.z);
    lemma_unit_factor(cp, 1real, qx.z);
    lemma_unit_factor(qx.y, 1real, qy.x);
    lemma_unit_factor(sr, 1real, qy.x);
    assert(yx.x == cp * sr);
    assert(yx.y == sp * cr);
    assert(yx.z == -(sp * sr));
    assert(yx.w == cp * cr);
    let e = qz.product(yx);
    lemma_unit_factor(yx.w, 1real, qz.x);
    lemma_unit_factor(yx.z, 1real, qz.y);
    lemma_unit_factor(yx.x, 1real, qz.y);
    lemma_unit_factor(yx.y, 1real, qz.x);
    lemma_unit_factor(yx.z, 1real, qz.x);
    lemma_unit_factor(yx.w, 1real, qz.y);
    lemma_unit_factor(yx.x, 1real, qz.x);
    lemma_unit_factor(yx.y, 1real, qz.y);
    assert(cy * yx.x == (sr * cp) * cy) by (nonlinear_arith)
        requires
            yx.x == cp * sr,
    ;
    assert(sy * yx.y == (cr * sp) * sy) by (nonlinear_arith)
        requires
            yx.y == sp * cr,
    ;
    assert(cy * yx.y == (cr * sp) * cy) by (nonlinear_arith)
        requires
            yx.y == sp * cr,
    ;
    assert(sy * yx.x == (sr * cp) * sy) by (nonlinear_arith)
        requires
            yx.x == cp * sr,
    ;
    assert(cy * yx.z == -((sr * sp) * cy)) by (nonlinear_arith)
        requires
            yx.z == -(sp * sr),
    ;
    assert(sy * yx.w == (cr * cp) * sy) by (nonlinear_arith)
        requires
            yx.w == cp * cr,
    ;
    assert(cy * yx.w == (cr * cp) * cy) by (nonlinear_arith)
        requires
            yx.w == cp * cr,
    ;
    assert(sy * yx.z == -((sr * sp) * sy)) by (nonlinear_arith)
        requires
            yx.z == -(sp * sr),
    ;
    assert(e.x == (sr * cp) * cy - (cr * sp) * sy);
    assert(e.y == (cr * sp) * cy + (sr * cp) * sy);
    assert(e.z == (cr * cp) * sy - (sr * sp) * cy);
    assert(e.w == (cr * cp) * cy + (sr * sp) * sy);
}

} // verus!
