use std::ops::{Div, Mul};
use vstd::prelude::*;
use vstd::std_specs::cmp::PartialOrdSpec;
use vstd::std_specs::ops::{DivSpec, MulSpec};

use crate::geometry::{total_div, total_mul, Vec3};
use crate::scene::{greater, less, strict_weak_order};

verus! {

/// `x` brought into `[min, max]`.
pub open spec fn clamp_spec<T: PartialOrd>(x: T, min: T, max: T) -> T {
    if less(x, min) {
        min
    } else if greater(x, max) {
        max
    } else {
        x
    }
}

/// The larger of two values; `a` when neither is larger.
pub open spec fn larger_spec<T: PartialOrd>(a: T, b: T) -> T {
    if greater(b, a) {
        b
    } else {
        a
    }
}

/// The largest channel of a colour.
pub open spec fn max_channel_spec<T: PartialOrd>(v: Vec3<T>) -> T {
    larger_spec(v.x, larger_spec(v.y, v.z))
}

/// A colour with every channel clamped into `[zero, one]`.
pub open spec fn clamp_colour_spec<T: PartialOrd>(v: Vec3<T>, zero: T, one: T) -> Vec3<T> {
    Vec3 { x: clamp_spec(v.x, zero, one), y: clamp_spec(v.y, zero, one), z: clamp_spec(v.z, zero, one) }
}

/// Tone mapping: a colour whose largest channel exceeds `one` is first scaled by
/// `one / max`, then every channel is clamped into `[zero, one]`.
pub open spec fn tone_map_spec<T: PartialOrd + Copy + Mul<Output = T> + Div<Output = T>>(
    v: Vec3<T>,
    zero: T,
    one: T,
) -> Vec3<T> {
    let m = max_channel_spec(v);
    let s = if greater(m, one) {
        v.mul_spec(one.div_spec(m))
    } else {
        v
    };
    clamp_colour_spec(s, zero, one)
}

/// Restricts `x` to the range `[min, max]`.
pub fn clamp<T: PartialOrd + Copy>(x: T, min: T, max: T) -> (r: T)
    ensures
        r == x || r == min || r == max,
        T::obeys_partial_cmp_spec() ==> r == clamp_spec(x, min, max),
{
    if x < min {
        min
    } else if x > max {
        max
    } else {
        x
    }
}

/// The larger of `a` and `b`.
pub fn larger<T: PartialOrd + Copy>(a: T, b: T) -> (r: T)
    ensures
        r == a || r == b,
        T::obeys_partial_cmp_spec() ==> r == larger_spec(a, b),
{
    if b > a {
        b
    } else {
        a
    }
}

/// The largest of the three channels of `v`.
pub fn max_channel<T: PartialOrd + Copy>(v: &Vec3<T>) -> (r: T)
    ensures
        r == v.x || r == v.y || r == v.z,
        T::obeys_partial_cmp_spec() ==> r == max_channel_spec(*v),
{
    larger(v.x, larger(v.y, v.z))
}

/// Maps an unbounded linear colour into `[zero, one]` per channel: rescales uniformly by
/// the largest channel when that exceeds `one` (keeping the hue), then clamps.
pub fn tone_map<T: PartialOrd + Copy + Mul<Output = T> + Div<Output = T>>(
    v: Vec3<T>,
    zero: T,
    one: T,
) -> (r: Vec3<T>)
    requires
        total_mul::<T>(),
        total_div::<T>(),
    ensures
        T::obeys_partial_cmp_spec() && T::obeys_mul_spec() && T::obeys_div_spec() ==> r
            == tone_map_spec(v, zero, one),
{
    let m = max_channel(&v);
    let s = if m > one {
        v * (one / m)
    } else {
        v
    };
    Vec3::new(clamp(s.x, zero, one), clamp(s.y, zero, one), clamp(s.z, zero, one))
}

/// A colour whose channels all lie within `[zero, one]` comes out of tone mapping
/// unchanged: no rescale, no clamp.
pub proof fn tone_map_keeps_bounded<T: PartialOrd + Copy + Mul<Output = T> + Div<Output = T>>(
    v: Vec3<T>,
    zero: T,
    one: T,
)
    requires
        strict_weak_order::<T>(),
        !less(v.x, zero) && !greater(v.x, one),
        !less(v.y, zero) && !greater(v.y, one),
        !less(v.z, zero) && !greater(v.z, one),
    ensures
        tone_map_spec(v, zero, one) == v,
{
    let m = max_channel_spec(v);
    assert(m == v.x || m == v.y || m == v.z);
    assert(!greater(m, one));
}

} // verus!
