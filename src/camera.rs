use std::ops::{Add, Div, Mul, Neg, Sub};
use vstd::prelude::*;
use vstd::std_specs::ops::{AddSpec, DivSpec, MulSpec, NegSpec, SubSpec};

use crate::geometry::{is_normalised, total_add, total_div, total_mul, total_neg, total_sub, Ray, Vec3};

verus! {

/// The unnormalised direction through a pixel centre `(px, py)` (the pixel's column and
/// row plus one half) of a `width` by `height` image: the image plane lies at `z = -one`,
/// row zero at the top, and the aspect ratio stretches `x` only.
pub open spec fn pixel_target_spec<
    T: Copy + Add<Output = T> + Sub<Output = T> + Mul<Output = T> + Div<Output = T> + Neg<
        Output = T,
    >,
>(px: T, py: T, width: T, height: T, tan_half_fov: T, one: T) -> Vec3<T> {
    let x = px.add_spec(px).div_spec(width).sub_spec(one).mul_spec(tan_half_fov).mul_spec(
        width,
    ).div_spec(height);
    let y = py.add_spec(py).div_spec(height).sub_spec(one).neg_spec().mul_spec(tan_half_fov);
    Vec3 { x, y, z: one.neg_spec() }
}

/// The primary ray from the camera at the origin through the pixel centre `(px, py)`.
/// `tan_half_fov` is the tangent of half the vertical field of view.
pub fn camera_ray<
    T: Copy + Add<Output = T> + Sub<Output = T> + Mul<Output = T> + Div<Output = T> + Neg<
        Output = T,
    >,
    F: Fn(T) -> T + Copy,
>(px: T, py: T, width: T, height: T, tan_half_fov: T, zero: T, one: T, sqrt: F) -> (r: Ray<T>)
    requires
        total_add::<T>(),
        total_sub::<T>(),
        total_mul::<T>(),
        total_div::<T>(),
        total_neg::<T>(),
        forall|x: T| sqrt.requires((x,)),
    ensures
        r.origin == (Vec3 { x: zero, y: zero, z: zero }),
        T::obeys_add_spec() && T::obeys_sub_spec() && T::obeys_mul_spec() && T::obeys_div_spec()
            && T::obeys_neg_spec() ==> is_normalised(
            pixel_target_spec(px, py, width, height, tan_half_fov, one),
            r.direction,
            sqrt,
        ),
{
    let x = (px + px) / width - one;
    let x = x * tan_half_fov * width / height;
    let y = ((py + py) / height - one).neg() * tan_half_fov;
    let target = Vec3::new(x, y, one.neg());
    Ray { origin: Vec3::new(zero, zero, zero), direction: target.normalise(sqrt) }
}

} // verus!
