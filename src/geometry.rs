use std::ops::{Add, Div, Mul, Neg, Sub};
use vstd::prelude::*;

use crate::materials::Material;
use crate::scene::{greater, less};
use vstd::std_specs::cmp::PartialOrdSpec;
use vstd::std_specs::ops::{AddSpec, DivSpec, MulSpec, NegSpec, SubSpec};

verus! {

// The vector and scene types are generic over their element type, as the renderer is meant
// to run alike in single and double precision. Contracts speak of the element's arithmetic
// through vstd's operator specifications: `T::obeys_add_spec()` and its siblings hold of a
// type whose operations compute their specification (the integers), while `total_add` and
// its siblings say that an operation is defined on every operand, as it is in
// floating point, where no operation traps.

/// A three-component vector over a numeric element type.
#[derive(Copy, Clone, Debug, PartialEq)]
pub struct Vec3<T> {
    pub x: T,
    pub y: T,
    pub z: T,
}

impl<T> Vec3<T> {
    pub fn new(x: T, y: T, z: T) -> (r: Self)
        ensures
            r.x == x,
            r.y == y,
            r.z == z,
    {
        Vec3 { x, y, z }
    }
}

impl<T: Copy> Vec3<T> {
    /// The zero vector, given the element type's zero.
    pub fn zero(zero: T) -> (r: Self)
        ensures
            r.x == zero,
            r.y == zero,
            r.z == zero,
    {
        Vec3 { x: zero, y: zero, z: zero }
    }
}

/// A two-component vector over a numeric element type.
#[derive(Copy, Clone, Debug, PartialEq)]
pub struct Vec2<T> {
    pub x: T,
    pub y: T,
}

impl<T> Vec2<T> {
    pub fn new(x: T, y: T) -> (r: Self)
        ensures
            r.x == x,
            r.y == y,
    {
        Vec2 { x, y }
    }
}

/// Every sum of two elements is defined: the operation never traps.
pub open spec fn total_add<T: Add<Output = T>>() -> bool {
    forall|a: T, b: T| #[trigger] a.add_req(b)
}

/// Every difference of two elements is defined.
pub open spec fn total_sub<T: Sub<Output = T>>() -> bool {
    forall|a: T, b: T| #[trigger] a.sub_req(b)
}

/// Every product of two elements is defined.
pub open spec fn total_mul<T: Mul<Output = T>>() -> bool {
    forall|a: T, b: T| #[trigger] a.mul_req(b)
}

/// Every quotient of two elements is defined (a zero divisor gives a value, not a trap).
pub open spec fn total_div<T: Div<Output = T>>() -> bool {
    forall|a: T, b: T| #[trigger] a.div_req(b)
}

/// Every negation is defined.
pub open spec fn total_neg<T: Neg<Output = T>>() -> bool {
    forall|a: T| #[trigger] a.neg_req()
}

/// Dot product, as the element type's own operations compute it, left to right.
pub open spec fn dot_spec<T: Add<Output = T> + Mul<Output = T>>(a: Vec3<T>, b: Vec3<T>) -> T {
    a.x.mul_spec(b.x).add_spec(a.y.mul_spec(b.y)).add_spec(a.z.mul_spec(b.z))
}

/// The sum of the products of matching components.
pub fn dot<T: Copy + Add<Output = T> + Mul<Output = T>>(lhs: &Vec3<T>, rhs: &Vec3<T>) -> (r: T)
    requires
        total_add::<T>(),
        total_mul::<T>(),
    ensures
        T::obeys_add_spec() && T::obeys_mul_spec() ==> r == dot_spec(*lhs, *rhs),
{
    lhs.x * rhs.x + lhs.y * rhs.y + lhs.z * rhs.z
}

impl<T: Add<Output = T>> Add for Vec3<T> {
    type Output = Vec3<T>;

    fn add(self, other: Vec3<T>) -> (r: Vec3<T>) {
        Vec3 { x: self.x + other.x, y: self.y + other.y, z: self.z + other.z }
    }
}

impl<T: Add<Output = T>> vstd::std_specs::ops::AddSpecImpl for Vec3<T> {
    open spec fn obeys_add_spec() -> bool {
        T::obeys_add_spec()
    }

    open spec fn add_req(self, rhs: Vec3<T>) -> bool {
        &&& self.x.add_req(rhs.x)
        &&& self.y.add_req(rhs.y)
        &&& self.z.add_req(rhs.z)
    }

    open spec fn add_spec(self, rhs: Vec3<T>) -> Vec3<T> {
        Vec3 { x: self.x.add_spec(rhs.x), y: self.y.add_spec(rhs.y), z: self.z.add_spec(rhs.z) }
    }
}


impl<T: Sub<Output = T>> Sub for Vec3<T> {
    type Output = Vec3<T>;

    fn sub(self, other: Vec3<T>) -> (r: Vec3<T>) {
        Vec3 { x: self.x - other.x, y: self.y - other.y, z: self.z - other.z }
    }
}

impl<T: Sub<Output = T>> vstd::std_specs::ops::SubSpecImpl for Vec3<T> {
    open spec fn obeys_sub_spec() -> bool {
        T::obeys_sub_spec()
    }

    open spec fn sub_req(self, rhs: Vec3<T>) -> bool {
        &&& self.x.sub_req(rhs.x)
        &&& self.y.sub_req(rhs.y)
        &&& self.z.sub_req(rhs.z)
    }

    open spec fn sub_spec(self, rhs: Vec3<T>) -> Vec3<T> {
        Vec3 { x: self.x.sub_spec(rhs.x), y: self.y.sub_spec(rhs.y), z: self.z.sub_spec(rhs.z) }
    }
}

/// Scaling every component by the same factor.
impl<T: Mul<Output = T> + Copy> Mul<T> for Vec3<T> {
    type Output = Vec3<T>;

    fn mul(self, rhs: T) -> (r: Vec3<T>) {
        Vec3 { x: self.x * rhs, y: self.y * rhs, z: self.z * rhs }
    }
}

impl<T: Mul<Output = T> + Copy> vstd::std_specs::ops::MulSpecImpl<T> for Vec3<T> {
    open spec fn obeys_mul_spec() -> bool {
        T::obeys_mul_spec()
    }

    open spec fn mul_req(self, rhs: T) -> bool {
        &&& self.x.mul_req(rhs)
        &&& self.y.mul_req(rhs)
        &&& self.z.mul_req(rhs)
    }

    open spec fn mul_spec(self, rhs: T) -> Vec3<T> {
        Vec3 { x: self.x.mul_spec(rhs), y: self.y.mul_spec(rhs), z: self.z.mul_spec(rhs) }
    }
}

/// Dividing every component by the same divisor.
impl<T: Div<Output = T> + Copy> Div<T> for Vec3<T> {
    type Output = Vec3<T>;

    fn div(self, rhs: T) -> (r: Vec3<T>) {
        Vec3 { x: self.x / rhs, y: self.y / rhs, z: self.z / rhs }
    }
}

impl<T: Div<Output = T> + Copy> vstd::std_specs::ops::DivSpecImpl<T> for Vec3<T> {
    open spec fn obeys_div_spec() -> bool {
        T::obeys_div_spec()
    }

    open spec fn div_req(self, rhs: T) -> bool {
        &&& self.x.div_req(rhs)
        &&& self.y.div_req(rhs)
        &&& self.z.div_req(rhs)
    }

    open spec fn div_spec(self, rhs: T) -> Vec3<T> {
        Vec3 { x: self.x.div_spec(rhs), y: self.y.div_spec(rhs), z: self.z.div_spec(rhs) }
    }
}

impl<T: Neg<Output = T>> Neg for Vec3<T> {
    type Output = Vec3<T>;

    fn neg(self) -> (r: Vec3<T>) {
        Vec3 { x: self.x.neg(), y: self.y.neg(), z: self.z.neg() }
    }
}

impl<T: Neg<Output = T>> vstd::std_specs::ops::NegSpecImpl for Vec3<T> {
    open spec fn obeys_neg_spec() -> bool {
        T::obeys_neg_spec()
    }

    open spec fn neg_req(self) -> bool {
        &&& self.x.neg_req()
        &&& self.y.neg_req()
        &&& self.z.neg_req()
    }

    open spec fn neg_spec(self) -> Vec3<T> {
        Vec3 { x: self.x.neg_spec(), y: self.y.neg_spec(), z: self.z.neg_spec() }
    }
}

/// Mirror reflection of `v` about the normal `n`: `v - n * 2 dot(v, n)`.
pub open spec fn reflect_spec<T: Copy + Add<Output = T> + Sub<Output = T> + Mul<Output = T>>(
    v: Vec3<T>,
    n: Vec3<T>,
) -> Vec3<T> {
    let d = dot_spec(v, n);
    v.sub_spec(n.mul_spec(d.add_spec(d)))
}

/// Reflects `v` about the surface normal `n`.
pub fn reflect<T: Copy + Add<Output = T> + Sub<Output = T> + Mul<Output = T>>(
    v: Vec3<T>,
    n: Vec3<T>,
) -> (r: Vec3<T>)
    requires
        total_add::<T>(),
        total_sub::<T>(),
        total_mul::<T>(),
    ensures
        T::obeys_add_spec() && T::obeys_sub_spec() && T::obeys_mul_spec() ==> r == reflect_spec(
            v,
            n,
        ),
{
    let d = dot(&v, &n);
    v - n * (d + d)
}

/// Every operation of the element type computes its own specification.
pub open spec fn exact_arith<
    T: PartialOrd + Add<Output = T> + Sub<Output = T> + Mul<Output = T> + Div<Output = T>,
>() -> bool {
    &&& T::obeys_partial_cmp_spec()
    &&& T::obeys_add_spec()
    &&& T::obeys_sub_spec()
    &&& T::obeys_mul_spec()
    &&& T::obeys_div_spec()
}

/// Every operation of the element type is defined on all operands.
pub open spec fn total_arith<
    T: Add<Output = T> + Sub<Output = T> + Mul<Output = T> + Div<Output = T>,
>() -> bool {
    &&& total_add::<T>()
    &&& total_sub::<T>()
    &&& total_mul::<T>()
    &&& total_div::<T>()
}

/// `n` is `v` divided by a length that `sqrt` may return for `dot(v, v)`.
pub open spec fn is_normalised<
    T: Copy + Add<Output = T> + Mul<Output = T> + Div<Output = T>,
    F: Fn(T) -> T + Copy,
>(v: Vec3<T>, n: Vec3<T>, sqrt: F) -> bool {
    exists|len: T|
        #![trigger sqrt.ensures((dot_spec(v, v),), len)]
        sqrt.ensures((dot_spec(v, v),), len) && n == v.div_spec(len)
}

impl<T: Copy + Add<Output = T> + Mul<Output = T> + Div<Output = T>> Vec3<T> {
    /// Euclidean length: `sqrt(dot(v, v))`, with `sqrt` the element type's square root.
    pub fn length<F: Fn(T) -> T + Copy>(self, sqrt: F) -> (r: T)
        requires
            total_add::<T>(),
            total_mul::<T>(),
            forall|x: T| sqrt.requires((x,)),
        ensures
            T::obeys_add_spec() && T::obeys_mul_spec() ==> sqrt.ensures((dot_spec(self, self),), r),
    {
        sqrt(dot(&self, &self))
    }

    /// The unit vector along `self`: `self / length(self)`. A zero vector has no direction;
    /// what comes back for one is whatever the element type's division gives.
    pub fn normalise<F: Fn(T) -> T + Copy>(self, sqrt: F) -> (r: Vec3<T>)
        requires
            total_add::<T>(),
            total_mul::<T>(),
            total_div::<T>(),
            forall|x: T| sqrt.requires((x,)),
        ensures
            T::obeys_add_spec() && T::obeys_mul_spec() && T::obeys_div_spec() ==> is_normalised(
                self,
                r,
                sqrt,
            ),
    {
        let len = self.length(sqrt);
        self / len
    }
}

/// A half-line: the points `origin + direction * t` for `t >= 0`.
/// Distances along it are measured in units of `direction`, which callers keep of unit length.
#[derive(Copy, Clone, Debug)]
pub struct Ray<T> {
    pub origin: Vec3<T>,
    pub direction: Vec3<T>,
}

impl<T> Ray<T> {
    pub fn new(origin: Vec3<T>, direction: Vec3<T>) -> (r: Self)
        ensures
            r.origin == origin,
            r.direction == direction,
    {
        Ray { origin, direction }
    }
}

/// A sphere that owns its material by value.
#[derive(Copy, Clone, Debug)]
pub struct Sphere<T> {
    pub centre: Vec3<T>,
    pub radius: T,
    pub material: Material<T>,
}

/// The nearest non-negative one of the two candidate distances `t0 <= t1`.
pub open spec fn select_root<T: PartialOrd>(t0: T, t1: T, zero: T) -> Option<T> {
    if !less(t0, zero) {
        Some(t0)
    } else if !less(t1, zero) {
        Some(t1)
    } else {
        None
    }
}

/// The quantities of the analytic sphere test: the projection `tca` of the offset to the
/// centre on the direction, the squared distance `d2` of the centre from the ray's line,
/// and the squared radius.
pub open spec fn sphere_terms<T: Copy + Add<Output = T> + Sub<Output = T> + Mul<Output = T>>(
    sphere: Sphere<T>,
    ray: Ray<T>,
) -> (T, T, T) {
    let l = sphere.centre.sub_spec(ray.origin);
    let tca = dot_spec(l, ray.direction);
    let d2 = dot_spec(l, l).sub_spec(tca.mul_spec(tca));
    (tca, d2, sphere.radius.mul_spec(sphere.radius))
}

/// What the sphere test returns when the square root of `radius^2 - d2` comes out as `root`.
pub open spec fn intersect_with_root<
    T: PartialOrd + Copy + Add<Output = T> + Sub<Output = T> + Mul<Output = T>,
>(sphere: Sphere<T>, ray: Ray<T>, zero: T, root: T) -> Option<T> {
    let (tca, d2, rr) = sphere_terms(sphere, ray);
    select_root(tca.sub_spec(root), tca.add_spec(root), zero)
}

/// `r` is a possible result of the sphere test when `sqrt` supplies the square root.
pub open spec fn sphere_outcome<
    T: PartialOrd + Copy + Add<Output = T> + Sub<Output = T> + Mul<Output = T>,
    F: Fn(T) -> T + Copy,
>(sphere: Sphere<T>, ray: Ray<T>, zero: T, sqrt: F, r: Option<T>) -> bool {
    let (tca, d2, rr) = sphere_terms(sphere, ray);
    &&& greater(d2, rr) ==> r is None
    &&& !greater(d2, rr) ==> exists|root: T|
        #![trigger sqrt.ensures((rr.sub_spec(d2),), root)]
        sqrt.ensures((rr.sub_spec(d2),), root) && r == intersect_with_root(sphere, ray, zero, root)
    &&& r matches Some(t) ==> !less(t, zero)
}

impl<T> Sphere<T> {
    pub fn new(centre: Vec3<T>, radius: T, material: Material<T>) -> (r: Self)
        ensures
            r.centre == centre,
            r.radius == radius,
            r.material == material,
    {
        Sphere { centre, radius, material }
    }
}

impl<T: PartialOrd + Copy + Add<Output = T> + Sub<Output = T> + Mul<Output = T>> Sphere<T> {
    /// Distance along `ray` to where it meets the sphere: the entry point when the ray
    /// starts outside, the exit point when it starts inside, nothing when the sphere is
    /// missed or lies wholly behind the origin. `sqrt` is the element type's square root.
    pub fn ray_intersect<F: Fn(T) -> T + Copy>(&self, ray: &Ray<T>, zero: T, sqrt: F) -> (r: Option<T>)
        requires
            total_add::<T>(),
            total_sub::<T>(),
            total_mul::<T>(),
            forall|x: T| sqrt.requires((x,)),
        ensures
            T::obeys_partial_cmp_spec() && T::obeys_add_spec() && T::obeys_sub_spec()
                && T::obeys_mul_spec() ==> sphere_outcome(*self, *ray, zero, sqrt, r),
    {
        let l = self.centre - ray.origin;
        let tca = dot(&l, &ray.direction);
        let d2 = dot(&l, &l) - tca * tca;
        let rr = self.radius * self.radius;
        if d2 > rr {
            return None;
        }
        let thc = sqrt(rr - d2);
        let mut t0 = tca - thc;
        let t1 = tca + thc;
        if t0 < zero {
            t0 = t1;
        }
        if t0 < zero {
            return None;
        }
        Some(t0)
    }
}

} // verus!
