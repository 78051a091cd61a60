use core::cmp::Ordering;
use vstd::prelude::*;
use std::ops::{Add, Div, Mul, Sub};
use vstd::std_specs::cmp::PartialOrdSpec;
use vstd::std_specs::ops::{AddSpec, MulSpec, SubSpec};

use crate::geometry::{
    exact_arith, is_normalised, sphere_outcome, total_arith, Ray, Sphere, Vec3,
};
use crate::materials::Material;

verus! {

/// `a` orders strictly before `b` under the element type's comparison.
pub open spec fn less<T: PartialOrd>(a: T, b: T) -> bool {
    a.partial_cmp_spec(&b) == Some(Ordering::Less)
}

/// `a` orders strictly after `b` under the element type's comparison.
pub open spec fn greater<T: PartialOrd>(a: T, b: T) -> bool {
    a.partial_cmp_spec(&b) == Some(Ordering::Greater)
}

/// The comparison of the element type is a strict weak order, as it is on integers and on
/// floating-point values without NaN.
pub open spec fn strict_weak_order<T: PartialOrd>() -> bool {
    &&& T::obeys_partial_cmp_spec()
    &&& forall|a: T| !#[trigger] less(a, a)
    &&& forall|a: T, b: T, c: T| #[trigger] less(a, b) && #[trigger] less(b, c) ==> less(a, c)
    &&& forall|a: T, b: T, c: T|
        #[trigger] less(a, c) ==> #[trigger] less(a, b) || #[trigger] less(b, c)
    &&& forall|a: T, b: T| #[trigger] less(a, b) <==> #[trigger] greater(b, a)
}

/// Integer distances meet the ordering hypothesis of the contracts below.
pub proof fn integer_order_is_strict_weak()
    ensures
        strict_weak_order::<i64>(),
        strict_weak_order::<u64>(),
{
}

/// `r` names the nearest of the candidate distances that lies strictly below `bound`; of
/// several equally near ones, the first.
pub open spec fn is_nearest<T: PartialOrd>(ds: Seq<Option<T>>, bound: T, r: Option<usize>) -> bool {
    match r {
        None => forall|j: int|
            0 <= j < ds.len() && #[trigger] ds[j] is Some ==> !less(ds[j]->0, bound),
        Some(k) => {
            &&& k < ds.len()
            &&& ds[k as int] is Some
            &&& less(ds[k as int]->0, bound)
            &&& forall|j: int|
                0 <= j < ds.len() && #[trigger] ds[j] is Some ==> !less(ds[j]->0, ds[k as int]->0)
            &&& forall|j: int|
                0 <= j < k && #[trigger] ds[j] is Some ==> less(ds[k as int]->0, ds[j]->0)
        },
    }
}

/// Picks the primitive that a ray meets first. `distances[i]` is where the ray meets
/// primitive `i`, if it does; hits at or beyond `bound` are culled.
pub fn nearest_hit<T: PartialOrd + Copy>(distances: &Vec<Option<T>>, bound: T) -> (r: Option<
    usize,
>)
    ensures
        r matches Some(k) ==> k < distances@.len() && distances@[k as int] is Some,
        strict_weak_order::<T>() ==> is_nearest(distances@, bound, r),
{
    let ghost ds = distances@;
    let mut limit = bound;
    let mut best: Option<usize> = None;
    let mut i: usize = 0;
    while i < distances.len()
        invariant
            i <= ds.len(),
            ds == distances@,
            best matches Some(k) ==> k < i && ds[k as int] == Some(limit),
            best is None ==> limit == bound,
            strict_weak_order::<T>() ==> {
                &&& best is Some ==> less(limit, bound)
                &&& forall|j: int| 0 <= j < i && #[trigger] ds[j] is Some ==> !less(ds[j]->0, limit)
                &&& best matches Some(k) ==> forall|j: int|
                    0 <= j < k && #[trigger] ds[j] is Some ==> less(limit, ds[j]->0)
            },
        decreases ds.len() - i,
    {
        if let Some(d) = distances[i] {
            if d < limit {
                proof {
                    if strict_weak_order::<T>() {
                        assert(less(d, limit));
                        assert forall|j: int| 0 <= j <= i && #[trigger] ds[j] is Some implies !less(
                            ds[j]->0,
                            d,
                        ) by {
                            if j < i && less(ds[j]->0, d) {
                                assert(less(ds[j]->0, limit));
                            }
                        }
                        assert forall|j: int| 0 <= j < i && #[trigger] ds[j] is Some implies less(
                            d,
                            ds[j]->0,
                        ) by {
                            assert(!less(ds[j]->0, limit));
                            assert(less(d, ds[j]->0) || less(ds[j]->0, limit));
                        }
                        if best is Some {
                            assert(less(d, bound));
                        }
                    }
                }
                limit = d;
                best = Some(i);
            }
        }
        i = i + 1;
    }
    best
}

/// `ds` lists, sphere by sphere, possible results of the sphere test along `ray`.
pub open spec fn possible_hits<
    T: PartialOrd + Copy + Add<Output = T> + Sub<Output = T> + Mul<Output = T>,
    F: Fn(T) -> T + Copy,
>(spheres: Seq<Sphere<T>>, ray: Ray<T>, zero: T, sqrt: F, ds: Seq<Option<T>>) -> bool {
    &&& ds.len() == spheres.len()
    &&& forall|i: int| 0 <= i < ds.len() ==> sphere_outcome(spheres[i], ray, zero, sqrt, #[trigger] ds[i])
}

/// What the scene test reports for the sphere distances `ds`: nothing when no distance lies
/// below `max_distance`; otherwise the point where the ray meets the nearest sphere (the
/// first of equally near ones), the outward unit normal there, and that sphere's material.
pub open spec fn scene_hit_from<
    T: PartialOrd + Copy + Add<Output = T> + Sub<Output = T> + Mul<Output = T> + Div<Output = T>,
    F: Fn(T) -> T + Copy,
>(
    spheres: Seq<Sphere<T>>,
    ray: Ray<T>,
    max_distance: T,
    sqrt: F,
    ds: Seq<Option<T>>,
    r: Option<(Vec3<T>, Vec3<T>, Material<T>)>,
) -> bool {
    match r {
        None => is_nearest(ds, max_distance, None),
        Some((hit, normal, material)) => exists|k: usize|
            #![trigger is_nearest(ds, max_distance, Some(k))]
            {
                &&& is_nearest(ds, max_distance, Some(k))
                &&& hit == ray.origin.add_spec(ray.direction.mul_spec(ds[k as int]->0))
                &&& is_normalised(hit.sub_spec(spheres[k as int].centre), normal, sqrt)
                &&& material == spheres[k as int].material
            },
    }
}

/// `r` is a possible result of the scene test along `ray`.
pub open spec fn scene_outcome<
    T: PartialOrd + Copy + Add<Output = T> + Sub<Output = T> + Mul<Output = T> + Div<Output = T>,
    F: Fn(T) -> T + Copy,
>(
    spheres: Seq<Sphere<T>>,
    ray: Ray<T>,
    max_distance: T,
    zero: T,
    sqrt: F,
    r: Option<(Vec3<T>, Vec3<T>, Material<T>)>,
) -> bool {
    exists|ds: Seq<Option<T>>|
        #[trigger] possible_hits(spheres, ray, zero, sqrt, ds) && scene_hit_from(
            spheres,
            ray,
            max_distance,
            sqrt,
            ds,
            r,
        )
}

/// Finds where `ray` first meets the scene, within `max_distance`: the hit point, the
/// outward unit normal there and the material of the sphere that was hit.
pub fn scene_intersect<
    T: PartialOrd + Copy + Add<Output = T> + Sub<Output = T> + Mul<Output = T> + Div<Output = T>,
    F: Fn(T) -> T + Copy,
>(
    ray: &Ray<T>,
    spheres: &Vec<Sphere<T>>,
    max_distance: T,
    zero: T,
    sqrt: F,
) -> (r: Option<(Vec3<T>, Vec3<T>, Material<T>)>)
    requires
        total_arith::<T>(),
        forall|x: T| sqrt.requires((x,)),
    ensures
        exact_arith::<T>() && strict_weak_order::<T>() ==> scene_outcome(
            spheres@,
            *ray,
            max_distance,
            zero,
            sqrt,
            r,
        ),
{
    let mut distances: Vec<Option<T>> = Vec::new();
    let mut i: usize = 0;
    while i < spheres.len()
        invariant
            i <= spheres@.len(),
            distances@.len() == i,
            total_arith::<T>(),
            forall|x: T| sqrt.requires((x,)),
            exact_arith::<T>() ==> forall|j: int|
                0 <= j < i ==> sphere_outcome(spheres@[j], *ray, zero, sqrt, #[trigger] distances@[j]),
        decreases spheres@.len() - i,
    {
        let d = spheres[i].ray_intersect(ray, zero, sqrt);
        distances.push(d);
        i = i + 1;
    }
    let ghost ds = distances@;
    match nearest_hit(&distances, max_distance) {
        None => {
            proof {
                if exact_arith::<T>() && strict_weak_order::<T>() {
                    assert(possible_hits(spheres@, *ray, zero, sqrt, ds));
                }
            }
            None
        },
        Some(k) => {
            let d = match distances[k] {
                Some(d) => d,
                None => zero,
            };
            let sphere = &spheres[k];
            let hit = ray.origin + ray.direction * d;
            let normal = (hit - sphere.centre).normalise(sqrt);
            proof {
                if exact_arith::<T>() && strict_weak_order::<T>() {
                    assert(possible_hits(spheres@, *ray, zero, sqrt, ds));
                    assert(is_nearest(ds, max_distance, Some(k)));
                }
            }
            Some((hit, normal, sphere.material))
        },
    }
}

/// One simulation tick of the animated scene: the first sphere drifts along `+x`, the second
/// along `+y`, the third along `+z` and the fourth along `-z`, each by `step`.
pub fn update<T: Copy + Add<Output = T> + Sub<Output = T>>(spheres: &mut Vec<Sphere<T>>, step: T)
    requires
        old(spheres)@.len() >= 4,
        crate::geometry::total_add::<T>(),
        crate::geometry::total_sub::<T>(),
    ensures
        final(spheres)@.len() == old(spheres)@.len(),
        forall|i: int|
            4 <= i < old(spheres)@.len() ==> #[trigger] final(spheres)@[i] == old(spheres)@[i],
        T::obeys_add_spec() && T::obeys_sub_spec() ==> {
            let o = old(spheres)@;
            let n = final(spheres)@;
            &&& n[0] == (Sphere { centre: Vec3 { x: o[0].centre.x.add_spec(step), ..o[0].centre }, ..o[0] })
            &&& n[1] == (Sphere { centre: Vec3 { y: o[1].centre.y.add_spec(step), ..o[1].centre }, ..o[1] })
            &&& n[2] == (Sphere { centre: Vec3 { z: o[2].centre.z.add_spec(step), ..o[2].centre }, ..o[2] })
            &&& n[3] == (Sphere { centre: Vec3 { z: o[3].centre.z.sub_spec(step), ..o[3].centre }, ..o[3] })
        },
{
    let mut s = spheres[0];
    s.centre.x = s.centre.x + step;
    spheres.set(0, s);
    let mut s = spheres[1];
    s.centre.y = s.centre.y + step;
    spheres.set(1, s);
    let mut s = spheres[2];
    s.centre.z = s.centre.z + step;
    spheres.set(2, s);
    let mut s = spheres[3];
    s.centre.z = s.centre.z - step;
    spheres.set(3, s);
}

} // verus!
