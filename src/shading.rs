use std::ops::{Add, Div, Mul, Neg, Sub};
use vstd::prelude::*;
use vstd::std_specs::cmp::PartialOrdSpec;
use vstd::std_specs::ops::{AddSpec, MulSpec, NegSpec, SubSpec};

use crate::geometry::{
    dot, dot_spec, exact_arith, is_normalised, reflect, reflect_spec, total_add, total_arith,
    total_mul, total_neg, total_sub, Ray, Sphere, Vec3,
};
use crate::materials::{Light, Material};
use crate::scene::{less, scene_intersect, scene_outcome, strict_weak_order};
use crate::tone::{larger, larger_spec};

verus! {

/// What one light offers a surface point: where the shadow ray towards it is first
/// blocked (if it is), how far away the light is, and its diffuse and specular terms.
#[derive(Copy, Clone, Debug)]
pub struct LightSample<T> {
    pub occluder_distance: Option<T>,
    pub light_distance: T,
    pub diffuse: T,
    pub specular: T,
}

/// The fixed parameters of a render: image size, vertical field of view, the colour of
/// rays that meet nothing, the distance beyond which hits are culled, the offset of shadow
/// rays from the surface, and the element type's zero and one.
#[derive(Copy, Clone, Debug)]
pub struct RenderConfig<T> {
    pub width: u32,
    pub height: u32,
    pub fov: T,
    pub background: Vec3<T>,
    pub max_distance: T,
    pub shadow_bias: T,
    pub zero: T,
    pub one: T,
}

/// The light is hidden: the shadow ray meets a surface before it reaches the light.
pub open spec fn occluded_spec<T: PartialOrd>(occluder_distance: Option<T>, light_distance: T) -> bool {
    occluder_distance matches Some(d) && less(d, light_distance)
}

/// The diffuse and specular sums over the lights that are not occluded, added in order.
pub open spec fn light_sums_spec<T: PartialOrd + Add<Output = T>>(
    s: Seq<LightSample<T>>,
    zero: T,
) -> (T, T)
    decreases s.len(),
{
    if s.len() == 0 {
        (zero, zero)
    } else {
        let (d, sp) = light_sums_spec(s.drop_last(), zero);
        let l = s.last();
        if occluded_spec(l.occluder_distance, l.light_distance) {
            (d, sp)
        } else {
            (d.add_spec(l.diffuse), sp.add_spec(l.specular))
        }
    }
}

/// Lambert's term for one light: `intensity * max(0, dot(light_dir, normal))`.
pub open spec fn diffuse_term_spec<T: PartialOrd + Copy + Add<Output = T> + Mul<Output = T>>(
    intensity: T,
    light_dir: Vec3<T>,
    normal: Vec3<T>,
    zero: T,
) -> T {
    intensity.mul_spec(larger_spec(zero, dot_spec(light_dir, normal)))
}

/// The base of the specular highlight for one light: `max(0, dot(-reflect(-l, n), view))`.
pub open spec fn specular_base_spec<
    T: PartialOrd + Copy + Add<Output = T> + Sub<Output = T> + Mul<Output = T> + Neg<Output = T>,
>(light_dir: Vec3<T>, normal: Vec3<T>, view: Vec3<T>, zero: T) -> T {
    larger_spec(zero, dot_spec(reflect_spec(light_dir.neg_spec(), normal).neg_spec(), view))
}

/// The start of the shadow ray: the hit point moved by `bias` along the normal, towards
/// the side of the surface that faces the light.
pub open spec fn shadow_origin_spec<
    T: PartialOrd + Copy + Add<Output = T> + Sub<Output = T> + Mul<Output = T>,
>(point: Vec3<T>, normal: Vec3<T>, light_dir: Vec3<T>, bias: T, zero: T) -> Vec3<T> {
    if less(dot_spec(light_dir, normal), zero) {
        point.sub_spec(normal.mul_spec(bias))
    } else {
        point.add_spec(normal.mul_spec(bias))
    }
}

/// The lit colour: `diffuse_colour * diffuse * albedo.x + white * specular * albedo.y`.
pub open spec fn surface_colour_spec<T: Copy + Add<Output = T> + Mul<Output = T>>(
    material: Material<T>,
    diffuse: T,
    specular: T,
    one: T,
) -> Vec3<T> {
    let white = Vec3 { x: one, y: one, z: one };
    material.diffuse_colour.mul_spec(diffuse).mul_spec(material.albedo.x).add_spec(
        white.mul_spec(specular).mul_spec(material.albedo.y),
    )
}

/// Whether the shadow ray towards a light is blocked before it reaches the light.
pub fn occluded<T: PartialOrd + Copy>(occluder_distance: Option<T>, light_distance: T) -> (r: bool)
    ensures
        occluder_distance is None ==> !r,
        T::obeys_partial_cmp_spec() ==> r == occluded_spec(occluder_distance, light_distance),
{
    match occluder_distance {
        Some(d) => d < light_distance,
        None => false,
    }
}

/// Adds up the diffuse and specular terms of every light that is not occluded.
pub fn light_sums<T: PartialOrd + Copy + Add<Output = T>>(
    samples: &Vec<LightSample<T>>,
    zero: T,
) -> (r: (T, T))
    requires
        total_add::<T>(),
    ensures
        T::obeys_partial_cmp_spec() && T::obeys_add_spec() ==> r == light_sums_spec(
            samples@,
            zero,
        ),
{
    let mut diffuse = zero;
    let mut specular = zero;
    let mut i: usize = 0;
    while i < samples.len()
        invariant
            i <= samples@.len(),
            total_add::<T>(),
            T::obeys_partial_cmp_spec() && T::obeys_add_spec() ==> (diffuse, specular)
                == light_sums_spec(samples@.take(i as int), zero),
        decreases samples@.len() - i,
    {
        let l = samples[i];
        proof {
            assert(samples@.take(i as int + 1).drop_last() == samples@.take(i as int));
        }
        if !occluded(l.occluder_distance, l.light_distance) {
            diffuse = diffuse + l.diffuse;
            specular = specular + l.specular;
        }
        i = i + 1;
    }
    proof {
        assert(samples@.take(samples@.len() as int) == samples@);
    }
    (diffuse, specular)
}

/// Lambert's diffuse term of one light; light from behind the surface gives zero.
pub fn diffuse_term<T: PartialOrd + Copy + Add<Output = T> + Mul<Output = T>>(
    intensity: T,
    light_dir: &Vec3<T>,
    normal: &Vec3<T>,
    zero: T,
) -> (r: T)
    requires
        total_add::<T>(),
        total_mul::<T>(),
    ensures
        T::obeys_partial_cmp_spec() && T::obeys_add_spec() && T::obeys_mul_spec() ==> r
            == diffuse_term_spec(intensity, *light_dir, *normal, zero),
{
    intensity * larger(zero, dot(light_dir, normal))
}

/// The base of the specular highlight of one light, before it is raised to the
/// material's exponent; never below zero.
pub fn specular_base<
    T: PartialOrd + Copy + Add<Output = T> + Sub<Output = T> + Mul<Output = T> + Neg<Output = T>,
>(light_dir: &Vec3<T>, normal: &Vec3<T>, view: &Vec3<T>, zero: T) -> (r: T)
    requires
        total_add::<T>(),
        total_sub::<T>(),
        total_mul::<T>(),
        total_neg::<T>(),
    ensures
        T::obeys_partial_cmp_spec() && T::obeys_add_spec() && T::obeys_sub_spec()
            && T::obeys_mul_spec() && T::obeys_neg_spec() ==> r == specular_base_spec(
            *light_dir,
            *normal,
            *view,
            zero,
        ),
{
    let reflection = reflect(light_dir.neg(), *normal);
    larger(zero, dot(&reflection.neg(), view))
}

/// Where the shadow ray towards a light starts, offset from the surface so that it does
/// not meet the surface it leaves.
pub fn shadow_origin<T: PartialOrd + Copy + Add<Output = T> + Sub<Output = T> + Mul<Output = T>>(
    point: &Vec3<T>,
    normal: &Vec3<T>,
    light_dir: &Vec3<T>,
    bias: T,
    zero: T,
) -> (r: Vec3<T>)
    requires
        total_add::<T>(),
        total_sub::<T>(),
        total_mul::<T>(),
    ensures
        T::obeys_partial_cmp_spec() && T::obeys_add_spec() && T::obeys_sub_spec()
            && T::obeys_mul_spec() ==> r == shadow_origin_spec(
            *point,
            *normal,
            *light_dir,
            bias,
            zero,
        ),
{
    if dot(light_dir, normal) < zero {
        *point - *normal * bias
    } else {
        *point + *normal * bias
    }
}

/// Combines the summed light terms with the material into the (unbounded) lit colour.
pub fn surface_colour<T: Copy + Add<Output = T> + Mul<Output = T>>(
    material: &Material<T>,
    diffuse: T,
    specular: T,
    one: T,
) -> (r: Vec3<T>)
    requires
        total_add::<T>(),
        total_mul::<T>(),
    ensures
        T::obeys_add_spec() && T::obeys_mul_spec() ==> r == surface_colour_spec(
            *material,
            diffuse,
            specular,
            one,
        ),
{
    let white = Vec3::new(one, one, one);
    material.diffuse_colour * diffuse * material.albedo.x + white * specular * material.albedo.y
}

/// The element type's operations, negation included, compute their specifications.
pub open spec fn exact_shading<
    T: PartialOrd + Add<Output = T> + Sub<Output = T> + Mul<Output = T> + Div<Output = T> + Neg<
        Output = T,
    >,
>() -> bool {
    exact_arith::<T>() && T::obeys_neg_spec() && strict_weak_order::<T>()
}

/// `s` is a possible sample of `light` at the surface point `point` with unit normal
/// `normal`, seen along `view`: `sqrt` and `powf` supply square roots and powers.
pub open spec fn light_outcome<
    T: PartialOrd + Copy + Add<Output = T> + Sub<Output = T> + Mul<Output = T> + Div<Output = T>
        + Neg<Output = T>,
    F: Fn(T) -> T + Copy,
    P: Fn(T, T) -> T + Copy,
>(
    light: Light<T>,
    point: Vec3<T>,
    normal: Vec3<T>,
    view: Vec3<T>,
    material: Material<T>,
    spheres: Seq<Sphere<T>>,
    config: RenderConfig<T>,
    sqrt: F,
    powf: P,
    s: LightSample<T>,
) -> bool {
    let to_light = light.position.sub_spec(point);
    exists|dir: Vec3<T>|
        #![trigger is_normalised(to_light, dir, sqrt)]
        {
            let origin = shadow_origin_spec(point, normal, dir, config.shadow_bias, config.zero);
            let shadow_ray = Ray { origin, direction: dir };
            &&& is_normalised(to_light, dir, sqrt)
            &&& sqrt.ensures((dot_spec(to_light, to_light),), s.light_distance)
            &&& s.diffuse == diffuse_term_spec(light.intensity, dir, normal, config.zero)
            &&& exists|p: T|
                #![trigger powf.ensures((specular_base_spec(dir, normal, view, config.zero), material.specular_exponent), p)]
                powf.ensures(
                    (specular_base_spec(dir, normal, view, config.zero), material.specular_exponent),
                    p,
                ) && s.specular == p.mul_spec(light.intensity)
            &&& exists|h: Option<(Vec3<T>, Vec3<T>, Material<T>)>|
                #![trigger scene_outcome(spheres, shadow_ray, config.max_distance, config.zero, sqrt, h)]
                {
                    &&& scene_outcome(spheres, shadow_ray, config.max_distance, config.zero, sqrt, h)
                    &&& h is None ==> s.occluder_distance is None
                    &&& h matches Some((q, n, m)) ==> (s.occluder_distance matches Some(d)
                        && sqrt.ensures((dot_spec(q.sub_spec(origin), q.sub_spec(origin)),), d))
                }
        }
}

/// Samples one light at a surface point: its direction and distance, whether the shadow
/// ray towards it is blocked (and where), and its diffuse and specular terms.
pub fn light_sample<
    T: PartialOrd + Copy + Add<Output = T> + Sub<Output = T> + Mul<Output = T> + Div<Output = T>
        + Neg<Output = T>,
    F: Fn(T) -> T + Copy,
    P: Fn(T, T) -> T + Copy,
>(
    light: &Light<T>,
    point: &Vec3<T>,
    normal: &Vec3<T>,
    view: &Vec3<T>,
    material: &Material<T>,
    spheres: &Vec<Sphere<T>>,
    config: &RenderConfig<T>,
    sqrt: F,
    powf: P,
) -> (r: LightSample<T>)
    requires
        total_arith::<T>(),
        total_neg::<T>(),
        forall|x: T| sqrt.requires((x,)),
        forall|x: T, e: T| powf.requires((x, e)),
    ensures
        exact_shading::<T>() ==> light_outcome(
            *light,
            *point,
            *normal,
            *view,
            *material,
            spheres@,
            *config,
            sqrt,
            powf,
            r,
        ),
{
    let to_light = light.position - *point;
    let dir = to_light.normalise(sqrt);
    let light_distance = to_light.length(sqrt);
    let origin = shadow_origin(point, normal, &dir, config.shadow_bias, config.zero);
    let shadow_ray = Ray { origin, direction: dir };
    let h = scene_intersect(&shadow_ray, spheres, config.max_distance, config.zero, sqrt);
    let occluder_distance = match h {
        Some((q, _, _)) => Some((q - origin).length(sqrt)),
        None => None,
    };
    let diffuse = diffuse_term(light.intensity, &dir, normal, config.zero);
    let base = specular_base(&dir, normal, view, config.zero);
    let p = powf(base, material.specular_exponent);
    let specular = p * light.intensity;
    let r = LightSample { occluder_distance, light_distance, diffuse, specular };
    proof {
        if exact_shading::<T>() {
            assert(is_normalised(to_light, dir, sqrt));
            assert(scene_outcome(spheres@, shadow_ray, config.max_distance, config.zero, sqrt, h));
        }
    }
    r
}

/// The colour seen along `ray`: the background when it meets nothing; otherwise the
/// material's diffuse colour and white, weighted by its albedo, times the summed terms
/// of the lights that reach the hit point. Not bounded to `[zero, one]`.
pub fn cast_ray<
    T: PartialOrd + Copy + Add<Output = T> + Sub<Output = T> + Mul<Output = T> + Div<Output = T>
        + Neg<Output = T>,
    F: Fn(T) -> T + Copy,
    P: Fn(T, T) -> T + Copy,
>(
    ray: &Ray<T>,
    spheres: &Vec<Sphere<T>>,
    lights: &Vec<Light<T>>,
    config: &RenderConfig<T>,
    sqrt: F,
    powf: P,
) -> (r: Vec3<T>)
    requires
        total_arith::<T>(),
        total_neg::<T>(),
        forall|x: T| sqrt.requires((x,)),
        forall|x: T, e: T| powf.requires((x, e)),
    ensures
        exact_shading::<T>() ==> exists|h: Option<(Vec3<T>, Vec3<T>, Material<T>)>|
            #![trigger scene_outcome(spheres@, *ray, config.max_distance, config.zero, sqrt, h)]
            {
                &&& scene_outcome(spheres@, *ray, config.max_distance, config.zero, sqrt, h)
                &&& h is None ==> r == config.background
                &&& h matches Some((p, n, m)) ==> exists|samples: Seq<LightSample<T>>|
                    #![trigger light_sums_spec(samples, config.zero)]
                    {
                        &&& samples.len() == lights@.len()
                        &&& forall|i: int|
                            0 <= i < samples.len() ==> light_outcome(
                                lights@[i],
                                p,
                                n,
                                ray.direction,
                                m,
                                spheres@,
                                *config,
                                sqrt,
                                powf,
                                #[trigger] samples[i],
                            )
                        &&& r == surface_colour_spec(
                            m,
                            light_sums_spec(samples, config.zero).0,
                            light_sums_spec(samples, config.zero).1,
                            config.one,
                        )
                    }
            },
{
    let h = scene_intersect(ray, spheres, config.max_distance, config.zero, sqrt);
    match h {
        None => {
            proof {
                if exact_shading::<T>() {
                    assert(scene_outcome(spheres@, *ray, config.max_distance, config.zero, sqrt, h));
                }
            }
            config.background
        },
        Some((point, normal, material)) => {
            let mut samples: Vec<LightSample<T>> = Vec::new();
            let mut i: usize = 0;
            while i < lights.len()
                invariant
                    i <= lights@.len(),
                    samples@.len() == i,
                    total_arith::<T>(),
                    total_neg::<T>(),
                    forall|x: T| sqrt.requires((x,)),
                    forall|x: T, e: T| powf.requires((x, e)),
                    exact_shading::<T>() ==> forall|j: int|
                        0 <= j < i ==> light_outcome(
                            lights@[j],
                            point,
                            normal,
                            ray.direction,
                            material,
                            spheres@,
                            *config,
                            sqrt,
                            powf,
                            #[trigger] samples@[j],
                        ),
                decreases lights@.len() - i,
            {
                let s = light_sample(
                    &lights[i],
                    &point,
                    &normal,
                    &ray.direction,
                    &material,
                    spheres,
                    config,
                    sqrt,
                    powf,
                );
                samples.push(s);
                i = i + 1;
            }
            let (diffuse, specular) = light_sums(&samples, config.zero);
            let r = surface_colour(&material, diffuse, specular, config.one);
            proof {
                if exact_shading::<T>() {
                    assert(scene_outcome(spheres@, *ray, config.max_distance, config.zero, sqrt, h));
                    assert(light_sums_spec(samples@, config.zero) == (diffuse, specular));
                }
            }
            r
        },
    }
}

/// An occluded light adds nothing: the sums are those of the other lights alone.
pub proof fn occluded_light_adds_nothing<T: PartialOrd + Add<Output = T>>(
    s: Seq<LightSample<T>>,
    i: int,
    zero: T,
)
    requires
        0 <= i < s.len(),
        occluded_spec(s[i].occluder_distance, s[i].light_distance),
    ensures
        light_sums_spec(s, zero) == light_sums_spec(s.remove(i), zero),
    decreases s.len(),
{
    if i == s.len() - 1 {
        assert(s.remove(i) == s.drop_last());
    } else {
        occluded_light_adds_nothing(s.drop_last(), i, zero);
        assert(s.remove(i).drop_last() == s.drop_last().remove(i));
        assert(s.remove(i).last() == s.last());
    }
}


/// A light that is not occluded adds its diffuse and specular terms in full to the sums of
/// the lights before it.
pub proof fn open_light_adds_its_terms<T: PartialOrd + Add<Output = T>>(
    s: Seq<LightSample<T>>,
    l: LightSample<T>,
    zero: T,
)
    requires
        !occluded_spec(l.occluder_distance, l.light_distance),
    ensures
        light_sums_spec(s.push(l), zero) == (
            light_sums_spec(s, zero).0.add_spec(l.diffuse),
            light_sums_spec(s, zero).1.add_spec(l.specular),
        ),
{
    assert(s.push(l).drop_last() == s);
}

} // verus!
