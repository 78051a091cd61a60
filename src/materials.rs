use vstd::prelude::*;

use crate::geometry::{Vec2, Vec3};

verus! {

/// Reflectance of a surface: `albedo.x` weighs the diffuse term, `albedo.y` the specular one.
#[derive(Copy, Clone, Debug)]
pub struct Material<T> {
    pub albedo: Vec2<T>,
    pub diffuse_colour: Vec3<T>,
    pub specular_exponent: T,
}

impl<T> Material<T> {
    pub fn new(albedo: Vec2<T>, diffuse_colour: Vec3<T>, specular_exponent: T) -> (r: Self)
        ensures
            r.albedo == albedo,
            r.diffuse_colour == diffuse_colour,
            r.specular_exponent == specular_exponent,
    {
        Material { albedo, diffuse_colour, specular_exponent }
    }
}

/// A point light.
#[derive(Copy, Clone, Debug)]
pub struct Light<T> {
    pub position: Vec3<T>,
    pub intensity: T,
}

impl<T> Light<T> {
    pub fn new(position: Vec3<T>, intensity: T) -> (r: Self)
        ensures
            r.position == position,
            r.intensity == intensity,
    {
        Light { position, intensity }
    }
}

} // verus!
