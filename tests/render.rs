use tinyraytracer::camera::camera_ray;
use tinyraytracer::geometry::{Ray, Sphere, Vec2, Vec3};
use tinyraytracer::materials::{Light, Material};
use tinyraytracer::scene::{nearest_hit, scene_intersect};
use tinyraytracer::shading::{
    cast_ray, diffuse_term, light_sample, light_sums, occluded, shadow_origin, specular_base,
    surface_colour, LightSample, RenderConfig,
};
use tinyraytracer::tone::{clamp, max_channel, tone_map};

fn config() -> RenderConfig<f32> {
    RenderConfig {
        width: 1024,
        height: 768,
        fov: std::f32::consts::FRAC_PI_2,
        background: Vec3::new(0.2, 0.7, 0.8),
        max_distance: 1000.0,
        shadow_bias: 1.0e-3,
        zero: 0.0,
        one: 1.0,
    }
}

fn ivory() -> Material<f32> {
    Material::new(Vec2::new(0.6, 0.3), Vec3::new(0.4, 0.4, 0.3), 50.0)
}

fn matte(r: f32, g: f32, b: f32) -> Material<f32> {
    Material::new(Vec2::new(1.0, 0.0), Vec3::new(r, g, b), 1.0)
}

fn quantise(c: f32) -> u8 {
    (255.0 * c) as u8
}

#[test]
fn clamp_bounds_value() {
    assert_eq!(clamp(-0.5f32, 0.0, 1.0), 0.0);
    assert_eq!(clamp(1.5f32, 0.0, 1.0), 1.0);
    assert_eq!(clamp(0.25f32, 0.0, 1.0), 0.25);
    assert_eq!(clamp(7u8, 2, 5), 5);
}

#[test]
fn max_channel_picks_largest() {
    assert_eq!(max_channel(&Vec3::new(0.1f32, 0.9, 0.3)), 0.9);
    assert_eq!(max_channel(&Vec3::new(4i32, 2, 4)), 4);
}

#[test]
fn nearest_hit_takes_minimum_first_on_ties() {
    let ds: Vec<Option<u32>> = vec![None, Some(5), Some(3), Some(3), Some(4)];
    assert_eq!(nearest_hit(&ds, 1000), Some(2));
    let far: Vec<Option<u32>> = vec![Some(2000), None];
    assert_eq!(nearest_hit(&far, 1000), None);
    let at_bound: Vec<Option<f32>> = vec![Some(1000.0)];
    assert_eq!(nearest_hit(&at_bound, 1000.0), None);
    let none: Vec<Option<f32>> = vec![];
    assert_eq!(nearest_hit(&none, 1000.0), None);
}

#[test]
fn overlapping_spheres_report_nearest_material() {
    let far = Sphere::new(Vec3::new(0.0, 0.0, -10.0), 3.0, matte(1.0, 0.0, 0.0));
    let near_a = Sphere::new(Vec3::new(0.0, 0.0, -8.0), 2.0, matte(0.0, 1.0, 0.0));
    let near_b = Sphere::new(Vec3::new(0.0, 0.0, -9.0), 3.0, matte(0.0, 0.0, 1.0));
    let ray = Ray::new(Vec3::new(0.0, 0.0, 0.0), Vec3::new(0.0, 0.0, -1.0));
    let c = config();

    let spheres = vec![far, near_a, near_b];
    let (hit, normal, material) =
        scene_intersect(&ray, &spheres, c.max_distance, c.zero, f32::sqrt).unwrap();
    assert_eq!(hit, Vec3::new(0.0, 0.0, -6.0));
    assert_eq!(normal, Vec3::new(0.0, 0.0, 1.0));
    assert_eq!(material.diffuse_colour, Vec3::new(0.0, 1.0, 0.0));

    let swapped = vec![far, near_b, near_a];
    let (_, _, material) =
        scene_intersect(&ray, &swapped, c.max_distance, c.zero, f32::sqrt).unwrap();
    assert_eq!(material.diffuse_colour, Vec3::new(0.0, 0.0, 1.0));
}

#[test]
fn hits_beyond_max_distance_are_culled() {
    let spheres = vec![Sphere::new(Vec3::new(0.0, 0.0, -2000.0), 1.0, ivory())];
    let ray = Ray::new(Vec3::new(0.0, 0.0, 0.0), Vec3::new(0.0, 0.0, -1.0));
    assert!(scene_intersect(&ray, &spheres, 1000.0, 0.0, f32::sqrt).is_none());
}

#[test]
fn occluded_light_contributes_nothing() {
    let c = config();
    let surface = Sphere::new(Vec3::new(0.0, 0.0, -10.0), 2.0, matte(0.5, 0.5, 0.5));
    let blocker = Sphere::new(Vec3::new(0.0, 0.0, -2.0), 1.0, matte(1.0, 1.0, 1.0));
    let hidden = Light::new(Vec3::new(0.0, 0.0, 5.0), 1.5);
    let open = Light::new(Vec3::new(0.0, 10.0, -7.0), 1.0);
    let ray = Ray::new(Vec3::new(0.0, 0.0, -5.0), Vec3::new(0.0, 0.0, -1.0));

    let spheres = vec![surface, blocker];
    let both = cast_ray(&ray, &spheres, &vec![hidden, open], &c, f32::sqrt, f32::powf);
    let open_only = cast_ray(&ray, &spheres, &vec![open], &c, f32::sqrt, f32::powf);
    assert_eq!(both, open_only);

    let hit = Vec3::new(0.0f32, 0.0, -8.0);
    let normal = Vec3::new(0.0f32, 0.0, 1.0);
    let view = ray.direction;
    let m = surface.material;
    let s = light_sample(&hidden, &hit, &normal, &view, &m, &spheres, &c, f32::sqrt, f32::powf);
    assert!(occluded(s.occluder_distance, s.light_distance));
    assert!(s.diffuse > 0.0);
    let t = light_sample(&open, &hit, &normal, &view, &m, &spheres, &c, f32::sqrt, f32::powf);
    assert!(!occluded(t.occluder_distance, t.light_distance));

    let unblocked = vec![surface];
    let lit = cast_ray(&ray, &unblocked, &vec![hidden, open], &c, f32::sqrt, f32::powf);
    assert!(lit.x > both.x);
}

#[test]
fn light_sums_skip_occluded() {
    let samples = vec![
        LightSample { occluder_distance: Some(1.0f32), light_distance: 5.0, diffuse: 2.0, specular: 3.0 },
        LightSample { occluder_distance: Some(9.0), light_distance: 5.0, diffuse: 0.5, specular: 0.25 },
        LightSample { occluder_distance: None, light_distance: 5.0, diffuse: 1.0, specular: 1.0 },
    ];
    assert_eq!(light_sums(&samples, 0.0), (1.5, 1.25));
    assert!(!occluded(None, 1.0f32));
}

#[test]
fn single_light_terms() {
    let n = Vec3::new(0.0f32, 0.0, 1.0);
    assert_eq!(diffuse_term(2.0, &Vec3::new(0.0, 0.0, 1.0), &n, 0.0), 2.0);
    assert_eq!(diffuse_term(2.0, &Vec3::new(0.0, 0.0, -1.0), &n, 0.0), 0.0);
    let view = Vec3::new(0.0f32, 0.0, -1.0);
    assert_eq!(specular_base(&Vec3::new(0.0, 0.0, 1.0), &n, &view, 0.0), 1.0);
    assert_eq!(specular_base(&Vec3::new(0.0, 0.0, -1.0), &n, &view, 0.0), 0.0);
    let p = Vec3::new(0.0f32, 0.0, -4.0);
    assert_eq!(shadow_origin(&p, &n, &Vec3::new(0.0, 0.0, 1.0), 0.5, 0.0), Vec3::new(0.0, 0.0, -3.5));
    assert_eq!(shadow_origin(&p, &n, &Vec3::new(0.0, 0.0, -1.0), 0.5, 0.0), Vec3::new(0.0, 0.0, -4.5));
    let colour = surface_colour(&ivory(), 2.0, 1.0, 1.0);
    assert!((colour.x - (0.4 * 2.0 * 0.6 + 0.3)).abs() < 1e-6);
}

#[test]
fn bounded_colour_is_not_rescaled() {
    let v = Vec3::new(0.2f32, 0.7, 0.8);
    assert_eq!(tone_map(v, 0.0, 1.0), v);
    let corners = Vec3::new(0.0f32, 1.0, 0.5);
    assert_eq!(tone_map(corners, 0.0, 1.0), corners);
}

#[test]
fn bright_colour_is_rescaled_before_clamping() {
    let t = tone_map(Vec3::new(2.0f32, 1.0, 0.0), 0.0, 1.0);
    assert_eq!(t, Vec3::new(1.0, 0.5, 0.0));
    assert_eq!((quantise(t.x), quantise(t.y), quantise(t.z)), (255, 127, 0));
    let mixed = tone_map(Vec3::new(2.0f32, 0.5, -0.5), 0.0, 1.0);
    assert_eq!(mixed, Vec3::new(1.0, 0.25, 0.0));
}

#[test]
fn apex_hit_matches_hand_computed_colour() {
    let c = config();
    let spheres = vec![Sphere::new(Vec3::new(0.0, 0.0, -5.0), 1.0, ivory())];
    let lights = vec![Light::new(Vec3::new(0.0, 0.0, 0.0), 1.5)];
    let ray = camera_ray(0.5f32, 0.5, 1.0, 1.0, 1.0, 0.0, 1.0, f32::sqrt);
    assert_eq!(ray.direction, Vec3::new(0.0, 0.0, -1.0));
    let colour = cast_ray(&ray, &spheres, &lights, &c, f32::sqrt, f32::powf);
    let expected = Vec3::new(0.4f32 * 1.5 * 0.6 + 1.5 * 0.3, 0.4 * 1.5 * 0.6 + 1.5 * 0.3, 0.3 * 1.5 * 0.6 + 1.5 * 0.3);
    assert!((colour.x - expected.x).abs() <= 1e-5 * expected.x);
    assert!((colour.y - expected.y).abs() <= 1e-5 * expected.y);
    assert!((colour.z - expected.z).abs() <= 1e-5 * expected.z);
}

#[test]
fn miss_returns_background() {
    let c = config();
    let spheres = vec![Sphere::new(Vec3::new(0.0, 0.0, -5.0), 1.0, ivory())];
    let lights = vec![Light::new(Vec3::new(0.0, 0.0, 0.0), 1.5)];
    let ray = Ray::new(Vec3::new(0.0, 0.0, 0.0), Vec3::new(0.0, 1.0, 0.0));
    let colour = cast_ray(&ray, &spheres, &lights, &c, f32::sqrt, f32::powf);
    assert_eq!(colour, c.background);
    assert_eq!(tone_map(colour, c.zero, c.one), c.background);
    let nothing: Vec<Sphere<f32>> = vec![];
    assert_eq!(cast_ray(&ray, &nothing, &lights, &c, f32::sqrt, f32::powf), c.background);
}

#[test]
fn camera_rays_span_field_of_view() {
    let w = 4.0f32;
    let h = 2.0f32;
    let top_left = camera_ray(0.5, 0.5, w, h, 1.0, 0.0, 1.0, f32::sqrt);
    assert_eq!(top_left.origin, Vec3::new(0.0, 0.0, 0.0));
    let d = top_left.direction;
    let raw = Vec3::new((2.0f32 * 0.5 / 4.0 - 1.0) * 1.0 * 4.0 / 2.0, -(2.0f32 * 0.5 / 2.0 - 1.0) * 1.0, -1.0);
    let len = (raw.x * raw.x + raw.y * raw.y + raw.z * raw.z).sqrt();
    assert!((d.x - raw.x / len).abs() < 1e-6);
    assert!((d.y - raw.y / len).abs() < 1e-6);
    assert!(d.x < 0.0 && d.y > 0.0);
}
