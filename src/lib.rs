pub mod camera;
pub mod geometry;
pub mod materials;
pub mod ppm;
pub mod scene;
pub mod shading;
pub mod tone;
