pub mod fx;
pub mod trig;
pub mod tuples;
pub mod matrices;
pub mod ray;
pub mod pattern;
pub mod patterns;
pub mod material;
pub mod shape;
pub mod computations;
pub mod intersection;
pub mod light;
pub mod world;
pub mod canvas;
pub mod camera;
