pub mod draw_scene;
pub mod draw_sphere;
pub mod sphere_on_checkerboard;
