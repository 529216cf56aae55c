pub mod checker_pattern;
pub mod gradient_pattern;
pub mod ring_pattern;
pub mod striped_pattern;
pub mod texture_pattern;
