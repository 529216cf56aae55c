pub mod exercises;
pub mod implementations;
pub mod laws;
