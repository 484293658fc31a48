pub mod chunk;
pub mod math;
pub mod quad;
pub mod tools;
pub mod world;

