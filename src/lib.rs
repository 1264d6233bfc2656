pub mod ecs;
pub mod hello_world;
pub mod laws;
