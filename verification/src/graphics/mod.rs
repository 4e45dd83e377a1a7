pub mod debug;
pub mod renderer;
