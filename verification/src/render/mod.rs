pub mod framebuffer;
pub mod renderer;
pub mod scene;
