//! The engine's logic, verified: the frame clock, input bookkeeping, mesh
//! topology, the device and swapchain decisions, error values and the
//! resource cache. Everything that talks to the GPU, the window system or the
//! file system lives in the application around this library.

pub mod time;
pub mod bitset;
pub mod input;
pub mod geometry;
pub mod text;
pub mod error;
pub mod device;
pub mod swapchain;
pub mod sdl_error;
pub mod resource;
pub mod memory;
pub mod window;
pub mod frame;
