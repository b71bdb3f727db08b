//! Core of a command-driven 2D rendering unit: a frame buffer, the rasterizer
//! that paints primitives into it, a texture and sprite store, the command
//! dispatcher, and the ownership rule for handing frames to a display.
pub mod command;
pub mod display;
pub mod error;
pub mod font;
pub mod framebuffer;
pub mod gpu;
pub mod laws;
pub mod raster;
pub mod texture;

pub use command::{Commands, Responses, Status};
pub use display::{Display, EmbeddedDisplay};
pub use error::GpuError;
pub use framebuffer::FrameBuffer;
pub use gpu::Gpu;
