//! A software-rendered surface: an off-screen pixel buffer whose rows obey a
//! fixed scanline alignment, a runtime-checked lock discipline for writing
//! pixels into it, and the parameters of the native blit that presents it.
pub mod align;
pub mod buffer;
pub mod image;
pub mod lemmas;
pub mod surface;

pub use align::Align;
pub use buffer::Buffer;
pub use image::{Config, Format, ImageInfo};
pub use surface::{BlitParams, SurfaceError, SurfaceImpl, SIGNED_CEILING};
