//! An ergonomic layer over a classic immediate-mode GPU device API.
//!
//! The crate models the device driver as an explicit value ([`device::Device`])
//! through which every resource operation goes: contexts are created and
//! destroyed through it, every resource re-establishes its own binding point
//! before touching device state, and destruction of a resource consults the
//! liveness of its owning context before a delete call is issued.

pub mod buffer;
pub mod device;
pub mod format;
pub mod laws;
pub mod renderbuffer;
pub mod texture3d;
pub mod vao;

pub use buffer::Buffer;
pub use device::Context;
pub use device::ContextError;
pub use device::Device;
pub use device::WeakContext;
pub use format::ColorFormat;
pub use format::ComponentFormat;
pub use format::TextureFormat;
pub use renderbuffer::Renderbuffer;
pub use texture3d::Texture3D;
pub use vao::VertexArrayObject;
