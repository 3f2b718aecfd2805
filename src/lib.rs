//! Frame-lifecycle and device-resource engine for a Vulkan renderer.
//!
//! The library decides; the caller talks to the driver. Every decision that
//! the engine makes (which device, which memory type, which swapchain format,
//! when a ring slot may be reused, in which order swapchain-dependent objects
//! are rebuilt) is a verified function over plain values or over opaque
//! `ash` handles that it only carries.
pub mod config;
pub mod errors;
pub mod debug;
pub mod extensions;
pub mod features;
pub mod frame;
pub mod handles;
pub mod image;
pub mod instance;
pub mod lifecycle;
pub mod memory;
pub mod physical_device;
pub mod render_pass;
pub mod shader;
pub mod swapchain;
