//! Negotiation and resize rules for an OpenGL window backed by gfx render
//! targets.
//!
//! Creating the window, the surface and the context is the caller's job; this
//! crate decides *what* to create: which sizes the configuration template
//! asks for, which of the configurations the platform offers is used, what
//! dimensions the main render targets get, and when a resize replaces them.

pub mod config;
pub mod dimensions;
pub mod error;
pub mod format;
pub mod gfx;
pub mod views;

pub use config::{pick_config, select_config, ColorBuffer, ConfigInfo, ConfigPick};
pub use dimensions::{AaMode, Dimensions, PhysicalSize, SurfaceExtent};
pub use error::BuildError;
pub use format::{FormatRequest, TemplateSizes};
pub use gfx::{ColorView, DepthView};
pub use views::{initial_views, resize_views, resized_views, resized_views_raw, views_agree};
