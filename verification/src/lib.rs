//! Display adapter for an emulated handheld LCD: five-bit packed colours are
//! widened to eight bits per channel, a frame shared with the emulation core
//! is acquired under its lock, and the converted bitmap is handed on at an
//! integer magnification.

pub mod color;
pub mod frame;
pub mod buffer;
pub mod error;
pub mod scale;
pub mod image;
pub mod store;
pub mod acquisition;
pub mod display;
