//! A cross-platform abstraction over native display connections.
//!
//! This crate manages the connection/adapter/device lifecycle that sits
//! underneath a GL renderer: opening a native display, deriving a graphics
//! display from it, selecting an adapter class, and opening a device, all
//! without hand-writing per-platform windowing code.  Native handles are
//! carried as plain values; the native calls themselves (Xlib, EGL) are
//! performed by the embedder, which feeds their results into the verified
//! decision logic here.

pub mod adapter;
pub mod connection;
pub mod error;
pub mod handles;
pub mod info;
pub mod multi;
pub mod surfaceless;
pub mod x11;

pub use crate::error::Error;
pub use crate::info::GLApi;
