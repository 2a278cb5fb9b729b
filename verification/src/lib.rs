//! Decision core of a focus monitor for X11 desktops.
//!
//! A focus monitor reports the title and the class of the window that holds
//! the input focus, once for each change of the active window. This crate
//! holds every decision of that task as verified code over plain values: which
//! protocol events count, when a reading of the active window is a change,
//! how window metadata is decoded, and what a consumer is handed. Talking to
//! the X server is left to a driver, which performs the [`Action`] it is given
//! and hands the reply back.

pub mod async_monitor;
pub mod error;
pub mod monitor;
pub mod text;
pub mod window;

pub use async_monitor::AsyncFocusMonitor;
pub use error::MonitorError;
pub use monitor::Action;
pub use monitor::Event;
pub use monitor::FocusMonitor;
pub use text::parse_window_class;
pub use window::Window;
