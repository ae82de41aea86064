//! Startup core for a desktop shell that presents a remote web application.
//!
//! The shell's only decision logic runs once at process start: resolve an
//! operational role from the command-line arguments, build the launch URL
//! that encodes that role, and plan the one-time webview setup (navigation,
//! file-drop suppression, update-notification wiring). Everything else —
//! window creation, rendering, the update download itself — belongs to the
//! external windowing host and stays outside this library.

pub mod bootstrap;
pub mod launch;
pub mod role;
