//! Host-side backend of a small desktop application.
//!
//! Four independent, stateless command surfaces: relaying a chat
//! conversation to a remote completion API, launching files with the
//! platform's default handler, persisting a JSON configuration blob,
//! and loading an image file as a base64 data URI.  The decision and
//! formatting logic lives here, verified; the surrounding process,
//! filesystem and network plumbing stays outside the library.

pub mod chat;
pub mod config;
pub mod icon;
pub mod launcher;
