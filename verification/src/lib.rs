//! Core of a wake-word listener: enumerating audio input devices, validating
//! the typed device selection, resolving the per-platform keyword file, and
//! deciding each step of the listening loop — stop on a shutdown request,
//! dispatch the key chord on a detection, keep reading otherwise. The audio
//! capture, the detection engine and the key injection live with the caller;
//! every decision and every rendered line of output is specified and proved
//! here.

pub mod devices;
pub mod listener;
mod listener_time;
pub mod numtext;
pub mod platform;
pub mod selector;
pub mod shutdown;
