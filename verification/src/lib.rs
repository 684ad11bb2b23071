//! The decisions of a GStreamer audio backend for a virtio sound device:
//! which pipeline a stream gets and how it is configured, how the commands of
//! the device are answered, and how samples move from the guest's requests
//! into a pipeline.
//!
//! Pipelines, locks, channels and threads are not handled here. A function
//! that depends on them is a step: it is told what has happened and says what
//! to do next.

pub mod backend;
pub mod caps;
pub mod error;
pub mod laws;
pub mod locks;
pub mod pipeline;
pub mod samples;
pub mod steps;
pub mod stream;
pub mod text;
pub mod virtio_sound;
pub mod worker;

pub use backend::{GStreamerBackend, GstStreamHandle};
pub use error::GsError;
pub use worker::gstreamer_worker;
