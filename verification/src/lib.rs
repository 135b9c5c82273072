//! Frame cache and predictive prefetch for an interactive image-sequence
//! viewer, together with the label and annotation model of the viewer.
//!
//! The viewer asks a [`provider::ImageDirectory`] for frames by number. Frames
//! that were decoded before come out of a bounded cache; a
//! [`worker::PredictiveWorker`] watches the numbers that were asked for, infers
//! the direction of travel and names the frames worth decoding ahead of it.
pub mod annotation;
pub mod cache;
pub mod config;
pub mod decoder;
pub mod history;
pub mod index;
pub mod pixel;
pub mod playhead;
pub mod provider;
pub mod task;
pub mod worker;
