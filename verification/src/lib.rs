//! Decoded-video-frame buffer management.
//!
//! An asynchronous decoder produces frames in non-decreasing timestamp order;
//! a consumer repeatedly asks for the frame that best matches a presentation
//! timestamp. This crate holds the verified core of that handoff: the shared
//! output buffer with its sticky decode-error aggregation, the latest-at
//! frame selection and eviction, the caught-up-since-reset display policy,
//! and the pixel-format mapping for raw-buffer texture uploads.

pub mod decoder;
pub mod error;
pub mod frame;
pub mod output;
pub mod upload;
