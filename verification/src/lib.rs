//! Orchestration core for a single-pass GPU image transform.
//!
//! The library validates and sequences everything a compute dispatch needs:
//! workgroup-grid sizing, image-resource provisioning and upload, pipeline
//! binding-layout checks, command recording and submission, and readback of
//! the result, all over an explicit host-side model of device state. The
//! surrounding application performs the actual accelerator calls and feeds
//! their plain-value results through these verified functions.

pub mod device;
pub mod dispatch;
pub mod error;
pub mod grid;
pub mod pipeline;
pub mod readback;
pub mod rows;
