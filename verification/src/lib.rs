//! Toolchain discovery and build orchestration for a Swift project.
//!
//! The crate locates installed Swift toolchains (including ones managed by
//! swiftly), validates them, and models the build pipeline that drives the
//! compiler as a subprocess while streaming its output to a sink.
//!
//! All decisions are made by verified functions over plain values; the
//! filesystem, environment and subprocess edges hand those values in.

pub mod errors;
pub mod pipeline;
pub mod probes;
pub mod stream;
pub mod swiftly;
pub mod text;
pub mod toolchain;
