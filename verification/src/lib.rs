//! Build orchestration for embedding the external native runtime.
//!
//! The crate turns a declarative feature selection into a deterministic
//! plan for configuring, building, and linking one external native project:
//! it decides where the source tree lives, which nested dependencies to
//! fetch, which configuration options to hand the external build tool,
//! which output directories to search for artifacts, and in what order the
//! host linker must consume the resulting libraries.
//!
//! All decisions are pure functions over plain values; the thin driver that
//! actually touches the filesystem and child processes feeds observations in
//! and carries the decisions out.

pub mod artifacts;
pub mod driver;
pub mod features;
pub mod link_plan;
pub mod options;
pub mod orchestrate;
pub mod platform;
pub mod source;
pub mod text;
