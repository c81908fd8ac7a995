//! The build driver's decisions: what to hand the external build tool.
//!
//! The primary invocation configures and builds the one top-level union
//! target.  One optional subsystem — embedded persistent-storage CRDT
//! support — needs a second, explicit invocation against a named
//! sub-target, because the primary build step does not produce that
//! artifact; it must run after the primary step, in the same build output
//! directory.  Running the invocations, and aborting on a non-zero exit,
//! is the driver shell's job.

use vstd::prelude::*;

use crate::features::FeatureSet;
use crate::options::{map_features, spec_option_seq, ConfigOption};
use crate::platform::{Profile, TargetOs};

verus! {

/// The generator the external build system is told to use.  The external
/// project's own build needs this generator for its Swift parts.
#[derive(Clone, Copy, Debug, PartialEq, Eq, Structural)]
pub enum Generator {
    Ninja,
}

/// The build targets this layer ever names.
#[derive(Clone, Copy, Debug, PartialEq, Eq, Structural)]
pub enum BuildTarget {
    /// The top-level union static library, the primary target.
    CppUnion,
    /// The persistent-storage CRDT bundle, built by the secondary
    /// invocation only.
    CrsqlBundle,
}

/// Everything the primary invocation of the external build tool takes: a
/// generator, the complete configuration-option mapping, and the one
/// top-level target.
pub struct BuildRequest {
    pub generator: Generator,
    pub options: Vec<ConfigOption>,
    pub target: BuildTarget,
}

/// Assemble the primary build invocation.  The option mapping is complete
/// before the driver runs: exactly [`spec_option_seq`].
pub fn primary_build_request(flags: &FeatureSet, profile: Profile, os: TargetOs) -> (r:
    BuildRequest)
    ensures
        r.generator == Generator::Ninja,
        r.options@ == spec_option_seq(*flags, profile, os),
        r.target == BuildTarget::CppUnion,
{
    BuildRequest {
        generator: Generator::Ninja,
        options: map_features(flags, profile, os),
        target: BuildTarget::CppUnion,
    }
}

/// Decide the secondary build invocation.  A sub-target is returned if
/// and only if the persistent-storage subsystem's flag is enabled, and it
/// is always the CRDT bundle.
pub fn secondary_build_target(flags: &FeatureSet) -> (r: Option<BuildTarget>)
    ensures
        r == if flags.sqlite {
            Some(BuildTarget::CrsqlBundle)
        } else {
            None::<BuildTarget>
        },
{
    if flags.sqlite {
        Some(BuildTarget::CrsqlBundle)
    } else {
        None
    }
}

/// The generator's name on the external build tool's command line.
pub fn generator_text(g: Generator) -> (r: &'static str)
    ensures
        r@ == "Ninja"@,
{
    match g {
        Generator::Ninja => "Ninja",
    }
}

/// What a build target is called.
pub open spec fn spec_build_target_text(t: BuildTarget) -> Seq<char> {
    match t {
        BuildTarget::CppUnion => "shards-cpp-union"@,
        BuildTarget::CrsqlBundle => "cargo-crsql_bundle-rust"@,
    }
}

/// A build target's name on the external build tool's command line.
pub fn build_target_text(t: BuildTarget) -> (r: &'static str)
    ensures
        r@ == spec_build_target_text(t),
{
    match t {
        BuildTarget::CppUnion => "shards-cpp-union",
        BuildTarget::CrsqlBundle => "cargo-crsql_bundle-rust",
    }
}

/// The source paths whose changes must re-run this whole layer: the
/// external project's core sources and its top-level build descriptor.
pub fn watch_paths() -> (r: Vec<&'static str>)
    ensures
        r@.len() == 2,
        r@[0]@ == "shards/shards/core"@,
        r@[1]@ == "shards/CMakeLists.txt"@,
{
    let r: Vec<&'static str> = vec!["shards/shards/core", "shards/CMakeLists.txt"];
    r
}

} // verus!
