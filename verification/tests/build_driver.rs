use shards_embed::driver::{
    build_target_text, generator_text, primary_build_request, secondary_build_target, watch_paths,
    BuildTarget, Generator,
};
use shards_embed::features::FeatureSet;
use shards_embed::orchestrate::{build_trace, Action};
use shards_embed::platform::{Profile, TargetOs};
use shards_embed::source::{CacheCheckout, CacheRevision};

fn cached_world() -> Vec<CacheCheckout> {
    vec![CacheCheckout {
        name: "shards-0a1b2c3d".to_string(),
        revisions: vec![CacheRevision {
            name: "deadbeef".to_string(),
            has_build_descriptor: true,
        }],
    }]
}

#[test]
fn primary_request_names_generator_and_target() {
    let flags = FeatureSet::none();
    let request = primary_build_request(&flags, Profile::Release, TargetOs::Linux);
    assert_eq!(request.generator, Generator::Ninja);
    assert_eq!(request.target, BuildTarget::CppUnion);
    assert_eq!(request.options.len(), 49);
}

#[test]
fn secondary_target_exactly_when_storage_enabled() {
    let mut flags = FeatureSet::none();
    assert_eq!(secondary_build_target(&flags), None);
    flags.sqlite = true;
    assert_eq!(secondary_build_target(&flags), Some(BuildTarget::CrsqlBundle));
}

#[test]
fn secondary_invocation_recorded_exactly_when_storage_enabled() {
    let mut flags = FeatureSet::none();
    let cache = cached_world();
    let (_, trace) = build_trace(false, &cache, true, true, &flags, true, true);
    assert_eq!(
        trace.iter().filter(|a| **a == Action::RunSecondaryBuild).count(),
        0
    );
    flags.sqlite = true;
    let (_, trace) = build_trace(false, &cache, true, true, &flags, true, true);
    assert_eq!(
        trace.iter().filter(|a| **a == Action::RunSecondaryBuild).count(),
        1
    );
}

#[test]
fn secondary_invocation_comes_after_primary() {
    let mut flags = FeatureSet::none();
    flags.sqlite = true;
    let cache = cached_world();
    let (_, trace) = build_trace(true, &cache, true, true, &flags, true, true);
    let primary = trace
        .iter()
        .position(|a| *a == Action::RunPrimaryBuild)
        .unwrap();
    let secondary = trace
        .iter()
        .position(|a| *a == Action::RunSecondaryBuild)
        .unwrap();
    assert!(primary < secondary);
}

#[test]
fn failed_primary_build_aborts_without_secondary() {
    let mut flags = FeatureSet::none();
    flags.sqlite = true;
    let cache = cached_world();
    let (_, trace) = build_trace(true, &cache, true, true, &flags, false, true);
    assert_eq!(
        trace,
        vec![
            Action::UseLocalTree,
            Action::RunPrimaryBuild,
            Action::AbortPrimaryBuildFailed
        ]
    );
}

#[test]
fn failed_secondary_build_aborts() {
    let mut flags = FeatureSet::none();
    flags.sqlite = true;
    let cache = cached_world();
    let (_, trace) = build_trace(true, &cache, true, true, &flags, true, false);
    assert_eq!(
        trace,
        vec![
            Action::UseLocalTree,
            Action::RunPrimaryBuild,
            Action::RunSecondaryBuild,
            Action::AbortSecondaryBuildFailed
        ]
    );
}

#[test]
fn failed_fetch_warns_and_continues() {
    let flags = FeatureSet::none();
    let cache = cached_world();
    let (_, trace) = build_trace(false, &cache, false, false, &flags, true, true);
    assert_eq!(
        trace,
        vec![
            Action::UseCachedCheckout { checkout: 0, revision: 0 },
            Action::FetchSubmodules,
            Action::WarnFetchFailed,
            Action::RunPrimaryBuild,
            Action::EmitLinkPlan
        ]
    );
}

#[test]
fn present_sentinel_skips_fetch() {
    let flags = FeatureSet::none();
    let cache = cached_world();
    let (_, trace) = build_trace(false, &cache, true, true, &flags, true, true);
    assert_eq!(
        trace,
        vec![
            Action::UseCachedCheckout { checkout: 0, revision: 0 },
            Action::RunPrimaryBuild,
            Action::EmitLinkPlan
        ]
    );
}

#[test]
fn target_names_render_exactly() {
    assert_eq!(generator_text(Generator::Ninja), "Ninja");
    assert_eq!(build_target_text(BuildTarget::CppUnion), "shards-cpp-union");
    assert_eq!(
        build_target_text(BuildTarget::CrsqlBundle),
        "cargo-crsql_bundle-rust"
    );
}

#[test]
fn watch_paths_cover_core_and_descriptor() {
    let paths = watch_paths();
    assert_eq!(paths, vec!["shards/shards/core", "shards/CMakeLists.txt"]);
}
