use shards_embed::features::FeatureSet;
use shards_embed::orchestrate::{build_trace, Action};
use shards_embed::source::{
    build_descriptor_name, checkout_prefix, choose_cache_root, local_source_dir, plan_bootstrap,
    resolve_source, sentinel_dependency_path, submodule_allow_list, BootstrapDecision,
    CacheCheckout, CacheRevision, CacheRoot, CacheRootError, SourceDecision,
};

fn rev(name: &str, has_descriptor: bool) -> CacheRevision {
    CacheRevision {
        name: name.to_string(),
        has_build_descriptor: has_descriptor,
    }
}

fn checkout(name: &str, revisions: Vec<CacheRevision>) -> CacheCheckout {
    CacheCheckout {
        name: name.to_string(),
        revisions,
    }
}

#[test]
fn local_tree_wins_outright() {
    let cache = vec![checkout("shards-1111", vec![rev("aaaa", true)])];
    assert_eq!(resolve_source(true, &cache), SourceDecision::LocalTree);
}

#[test]
fn first_matching_revision_is_chosen() {
    let cache = vec![
        checkout("serde-2222", vec![rev("aaaa", true)]),
        checkout("shards-3333", vec![rev("bbbb", false), rev("cccc", true)]),
        checkout("shards-4444", vec![rev("dddd", true)]),
    ];
    assert_eq!(
        resolve_source(false, &cache),
        SourceDecision::CachedCheckout { checkout: 1, revision: 1 }
    );
}

#[test]
fn prefix_mismatch_is_skipped() {
    let cache = vec![checkout("charms-5555", vec![rev("aaaa", true)])];
    assert_eq!(resolve_source(false, &cache), SourceDecision::Unresolvable);
}

#[test]
fn revision_without_descriptor_is_skipped() {
    let cache = vec![checkout("shards-6666", vec![rev("aaaa", false)])];
    assert_eq!(resolve_source(false, &cache), SourceDecision::Unresolvable);
}

#[test]
fn empty_cache_is_unresolvable() {
    let cache: Vec<CacheCheckout> = Vec::new();
    assert_eq!(resolve_source(false, &cache), SourceDecision::Unresolvable);
}

#[test]
fn unresolvable_source_aborts_before_any_build_invocation() {
    let flags = FeatureSet::none();
    let cache = vec![checkout("shards-7777", vec![rev("aaaa", false)])];
    let (decision, trace) = build_trace(false, &cache, false, true, &flags, true, true);
    assert_eq!(decision, SourceDecision::Unresolvable);
    assert_eq!(trace, vec![Action::AbortSourceUnresolvable]);
    assert_eq!(
        trace
            .iter()
            .filter(|a| **a == Action::RunPrimaryBuild || **a == Action::RunSecondaryBuild)
            .count(),
        0
    );
}

#[test]
fn cache_root_prefers_override_then_home() {
    assert_eq!(choose_cache_root(true, true), Ok(CacheRoot::Override));
    assert_eq!(choose_cache_root(true, false), Ok(CacheRoot::Override));
    assert_eq!(choose_cache_root(false, true), Ok(CacheRoot::UnderHome));
    assert_eq!(choose_cache_root(false, false), Err(CacheRootError::HomeUnset));
}

#[test]
fn bootstrap_keyed_on_sentinel() {
    assert_eq!(plan_bootstrap(true), BootstrapDecision::AlreadyPresent);
    assert_eq!(plan_bootstrap(false), BootstrapDecision::FetchAllowList);
}

#[test]
fn allow_list_is_the_fixed_set() {
    let list = submodule_allow_list();
    assert_eq!(list.len(), 23);
    assert_eq!(list[0], "deps/stb");
    assert!(list.contains(&"deps/spdlog"));
    assert!(list.contains(&"deps/oneTBB"));
    assert!(list.contains(&"deps/sqlite/cr-sqlite"));
    assert!(list.contains(&"deps/snappy"));
    assert!(!list.contains(&"deps/sdl"));
}

#[test]
fn fixed_names_render_exactly() {
    assert_eq!(local_source_dir(), "shards");
    assert_eq!(checkout_prefix(), "shards-");
    assert_eq!(build_descriptor_name(), "CMakeLists.txt");
    assert_eq!(sentinel_dependency_path(), "deps/spdlog/CMakeLists.txt");
}
