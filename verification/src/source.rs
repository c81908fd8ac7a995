//! The source resolver and the submodule bootstrapper.
//!
//! The external source tree is found in one of two places: a
//! conventionally named local directory, used verbatim when it exists, or
//! the package manager's checkout cache, scanned for the first checkout
//! whose name carries the expected prefix and whose revision holds the
//! build descriptor.  Neither existing is a fatal configuration error.
//!
//! On the cached path the tree's nested dependencies may be absent; the
//! bootstrapper then asks for one shallow fetch of a fixed allow-list of
//! dependency paths, keyed on a single sentinel dependency.

use vstd::prelude::*;

use crate::text::{has_prefix, prefix_of};

verus! {

/// One revision directory inside a cached checkout, as observed on disk:
/// its name, and whether it holds the build descriptor file.
pub struct CacheRevision {
    pub name: String,
    pub has_build_descriptor: bool,
}

/// Ghost image of a [`CacheRevision`].
pub struct CacheRevisionView {
    pub name: Seq<char>,
    pub has_build_descriptor: bool,
}

impl View for CacheRevision {
    type V = CacheRevisionView;

    open spec fn view(&self) -> CacheRevisionView {
        CacheRevisionView { name: self.name@, has_build_descriptor: self.has_build_descriptor }
    }
}

/// One checkout directory in the package manager's cache: its name and
/// its revision subdirectories, in the order they were enumerated.
pub struct CacheCheckout {
    pub name: String,
    pub revisions: Vec<CacheRevision>,
}

/// Ghost image of a [`CacheCheckout`].
pub struct CacheCheckoutView {
    pub name: Seq<char>,
    pub revisions: Seq<CacheRevisionView>,
}

impl View for CacheCheckout {
    type V = CacheCheckoutView;

    open spec fn view(&self) -> CacheCheckoutView {
        CacheCheckoutView {
            name: self.name@,
            revisions: self.revisions@.map_values(|r: CacheRevision| r@),
        }
    }
}

/// The ghost image of a whole cache listing.
pub open spec fn cache_view(cache: Seq<CacheCheckout>) -> Seq<CacheCheckoutView> {
    cache.map_values(|c: CacheCheckout| c@)
}

/// Where the source tree was found, or that it was not.
#[derive(Clone, Copy, Debug, PartialEq, Eq, Structural)]
pub enum SourceDecision {
    /// The conventionally named local directory exists; use it verbatim.
    LocalTree,
    /// Use revision `revision` of cache entry `checkout`; nested
    /// dependencies must be bootstrapped before building.
    CachedCheckout { checkout: usize, revision: usize },
    /// Neither place has the tree: a fatal configuration error.
    Unresolvable,
}

/// The name prefix a cached checkout of the external project carries.
pub open spec fn spec_checkout_prefix() -> Seq<char> {
    "shards-"@
}

/// Cache entry `i` exists, carries the checkout prefix, and its revision
/// `j` exists and holds the build descriptor.
pub open spec fn pair_match(cache: Seq<CacheCheckoutView>, i: int, j: int) -> bool {
    &&& 0 <= i < cache.len()
    &&& prefix_of(cache[i].name, spec_checkout_prefix())
    &&& 0 <= j < cache[i].revisions.len()
    &&& cache[i].revisions[j].has_build_descriptor
}

/// Pair `(i, j)` enumerates strictly before pair `(i2, j2)`.
pub open spec fn pair_before(i: int, j: int, i2: int, j2: int) -> bool {
    i < i2 || (i == i2 && j < j2)
}

/// What a correct resolution is: the local tree exactly when it is
/// present; otherwise the enumeration-first matching cached revision;
/// otherwise, and only when no pair matches, unresolvable.
pub open spec fn resolution_ok(
    local_present: bool,
    cache: Seq<CacheCheckoutView>,
    d: SourceDecision,
) -> bool {
    if local_present {
        d == SourceDecision::LocalTree
    } else {
        match d {
            SourceDecision::LocalTree => false,
            SourceDecision::CachedCheckout { checkout, revision } => {
                &&& pair_match(cache, checkout as int, revision as int)
                &&& forall|i2: int, j2: int|
                    pair_before(i2, j2, checkout as int, revision as int) ==> !pair_match(
                        cache,
                        i2,
                        j2,
                    )
            },
            SourceDecision::Unresolvable => forall|i2: int, j2: int| !pair_match(cache, i2, j2),
        }
    }
}

/// Resolve the source tree from what the driver observed on disk: the
/// local directory wins outright; otherwise the first matching cached
/// checkout revision, in enumeration order, is chosen; otherwise the
/// build cannot proceed.
pub fn resolve_source(local_present: bool, cache: &Vec<CacheCheckout>) -> (d: SourceDecision)
    ensures
        resolution_ok(local_present, cache_view(cache@), d),
{
    if local_present {
        return SourceDecision::LocalTree;
    }
    let ghost cv = cache_view(cache@);
    let mut i: usize = 0;
    while i < cache.len()
        invariant
            !local_present,
            i <= cache.len(),
            cv == cache_view(cache@),
            cv.len() == cache@.len(),
            forall|i2: int, j2: int| i2 < i ==> !pair_match(cv, i2, j2),
        decreases cache.len() - i,
    {
        let checkout = &cache[i];
        if has_prefix(checkout.name.as_str(), "shards-") {
            let mut j: usize = 0;
            while j < checkout.revisions.len()
                invariant
                    !local_present,
                    i < cache.len(),
                    prefix_of(cv[i as int].name, spec_checkout_prefix()),
                    j <= checkout.revisions.len(),
                    checkout == cache@[i as int],
                    cv == cache_view(cache@),
                    cv.len() == cache@.len(),
                    forall|i2: int, j2: int| i2 < i ==> !pair_match(cv, i2, j2),
                    forall|j2: int| j2 < j ==> !pair_match(cv, i as int, j2),
                decreases checkout.revisions.len() - j,
            {
                if checkout.revisions[j].has_build_descriptor {
                    return SourceDecision::CachedCheckout { checkout: i, revision: j };
                }
                j = j + 1;
            }
        } else {
            proof {
                assert(forall|j2: int| !pair_match(cv, i as int, j2));
            }
        }
        i = i + 1;
    }
    SourceDecision::Unresolvable
}

/// Where the package manager's cache root is taken from.
#[derive(Clone, Copy, Debug, PartialEq, Eq, Structural)]
pub enum CacheRoot {
    /// The environment override names the cache root directly.
    Override,
    /// No override: the root is the conventional directory under the
    /// user's home.
    UnderHome,
}

/// The cache root cannot be located at all: the user's home directory is
/// unknown and nothing overrides it.  A fatal configuration error.
#[derive(Clone, Copy, Debug, PartialEq, Eq, Structural)]
pub enum CacheRootError {
    HomeUnset,
}

/// Decide where the checkout cache lives, from which of the two
/// environment facts are available.
pub fn choose_cache_root(override_set: bool, home_set: bool) -> (r: Result<
    CacheRoot,
    CacheRootError,
>)
    ensures
        r == if override_set {
            Ok::<CacheRoot, CacheRootError>(CacheRoot::Override)
        } else if home_set {
            Ok::<CacheRoot, CacheRootError>(CacheRoot::UnderHome)
        } else {
            Err::<CacheRoot, CacheRootError>(CacheRootError::HomeUnset)
        },
{
    if override_set {
        Ok(CacheRoot::Override)
    } else if home_set {
        Ok(CacheRoot::UnderHome)
    } else {
        Err(CacheRootError::HomeUnset)
    }
}

/// What the bootstrapper decides for a cached checkout.
#[derive(Clone, Copy, Debug, PartialEq, Eq, Structural)]
pub enum BootstrapDecision {
    /// The sentinel dependency's descriptor is present: assume all nested
    /// dependencies are, and do nothing.
    AlreadyPresent,
    /// Fetch the fixed allow-list of nested dependencies, shallowly.
    FetchAllowList,
}

/// Bootstrapping is keyed on one representative dependency, not verified
/// per dependency: present means skip, absent means one shallow fetch.
pub fn plan_bootstrap(sentinel_present: bool) -> (d: BootstrapDecision)
    ensures
        d == if sentinel_present {
            BootstrapDecision::AlreadyPresent
        } else {
            BootstrapDecision::FetchAllowList
        },
{
    if sentinel_present {
        BootstrapDecision::AlreadyPresent
    } else {
        BootstrapDecision::FetchAllowList
    }
}

/// The sentinel dependency's descriptor file, relative to the source
/// tree: if it exists, the nested dependencies are taken to be present.
pub fn sentinel_dependency_path() -> (r: &'static str)
    ensures
        r@ == "deps/spdlog/CMakeLists.txt"@,
{
    "deps/spdlog/CMakeLists.txt"
}

/// The conventional name of the locally vendored source directory.
pub fn local_source_dir() -> (r: &'static str)
    ensures
        r@ == "shards"@,
{
    "shards"
}

/// The name of the build descriptor file a usable revision must hold.
pub fn build_descriptor_name() -> (r: &'static str)
    ensures
        r@ == "CMakeLists.txt"@,
{
    "CMakeLists.txt"
}

/// Executable twin of [`spec_checkout_prefix`].
pub fn checkout_prefix() -> (r: &'static str)
    ensures
        r@ == spec_checkout_prefix(),
{
    "shards-"
}

/// The nested dependency paths the bootstrap fetch is restricted to, in
/// the order they are handed to the fetch.
pub open spec fn spec_submodule_allow_list() -> Seq<Seq<char>> {
    seq![
        "deps/stb"@,
        "deps/json"@,
        "deps/magic_enum"@,
        "deps/cpp-taskflow"@,
        "deps/nameof"@,
        "deps/pdqsort"@,
        "deps/filesystem"@,
        "deps/xxHash"@,
        "deps/linalg"@,
        "deps/spdlog"@,
        "deps/brotli"@,
        "deps/tracy"@,
        "deps/oneTBB"@,
        "deps/crdt-lite"@,
        "deps/utf8.h"@,
        "deps/entt"@,
        "deps/kcp"@,
        "deps/tinygltf"@,
        "deps/draco"@,
        "deps/sqlite/cr-sqlite"@,
        "deps/miniaudio"@,
        "deps/kissfft"@,
        "deps/snappy"@,
    ]
}

/// Executable twin of [`spec_submodule_allow_list`]: the explicit
/// allow-list of nested dependencies the one shallow fetch is asked for.
pub fn submodule_allow_list() -> (r: Vec<&'static str>)
    ensures
        r@.map_values(|p: &'static str| p@) == spec_submodule_allow_list(),
{
    let r: Vec<&'static str> = vec![
        "deps/stb",
        "deps/json",
        "deps/magic_enum",
        "deps/cpp-taskflow",
        "deps/nameof",
        "deps/pdqsort",
        "deps/filesystem",
        "deps/xxHash",
        "deps/linalg",
        "deps/spdlog",
        "deps/brotli",
        "deps/tracy",
        "deps/oneTBB",
        "deps/crdt-lite",
        "deps/utf8.h",
        "deps/entt",
        "deps/kcp",
        "deps/tinygltf",
        "deps/draco",
        "deps/sqlite/cr-sqlite",
        "deps/miniaudio",
        "deps/kissfft",
        "deps/snappy",
    ];
    proof {
        assert(r@.map_values(|p: &'static str| p@) =~= spec_submodule_allow_list());
    }
    r
}

} // verus!
