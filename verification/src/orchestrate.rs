//! The orchestration trace: one build, start to finish, as a sequence of
//! externally visible actions.
//!
//! Control flow runs strictly in order: resolve the source, bootstrap
//! nested dependencies on the cached path, run the primary build, run
//! the secondary build exactly when the persistent-storage flag asks for
//! it, and finally emit the link plan.  An unresolvable source aborts
//! before any build-tool invocation; a failed invocation aborts
//! immediately; a failed bootstrap fetch only warns and carries on.

use vstd::prelude::*;

use crate::features::FeatureSet;
use crate::source::{cache_view, resolution_ok, resolve_source, CacheCheckout, SourceDecision};

verus! {

/// One externally visible step of a build.
#[derive(Clone, Copy, Debug, PartialEq, Eq, Structural)]
pub enum Action {
    /// Use the locally vendored source tree.
    UseLocalTree,
    /// Use the named revision of the named cached checkout.
    UseCachedCheckout { checkout: usize, revision: usize },
    /// Ask for the one shallow fetch of the submodule allow-list.
    FetchSubmodules,
    /// The fetch exited non-zero: warn and carry on.
    WarnFetchFailed,
    /// Invoke the external build tool: configure and build the primary
    /// target.
    RunPrimaryBuild,
    /// Invoke the external build tool against the secondary sub-target.
    RunSecondaryBuild,
    /// Probe the build output directory and emit the link plan.
    EmitLinkPlan,
    /// Abort: the source tree cannot be found anywhere.
    AbortSourceUnresolvable,
    /// Abort: the primary invocation exited non-zero.
    AbortPrimaryBuildFailed,
    /// Abort: the secondary invocation exited non-zero.
    AbortSecondaryBuildFailed,
}

/// The bootstrap steps taken on the cached path: nothing when the
/// sentinel dependency is present, otherwise one fetch, with a warning
/// if the fetch failed.
pub open spec fn bootstrap_part(sentinel_present: bool, fetch_ok: bool) -> Seq<Action> {
    if sentinel_present {
        Seq::<Action>::empty()
    } else if fetch_ok {
        seq![Action::FetchSubmodules]
    } else {
        seq![Action::FetchSubmodules, Action::WarnFetchFailed]
    }
}

/// The build steps: the primary invocation, then — only if it succeeded
/// — the secondary invocation exactly when the persistent-storage flag
/// is enabled, then the link plan; any non-zero exit aborts immediately.
pub open spec fn build_part(sqlite: bool, primary_ok: bool, secondary_ok: bool) -> Seq<Action> {
    seq![Action::RunPrimaryBuild]
        + if !primary_ok {
        seq![Action::AbortPrimaryBuildFailed]
    } else if sqlite {
        seq![Action::RunSecondaryBuild]
            + if secondary_ok {
            seq![Action::EmitLinkPlan]
        } else {
            seq![Action::AbortSecondaryBuildFailed]
        }
    } else {
        seq![Action::EmitLinkPlan]
    }
}

/// The whole trace of one build, given where the source was resolved
/// and what each external step would report.
pub open spec fn spec_trace(
    d: SourceDecision,
    sentinel_present: bool,
    fetch_ok: bool,
    sqlite: bool,
    primary_ok: bool,
    secondary_ok: bool,
) -> Seq<Action> {
    match d {
        SourceDecision::LocalTree => seq![Action::UseLocalTree] + build_part(
            sqlite,
            primary_ok,
            secondary_ok,
        ),
        SourceDecision::CachedCheckout { checkout, revision } => seq![
            Action::UseCachedCheckout { checkout, revision },
        ] + bootstrap_part(sentinel_present, fetch_ok) + build_part(
            sqlite,
            primary_ok,
            secondary_ok,
        ),
        SourceDecision::Unresolvable => seq![Action::AbortSourceUnresolvable],
    }
}

fn bootstrap_actions(sentinel_present: bool, fetch_ok: bool) -> (r: Vec<Action>)
    ensures
        r@ == bootstrap_part(sentinel_present, fetch_ok),
{
    let mut r: Vec<Action> = Vec::new();
    if !sentinel_present {
        r.push(Action::FetchSubmodules);
        if !fetch_ok {
            r.push(Action::WarnFetchFailed);
        }
    }
    proof {
        assert(r@ =~= bootstrap_part(sentinel_present, fetch_ok));
    }
    r
}

fn build_actions(sqlite: bool, primary_ok: bool, secondary_ok: bool) -> (r: Vec<Action>)
    ensures
        r@ == build_part(sqlite, primary_ok, secondary_ok),
{
    let mut r: Vec<Action> = Vec::new();
    r.push(Action::RunPrimaryBuild);
    if !primary_ok {
        r.push(Action::AbortPrimaryBuildFailed);
    } else if sqlite {
        r.push(Action::RunSecondaryBuild);
        if secondary_ok {
            r.push(Action::EmitLinkPlan);
        } else {
            r.push(Action::AbortSecondaryBuildFailed);
        }
    } else {
        r.push(Action::EmitLinkPlan);
    }
    proof {
        assert(r@ =~= build_part(sqlite, primary_ok, secondary_ok));
    }
    r
}

/// Resolve the source and lay out the whole build as its action trace,
/// given what each external step would report: where the tree was found
/// (or the abort), the bootstrap steps, the build invocations with their
/// immediate aborts, and the final link-plan emission.
pub fn build_trace(
    local_present: bool,
    cache: &Vec<CacheCheckout>,
    sentinel_present: bool,
    fetch_ok: bool,
    flags: &FeatureSet,
    primary_ok: bool,
    secondary_ok: bool,
) -> (r: (SourceDecision, Vec<Action>))
    ensures
        resolution_ok(local_present, cache_view(cache@), r.0),
        r.1@ == spec_trace(
            r.0,
            sentinel_present,
            fetch_ok,
            flags.sqlite,
            primary_ok,
            secondary_ok,
        ),
{
    let d = resolve_source(local_present, cache);
    let mut r: Vec<Action> = Vec::new();
    match d {
        SourceDecision::LocalTree => {
            r.push(Action::UseLocalTree);
            proof {
                assert(r@ =~= seq![Action::UseLocalTree]);
            }
            let mut build = build_actions(flags.sqlite, primary_ok, secondary_ok);
            r.append(&mut build);
        },
        SourceDecision::CachedCheckout { checkout, revision } => {
            r.push(Action::UseCachedCheckout { checkout, revision });
            proof {
                assert(r@ =~= seq![Action::UseCachedCheckout { checkout, revision }]);
            }
            let mut bootstrap = bootstrap_actions(sentinel_present, fetch_ok);
            let mut build = build_actions(flags.sqlite, primary_ok, secondary_ok);
            r.append(&mut bootstrap);
            r.append(&mut build);
        },
        SourceDecision::Unresolvable => {
            r.push(Action::AbortSourceUnresolvable);
            proof {
                assert(r@ =~= seq![Action::AbortSourceUnresolvable]);
            }
        },
    }
    (d, r)
}

/// Law: an unresolvable source aborts before the build tool is invoked
/// at all.  The trace is the single abort action; in particular it holds
/// no build-tool invocation of either kind.
pub proof fn lemma_abort_before_any_build(
    sentinel_present: bool,
    fetch_ok: bool,
    sqlite: bool,
    primary_ok: bool,
    secondary_ok: bool,
)
    ensures
        spec_trace(
            SourceDecision::Unresolvable,
            sentinel_present,
            fetch_ok,
            sqlite,
            primary_ok,
            secondary_ok,
        ) == seq![Action::AbortSourceUnresolvable],
        forall|k: int|
            0 <= k < spec_trace(
                SourceDecision::Unresolvable,
                sentinel_present,
                fetch_ok,
                sqlite,
                primary_ok,
                secondary_ok,
            ).len() ==> #[trigger] spec_trace(
                SourceDecision::Unresolvable,
                sentinel_present,
                fetch_ok,
                sqlite,
                primary_ok,
                secondary_ok,
            )[k] != Action::RunPrimaryBuild && spec_trace(
                SourceDecision::Unresolvable,
                sentinel_present,
                fetch_ok,
                sqlite,
                primary_ok,
                secondary_ok,
            )[k] != Action::RunSecondaryBuild,
{
}

/// Law: the secondary build invocation appears in a trace exactly when
/// the source was resolved, the primary invocation succeeded, and the
/// persistent-storage flag asked for the sub-target.
pub proof fn lemma_secondary_build_iff(
    d: SourceDecision,
    sentinel_present: bool,
    fetch_ok: bool,
    sqlite: bool,
    primary_ok: bool,
    secondary_ok: bool,
)
    ensures
        spec_trace(d, sentinel_present, fetch_ok, sqlite, primary_ok, secondary_ok).contains(
            Action::RunSecondaryBuild,
        ) <==> (d != SourceDecision::Unresolvable && primary_ok && sqlite),
{
    let t = spec_trace(d, sentinel_present, fetch_ok, sqlite, primary_ok, secondary_ok);
    let b = build_part(sqlite, primary_ok, secondary_ok);
    if t.contains(Action::RunSecondaryBuild) {
        let k = choose|k: int| 0 <= k < t.len() && t[k] == Action::RunSecondaryBuild;
        assert(d != SourceDecision::Unresolvable && primary_ok && sqlite);
    }
    if d != SourceDecision::Unresolvable && primary_ok && sqlite {
        assert(b[1] == Action::RunSecondaryBuild);
        match d {
            SourceDecision::LocalTree => {
                assert(t[2] == Action::RunSecondaryBuild);
            },
            SourceDecision::CachedCheckout { checkout, revision } => {
                let bl = bootstrap_part(sentinel_present, fetch_ok).len() as int;
                assert(t[1 + bl + 1] == Action::RunSecondaryBuild);
            },
            SourceDecision::Unresolvable => {
            },
        }
    }
}

} // verus!
