//! The feature mapper: from a flag set to the external build system's
//! configuration options.
//!
//! Every option the mapping knows is given an explicit value on every
//! build — a pair of umbrella options first switches everything off, and
//! each flag then switches its subsystem's options on or off explicitly,
//! so no option is ever inherited from an external default or from a
//! previous incremental build.

use vstd::prelude::*;

use crate::features::FeatureSet;
use crate::platform::{Profile, TargetOs};

verus! {

/// The configuration options the mapping defines, one name each.
#[derive(Clone, Copy, Debug, PartialEq, Eq, Structural)]
pub enum OptionKey {
    /// The host build already provides the top-level union, so the
    /// external build must not build its own.
    NoRustUnion,
    /// Runtime-library linkage mode, forced on the Windows family for ABI
    /// compatibility with the host language's own runtime.
    MsvcRuntimeLibrary,
    /// Debug or release, taken from the invoking build tool's profile.
    BuildType,
    WithEverything,
    WithDefault,
    WithCore,
    WithLangffi,
    WithRun,
    WithAnim,
    WithAssert,
    WithAudio,
    WithBigint,
    WithBrotli,
    WithChannels,
    WithCrdts,
    WithDebug,
    WithFileops,
    WithImaging,
    WithJson,
    WithOs,
    WithReflection,
    WithSnappy,
    WithSqlite,
    WithStruct,
    WithClipboard,
    WithDebugger,
    WithDesktop,
    WithGfx,
    WithInputs,
    WithPhysics,
    WithWasm,
    WithEgui,
    WithMl,
    WithLlm,
    WithCrypto,
    WithCsv,
    WithFs,
    WithHttp,
    WithNetwork,
    WithPdf,
    WithSsh,
    WithSvg,
    WithRandom,
    WithMarkdown,
    WithLocalshell,
    WithPy,
    EnablePythonShards,
    EnableRustpythonEmbedded,
    TracyEnable,
    WithTracy,
}

/// The value an option is set to.  The external build system takes these
/// as strings; [`option_value_text`] renders them.
#[derive(Clone, Copy, Debug, PartialEq, Eq, Structural)]
pub enum OptionValue {
    On,
    Off,
    /// Value of [`OptionKey::BuildType`] for a release build.
    ReleaseBuild,
    /// Value of [`OptionKey::BuildType`] for a debug build.
    DebugBuild,
    /// Value of [`OptionKey::MsvcRuntimeLibrary`]: the release
    /// runtime library, shared, even in debug builds.
    MultiThreadedDll,
}

/// One configuration option handed to the external build system.
#[derive(Clone, Copy, Debug, PartialEq, Eq, Structural)]
pub struct ConfigOption {
    pub key: OptionKey,
    pub value: OptionValue,
}

/// An option switched on or off by one flag.
pub open spec fn gated(key: OptionKey, on: bool) -> ConfigOption {
    ConfigOption { key, value: if on { OptionValue::On } else { OptionValue::Off } }
}

/// An option pinned to the same value on every build.
pub open spec fn pinned(key: OptionKey, value: OptionValue) -> ConfigOption {
    ConfigOption { key, value }
}

/// The head of the mapping: the umbrella switch-offs, the build type,
/// and the subsystems that every build carries.
pub open spec fn head_options(profile: Profile) -> Seq<ConfigOption> {
    seq![
        pinned(OptionKey::NoRustUnion, OptionValue::On),
        pinned(
            OptionKey::BuildType,
            if profile == Profile::Release {
                OptionValue::ReleaseBuild
            } else {
                OptionValue::DebugBuild
            },
        ),
        pinned(OptionKey::WithEverything, OptionValue::Off),
        pinned(OptionKey::WithDefault, OptionValue::Off),
        pinned(OptionKey::WithCore, OptionValue::On),
        pinned(OptionKey::WithLangffi, OptionValue::On),
        pinned(OptionKey::WithRun, OptionValue::On),
    ]
}

/// The flag-gated core subsystems, each switched by its own flag.
pub open spec fn gated_core_options(flags: FeatureSet) -> Seq<ConfigOption> {
    seq![
        gated(OptionKey::WithAnim, flags.anim),
        gated(OptionKey::WithAssert, flags.asserts),
        gated(OptionKey::WithAudio, flags.audio),
        gated(OptionKey::WithBigint, flags.bigint),
        gated(OptionKey::WithBrotli, flags.brotli),
        gated(OptionKey::WithChannels, flags.channels),
        gated(OptionKey::WithCrdts, flags.crdts),
        gated(OptionKey::WithDebug, flags.debug),
        gated(OptionKey::WithFileops, flags.fileops),
        gated(OptionKey::WithImaging, flags.imaging),
        gated(OptionKey::WithJson, flags.json),
        gated(OptionKey::WithOs, flags.os),
        gated(OptionKey::WithReflection, flags.reflection),
        gated(OptionKey::WithSnappy, flags.snappy),
        gated(OptionKey::WithSqlite, flags.sqlite),
        gated(OptionKey::WithStruct, flags.structs),
    ]
}

/// The subsystems no flag exists for: forced off on every build.
pub open spec fn disabled_options() -> Seq<ConfigOption> {
    seq![
        pinned(OptionKey::WithClipboard, OptionValue::Off),
        pinned(OptionKey::WithDebugger, OptionValue::Off),
        pinned(OptionKey::WithDesktop, OptionValue::Off),
        pinned(OptionKey::WithGfx, OptionValue::Off),
        pinned(OptionKey::WithInputs, OptionValue::Off),
        pinned(OptionKey::WithPhysics, OptionValue::Off),
        pinned(OptionKey::WithWasm, OptionValue::Off),
        pinned(OptionKey::WithEgui, OptionValue::Off),
    ]
}

/// The optional modules.  A flag may switch several options at once: the
/// machine-learning flag also enables the dependent large-language-model
/// option, and the scripting-embedding flag enables its two related
/// embedding options alongside its own.
pub open spec fn module_options(flags: FeatureSet) -> Seq<ConfigOption> {
    seq![
        gated(OptionKey::WithMl, flags.ml),
        gated(OptionKey::WithLlm, flags.ml),
        gated(OptionKey::WithCrypto, flags.crypto),
        gated(OptionKey::WithCsv, flags.csv),
        gated(OptionKey::WithFs, flags.fs),
        gated(OptionKey::WithHttp, flags.http),
        gated(OptionKey::WithNetwork, flags.network),
        gated(OptionKey::WithPdf, flags.pdf),
        gated(OptionKey::WithSsh, flags.ssh),
        gated(OptionKey::WithSvg, flags.svg),
        gated(OptionKey::WithRandom, flags.random),
        gated(OptionKey::WithMarkdown, flags.markdown),
        gated(OptionKey::WithLocalshell, flags.localshell),
        gated(OptionKey::WithPy, flags.py),
        gated(OptionKey::EnablePythonShards, flags.py),
        gated(OptionKey::EnableRustpythonEmbedded, flags.py),
        gated(OptionKey::TracyEnable, flags.tracy),
        gated(OptionKey::WithTracy, flags.tracy),
    ]
}

/// The platform-dependent tail: on the Windows family the runtime-library
/// linkage is forced; elsewhere nothing is added.
pub open spec fn platform_options(os: TargetOs) -> Seq<ConfigOption> {
    if os == TargetOs::Windows {
        seq![pinned(OptionKey::MsvcRuntimeLibrary, OptionValue::MultiThreadedDll)]
    } else {
        Seq::<ConfigOption>::empty()
    }
}

/// The complete option mapping for one build, in emission order.
pub open spec fn spec_option_seq(
    flags: FeatureSet,
    profile: Profile,
    os: TargetOs,
) -> Seq<ConfigOption> {
    head_options(profile) + gated_core_options(flags) + disabled_options() + module_options(flags)
        + platform_options(os)
}

/// Keys that are defined on every build, on every platform: all of them
/// except the Windows-only runtime-library option.
pub open spec fn is_base_key(k: OptionKey) -> bool {
    k != OptionKey::MsvcRuntimeLibrary
}

/// Some entry of `s` defines the key `k`.
pub open spec fn key_defined(s: Seq<ConfigOption>, k: OptionKey) -> bool {
    exists|i: int| 0 <= i < s.len() && (#[trigger] s[i]).key == k
}

/// Executable twin of [`gated`].
fn gated_option(key: OptionKey, on: bool) -> (r: ConfigOption)
    ensures
        r == gated(key, on),
{
    ConfigOption { key, value: if on { OptionValue::On } else { OptionValue::Off } }
}

fn head_vec(profile: Profile) -> (r: Vec<ConfigOption>)
    ensures
        r@ == head_options(profile),
{
    let mut r: Vec<ConfigOption> = Vec::new();
    r.push(ConfigOption { key: OptionKey::NoRustUnion, value: OptionValue::On });
    r.push(ConfigOption {
        key: OptionKey::BuildType,
        value: if matches!(profile, Profile::Release) {
            OptionValue::ReleaseBuild
        } else {
            OptionValue::DebugBuild
        },
    });
    r.push(ConfigOption { key: OptionKey::WithEverything, value: OptionValue::Off });
    r.push(ConfigOption { key: OptionKey::WithDefault, value: OptionValue::Off });
    r.push(ConfigOption { key: OptionKey::WithCore, value: OptionValue::On });
    r.push(ConfigOption { key: OptionKey::WithLangffi, value: OptionValue::On });
    r.push(ConfigOption { key: OptionKey::WithRun, value: OptionValue::On });
    proof {
        assert(r@ =~= head_options(profile));
    }
    r
}

fn gated_core_vec(flags: &FeatureSet) -> (r: Vec<ConfigOption>)
    ensures
        r@ == gated_core_options(*flags),
{
    let r: Vec<ConfigOption> = vec![
        gated_option(OptionKey::WithAnim, flags.anim),
        gated_option(OptionKey::WithAssert, flags.asserts),
        gated_option(OptionKey::WithAudio, flags.audio),
        gated_option(OptionKey::WithBigint, flags.bigint),
        gated_option(OptionKey::WithBrotli, flags.brotli),
        gated_option(OptionKey::WithChannels, flags.channels),
        gated_option(OptionKey::WithCrdts, flags.crdts),
        gated_option(OptionKey::WithDebug, flags.debug),
        gated_option(OptionKey::WithFileops, flags.fileops),
        gated_option(OptionKey::WithImaging, flags.imaging),
        gated_option(OptionKey::WithJson, flags.json),
        gated_option(OptionKey::WithOs, flags.os),
        gated_option(OptionKey::WithReflection, flags.reflection),
        gated_option(OptionKey::WithSnappy, flags.snappy),
        gated_option(OptionKey::WithSqlite, flags.sqlite),
        gated_option(OptionKey::WithStruct, flags.structs),
    ];
    proof {
        assert(r@ =~= gated_core_options(*flags));
    }
    r
}


fn disabled_vec() -> (r: Vec<ConfigOption>)
    ensures
        r@ == disabled_options(),
{
    let mut r: Vec<ConfigOption> = Vec::new();
    r.push(ConfigOption { key: OptionKey::WithClipboard, value: OptionValue::Off });
    r.push(ConfigOption { key: OptionKey::WithDebugger, value: OptionValue::Off });
    r.push(ConfigOption { key: OptionKey::WithDesktop, value: OptionValue::Off });
    r.push(ConfigOption { key: OptionKey::WithGfx, value: OptionValue::Off });
    r.push(ConfigOption { key: OptionKey::WithInputs, value: OptionValue::Off });
    r.push(ConfigOption { key: OptionKey::WithPhysics, value: OptionValue::Off });
    r.push(ConfigOption { key: OptionKey::WithWasm, value: OptionValue::Off });
    r.push(ConfigOption { key: OptionKey::WithEgui, value: OptionValue::Off });
    proof {
        assert(r@ =~= disabled_options());
    }
    r
}

fn module_vec(flags: &FeatureSet) -> (r: Vec<ConfigOption>)
    ensures
        r@ == module_options(*flags),
{
    let r: Vec<ConfigOption> = vec![
        gated_option(OptionKey::WithMl, flags.ml),
        gated_option(OptionKey::WithLlm, flags.ml),
        gated_option(OptionKey::WithCrypto, flags.crypto),
        gated_option(OptionKey::WithCsv, flags.csv),
        gated_option(OptionKey::WithFs, flags.fs),
        gated_option(OptionKey::WithHttp, flags.http),
        gated_option(OptionKey::WithNetwork, flags.network),
        gated_option(OptionKey::WithPdf, flags.pdf),
        gated_option(OptionKey::WithSsh, flags.ssh),
        gated_option(OptionKey::WithSvg, flags.svg),
        gated_option(OptionKey::WithRandom, flags.random),
        gated_option(OptionKey::WithMarkdown, flags.markdown),
        gated_option(OptionKey::WithLocalshell, flags.localshell),
        gated_option(OptionKey::WithPy, flags.py),
        gated_option(OptionKey::EnablePythonShards, flags.py),
        gated_option(OptionKey::EnableRustpythonEmbedded, flags.py),
        gated_option(OptionKey::TracyEnable, flags.tracy),
        gated_option(OptionKey::WithTracy, flags.tracy),
    ];
    proof {
        assert(r@ =~= module_options(*flags));
    }
    r
}

/// Translate the flag set, the build profile, and the target os into the
/// full configuration-option mapping, exactly [`spec_option_seq`].
pub fn map_features(flags: &FeatureSet, profile: Profile, os: TargetOs) -> (r: Vec<ConfigOption>)
    ensures
        r@ == spec_option_seq(*flags, profile, os),
{
    let mut r = head_vec(profile);
    let mut gated_core = gated_core_vec(flags);
    let mut disabled = disabled_vec();
    let mut modules = module_vec(flags);
    r.append(&mut gated_core);
    r.append(&mut disabled);
    r.append(&mut modules);
    if matches!(os, TargetOs::Windows) {
        r.push(ConfigOption {
            key: OptionKey::MsvcRuntimeLibrary,
            value: OptionValue::MultiThreadedDll,
        });
        proof {
            assert(r@ =~= spec_option_seq(*flags, profile, os));
        }
    } else {
        proof {
            assert(r@ =~= spec_option_seq(*flags, profile, os));
        }
    }
    r
}

/// Law: the feature mapper leaves no option unset.  For every flag
/// combination, every build profile, and every target os, every
/// configuration option in the base set has an explicit value, and on the
/// Windows family the forced runtime-library option is defined as well.
#[verifier::rlimit(60)]
pub proof fn lemma_every_base_option_defined(flags: FeatureSet, profile: Profile, os: TargetOs)
    ensures
        forall|k: OptionKey|
            is_base_key(k) ==> key_defined(spec_option_seq(flags, profile, os), k),
        os == TargetOs::Windows ==> key_defined(
            spec_option_seq(flags, profile, os),
            OptionKey::MsvcRuntimeLibrary,
        ),
{
    let s = spec_option_seq(flags, profile, os);
    assert forall|k: OptionKey| is_base_key(k) implies key_defined(s, k) by {
        match k {
            OptionKey::NoRustUnion => {
                assert(s[0].key == k);
            },
            OptionKey::BuildType => {
                assert(s[1].key == k);
            },
            OptionKey::WithEverything => {
                assert(s[2].key == k);
            },
            OptionKey::WithDefault => {
                assert(s[3].key == k);
            },
            OptionKey::WithCore => {
                assert(s[4].key == k);
            },
            OptionKey::WithLangffi => {
                assert(s[5].key == k);
            },
            OptionKey::WithRun => {
                assert(s[6].key == k);
            },
            OptionKey::WithAnim => {
                assert(s[7].key == k);
            },
            OptionKey::WithAssert => {
                assert(s[8].key == k);
            },
            OptionKey::WithAudio => {
                assert(s[9].key == k);
            },
            OptionKey::WithBigint => {
                assert(s[10].key == k);
            },
            OptionKey::WithBrotli => {
                assert(s[11].key == k);
            },
            OptionKey::WithChannels => {
                assert(s[12].key == k);
            },
            OptionKey::WithCrdts => {
                assert(s[13].key == k);
            },
            OptionKey::WithDebug => {
                assert(s[14].key == k);
            },
            OptionKey::WithFileops => {
                assert(s[15].key == k);
            },
            OptionKey::WithImaging => {
                assert(s[16].key == k);
            },
            OptionKey::WithJson => {
                assert(s[17].key == k);
            },
            OptionKey::WithOs => {
                assert(s[18].key == k);
            },
            OptionKey::WithReflection => {
                assert(s[19].key == k);
            },
            OptionKey::WithSnappy => {
                assert(s[20].key == k);
            },
            OptionKey::WithSqlite => {
                assert(s[21].key == k);
            },
            OptionKey::WithStruct => {
                assert(s[22].key == k);
            },
            OptionKey::WithClipboard => {
                assert(s[23].key == k);
            },
            OptionKey::WithDebugger => {
                assert(s[24].key == k);
            },
            OptionKey::WithDesktop => {
                assert(s[25].key == k);
            },
            OptionKey::WithGfx => {
                assert(s[26].key == k);
            },
            OptionKey::WithInputs => {
                assert(s[27].key == k);
            },
            OptionKey::WithPhysics => {
                assert(s[28].key == k);
            },
            OptionKey::WithWasm => {
                assert(s[29].key == k);
            },
            OptionKey::WithEgui => {
                assert(s[30].key == k);
            },
            OptionKey::WithMl => {
                assert(s[31].key == k);
            },
            OptionKey::WithLlm => {
                assert(s[32].key == k);
            },
            OptionKey::WithCrypto => {
                assert(s[33].key == k);
            },
            OptionKey::WithCsv => {
                assert(s[34].key == k);
            },
            OptionKey::WithFs => {
                assert(s[35].key == k);
            },
            OptionKey::WithHttp => {
                assert(s[36].key == k);
            },
            OptionKey::WithNetwork => {
                assert(s[37].key == k);
            },
            OptionKey::WithPdf => {
                assert(s[38].key == k);
            },
            OptionKey::WithSsh => {
                assert(s[39].key == k);
            },
            OptionKey::WithSvg => {
                assert(s[40].key == k);
            },
            OptionKey::WithRandom => {
                assert(s[41].key == k);
            },
            OptionKey::WithMarkdown => {
                assert(s[42].key == k);
            },
            OptionKey::WithLocalshell => {
                assert(s[43].key == k);
            },
            OptionKey::WithPy => {
                assert(s[44].key == k);
            },
            OptionKey::EnablePythonShards => {
                assert(s[45].key == k);
            },
            OptionKey::EnableRustpythonEmbedded => {
                assert(s[46].key == k);
            },
            OptionKey::TracyEnable => {
                assert(s[47].key == k);
            },
            OptionKey::WithTracy => {
                assert(s[48].key == k);
            },
            OptionKey::MsvcRuntimeLibrary => {
            },
        }
    }
    if os == TargetOs::Windows {
        assert(s[49].key == OptionKey::MsvcRuntimeLibrary);
    }
}

/// What each option key is called on the external build system's
/// command line.
pub open spec fn spec_option_key_text(k: OptionKey) -> Seq<char> {
    match k {
        OptionKey::NoRustUnion => "SHARDS_NO_RUST_UNION"@,
        OptionKey::MsvcRuntimeLibrary => "CMAKE_MSVC_RUNTIME_LIBRARY"@,
        OptionKey::BuildType => "CMAKE_BUILD_TYPE"@,
        OptionKey::WithEverything => "SHARDS_WITH_EVERYTHING"@,
        OptionKey::WithDefault => "SHARDS_WITH_DEFAULT"@,
        OptionKey::WithCore => "SHARDS_WITH_CORE"@,
        OptionKey::WithLangffi => "SHARDS_WITH_LANGFFI"@,
        OptionKey::WithRun => "SHARDS_WITH_RUN"@,
        OptionKey::WithAnim => "SHARDS_WITH_ANIM"@,
        OptionKey::WithAssert => "SHARDS_WITH_ASSERT"@,
        OptionKey::WithAudio => "SHARDS_WITH_AUDIO"@,
        OptionKey::WithBigint => "SHARDS_WITH_BIGINT"@,
        OptionKey::WithBrotli => "SHARDS_WITH_BROTLI"@,
        OptionKey::WithChannels => "SHARDS_WITH_CHANNELS"@,
        OptionKey::WithCrdts => "SHARDS_WITH_CRDTS"@,
        OptionKey::WithDebug => "SHARDS_WITH_DEBUG"@,
        OptionKey::WithFileops => "SHARDS_WITH_FILEOPS"@,
        OptionKey::WithImaging => "SHARDS_WITH_IMAGING"@,
        OptionKey::WithJson => "SHARDS_WITH_JSON"@,
        OptionKey::WithOs => "SHARDS_WITH_OS"@,
        OptionKey::WithReflection => "SHARDS_WITH_REFLECTION"@,
        OptionKey::WithSnappy => "SHARDS_WITH_SNAPPY"@,
        OptionKey::WithSqlite => "SHARDS_WITH_SQLITE"@,
        OptionKey::WithStruct => "SHARDS_WITH_STRUCT"@,
        OptionKey::WithClipboard => "SHARDS_WITH_CLIPBOARD"@,
        OptionKey::WithDebugger => "SHARDS_WITH_DEBUGGER"@,
        OptionKey::WithDesktop => "SHARDS_WITH_DESKTOP"@,
        OptionKey::WithGfx => "SHARDS_WITH_GFX"@,
        OptionKey::WithInputs => "SHARDS_WITH_INPUTS"@,
        OptionKey::WithPhysics => "SHARDS_WITH_PHYSICS"@,
        OptionKey::WithWasm => "SHARDS_WITH_WASM"@,
        OptionKey::WithEgui => "SHARDS_WITH_EGUI"@,
        OptionKey::WithMl => "SHARDS_WITH_ML"@,
        OptionKey::WithLlm => "SHARDS_WITH_LLM"@,
        OptionKey::WithCrypto => "SHARDS_WITH_CRYPTO"@,
        OptionKey::WithCsv => "SHARDS_WITH_CSV"@,
        OptionKey::WithFs => "SHARDS_WITH_FS"@,
        OptionKey::WithHttp => "SHARDS_WITH_HTTP"@,
        OptionKey::WithNetwork => "SHARDS_WITH_NETWORK"@,
        OptionKey::WithPdf => "SHARDS_WITH_PDF"@,
        OptionKey::WithSsh => "SHARDS_WITH_SSH"@,
        OptionKey::WithSvg => "SHARDS_WITH_SVG"@,
        OptionKey::WithRandom => "SHARDS_WITH_RANDOM"@,
        OptionKey::WithMarkdown => "SHARDS_WITH_MARKDOWN"@,
        OptionKey::WithLocalshell => "SHARDS_WITH_LOCALSHELL"@,
        OptionKey::WithPy => "SHARDS_WITH_PY"@,
        OptionKey::EnablePythonShards => "ENABLE_PYTHON_SHARDS"@,
        OptionKey::EnableRustpythonEmbedded => "ENABLE_RUSTPYTHON_EMBEDDED"@,
        OptionKey::TracyEnable => "TRACY_ENABLE"@,
        OptionKey::WithTracy => "SHARDS_WITH_TRACY"@,
    }
}

/// Executable twin of [`spec_option_key_text`].
pub fn option_key_text(k: OptionKey) -> (r: &'static str)
    ensures
        r@ == spec_option_key_text(k),
{
    match k {
        OptionKey::NoRustUnion => "SHARDS_NO_RUST_UNION",
        OptionKey::MsvcRuntimeLibrary => "CMAKE_MSVC_RUNTIME_LIBRARY",
        OptionKey::BuildType => "CMAKE_BUILD_TYPE",
        OptionKey::WithEverything => "SHARDS_WITH_EVERYTHING",
        OptionKey::WithDefault => "SHARDS_WITH_DEFAULT",
        OptionKey::WithCore => "SHARDS_WITH_CORE",
        OptionKey::WithLangffi => "SHARDS_WITH_LANGFFI",
        OptionKey::WithRun => "SHARDS_WITH_RUN",
        OptionKey::WithAnim => "SHARDS_WITH_ANIM",
        OptionKey::WithAssert => "SHARDS_WITH_ASSERT",
        OptionKey::WithAudio => "SHARDS_WITH_AUDIO",
        OptionKey::WithBigint => "SHARDS_WITH_BIGINT",
        OptionKey::WithBrotli => "SHARDS_WITH_BROTLI",
        OptionKey::WithChannels => "SHARDS_WITH_CHANNELS",
        OptionKey::WithCrdts => "SHARDS_WITH_CRDTS",
        OptionKey::WithDebug => "SHARDS_WITH_DEBUG",
        OptionKey::WithFileops => "SHARDS_WITH_FILEOPS",
        OptionKey::WithImaging => "SHARDS_WITH_IMAGING",
        OptionKey::WithJson => "SHARDS_WITH_JSON",
        OptionKey::WithOs => "SHARDS_WITH_OS",
        OptionKey::WithReflection => "SHARDS_WITH_REFLECTION",
        OptionKey::WithSnappy => "SHARDS_WITH_SNAPPY",
        OptionKey::WithSqlite => "SHARDS_WITH_SQLITE",
        OptionKey::WithStruct => "SHARDS_WITH_STRUCT",
        OptionKey::WithClipboard => "SHARDS_WITH_CLIPBOARD",
        OptionKey::WithDebugger => "SHARDS_WITH_DEBUGGER",
        OptionKey::WithDesktop => "SHARDS_WITH_DESKTOP",
        OptionKey::WithGfx => "SHARDS_WITH_GFX",
        OptionKey::WithInputs => "SHARDS_WITH_INPUTS",
        OptionKey::WithPhysics => "SHARDS_WITH_PHYSICS",
        OptionKey::WithWasm => "SHARDS_WITH_WASM",
        OptionKey::WithEgui => "SHARDS_WITH_EGUI",
        OptionKey::WithMl => "SHARDS_WITH_ML",
        OptionKey::WithLlm => "SHARDS_WITH_LLM",
        OptionKey::WithCrypto => "SHARDS_WITH_CRYPTO",
        OptionKey::WithCsv => "SHARDS_WITH_CSV",
        OptionKey::WithFs => "SHARDS_WITH_FS",
        OptionKey::WithHttp => "SHARDS_WITH_HTTP",
        OptionKey::WithNetwork => "SHARDS_WITH_NETWORK",
        OptionKey::WithPdf => "SHARDS_WITH_PDF",
        OptionKey::WithSsh => "SHARDS_WITH_SSH",
        OptionKey::WithSvg => "SHARDS_WITH_SVG",
        OptionKey::WithRandom => "SHARDS_WITH_RANDOM",
        OptionKey::WithMarkdown => "SHARDS_WITH_MARKDOWN",
        OptionKey::WithLocalshell => "SHARDS_WITH_LOCALSHELL",
        OptionKey::WithPy => "SHARDS_WITH_PY",
        OptionKey::EnablePythonShards => "ENABLE_PYTHON_SHARDS",
        OptionKey::EnableRustpythonEmbedded => "ENABLE_RUSTPYTHON_EMBEDDED",
        OptionKey::TracyEnable => "TRACY_ENABLE",
        OptionKey::WithTracy => "SHARDS_WITH_TRACY",
    }
}

/// What each option value is written as.
pub open spec fn spec_option_value_text(v: OptionValue) -> Seq<char> {
    match v {
        OptionValue::On => "ON"@,
        OptionValue::Off => "OFF"@,
        OptionValue::ReleaseBuild => "Release"@,
        OptionValue::DebugBuild => "Debug"@,
        OptionValue::MultiThreadedDll => "MultiThreadedDLL"@,
    }
}

/// Executable twin of [`spec_option_value_text`].
pub fn option_value_text(v: OptionValue) -> (r: &'static str)
    ensures
        r@ == spec_option_value_text(v),
{
    match v {
        OptionValue::On => "ON",
        OptionValue::Off => "OFF",
        OptionValue::ReleaseBuild => "Release",
        OptionValue::DebugBuild => "Debug",
        OptionValue::MultiThreadedDll => "MultiThreadedDLL",
    }
}

/// No key is defined twice: distinct entries of the mapping always
/// carry distinct keys.
#[verifier::rlimit(60)]
pub proof fn lemma_option_keys_distinct(flags: FeatureSet, profile: Profile, os: TargetOs)
    ensures
        forall|i: int, j: int|
            0 <= i < j < spec_option_seq(flags, profile, os).len() ==> (#[trigger] spec_option_seq(
                flags,
                profile,
                os,
            )[i]).key != (#[trigger] spec_option_seq(flags, profile, os)[j]).key,
{
}

} // verus!
