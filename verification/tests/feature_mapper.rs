use shards_embed::features::FeatureSet;
use shards_embed::options::{
    map_features, option_key_text, option_value_text, ConfigOption, OptionKey, OptionValue,
};
use shards_embed::platform::{Profile, TargetOs};

fn value_of(opts: &[ConfigOption], key: OptionKey) -> OptionValue {
    let hits: Vec<&ConfigOption> = opts.iter().filter(|o| o.key == key).collect();
    assert_eq!(hits.len(), 1, "key defined exactly once");
    hits[0].value
}

fn assert_no_duplicate_keys(opts: &[ConfigOption]) {
    for i in 0..opts.len() {
        for j in (i + 1)..opts.len() {
            assert_ne!(opts[i].key, opts[j].key);
        }
    }
}

#[test]
fn base_set_complete_with_no_flags() {
    let flags = FeatureSet::none();
    let opts = map_features(&flags, Profile::Debug, TargetOs::Linux);
    assert_eq!(opts.len(), 49);
    assert_no_duplicate_keys(&opts);
    assert!(opts.iter().all(|o| o.key != OptionKey::MsvcRuntimeLibrary));
}

#[test]
fn base_set_complete_with_all_flags() {
    let flags = FeatureSet {
        anim: true,
        asserts: true,
        audio: true,
        bigint: true,
        brotli: true,
        channels: true,
        crdts: true,
        debug: true,
        fileops: true,
        imaging: true,
        json: true,
        os: true,
        reflection: true,
        snappy: true,
        sqlite: true,
        structs: true,
        ml: true,
        crypto: true,
        csv: true,
        fs: true,
        http: true,
        network: true,
        pdf: true,
        ssh: true,
        svg: true,
        random: true,
        markdown: true,
        localshell: true,
        py: true,
        tracy: true,
    };
    let opts = map_features(&flags, Profile::Release, TargetOs::Macos);
    assert_eq!(opts.len(), 49);
    assert_no_duplicate_keys(&opts);
}

#[test]
fn base_set_complete_on_windows_with_runtime_option() {
    let flags = FeatureSet::none();
    let opts = map_features(&flags, Profile::Debug, TargetOs::Windows);
    assert_eq!(opts.len(), 50);
    assert_no_duplicate_keys(&opts);
    assert_eq!(
        value_of(&opts, OptionKey::MsvcRuntimeLibrary),
        OptionValue::MultiThreadedDll
    );
}

#[test]
fn umbrella_and_core_options_are_pinned() {
    let flags = FeatureSet::none();
    let opts = map_features(&flags, Profile::Debug, TargetOs::Linux);
    assert_eq!(value_of(&opts, OptionKey::NoRustUnion), OptionValue::On);
    assert_eq!(value_of(&opts, OptionKey::WithEverything), OptionValue::Off);
    assert_eq!(value_of(&opts, OptionKey::WithDefault), OptionValue::Off);
    assert_eq!(value_of(&opts, OptionKey::WithCore), OptionValue::On);
    assert_eq!(value_of(&opts, OptionKey::WithLangffi), OptionValue::On);
    assert_eq!(value_of(&opts, OptionKey::WithRun), OptionValue::On);
    assert_eq!(value_of(&opts, OptionKey::WithGfx), OptionValue::Off);
    assert_eq!(value_of(&opts, OptionKey::WithClipboard), OptionValue::Off);
}

#[test]
fn umbrella_pair_comes_before_every_gated_option() {
    let flags = FeatureSet::none();
    let opts = map_features(&flags, Profile::Debug, TargetOs::Linux);
    let everything = opts
        .iter()
        .position(|o| o.key == OptionKey::WithEverything)
        .unwrap();
    let default = opts
        .iter()
        .position(|o| o.key == OptionKey::WithDefault)
        .unwrap();
    let first_gated = opts
        .iter()
        .position(|o| o.key == OptionKey::WithAnim)
        .unwrap();
    assert!(everything < first_gated);
    assert!(default < first_gated);
}

#[test]
fn build_type_follows_profile() {
    let flags = FeatureSet::none();
    let debug = map_features(&flags, Profile::Debug, TargetOs::Linux);
    let release = map_features(&flags, Profile::Release, TargetOs::Linux);
    assert_eq!(value_of(&debug, OptionKey::BuildType), OptionValue::DebugBuild);
    assert_eq!(
        value_of(&release, OptionKey::BuildType),
        OptionValue::ReleaseBuild
    );
}

#[test]
fn machine_learning_flag_switches_both_options() {
    let mut flags = FeatureSet::none();
    let off = map_features(&flags, Profile::Debug, TargetOs::Linux);
    assert_eq!(value_of(&off, OptionKey::WithMl), OptionValue::Off);
    assert_eq!(value_of(&off, OptionKey::WithLlm), OptionValue::Off);
    flags.ml = true;
    let on = map_features(&flags, Profile::Debug, TargetOs::Linux);
    assert_eq!(value_of(&on, OptionKey::WithMl), OptionValue::On);
    assert_eq!(value_of(&on, OptionKey::WithLlm), OptionValue::On);
}

#[test]
fn scripting_embedding_flag_switches_three_options() {
    let mut flags = FeatureSet::none();
    flags.py = true;
    let opts = map_features(&flags, Profile::Debug, TargetOs::Linux);
    assert_eq!(value_of(&opts, OptionKey::WithPy), OptionValue::On);
    assert_eq!(value_of(&opts, OptionKey::EnablePythonShards), OptionValue::On);
    assert_eq!(
        value_of(&opts, OptionKey::EnableRustpythonEmbedded),
        OptionValue::On
    );
}

#[test]
fn tracing_flag_switches_both_options() {
    let mut flags = FeatureSet::none();
    flags.tracy = true;
    let opts = map_features(&flags, Profile::Debug, TargetOs::Linux);
    assert_eq!(value_of(&opts, OptionKey::TracyEnable), OptionValue::On);
    assert_eq!(value_of(&opts, OptionKey::WithTracy), OptionValue::On);
}

#[test]
fn single_flags_gate_their_own_option() {
    let mut flags = FeatureSet::none();
    flags.crypto = true;
    flags.network = true;
    let opts = map_features(&flags, Profile::Debug, TargetOs::Linux);
    assert_eq!(value_of(&opts, OptionKey::WithCrypto), OptionValue::On);
    assert_eq!(value_of(&opts, OptionKey::WithNetwork), OptionValue::On);
    assert_eq!(value_of(&opts, OptionKey::WithHttp), OptionValue::Off);
    assert_eq!(value_of(&opts, OptionKey::WithSsh), OptionValue::Off);
}

#[test]
fn runtime_library_option_only_on_windows() {
    let flags = FeatureSet::none();
    for os in [
        TargetOs::Linux,
        TargetOs::Macos,
        TargetOs::Ios,
        TargetOs::Visionos,
        TargetOs::Watchos,
        TargetOs::Other,
    ] {
        let opts = map_features(&flags, Profile::Release, os);
        assert!(opts.iter().all(|o| o.key != OptionKey::MsvcRuntimeLibrary));
    }
}

#[test]
fn option_names_render_exactly() {
    assert_eq!(option_key_text(OptionKey::NoRustUnion), "SHARDS_NO_RUST_UNION");
    assert_eq!(
        option_key_text(OptionKey::MsvcRuntimeLibrary),
        "CMAKE_MSVC_RUNTIME_LIBRARY"
    );
    assert_eq!(option_key_text(OptionKey::BuildType), "CMAKE_BUILD_TYPE");
    assert_eq!(option_key_text(OptionKey::WithCore), "SHARDS_WITH_CORE");
    assert_eq!(option_key_text(OptionKey::WithLlm), "SHARDS_WITH_LLM");
    assert_eq!(
        option_key_text(OptionKey::EnableRustpythonEmbedded),
        "ENABLE_RUSTPYTHON_EMBEDDED"
    );
    assert_eq!(option_key_text(OptionKey::TracyEnable), "TRACY_ENABLE");
    assert_eq!(option_value_text(OptionValue::On), "ON");
    assert_eq!(option_value_text(OptionValue::Off), "OFF");
    assert_eq!(option_value_text(OptionValue::ReleaseBuild), "Release");
    assert_eq!(option_value_text(OptionValue::DebugBuild), "Debug");
    assert_eq!(
        option_value_text(OptionValue::MultiThreadedDll),
        "MultiThreadedDLL"
    );
}
