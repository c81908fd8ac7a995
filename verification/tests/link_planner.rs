use shards_embed::artifacts::{locate_lib_dirs, tbb_patterns, FsEntry};
use shards_embed::features::FeatureSet;
use shards_embed::link_plan::{
    framework_text, linker_arg_text, plan_links, static_lib_text, sys_lib_text, AppleFramework,
    LibName, LinkInstruction, LinkerArg, SearchLoc, SysLib,
};
use shards_embed::platform::{Platform, Profile, TargetOs};

fn linux() -> Platform {
    Platform { os: TargetOs::Linux, vendor_apple: false }
}

fn windows() -> Platform {
    Platform { os: TargetOs::Windows, vendor_apple: false }
}

fn apple(os: TargetOs) -> Platform {
    Platform { os, vendor_apple: true }
}

fn plan_for(platform: Platform, profile: Profile, flags: &FeatureSet) -> Vec<LinkInstruction> {
    plan_links(&platform, profile, flags, &Vec::new(), false, false, false)
}

fn static_libs(plan: &[LinkInstruction]) -> Vec<LibName> {
    plan.iter()
        .filter_map(|i| match i {
            LinkInstruction::StaticLib(l) => Some(*l),
            _ => None,
        })
        .collect()
}

fn frameworks(plan: &[LinkInstruction]) -> Vec<AppleFramework> {
    plan.iter()
        .filter_map(|i| match i {
            LinkInstruction::Framework(f) => Some(*f),
            _ => None,
        })
        .collect()
}

#[test]
fn union_precedes_every_other_static_lib_on_every_platform() {
    let flags = FeatureSet::none();
    for platform in [
        linux(),
        windows(),
        apple(TargetOs::Macos),
        apple(TargetOs::Ios),
        apple(TargetOs::Visionos),
        apple(TargetOs::Watchos),
        Platform { os: TargetOs::Other, vendor_apple: false },
    ] {
        for profile in [Profile::Debug, Profile::Release] {
            let plan = plan_for(platform, profile, &flags);
            let union = plan
                .iter()
                .position(|i| *i == LinkInstruction::StaticLib(LibName::ShardsCppUnion))
                .unwrap();
            for (k, instr) in plan.iter().enumerate() {
                if let LinkInstruction::StaticLib(l) = instr {
                    if *l != LibName::ShardsCppUnion {
                        assert!(union < k);
                    }
                }
            }
        }
    }
}

#[test]
fn search_paths_precede_every_link_directive() {
    let mut flags = FeatureSet::none();
    flags.audio = true;
    let dirs = vec!["tbb_dir".to_string()];
    let plan = plan_links(&linux(), Profile::Debug, &flags, &dirs, true, false, true);
    let last_search = plan
        .iter()
        .rposition(|i| matches!(i, LinkInstruction::SearchPath(_)))
        .unwrap();
    let first_other = plan
        .iter()
        .position(|i| !matches!(i, LinkInstruction::SearchPath(_)))
        .unwrap();
    assert_eq!(last_search + 1, first_other);
    assert_eq!(
        plan[..first_other],
        vec![
            LinkInstruction::SearchPath(SearchLoc::BuildRoot),
            LinkInstruction::SearchPath(SearchLoc::LibSubdir),
            LinkInstruction::SearchPath(SearchLoc::Discovered("tbb_dir".to_string())),
            LinkInstruction::SearchPath(SearchLoc::KissfftBuild),
            LinkInstruction::SearchPath(SearchLoc::RustTarget),
            LinkInstruction::SearchPath(SearchLoc::RustTargetDeps),
        ]
    );
}

#[test]
fn discovered_tbb_directory_is_searched_and_tbb_is_still_linked() {
    let entries = vec![FsEntry {
        name: "compilerid_mode_64_debug".to_string(),
        is_dir: true,
        files: vec!["libtbb_debug.a".to_string()],
    }];
    let found = locate_lib_dirs(&entries, &tbb_patterns());
    let flags = FeatureSet::none();
    let plan = plan_links(&linux(), Profile::Debug, &flags, &found, false, false, false);
    assert!(plan.contains(&LinkInstruction::SearchPath(SearchLoc::Discovered(
        "compilerid_mode_64_debug".to_string()
    ))));
    assert!(plan.contains(&LinkInstruction::StaticLib(LibName::TbbDebug)));
}

#[test]
fn first_party_sequence_is_fixed() {
    let flags = FeatureSet::none();
    let libs = static_libs(&plan_for(linux(), Profile::Release, &flags));
    assert_eq!(
        &libs[..4],
        &[
            LibName::ShardsCppUnion,
            LibName::ShardsCore,
            LibName::ShardsLogging,
            LibName::ShardsFastString
        ]
    );
    assert_eq!(libs[4], LibName::BoostFilesystem);
}

#[test]
fn stacktrace_variant_follows_platform_and_profile() {
    let flags = FeatureSet::none();
    let has = |platform: Platform, profile: Profile, lib: LibName| {
        static_libs(&plan_for(platform, profile, &flags)).contains(&lib)
    };
    assert!(has(apple(TargetOs::Macos), Profile::Debug, LibName::BoostStacktraceBasic));
    assert!(has(windows(), Profile::Release, LibName::BoostStacktraceBasic));
    assert!(has(windows(), Profile::Debug, LibName::BoostStacktraceWindbg));
    assert!(has(linux(), Profile::Debug, LibName::BoostStacktraceAddr2line));
    assert!(has(linux(), Profile::Release, LibName::BoostStacktraceAddr2line));
}

#[test]
fn logging_and_tbb_variants_follow_profile_and_platform() {
    let flags = FeatureSet::none();
    let release = static_libs(&plan_for(linux(), Profile::Release, &flags));
    let debug = static_libs(&plan_for(linux(), Profile::Debug, &flags));
    let win_release = static_libs(&plan_for(windows(), Profile::Release, &flags));
    let win_debug = static_libs(&plan_for(windows(), Profile::Debug, &flags));
    assert!(release.contains(&LibName::Spdlog) && !release.contains(&LibName::Spdlogd));
    assert!(debug.contains(&LibName::Spdlogd) && !debug.contains(&LibName::Spdlog));
    assert!(release.contains(&LibName::Tbb));
    assert!(debug.contains(&LibName::TbbDebug));
    assert!(win_release.contains(&LibName::Tbb12));
    assert!(win_debug.contains(&LibName::Tbb12Debug));
}

#[test]
fn feature_flag_libraries_appear_exactly_when_enabled() {
    let mut flags = FeatureSet::none();
    let bare = static_libs(&plan_for(linux(), Profile::Release, &flags));
    for lib in [
        LibName::Kcp,
        LibName::Brotlicommon,
        LibName::Snappy,
        LibName::SqliteStatic,
        LibName::CrsqlBundle,
        LibName::Opus,
        LibName::Jpeg,
    ] {
        assert!(!bare.contains(&lib));
    }
    flags.network = true;
    flags.brotli = true;
    flags.snappy = true;
    flags.sqlite = true;
    flags.audio = true;
    flags.imaging = true;
    let full = static_libs(&plan_for(linux(), Profile::Release, &flags));
    for lib in [
        LibName::Kcp,
        LibName::Brotlicommon,
        LibName::Brotlidec,
        LibName::Brotlienc,
        LibName::Snappy,
        LibName::SqliteStatic,
        LibName::SqliteVec,
        LibName::CrsqlBundle,
        LibName::Opus,
        LibName::KissfftFloat,
        LibName::Jpeg,
    ] {
        assert!(full.contains(&lib));
    }
}

#[test]
fn linux_tail_links_runtime_set() {
    let flags = FeatureSet::none();
    let plan = plan_for(linux(), Profile::Release, &flags);
    let tail: Vec<&LinkInstruction> = plan
        .iter()
        .filter(|i| matches!(i, LinkInstruction::SystemLib(_)))
        .collect();
    assert_eq!(
        tail,
        vec![
            &LinkInstruction::SystemLib(SysLib::StdCpp),
            &LinkInstruction::SystemLib(SysLib::Pthread),
            &LinkInstruction::SystemLib(SysLib::Dl),
            &LinkInstruction::SystemLib(SysLib::Bfd)
        ]
    );
    assert!(frameworks(&plan).is_empty());
}

#[test]
fn windows_tail_links_system_libraries() {
    let flags = FeatureSet::none();
    let plan = plan_for(windows(), Profile::Release, &flags);
    let tail: Vec<&LinkInstruction> = plan
        .iter()
        .filter(|i| matches!(i, LinkInstruction::SystemLib(_)))
        .collect();
    assert_eq!(
        tail,
        vec![
            &LinkInstruction::SystemLib(SysLib::User32),
            &LinkInstruction::SystemLib(SysLib::Shell32),
            &LinkInstruction::SystemLib(SysLib::Ole32),
            &LinkInstruction::SystemLib(SysLib::LegacyStdioDefinitions)
        ]
    );
}

#[test]
fn mobile_frameworks_exclude_desktop_set() {
    let flags = FeatureSet::none();
    for os in [TargetOs::Ios, TargetOs::Visionos] {
        let fw = frameworks(&plan_for(apple(os), Profile::Release, &flags));
        assert!(fw.contains(&AppleFramework::UiKit));
        assert!(fw.contains(&AppleFramework::CoreMotion));
        assert!(fw.contains(&AppleFramework::CoreGraphics));
        assert!(fw.contains(&AppleFramework::AudioToolbox));
        assert!(!fw.contains(&AppleFramework::Cocoa));
        assert!(!fw.contains(&AppleFramework::Carbon));
        assert!(!fw.contains(&AppleFramework::ForceFeedback));
        assert!(!fw.contains(&AppleFramework::CoreServices));
    }
}

#[test]
fn desktop_frameworks_exclude_mobile_set() {
    let flags = FeatureSet::none();
    let fw = frameworks(&plan_for(apple(TargetOs::Macos), Profile::Release, &flags));
    assert!(fw.contains(&AppleFramework::Cocoa));
    assert!(fw.contains(&AppleFramework::Carbon));
    assert!(fw.contains(&AppleFramework::ForceFeedback));
    assert!(fw.contains(&AppleFramework::CoreServices));
    assert!(!fw.contains(&AppleFramework::UiKit));
    assert!(!fw.contains(&AppleFramework::CoreMotion));
}

#[test]
fn watch_frameworks_exclude_hardware_facing_set() {
    let flags = FeatureSet::none();
    let fw = frameworks(&plan_for(apple(TargetOs::Watchos), Profile::Release, &flags));
    assert!(fw.contains(&AppleFramework::Foundation));
    assert!(fw.contains(&AppleFramework::AvFoundation));
    assert!(fw.contains(&AppleFramework::UiKit));
    assert!(!fw.contains(&AppleFramework::AudioToolbox));
    assert!(!fw.contains(&AppleFramework::CoreHaptics));
    assert!(!fw.contains(&AppleFramework::Metal));
    assert!(!fw.contains(&AppleFramework::GameController));
}

#[test]
fn apple_tail_embeds_swift_runtime_path() {
    let flags = FeatureSet::none();
    let plan = plan_for(apple(TargetOs::Macos), Profile::Release, &flags);
    assert!(plan.contains(&LinkInstruction::StaticLib(LibName::ShardsCoreSwiftImpl)));
    assert!(plan.contains(&LinkInstruction::SystemLib(SysLib::Cpp)));
    let raw: Vec<&LinkInstruction> = plan
        .iter()
        .filter(|i| matches!(i, LinkInstruction::RawArg(_)))
        .collect();
    assert_eq!(
        raw,
        vec![
            &LinkInstruction::RawArg(LinkerArg::Xlinker),
            &LinkInstruction::RawArg(LinkerArg::Rpath),
            &LinkInstruction::RawArg(LinkerArg::Xlinker),
            &LinkInstruction::RawArg(LinkerArg::SwiftRuntimePath)
        ]
    );
    assert_eq!(plan.last().unwrap(), &LinkInstruction::RawArg(LinkerArg::SwiftRuntimePath));
}

#[test]
fn other_platform_has_no_tail() {
    let flags = FeatureSet::none();
    let platform = Platform { os: TargetOs::Other, vendor_apple: false };
    let plan = plan_for(platform, Profile::Release, &flags);
    assert!(plan.iter().all(|i| !matches!(i, LinkInstruction::SystemLib(_))));
    assert!(plan.iter().all(|i| !matches!(i, LinkInstruction::Framework(_))));
    assert!(plan.iter().all(|i| !matches!(i, LinkInstruction::RawArg(_))));
}

#[test]
fn link_names_render_exactly() {
    assert_eq!(static_lib_text(LibName::ShardsCppUnion), "shards-cpp-union");
    assert_eq!(static_lib_text(LibName::BoostStacktraceAddr2line), "boost_stacktrace_addr2line");
    assert_eq!(static_lib_text(LibName::Tbb12Debug), "tbb12_debug");
    assert_eq!(static_lib_text(LibName::SqliteStatic), "sqlite-static");
    assert_eq!(static_lib_text(LibName::KissfftFloat), "kissfft-float");
    assert_eq!(sys_lib_text(SysLib::Cpp), "c++");
    assert_eq!(sys_lib_text(SysLib::StdCpp), "stdc++");
    assert_eq!(sys_lib_text(SysLib::LegacyStdioDefinitions), "legacy_stdio_definitions");
    assert_eq!(framework_text(AppleFramework::IoKit), "IOKit");
    assert_eq!(framework_text(AppleFramework::UiKit), "UIKit");
    assert_eq!(framework_text(AppleFramework::AvFoundation), "AVFoundation");
    assert_eq!(linker_arg_text(LinkerArg::Xlinker), "-Xlinker");
    assert_eq!(linker_arg_text(LinkerArg::Rpath), "-rpath");
    assert_eq!(linker_arg_text(LinkerArg::SwiftRuntimePath), "/usr/lib/swift");
}
