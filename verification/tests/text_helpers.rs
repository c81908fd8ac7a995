use shards_embed::platform::{parse_platform, parse_profile, parse_target_os, Profile, TargetOs};
use shards_embed::text::{has_prefix, has_suffix, str_eq};

#[test]
fn whole_string_equality() {
    assert!(str_eq("shards", "shards"));
    assert!(!str_eq("shards", "shard"));
    assert!(!str_eq("shard", "shards"));
    assert!(str_eq("", ""));
    assert!(!str_eq("", "a"));
}

#[test]
fn prefix_matching() {
    assert!(has_prefix("shards-0a1b2c", "shards-"));
    assert!(has_prefix("shards-", "shards-"));
    assert!(!has_prefix("shard-0a1b2c", "shards-"));
    assert!(!has_prefix("shards", "shards-"));
    assert!(has_prefix("anything", ""));
}

#[test]
fn suffix_matching() {
    assert!(has_suffix("libtbb.a", ".a"));
    assert!(has_suffix(".a", ".a"));
    assert!(!has_suffix("libtbb.a", ".lib"));
    assert!(!has_suffix("a", ".a"));
    assert!(has_suffix("anything", ""));
}

#[test]
fn profile_parsing() {
    assert_eq!(parse_profile("release"), Profile::Release);
    assert_eq!(parse_profile("debug"), Profile::Debug);
    assert_eq!(parse_profile("bench"), Profile::Debug);
    assert_eq!(parse_profile(""), Profile::Debug);
}

#[test]
fn target_os_parsing() {
    assert_eq!(parse_target_os("windows"), TargetOs::Windows);
    assert_eq!(parse_target_os("linux"), TargetOs::Linux);
    assert_eq!(parse_target_os("macos"), TargetOs::Macos);
    assert_eq!(parse_target_os("ios"), TargetOs::Ios);
    assert_eq!(parse_target_os("visionos"), TargetOs::Visionos);
    assert_eq!(parse_target_os("watchos"), TargetOs::Watchos);
    assert_eq!(parse_target_os("freebsd"), TargetOs::Other);
}

#[test]
fn platform_assembly() {
    let p = parse_platform("ios", "apple");
    assert_eq!(p.os, TargetOs::Ios);
    assert!(p.vendor_apple);
    let q = parse_platform("linux", "unknown");
    assert_eq!(q.os, TargetOs::Linux);
    assert!(!q.vendor_apple);
}
