//! Build profile and target platform descriptors.
//!
//! The profile comes from the invoking build tool, not from a feature
//! flag; the platform descriptor comes from the target triple.  Both are
//! read from the environment by the driver and parsed here into closed
//! enumerations, which the feature mapper and the link planner branch on.

use vstd::prelude::*;

use crate::text::str_eq;

verus! {

/// The build profile selected by the invoking build tool.
#[derive(Clone, Copy, Debug, PartialEq, Eq, Structural)]
pub enum Profile {
    Debug,
    Release,
}

/// The operating-system family of the target triple.
///
/// Only the families that the planner distinguishes are named; every other
/// value parses to `Other`.
#[derive(Clone, Copy, Debug, PartialEq, Eq, Structural)]
pub enum TargetOs {
    Windows,
    Linux,
    Macos,
    Ios,
    Visionos,
    Watchos,
    Other,
}

/// The slice of the target triple that drives platform branches:
/// the operating-system family and whether the vendor is Apple.
#[derive(Clone, Copy, Debug, PartialEq, Eq, Structural)]
pub struct Platform {
    pub os: TargetOs,
    pub vendor_apple: bool,
}

impl Platform {
    /// Apple's mobile families: the phone, headset, and watch targets.
    pub open spec fn spec_is_mobile(self) -> bool {
        self.os == TargetOs::Ios || self.os == TargetOs::Visionos || self.os == TargetOs::Watchos
    }

    /// The constrained wearable family, which lacks several
    /// hardware-facing frameworks present on the other Apple targets.
    pub open spec fn spec_is_watch(self) -> bool {
        self.os == TargetOs::Watchos
    }

    /// Executable twin of [`Self::spec_is_mobile`].
    pub fn is_mobile(&self) -> (r: bool)
        ensures
            r == self.spec_is_mobile(),
    {
        matches!(self.os, TargetOs::Ios | TargetOs::Visionos | TargetOs::Watchos)
    }
}

/// What a profile name from the invoking build tool means: the release
/// profile is recognized by name and everything else builds for debugging.
pub open spec fn spec_parse_profile(s: Seq<char>) -> Profile {
    if s == "release"@ {
        Profile::Release
    } else {
        Profile::Debug
    }
}

/// Parse the profile name handed down by the invoking build tool.
pub fn parse_profile(s: &str) -> (r: Profile)
    ensures
        r == spec_parse_profile(s@),
{
    if str_eq(s, "release") {
        Profile::Release
    } else {
        Profile::Debug
    }
}

/// What a target-os name from the target triple means.
pub open spec fn spec_parse_target_os(s: Seq<char>) -> TargetOs {
    if s == "windows"@ {
        TargetOs::Windows
    } else if s == "linux"@ {
        TargetOs::Linux
    } else if s == "macos"@ {
        TargetOs::Macos
    } else if s == "ios"@ {
        TargetOs::Ios
    } else if s == "visionos"@ {
        TargetOs::Visionos
    } else if s == "watchos"@ {
        TargetOs::Watchos
    } else {
        TargetOs::Other
    }
}

/// Parse the target-os component of the target triple.
pub fn parse_target_os(s: &str) -> (r: TargetOs)
    ensures
        r == spec_parse_target_os(s@),
{
    if str_eq(s, "windows") {
        TargetOs::Windows
    } else if str_eq(s, "linux") {
        TargetOs::Linux
    } else if str_eq(s, "macos") {
        TargetOs::Macos
    } else if str_eq(s, "ios") {
        TargetOs::Ios
    } else if str_eq(s, "visionos") {
        TargetOs::Visionos
    } else if str_eq(s, "watchos") {
        TargetOs::Watchos
    } else {
        TargetOs::Other
    }
}

/// Is the target vendor Apple?  The Apple branches of the link planner
/// key on the vendor, not on the individual Apple os families.
pub fn vendor_is_apple(s: &str) -> (r: bool)
    ensures
        r == (s@ == "apple"@),
{
    str_eq(s, "apple")
}

/// Assemble the platform descriptor from the two target-triple components.
pub fn parse_platform(target_os: &str, target_vendor: &str) -> (r: Platform)
    ensures
        r.os == spec_parse_target_os(target_os@),
        r.vendor_apple == (target_vendor@ == "apple"@),
{
    Platform { os: parse_target_os(target_os), vendor_apple: vendor_is_apple(target_vendor) }
}

/// The profile segment of the external build's language-runtime output
/// directory.
pub fn profile_dir_text(profile: Profile) -> (r: &'static str)
    ensures
        profile == Profile::Release ==> r@ == "release"@,
        profile == Profile::Debug ==> r@ == "debug"@,
{
    match profile {
        Profile::Release => "release",
        Profile::Debug => "debug",
    }
}

} // verus!
