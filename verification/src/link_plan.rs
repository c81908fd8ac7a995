//! The link planner: the ordered directives the host linker consumes.
//!
//! Order is load-bearing.  Search paths come first; the top-level union
//! static library must precede every other static library, because it
//! subsumes and re-exports symbols the others depend on; platform runtime
//! libraries and frameworks come last.  Debug/release and per-platform
//! name variants are selected here, and on Apple targets the framework
//! set is filtered by sub-platform: the wearable family loses several
//! hardware-facing frameworks, and the mobile families take the mobile
//! windowing stack instead of the desktop one.

use vstd::prelude::*;

use crate::features::FeatureSet;
use crate::platform::{Platform, Profile, TargetOs};

verus! {

/// The static libraries the plan may name.
#[derive(Clone, Copy, Debug, PartialEq, Eq, Structural)]
pub enum LibName {
    /// The top-level union: always the first static library linked.
    ShardsCppUnion,
    ShardsCore,
    ShardsLogging,
    ShardsFastString,
    BoostFilesystem,
    BoostContainer,
    BoostContext,
    BoostThread,
    BoostAtomic,
    BoostChrono,
    BoostDateTime,
    BoostRandom,
    /// Stack-trace decoding: the portable variant.
    BoostStacktraceBasic,
    /// Stack-trace decoding via the Windows debug engine.
    BoostStacktraceWindbg,
    /// Stack-trace decoding via the address-to-line tool.
    BoostStacktraceAddr2line,
    Spdlog,
    /// The logging library's debug-suffixed variant.
    Spdlogd,
    Tbb,
    TbbDebug,
    /// The versioned Windows name of the thread-building-blocks library.
    Tbb12,
    Tbb12Debug,
    Kcp,
    Brotlicommon,
    Brotlidec,
    Brotlienc,
    Snappy,
    SqliteStatic,
    SqliteVec,
    CrsqlBundle,
    Opus,
    KissfftFloat,
    Jpeg,
    /// The Swift-implemented half of the core, Apple targets only.
    ShardsCoreSwiftImpl,
}

/// System libraries linked by bare name.
#[derive(Clone, Copy, Debug, PartialEq, Eq, Structural)]
pub enum SysLib {
    /// The Apple C++ runtime.
    Cpp,
    Iconv,
    /// The GNU C++ runtime.
    StdCpp,
    Pthread,
    Dl,
    /// The binutils decoder the stack-trace library needs on Linux.
    Bfd,
    User32,
    Shell32,
    Ole32,
    /// Provides legacy POSIX functions on Windows.
    LegacyStdioDefinitions,
}

/// The Apple frameworks the plan may name.
#[derive(Clone, Copy, Debug, PartialEq, Eq, Structural)]
pub enum AppleFramework {
    Foundation,
    CoreFoundation,
    Security,
    CoreAudio,
    CoreVideo,
    QuartzCore,
    Accelerate,
    AudioToolbox,
    IoKit,
    Metal,
    MetalKit,
    MetalPerformanceShaders,
    CoreHaptics,
    GameController,
    SystemConfiguration,
    AvFoundation,
    CoreMedia,
    CoreGraphics,
    UiKit,
    CoreMotion,
    Cocoa,
    Carbon,
    ForceFeedback,
    CoreServices,
}

/// Raw arguments passed through to the linker, used to embed the
/// co-resident language runtime's search path on Apple targets.
#[derive(Clone, Copy, Debug, PartialEq, Eq, Structural)]
pub enum LinkerArg {
    Xlinker,
    Rpath,
    /// The standard location of the Swift runtime libraries.
    SwiftRuntimePath,
}

/// A directory the linker must search.  The fixed candidates are named;
/// directories discovered by the artifact locator carry their observed
/// name.
#[derive(Debug, PartialEq, Eq)]
pub enum SearchLoc {
    /// The build output directory itself.
    BuildRoot,
    /// The `lib` subdirectory of the build output directory.
    LibSubdir,
    /// A subdirectory the artifact locator found a library in.
    Discovered(String),
    /// The nested build directory of the audio FFT dependency.
    KissfftBuild,
    /// The nested build directory of the JPEG dependency.
    MozjpegBuild,
    /// The external build's own language-runtime output directory for
    /// the selected profile.
    RustTarget,
    /// Its `deps` subdirectory.
    RustTargetDeps,
}

/// Ghost image of a [`SearchLoc`].
pub enum SearchLocView {
    BuildRoot,
    LibSubdir,
    Discovered(Seq<char>),
    KissfftBuild,
    MozjpegBuild,
    RustTarget,
    RustTargetDeps,
}

impl View for SearchLoc {
    type V = SearchLocView;

    open spec fn view(&self) -> SearchLocView {
        match self {
            SearchLoc::BuildRoot => SearchLocView::BuildRoot,
            SearchLoc::LibSubdir => SearchLocView::LibSubdir,
            SearchLoc::Discovered(d) => SearchLocView::Discovered(d@),
            SearchLoc::KissfftBuild => SearchLocView::KissfftBuild,
            SearchLoc::MozjpegBuild => SearchLocView::MozjpegBuild,
            SearchLoc::RustTarget => SearchLocView::RustTarget,
            SearchLoc::RustTargetDeps => SearchLocView::RustTargetDeps,
        }
    }
}

/// One directive to the host linker.
#[derive(Debug, PartialEq, Eq)]
pub enum LinkInstruction {
    SearchPath(SearchLoc),
    StaticLib(LibName),
    SystemLib(SysLib),
    Framework(AppleFramework),
    RawArg(LinkerArg),
}

/// Ghost image of a [`LinkInstruction`].
pub enum Directive {
    SearchPath(SearchLocView),
    StaticLib(LibName),
    SystemLib(SysLib),
    Framework(AppleFramework),
    RawArg(LinkerArg),
}

impl View for LinkInstruction {
    type V = Directive;

    open spec fn view(&self) -> Directive {
        match self {
            LinkInstruction::SearchPath(l) => Directive::SearchPath(l@),
            LinkInstruction::StaticLib(l) => Directive::StaticLib(*l),
            LinkInstruction::SystemLib(l) => Directive::SystemLib(*l),
            LinkInstruction::Framework(f) => Directive::Framework(*f),
            LinkInstruction::RawArg(a) => Directive::RawArg(*a),
        }
    }
}

/// The ghost image of a plan.
pub open spec fn plan_view(plan: Seq<LinkInstruction>) -> Seq<Directive> {
    plan.map_values(|x: LinkInstruction| x@)
}

/// The two fixed search paths every plan begins with.
pub open spec fn search_head_seq() -> Seq<Directive> {
    seq![
        Directive::SearchPath(SearchLocView::BuildRoot),
        Directive::SearchPath(SearchLocView::LibSubdir),
    ]
}

/// Search-path directives for the directories the locator discovered,
/// one each, in discovery order.
pub open spec fn discovered_search_seq(tbb_dirs: Seq<Seq<char>>) -> Seq<Directive>
    decreases tbb_dirs.len(),
{
    if tbb_dirs.len() == 0 {
        Seq::<Directive>::empty()
    } else {
        discovered_search_seq(tbb_dirs.drop_last()) + seq![
            Directive::SearchPath(SearchLocView::Discovered(tbb_dirs.last())),
        ]
    }
}

/// The nested dependency build directories that are searched when their
/// subsystem is enabled and the directory exists on disk.
pub open spec fn kissfft_search_seq(flags: FeatureSet, kissfft_present: bool) -> Seq<Directive> {
    if flags.audio && kissfft_present {
        seq![Directive::SearchPath(SearchLocView::KissfftBuild)]
    } else {
        Seq::<Directive>::empty()
    }
}

/// As [`kissfft_search_seq`], for the JPEG dependency.
pub open spec fn mozjpeg_search_seq(flags: FeatureSet, mozjpeg_present: bool) -> Seq<Directive> {
    if flags.imaging && mozjpeg_present {
        seq![Directive::SearchPath(SearchLocView::MozjpegBuild)]
    } else {
        Seq::<Directive>::empty()
    }
}

/// The external build's language-runtime output directories, searched
/// when they exist.
pub open spec fn rust_target_search_seq(rust_target_present: bool) -> Seq<Directive> {
    if rust_target_present {
        seq![
            Directive::SearchPath(SearchLocView::RustTarget),
            Directive::SearchPath(SearchLocView::RustTargetDeps),
        ]
    } else {
        Seq::<Directive>::empty()
    }
}

/// The search-path directives, first in every plan: the build output
/// directory and its `lib` subdirectory, every directory the locator
/// found the thread-building-blocks library in, the nested dependency
/// build directories of the enabled subsystems that exist on disk, and
/// the external build's language-runtime output directories when present.
pub open spec fn seg_search(
    tbb_dirs: Seq<Seq<char>>,
    flags: FeatureSet,
    kissfft_present: bool,
    mozjpeg_present: bool,
    rust_target_present: bool,
) -> Seq<Directive> {
    search_head_seq() + discovered_search_seq(tbb_dirs) + kissfft_search_seq(
        flags,
        kissfft_present,
    ) + mozjpeg_search_seq(flags, mozjpeg_present) + rust_target_search_seq(rust_target_present)
}

/// The union first, then the first-party static libraries in their
/// fixed sequence.
pub open spec fn seg_first_party() -> Seq<Directive> {
    seq![
        Directive::StaticLib(LibName::ShardsCppUnion),
        Directive::StaticLib(LibName::ShardsCore),
        Directive::StaticLib(LibName::ShardsLogging),
        Directive::StaticLib(LibName::ShardsFastString),
    ]
}

/// Which stack-trace variant a platform and profile take: the portable
/// one on Apple targets, the Windows debug engine in Windows debug
/// builds, the portable one in Windows release builds, and the
/// address-to-line variant everywhere else.
pub open spec fn spec_stacktrace_lib(platform: Platform, profile: Profile) -> LibName {
    if platform.vendor_apple {
        LibName::BoostStacktraceBasic
    } else if platform.os == TargetOs::Windows {
        if profile == Profile::Release {
            LibName::BoostStacktraceBasic
        } else {
            LibName::BoostStacktraceWindbg
        }
    } else {
        LibName::BoostStacktraceAddr2line
    }
}

/// The support libraries, closing with the platform's stack-trace
/// variant.
pub open spec fn seg_boost(platform: Platform, profile: Profile) -> Seq<Directive> {
    seq![
        Directive::StaticLib(LibName::BoostFilesystem),
        Directive::StaticLib(LibName::BoostContainer),
        Directive::StaticLib(LibName::BoostContext),
        Directive::StaticLib(LibName::BoostThread),
        Directive::StaticLib(LibName::BoostAtomic),
        Directive::StaticLib(LibName::BoostChrono),
        Directive::StaticLib(LibName::BoostDateTime),
        Directive::StaticLib(LibName::BoostRandom),
        Directive::StaticLib(spec_stacktrace_lib(platform, profile)),
    ]
}

/// The logging library's variant for a profile: the debug-suffixed name
/// in debug builds.
pub open spec fn spec_spdlog_lib(profile: Profile) -> LibName {
    if profile == Profile::Release {
        LibName::Spdlog
    } else {
        LibName::Spdlogd
    }
}

/// The thread-building-blocks variant: versioned names on the Windows
/// family, debug-suffixed names in debug builds.
pub open spec fn spec_tbb_lib(os: TargetOs, profile: Profile) -> LibName {
    if os == TargetOs::Windows {
        if profile == Profile::Release {
            LibName::Tbb12
        } else {
            LibName::Tbb12Debug
        }
    } else if profile == Profile::Release {
        LibName::Tbb
    } else {
        LibName::TbbDebug
    }
}

/// The third-party libraries every build links, in their
/// profile-and-platform-selected variants.
pub open spec fn seg_third_party(platform: Platform, profile: Profile) -> Seq<Directive> {
    seq![
        Directive::StaticLib(spec_spdlog_lib(profile)),
        Directive::StaticLib(spec_tbb_lib(platform.os, profile)),
    ]
}

/// The networking transport library, when its flag is enabled.
pub open spec fn net_libs_seq(flags: FeatureSet) -> Seq<Directive> {
    if flags.network {
        seq![Directive::StaticLib(LibName::Kcp)]
    } else {
        Seq::<Directive>::empty()
    }
}

/// The three compression libraries of the brotli codec, when enabled.
pub open spec fn brotli_libs_seq(flags: FeatureSet) -> Seq<Directive> {
    if flags.brotli {
        seq![
            Directive::StaticLib(LibName::Brotlicommon),
            Directive::StaticLib(LibName::Brotlidec),
            Directive::StaticLib(LibName::Brotlienc),
        ]
    } else {
        Seq::<Directive>::empty()
    }
}

/// The snappy compression library, when enabled.
pub open spec fn snappy_libs_seq(flags: FeatureSet) -> Seq<Directive> {
    if flags.snappy {
        seq![Directive::StaticLib(LibName::Snappy)]
    } else {
        Seq::<Directive>::empty()
    }
}

/// The persistent-storage libraries, including the CRDT bundle the
/// secondary build produced, when enabled.
pub open spec fn storage_libs_seq(flags: FeatureSet) -> Seq<Directive> {
    if flags.sqlite {
        seq![
            Directive::StaticLib(LibName::SqliteStatic),
            Directive::StaticLib(LibName::SqliteVec),
            Directive::StaticLib(LibName::CrsqlBundle),
        ]
    } else {
        Seq::<Directive>::empty()
    }
}

/// The audio codec and FFT libraries, when enabled.
pub open spec fn audio_libs_seq(flags: FeatureSet) -> Seq<Directive> {
    if flags.audio {
        seq![
            Directive::StaticLib(LibName::Opus),
            Directive::StaticLib(LibName::KissfftFloat),
        ]
    } else {
        Seq::<Directive>::empty()
    }
}

/// The JPEG codec library, when enabled.
pub open spec fn imaging_libs_seq(flags: FeatureSet) -> Seq<Directive> {
    if flags.imaging {
        seq![Directive::StaticLib(LibName::Jpeg)]
    } else {
        Seq::<Directive>::empty()
    }
}

/// The static libraries owed to enabled feature flags, grouped as the
/// plan emits them: networking, compression, persistent storage, audio,
/// imaging.
pub open spec fn seg_feature_libs(flags: FeatureSet) -> Seq<Directive> {
    net_libs_seq(flags) + brotli_libs_seq(flags) + snappy_libs_seq(flags) + storage_libs_seq(
        flags,
    ) + audio_libs_seq(flags) + imaging_libs_seq(flags)
}

/// The Apple tail: the Swift half of the core, the C++ runtime, the
/// framework set filtered by sub-platform, and the raw arguments that
/// embed the Swift runtime search path.
pub open spec fn seg_apple(platform: Platform) -> Seq<Directive> {
    seq![
        Directive::StaticLib(LibName::ShardsCoreSwiftImpl),
        Directive::SystemLib(SysLib::Cpp),
        Directive::Framework(AppleFramework::Foundation),
        Directive::Framework(AppleFramework::CoreFoundation),
        Directive::Framework(AppleFramework::Security),
        Directive::Framework(AppleFramework::CoreAudio),
        Directive::Framework(AppleFramework::CoreVideo),
        Directive::Framework(AppleFramework::QuartzCore),
        Directive::Framework(AppleFramework::Accelerate),
        Directive::SystemLib(SysLib::Iconv),
    ] + (if !platform.spec_is_watch() {
        seq![
            Directive::Framework(AppleFramework::AudioToolbox),
            Directive::Framework(AppleFramework::IoKit),
            Directive::Framework(AppleFramework::Metal),
            Directive::Framework(AppleFramework::MetalKit),
            Directive::Framework(AppleFramework::MetalPerformanceShaders),
            Directive::Framework(AppleFramework::CoreHaptics),
            Directive::Framework(AppleFramework::GameController),
            Directive::Framework(AppleFramework::SystemConfiguration),
        ]
    } else {
        Seq::<Directive>::empty()
    }) + seq![
        Directive::Framework(AppleFramework::AvFoundation),
        Directive::Framework(AppleFramework::CoreMedia),
    ] + (if platform.spec_is_mobile() {
        seq![
            Directive::Framework(AppleFramework::CoreGraphics),
            Directive::Framework(AppleFramework::UiKit),
            Directive::Framework(AppleFramework::CoreMotion),
        ]
    } else {
        seq![
            Directive::Framework(AppleFramework::Cocoa),
            Directive::Framework(AppleFramework::Carbon),
            Directive::Framework(AppleFramework::ForceFeedback),
            Directive::Framework(AppleFramework::CoreServices),
        ]
    }) + seq![
        Directive::RawArg(LinkerArg::Xlinker),
        Directive::RawArg(LinkerArg::Rpath),
        Directive::RawArg(LinkerArg::Xlinker),
        Directive::RawArg(LinkerArg::SwiftRuntimePath),
    ]
}

/// The platform tail of the plan: Apple's frameworks and runtime, the
/// GNU runtime set on Linux, the system libraries on Windows, nothing
/// elsewhere.
pub open spec fn seg_platform_tail(platform: Platform) -> Seq<Directive> {
    if platform.vendor_apple {
        seg_apple(platform)
    } else if platform.os == TargetOs::Linux {
        seq![
            Directive::SystemLib(SysLib::StdCpp),
            Directive::SystemLib(SysLib::Pthread),
            Directive::SystemLib(SysLib::Dl),
            Directive::SystemLib(SysLib::Bfd),
        ]
    } else if platform.os == TargetOs::Windows {
        seq![
            Directive::SystemLib(SysLib::User32),
            Directive::SystemLib(SysLib::Shell32),
            Directive::SystemLib(SysLib::Ole32),
            Directive::SystemLib(SysLib::LegacyStdioDefinitions),
        ]
    } else {
        Seq::<Directive>::empty()
    }
}

/// The whole plan, in emission order.
pub open spec fn spec_link_plan(
    platform: Platform,
    profile: Profile,
    flags: FeatureSet,
    tbb_dirs: Seq<Seq<char>>,
    kissfft_present: bool,
    mozjpeg_present: bool,
    rust_target_present: bool,
) -> Seq<Directive> {
    seg_search(tbb_dirs, flags, kissfft_present, mozjpeg_present, rust_target_present)
        + seg_first_party() + seg_boost(platform, profile) + seg_third_party(platform, profile)
        + seg_feature_libs(flags) + seg_platform_tail(platform)
}

/// Mapping a view over a concatenation splits into the two mapped
/// halves.
proof fn lemma_plan_view_add(a: Seq<LinkInstruction>, b: Seq<LinkInstruction>)
    ensures
        plan_view(a + b) == plan_view(a) + plan_view(b),
{
    assert(plan_view(a + b) =~= plan_view(a) + plan_view(b));
}

/// Executable twin of [`spec_stacktrace_lib`].
pub fn stacktrace_lib(platform: &Platform, profile: Profile) -> (r: LibName)
    ensures
        r == spec_stacktrace_lib(*platform, profile),
{
    if platform.vendor_apple {
        LibName::BoostStacktraceBasic
    } else if matches!(platform.os, TargetOs::Windows) {
        if matches!(profile, Profile::Release) {
            LibName::BoostStacktraceBasic
        } else {
            LibName::BoostStacktraceWindbg
        }
    } else {
        LibName::BoostStacktraceAddr2line
    }
}

/// Executable twin of [`spec_spdlog_lib`].
pub fn spdlog_lib(profile: Profile) -> (r: LibName)
    ensures
        r == spec_spdlog_lib(profile),
{
    if matches!(profile, Profile::Release) {
        LibName::Spdlog
    } else {
        LibName::Spdlogd
    }
}

/// Executable twin of [`spec_tbb_lib`].
pub fn tbb_lib(os: TargetOs, profile: Profile) -> (r: LibName)
    ensures
        r == spec_tbb_lib(os, profile),
{
    if matches!(os, TargetOs::Windows) {
        if matches!(profile, Profile::Release) {
            LibName::Tbb12
        } else {
            LibName::Tbb12Debug
        }
    } else if matches!(profile, Profile::Release) {
        LibName::Tbb
    } else {
        LibName::TbbDebug
    }
}

fn discovered_vec(tbb_dirs: &Vec<String>) -> (r: Vec<LinkInstruction>)
    ensures
        plan_view(r@) == discovered_search_seq(tbb_dirs@.map_values(|s: String| s@)),
{
    let ghost dirs = tbb_dirs@.map_values(|s: String| s@);
    let mut r: Vec<LinkInstruction> = Vec::new();
    let mut i: usize = 0;
    while i < tbb_dirs.len()
        invariant
            i <= tbb_dirs.len(),
            dirs == tbb_dirs@.map_values(|s: String| s@),
            dirs.len() == tbb_dirs@.len(),
            plan_view(r@) == discovered_search_seq(dirs.take(i as int)),
        decreases tbb_dirs.len() - i,
    {
        proof {
            assert(dirs.take(i + 1).drop_last() =~= dirs.take(i as int));
            assert(dirs.take(i + 1).last() == dirs[i as int]);
        }
        r.push(LinkInstruction::SearchPath(SearchLoc::Discovered(tbb_dirs[i].clone())));
        proof {
            assert(plan_view(r@) =~= discovered_search_seq(dirs.take(i + 1)));
        }
        i = i + 1;
    }
    proof {
        assert(dirs.take(tbb_dirs@.len() as int) =~= dirs);
    }
    r
}

fn search_head_vec() -> (r: Vec<LinkInstruction>)
    ensures
        plan_view(r@) == search_head_seq(),
{
    let r: Vec<LinkInstruction> = vec![
        LinkInstruction::SearchPath(SearchLoc::BuildRoot),
        LinkInstruction::SearchPath(SearchLoc::LibSubdir),
    ];
    proof {
        assert(plan_view(r@) =~= search_head_seq());
    }
    r
}

fn kissfft_vec(flags: &FeatureSet, kissfft_present: bool) -> (r: Vec<LinkInstruction>)
    ensures
        plan_view(r@) == kissfft_search_seq(*flags, kissfft_present),
{
    let mut r: Vec<LinkInstruction> = Vec::new();
    if flags.audio && kissfft_present {
        r.push(LinkInstruction::SearchPath(SearchLoc::KissfftBuild));
    }
    proof {
        assert(plan_view(r@) =~= kissfft_search_seq(*flags, kissfft_present));
    }
    r
}

fn mozjpeg_vec(flags: &FeatureSet, mozjpeg_present: bool) -> (r: Vec<LinkInstruction>)
    ensures
        plan_view(r@) == mozjpeg_search_seq(*flags, mozjpeg_present),
{
    let mut r: Vec<LinkInstruction> = Vec::new();
    if flags.imaging && mozjpeg_present {
        r.push(LinkInstruction::SearchPath(SearchLoc::MozjpegBuild));
    }
    proof {
        assert(plan_view(r@) =~= mozjpeg_search_seq(*flags, mozjpeg_present));
    }
    r
}

fn rust_target_vec(rust_target_present: bool) -> (r: Vec<LinkInstruction>)
    ensures
        plan_view(r@) == rust_target_search_seq(rust_target_present),
{
    let mut r: Vec<LinkInstruction> = Vec::new();
    if rust_target_present {
        r.push(LinkInstruction::SearchPath(SearchLoc::RustTarget));
        r.push(LinkInstruction::SearchPath(SearchLoc::RustTargetDeps));
    }
    proof {
        assert(plan_view(r@) =~= rust_target_search_seq(rust_target_present));
    }
    r
}

fn search_vec(
    tbb_dirs: &Vec<String>,
    flags: &FeatureSet,
    kissfft_present: bool,
    mozjpeg_present: bool,
    rust_target_present: bool,
) -> (r: Vec<LinkInstruction>)
    ensures
        plan_view(r@) == seg_search(
            tbb_dirs@.map_values(|s: String| s@),
            *flags,
            kissfft_present,
            mozjpeg_present,
            rust_target_present,
        ),
{
    let mut r = search_head_vec();
    let mut discovered = discovered_vec(tbb_dirs);
    let mut kissfft = kissfft_vec(flags, kissfft_present);
    let mut mozjpeg = mozjpeg_vec(flags, mozjpeg_present);
    let mut rust_target = rust_target_vec(rust_target_present);
    proof {
        lemma_plan_view_add(r@, discovered@);
        lemma_plan_view_add(r@ + discovered@, kissfft@);
        lemma_plan_view_add(r@ + discovered@ + kissfft@, mozjpeg@);
        lemma_plan_view_add(r@ + discovered@ + kissfft@ + mozjpeg@, rust_target@);
    }
    r.append(&mut discovered);
    r.append(&mut kissfft);
    r.append(&mut mozjpeg);
    r.append(&mut rust_target);
    r
}

fn first_party_vec() -> (r: Vec<LinkInstruction>)
    ensures
        plan_view(r@) == seg_first_party(),
{
    let r: Vec<LinkInstruction> = vec![
        LinkInstruction::StaticLib(LibName::ShardsCppUnion),
        LinkInstruction::StaticLib(LibName::ShardsCore),
        LinkInstruction::StaticLib(LibName::ShardsLogging),
        LinkInstruction::StaticLib(LibName::ShardsFastString),
    ];
    proof {
        assert(plan_view(r@) =~= seg_first_party());
    }
    r
}

fn boost_vec(platform: &Platform, profile: Profile) -> (r: Vec<LinkInstruction>)
    ensures
        plan_view(r@) == seg_boost(*platform, profile),
{
    let r: Vec<LinkInstruction> = vec![
        LinkInstruction::StaticLib(LibName::BoostFilesystem),
        LinkInstruction::StaticLib(LibName::BoostContainer),
        LinkInstruction::StaticLib(LibName::BoostContext),
        LinkInstruction::StaticLib(LibName::BoostThread),
        LinkInstruction::StaticLib(LibName::BoostAtomic),
        LinkInstruction::StaticLib(LibName::BoostChrono),
        LinkInstruction::StaticLib(LibName::BoostDateTime),
        LinkInstruction::StaticLib(LibName::BoostRandom),
        LinkInstruction::StaticLib(stacktrace_lib(platform, profile)),
    ];
    proof {
        assert(plan_view(r@) =~= seg_boost(*platform, profile));
    }
    r
}

fn third_party_vec(platform: &Platform, profile: Profile) -> (r: Vec<LinkInstruction>)
    ensures
        plan_view(r@) == seg_third_party(*platform, profile),
{
    let r: Vec<LinkInstruction> = vec![
        LinkInstruction::StaticLib(spdlog_lib(profile)),
        LinkInstruction::StaticLib(tbb_lib(platform.os, profile)),
    ];
    proof {
        assert(plan_view(r@) =~= seg_third_party(*platform, profile));
    }
    r
}

fn net_vec(flags: &FeatureSet) -> (r: Vec<LinkInstruction>)
    ensures
        plan_view(r@) == net_libs_seq(*flags),
{
    let mut r: Vec<LinkInstruction> = Vec::new();
    if flags.network {
        r.push(LinkInstruction::StaticLib(LibName::Kcp));
    }
    proof {
        assert(plan_view(r@) =~= net_libs_seq(*flags));
    }
    r
}

fn brotli_vec(flags: &FeatureSet) -> (r: Vec<LinkInstruction>)
    ensures
        plan_view(r@) == brotli_libs_seq(*flags),
{
    let mut r: Vec<LinkInstruction> = Vec::new();
    if flags.brotli {
        r.push(LinkInstruction::StaticLib(LibName::Brotlicommon));
        r.push(LinkInstruction::StaticLib(LibName::Brotlidec));
        r.push(LinkInstruction::StaticLib(LibName::Brotlienc));
    }
    proof {
        assert(plan_view(r@) =~= brotli_libs_seq(*flags));
    }
    r
}

fn snappy_vec(flags: &FeatureSet) -> (r: Vec<LinkInstruction>)
    ensures
        plan_view(r@) == snappy_libs_seq(*flags),
{
    let mut r: Vec<LinkInstruction> = Vec::new();
    if flags.snappy {
        r.push(LinkInstruction::StaticLib(LibName::Snappy));
    }
    proof {
        assert(plan_view(r@) =~= snappy_libs_seq(*flags));
    }
    r
}

fn storage_vec(flags: &FeatureSet) -> (r: Vec<LinkInstruction>)
    ensures
        plan_view(r@) == storage_libs_seq(*flags),
{
    let mut r: Vec<LinkInstruction> = Vec::new();
    if flags.sqlite {
        r.push(LinkInstruction::StaticLib(LibName::SqliteStatic));
        r.push(LinkInstruction::StaticLib(LibName::SqliteVec));
        r.push(LinkInstruction::StaticLib(LibName::CrsqlBundle));
    }
    proof {
        assert(plan_view(r@) =~= storage_libs_seq(*flags));
    }
    r
}

fn audio_vec(flags: &FeatureSet) -> (r: Vec<LinkInstruction>)
    ensures
        plan_view(r@) == audio_libs_seq(*flags),
{
    let mut r: Vec<LinkInstruction> = Vec::new();
    if flags.audio {
        r.push(LinkInstruction::StaticLib(LibName::Opus));
        r.push(LinkInstruction::StaticLib(LibName::KissfftFloat));
    }
    proof {
        assert(plan_view(r@) =~= audio_libs_seq(*flags));
    }
    r
}

fn imaging_vec(flags: &FeatureSet) -> (r: Vec<LinkInstruction>)
    ensures
        plan_view(r@) == imaging_libs_seq(*flags),
{
    let mut r: Vec<LinkInstruction> = Vec::new();
    if flags.imaging {
        r.push(LinkInstruction::StaticLib(LibName::Jpeg));
    }
    proof {
        assert(plan_view(r@) =~= imaging_libs_seq(*flags));
    }
    r
}

fn feature_libs_vec(flags: &FeatureSet) -> (r: Vec<LinkInstruction>)
    ensures
        plan_view(r@) == seg_feature_libs(*flags),
{
    let mut r = net_vec(flags);
    let mut brotli = brotli_vec(flags);
    let mut snappy = snappy_vec(flags);
    let mut storage = storage_vec(flags);
    let mut audio = audio_vec(flags);
    let mut imaging = imaging_vec(flags);
    proof {
        lemma_plan_view_add(r@, brotli@);
        lemma_plan_view_add(r@ + brotli@, snappy@);
        lemma_plan_view_add(r@ + brotli@ + snappy@, storage@);
        lemma_plan_view_add(r@ + brotli@ + snappy@ + storage@, audio@);
        lemma_plan_view_add(r@ + brotli@ + snappy@ + storage@ + audio@, imaging@);
    }
    r.append(&mut brotli);
    r.append(&mut snappy);
    r.append(&mut storage);
    r.append(&mut audio);
    r.append(&mut imaging);
    r
}

#[verifier::rlimit(60)]
fn platform_tail_vec(platform: &Platform) -> (r: Vec<LinkInstruction>)
    ensures
        plan_view(r@) == seg_platform_tail(*platform),
{
    let mut r: Vec<LinkInstruction> = Vec::new();
    if platform.vendor_apple {
        r.push(LinkInstruction::StaticLib(LibName::ShardsCoreSwiftImpl));
        r.push(LinkInstruction::SystemLib(SysLib::Cpp));
        r.push(LinkInstruction::Framework(AppleFramework::Foundation));
        r.push(LinkInstruction::Framework(AppleFramework::CoreFoundation));
        r.push(LinkInstruction::Framework(AppleFramework::Security));
        r.push(LinkInstruction::Framework(AppleFramework::CoreAudio));
        r.push(LinkInstruction::Framework(AppleFramework::CoreVideo));
        r.push(LinkInstruction::Framework(AppleFramework::QuartzCore));
        r.push(LinkInstruction::Framework(AppleFramework::Accelerate));
        r.push(LinkInstruction::SystemLib(SysLib::Iconv));
        if !matches!(platform.os, TargetOs::Watchos) {
            r.push(LinkInstruction::Framework(AppleFramework::AudioToolbox));
            r.push(LinkInstruction::Framework(AppleFramework::IoKit));
            r.push(LinkInstruction::Framework(AppleFramework::Metal));
            r.push(LinkInstruction::Framework(AppleFramework::MetalKit));
            r.push(LinkInstruction::Framework(AppleFramework::MetalPerformanceShaders));
            r.push(LinkInstruction::Framework(AppleFramework::CoreHaptics));
            r.push(LinkInstruction::Framework(AppleFramework::GameController));
            r.push(LinkInstruction::Framework(AppleFramework::SystemConfiguration));
        }
        r.push(LinkInstruction::Framework(AppleFramework::AvFoundation));
        r.push(LinkInstruction::Framework(AppleFramework::CoreMedia));
        if platform.is_mobile() {
            r.push(LinkInstruction::Framework(AppleFramework::CoreGraphics));
            r.push(LinkInstruction::Framework(AppleFramework::UiKit));
            r.push(LinkInstruction::Framework(AppleFramework::CoreMotion));
        } else {
            r.push(LinkInstruction::Framework(AppleFramework::Cocoa));
            r.push(LinkInstruction::Framework(AppleFramework::Carbon));
            r.push(LinkInstruction::Framework(AppleFramework::ForceFeedback));
            r.push(LinkInstruction::Framework(AppleFramework::CoreServices));
        }
        r.push(LinkInstruction::RawArg(LinkerArg::Xlinker));
        r.push(LinkInstruction::RawArg(LinkerArg::Rpath));
        r.push(LinkInstruction::RawArg(LinkerArg::Xlinker));
        r.push(LinkInstruction::RawArg(LinkerArg::SwiftRuntimePath));
        proof {
            assert(plan_view(r@) =~= seg_apple(*platform));
        }
    } else if matches!(platform.os, TargetOs::Linux) {
        r.push(LinkInstruction::SystemLib(SysLib::StdCpp));
        r.push(LinkInstruction::SystemLib(SysLib::Pthread));
        r.push(LinkInstruction::SystemLib(SysLib::Dl));
        r.push(LinkInstruction::SystemLib(SysLib::Bfd));
        proof {
            assert(plan_view(r@) =~= seg_platform_tail(*platform));
        }
    } else if matches!(platform.os, TargetOs::Windows) {
        r.push(LinkInstruction::SystemLib(SysLib::User32));
        r.push(LinkInstruction::SystemLib(SysLib::Shell32));
        r.push(LinkInstruction::SystemLib(SysLib::Ole32));
        r.push(LinkInstruction::SystemLib(SysLib::LegacyStdioDefinitions));
        proof {
            assert(plan_view(r@) =~= seg_platform_tail(*platform));
        }
    } else {
        proof {
            assert(plan_view(r@) =~= seg_platform_tail(*platform));
        }
    }
    r
}

/// Emit the whole link plan for one build, exactly [`spec_link_plan`]:
/// every discovered search path first, then the union, then the
/// remaining static libraries, then the platform tail.
pub fn plan_links(
    platform: &Platform,
    profile: Profile,
    flags: &FeatureSet,
    tbb_dirs: &Vec<String>,
    kissfft_present: bool,
    mozjpeg_present: bool,
    rust_target_present: bool,
) -> (r: Vec<LinkInstruction>)
    ensures
        plan_view(r@) == spec_link_plan(
            *platform,
            profile,
            *flags,
            tbb_dirs@.map_values(|s: String| s@),
            kissfft_present,
            mozjpeg_present,
            rust_target_present,
        ),
{
    let mut r = search_vec(tbb_dirs, flags, kissfft_present, mozjpeg_present, rust_target_present);
    let mut first_party = first_party_vec();
    let mut boost = boost_vec(platform, profile);
    let mut third_party = third_party_vec(platform, profile);
    let mut feature_libs = feature_libs_vec(flags);
    let mut tail = platform_tail_vec(platform);
    proof {
        lemma_plan_view_add(r@, first_party@);
        lemma_plan_view_add(r@ + first_party@, boost@);
        lemma_plan_view_add(r@ + first_party@ + boost@, third_party@);
        lemma_plan_view_add(r@ + first_party@ + boost@ + third_party@, feature_libs@);
        lemma_plan_view_add(
            r@ + first_party@ + boost@ + third_party@ + feature_libs@,
            tail@,
        );
    }
    r.append(&mut first_party);
    r.append(&mut boost);
    r.append(&mut third_party);
    r.append(&mut feature_libs);
    r.append(&mut tail);
    r
}

/// Every directive of the search segment is a search path.
proof fn lemma_discovered_only_search(dirs: Seq<Seq<char>>)
    ensures
        forall|i: int|
            0 <= i < discovered_search_seq(dirs).len() ==> (#[trigger] discovered_search_seq(
                dirs,
            )[i]) is SearchPath,
    decreases dirs.len(),
{
    if dirs.len() > 0 {
        lemma_discovered_only_search(dirs.drop_last());
    }
}

/// The element the discovered segment holds for each found directory.
proof fn lemma_discovered_index(dirs: Seq<Seq<char>>, t: int)
    requires
        0 <= t < dirs.len(),
    ensures
        discovered_search_seq(dirs).len() == dirs.len(),
        discovered_search_seq(dirs)[t] == Directive::SearchPath(
            SearchLocView::Discovered(dirs[t]),
        ),
    decreases dirs.len(),
{
    if t < dirs.len() - 1 {
        lemma_discovered_index(dirs.drop_last(), t);
        assert(dirs.drop_last()[t] == dirs[t]);
    } else {
        if dirs.len() > 1 {
            lemma_discovered_index(dirs.drop_last(), 0);
        } else {
            assert(discovered_search_seq(dirs.drop_last()).len() == 0);
        }
    }
}

/// Every directive of the whole search segment is a search path.
proof fn lemma_seg_search_only_search(
    tbb_dirs: Seq<Seq<char>>,
    flags: FeatureSet,
    kissfft_present: bool,
    mozjpeg_present: bool,
    rust_target_present: bool,
)
    ensures
        forall|i: int|
            0 <= i < seg_search(
                tbb_dirs,
                flags,
                kissfft_present,
                mozjpeg_present,
                rust_target_present,
            ).len() ==> (#[trigger] seg_search(
                tbb_dirs,
                flags,
                kissfft_present,
                mozjpeg_present,
                rust_target_present,
            )[i]) is SearchPath,
{
    lemma_discovered_only_search(tbb_dirs);
}

/// Every directive of the middle segments is a static library.
proof fn lemma_middle_only_static(platform: Platform, profile: Profile, flags: FeatureSet)
    ensures
        forall|i: int|
            0 <= i < seg_first_party().len() ==> (#[trigger] seg_first_party()[i]) is StaticLib,
        forall|i: int|
            0 <= i < seg_boost(platform, profile).len() ==> (#[trigger] seg_boost(
                platform,
                profile,
            )[i]) is StaticLib,
        forall|i: int|
            0 <= i < seg_third_party(platform, profile).len() ==> (#[trigger] seg_third_party(
                platform,
                profile,
            )[i]) is StaticLib,
        forall|i: int|
            0 <= i < seg_feature_libs(flags).len() ==> (#[trigger] seg_feature_libs(
                flags,
            )[i]) is StaticLib,
{
}

/// A directive that links a static library other than the union.
pub open spec fn is_non_union_static(d: Directive) -> bool {
    d matches Directive::StaticLib(l) && l != LibName::ShardsCppUnion
}

/// The union's directive precedes every other static-library directive
/// of the plan.
pub open spec fn union_precedes_in(plan: Seq<Directive>) -> bool {
    forall|j: int|
        0 <= j < plan.len() && is_non_union_static(#[trigger] plan[j]) ==> exists|i: int|
            0 <= i < j && plan[i] == Directive::StaticLib(LibName::ShardsCppUnion)
}

/// Law: the union comes first.  In every plan, for every platform
/// descriptor, profile, flag set, and set of discovered directories, the
/// directive linking the top-level union static library precedes every
/// directive linking any other static library.
pub proof fn lemma_union_precedes_static_libs(
    platform: Platform,
    profile: Profile,
    flags: FeatureSet,
    tbb_dirs: Seq<Seq<char>>,
    kissfft_present: bool,
    mozjpeg_present: bool,
    rust_target_present: bool,
)
    ensures
        union_precedes_in(
            spec_link_plan(
                platform,
                profile,
                flags,
                tbb_dirs,
                kissfft_present,
                mozjpeg_present,
                rust_target_present,
            ),
        ),
{
    let plan = spec_link_plan(
        platform,
        profile,
        flags,
        tbb_dirs,
        kissfft_present,
        mozjpeg_present,
        rust_target_present,
    );
    let search = seg_search(tbb_dirs, flags, kissfft_present, mozjpeg_present, rust_target_present);
    let u = search.len() as int;
    lemma_seg_search_only_search(tbb_dirs, flags, kissfft_present, mozjpeg_present,
        rust_target_present);
    assert(plan[u] == Directive::StaticLib(LibName::ShardsCppUnion));
    assert forall|j: int|
        0 <= j < plan.len() && is_non_union_static(#[trigger] plan[j]) implies exists|i: int|
        0 <= i < j && plan[i] == Directive::StaticLib(LibName::ShardsCppUnion) by {
        if j < u {
            assert(plan[j] == search[j]);
            assert(false);
        } else if j == u {
            assert(false);
        } else {
            assert(0 <= u < j && plan[u] == Directive::StaticLib(LibName::ShardsCppUnion));
        }
    }
}

/// Law: a discovered thread-building-blocks directory is searched, and
/// the corresponding link directive is still emitted.  For every found
/// directory name the plan holds its search-path directive, and the plan
/// always holds the platform- and profile-selected
/// thread-building-blocks static library.
pub proof fn lemma_tbb_directives_present(
    platform: Platform,
    profile: Profile,
    flags: FeatureSet,
    tbb_dirs: Seq<Seq<char>>,
    kissfft_present: bool,
    mozjpeg_present: bool,
    rust_target_present: bool,
    t: int,
)
    requires
        0 <= t < tbb_dirs.len(),
    ensures
        spec_link_plan(
            platform,
            profile,
            flags,
            tbb_dirs,
            kissfft_present,
            mozjpeg_present,
            rust_target_present,
        )[2 + t] == Directive::SearchPath(SearchLocView::Discovered(tbb_dirs[t])),
        spec_link_plan(
            platform,
            profile,
            flags,
            tbb_dirs,
            kissfft_present,
            mozjpeg_present,
            rust_target_present,
        ).contains(Directive::StaticLib(spec_tbb_lib(platform.os, profile))),
{
    let plan = spec_link_plan(
        platform,
        profile,
        flags,
        tbb_dirs,
        kissfft_present,
        mozjpeg_present,
        rust_target_present,
    );
    let search = seg_search(tbb_dirs, flags, kissfft_present, mozjpeg_present, rust_target_present);
    let u = search.len() as int;
    lemma_discovered_index(tbb_dirs, t);
    assert(search[2 + t] == Directive::SearchPath(SearchLocView::Discovered(tbb_dirs[t])));
    assert(plan[2 + t] == search[2 + t]);
    assert(plan[u + 14] == Directive::StaticLib(spec_tbb_lib(platform.os, profile)));
}

/// A concatenation holds an element exactly when one of its halves does.
proof fn lemma_concat_contains(a: Seq<Directive>, b: Seq<Directive>, x: Directive)
    ensures
        (a + b).contains(x) <==> a.contains(x) || b.contains(x),
{
    if (a + b).contains(x) {
        let k = choose|k: int| 0 <= k < (a + b).len() && (a + b)[k] == x;
        if k < a.len() {
            assert(a[k] == x);
        } else {
            assert(b[k - a.len()] == x);
        }
    }
    if a.contains(x) {
        let k = choose|k: int| 0 <= k < a.len() && a[k] == x;
        assert((a + b)[k] == x);
    }
    if b.contains(x) {
        let k = choose|k: int| 0 <= k < b.len() && b[k] == x;
        assert((a + b)[a.len() + k] == x);
    }
}

/// A framework directive can only come from the platform tail: the
/// segments before it hold search paths and static libraries alone.
proof fn lemma_frameworks_only_in_tail(
    platform: Platform,
    profile: Profile,
    flags: FeatureSet,
    tbb_dirs: Seq<Seq<char>>,
    kissfft_present: bool,
    mozjpeg_present: bool,
    rust_target_present: bool,
    fw: AppleFramework,
)
    ensures
        spec_link_plan(
            platform,
            profile,
            flags,
            tbb_dirs,
            kissfft_present,
            mozjpeg_present,
            rust_target_present,
        ).contains(Directive::Framework(fw)) <==> seg_platform_tail(platform).contains(
            Directive::Framework(fw),
        ),
{
    let x = Directive::Framework(fw);
    let s1 = seg_search(tbb_dirs, flags, kissfft_present, mozjpeg_present, rust_target_present);
    let s2 = seg_first_party();
    let s3 = seg_boost(platform, profile);
    let s4 = seg_third_party(platform, profile);
    let s5 = seg_feature_libs(flags);
    let s6 = seg_platform_tail(platform);
    lemma_seg_search_only_search(tbb_dirs, flags, kissfft_present, mozjpeg_present,
        rust_target_present);
    lemma_middle_only_static(platform, profile, flags);
    assert(!s1.contains(x)) by {
        if s1.contains(x) {
            let k = choose|k: int| 0 <= k < s1.len() && s1[k] == x;
            assert(s1[k] is SearchPath);
        }
    }
    assert(!s2.contains(x)) by {
        if s2.contains(x) {
            let k = choose|k: int| 0 <= k < s2.len() && s2[k] == x;
            assert(s2[k] is StaticLib);
        }
    }
    assert(!s3.contains(x)) by {
        if s3.contains(x) {
            let k = choose|k: int| 0 <= k < s3.len() && s3[k] == x;
            assert(s3[k] is StaticLib);
        }
    }
    assert(!s4.contains(x)) by {
        if s4.contains(x) {
            let k = choose|k: int| 0 <= k < s4.len() && s4[k] == x;
            assert(s4[k] is StaticLib);
        }
    }
    assert(!s5.contains(x)) by {
        if s5.contains(x) {
            let k = choose|k: int| 0 <= k < s5.len() && s5[k] == x;
            assert(s5[k] is StaticLib);
        }
    }
    lemma_concat_contains(s1, s2, x);
    lemma_concat_contains(s1 + s2, s3, x);
    lemma_concat_contains(s1 + s2 + s3, s4, x);
    lemma_concat_contains(s1 + s2 + s3 + s4, s5, x);
    lemma_concat_contains(s1 + s2 + s3 + s4 + s5, s6, x);
}

/// Law: on the Apple mobile families other than the watch, the plan
/// takes the mobile windowing stack and the device-motion framework, and
/// leaves out every desktop-only framework.
#[verifier::rlimit(60)]
pub proof fn lemma_mobile_framework_selection(
    platform: Platform,
    profile: Profile,
    flags: FeatureSet,
    tbb_dirs: Seq<Seq<char>>,
    kissfft_present: bool,
    mozjpeg_present: bool,
    rust_target_present: bool,
)
    requires
        platform.vendor_apple,
        platform.os == TargetOs::Ios || platform.os == TargetOs::Visionos,
    ensures
        spec_link_plan(
            platform,
            profile,
            flags,
            tbb_dirs,
            kissfft_present,
            mozjpeg_present,
            rust_target_present,
        ).contains(Directive::Framework(AppleFramework::UiKit)),
        spec_link_plan(
            platform,
            profile,
            flags,
            tbb_dirs,
            kissfft_present,
            mozjpeg_present,
            rust_target_present,
        ).contains(Directive::Framework(AppleFramework::CoreMotion)),
        !spec_link_plan(
            platform,
            profile,
            flags,
            tbb_dirs,
            kissfft_present,
            mozjpeg_present,
            rust_target_present,
        ).contains(Directive::Framework(AppleFramework::Cocoa)),
        !spec_link_plan(
            platform,
            profile,
            flags,
            tbb_dirs,
            kissfft_present,
            mozjpeg_present,
            rust_target_present,
        ).contains(Directive::Framework(AppleFramework::Carbon)),
        !spec_link_plan(
            platform,
            profile,
            flags,
            tbb_dirs,
            kissfft_present,
            mozjpeg_present,
            rust_target_present,
        ).contains(Directive::Framework(AppleFramework::ForceFeedback)),
        !spec_link_plan(
            platform,
            profile,
            flags,
            tbb_dirs,
            kissfft_present,
            mozjpeg_present,
            rust_target_present,
        ).contains(Directive::Framework(AppleFramework::CoreServices)),
{
    let tail = seg_platform_tail(platform);
    lemma_frameworks_only_in_tail(platform, profile, flags, tbb_dirs, kissfft_present,
        mozjpeg_present, rust_target_present, AppleFramework::UiKit);
    lemma_frameworks_only_in_tail(platform, profile, flags, tbb_dirs, kissfft_present,
        mozjpeg_present, rust_target_present, AppleFramework::CoreMotion);
    lemma_frameworks_only_in_tail(platform, profile, flags, tbb_dirs, kissfft_present,
        mozjpeg_present, rust_target_present, AppleFramework::Cocoa);
    lemma_frameworks_only_in_tail(platform, profile, flags, tbb_dirs, kissfft_present,
        mozjpeg_present, rust_target_present, AppleFramework::Carbon);
    lemma_frameworks_only_in_tail(platform, profile, flags, tbb_dirs, kissfft_present,
        mozjpeg_present, rust_target_present, AppleFramework::ForceFeedback);
    lemma_frameworks_only_in_tail(platform, profile, flags, tbb_dirs, kissfft_present,
        mozjpeg_present, rust_target_present, AppleFramework::CoreServices);
    assert(tail[21] == Directive::Framework(AppleFramework::UiKit));
    assert(tail[22] == Directive::Framework(AppleFramework::CoreMotion));
    assert(!tail.contains(Directive::Framework(AppleFramework::Cocoa))) by {
        if tail.contains(Directive::Framework(AppleFramework::Cocoa)) {
            let k = choose|k: int|
                0 <= k < tail.len() && tail[k] == Directive::Framework(AppleFramework::Cocoa);
        }
    }
    assert(!tail.contains(Directive::Framework(AppleFramework::Carbon))) by {
        if tail.contains(Directive::Framework(AppleFramework::Carbon)) {
            let k = choose|k: int|
                0 <= k < tail.len() && tail[k] == Directive::Framework(AppleFramework::Carbon);
        }
    }
    assert(!tail.contains(Directive::Framework(AppleFramework::ForceFeedback))) by {
        if tail.contains(Directive::Framework(AppleFramework::ForceFeedback)) {
            let k = choose|k: int|
                0 <= k < tail.len() && tail[k] == Directive::Framework(
                    AppleFramework::ForceFeedback,
                );
        }
    }
    assert(!tail.contains(Directive::Framework(AppleFramework::CoreServices))) by {
        if tail.contains(Directive::Framework(AppleFramework::CoreServices)) {
            let k = choose|k: int|
                0 <= k < tail.len() && tail[k] == Directive::Framework(
                    AppleFramework::CoreServices,
                );
        }
    }
}

/// Law: on the constrained wearable family the hardware-facing
/// frameworks it lacks are left out, even though the general Apple
/// branch is taken.
#[verifier::rlimit(60)]
pub proof fn lemma_watch_framework_exclusion(
    platform: Platform,
    profile: Profile,
    flags: FeatureSet,
    tbb_dirs: Seq<Seq<char>>,
    kissfft_present: bool,
    mozjpeg_present: bool,
    rust_target_present: bool,
)
    requires
        platform.vendor_apple,
        platform.os == TargetOs::Watchos,
    ensures
        spec_link_plan(
            platform,
            profile,
            flags,
            tbb_dirs,
            kissfft_present,
            mozjpeg_present,
            rust_target_present,
        ).contains(Directive::Framework(AppleFramework::Foundation)),
        !spec_link_plan(
            platform,
            profile,
            flags,
            tbb_dirs,
            kissfft_present,
            mozjpeg_present,
            rust_target_present,
        ).contains(Directive::Framework(AppleFramework::AudioToolbox)),
        !spec_link_plan(
            platform,
            profile,
            flags,
            tbb_dirs,
            kissfft_present,
            mozjpeg_present,
            rust_target_present,
        ).contains(Directive::Framework(AppleFramework::CoreHaptics)),
{
    let tail = seg_platform_tail(platform);
    lemma_frameworks_only_in_tail(platform, profile, flags, tbb_dirs, kissfft_present,
        mozjpeg_present, rust_target_present, AppleFramework::Foundation);
    lemma_frameworks_only_in_tail(platform, profile, flags, tbb_dirs, kissfft_present,
        mozjpeg_present, rust_target_present, AppleFramework::AudioToolbox);
    lemma_frameworks_only_in_tail(platform, profile, flags, tbb_dirs, kissfft_present,
        mozjpeg_present, rust_target_present, AppleFramework::CoreHaptics);
    assert(tail[2] == Directive::Framework(AppleFramework::Foundation));
    assert(!tail.contains(Directive::Framework(AppleFramework::AudioToolbox))) by {
        if tail.contains(Directive::Framework(AppleFramework::AudioToolbox)) {
            let k = choose|k: int|
                0 <= k < tail.len() && tail[k] == Directive::Framework(
                    AppleFramework::AudioToolbox,
                );
        }
    }
    assert(!tail.contains(Directive::Framework(AppleFramework::CoreHaptics))) by {
        if tail.contains(Directive::Framework(AppleFramework::CoreHaptics)) {
            let k = choose|k: int|
                0 <= k < tail.len() && tail[k] == Directive::Framework(
                    AppleFramework::CoreHaptics,
                );
        }
    }
}

/// What each static library is called on the link line.
pub open spec fn spec_static_lib_text(l: LibName) -> Seq<char> {
    match l {
        LibName::ShardsCppUnion => "shards-cpp-union"@,
        LibName::ShardsCore => "shards-core"@,
        LibName::ShardsLogging => "shards-logging"@,
        LibName::ShardsFastString => "shards-fast-string"@,
        LibName::BoostFilesystem => "boost_filesystem"@,
        LibName::BoostContainer => "boost_container"@,
        LibName::BoostContext => "boost_context"@,
        LibName::BoostThread => "boost_thread"@,
        LibName::BoostAtomic => "boost_atomic"@,
        LibName::BoostChrono => "boost_chrono"@,
        LibName::BoostDateTime => "boost_date_time"@,
        LibName::BoostRandom => "boost_random"@,
        LibName::BoostStacktraceBasic => "boost_stacktrace_basic"@,
        LibName::BoostStacktraceWindbg => "boost_stacktrace_windbg"@,
        LibName::BoostStacktraceAddr2line => "boost_stacktrace_addr2line"@,
        LibName::Spdlog => "spdlog"@,
        LibName::Spdlogd => "spdlogd"@,
        LibName::Tbb => "tbb"@,
        LibName::TbbDebug => "tbb_debug"@,
        LibName::Tbb12 => "tbb12"@,
        LibName::Tbb12Debug => "tbb12_debug"@,
        LibName::Kcp => "kcp"@,
        LibName::Brotlicommon => "brotlicommon"@,
        LibName::Brotlidec => "brotlidec"@,
        LibName::Brotlienc => "brotlienc"@,
        LibName::Snappy => "snappy"@,
        LibName::SqliteStatic => "sqlite-static"@,
        LibName::SqliteVec => "sqlite-vec"@,
        LibName::CrsqlBundle => "crsql_bundle"@,
        LibName::Opus => "opus"@,
        LibName::KissfftFloat => "kissfft-float"@,
        LibName::Jpeg => "jpeg"@,
        LibName::ShardsCoreSwiftImpl => "shards-core-swift-impl"@,
    }
}

/// Executable twin of [`spec_static_lib_text`].
pub fn static_lib_text(l: LibName) -> (r: &'static str)
    ensures
        r@ == spec_static_lib_text(l),
{
    match l {
        LibName::ShardsCppUnion => "shards-cpp-union",
        LibName::ShardsCore => "shards-core",
        LibName::ShardsLogging => "shards-logging",
        LibName::ShardsFastString => "shards-fast-string",
        LibName::BoostFilesystem => "boost_filesystem",
        LibName::BoostContainer => "boost_container",
        LibName::BoostContext => "boost_context",
        LibName::BoostThread => "boost_thread",
        LibName::BoostAtomic => "boost_atomic",
        LibName::BoostChrono => "boost_chrono",
        LibName::BoostDateTime => "boost_date_time",
        LibName::BoostRandom => "boost_random",
        LibName::BoostStacktraceBasic => "boost_stacktrace_basic",
        LibName::BoostStacktraceWindbg => "boost_stacktrace_windbg",
        LibName::BoostStacktraceAddr2line => "boost_stacktrace_addr2line",
        LibName::Spdlog => "spdlog",
        LibName::Spdlogd => "spdlogd",
        LibName::Tbb => "tbb",
        LibName::TbbDebug => "tbb_debug",
        LibName::Tbb12 => "tbb12",
        LibName::Tbb12Debug => "tbb12_debug",
        LibName::Kcp => "kcp",
        LibName::Brotlicommon => "brotlicommon",
        LibName::Brotlidec => "brotlidec",
        LibName::Brotlienc => "brotlienc",
        LibName::Snappy => "snappy",
        LibName::SqliteStatic => "sqlite-static",
        LibName::SqliteVec => "sqlite-vec",
        LibName::CrsqlBundle => "crsql_bundle",
        LibName::Opus => "opus",
        LibName::KissfftFloat => "kissfft-float",
        LibName::Jpeg => "jpeg",
        LibName::ShardsCoreSwiftImpl => "shards-core-swift-impl",
    }
}

/// What each system library is called on the link line.
pub open spec fn spec_sys_lib_text(l: SysLib) -> Seq<char> {
    match l {
        SysLib::Cpp => "c++"@,
        SysLib::Iconv => "iconv"@,
        SysLib::StdCpp => "stdc++"@,
        SysLib::Pthread => "pthread"@,
        SysLib::Dl => "dl"@,
        SysLib::Bfd => "bfd"@,
        SysLib::User32 => "user32"@,
        SysLib::Shell32 => "shell32"@,
        SysLib::Ole32 => "ole32"@,
        SysLib::LegacyStdioDefinitions => "legacy_stdio_definitions"@,
    }
}

/// Executable twin of [`spec_sys_lib_text`].
pub fn sys_lib_text(l: SysLib) -> (r: &'static str)
    ensures
        r@ == spec_sys_lib_text(l),
{
    match l {
        SysLib::Cpp => "c++",
        SysLib::Iconv => "iconv",
        SysLib::StdCpp => "stdc++",
        SysLib::Pthread => "pthread",
        SysLib::Dl => "dl",
        SysLib::Bfd => "bfd",
        SysLib::User32 => "user32",
        SysLib::Shell32 => "shell32",
        SysLib::Ole32 => "ole32",
        SysLib::LegacyStdioDefinitions => "legacy_stdio_definitions",
    }
}

/// What each Apple framework is called.
pub open spec fn spec_framework_text(f: AppleFramework) -> Seq<char> {
    match f {
        AppleFramework::Foundation => "Foundation"@,
        AppleFramework::CoreFoundation => "CoreFoundation"@,
        AppleFramework::Security => "Security"@,
        AppleFramework::CoreAudio => "CoreAudio"@,
        AppleFramework::CoreVideo => "CoreVideo"@,
        AppleFramework::QuartzCore => "QuartzCore"@,
        AppleFramework::Accelerate => "Accelerate"@,
        AppleFramework::AudioToolbox => "AudioToolbox"@,
        AppleFramework::IoKit => "IOKit"@,
        AppleFramework::Metal => "Metal"@,
        AppleFramework::MetalKit => "MetalKit"@,
        AppleFramework::MetalPerformanceShaders => "MetalPerformanceShaders"@,
        AppleFramework::CoreHaptics => "CoreHaptics"@,
        AppleFramework::GameController => "GameController"@,
        AppleFramework::SystemConfiguration => "SystemConfiguration"@,
        AppleFramework::AvFoundation => "AVFoundation"@,
        AppleFramework::CoreMedia => "CoreMedia"@,
        AppleFramework::CoreGraphics => "CoreGraphics"@,
        AppleFramework::UiKit => "UIKit"@,
        AppleFramework::CoreMotion => "CoreMotion"@,
        AppleFramework::Cocoa => "Cocoa"@,
        AppleFramework::Carbon => "Carbon"@,
        AppleFramework::ForceFeedback => "ForceFeedback"@,
        AppleFramework::CoreServices => "CoreServices"@,
    }
}

/// Executable twin of [`spec_framework_text`].
pub fn framework_text(f: AppleFramework) -> (r: &'static str)
    ensures
        r@ == spec_framework_text(f),
{
    match f {
        AppleFramework::Foundation => "Foundation",
        AppleFramework::CoreFoundation => "CoreFoundation",
        AppleFramework::Security => "Security",
        AppleFramework::CoreAudio => "CoreAudio",
        AppleFramework::CoreVideo => "CoreVideo",
        AppleFramework::QuartzCore => "QuartzCore",
        AppleFramework::Accelerate => "Accelerate",
        AppleFramework::AudioToolbox => "AudioToolbox",
        AppleFramework::IoKit => "IOKit",
        AppleFramework::Metal => "Metal",
        AppleFramework::MetalKit => "MetalKit",
        AppleFramework::MetalPerformanceShaders => "MetalPerformanceShaders",
        AppleFramework::CoreHaptics => "CoreHaptics",
        AppleFramework::GameController => "GameController",
        AppleFramework::SystemConfiguration => "SystemConfiguration",
        AppleFramework::AvFoundation => "AVFoundation",
        AppleFramework::CoreMedia => "CoreMedia",
        AppleFramework::CoreGraphics => "CoreGraphics",
        AppleFramework::UiKit => "UIKit",
        AppleFramework::CoreMotion => "CoreMotion",
        AppleFramework::Cocoa => "Cocoa",
        AppleFramework::Carbon => "Carbon",
        AppleFramework::ForceFeedback => "ForceFeedback",
        AppleFramework::CoreServices => "CoreServices",
    }
}

/// What each raw linker argument is written as.
pub open spec fn spec_linker_arg_text(a: LinkerArg) -> Seq<char> {
    match a {
        LinkerArg::Xlinker => "-Xlinker"@,
        LinkerArg::Rpath => "-rpath"@,
        LinkerArg::SwiftRuntimePath => "/usr/lib/swift"@,
    }
}

/// Executable twin of [`spec_linker_arg_text`].
pub fn linker_arg_text(a: LinkerArg) -> (r: &'static str)
    ensures
        r@ == spec_linker_arg_text(a),
{
    match a {
        LinkerArg::Xlinker => "-Xlinker",
        LinkerArg::Rpath => "-rpath",
        LinkerArg::SwiftRuntimePath => "/usr/lib/swift",
    }
}

/// The fixed static libraries between the search paths and the
/// feature-gated ones, as one sequence.
pub open spec fn head_libs(platform: Platform, profile: Profile) -> Seq<Directive> {
    seg_first_party() + seg_boost(platform, profile) + seg_third_party(platform, profile)
}

/// The four static-library segments between the search paths and the
/// platform tail, as one sequence.
pub open spec fn middle_libs(platform: Platform, profile: Profile, flags: FeatureSet) -> Seq<
    Directive,
> {
    head_libs(platform, profile) + seg_feature_libs(flags)
}

/// The static libraries that only a feature flag brings in.
pub open spec fn is_feature_lib(l: LibName) -> bool {
    ||| l == LibName::Kcp
    ||| l == LibName::Brotlicommon
    ||| l == LibName::Brotlidec
    ||| l == LibName::Brotlienc
    ||| l == LibName::Snappy
    ||| l == LibName::SqliteStatic
    ||| l == LibName::SqliteVec
    ||| l == LibName::CrsqlBundle
    ||| l == LibName::Opus
    ||| l == LibName::KissfftFloat
    ||| l == LibName::Jpeg
}

/// A directive linking one of the fixed head's static libraries.
pub open spec fn is_fixed_head_lib(d: Directive) -> bool {
    d matches Directive::StaticLib(l) && !is_feature_lib(l) && l != LibName::ShardsCoreSwiftImpl
}

/// A directive linking a feature-gated static library.
pub open spec fn is_feature_lib_directive(d: Directive) -> bool {
    d matches Directive::StaticLib(l) && is_feature_lib(l)
}

/// The fixed head: pairwise distinct, and none of its libraries is
/// feature-gated or the Swift half of the core.
proof fn lemma_head_libs_distinct(platform: Platform, profile: Profile)
    ensures
        forall|i: int, j: int|
            0 <= i < j < head_libs(platform, profile).len() ==> head_libs(platform, profile)[i]
                != head_libs(platform, profile)[j],
        forall|i: int|
            0 <= i < head_libs(platform, profile).len() ==> is_fixed_head_lib(
                #[trigger] head_libs(platform, profile)[i],
            ),
{
}

/// Where a feature-gated library stands in the fixed emission order of
/// the feature groups; anything else ranks below them all.
pub open spec fn feature_lib_rank(d: Directive) -> int {
    match d {
        Directive::StaticLib(l) => match l {
            LibName::Kcp => 0,
            LibName::Brotlicommon => 1,
            LibName::Brotlidec => 2,
            LibName::Brotlienc => 3,
            LibName::Snappy => 4,
            LibName::SqliteStatic => 5,
            LibName::SqliteVec => 6,
            LibName::CrsqlBundle => 7,
            LibName::Opus => 8,
            LibName::KissfftFloat => 9,
            LibName::Jpeg => 10,
            _ => -1,
        },
        _ => -1,
    }
}

/// The feature-gated segment: pairwise distinct, and every element is a
/// feature-gated static library.
#[verifier::rlimit(100)]
proof fn lemma_feature_libs_distinct(flags: FeatureSet)
    ensures
        forall|i: int, j: int|
            0 <= i < j < seg_feature_libs(flags).len() ==> seg_feature_libs(flags)[i]
                != seg_feature_libs(flags)[j],
        forall|i: int|
            0 <= i < seg_feature_libs(flags).len() ==> is_feature_lib_directive(
                #[trigger] seg_feature_libs(flags)[i],
            ),
{
    let f = seg_feature_libs(flags);
    let g1 = net_libs_seq(flags);
    let g2 = brotli_libs_seq(flags);
    let g3 = snappy_libs_seq(flags);
    let g4 = storage_libs_seq(flags);
    let g5 = audio_libs_seq(flags);
    let g6 = imaging_libs_seq(flags);
    let o2 = g1.len() as int;
    let o3 = o2 + g2.len() as int;
    let o4 = o3 + g3.len() as int;
    let o5 = o4 + g4.len() as int;
    let o6 = o5 + g5.len() as int;
    assert(f.len() == o6 + g6.len());
    assert forall|i: int| 0 <= i < o2 implies f[i] == g1[i] by {}
    assert forall|i: int| o2 <= i < o3 implies f[i] == g2[i - o2] by {}
    assert forall|i: int| o3 <= i < o4 implies f[i] == g3[i - o3] by {}
    assert forall|i: int| o4 <= i < o5 implies f[i] == g4[i - o4] by {}
    assert forall|i: int| o5 <= i < o6 implies f[i] == g5[i - o5] by {}
    assert forall|i: int| o6 <= i < f.len() implies f[i] == g6[i - o6] by {}
    assert forall|i: int| 0 <= i < o2 implies feature_lib_rank(#[trigger] f[i]) == 0 by {}
    assert forall|i: int|
        o2 <= i < o3 implies 1 <= feature_lib_rank(#[trigger] f[i]) <= 3 && feature_lib_rank(f[i])
            == 1 + i - o2 by {}
    assert forall|i: int| o3 <= i < o4 implies feature_lib_rank(#[trigger] f[i]) == 4 by {}
    assert forall|i: int|
        o4 <= i < o5 implies 5 <= feature_lib_rank(#[trigger] f[i]) <= 7 && feature_lib_rank(f[i])
            == 5 + i - o4 by {}
    assert forall|i: int|
        o5 <= i < o6 implies 8 <= feature_lib_rank(#[trigger] f[i]) <= 9 && feature_lib_rank(f[i])
            == 8 + i - o5 by {}
    assert forall|i: int| o6 <= i < f.len() implies feature_lib_rank(#[trigger] f[i]) == 10 by {}
    assert forall|i: int, j: int| 0 <= i < j < f.len() implies f[i] != f[j] by {
        assert(feature_lib_rank(f[i]) < feature_lib_rank(f[j]));
    }
    assert forall|i: int| 0 <= i < f.len() implies is_feature_lib_directive(#[trigger] f[i]) by {
        assert(feature_lib_rank(f[i]) >= 0);
    }
}

/// The static-library middle of the plan: no element repeats, and the
/// Apple-only Swift half of the core is not among them.
proof fn lemma_middle_statics_distinct(platform: Platform, profile: Profile, flags: FeatureSet)
    ensures
        forall|i: int, j: int|
            0 <= i < j < middle_libs(platform, profile, flags).len() ==> middle_libs(
                platform,
                profile,
                flags,
            )[i] != middle_libs(platform, profile, flags)[j],
        forall|i: int|
            0 <= i < middle_libs(platform, profile, flags).len() ==> middle_libs(
                platform,
                profile,
                flags,
            )[i] != Directive::StaticLib(LibName::ShardsCoreSwiftImpl),
{
    let mid = middle_libs(platform, profile, flags);
    let h = head_libs(platform, profile);
    let f = seg_feature_libs(flags);
    let hl = h.len() as int;
    lemma_head_libs_distinct(platform, profile);
    lemma_feature_libs_distinct(flags);
    assert forall|i: int| 0 <= i < hl implies mid[i] == h[i] by {}
    assert forall|i: int| hl <= i < mid.len() implies mid[i] == f[i - hl] by {}
    assert forall|i: int, j: int| 0 <= i < j < mid.len() implies mid[i] != mid[j] by {
        if j < hl {
        } else if i >= hl {
        } else {
            assert(mid[i] == h[i]);
            assert(mid[j] == f[j - hl]);
        }
    }
}

/// In the platform tail only its head can be a static library.
proof fn lemma_tail_statics(platform: Platform)
    ensures
        forall|j: int|
            0 < j < seg_platform_tail(platform).len() ==> !((#[trigger] seg_platform_tail(
                platform,
            )[j]) is StaticLib),
{
}

/// Law: the link instruction for a given artifact is emitted at most
/// once.  Distinct positions of a plan never carry the same
/// static-library directive.
#[verifier::rlimit(100)]
pub proof fn lemma_static_lib_at_most_once(
    platform: Platform,
    profile: Profile,
    flags: FeatureSet,
    tbb_dirs: Seq<Seq<char>>,
    kissfft_present: bool,
    mozjpeg_present: bool,
    rust_target_present: bool,
)
    ensures
        forall|i: int, j: int|
            0 <= i < j < spec_link_plan(
                platform,
                profile,
                flags,
                tbb_dirs,
                kissfft_present,
                mozjpeg_present,
                rust_target_present,
            ).len() && (#[trigger] spec_link_plan(
                platform,
                profile,
                flags,
                tbb_dirs,
                kissfft_present,
                mozjpeg_present,
                rust_target_present,
            )[i]) is StaticLib ==> spec_link_plan(
                platform,
                profile,
                flags,
                tbb_dirs,
                kissfft_present,
                mozjpeg_present,
                rust_target_present,
            )[i] != (#[trigger] spec_link_plan(
                platform,
                profile,
                flags,
                tbb_dirs,
                kissfft_present,
                mozjpeg_present,
                rust_target_present,
            )[j]),
{
    let plan = spec_link_plan(
        platform,
        profile,
        flags,
        tbb_dirs,
        kissfft_present,
        mozjpeg_present,
        rust_target_present,
    );
    let search = seg_search(tbb_dirs, flags, kissfft_present, mozjpeg_present, rust_target_present);
    let mid = middle_libs(platform, profile, flags);
    let tail = seg_platform_tail(platform);
    let u = search.len() as int;
    let m = mid.len() as int;
    lemma_seg_search_only_search(tbb_dirs, flags, kissfft_present, mozjpeg_present,
        rust_target_present);
    lemma_middle_statics_distinct(platform, profile, flags);
    lemma_tail_statics(platform);
    assert(plan.len() == u + m + tail.len());
    assert forall|i: int| 0 <= i < u implies plan[i] == search[i] by {}
    assert forall|i: int| u <= i < u + m implies plan[i] == mid[i - u] by {}
    assert forall|i: int| u + m <= i < plan.len() implies plan[i] == tail[i - u - m] by {}
    assert forall|i: int, j: int|
        0 <= i < j < plan.len() && (#[trigger] plan[i]) is StaticLib implies plan[i] != (
    #[trigger] plan[j]) by {
        if i < u {
            assert(plan[i] == search[i]);
        } else if i < u + m {
            assert(plan[i] == mid[i - u]);
            if j < u + m {
                assert(plan[j] == mid[j - u]);
            } else {
                assert(plan[j] == tail[j - u - m]);
                if j - u - m == 0 {
                    if platform.vendor_apple {
                        assert(tail[0] == Directive::StaticLib(LibName::ShardsCoreSwiftImpl));
                    }
                } else {
                    assert(!(tail[j - u - m] is StaticLib));
                }
            }
        } else {
            assert(plan[i] == tail[i - u - m]);
            assert(plan[j] == tail[j - u - m]);
            assert(!(tail[j - u - m] is StaticLib));
            if i - u - m > 0 {
                assert(!(tail[i - u - m] is StaticLib));
            }
        }
    }
}

} // verus!
