//! The artifact locator: directory probing over an observed listing.
//!
//! The external build system does not publish a manifest of where its
//! artifacts land; several static libraries end up under compiler- and
//! mode-specific subdirectory names.  The locator therefore works on a
//! virtual listing of the build output directory — each immediate entry's
//! name, whether it is a directory, and the file names inside it — and
//! decides which subdirectories must be added to the linker search path.
//! Every matching directory is added, not just the first, so an
//! unpredictable enumeration order can never lose a search path.
//!
//! When nothing matches, a diagnostic pass lists every subdirectory and
//! every recognizable library file it holds; the driver emits those as
//! build-log warnings and carries on — the real failure signal is the
//! host linker's.

use vstd::prelude::*;

use crate::text::{has_suffix, str_eq, suffix_of};

verus! {

/// One immediate entry of the build output directory, as observed: its
/// name, whether it is a directory, and the file names directly inside
/// it (empty for anything but a directory).
pub struct FsEntry {
    pub name: String,
    pub is_dir: bool,
    pub files: Vec<String>,
}

/// Ghost image of an [`FsEntry`].
pub struct FsEntryView {
    pub name: Seq<char>,
    pub is_dir: bool,
    pub files: Seq<Seq<char>>,
}

impl View for FsEntry {
    type V = FsEntryView;

    open spec fn view(&self) -> FsEntryView {
        FsEntryView {
            name: self.name@,
            is_dir: self.is_dir,
            files: self.files@.map_values(|f: String| f@),
        }
    }
}

/// The ghost image of a whole listing.
pub open spec fn listing_view(entries: Seq<FsEntry>) -> Seq<FsEntryView> {
    entries.map_values(|e: FsEntry| e@)
}

/// Entry `e` holds a file named exactly `pat`.
pub open spec fn entry_has_file(e: FsEntryView, pat: Seq<char>) -> bool {
    exists|i: int| 0 <= i < e.files.len() && e.files[i] == pat
}

/// Entry `e` is a directory holding at least one of the pattern names.
pub open spec fn entry_matches(e: FsEntryView, pats: Seq<Seq<char>>) -> bool {
    e.is_dir && exists|p: int| 0 <= p < pats.len() && entry_has_file(e, pats[p])
}

/// The names of every matching directory of `es`, in listing order.
pub open spec fn matching_dir_names(es: Seq<FsEntryView>, pats: Seq<Seq<char>>) -> Seq<Seq<char>>
    decreases es.len(),
{
    if es.len() == 0 {
        Seq::<Seq<char>>::empty()
    } else {
        matching_dir_names(es.drop_last(), pats)
            + if entry_matches(es.last(), pats) {
                seq![es.last().name]
            } else {
                Seq::<Seq<char>>::empty()
            }
    }
}

/// The file names a thread-building-blocks library may be built under:
/// static archives and import libraries, plain and debug, plus the
/// versioned Windows names.
pub open spec fn spec_tbb_patterns() -> Seq<Seq<char>> {
    seq![
        "libtbb.a"@,
        "libtbb_debug.a"@,
        "tbb.lib"@,
        "tbb_debug.lib"@,
        "tbb12.lib"@,
        "tbb12_debug.lib"@,
    ]
}

/// Executable twin of [`spec_tbb_patterns`].
pub fn tbb_patterns() -> (r: Vec<&'static str>)
    ensures
        r@.map_values(|p: &'static str| p@) == spec_tbb_patterns(),
{
    let r: Vec<&'static str> = vec![
        "libtbb.a",
        "libtbb_debug.a",
        "tbb.lib",
        "tbb_debug.lib",
        "tbb12.lib",
        "tbb12_debug.lib",
    ];
    proof {
        assert(r@.map_values(|p: &'static str| p@) =~= spec_tbb_patterns());
    }
    r
}

/// Does this entry hold any of the pattern files?
fn entry_matches_any(e: &FsEntry, patterns: &Vec<&str>) -> (b: bool)
    ensures
        b == entry_matches(e@, patterns@.map_values(|p: &str| p@)),
{
    let ghost pats = patterns@.map_values(|p: &str| p@);
    if !e.is_dir {
        return false;
    }
    let mut p: usize = 0;
    while p < patterns.len()
        invariant
            p <= patterns.len(),
            e@.is_dir,
            pats == patterns@.map_values(|q: &str| q@),
            pats.len() == patterns@.len(),
            forall|p2: int| 0 <= p2 < p ==> !entry_has_file(e@, pats[p2]),
        decreases patterns.len() - p,
    {
        let mut f: usize = 0;
        while f < e.files.len()
            invariant
                e@.is_dir,
                p < patterns.len(),
                f <= e.files.len(),
                pats == patterns@.map_values(|q: &str| q@),
                pats.len() == patterns@.len(),
                e@.files.len() == e.files@.len(),
                forall|f2: int| 0 <= f2 < f ==> e@.files[f2] != pats[p as int],
            decreases e.files.len() - f,
        {
            if str_eq(e.files[f].as_str(), patterns[p]) {
                proof {
                    assert(e@.files[f as int] == pats[p as int]);
                    assert(entry_has_file(e@, pats[p as int]));
                }
                return true;
            }
            f = f + 1;
        }
        proof {
            assert(!entry_has_file(e@, pats[p as int]));
        }
        p = p + 1;
    }
    false
}

/// Scan the listing and return the name of every directory that holds
/// one of the pattern files — all of them, in listing order, so that no
/// enumeration order can drop a needed search path.
pub fn locate_lib_dirs(entries: &Vec<FsEntry>, patterns: &Vec<&str>) -> (r: Vec<String>)
    ensures
        r@.map_values(|s: String| s@) == matching_dir_names(
            listing_view(entries@),
            patterns@.map_values(|p: &str| p@),
        ),
{
    let ghost es = listing_view(entries@);
    let ghost pats = patterns@.map_values(|p: &str| p@);
    let mut r: Vec<String> = Vec::new();
    let mut i: usize = 0;
    while i < entries.len()
        invariant
            i <= entries.len(),
            es == listing_view(entries@),
            pats == patterns@.map_values(|p: &str| p@),
            es.len() == entries@.len(),
            r@.map_values(|s: String| s@) == matching_dir_names(es.take(i as int), pats),
        decreases entries.len() - i,
    {
        proof {
            assert(es.take(i + 1).drop_last() =~= es.take(i as int));
            assert(es.take(i + 1).last() == es[i as int]);
        }
        if entry_matches_any(&entries[i], patterns) {
            r.push(entries[i].name.clone());
            proof {
                assert(r@.map_values(|s: String| s@) =~= matching_dir_names(
                    es.take(i + 1),
                    pats,
                ));
            }
        } else {
            proof {
                assert(r@.map_values(|s: String| s@) =~= matching_dir_names(
                    es.take(i + 1),
                    pats,
                ));
            }
        }
        i = i + 1;
    }
    proof {
        assert(es.take(entries@.len() as int) =~= es);
    }
    r
}

/// Law: the locator never misses a matching directory.  Whatever order
/// the listing was enumerated in, every directory that holds one of the
/// pattern files appears among the returned search-path names.
pub proof fn lemma_matching_dirs_complete(es: Seq<FsEntryView>, pats: Seq<Seq<char>>, i: int)
    requires
        0 <= i < es.len(),
        entry_matches(es[i], pats),
    ensures
        matching_dir_names(es, pats).contains(es[i].name),
    decreases es.len(),
{
    let m = matching_dir_names(es, pats);
    let prefix = matching_dir_names(es.drop_last(), pats);
    if i == es.len() - 1 {
        assert(es.last() == es[i]);
        assert(m[prefix.len() as int] == es[i].name);
    } else {
        assert(es.drop_last()[i] == es[i]);
        lemma_matching_dirs_complete(es.drop_last(), pats, i);
        let k = choose|k: int| 0 <= k < prefix.len() && prefix[k] == es[i].name;
        assert(m[k] == es[i].name);
    }
}

/// The file suffixes recognized as libraries in the diagnostic pass.
pub open spec fn spec_lib_suffixes() -> Seq<Seq<char>> {
    seq![".lib"@, ".a"@, ".so"@, ".dylib"@]
}

/// The file name carries one of the recognized library suffixes, with at
/// least one character before the dot.
pub open spec fn has_recognized_ext(f: Seq<char>) -> bool {
    exists|s: int|
        0 <= s < spec_lib_suffixes().len() && suffix_of(f, #[trigger] spec_lib_suffixes()[s])
            && f.len() > spec_lib_suffixes()[s].len()
}

/// Executable twin of [`has_recognized_ext`].
pub fn file_has_recognized_ext(f: &str) -> (b: bool)
    ensures
        b == has_recognized_ext(f@),
{
    proof {
        reveal_strlit(".lib");
        reveal_strlit(".a");
        reveal_strlit(".so");
        reveal_strlit(".dylib");
    }
    let n = f.unicode_len();
    let r = (has_suffix(f, ".lib") && n > 4) || (has_suffix(f, ".a") && n > 2) || (has_suffix(
        f,
        ".so",
    ) && n > 3) || (has_suffix(f, ".dylib") && n > 6);
    proof {
        if r {
            assert(has_recognized_ext(f@)) by {
                if suffix_of(f@, ".lib"@) && f@.len() > 4 {
                    assert(suffix_of(f@, spec_lib_suffixes()[0]));
                } else if suffix_of(f@, ".a"@) && f@.len() > 2 {
                    assert(suffix_of(f@, spec_lib_suffixes()[1]));
                } else if suffix_of(f@, ".so"@) && f@.len() > 3 {
                    assert(suffix_of(f@, spec_lib_suffixes()[2]));
                } else {
                    assert(suffix_of(f@, spec_lib_suffixes()[3]));
                }
            }
        } else {
            assert(!has_recognized_ext(f@)) by {
                assert forall|s: int|
                    0 <= s < spec_lib_suffixes().len() implies !(suffix_of(
                    f@,
                    #[trigger] spec_lib_suffixes()[s],
                ) && f@.len() > spec_lib_suffixes()[s].len()) by {
                    if s == 0 {
                    } else if s == 1 {
                    } else if s == 2 {
                    } else {
                        assert(s == 3);
                    }
                }
            }
        }
    }
    r
}

/// The file names of `files` that look like libraries, in order.
pub open spec fn recognized_libs(files: Seq<Seq<char>>) -> Seq<Seq<char>>
    decreases files.len(),
{
    if files.len() == 0 {
        Seq::<Seq<char>>::empty()
    } else {
        recognized_libs(files.drop_last())
            + if has_recognized_ext(files.last()) {
                seq![files.last()]
            } else {
                Seq::<Seq<char>>::empty()
            }
    }
}

/// What the diagnostic pass says about one subdirectory: its name and
/// the library-looking files found inside it.
pub struct DirectoryReport {
    pub directory: String,
    pub libraries: Vec<String>,
}

/// Ghost image of a [`DirectoryReport`].
pub struct DirectoryReportView {
    pub directory: Seq<char>,
    pub libraries: Seq<Seq<char>>,
}

impl View for DirectoryReport {
    type V = DirectoryReportView;

    open spec fn view(&self) -> DirectoryReportView {
        DirectoryReportView {
            directory: self.directory@,
            libraries: self.libraries@.map_values(|f: String| f@),
        }
    }
}

/// The diagnostic report for a listing: one entry per subdirectory, each
/// with the library-looking files it holds.
pub open spec fn spec_scan_reports(es: Seq<FsEntryView>) -> Seq<DirectoryReportView>
    decreases es.len(),
{
    if es.len() == 0 {
        Seq::<DirectoryReportView>::empty()
    } else {
        spec_scan_reports(es.drop_last())
            + if es.last().is_dir {
                seq![
                    DirectoryReportView {
                        directory: es.last().name,
                        libraries: recognized_libs(es.last().files),
                    },
                ]
            } else {
                Seq::<DirectoryReportView>::empty()
            }
    }
}

/// The library-looking files of one directory, in order.
fn recognized_lib_files(files: &Vec<String>) -> (r: Vec<String>)
    ensures
        r@.map_values(|f: String| f@) == recognized_libs(files@.map_values(|f: String| f@)),
{
    let ghost fv = files@.map_values(|f: String| f@);
    let mut r: Vec<String> = Vec::new();
    let mut i: usize = 0;
    while i < files.len()
        invariant
            i <= files.len(),
            fv == files@.map_values(|f: String| f@),
            fv.len() == files@.len(),
            r@.map_values(|f: String| f@) == recognized_libs(fv.take(i as int)),
        decreases files.len() - i,
    {
        proof {
            assert(fv.take(i + 1).drop_last() =~= fv.take(i as int));
            assert(fv.take(i + 1).last() == fv[i as int]);
        }
        if file_has_recognized_ext(files[i].as_str()) {
            r.push(files[i].clone());
            proof {
                assert(r@.map_values(|f: String| f@) =~= recognized_libs(fv.take(i + 1)));
            }
        } else {
            proof {
                assert(r@.map_values(|f: String| f@) =~= recognized_libs(fv.take(i + 1)));
            }
        }
        i = i + 1;
    }
    proof {
        assert(fv.take(files@.len() as int) =~= fv);
    }
    r
}

/// The diagnostic second pass, run when an artifact was not found: list
/// every subdirectory of the build output directory together with every
/// recognizable library file it holds.  Never fatal — the driver prints
/// these as warnings and lets the host linker produce the real error.
pub fn scan_reports(entries: &Vec<FsEntry>) -> (r: Vec<DirectoryReport>)
    ensures
        r@.map_values(|d: DirectoryReport| d@) == spec_scan_reports(listing_view(entries@)),
{
    let ghost es = listing_view(entries@);
    let mut r: Vec<DirectoryReport> = Vec::new();
    let mut i: usize = 0;
    while i < entries.len()
        invariant
            i <= entries.len(),
            es == listing_view(entries@),
            es.len() == entries@.len(),
            r@.map_values(|d: DirectoryReport| d@) == spec_scan_reports(es.take(i as int)),
        decreases entries.len() - i,
    {
        proof {
            assert(es.take(i + 1).drop_last() =~= es.take(i as int));
            assert(es.take(i + 1).last() == es[i as int]);
        }
        if entries[i].is_dir {
            let report = DirectoryReport {
                directory: entries[i].name.clone(),
                libraries: recognized_lib_files(&entries[i].files),
            };
            r.push(report);
            proof {
                assert(r@.map_values(|d: DirectoryReport| d@) =~= spec_scan_reports(
                    es.take(i + 1),
                ));
            }
        } else {
            proof {
                assert(r@.map_values(|d: DirectoryReport| d@) =~= spec_scan_reports(
                    es.take(i + 1),
                ));
            }
        }
        i = i + 1;
    }
    proof {
        assert(es.take(entries@.len() as int) =~= es);
    }
    r
}

/// The nested build directory of the audio FFT dependency, relative to
/// the build output directory.
pub fn kissfft_build_dir() -> (r: &'static str)
    ensures
        r@ == "deps/kissfft_a/src/kissfft_a-build"@,
{
    "deps/kissfft_a/src/kissfft_a-build"
}

/// The nested build directory of the JPEG dependency, relative to the
/// build output directory.
pub fn mozjpeg_build_dir() -> (r: &'static str)
    ensures
        r@ == "deps/mozjpeg_a/src/mozjpeg_a-build"@,
{
    "deps/mozjpeg_a/src/mozjpeg_a-build"
}

} // verus!
