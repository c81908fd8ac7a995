use shards_embed::artifacts::{
    file_has_recognized_ext, kissfft_build_dir, locate_lib_dirs, mozjpeg_build_dir, scan_reports,
    tbb_patterns, FsEntry,
};

fn dir(name: &str, files: &[&str]) -> FsEntry {
    FsEntry {
        name: name.to_string(),
        is_dir: true,
        files: files.iter().map(|f| f.to_string()).collect(),
    }
}

fn file(name: &str) -> FsEntry {
    FsEntry {
        name: name.to_string(),
        is_dir: false,
        files: Vec::new(),
    }
}

#[test]
fn compiler_mode_specific_subdirectory_is_found() {
    let entries = vec![
        dir("lib", &["notes.txt"]),
        dir("compilerid_mode_64_debug", &["libtbb_debug.a"]),
        file("build.ninja"),
    ];
    let found = locate_lib_dirs(&entries, &tbb_patterns());
    assert_eq!(found, vec!["compilerid_mode_64_debug".to_string()]);
}

#[test]
fn every_matching_directory_is_added() {
    let entries = vec![
        dir("gnu_10.3_cxx11_64_release", &["libtbb.a"]),
        dir("msvc_19.29_cxx_64_md_debug", &["tbb12_debug.lib"]),
        dir("deps", &["README"]),
    ];
    let found = locate_lib_dirs(&entries, &tbb_patterns());
    assert_eq!(
        found,
        vec![
            "gnu_10.3_cxx11_64_release".to_string(),
            "msvc_19.29_cxx_64_md_debug".to_string()
        ]
    );
}

#[test]
fn plain_file_with_matching_name_is_not_a_directory() {
    let mut entry = file("libtbb.a");
    entry.files = vec!["libtbb.a".to_string()];
    let found = locate_lib_dirs(&vec![entry], &tbb_patterns());
    assert!(found.is_empty());
}

#[test]
fn no_match_yields_empty_search_set() {
    let entries = vec![dir("lib", &["libshards-core.a"])];
    let found = locate_lib_dirs(&entries, &tbb_patterns());
    assert!(found.is_empty());
}

#[test]
fn pattern_table_is_the_fixed_set() {
    let patterns = tbb_patterns();
    assert_eq!(
        patterns,
        vec![
            "libtbb.a",
            "libtbb_debug.a",
            "tbb.lib",
            "tbb_debug.lib",
            "tbb12.lib",
            "tbb12_debug.lib"
        ]
    );
}

#[test]
fn diagnostic_pass_lists_directories_and_their_libraries() {
    let entries = vec![
        dir("lib", &["libfoo.a", "notes.txt", "libbar.dylib"]),
        file("build.ninja"),
        dir("empty_dir", &[]),
        dir("win", &["foo.lib", "foo.pdb", "foo.so"]),
    ];
    let reports = scan_reports(&entries);
    assert_eq!(reports.len(), 3);
    assert_eq!(reports[0].directory, "lib");
    assert_eq!(reports[0].libraries, vec!["libfoo.a", "libbar.dylib"]);
    assert_eq!(reports[1].directory, "empty_dir");
    assert!(reports[1].libraries.is_empty());
    assert_eq!(reports[2].directory, "win");
    assert_eq!(reports[2].libraries, vec!["foo.lib", "foo.so"]);
}

#[test]
fn recognized_extensions_need_a_stem() {
    assert!(file_has_recognized_ext("libtbb.a"));
    assert!(file_has_recognized_ext("x.so"));
    assert!(file_has_recognized_ext("tbb12.lib"));
    assert!(file_has_recognized_ext("libc.dylib"));
    assert!(!file_has_recognized_ext(".a"));
    assert!(!file_has_recognized_ext("a"));
    assert!(!file_has_recognized_ext("archive.tar"));
    assert!(!file_has_recognized_ext("libtbb.a.txt"));
}

#[test]
fn nested_dependency_directories_render_exactly() {
    assert_eq!(kissfft_build_dir(), "deps/kissfft_a/src/kissfft_a-build");
    assert_eq!(mozjpeg_build_dir(), "deps/mozjpeg_a/src/mozjpeg_a-build");
}
