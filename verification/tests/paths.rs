use std::path::{Path, PathBuf};

use autoloop_engine::paths::{self, FilePath, PathStyle};

fn text(path: &str) -> FilePath {
    FilePath::Text(path.into())
}

fn plain(path: FilePath) -> String {
    match path {
        FilePath::Text(text) => text,
        FilePath::Native(native) => panic!("not text: {native:?}"),
    }
}

fn absolute(path: &str) -> bool {
    paths::absolute(&PathStyle::native(), &text(path))
}

fn join(base: &str, path: &str) -> String {
    plain(paths::join(&PathStyle::native(), &text(base), path))
}

fn resolve(workspace: &str, p: &str) -> String {
    plain(paths::resolve(&PathStyle::native(), &text(workspace), p))
}

#[test]
fn relative_paths_go_below_the_workspace() {
    assert_eq!(resolve("/work", "preset"), "/work/preset");
    assert_eq!(resolve("/work/", "preset"), "/work/preset");
    assert_eq!(resolve("/work", "a/b.md"), "/work/a/b.md");
    assert_eq!(resolve("", "PROMPT.md"), "PROMPT.md");
    assert_eq!(resolve("/work", "../up"), "/work/../up");
}

#[test]
fn absolute_paths_are_kept() {
    assert_eq!(resolve("/work", "/etc/preset"), "/etc/preset");
    assert_eq!(resolve("", "/"), "/");
}

#[test]
fn resolving_twice_changes_nothing_under_an_absolute_workspace() {
    let once = resolve("/work", "preset");
    assert!(absolute(&once));
    assert_eq!(resolve("/work", &once), once);
}

#[test]
fn joining_agrees_with_the_standard_library() {
    let bases = ["", "/", "/w", "/w/", "w", "w/", "/ä/ö", "/w//", "."];
    let paths = ["", "a", "a/", "/a", "//a", "a/b", "./a", "../a", "ü", "."];
    for base in bases {
        for path in paths {
            let theirs = Path::new(base).join(path);
            assert_eq!(join(base, path), theirs.to_str().unwrap());
            assert_eq!(resolve(base, path), theirs.to_str().unwrap());
            assert_eq!(absolute(path), Path::new(path).is_absolute());
        }
    }
}

#[test]
fn a_program_has_one_path_style() {
    assert_eq!(PathStyle::native(), PathStyle::native());
}

#[test]
fn a_path_of_the_platform_is_joined_by_it() {
    let style = PathStyle::native();
    let native = |path: &str| FilePath::Native(PathBuf::from(path));
    for base in ["", "/", "/w", "/w/", "w", "w/"] {
        for path in ["", "a", "a/", "a/b", "../a"] {
            let theirs = Path::new(base).join(path);
            assert_eq!(paths::join(&style, &native(base), path), FilePath::Native(theirs));
        }
        assert_eq!(paths::absolute(&style, &native(base)), Path::new(base).is_absolute());
    }
    // What is absolute replaces it.
    assert_eq!(paths::resolve(&style, &native("/w"), "/etc"), text("/etc"));
}

#[test]
fn a_unicode_path_of_the_platform_is_text() {
    let path = PathBuf::from("/ä/ö");
    assert_eq!(FilePath::of(path.clone()), text("/ä/ö"));
    assert_eq!(FilePath::of(path.clone()).to_path_buf(), path);
    assert_eq!(FilePath::Native(path.clone()).to_path_buf(), path);
    assert_eq!(FilePath::Native(path).duplicate(), FilePath::Native("/ä/ö".into()));
}

#[test]
fn a_path_is_shown_as_its_text() {
    assert_eq!(text("/w/ü").display(), "/w/ü");
    assert_eq!(FilePath::Native("/w/ü".into()).display(), "/w/ü");
}

#[test]
fn what_is_resolved_under_an_absolute_workspace_is_absolute() {
    let style = PathStyle::native();
    for workspace in [text("/work"), FilePath::Native("/work".into())] {
        for path in ["", "a", "../a", "/etc", "//a", "a:b", "C:x"] {
            assert!(paths::absolute(&style, &paths::resolve(&style, &workspace, path)));
        }
    }
}
