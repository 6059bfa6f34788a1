use herdr_worktrees::path::{PathPart, WorktreePath};
use herdr_worktrees::prefix::{Platform, PrefixKind};

fn path(text: &str) -> WorktreePath {
    WorktreePath::from_text(Platform::Unix, text)
}

fn text(path: &WorktreePath) -> String {
    String::from_utf8(path.bytes.clone()).unwrap()
}

fn parent(of: &str) -> Option<String> {
    path(of).parent().map(|p| text(&p))
}

fn parts(of: &str) -> Vec<String> {
    path(of)
        .components()
        .into_iter()
        .map(|part| match part {
            PathPart::Prefix(_) => panic!("a prefix"),
            PathPart::Root => "/".to_string(),
            PathPart::Named(name) => String::from_utf8(name).unwrap(),
        })
        .collect()
}

const SAMPLES: [&str; 28] = [
    "", "/", "//", "///", ".", "./", "./.", "..", "../", "/.", "/..", "/./a", "a", "a/", "a//b",
    "a/./b", "a/b/.", "a/b/./", "./a", "./a/..", ".a", "a.", "/a", "//a", "/x//a/b", "/x/./a",
    "a/.b/", "/home/chef/hanson",
];

#[test]
fn components_agree_with_the_standard_library() {
    for sample in SAMPLES {
        let expected: Vec<String> = std::path::Path::new(sample)
            .components()
            .map(|c| c.as_os_str().to_str().unwrap().to_string())
            .collect();
        assert_eq!(parts(sample), expected, "{}", sample);
    }
}

#[test]
fn parents_agree_with_the_standard_library() {
    for sample in SAMPLES {
        let expected = std::path::Path::new(sample).parent().map(|p| p.to_str().unwrap().to_string());
        assert_eq!(parent(sample), expected, "{}", sample);
    }
}

#[test]
fn joins_agree_with_the_standard_library() {
    for base in SAMPLES {
        for child in SAMPLES {
            let expected = std::path::Path::new(base).join(child);
            assert_eq!(text(&path(base).join(child)), expected.to_str().unwrap(), "{} {}", base, child);
        }
    }
}

#[test]
fn equality_agrees_with_the_standard_library() {
    for a in SAMPLES {
        for b in SAMPLES {
            let expected = std::path::Path::new(a) == std::path::Path::new(b);
            assert_eq!(path(a).same_path(&path(b)), expected, "{} {}", a, b);
        }
    }
}

#[test]
fn last_names_agree_with_the_standard_library() {
    for a in SAMPLES {
        for name in ["a", "b", "hanson", ".b", "a."] {
            let expected = std::path::Path::new(a).ends_with(name);
            assert_eq!(path(a).ends_with(name), expected, "{} {}", a, name);
        }
    }
}

#[test]
fn path_values() {
    assert_eq!(parts("/x//a/./b/"), vec!["/", "x", "a", "b"]);
    assert_eq!(parent("/x//a/b"), Some("/x//a".to_string()));
    assert_eq!(parent("/"), None);
    assert_eq!(parent(""), None);
    assert_eq!(text(&path("/a").join("b/c")), "/a/b/c");
    assert_eq!(text(&path("/a").join("/b")), "/b");
    assert!(path("a//b/").same_path(&path("a/b")));
    assert!(!path("./a").same_path(&path("a")));
}

#[test]
fn parent_drops_the_last_component() {
    for sample in SAMPLES {
        if let Some(p) = path(sample).parent() {
            let mut expected = parts(sample);
            expected.pop();
            assert_eq!(parts(&text(&p)), expected);
        }
    }
}

#[test]
fn join_adds_components() {
    let joined = path("/a/").join("./b/../c");
    assert_eq!(text(&joined), "/a/./b/../c");
    assert_eq!(parts("/a/./b/../c"), vec!["/", "a", "b", "..", "c"]);
}

#[test]
fn bytes_that_are_no_text_are_kept() {
    let odd = WorktreePath { platform: Platform::Unix, bytes: vec![0x2f, 0xff, 0x2f, 0x61] };
    assert_eq!(odd.parent().unwrap().bytes, vec![0x2f, 0xff]);
    assert!(odd.same_path(&odd.clone()));
}

fn windows(text: &str) -> WorktreePath {
    WorktreePath::from_text(Platform::Windows, text)
}

fn windows_parent(of: &str) -> Option<String> {
    windows(of).parent().map(|p| text(&p))
}

fn windows_join(base: &str, child: &str) -> String {
    text(&windows(base).join(child))
}

fn prefix_kind(of: &str) -> Option<PrefixKind> {
    match windows(of).components().into_iter().next() {
        Some(PathPart::Prefix(prefix)) => Some(prefix.kind),
        _ => None,
    }
}

#[test]
fn windows_prefixes() {
    assert_eq!(prefix_kind(r"\\?\pictures\kittens"), Some(PrefixKind::Verbatim));
    assert_eq!(prefix_kind(r"\\?\UNC\server\share"), Some(PrefixKind::VerbatimUnc));
    assert_eq!(prefix_kind(r"\\?\c:\"), Some(PrefixKind::VerbatimDisk));
    assert_eq!(prefix_kind(r"\\.\BrainInterface"), Some(PrefixKind::DeviceNs));
    assert_eq!(prefix_kind(r"\\server\share"), Some(PrefixKind::Unc));
    assert_eq!(prefix_kind("//server/share"), Some(PrefixKind::Unc));
    assert_eq!(prefix_kind(r"C:\Users\Rust\Pictures\Ferris"), Some(PrefixKind::Disk));
    assert_eq!(prefix_kind("c:file"), Some(PrefixKind::Disk));
    assert_eq!(prefix_kind(r"\windows"), None);
    assert_eq!(prefix_kind(r"\\server"), None);
    assert_eq!(prefix_kind("/home/me"), None);
    assert_eq!(prefix_kind(""), None);
}

#[test]
fn windows_parents() {
    assert_eq!(windows_parent(r"C:\r\hanson"), Some(r"C:\r".to_string()));
    assert_eq!(windows_parent(r"C:\r\.\hanson\"), Some(r"C:\r".to_string()));
    assert_eq!(windows_parent(r"C:\r"), Some(r"C:\".to_string()));
    assert_eq!(windows_parent(r"C:\"), None);
    assert_eq!(windows_parent("C:r"), Some("C:".to_string()));
    assert_eq!(windows_parent("C:"), None);
    assert_eq!(windows_parent(r"\\server\share\a"), Some(r"\\server\share\".to_string()));
    assert_eq!(windows_parent(r"\\server\share"), None);
    assert_eq!(windows_parent(r"\\?\C:\a\b"), Some(r"\\?\C:\a".to_string()));
    assert_eq!(windows_parent(r"a/b\c"), Some("a/b".to_string()));
    assert_eq!(windows_parent("hanson"), Some("".to_string()));
}

#[test]
fn windows_joins() {
    assert_eq!(windows_join(r"C:\a", "b"), r"C:\a\b");
    assert_eq!(windows_join(r"C:\a\", "b"), r"C:\a\b");
    assert_eq!(windows_join("C:/a/", "b/c"), "C:/a/b/c");
    assert_eq!(windows_join("C:", "a"), "C:a");
    assert_eq!(windows_join(r"C:\a", r"\windows"), r"C:\windows");
    assert_eq!(windows_join(r"C:\a", "/windows"), "C:/windows");
    assert_eq!(windows_join(r"C:\a", r"D:\b"), r"D:\b");
    assert_eq!(windows_join(r"C:\a", "D:b"), "D:b");
    assert_eq!(windows_join(r"\\server\share", "a"), r"\\server\share\a");
    assert_eq!(windows_join("", "a"), "a");
    assert_eq!(windows_join("a", ""), r"a\");
}

#[test]
fn windows_joins_behind_verbatim_prefixes() {
    assert_eq!(windows_join(r"\\?\C:\a", "b"), r"\\?\C:\a\b");
    assert_eq!(windows_join(r"\\?\C:\a", r"..\b/./c"), r"\\?\C:\b\c");
    assert_eq!(windows_join(r"\\?\C:\a", r"\b"), r"\\?\C:\b");
    assert_eq!(windows_join(r"\\?\C:\a", r"..\..\..\b"), r"\\?\C:\b");
    assert_eq!(windows_join(r"\\?\C:", "b"), r"\\?\C:\b");
    assert_eq!(windows_join(r"\\?\UNC\server\share\a", "b"), r"\\?\UNC\server\share\a\b");
}

#[test]
fn windows_equality() {
    assert!(windows(r"C:\a").same_path(&windows("c:/a/")));
    assert!(!windows(r"C:\a").same_path(&windows("C:a")));
    assert!(!windows(r"C:\a").same_path(&windows(r"D:\a")));
    assert!(!windows(r"C:\a").same_path(&windows(r"C:\A")));
    assert!(!windows(r"C:\a").same_path(&windows(r"\\?\C:\a")));
    assert!(windows("//server/share/a").same_path(&windows(r"\\server\share\a")));
    assert!(windows(r"\\server\share").same_path(&windows(r"\\server\share\")));
    assert!(!windows(r"\\?\C:\a\.\b").same_path(&windows(r"\\?\C:\a\b")));
}

#[test]
fn windows_last_names() {
    assert!(windows(r"C:\r\hanson").ends_with("hanson"));
    assert!(windows("C:/r/hanson/").ends_with("hanson"));
    assert!(!windows(r"C:\r\Hanson").ends_with("hanson"));
    assert!(!path(r"C:\r\hanson").ends_with("hanson"));
}

#[test]
fn paths_are_shown_as_their_text() {
    assert_eq!(path("/a//\u{e4}\u{1f980}").show("other".to_string()), "/a//\u{e4}\u{1f980}");
    assert_eq!(windows(r"C:\a").show("other".to_string()), r"C:\a");
    assert_eq!(path("").show("other".to_string()), "");
    for bytes in [vec![0x61, 0xff], vec![0xed, 0xa0, 0x80], vec![0xc0, 0xaf], vec![0xe2, 0x82]] {
        let odd = WorktreePath { platform: Platform::Unix, bytes };
        assert_eq!(odd.show("other".to_string()), "other");
    }
}
