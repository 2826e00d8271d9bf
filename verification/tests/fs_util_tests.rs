use deno_bundler::fs_util::{
    canonicalize_path, get_hash_from_key, normalize_components, normalize_path, resolve_from_cwd,
    to_hash_path, try_to_hash_path, Component, ComponentKind,
};
use std::hash::{Hash, Hasher};
use std::path::{Path, PathBuf};

#[test]
fn test_normalize_path() {
    assert_eq!(PathBuf::from(normalize_path("a/../b")), PathBuf::from("b"));
    assert_eq!(PathBuf::from(normalize_path("a/./b/")), PathBuf::from("a/b/"));
    assert_eq!(PathBuf::from(normalize_path("a/./b/../c")), PathBuf::from("a/c"));
}

#[test]
fn normalize_path_gives_the_text_of_the_path() {
    assert_eq!(normalize_path("a/../b"), "b");
    assert_eq!(normalize_path("a/./b/"), "a/b");
    assert_eq!(normalize_path("/a/b/../../c"), "/c");
    assert_eq!(normalize_path("/.."), "/");
    assert_eq!(normalize_path("../a"), "a");
    assert_eq!(normalize_path("./a//b"), "a/b");
    assert_eq!(normalize_path(""), "");
    assert_eq!(normalize_path("a/.."), "");
}

#[test]
fn resolve_from_cwd_absolute() {
    let expected = Path::new("/a");
    assert_eq!(PathBuf::from(resolve_from_cwd("/a", "/somewhere/else")), expected);
}

#[test]
fn resolve_from_cwd_child() {
    let cwd = Path::new("/work/dir");
    assert_eq!(PathBuf::from(resolve_from_cwd("a", "/work/dir")), cwd.join("a"));
}

#[test]
fn resolve_from_cwd_dot() {
    let cwd = Path::new("/work/dir");
    assert_eq!(PathBuf::from(resolve_from_cwd(".", "/work/dir")), cwd);
}

#[test]
fn resolve_from_cwd_parent() {
    let cwd = Path::new("/work/dir");
    assert_eq!(PathBuf::from(resolve_from_cwd("a/..", "/work/dir")), cwd);
}

fn part(kind: ComponentKind, text: &str) -> Component {
    Component { kind, text: text.to_string() }
}

#[test]
fn parent_directory_stops_at_the_root() {
    let parts = vec![
        part(ComponentKind::RootDir, "/"),
        part(ComponentKind::ParentDir, ".."),
        part(ComponentKind::Normal, "a"),
        part(ComponentKind::CurDir, "."),
        part(ComponentKind::Normal, "b"),
        part(ComponentKind::ParentDir, ".."),
    ];
    assert_eq!(
        normalize_components(parts),
        vec![part(ComponentKind::RootDir, "/"), part(ComponentKind::Normal, "a")]
    );
    assert_eq!(normalize_components(vec![part(ComponentKind::ParentDir, "..")]), vec![]);
}

#[test]
fn canonical_path_loses_its_marker_on_windows_only() {
    assert_eq!(canonicalize_path("\\\\?\\C:\\a", true), "C:\\a");
    assert_eq!(canonicalize_path("\\\\?\\\\\\?\\C:\\a", true), "C:\\a");
    assert_eq!(canonicalize_path("\\\\?\\C:\\a", false), "\\\\?\\C:\\a");
    assert_eq!(canonicalize_path("/a/b", true), "/a/b");
    assert_eq!(canonicalize_path("\\\\?", true), "\\\\?");
    assert_eq!(canonicalize_path("", true), "");
}

#[test]
fn hash_of_a_key_is_lower_hex() {
    let hash = get_hash_from_key("foo");
    assert!(!hash.is_empty() && hash.len() <= 16);
    assert!(hash.chars().all(|c| c.is_ascii_digit() || ('a'..='f').contains(&c)));
    assert_eq!(hash, get_hash_from_key("foo"));
    assert_ne!(hash, get_hash_from_key("bar"));
    assert_ne!(get_hash_from_key(""), "0");
}

#[test]
fn hash_matches_the_default_hasher() {
    for key in ["foo", "", "https://deno.land/std@0.134.0/http/server.ts"] {
        let mut hasher = std::collections::hash_map::DefaultHasher::new();
        key.hash(&mut hasher);
        assert_eq!(get_hash_from_key(key), format!("{:x}", hasher.finish()));
    }
}

#[test]
fn hash_path_splits_the_hash() {
    let hash = get_hash_from_key("foo");
    assert!(hash.len() >= 4);
    let expected =
        Path::new("/tmp/store").join(format!("{}/{}/{}", &hash[..2], &hash[2..4], &hash[4..]));
    assert_eq!(PathBuf::from(to_hash_path("/tmp/store", "foo")), expected);
    assert_eq!(try_to_hash_path("/tmp/store", "foo"), Some(to_hash_path("/tmp/store", "foo")));
}
