use nu_plugin_sdkman::engine::env::{
    abandon_marker, at_or_under, clear_current_version, detect_platform, get_current_version, get_installed_versions,
    is_installed, is_local_env, local_sdkman_dir, marker_kind_of, overlay_dir, sdkman_dir,
    set_current_version, set_local_current_version, MarkerKind, Scope, Store,
};
use nu_plugin_sdkman::engine::layout::{
    candidate_current, candidate_dir, candidates_dir, file_name, join_path, parent_path,
    version_of_link_target, version_of_marker_text,
};
use nu_plugin_sdkman::engine::steps::{failure_of, FsStep};
use nu_plugin_sdkman::error::SdkError;

fn show(steps: &[FsStep]) -> Vec<String> {
    steps.iter().map(|s| format!("{:?}", s)).collect()
}

fn store_with(kind: MarkerKind, installs: &[(&str, &str)]) -> Store {
    let mut store = Store::new("/home/u/.sdkman", kind);
    for (c, v) in installs {
        store.record_installation(c, v);
    }
    store
}

#[test]
fn layout_paths() {
    assert_eq!(candidates_dir("/home/u/.sdkman"), "/home/u/.sdkman/candidates");
    assert_eq!(
        candidate_dir("/home/u/.sdkman", "java", "17.0.9-oracle"),
        "/home/u/.sdkman/candidates/java/17.0.9-oracle"
    );
    assert_eq!(
        candidate_current("/home/u/.sdkman", "java"),
        "/home/u/.sdkman/candidates/java/current"
    );
    assert_eq!(join_path("a", "b"), "a/b");
    assert_eq!(parent_path("/a/b/c"), Some("/a/b".to_string()));
    assert_eq!(parent_path("/a"), Some("".to_string()));
    assert_eq!(parent_path("a"), None);
    assert_eq!(file_name("/a/b/c.tar.gz"), "c.tar.gz");
    assert_eq!(file_name("plain"), "plain");
    assert_eq!(file_name("dir/"), "");
}

#[test]
fn store_root_resolution() {
    assert_eq!(sdkman_dir(Some("/tmp/x"), Some("/home/u")), Ok("/tmp/x".to_string()));
    assert_eq!(sdkman_dir(None, Some("/home/u")), Ok("/home/u/.sdkman".to_string()));
    assert_eq!(sdkman_dir(None, None), Err(SdkError::NoHomeDirectory));
    assert_eq!(overlay_dir("/work/project"), "/work/project/.sdkman");
}

#[test]
fn platform_tokens() {
    assert_eq!(detect_platform("linux", "x86_64"), Ok("linuxx64".to_string()));
    assert_eq!(detect_platform("linux", "aarch64"), Ok("linuxarm64".to_string()));
    assert_eq!(detect_platform("macos", "x86_64"), Ok("darwinx64".to_string()));
    assert_eq!(detect_platform("macos", "aarch64"), Ok("darwinarm64".to_string()));
    assert_eq!(detect_platform("windows", "x86_64"), Ok("windowsx64".to_string()));
    assert_eq!(detect_platform("windows", "aarch64"), Err(SdkError::UnsupportedPlatform));
    assert_eq!(detect_platform("freebsd", "x86_64"), Err(SdkError::UnsupportedPlatform));
    assert_eq!(detect_platform("", ""), Err(SdkError::UnsupportedPlatform));
    assert_eq!(marker_kind_of("windows"), MarkerKind::Directory);
    assert_eq!(marker_kind_of("linux"), MarkerKind::Symlink);
}

#[test]
fn never_installed_is_not_installed_and_not_current() {
    let mut store = store_with(MarkerKind::Symlink, &[("java", "17.0.9")]);
    assert!(!is_installed(&store, "java", "21.0.1"));
    assert!(!is_installed(&store, "gradle", "17.0.9"));
    // A marker that names a missing installation counts as no marker.
    store.record_marker(Scope::Global, "java", "21.0.1");
    assert_eq!(get_current_version(&store, "java", Scope::Global), None);
    assert_eq!(get_current_version(&store, "java", Scope::Local), None);
}

#[test]
fn test_set_and_get_current_version_unix() {
    let mut store = store_with(MarkerKind::Symlink, &[("java", "17.0.9")]);
    let steps = set_current_version(&mut store, "java", "17.0.9").unwrap();
    assert_eq!(
        show(&steps),
        vec![
            "CreateDirAll { path: \"/home/u/.sdkman/candidates/java\" }",
            "Symlink { target: \"/home/u/.sdkman/candidates/java/17.0.9\", link: \"/home/u/.sdkman/candidates/java/current\" }",
        ]
    );
    assert_eq!(get_current_version(&store, "java", Scope::Global), Some("17.0.9".to_string()));
    // What stands on disk reads back as the version.
    assert_eq!(
        version_of_link_target("/home/u/.sdkman/candidates/java/17.0.9"),
        Some("17.0.9".to_string())
    );
}

#[test]
fn test_set_and_get_current_version_windows() {
    let mut store = store_with(MarkerKind::Directory, &[("java", "17.0.9")]);
    let steps = set_current_version(&mut store, "java", "17.0.9").unwrap();
    assert_eq!(
        show(&steps),
        vec![
            "CreateDirAll { path: \"/home/u/.sdkman/candidates/java\" }",
            "CreateDirAll { path: \"/home/u/.sdkman/candidates/java/current\" }",
            "WriteFile { path: \"/home/u/.sdkman/candidates/java/current/.version\", content: \"17.0.9\" }",
        ]
    );
    assert_eq!(get_current_version(&store, "java", Scope::Global), Some("17.0.9".to_string()));
    assert_eq!(version_of_marker_text("17.0.9\n"), "17.0.9");
    assert_eq!(version_of_marker_text("  17.0.9  "), "17.0.9");
}

#[test]
fn test_get_current_version_not_set() {
    let store = store_with(MarkerKind::Symlink, &[("java", "17.0.9")]);
    assert_eq!(get_current_version(&store, "java", Scope::Global), None);
    assert_eq!(get_current_version(&store, "kotlin", Scope::Global), None);
}

#[test]
fn test_switch_versions() {
    for kind in [MarkerKind::Symlink, MarkerKind::Directory] {
        let mut store = store_with(kind, &[("java", "17.0.9"), ("java", "21.0.1")]);
        set_current_version(&mut store, "java", "17.0.9").unwrap();
        assert_eq!(get_current_version(&store, "java", Scope::Global), Some("17.0.9".to_string()));
        let steps = set_current_version(&mut store, "java", "21.0.1").unwrap();
        assert_eq!(get_current_version(&store, "java", Scope::Global), Some("21.0.1".to_string()));
        // The old marker is removed before the new one is made.
        let shown = show(&steps);
        assert_eq!(shown[0], "CreateDirAll { path: \"/home/u/.sdkman/candidates/java\" }");
        assert_eq!(shown[1], "RemoveAll { path: \"/home/u/.sdkman/candidates/java/current\" }");
        assert_eq!(store.marker("java", Scope::Global), Some(&"21.0.1".to_string()));
    }
}

#[test]
fn test_use_nonexistent_version() {
    let mut store = store_with(MarkerKind::Symlink, &[("testsdk", "1.0.0")]);
    set_current_version(&mut store, "testsdk", "1.0.0").unwrap();
    let result = set_current_version(&mut store, "testsdk", "99.99.99");
    assert_eq!(result.err(), Some(SdkError::NotInstalled));
    assert_eq!(get_current_version(&store, "testsdk", Scope::Global), Some("1.0.0".to_string()));

    let mut empty = Store::new("/r", MarkerKind::Symlink);
    assert_eq!(
        set_current_version(&mut empty, "testsdk", "99.99.99").err(),
        Some(SdkError::NotInstalled)
    );
    assert_eq!(get_current_version(&empty, "testsdk", Scope::Global), None);
}

#[test]
fn test_install_multiple_versions() {
    let store =
        store_with(MarkerKind::Symlink, &[("testsdk", "1.0.0"), ("java", "8"), ("testsdk", "2.0.0"), ("testsdk", "1.0.0")]);
    let versions = get_installed_versions(&store, "testsdk");
    assert_eq!(versions.len(), 2);
    assert!(versions.contains(&"1.0.0".to_string()));
    assert!(versions.contains(&"2.0.0".to_string()));
    assert_eq!(get_installed_versions(&store, "kotlin"), Vec::<String>::new());
}

#[test]
fn local_marker_points_at_global_installation() {
    let mut store = store_with(MarkerKind::Symlink, &[("java", "17.0.9")]);
    assert!(!is_local_env(&store));
    assert_eq!(local_sdkman_dir(&store), None);
    assert_eq!(
        set_local_current_version(&mut store, "java", "17.0.9").err(),
        Some(SdkError::NoLocalEnvironment)
    );
    store.set_overlay("/work/p/.sdkman");
    assert!(is_local_env(&store));
    assert_eq!(local_sdkman_dir(&store), Some("/work/p/.sdkman".to_string()));
    assert_eq!(
        set_local_current_version(&mut store, "java", "21").err(),
        Some(SdkError::NotInstalled)
    );
    let steps = set_local_current_version(&mut store, "java", "17.0.9").unwrap();
    assert_eq!(
        show(&steps),
        vec![
            "CreateDirAll { path: \"/work/p/.sdkman/candidates/java\" }",
            "Symlink { target: \"/home/u/.sdkman/candidates/java/17.0.9\", link: \"/work/p/.sdkman/candidates/java/current\" }",
        ]
    );
    assert_eq!(get_current_version(&store, "java", Scope::Local), Some("17.0.9".to_string()));
    assert_eq!(get_current_version(&store, "java", Scope::Global), None);
    assert!(is_installed(&store, "java", "17.0.9"));
}

#[test]
fn clear_removes_only_the_marker_of_its_scope() {
    let mut store = store_with(MarkerKind::Symlink, &[("java", "17.0.9")]);
    store.set_overlay("/work/p/.sdkman");
    set_current_version(&mut store, "java", "17.0.9").unwrap();
    set_local_current_version(&mut store, "java", "17.0.9").unwrap();
    let steps = clear_current_version(&mut store, "java", Scope::Local);
    assert_eq!(
        show(&steps),
        vec!["RemoveAll { path: \"/work/p/.sdkman/candidates/java/current\" }"]
    );
    assert_eq!(get_current_version(&store, "java", Scope::Local), None);
    assert_eq!(get_current_version(&store, "java", Scope::Global), Some("17.0.9".to_string()));
    assert!(is_installed(&store, "java", "17.0.9"));
    // Clearing again is a no-op.
    assert!(clear_current_version(&mut store, "java", Scope::Local).is_empty());
    let steps = clear_current_version(&mut store, "java", Scope::Global);
    assert_eq!(
        show(&steps),
        vec!["RemoveAll { path: \"/home/u/.sdkman/candidates/java/current\" }"]
    );
    assert_eq!(get_current_version(&store, "java", Scope::Global), None);
}

#[test]
fn link_target_reading() {
    assert_eq!(version_of_link_target("/a/b/1.0"), Some("1.0".to_string()));
    assert_eq!(version_of_link_target("1.0"), Some("1.0".to_string()));
    assert_eq!(version_of_link_target("/a/b/"), None);
    assert_eq!(version_of_link_target(""), None);
}

#[test]
fn failed_steps_map_to_errors() {
    assert_eq!(
        failure_of(&FsStep::Fetch { url: "u".to_string(), to: "t".to_string() }),
        SdkError::FetchError
    );
    assert_eq!(
        failure_of(&FsStep::Extract { archive: "a".to_string(), into: "i".to_string() }),
        SdkError::ExtractError
    );
    assert_eq!(failure_of(&FsStep::RemoveAll { path: "p".to_string() }), SdkError::IoError);
    assert_eq!(
        failure_of(&FsStep::Rename { from: "a".to_string(), to: "b".to_string() }),
        SdkError::IoError
    );
}

#[test]
fn directory_listing_gives_versions_but_for_the_marker() {
    let mut store = Store::new("/r", MarkerKind::Symlink);
    let listing = vec!["17.0.9".to_string(), "current".to_string(), "21.0.1".to_string()];
    store.record_versions("java", &listing);
    assert!(is_installed(&store, "java", "17.0.9"));
    assert!(is_installed(&store, "java", "21.0.1"));
    assert!(!is_installed(&store, "java", "current"));
    assert_eq!(get_installed_versions(&store, "java").len(), 2);
    store.record_versions("gradle", &Vec::new());
    assert!(get_installed_versions(&store, "gradle").is_empty());
}

#[test]
fn marker_name_is_never_an_installed_version() {
    let mut store = Store::new("/r", MarkerKind::Symlink);
    store.record_installation("java", "17");
    store.record_installation("java", "current");
    assert_eq!(get_installed_versions(&store, "java"), vec!["17".to_string()]);
    set_current_version(&mut store, "java", "17").unwrap();
    assert_eq!(get_installed_versions(&store, "java"), vec!["17".to_string()]);
}

#[test]
fn failed_marker_step_leaves_the_marker_absent() {
    for kind in [MarkerKind::Symlink, MarkerKind::Directory] {
        let mut store = store_with(kind, &[("java", "17"), ("java", "21")]);
        set_current_version(&mut store, "java", "17").unwrap();
        // The steps of this change are handed out; suppose the last fails.
        set_current_version(&mut store, "java", "21").unwrap();
        let steps = abandon_marker(&mut store, "java", Scope::Global);
        assert_eq!(
            show(&steps),
            vec!["RemoveAll { path: \"/home/u/.sdkman/candidates/java/current\" }"]
        );
        assert_eq!(get_current_version(&store, "java", Scope::Global), None);
        assert_eq!(store.marker("java", Scope::Global), None);
        assert!(abandon_marker(&mut store, "java", Scope::Local).is_empty());
    }
}

#[test]
fn overlay_in_the_store_is_no_overlay() {
    for dir in ["/home/u/.sdkman", "/home/u/.sdkman/x", "/home/u", "/home"] {
        let mut store = store_with(MarkerKind::Symlink, &[("java", "17")]);
        store.set_overlay(dir);
        let expected = dir == "/home" || dir == "/home/u";
        assert_eq!(is_local_env(&store), expected);
    }
    // Nor is a directory that holds the store among its candidates.
    for root in ["/o/candidates", "/o/candidates/java"] {
        let mut store = Store::new(root, MarkerKind::Symlink);
        store.set_overlay("/o");
        assert!(!is_local_env(&store));
    }
    // With no overlay every command acts on the store.
    let mut store = store_with(MarkerKind::Symlink, &[("java", "17")]);
    store.set_overlay("/home/u/.sdkman");
    assert_eq!(
        set_local_current_version(&mut store, "java", "17").err(),
        Some(SdkError::NoLocalEnvironment)
    );
    assert!(at_or_under("/a/b", "/a/b"));
    assert!(at_or_under("/a/b", "/a/b/c"));
    assert!(!at_or_under("/a/b", "/a/bc"));
    assert!(!at_or_under("/a/b", "/a"));
}
