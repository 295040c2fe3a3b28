use nu_plugin_sdkman::commands::current::Current;
use nu_plugin_sdkman::commands::env::{
    activation_script, clear_declared, env_clear, env_init, env_install, env_load,
    install_declared, load_declared,
};
use nu_plugin_sdkman::commands::flush::{flush_dir, flush_file, Flush, FlushTarget};
use nu_plugin_sdkman::commands::outcome::{Param, ParamKind};
use nu_plugin_sdkman::commands::upgrade::{Upgrade, UpgradeAction};
use nu_plugin_sdkman::engine::install::{install_local, move_and_normalize, DirEntry};
use nu_plugin_sdkman::utils::archive::{plan_extraction, ArchiveEntry};
use nu_plugin_sdkman::commands::{
    Config, Home, Install, Ls, Offline, Rm, Sdk, Ug, Uninstall, Update, Use, Version, C, D, H, I, U, V,
};
use nu_plugin_sdkman::engine::env::{
    get_current_version, is_installed, set_current_version, set_local_current_version, MarkerKind,
    Scope, Store,
};
use nu_plugin_sdkman::engine::steps::FsStep;
use nu_plugin_sdkman::error::SdkError;
use nu_plugin_sdkman::utils::text_map::TextMap;
use nu_plugin_sdkman::SdkmanPlugin;

fn show(steps: &[FsStep]) -> Vec<String> {
    steps.iter().map(|s| format!("{:?}", s)).collect()
}

fn store_with(installs: &[(&str, &str)]) -> Store {
    let mut store = Store::new("/r", MarkerKind::Symlink);
    for (c, v) in installs {
        store.record_installation(c, v);
    }
    store
}

fn declared(pairs: &[(&str, &str)]) -> TextMap {
    let mut map = TextMap::new();
    for (k, v) in pairs {
        map.insert(k.to_string(), v.to_string());
    }
    map
}

#[test]
fn plugin_lists_its_commands() {
    let names = SdkmanPlugin.commands();
    assert_eq!(
        names,
        vec![
            "sdk", "sdk list", "sdk install", "sdk uninstall", "sdk use", "sdk current",
            "sdk upgrade", "sdk default", "sdk home", "sdk version", "sdk env", "sdk update",
            "sdk flush", "sdk config", "sdk offline", "sdk ls", "sdk i", "sdk rm", "sdk u",
            "sdk c", "sdk ug", "sdk d", "sdk h", "sdk v",
        ]
    );
}

#[test]
fn parameters_of_commands() {
    let shown = |ps: Vec<Param>| -> Vec<String> {
        ps.iter()
            .map(|p| format!("{:?} {} [{}] {:?}", p.kind, p.name, p.description, p.short))
            .collect()
    };
    assert_eq!(
        shown(Install.signature()),
        vec![
            "Required candidate [Candidate to install] None",
            "Optional version [Version to install (defaults to latest)] None",
            "Named local [Install from local archive path] Some('l')",
        ]
    );
    assert_eq!(
        shown(I.signature()),
        vec![
            "Required candidate [Candidate to install] None",
            "Optional version [Version to install] None",
        ]
    );
    assert_eq!(
        shown(Home.signature()),
        vec!["Required candidate [Candidate name] None", "Required version [Version] None"]
    );
    assert_eq!(
        shown(Ug.signature()),
        vec!["Optional candidate [Candidate to upgrade] None"]
    );
    assert!(Sdk.signature().is_empty());
    assert!(V.signature().is_empty());
    assert!(Update.signature().is_empty());
    assert_eq!(Offline.signature()[0].kind, ParamKind::Optional);
    assert_eq!(Offline.signature()[0].name, "mode");
}

#[test]
fn aliases_stand_for_their_commands() {
    assert_eq!(I.name(), "sdk i");
    assert_eq!(I.description(), "Alias for 'sdk install'");
    assert_eq!(I.command().name(), "sdk install");
    assert_eq!(Rm.command().name(), "sdk uninstall");
    assert_eq!(Ls.command().name(), "sdk list");
    assert_eq!(U.command().name(), "sdk use");
    assert_eq!(C.command().name(), "sdk current");
    assert_eq!(Ug.command().name(), "sdk upgrade");
    assert_eq!(D.command().name(), "sdk default");
    assert_eq!(H.command().name(), "sdk home");
    assert_eq!(V.command().name(), "sdk version");
    assert_eq!(V.description(), "Alias for 'sdk version'");
}

#[test]
fn help_names_every_command() {
    let help = Sdk.run();
    assert!(help.starts_with("SDKMAN! - The Software Development Kit Manager\n\nUsage: sdk <command> [args]\n"));
    assert!(help.ends_with("For more help: sdk <command> --help\n"));
    assert_eq!(Sdk.description(), "SDKMAN! - The Software Development Kit Manager");
}

#[test]
fn offline_modes() {
    let on = "Offline mode enabled (note: plugin doesn't persist this setting)";
    assert_eq!(Offline.run(None), Ok(on.to_string()));
    assert_eq!(Offline.run(Some("enable")), Ok(on.to_string()));
    assert_eq!(Offline.run(Some("disable")), Ok("Online mode re-enabled".to_string()));
    assert_eq!(Offline.run(Some("maybe")), Err(SdkError::UnknownArgument));
}

#[test]
fn version_update_and_config_messages() {
    assert_eq!(Version.run("0.1.0"), "SDKMAN! Nushell Plugin 0.1.0");
    assert_eq!(
        Update.run("java,gradle,maven"),
        "Candidate cache updated. 3 candidates available."
    );
    let many = vec!["x"; 120].join(",");
    assert_eq!(Update.run(&many), "Candidate cache updated. 120 candidates available.");
    assert_eq!(Update.run(""), "Candidate cache updated. 1 candidates available.");
    assert_eq!(Config.run("/r", None), ("vi".to_string(), "/r/etc/config".to_string()));
    assert_eq!(Config.run("/r", Some("nano")), ("nano".to_string(), "/r/etc/config".to_string()));
}

#[test]
fn home_of_installed_version() {
    let store = store_with(&[("java", "17")]);
    assert_eq!(Home.run(&store, "java", "17"), Ok("/r/candidates/java/17".to_string()));
    assert_eq!(Home.run(&store, "java", "21"), Err(SdkError::NotInstalled));
}

#[test]
fn install_decides_the_version() {
    let store = store_with(&[("java", "17")]);
    let cmd = Install;
    assert_eq!(cmd.run(&store, "java", Some("21"), "java,gradle", ""), Ok("21".to_string()));
    assert_eq!(cmd.run(&store, "java", None, "java,gradle", "21-tem,17"), Ok("21-tem".to_string()));
    assert_eq!(
        cmd.run(&store, "java", Some("17"), "java,gradle", ""),
        Err(SdkError::AlreadyInstalled)
    );
    assert_eq!(cmd.run(&store, "java", None, "java", "17,21"), Err(SdkError::AlreadyInstalled));
    assert_eq!(cmd.run(&store, "java", None, "java", ""), Err(SdkError::NoVersions));
    assert_eq!(cmd.run(&store, "scala", Some("3"), "java,gradle", "3"), Err(SdkError::UnknownCandidate));
}

#[test]
fn test_install_and_use_flow() {
    let mut store = store_with(&[]);
    let plan = install_local("/r", "/tmp", "testsdk", "1.0.0", "/fixtures/test.tar.gz", true).unwrap();
    // The archive holds one top-level directory with the payload in it.
    let entries = vec![
        ArchiveEntry { name: "test-sdk/".to_string(), is_dir: true },
        ArchiveEntry { name: "test-sdk/bin/".to_string(), is_dir: true },
        ArchiveEntry { name: "test-sdk/bin/test".to_string(), is_dir: false },
    ];
    let ops = plan_extraction(&plan.source, &entries);
    assert_eq!(
        format!("{:?}", ops.last().unwrap()),
        "WriteFile { entry: 2, path: \"/tmp/sdkman-local-testsdk-1.0.0/source/bin/test\" }"
    );
    let listing = vec![DirEntry { name: "bin".to_string(), is_dir: true }];
    let steps = move_and_normalize(&plan.source, &plan.destination, &listing, false);
    assert_eq!(
        format!("{:?}", steps.last().unwrap()),
        "Rename { from: \"/tmp/sdkman-local-testsdk-1.0.0/source/bin\", to: \"/r/candidates/testsdk/1.0.0\" }"
    );
    assert!(!is_installed(&store, "testsdk", "1.0.0"));
    Install.complete(&mut store, "testsdk", "1.0.0");
    assert!(is_installed(&store, "testsdk", "1.0.0"));
    assert_eq!(store.marker("testsdk", Scope::Global), Some(&"1.0.0".to_string()));
    assert_eq!(get_current_version(&store, "testsdk", Scope::Global), Some("1.0.0".to_string()));
}

#[test]
fn install_completes_with_activation() {
    let mut store = store_with(&[]);
    let out = Install.complete(&mut store, "java", "21");
    assert_eq!(out.message, "java 21 installed successfully");
    assert!(is_installed(&store, "java", "21"));
    assert_eq!(get_current_version(&store, "java", Scope::Global), Some("21".to_string()));
    assert_eq!(
        show(&out.steps),
        vec![
            "CreateDirAll { path: \"/r/candidates/java\" }",
            "Symlink { target: \"/r/candidates/java/21\", link: \"/r/candidates/java/current\" }",
        ]
    );
}

#[test]
fn uninstall_clears_markers_that_point_at_it() {
    let mut store = store_with(&[("java", "17"), ("java", "21")]);
    store.set_overlay("/p/.sdkman");
    set_current_version(&mut store, "java", "17").unwrap();
    set_local_current_version(&mut store, "java", "17").unwrap();
    assert_eq!(Uninstall.run(&mut store, "java", "8").err(), Some(SdkError::NotInstalled));
    let out = Uninstall.run(&mut store, "java", "21").unwrap();
    assert_eq!(show(&out.steps), vec!["RemoveAll { path: \"/r/candidates/java/21\" }"]);
    assert_eq!(get_current_version(&store, "java", Scope::Global), Some("17".to_string()));
    let out = Uninstall.run(&mut store, "java", "17").unwrap();
    assert_eq!(out.message, "java 17 uninstalled successfully");
    assert_eq!(
        show(&out.steps),
        vec![
            "RemoveAll { path: \"/r/candidates/java/17\" }",
            "RemoveAll { path: \"/r/candidates/java/current\" }",
            "RemoveAll { path: \"/p/.sdkman/candidates/java/current\" }",
        ]
    );
    assert!(!is_installed(&store, "java", "17"));
    assert_eq!(store.marker("java", Scope::Global), None);
    assert_eq!(store.marker("java", Scope::Local), None);
}

#[test]
fn use_acts_in_the_active_scope() {
    let mut store = store_with(&[("java", "17")]);
    let out = Use.run(&mut store, "java", "17").unwrap();
    assert_eq!(out.message, "Using java 17");
    assert_eq!(get_current_version(&store, "java", Scope::Global), Some("17".to_string()));
    assert_eq!(Use.run(&mut store, "java", "21").err(), Some(SdkError::NotInstalled));

    let mut local = store_with(&[("java", "17")]);
    local.set_overlay("/p/.sdkman");
    let out = Use.run(&mut local, "java", "17").unwrap();
    assert_eq!(out.message, "Using java 17 (local)");
    assert_eq!(get_current_version(&local, "java", Scope::Local), Some("17".to_string()));
    assert_eq!(get_current_version(&local, "java", Scope::Global), None);
}

#[test]
fn default_uses_given_or_current_version() {
    let mut store = store_with(&[("java", "17"), ("java", "21")]);
    let cmd = nu_plugin_sdkman::commands::default::Default;
    assert_eq!(cmd.name(), "sdk default");
    assert_eq!(cmd.run(&mut store, "java", None).err(), Some(SdkError::NoCurrentVersion));
    assert_eq!(cmd.run(&mut store, "java", Some("8")).err(), Some(SdkError::NotInstalled));
    let out = cmd.run(&mut store, "java", Some("21")).unwrap();
    assert_eq!(out.message, "Default java version set to 21");
    let out = cmd.run(&mut store, "java", None).unwrap();
    assert_eq!(out.message, "Default java version set to 21");
    assert_eq!(get_current_version(&store, "java", Scope::Global), Some("21".to_string()));
}

#[test]
fn current_of_one_and_of_all() {
    let mut store = store_with(&[("java", "17"), ("gradle", "8.5"), ("maven", "3")]);
    set_current_version(&mut store, "java", "17").unwrap();
    set_current_version(&mut store, "maven", "3").unwrap();
    assert_eq!(Current.show_current(&store, "java"), Ok("17".to_string()));
    assert_eq!(Current.show_current(&store, "gradle"), Err(SdkError::NoCurrentVersion));
    let names = vec!["maven".to_string(), "gradle".to_string(), "java".to_string()];
    let all = Current.show_all_current(&store, &names);
    let shown: Vec<(String, String)> = all.into_iter().map(|p| (p.first, p.second)).collect();
    assert_eq!(
        shown,
        vec![("maven".to_string(), "3".to_string()), ("java".to_string(), "17".to_string())]
    );
}

#[test]
fn upgrade_decisions() {
    let mut store = store_with(&[("java", "17"), ("java", "21")]);
    assert_eq!(
        Upgrade.upgrade_candidate(&mut store, "java", "21").err(),
        Some(SdkError::NoCurrentVersion)
    );
    set_current_version(&mut store, "java", "17").unwrap();
    match Upgrade.upgrade_candidate(&mut store, "java", "17").unwrap() {
        UpgradeAction::UpToDate { message } => {
            assert_eq!(message, "java is already at the latest version (17)")
        }
        other => panic!("{:?}", other),
    }
    match Upgrade.upgrade_candidate(&mut store, "java", "25").unwrap() {
        UpgradeAction::Install { message } => assert_eq!(message, "Upgraded java from 17 to 25"),
        other => panic!("{:?}", other),
    }
    assert_eq!(get_current_version(&store, "java", Scope::Global), Some("17".to_string()));
    match Upgrade.upgrade_candidate(&mut store, "java", "21").unwrap() {
        UpgradeAction::Switch { out } => {
            assert_eq!(out.message, "Upgraded java from 17 to 21");
            assert_eq!(out.steps.len(), 3);
        }
        other => panic!("{:?}", other),
    }
    assert_eq!(get_current_version(&store, "java", Scope::Global), Some("21".to_string()));
    let all = Upgrade.upgrade_all(&store, &vec!["gradle".to_string(), "java".to_string()]);
    assert_eq!(all.len(), 1);
    assert_eq!(all[0].first, "java");
    assert_eq!(all[0].second, "21");
}

#[test]
fn flush_targets_paths_and_report() {
    assert_eq!(Flush.run(Some("tmp")), vec![FlushTarget::Tmp]);
    assert_eq!(Flush.run(Some("temp")), vec![FlushTarget::Tmp]);
    assert_eq!(Flush.run(Some("metadata")), vec![FlushTarget::Metadata]);
    assert_eq!(Flush.run(Some("version")), vec![FlushTarget::Version]);
    assert_eq!(Flush.run(Some("all")), vec![FlushTarget::Tmp, FlushTarget::Metadata]);
    assert_eq!(Flush.run(None), vec![FlushTarget::Tmp, FlushTarget::Metadata]);
    assert_eq!(Flush.path("/r", FlushTarget::Tmp), "/r/tmp");
    assert_eq!(Flush.path("/r", FlushTarget::Metadata), "/r/var/metadata");
    assert_eq!(Flush.path("/r", FlushTarget::Version), "/r/var/version");

    let (steps, label) = flush_dir("/r/var/metadata", true, 12);
    assert_eq!(
        show(&steps),
        vec![
            "RemoveAll { path: \"/r/var/metadata\" }",
            "CreateDirAll { path: \"/r/var/metadata\" }",
        ]
    );
    assert_eq!(label, Some("metadata (12 items)".to_string()));
    let (steps, label) = flush_dir("/r/tmp", true, 0);
    assert_eq!(steps.len(), 2);
    assert_eq!(label, None);
    let (steps, label) = flush_dir("/r/tmp", false, 5);
    assert!(steps.is_empty());
    assert_eq!(label, None);
    let (steps, label) = flush_file("/r/var/version", true);
    assert_eq!(show(&steps), vec!["RemoveAll { path: \"/r/var/version\" }"]);
    assert_eq!(label, Some("version file".to_string()));
    assert_eq!(flush_file("/r/var/version", false).1, None);

    assert_eq!(Flush.message(&Vec::new()), "Nothing to flush");
    assert_eq!(Flush.message(&vec!["tmp (3 items)".to_string()]), "Flushed: tmp (3 items)");
    assert_eq!(
        Flush.message(&vec!["tmp (3 items)".to_string(), "metadata (1 items)".to_string()]),
        "Flushed: tmp (3 items), metadata (1 items)"
    );
}

#[test]
fn env_init_seeds_the_descriptor() {
    let mut store = store_with(&[("java", "17"), ("gradle", "8.5"), ("maven", "3")]);
    set_current_version(&mut store, "java", "17").unwrap();
    set_current_version(&mut store, "maven", "3").unwrap();
    let names = vec!["gradle".to_string(), "java".to_string(), "maven".to_string()];
    assert_eq!(env_init(&store, "/work/p", true, &names).err(), Some(SdkError::DescriptorExists));
    let (message, steps) = env_init(&store, "/work/p", false, &names).unwrap();
    assert!(message.starts_with("Created local SDKMAN environment in /work/p\n\nTo activate:\n  source .sdkman/env.nu\n"));
    assert_eq!(steps.len(), 3);
    match &steps[0] {
        FsStep::WriteFile { path, content } => {
            assert_eq!(path, "/work/p/.sdkmanrc");
            assert_eq!(
                content,
                "# SDKMAN local environment\n# Add key=value pairs of SDKs to use below\njava=17\nmaven=3\n"
            );
        }
        other => panic!("{:?}", other),
    }
    assert_eq!(
        format!("{:?}", steps[1]),
        "CreateDirAll { path: \"/work/p/.sdkman/candidates\" }"
    );
    match &steps[2] {
        FsStep::WriteFile { path, content } => {
            assert_eq!(path, "/work/p/.sdkman/env.nu");
            assert_eq!(content, activation_script());
            assert!(content.contains("ls .sdkman/candidates/*/current/bin"));
        }
        other => panic!("{:?}", other),
    }
}

#[test]
fn env_install_installs_and_activates_every_declaration() {
    let mut store = store_with(&[("java", "17")]);
    let map = declared(&[("gradle", "8.5"), ("java", "17"), ("maven", "3")]);
    let (missing, notes, steps) = install_declared(&mut store, map.entries());
    assert_eq!(missing, vec![0, 2]);
    assert_eq!(notes, vec!["Installed gradle 8.5", "java 17 already installed", "Installed maven 3"]);
    assert_eq!(steps.len(), 6);
    for (c, v) in [("gradle", "8.5"), ("java", "17"), ("maven", "3")] {
        assert!(is_installed(&store, c, v));
        assert_eq!(get_current_version(&store, c, Scope::Global), Some(v.to_string()));
    }

    let mut local = store_with(&[("java", "17")]);
    local.set_overlay("/p/.sdkman");
    set_current_version(&mut local, "java", "17").unwrap();
    let out = env_install(&mut local, Some("java=17\ngradle=8.5\n")).unwrap();
    assert_eq!(out.missing, vec![1]);
    assert_eq!(
        out.notes,
        vec![
            "java 17 already installed",
            "Linked java 17 locally",
            "Installed gradle 8.5",
            "Linked gradle 8.5 locally",
        ]
    );
    assert_eq!(
        show(&out.steps),
        vec![
            "CreateDirAll { path: \"/p/.sdkman/candidates/java\" }",
            "Symlink { target: \"/r/candidates/java/17\", link: \"/p/.sdkman/candidates/java/current\" }",
            "CreateDirAll { path: \"/p/.sdkman/candidates/gradle\" }",
            "Symlink { target: \"/r/candidates/gradle/8.5\", link: \"/p/.sdkman/candidates/gradle/current\" }",
        ]
    );
    assert!(is_installed(&local, "gradle", "8.5"));
    assert_eq!(get_current_version(&local, "gradle", Scope::Local), Some("8.5".to_string()));
    assert_eq!(get_current_version(&local, "java", Scope::Local), Some("17".to_string()));
    assert_eq!(get_current_version(&local, "gradle", Scope::Global), None);
    assert_eq!(get_current_version(&local, "java", Scope::Global), Some("17".to_string()));
}

#[test]
fn missing_descriptor_changes_nothing() {
    let mut store = store_with(&[("java", "17")]);
    set_current_version(&mut store, "java", "17").unwrap();
    assert_eq!(env_clear(&mut store, None).err(), Some(SdkError::DescriptorNotFound));
    assert_eq!(env_load(&mut store, None).err(), Some(SdkError::DescriptorNotFound));
    assert_eq!(env_install(&mut store, None).err(), Some(SdkError::DescriptorNotFound));
    assert!(is_installed(&store, "java", "17"));
    assert_eq!(get_current_version(&store, "java", Scope::Global), Some("17".to_string()));
    let out = env_clear(&mut store, Some("# nothing\njava=17\n")).unwrap();
    assert_eq!(out.notes, vec!["Cleared environment"]);
    assert_eq!(show(&out.steps), vec!["RemoveAll { path: \"/r/candidates/java/current\" }"]);
    assert_eq!(out.entries.len(), 1);
    assert_eq!(get_current_version(&store, "java", Scope::Global), None);
    let out = env_load(&mut store, Some("java=17\ngradle=1\n")).unwrap();
    assert_eq!(out.notes, vec!["Using java 17", "gradle 1 not installed"]);
    assert_eq!(get_current_version(&store, "java", Scope::Global), Some("17".to_string()));
}

#[test]
fn env_load_activates_installed_declarations() {
    let mut store = store_with(&[("java", "17")]);
    let map = declared(&[("gradle", "8.5"), ("java", "17")]);
    let (notes, steps) = load_declared(&mut store, map.entries());
    assert_eq!(notes, vec!["gradle 8.5 not installed", "Using java 17"]);
    assert_eq!(steps.len(), 2);
    assert_eq!(get_current_version(&store, "java", Scope::Global), Some("17".to_string()));
    assert_eq!(get_current_version(&store, "gradle", Scope::Global), None);
    assert!(!is_installed(&store, "gradle", "8.5"));

    let mut local = store_with(&[("java", "17")]);
    local.set_overlay("/p/.sdkman");
    let (notes, steps) = load_declared(&mut local, map.entries());
    assert_eq!(notes, vec!["gradle 8.5 not installed", "Using java 17 (local)"]);
    assert_eq!(
        show(&steps),
        vec![
            "CreateDirAll { path: \"/p/.sdkman/candidates/java\" }",
            "Symlink { target: \"/r/candidates/java/17\", link: \"/p/.sdkman/candidates/java/current\" }",
        ]
    );
    assert_eq!(get_current_version(&local, "java", Scope::Global), None);
}

#[test]
fn local_clear_leaves_the_store_alone() {
    let mut store = store_with(&[("java", "17"), ("gradle", "8.5")]);
    store.set_overlay("/p/.sdkman");
    set_current_version(&mut store, "java", "17").unwrap();
    set_local_current_version(&mut store, "java", "17").unwrap();
    let map = declared(&[("java", "17"), ("gradle", "8.5")]);
    let (message, steps) = clear_declared(&mut store, map.entries());
    assert_eq!(message, "Cleared local environment (global installations unaffected)");
    assert_eq!(show(&steps), vec!["RemoveAll { path: \"/p/.sdkman/candidates/java/current\" }"]);
    assert!(is_installed(&store, "java", "17"));
    assert!(is_installed(&store, "gradle", "8.5"));
    assert_eq!(get_current_version(&store, "java", Scope::Global), Some("17".to_string()));
    assert_eq!(get_current_version(&store, "java", Scope::Local), None);

    let mut global = store_with(&[("java", "17")]);
    set_current_version(&mut global, "java", "17").unwrap();
    let (message, steps) = clear_declared(&mut global, map.entries());
    assert_eq!(message, "Cleared environment");
    assert_eq!(show(&steps), vec!["RemoveAll { path: \"/r/candidates/java/current\" }"]);
    assert!(is_installed(&global, "java", "17"));
}
