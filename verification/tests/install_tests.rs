use nu_plugin_sdkman::engine::install::{
    advance, cleanup, copy_fallback, install_candidate, install_local, move_and_normalize,
    DirEntry, Stage,
};
use nu_plugin_sdkman::engine::steps::FsStep;
use nu_plugin_sdkman::error::SdkError;
use nu_plugin_sdkman::utils::archive::ArchiveFormat;

fn show(steps: &[FsStep]) -> Vec<String> {
    steps.iter().map(|s| format!("{:?}", s)).collect()
}

#[test]
fn remote_install_plan() {
    let plan = install_candidate("/r", "/tmp", "java", "17.0.9-oracle", "linuxx64", ArchiveFormat::TarGz);
    assert_eq!(plan.scratch, "/tmp/sdkman-install-java-17.0.9h_oracle");
    assert_eq!(plan.source, "/tmp/sdkman-install-java-17.0.9h_oracle/source");
    assert_eq!(plan.destination, "/r/candidates/java/17.0.9-oracle");
    assert_eq!(
        show(&plan.steps),
        vec![
            "CreateDirAll { path: \"/tmp/sdkman-install-java-17.0.9h_oracle\" }",
            "Fetch { url: \"https://api.sdkman.io/2/broker/download/java/17.0.9-oracle/linuxx64\", to: \"/tmp/sdkman-install-java-17.0.9h_oracle/java-17.0.9h_oracle.tar.gz\" }",
            "Extract { archive: \"/tmp/sdkman-install-java-17.0.9h_oracle/java-17.0.9h_oracle.tar.gz\", into: \"/tmp/sdkman-install-java-17.0.9h_oracle/source\" }",
        ]
    );
    let zipped = install_candidate("/r", "/tmp", "java", "8", "windowsx64", ArchiveFormat::Zip);
    assert_eq!(
        format!("{:?}", zipped.steps[2]),
        "Extract { archive: \"/tmp/sdkman-install-java-8/java-8.zip\", into: \"/tmp/sdkman-install-java-8/source\" }"
    );
    assert_eq!(
        show(&cleanup(&plan)),
        vec!["RemoveAll { path: \"/tmp/sdkman-install-java-17.0.9h_oracle\" }"]
    );
}

#[test]
fn local_install_plan() {
    let plan = install_local("/r", "/tmp", "testsdk", "1.0.0", "/dl/test.tar.gz", true).unwrap();
    assert_eq!(plan.scratch, "/tmp/sdkman-local-testsdk-1.0.0");
    assert_eq!(plan.source, "/tmp/sdkman-local-testsdk-1.0.0/source");
    assert_eq!(plan.destination, "/r/candidates/testsdk/1.0.0");
    assert_eq!(
        show(&plan.steps),
        vec![
            "CreateDirAll { path: \"/tmp/sdkman-local-testsdk-1.0.0\" }",
            "Extract { archive: \"/dl/test.tar.gz\", into: \"/tmp/sdkman-local-testsdk-1.0.0/source\" }",
        ]
    );
    assert_eq!(
        install_local("/r", "/tmp", "testsdk", "1.0.0", "/dl/none.tar.gz", false).err(),
        Some(SdkError::IoError)
    );
}

#[test]
fn distinct_keys_get_distinct_scratch_directories() {
    let a = install_candidate("/r", "/tmp", "java", "17", "linuxx64", ArchiveFormat::TarGz);
    let b = install_candidate("/r", "/tmp", "java", "21", "linuxx64", ArchiveFormat::TarGz);
    let c = install_candidate("/r", "/tmp", "gradle", "17", "linuxx64", ArchiveFormat::TarGz);
    assert_ne!(a.scratch, b.scratch);
    assert_ne!(a.scratch, c.scratch);
    assert_ne!(b.scratch, c.scratch);
    for plan in [&a, &b, &c] {
        for step in &plan.steps {
            match step {
                FsStep::CreateDirAll { path } => assert_eq!(path, &plan.scratch),
                FsStep::Fetch { to, .. } => assert!(to.starts_with(&format!("{}/", plan.scratch))),
                FsStep::Extract { archive, into } => {
                    assert!(archive.starts_with(&format!("{}/", plan.scratch)));
                    assert!(into.starts_with(&format!("{}/", plan.scratch)));
                }
                other => panic!("{:?}", other),
            }
        }
    }
}

#[test]
fn single_directory_is_the_payload_root() {
    let listing = vec![DirEntry { name: "test-sdk".to_string(), is_dir: true }];
    let steps = move_and_normalize("/tmp/s/source", "/r/candidates/testsdk/1.0.0", &listing, false);
    assert_eq!(
        show(&steps),
        vec![
            "CreateDirAll { path: \"/r/candidates/testsdk\" }",
            "Rename { from: \"/tmp/s/source/test-sdk\", to: \"/r/candidates/testsdk/1.0.0\" }",
        ]
    );
}

#[test]
fn other_listings_are_placed_as_they_are() {
    let two = vec![
        DirEntry { name: "bin".to_string(), is_dir: true },
        DirEntry { name: "lib".to_string(), is_dir: true },
    ];
    let steps = move_and_normalize("/tmp/s/source", "/r/candidates/t/1", &two, true);
    assert_eq!(
        show(&steps),
        vec![
            "RemoveAll { path: \"/r/candidates/t/1\" }",
            "CreateDirAll { path: \"/r/candidates/t\" }",
            "Rename { from: \"/tmp/s/source\", to: \"/r/candidates/t/1\" }",
        ]
    );
    let file = vec![DirEntry { name: "tool".to_string(), is_dir: false }];
    let steps = move_and_normalize("src", "dest", &file, false);
    assert_eq!(show(&steps), vec!["Rename { from: \"src\", to: \"dest\" }"]);
    let steps = move_and_normalize("src", "dest", &Vec::new(), false);
    assert_eq!(show(&steps), vec!["Rename { from: \"src\", to: \"dest\" }"]);
}

#[test]
fn refused_rename_falls_back_to_copy() {
    let steps = copy_fallback("/tmp/s/source/x", "/r/candidates/t/1");
    assert_eq!(
        show(&steps),
        vec![
            "CopyTree { from: \"/tmp/s/source/x\", to: \"/r/candidates/t/1\" }",
            "RemoveAll { path: \"/tmp/s/source/x\" }",
        ]
    );
}

#[test]
fn pipeline_runs_through_its_stages() {
    let plan = install_candidate("/r", "/tmp", "java", "21", "linuxx64", ArchiveFormat::TarGz);
    let listing = vec![DirEntry { name: "jdk-21".to_string(), is_dir: true }];
    let turn = advance(&plan, Stage::Unpacking, None, None, &listing, true);
    assert_eq!(turn.stage, Stage::Placing);
    assert_eq!(turn.failure, None);
    assert_eq!(
        show(&turn.steps),
        vec![
            "RemoveAll { path: \"/r/candidates/java/21\" }",
            "CreateDirAll { path: \"/r/candidates/java\" }",
            "Rename { from: \"/tmp/sdkman-install-java-21/source/jdk-21\", to: \"/r/candidates/java/21\" }",
        ]
    );
    let done = advance(&plan, Stage::Placing, None, None, &Vec::new(), false);
    assert_eq!(done.stage, Stage::Cleaning);
    assert_eq!(done.failure, None);
    assert_eq!(show(&done.steps), vec!["RemoveAll { path: \"/tmp/sdkman-install-java-21\" }"]);
    let end = advance(&plan, Stage::Cleaning, None, Some(&done.steps[0]), &Vec::new(), false);
    assert_eq!(end.stage, Stage::Finished);
    assert_eq!(end.failure, None);
    assert!(end.steps.is_empty());
}

#[test]
fn pipeline_cleans_up_after_a_failure() {
    let plan = install_candidate("/r", "/tmp", "java", "21", "linuxx64", ArchiveFormat::TarGz);
    let clean = vec!["RemoveAll { path: \"/tmp/sdkman-install-java-21\" }"];
    let turn = advance(&plan, Stage::Unpacking, None, Some(&plan.steps[1]), &Vec::new(), false);
    assert_eq!(turn.stage, Stage::Cleaning);
    assert_eq!(turn.failure, Some(SdkError::FetchError));
    assert_eq!(show(&turn.steps), clean);
    let turn = advance(&plan, Stage::Unpacking, None, Some(&plan.steps[2]), &Vec::new(), false);
    assert_eq!(turn.failure, Some(SdkError::ExtractError));
    assert_eq!(show(&turn.steps), clean);
    let turn = advance(&plan, Stage::Unpacking, None, Some(&plan.steps[0]), &Vec::new(), false);
    assert_eq!(turn.failure, Some(SdkError::IoError));
    let end = advance(&plan, Stage::Cleaning, Some(SdkError::FetchError), None, &Vec::new(), false);
    assert_eq!(end.stage, Stage::Finished);
    assert_eq!(end.failure, Some(SdkError::FetchError));
}

#[test]
fn refused_rename_is_made_up_for_by_a_copy() {
    let plan = install_candidate("/r", "/tmp", "java", "21", "linuxx64", ArchiveFormat::TarGz);
    let placing = advance(&plan, Stage::Unpacking, None, None, &Vec::new(), false);
    let rename = placing.steps.last().unwrap();
    let turn = advance(&plan, Stage::Placing, None, Some(rename), &Vec::new(), false);
    assert_eq!(turn.stage, Stage::Copying);
    assert_eq!(turn.failure, None);
    assert_eq!(
        show(&turn.steps),
        vec![
            "CopyTree { from: \"/tmp/sdkman-install-java-21/source\", to: \"/r/candidates/java/21\" }",
            "RemoveAll { path: \"/tmp/sdkman-install-java-21/source\" }",
        ]
    );
    let other = advance(&plan, Stage::Placing, None, Some(&placing.steps[0]), &Vec::new(), false);
    assert_eq!(other.stage, Stage::Cleaning);
    assert_eq!(other.failure, Some(SdkError::IoError));
    let copied = advance(&plan, Stage::Copying, None, None, &Vec::new(), false);
    assert_eq!((copied.stage, copied.failure), (Stage::Cleaning, None));
    let broken = advance(&plan, Stage::Copying, None, Some(&turn.steps[0]), &Vec::new(), false);
    assert_eq!((broken.stage, broken.failure), (Stage::Cleaning, Some(SdkError::IoError)));
}

#[test]
fn keys_with_hyphens_and_slashes_keep_their_own_scratch_directories() {
    let scratch = |c: &str, v: &str| {
        install_candidate("/r", "/tmp", c, v, "linuxx64", ArchiveFormat::TarGz).scratch
    };
    let local = |c: &str, v: &str| {
        install_local("/r", "/tmp", c, v, "/dl/a.zip", true).unwrap().scratch
    };
    assert_eq!(scratch("a-b", "c"), "/tmp/sdkman-install-ah_b-c");
    assert_eq!(scratch("a", "b-c"), "/tmp/sdkman-install-a-bh_c");
    assert_ne!(scratch("a-b", "c"), scratch("a", "b-c"));
    assert_ne!(local("a-b", "c"), local("a", "b-c"));
    assert_ne!(local("a", "b"), scratch("a", "b"));
    // A slash in a name does not put one directory inside another.
    assert_eq!(scratch("x", "1"), "/tmp/sdkman-install-x-1");
    assert_eq!(scratch("x", "1/y"), "/tmp/sdkman-install-x-1s_y");
    assert!(!scratch("x", "1/y").starts_with(&format!("{}/", scratch("x", "1"))));
    // The escape character is escaped itself.
    assert_eq!(scratch("a_b", "h_"), "/tmp/sdkman-install-a__b-h__");
    assert_ne!(scratch("a_b", "c"), scratch("a-b", "c"));
    assert_ne!(scratch("ah", "c"), scratch("a-", "c"));
    let plan = install_candidate("/r", "/tmp", "x", "1/y", "linuxx64", ArchiveFormat::Zip);
    assert_eq!(
        format!("{:?}", plan.steps[2]),
        "Extract { archive: \"/tmp/sdkman-install-x-1s_y/x-1s_y.zip\", into: \"/tmp/sdkman-install-x-1s_y/source\" }"
    );
}
