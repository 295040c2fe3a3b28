use nu_plugin_sdkman::commands::env::{parse_sdkmanrc, parse_sdkmanrc_content, Env, EnvAction};
use nu_plugin_sdkman::error::SdkError;

#[test]
fn test_parse_sdkmanrc_basic() {
    let content = "java=17.0.9-oracle\ngradle=8.5\nmaven=3.9.6\n";
    let parsed = parse_sdkmanrc_content(content).unwrap();

    assert_eq!(parsed.len(), 3);
    assert_eq!(parsed.get("java"), Some(&"17.0.9-oracle".to_string()));
    assert_eq!(parsed.get("gradle"), Some(&"8.5".to_string()));
    assert_eq!(parsed.get("maven"), Some(&"3.9.6".to_string()));
}

#[test]
fn test_parse_sdkmanrc_with_comments() {
    let content = "# This is a comment\njava=17.0.9-oracle\n# Another comment\ngradle=8.5\n";
    let parsed = parse_sdkmanrc_content(content).unwrap();

    assert_eq!(parsed.len(), 2);
    assert_eq!(parsed.get("java"), Some(&"17.0.9-oracle".to_string()));
    assert_eq!(parsed.get("gradle"), Some(&"8.5".to_string()));
}

#[test]
fn test_parse_sdkmanrc_with_whitespace() {
    let content = "  java = 17.0.9-oracle  \n\n  gradle = 8.5  \n";
    let parsed = parse_sdkmanrc_content(content).unwrap();

    assert_eq!(parsed.len(), 2);
    assert_eq!(parsed.get("java"), Some(&"17.0.9-oracle".to_string()));
    assert_eq!(parsed.get("gradle"), Some(&"8.5".to_string()));
}

#[test]
fn test_parse_sdkmanrc_empty() {
    let content = "";
    let parsed = parse_sdkmanrc_content(content).unwrap();

    assert_eq!(parsed.len(), 0);
}

#[test]
fn test_parse_sdkmanrc_malformed_lines() {
    let content =
        "java=17.0.9-oracle\ninvalid line without equals\ngradle=8.5\n=nokey\nnovalue=\n";
    let parsed = parse_sdkmanrc_content(content).unwrap();

    // Lines with = are read: java=..., gradle=..., =nokey (empty key), novalue= (empty value)
    assert_eq!(parsed.len(), 4);
    assert_eq!(parsed.get("java"), Some(&"17.0.9-oracle".to_string()));
    assert_eq!(parsed.get("gradle"), Some(&"8.5".to_string()));
    assert_eq!(parsed.get(""), Some(&"nokey".to_string()));
    assert_eq!(parsed.get("novalue"), Some(&"".to_string()));
}

#[test]
fn test_parse_sdkmanrc_only_comments() {
    let content = "# Comment 1\n# Comment 2\n# Comment 3\n";
    let parsed = parse_sdkmanrc_content(content).unwrap();

    assert_eq!(parsed.len(), 0);
}

#[test]
fn descriptor_with_comment_between_declarations() {
    let parsed = parse_sdkmanrc_content("java=17.0.9-oracle\n# comment\ngradle=8.5\n").unwrap();
    assert_eq!(parsed.len(), 2);
    assert_eq!(parsed.get("java"), Some(&"17.0.9-oracle".to_string()));
    assert_eq!(parsed.get("gradle"), Some(&"8.5".to_string()));
    assert_eq!(parsed.get("maven"), None);
}

#[test]
fn descriptor_leading_equals_gives_empty_key() {
    let parsed = parse_sdkmanrc_content("=nokey").unwrap();
    assert_eq!(parsed.len(), 1);
    assert_eq!(parsed.get(""), Some(&"nokey".to_string()));
}

#[test]
fn descriptor_last_declaration_wins() {
    let parsed = parse_sdkmanrc_content("java=8\ngradle=8.5\njava=21\n").unwrap();
    assert_eq!(parsed.len(), 2);
    assert_eq!(parsed.get("java"), Some(&"21".to_string()));
    let keys: Vec<&str> = parsed.entries().iter().map(|e| e.key.as_str()).collect();
    assert_eq!(keys, vec!["java", "gradle"]);
}

#[test]
fn descriptor_splits_at_first_equals_and_handles_carriage_returns() {
    let parsed = parse_sdkmanrc_content("opts = a=b \r\n  # x=y\r\nk=v").unwrap();
    assert_eq!(parsed.len(), 2);
    assert_eq!(parsed.get("opts"), Some(&"a=b".to_string()));
    assert_eq!(parsed.get("k"), Some(&"v".to_string()));
}

#[test]
fn missing_descriptor_is_an_error() {
    assert_eq!(parse_sdkmanrc(None).err(), Some(SdkError::DescriptorNotFound));
    let parsed = parse_sdkmanrc(Some("java=21\nnonsense\n")).unwrap();
    assert_eq!(parsed.len(), 1);
    assert_eq!(parsed.get("java"), Some(&"21".to_string()));
}

#[test]
fn env_subcommands() {
    let cmd = Env;
    assert_eq!(cmd.name(), "sdk env");
    assert_eq!(cmd.run(None), Ok(EnvAction::Load));
    assert_eq!(cmd.run(Some("init")), Ok(EnvAction::Init));
    assert_eq!(cmd.run(Some("install")), Ok(EnvAction::Install));
    assert_eq!(cmd.run(Some("clear")), Ok(EnvAction::Clear));
    assert_eq!(cmd.run(Some("load")), Err(SdkError::UnknownArgument));
}
