use polyblock::error::InstallError;
use polyblock::java::{
    classpath_separator, find_exec, main_class, manifest_get, parse_manifest, trim, Platform,
};

#[test]
fn test_parse_manifest() {
    let manifest = parse_manifest(
        "Manifest-Version: 1.0
Implementation-Title: test-0.4
Main-Class: test.test.testclass",
    );
    assert_eq!(manifest_get(&manifest, "Manifest-Version").unwrap(), "1.0");
    assert_eq!(manifest_get(&manifest, "Implementation-Title").unwrap(), "test-0.4");
    assert_eq!(manifest_get(&manifest, "Main-Class").unwrap(), "test.test.testclass");
}

#[test]
fn parse_manifest_splits_at_first_colon_and_skips_plain_lines() {
    let manifest = parse_manifest("Url: http://x\r\nno colon here\n\nKey : a \nKey: b\n");
    assert_eq!(manifest.len(), 3);
    assert_eq!(manifest_get(&manifest, "Url").unwrap(), "http://x");
    assert_eq!(manifest_get(&manifest, "Key").unwrap(), "b");
    assert_eq!(manifest_get(&manifest, "Missing"), None);
}

#[test]
fn main_class_found_or_missing() {
    assert_eq!(
        main_class("Manifest-Version: 1.0\nMain-Class: a.B\n", "x.jar"),
        Ok("a.B".to_string())
    );
    assert_eq!(
        main_class("Manifest-Version: 1.0\n", "x.jar"),
        Err(InstallError::MissingMainClass("x.jar".to_string()))
    );
}

#[test]
fn trim_removes_unicode_white_space() {
    assert_eq!(trim("  \t a b \u{3000}\n"), "a b");
    assert_eq!(trim("   "), "");
    assert_eq!(trim("x"), "x");
}

#[test]
fn find_exec_prefers_configured_home() {
    assert_eq!(
        find_exec(Some("/opt/jdk"), Some("/usr"), Platform::Unix),
        Ok("/opt/jdk/bin/java".to_string())
    );
    assert_eq!(
        find_exec(None, Some("C:/jdk"), Platform::Windows),
        Ok("C:/jdk/bin/java.exe".to_string())
    );
    assert_eq!(find_exec(None, None, Platform::Unix), Err(InstallError::JavaNotFound));
}

#[test]
fn classpath_separator_by_platform() {
    assert_eq!(classpath_separator(Platform::Windows), ";");
    assert_eq!(classpath_separator(Platform::Unix), ":");
}
