use polyblock::error::InstallError;
use polyblock::maven::{parse_maven, Coordinate};
use std::path::PathBuf;

#[test]
fn test_parse_maven_with_ext_and_extra() {
    let path = parse_maven("de.oceanlabs.mcp:mcp_config:1.14.4-20190829.143755:mappings@txt").unwrap();
    assert_eq!(PathBuf::from(path), PathBuf::from("de/oceanlabs/mcp/mcp_config/1.14.4-20190829.143755/mcp_config-1.14.4-20190829.143755-mappings.txt"));
}

#[test]
fn test_parse_maven() {
    let path = parse_maven("net.sf.jopt-simple:jopt-simple:5.0.4").unwrap();
    assert_eq!(
        PathBuf::from(path),
        PathBuf::from("net/sf/jopt-simple/jopt-simple/5.0.4/jopt-simple-5.0.4.jar")
    );
}

#[test]
fn test_parse_maven_with_ext() {
    let path = parse_maven("de.oceanlabs.mcp:mcp_config:1.14.4-20190829.143755@zip").unwrap();
    assert_eq!(
        PathBuf::from(path),
        PathBuf::from("de/oceanlabs/mcp/mcp_config/1.14.4-20190829.143755/mcp_config-1.14.4-20190829.143755.zip")
    );
}

#[test]
fn parse_maven_rejects_two_segments() {
    assert_eq!(
        parse_maven("net.sf:jopt"),
        Err(InstallError::MalformedCoordinate("net.sf:jopt".to_string()))
    );
    assert_eq!(
        parse_maven(""),
        Err(InstallError::MalformedCoordinate(String::new()))
    );
}

#[test]
fn parse_maven_round_trip_components() {
    let c = Coordinate::parse("a.b.c:art:1.0:cls@zip").unwrap();
    assert_eq!(c.group, "a.b.c");
    assert_eq!(c.artifact, "art");
    assert_eq!(c.version, "1.0");
    assert_eq!(c.classifier.as_deref(), Some("cls"));
    assert_eq!(c.extension, "zip");
    assert_eq!(c.relative_path(), "a/b/c/art/1.0/art-1.0-cls.zip");
    let plain = Coordinate::parse("g:a:v").unwrap();
    assert_eq!(plain.classifier, None);
    assert_eq!(plain.extension, "jar");
    assert_eq!(plain.relative_path(), "g/a/v/a-v.jar");
}

#[test]
fn patch_file_path_replaces_extension() {
    let c = Coordinate::parse("net.minecraftforge:forge:1.14.4-28.1.0:client").unwrap();
    assert_eq!(
        c.patch_file_path(),
        "net/minecraftforge/forge/1.14.4-28.1.0/forge-1.14.4-28.1.0-client-clientdata.lzma"
    );
}

#[test]
fn parse_maven_edge_cases() {
    assert_eq!(parse_maven("a:b:c:d:e").unwrap(), "a/b/c/b-c-d.jar");
    assert_eq!(parse_maven("a:b:c@x@y").unwrap(), "a/b/c/b-c.x");
    assert_eq!(parse_maven("a:b:c@").unwrap(), "a/b/c/b-c.");
    assert_eq!(
        parse_maven("a:b@zip"),
        Err(InstallError::MalformedCoordinate("a:b@zip".to_string()))
    );
}
