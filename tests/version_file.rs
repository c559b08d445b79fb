use polyblock::error::InstallError;
use polyblock::version_file::merge_version_json;

#[test]
fn merged_descriptor_drops_jar_and_sets_id() {
    let text = merge_version_json(
        "{\"id\":\"forge-28\",\"jar\":\"1.14.4\",\"mainClass\":\"cpw.Main\"}",
        "1.14.4-forge-28.1.0",
    )
    .unwrap();
    let v: serde_json::Value = serde_json::from_str(&text).unwrap();
    let o = v.as_object().unwrap();
    assert_eq!(o.len(), 2);
    assert_eq!(o["id"], serde_json::Value::String("1.14.4-forge-28.1.0".to_string()));
    assert_eq!(o["mainClass"], serde_json::Value::String("cpw.Main".to_string()));
    assert!(o.get("jar").is_none());
}

#[test]
fn merged_descriptor_needs_an_object() {
    assert!(matches!(merge_version_json("[1, 2]", "x"), Err(InstallError::Io(_))));
    assert!(matches!(merge_version_json("not json", "x"), Err(InstallError::Io(_))));
}

#[test]
fn merged_descriptor_keeps_every_other_value() {
    let text = merge_version_json(
        "{\"jar\":\"x\",\"libraries\":[{\"name\":\"a:b:1\"}],\"minimumLauncherVersion\":21,\"weight\":0.1,\"inheritsFrom\":\"1.14.4\"}",
        "m-f",
    )
    .unwrap();
    let v: serde_json::Value = serde_json::from_str(&text).unwrap();
    let o = v.as_object().unwrap();
    assert_eq!(o.len(), 5);
    let libraries: serde_json::Value = serde_json::from_str("[{\"name\":\"a:b:1\"}]").unwrap();
    assert_eq!(o["libraries"], libraries);
    assert_eq!(o["minimumLauncherVersion"], serde_json::Value::from(21));
    assert_eq!(o["weight"], serde_json::Value::from(0.1));
    assert_eq!(o["inheritsFrom"], serde_json::Value::String("1.14.4".to_string()));
    assert_eq!(o["id"], serde_json::Value::String("m-f".to_string()));
}
