use polyblock::error::InstallError;
use polyblock::processors::{expand_arg, plan_processor, substitute_arg, ProcessorContext};
use polyblock::profile::{
    lookup_client, profile_text, strip_quotes, unwrap_value, DataValue, ForgeManifest, Processor,
};

fn entry(key: &str, client: &str) -> (String, DataValue) {
    (
        key.to_string(),
        DataValue { client: client.to_string(), server: String::from("server") },
    )
}

fn ctx() -> ProcessorContext {
    ProcessorContext {
        libraries_directory: "/libs".to_string(),
        minecraft_jar: "/versions/1.14.4/1.14.4.jar".to_string(),
        binpatch: "/libs/f/f/1/f-1-clientdata.lzma".to_string(),
        separator: ":".to_string(),
    }
}

#[test]
fn template_variable_is_unquoted() {
    let data = vec![entry("SIDE", "\"abc123\"")];
    assert_eq!(expand_arg("{SIDE}", &data), Ok("abc123".to_string()));
    let single = vec![entry("SHA", "'0123'")];
    assert_eq!(expand_arg("{SHA}", &single), Ok("0123".to_string()));
}

#[test]
fn template_missing_variable_is_an_error() {
    let data = vec![entry("SIDE", "client")];
    assert_eq!(
        expand_arg("{MAPPINGS}", &data),
        Err(InstallError::MissingVariable("MAPPINGS".to_string()))
    );
}

#[test]
fn template_sentinels_and_literals() {
    let data: Vec<(String, DataValue)> = Vec::new();
    assert_eq!(expand_arg("{MINECRAFT_JAR}", &data), Ok("MINECRAFT_JAR".to_string()));
    assert_eq!(expand_arg("--side", &data), Ok("--side".to_string()));
    assert_eq!(expand_arg("{", &data), Ok("{".to_string()));
    assert_eq!(
        substitute_arg("MINECRAFT_JAR", &ctx()),
        Ok("/versions/1.14.4/1.14.4.jar".to_string())
    );
    assert_eq!(
        substitute_arg("BINPATCH", &ctx()),
        Ok("/libs/f/f/1/f-1-clientdata.lzma".to_string())
    );
    assert_eq!(
        substitute_arg("[a.b:c:1@txt]", &ctx()),
        Ok("/libs/a/b/c/1/c-1.txt".to_string())
    );
    assert_eq!(
        substitute_arg("[a.b:c]", &ctx()),
        Err(InstallError::MalformedCoordinate("a.b:c".to_string()))
    );
    assert_eq!(substitute_arg("plain", &ctx()), Ok("plain".to_string()));
}

#[test]
fn plan_processor_resolves_everything() {
    let data = vec![
        entry("MAPPINGS", "[de.oceanlabs.mcp:mcp_config:1.14.4:mappings@txt]"),
        entry("SIDE", "'client'"),
    ];
    let p = Processor {
        jar: "net.md-5:SpecialSource:1.8.3".to_string(),
        classpath: vec!["a:b:1".to_string(), "c.d:e:2".to_string()],
        args: vec![
            "--in".to_string(),
            "{MINECRAFT_JAR}".to_string(),
            "--srg".to_string(),
            "{MAPPINGS}".to_string(),
            "{SIDE}".to_string(),
            "{BINPATCH}".to_string(),
        ],
    };
    let cmd = plan_processor(&p, &data, &ctx()).unwrap();
    assert_eq!(cmd.jar, "/libs/net/md-5/SpecialSource/1.8.3/SpecialSource-1.8.3.jar");
    assert_eq!(
        cmd.classpath,
        "/libs/net/md-5/SpecialSource/1.8.3/SpecialSource-1.8.3.jar:/libs/a/b/1/b-1.jar:/libs/c/d/e/2/e-2.jar"
    );
    assert_eq!(
        cmd.args,
        vec![
            "--in".to_string(),
            "/versions/1.14.4/1.14.4.jar".to_string(),
            "--srg".to_string(),
            "/libs/de/oceanlabs/mcp/mcp_config/1.14.4/mcp_config-1.14.4-mappings.txt".to_string(),
            "client".to_string(),
            "/libs/f/f/1/f-1-clientdata.lzma".to_string(),
        ]
    );
}

#[test]
fn plan_processor_without_classpath_has_no_trailing_separator() {
    let p = Processor { jar: "a:b:1".to_string(), classpath: Vec::new(), args: Vec::new() };
    let cmd = plan_processor(&p, &Vec::new(), &ctx()).unwrap();
    assert_eq!(cmd.classpath, "/libs/a/b/1/b-1.jar");
    assert!(cmd.args.is_empty());
}

#[test]
fn plan_processor_fails_on_missing_variable() {
    let p = Processor {
        jar: "a:b:1".to_string(),
        classpath: Vec::new(),
        args: vec!["{NOPE}".to_string()],
    };
    assert_eq!(
        plan_processor(&p, &Vec::new(), &ctx()).unwrap_err(),
        InstallError::MissingVariable("NOPE".to_string())
    );
}

#[test]
fn profile_helpers() {
    let data = vec![entry("K", "first"), entry("K", "second")];
    assert_eq!(lookup_client(&data, "K").unwrap(), "first");
    assert_eq!(lookup_client(&data, "X"), None);
    assert_eq!(strip_quotes("\"x\""), "x");
    assert_eq!(strip_quotes("\"x'"), "\"x'");
    assert_eq!(strip_quotes("\""), "\"");
    assert_eq!(unwrap_value("K", "[a:b:c]"), Ok("a:b:c".to_string()));
    assert_eq!(unwrap_value("K", "x"), Err(InstallError::UnquotedValue("K".to_string())));
}

#[test]
fn install_method_is_checked() {
    let mut m = ForgeManifest {
        name: "forge-1".to_string(),
        install_method: 2,
        version_json: "{}".to_string(),
        install_profile_json: Some("{}".to_string()),
    };
    assert_eq!(profile_text(&m).unwrap_err(), InstallError::UnsupportedInstallMethod(2));
    m.install_method = 3;
    assert_eq!(profile_text(&m).unwrap(), "{}");
    m.install_profile_json = None;
    assert_eq!(profile_text(&m).unwrap_err(), InstallError::MissingInstallProfile);
}
