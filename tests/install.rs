use polyblock::download::FetchOutcome;
use polyblock::error::InstallError;
use polyblock::install::{Action, Event, InstallRequest, Installer, Stage, MANIFEST_URL};
use polyblock::java::Platform;
use polyblock::profile::{DataValue, ForgeManifest, InstallProfile, Library, Processor};

const TARGET: &str = "/libs/net/minecraftforge/forge/1.14.4-28.1.0/forge-1.14.4-28.1.0-client.jar";

fn request(java_home: Option<&str>) -> InstallRequest {
    InstallRequest {
        minecraft_version_id: "1.14.4".to_string(),
        forge_version_name: "1.14.4-28.1.0".to_string(),
        manifests_cache_directory: "/cache".to_string(),
        libraries_directory: "/libs".to_string(),
        versions_directory: "/versions".to_string(),
        java_home: java_home.map(|s| s.to_string()),
        platform: Platform::Unix,
    }
}

fn data(key: &str, client: &str) -> (String, DataValue) {
    (key.to_string(), DataValue { client: client.to_string(), server: String::new() })
}

fn manifest(install_method: u64) -> ForgeManifest {
    ForgeManifest {
        name: "forge-28.1.0".to_string(),
        install_method,
        version_json: "{\"id\":\"x\"}".to_string(),
        install_profile_json: Some("{}".to_string()),
    }
}

fn profile() -> InstallProfile {
    InstallProfile {
        path: "net.minecraftforge:forge:1.14.4-28.1.0".to_string(),
        data: vec![
            data("PATCHED", "[net.minecraftforge:forge:1.14.4-28.1.0:client]"),
            data("PATCHED_SHA", "'abc'"),
        ],
        processors: vec![Processor {
            jar: "net.minecraftforge:binarypatcher:1.0.12:fatjar".to_string(),
            classpath: Vec::new(),
            args: vec!["--clean".to_string(), "{MINECRAFT_JAR}".to_string()],
        }],
        libraries: vec![Library {
            name: "a:b:1".to_string(),
            path: "a/b/1/b-1.jar".to_string(),
            url: "http://x/b-1.jar".to_string(),
            sha1: None,
        }],
    }
}

/// Runs the installer up to the point where it asks about the final archive.
fn run_to_short_circuit() -> Installer {
    let mut i = Installer::new(request(Some("/jdk")));
    match i.step(Event::Begin) {
        Action::CheckInterpreter { path } => assert_eq!(path, "/jdk/bin/java"),
        a => panic!("unexpected {:?}", a),
    }
    match i.step(Event::InterpreterChecked(true)) {
        Action::FetchManifest { path, url } => {
            assert_eq!(path, "/cache/1.14.4-28.1.0.json");
            assert_eq!(url, format!("{}/1.14.4-28.1.0", MANIFEST_URL));
        }
        a => panic!("unexpected {:?}", a),
    }
    match i.step(Event::ManifestFetched(Ok(manifest(3)))) {
        Action::ParseProfile { text } => assert_eq!(text, "{}"),
        a => panic!("unexpected {:?}", a),
    }
    assert!(matches!(i.step(Event::ProfileParsed(Ok(profile()))), Action::EnsureBaseGame));
    match i.step(Event::BaseGameReady(Ok(()))) {
        Action::WriteVersionFile { path, id, json } => {
            assert_eq!(id, "1.14.4-forge-28.1.0");
            assert_eq!(path, "/versions/1.14.4-forge-28.1.0/1.14.4-forge-28.1.0.json");
            assert_eq!(json, "{\"id\":\"x\"}");
        }
        a => panic!("unexpected {:?}", a),
    }
    match i.step(Event::VersionFileWritten(Ok(()))) {
        Action::DownloadLibraries { libraries } => {
            assert_eq!(libraries.len(), 1);
            assert_eq!(libraries[0].path, "/libs/a/b/1/b-1.jar");
            assert_eq!(libraries[0].url, "http://x/b-1.jar");
        }
        a => panic!("unexpected {:?}", a),
    }
    match i.step(Event::LibrariesFetched(vec![FetchOutcome::UpToDate])) {
        Action::CheckFinalArchive { path } => assert_eq!(path, TARGET),
        a => panic!("unexpected {:?}", a),
    }
    i
}

#[test]
fn installed_archive_short_circuits() {
    for _ in 0..2 {
        let mut i = run_to_short_circuit();
        assert!(matches!(
            i.step(Event::FinalArchiveChecked(Some("abc".to_string()))),
            Action::Finish(Ok(()))
        ));
        assert!(matches!(i.stage, Stage::Done));
    }
}

#[test]
fn mismatched_archive_reruns_processors() {
    let mut i = run_to_short_circuit();
    let jar = "/libs/net/minecraftforge/binarypatcher/1.0.12/binarypatcher-1.0.12-fatjar.jar";
    match i.step(Event::FinalArchiveChecked(Some("stale".to_string()))) {
        Action::ReadMainClass { jar: j } => assert_eq!(j, jar),
        a => panic!("unexpected {:?}", a),
    }
    match i.step(Event::MainClassRead(Ok("Main-Class: net.Patcher\n".to_string()))) {
        Action::RunProcessor { java, main_class, command } => {
            assert_eq!(java, "/jdk/bin/java");
            assert_eq!(main_class, "net.Patcher");
            assert_eq!(command.classpath, jar);
            assert_eq!(
                command.args,
                vec!["--clean".to_string(), "/versions/1.14.4/1.14.4.jar".to_string()]
            );
        }
        a => panic!("unexpected {:?}", a),
    }
    match i.step(Event::ProcessorExited(Ok(()))) {
        Action::HashFinalArchive { path } => assert_eq!(path, TARGET),
        a => panic!("unexpected {:?}", a),
    }
    assert!(matches!(
        i.step(Event::FinalArchiveHashed(Ok("abc".to_string()))),
        Action::Finish(Ok(()))
    ));
}

#[test]
fn absent_archive_runs_processors() {
    let mut i = run_to_short_circuit();
    assert!(matches!(i.step(Event::FinalArchiveChecked(None)), Action::ReadMainClass { .. }));
}

#[test]
fn final_checksum_mismatch_is_fatal() {
    let mut i = run_to_short_circuit();
    i.step(Event::FinalArchiveChecked(None));
    i.step(Event::MainClassRead(Ok("Main-Class: net.Patcher".to_string())));
    i.step(Event::ProcessorExited(Ok(())));
    match i.step(Event::FinalArchiveHashed(Ok("wrong".to_string()))) {
        Action::Finish(Err(InstallError::ChecksumMismatch(p))) => assert_eq!(p, TARGET),
        a => panic!("unexpected {:?}", a),
    }
    assert!(matches!(i.stage, Stage::Failed));
}

#[test]
fn processor_failure_stops_the_run() {
    let mut i = run_to_short_circuit();
    i.step(Event::FinalArchiveChecked(None));
    i.step(Event::MainClassRead(Ok("Main-Class: net.Patcher".to_string())));
    match i.step(Event::ProcessorExited(Err("bad input".to_string()))) {
        Action::Finish(Err(InstallError::ProcessorFailed(jar, out))) => {
            assert_eq!(
                jar,
                "/libs/net/minecraftforge/binarypatcher/1.0.12/binarypatcher-1.0.12-fatjar.jar"
            );
            assert_eq!(out, "bad input");
        }
        a => panic!("unexpected {:?}", a),
    }
}

#[test]
fn missing_main_class_is_fatal() {
    let mut i = run_to_short_circuit();
    i.step(Event::FinalArchiveChecked(None));
    assert!(matches!(
        i.step(Event::MainClassRead(Ok("Manifest-Version: 1.0".to_string()))),
        Action::Finish(Err(InstallError::MissingMainClass(_)))
    ));
}

#[test]
fn unsupported_install_method_fails_fast() {
    let mut i = Installer::new(request(Some("/jdk")));
    i.step(Event::Begin);
    i.step(Event::InterpreterChecked(true));
    assert!(matches!(
        i.step(Event::ManifestFetched(Ok(manifest(2)))),
        Action::Finish(Err(InstallError::UnsupportedInstallMethod(2)))
    ));
    assert!(matches!(
        i.step(Event::ProfileParsed(Ok(profile()))),
        Action::Finish(Err(InstallError::UnexpectedEvent))
    ));
}

#[test]
fn library_failures_are_fatal() {
    let mut i = Installer::new(request(Some("/jdk")));
    i.step(Event::Begin);
    i.step(Event::InterpreterChecked(true));
    i.step(Event::ManifestFetched(Ok(manifest(3))));
    i.step(Event::ProfileParsed(Ok(profile())));
    i.step(Event::BaseGameReady(Ok(())));
    i.step(Event::VersionFileWritten(Ok(())));
    match i.step(Event::LibrariesFetched(vec![
        FetchOutcome::Failed("a".to_string()),
        FetchOutcome::Failed("b".to_string()),
    ])) {
        Action::Finish(Err(InstallError::LibraryDownloads(list))) => assert_eq!(list.len(), 2),
        a => panic!("unexpected {:?}", a),
    }
}

#[test]
fn interpreter_discovery() {
    let mut i = Installer::new(request(None));
    assert!(matches!(i.step(Event::Begin), Action::DiscoverJavaHome));
    assert!(matches!(
        i.step(Event::JavaHomeDiscovered(None)),
        Action::Finish(Err(InstallError::JavaNotFound))
    ));
    let mut j = Installer::new(request(None));
    j.step(Event::Begin);
    match j.step(Event::JavaHomeDiscovered(Some("/usr/lib/jvm".to_string()))) {
        Action::CheckInterpreter { path } => assert_eq!(path, "/usr/lib/jvm/bin/java"),
        a => panic!("unexpected {:?}", a),
    }
    match j.step(Event::InterpreterChecked(false)) {
        Action::Finish(Err(InstallError::NotAFile(p))) => assert_eq!(p, "/usr/lib/jvm/bin/java"),
        a => panic!("unexpected {:?}", a),
    }
}

#[test]
fn missing_patched_entry_is_fatal() {
    let mut i = Installer::new(request(Some("/jdk")));
    i.step(Event::Begin);
    i.step(Event::InterpreterChecked(true));
    i.step(Event::ManifestFetched(Ok(manifest(3))));
    let mut p = profile();
    p.data.remove(0);
    i.step(Event::ProfileParsed(Ok(p)));
    i.step(Event::BaseGameReady(Ok(())));
    i.step(Event::VersionFileWritten(Ok(())));
    assert!(matches!(
        i.step(Event::LibrariesFetched(Vec::new())),
        Action::Finish(Err(InstallError::MissingVariable(_)))
    ));
}

#[test]
fn outside_failures_are_reported() {
    let mut i = Installer::new(request(Some("/jdk")));
    i.step(Event::Begin);
    i.step(Event::InterpreterChecked(true));
    match i.step(Event::ManifestFetched(Err("offline".to_string()))) {
        Action::Finish(Err(InstallError::Io(m))) => assert_eq!(m, "offline"),
        a => panic!("unexpected {:?}", a),
    }
}

#[test]
fn later_processor_with_missing_variable_runs_earlier_ones_first() {
    let mut i = Installer::new(request(Some("/jdk")));
    i.step(Event::Begin);
    i.step(Event::InterpreterChecked(true));
    i.step(Event::ManifestFetched(Ok(manifest(3))));
    let mut p = profile();
    p.processors.push(Processor {
        jar: "a:b:1".to_string(),
        classpath: Vec::new(),
        args: vec!["{NOPE}".to_string()],
    });
    i.step(Event::ProfileParsed(Ok(p)));
    i.step(Event::BaseGameReady(Ok(())));
    i.step(Event::VersionFileWritten(Ok(())));
    i.step(Event::LibrariesFetched(Vec::new()));
    assert!(matches!(
        i.step(Event::FinalArchiveChecked(None)),
        Action::ReadMainClass { .. }
    ));
    assert!(matches!(
        i.step(Event::MainClassRead(Ok("Main-Class: net.Patcher".to_string()))),
        Action::RunProcessor { .. }
    ));
    match i.step(Event::ProcessorExited(Ok(()))) {
        Action::Finish(Err(InstallError::MissingVariable(k))) => assert_eq!(k, "NOPE"),
        a => panic!("unexpected {:?}", a),
    }
}
