use polyblock::error::InstallError;
use polyblock::events::{EventConfig, Key};
use polyblock::launcher::Launcher;
use polyblock::minecraft::{
    verify_version_jar, version_ident, VersionManifestVersion, VersionManifestVersionType,
};
use polyblock::mods::{join, ModFileInfoMod};
use polyblock::paths::Paths;
use polyblock::routes::MenuOption;
use polyblock::util::{is_all_same, wrap_add, wrap_dec, wrap_inc, wrap_sub};

fn version(id: &str, t: VersionManifestVersionType) -> VersionManifestVersion {
    VersionManifestVersion { id: id.to_string(), version_type: t, url: String::new(), time: 0, release_time: 0 }
}

#[test]
fn wrapping_moves() {
    assert_eq!(wrap_dec(0, 5), 4);
    assert_eq!(wrap_dec(3, 5), 2);
    assert_eq!(wrap_inc(4, 5), 0);
    assert_eq!(wrap_inc(1, 5), 2);
    assert_eq!(wrap_sub(2, 10, 5), 0);
    assert_eq!(wrap_sub(7, 10, 5), 2);
    assert_eq!(wrap_add(7, 10, 5), 9);
    assert_eq!(wrap_add(2, 10, 5), 7);
}

#[test]
fn all_same() {
    assert!(is_all_same::<u8>(&[]));
    assert!(is_all_same(&[3, 3, 3]));
    assert!(!is_all_same(&[3, 3, 4]));
}

#[test]
fn function_keys() {
    assert_eq!(Key::from_f(0), Key::F0);
    assert_eq!(Key::from_f(1), Key::F1);
    assert_eq!(Key::from_f(12), Key::F12);
    let c = EventConfig::default();
    assert_eq!(c.exit_key, Key::Ctrl('c'));
    assert_eq!((c.tick_rate_min, c.tick_rate_max), (25, 250));
}

#[test]
fn menus() {
    assert_eq!(MenuOption::vanilla().len(), 7);
    assert_eq!(MenuOption::forge().len(), 9);
    assert_eq!(MenuOption::forge()[2], MenuOption::ManageMods);
    assert_eq!(MenuOption::for_instance(false), MenuOption::vanilla());
    assert_eq!(MenuOption::PlayShowLog.label(), "Play (show log)");
}

#[test]
fn version_idents() {
    assert_eq!(version_ident(&version("20w14infinite", VersionManifestVersionType::Snapshot)), "April Fools' joke");
    assert_eq!(version_ident(&version("rd-132211", VersionManifestVersionType::OldAlpha)), "Pre-classic");
    assert_eq!(version_ident(&version("c0.0.11a", VersionManifestVersionType::OldAlpha)), "Classic");
    assert_eq!(version_ident(&version("inf-20100618", VersionManifestVersionType::OldAlpha)), "Infdev");
    assert_eq!(version_ident(&version("a1.0.4", VersionManifestVersionType::OldAlpha)), "Alpha");
    assert_eq!(version_ident(&version("b1.7.3", VersionManifestVersionType::OldBeta)), "Beta");
    assert_eq!(version_ident(&version("20w45a", VersionManifestVersionType::Snapshot)), "Snapshot");
    assert_eq!(version_ident(&version("1.14.4", VersionManifestVersionType::Release)), "Release");
    assert_eq!(version_ident(&version("1.0", VersionManifestVersionType::OldBeta)), "");
}

#[test]
fn version_paths_and_jar_check() {
    let v = version("1.14.4", VersionManifestVersionType::Release);
    assert_eq!(v.launcher_version_json("/v"), "/v/1.14.4/1.14.4.json");
    assert_eq!(v.launcher_version_jar("/v"), "/v/1.14.4/1.14.4.jar");
    assert_eq!(verify_version_jar(&v, "aa", "aa"), Ok(()));
    assert_eq!(
        verify_version_jar(&v, "aa", "bb"),
        Err(InstallError::ChecksumMismatch("1.14.4".to_string()))
    );
}

#[test]
fn launcher_and_paths_layout() {
    let l = Launcher::new("/work", "/cache", "/bin/launcher");
    assert_eq!(l.libraries_directory, "/work/libraries");
    assert_eq!(l.versions_directory, "/work/versions");
    assert_eq!(l.launcher_profiles_path, "/work/launcher_profiles.json");
    let p = Paths::new("/data", "/cache");
    assert_eq!(p.directory.launcher_work, "/data/.minecraft");
    assert_eq!(p.directory.forge_version_manifests_cache, "/cache/forge_version_manifests");
    assert_eq!(p.file.instances, "/data/instances.json");
    assert_eq!(p.file.forge_versions_cache, "/cache/forge.json");
}

#[test]
fn mod_descriptors() {
    let m = ModFileInfoMod::from_mods_toml_entry(
        "test".to_string(),
        Some("${file.jarVersion}".to_string()),
        "Test mod".to_string(),
        "Just a test mod\n",
        None,
        &Some("testauthor".to_string()),
        &Some("6.0.0.3".to_string()),
    );
    assert_eq!(m.version.as_deref(), Some("6.0.0.3"));
    assert_eq!(m.authors.as_deref(), Some("testauthor"));
    assert_eq!(m.description.as_deref(), Some("Just a test mod"));
    assert_eq!(m.name.as_deref(), Some("Test mod"));
    let old = ModFileInfoMod::from_mc_mod_info_entry(
        "test".to_string(),
        Some("Test mod".to_string()),
        Some("6.0.0.3".to_string()),
        Some(" Just a test mod ".to_string()),
        &vec!["a".to_string(), "b".to_string()],
    );
    assert_eq!(old.authors.as_deref(), Some("a, b"));
    assert_eq!(old.description.as_deref(), Some("Just a test mod"));
    let none = ModFileInfoMod::from_mc_mod_info_entry("x".to_string(), None, None, None, &Vec::new());
    assert_eq!(none.authors, None);
    assert_eq!(join(&vec!["x".to_string()], ", "), "x");
}

#[test]
fn error_messages_name_the_culprit() {
    assert_eq!(
        InstallError::MissingVariable("SIDE".to_string()).message(),
        "Invalid variable in forge install profile: SIDE"
    );
    assert!(InstallError::JavaNotFound.message().contains("JAVA_HOME"));
    assert_eq!(
        InstallError::LibraryDownloads(vec!["a".to_string(), "b".to_string()]).message(),
        "Failed to download libraries: a; b"
    );
    assert_eq!(InstallError::Io("disk".to_string()).message(), "disk");
}

#[test]
fn wrap_add_from_last_place_ignores_change() {
    assert_eq!(wrap_add(2, 3, 10), 0);
}
