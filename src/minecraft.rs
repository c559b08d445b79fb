use vstd::prelude::*;

use crate::error::InstallError;
use crate::install::{version_file_spec, version_jar_spec};
use crate::processors::join_path;
use crate::text::{same, starts_with};

verus! {

/// The release channel of a base game version.
#[derive(Debug, Clone, Copy, PartialEq, Eq)]
pub enum VersionManifestVersionType {
    Snapshot,
    Release,
    OldBeta,
    OldAlpha,
}

/// The newest release and snapshot ids.
#[derive(Debug, Clone)]
pub struct VersionManifestLatest {
    pub release: String,
    pub snapshot: String,
}

/// A base game version as the version catalog lists it. Times are seconds
/// since the Unix epoch.
#[derive(Debug, Clone)]
pub struct VersionManifestVersion {
    pub id: String,
    pub version_type: VersionManifestVersionType,
    pub url: String,
    pub time: i64,
    pub release_time: i64,
}

/// The version catalog.
#[derive(Debug, Clone)]
pub struct VersionManifest {
    pub latest: VersionManifestLatest,
    pub versions: Vec<VersionManifestVersion>,
}

pub open spec fn has_prefix(s: Seq<char>, p: Seq<char>) -> bool {
    p.len() <= s.len() && s.subrange(0, p.len() as int) == p
}

/// The era a base game version belongs to, by its id and channel.
pub open spec fn ident_spec(id: Seq<char>, t: VersionManifestVersionType) -> Seq<char> {
    if id == "3D Shareware v1.34"@ || id == "20w14infinite"@ {
        "April Fools' joke"@
    } else if has_prefix(id, "rd"@) {
        "Pre-classic"@
    } else if has_prefix(id, "c"@) {
        "Classic"@
    } else if has_prefix(id, "inf"@) {
        "Infdev"@
    } else if has_prefix(id, "a"@) {
        "Alpha"@
    } else if has_prefix(id, "b"@) {
        "Beta"@
    } else if t == VersionManifestVersionType::Snapshot {
        "Snapshot"@
    } else if t == VersionManifestVersionType::Release {
        "Release"@
    } else {
        ""@
    }
}

/// Names the era a base game version belongs to.
pub fn version_ident(version: &VersionManifestVersion) -> (r: &'static str)
    ensures
        r@ == ident_spec(version.id@, version.version_type),
{
    let id = version.id.as_str();
    if same(id, "3D Shareware v1.34") || same(id, "20w14infinite") {
        "April Fools' joke"
    } else if starts_with(id, "rd") {
        "Pre-classic"
    } else if starts_with(id, "c") {
        "Classic"
    } else if starts_with(id, "inf") {
        "Infdev"
    } else if starts_with(id, "a") {
        "Alpha"
    } else if starts_with(id, "b") {
        "Beta"
    } else {
        match version.version_type {
            VersionManifestVersionType::Snapshot => "Snapshot",
            VersionManifestVersionType::Release => "Release",
            _ => "",
        }
    }
}

impl VersionManifestVersion {
    /// `versions/<id>/<id>.json`
    pub fn launcher_version_json(&self, versions_directory: &str) -> (r: String)
        ensures
            r@ == version_file_spec(versions_directory@, self.id@),
    {
        let dir = join_path(versions_directory, self.id.as_str());
        let mut name = self.id.clone();
        name.append(".json");
        join_path(dir.as_str(), name.as_str())
    }

    /// `versions/<id>/<id>.jar`
    pub fn launcher_version_jar(&self, versions_directory: &str) -> (r: String)
        ensures
            r@ == version_jar_spec(versions_directory@, self.id@),
    {
        let dir = join_path(versions_directory, self.id.as_str());
        let mut name = self.id.clone();
        name.append(".jar");
        join_path(dir.as_str(), name.as_str())
    }
}

/// The base game archive must match the checksum its descriptor declares.
pub fn verify_version_jar(version: &VersionManifestVersion, expected: &str, actual: &str) -> (r:
    Result<(), InstallError>)
    ensures
        r is Ok <==> actual@ == expected@,
        r matches Err(e) ==> (e matches InstallError::ChecksumMismatch(id) && id@ == version.id@),
{
    if same(actual, expected) {
        Ok(())
    } else {
        Err(InstallError::ChecksumMismatch(version.id.clone()))
    }
}

} // verus!
