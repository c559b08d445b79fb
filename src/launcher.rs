use vstd::prelude::*;

use crate::processors::{join_path, join_spec};

verus! {

/// The directories and files of the native game launcher.
#[derive(Debug, Clone)]
pub struct Launcher {
    pub work_directory: String,
    pub libraries_directory: String,
    pub versions_directory: String,
    pub cache_directory: String,
    pub launcher_profiles_path: String,
    pub launcher_exec: String,
}

impl Launcher {
    /// A launcher working in `work_directory`: libraries and versions live
    /// under it, next to `launcher_profiles.json`.
    pub fn new(work_directory: &str, cache_directory: &str, launcher_exec: &str) -> (r: Launcher)
        ensures
            r.work_directory@ == work_directory@,
            r.cache_directory@ == cache_directory@,
            r.launcher_exec@ == launcher_exec@,
            r.libraries_directory@ == join_spec(work_directory@, "libraries"@),
            r.versions_directory@ == join_spec(work_directory@, "versions"@),
            r.launcher_profiles_path@ == join_spec(work_directory@, "launcher_profiles.json"@),
    {
        Launcher {
            launcher_profiles_path: join_path(work_directory, "launcher_profiles.json"),
            launcher_exec: String::from_str(launcher_exec),
            cache_directory: String::from_str(cache_directory),
            libraries_directory: join_path(work_directory, "libraries"),
            versions_directory: join_path(work_directory, "versions"),
            work_directory: String::from_str(work_directory),
        }
    }
}

} // verus!
