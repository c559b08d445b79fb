use vstd::prelude::*;

use crate::processors::{join_path, join_spec};

verus! {

/// The files the application keeps.
#[derive(Debug, Clone)]
pub struct FilePaths {
    pub minecraft_versions_cache: String,
    pub forge_versions_cache: String,
    pub config: String,
    pub instances: String,
}

/// The directories the application keeps.
#[derive(Debug, Clone)]
pub struct DirectoryPaths {
    pub data: String,
    pub cache: String,
    pub instances: String,
    pub launcher_work: String,
    pub launcher_cache: String,
    pub forge_version_manifests_cache: String,
}

/// Every place the application reads or writes.
#[derive(Debug, Clone)]
pub struct Paths {
    pub file: FilePaths,
    pub directory: DirectoryPaths,
}

impl Paths {
    /// Lays out files and directories under the data and cache directories.
    pub fn new(data_directory: &str, cache_directory: &str) -> (r: Paths)
        ensures
            r.directory.data@ == data_directory@,
            r.directory.cache@ == cache_directory@,
            r.directory.instances@ == join_spec(data_directory@, "instances"@),
            r.directory.launcher_work@ == join_spec(data_directory@, ".minecraft"@),
            r.directory.launcher_cache@ == join_spec(cache_directory@, "launcher"@),
            r.directory.forge_version_manifests_cache@ == join_spec(
                cache_directory@,
                "forge_version_manifests"@,
            ),
            r.file.minecraft_versions_cache@ == join_spec(cache_directory@, "versions.json"@),
            r.file.forge_versions_cache@ == join_spec(cache_directory@, "forge.json"@),
            r.file.instances@ == join_spec(data_directory@, "instances.json"@),
            r.file.config@ == join_spec(data_directory@, "config.json"@),
    {
        let directory = DirectoryPaths {
            data: String::from_str(data_directory),
            cache: String::from_str(cache_directory),
            instances: join_path(data_directory, "instances"),
            launcher_work: join_path(data_directory, ".minecraft"),
            launcher_cache: join_path(cache_directory, "launcher"),
            forge_version_manifests_cache: join_path(cache_directory, "forge_version_manifests"),
        };
        let file = FilePaths {
            minecraft_versions_cache: join_path(cache_directory, "versions.json"),
            forge_versions_cache: join_path(cache_directory, "forge.json"),
            instances: join_path(data_directory, "instances.json"),
            config: join_path(data_directory, "config.json"),
        };
        Paths { file, directory }
    }
}

} // verus!
