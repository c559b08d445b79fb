use vstd::prelude::*;

use crate::download::{download_libraries, failures, FetchOutcome};
use crate::error::InstallError;
use crate::java::{
    classpath_separator, find_exec, java_exec_spec, main_class, manifest_lookup, manifest_spec,
    Platform,
};
use crate::maven::{
    coordinate_classifier, coordinate_segments, is_well_formed, maven_path, patch_path_of,
    Coordinate,
};
use crate::processors::{
    command_spec, first_missing, has_missing, join_path, join_spec, library_path, library_spec,
    plan_processor, processor_resolves, ProcessorCommand, ProcessorContext,
};
use crate::profile::{
    lookup, lookup_client, profile_text, unwrap_spec, unwrap_value, DataValue, ForgeManifest,
    InstallProfile, Library, Processor, SUPPORTED_INSTALL_METHOD,
};
use crate::text::{same, views};

verus! {

/// Where vendor manifests are fetched from, one per version name.
pub const MANIFEST_URL: &'static str = "https://addons-ecs.forgesvc.net/api/v2/minecraft/modloader";

/// Everything an installation needs to know up front.
#[derive(Debug, Clone)]
pub struct InstallRequest {
    /// Id of the base game version.
    pub minecraft_version_id: String,
    /// Name of the mod-loader version.
    pub forge_version_name: String,
    /// Where downloaded vendor manifests are cached.
    pub manifests_cache_directory: String,
    pub libraries_directory: String,
    pub versions_directory: String,
    /// A configured interpreter home, if any.
    pub java_home: Option<String>,
    pub platform: Platform,
}

/// What the installation is waiting for.
#[derive(Debug, Clone, Copy)]
pub enum Stage {
    Start,
    LocateInterpreter,
    CheckInterpreter,
    FetchManifest,
    ParseProfile,
    EnsureBaseGame,
    WriteVersionMetadata,
    DownloadLibraries,
    CheckShortCircuit,
    ReadMainClass,
    RunProcessor,
    VerifyFinalArtifact,
    Done,
    Failed,
}

/// What the outside world reports back after an action.
#[derive(Debug)]
pub enum Event {
    Begin,
    /// The interpreter home found on this machine, if any.
    JavaHomeDiscovered(Option<String>),
    /// Whether the interpreter path names an existing file.
    InterpreterChecked(bool),
    /// The vendor manifest, read from cache or fetched.
    ManifestFetched(Result<ForgeManifest, String>),
    ProfileParsed(Result<InstallProfile, String>),
    BaseGameReady(Result<(), String>),
    VersionFileWritten(Result<(), String>),
    LibrariesFetched(Vec<FetchOutcome>),
    /// The checksum of the final archive if it exists.
    FinalArchiveChecked(Option<String>),
    /// The manifest text of the current processor's archive.
    MainClassRead(Result<String, String>),
    /// How the current processor exited: successfully, or not with its
    /// captured output.
    ProcessorExited(Result<(), String>),
    FinalArchiveHashed(Result<String, String>),
}

/// What the outside world is asked to do next.
#[derive(Debug)]
pub enum Action {
    /// Look for an interpreter home on this machine.
    DiscoverJavaHome,
    /// Check that the interpreter path names a file.
    CheckInterpreter { path: String },
    /// Read the vendor manifest from `path`, first fetching it from `url` if it is not there.
    FetchManifest { path: String, url: String },
    /// Parse the install profile text.
    ParseProfile { text: String },
    /// Download and verify the base game.
    EnsureBaseGame,
    /// Write the merged version descriptor, unless a file is already at `path`.
    WriteVersionFile { path: String, id: String, json: String },
    /// Bring every library up to date, a bounded number at a time.
    DownloadLibraries { libraries: Vec<Library> },
    /// Report the checksum of the final archive, if it exists.
    CheckFinalArchive { path: String },
    /// Read the manifest text of a processor archive.
    ReadMainClass { jar: String },
    /// Run `java -cp <classpath> <main_class> <args...>`.
    RunProcessor { java: String, main_class: String, command: ProcessorCommand },
    /// Report the checksum of the final archive.
    HashFinalArchive { path: String },
    /// The installation is over.
    Finish(Result<(), InstallError>),
}

/// The installation state machine.
#[derive(Debug, Clone)]
pub struct Installer {
    pub request: InstallRequest,
    pub stage: Stage,
    /// The interpreter executable.
    pub java: String,
    pub manifest: Option<ForgeManifest>,
    pub profile: Option<InstallProfile>,
    /// Path of the archive the processors produce.
    pub target: String,
    /// Its expected checksum.
    pub target_sha: String,
    /// The values processor arguments are resolved against.
    pub context: ProcessorContext,
    pub commands: Vec<ProcessorCommand>,
    /// Index of the current processor.
    pub next: usize,
}

/// Path of the cached vendor manifest.
pub open spec fn manifest_path_spec(req: InstallRequest) -> Seq<char> {
    join_spec(req.manifests_cache_directory@, req.forge_version_name@ + ".json"@)
}

/// URL of the vendor manifest.
pub open spec fn manifest_url_spec(req: InstallRequest) -> Seq<char> {
    MANIFEST_URL@ + "/"@ + req.forge_version_name@
}

/// Id of the merged version: base game id, dash, mod-loader name.
pub open spec fn merged_id_spec(req: InstallRequest, m: ForgeManifest) -> Seq<char> {
    req.minecraft_version_id@ + "-"@ + m.name@
}

/// `versions/<id>/<id>.json`
pub open spec fn version_file_spec(versions: Seq<char>, id: Seq<char>) -> Seq<char> {
    join_spec(join_spec(versions, id), id + ".json"@)
}

/// `versions/<id>/<id>.jar`
pub open spec fn version_jar_spec(versions: Seq<char>, id: Seq<char>) -> Seq<char> {
    join_spec(join_spec(versions, id), id + ".jar"@)
}

/// The libraries with their paths placed under the libraries directory.
pub open spec fn placed_libraries(libs: Seq<Library>, dir: Seq<char>, out: Seq<Library>) -> bool {
    &&& out.len() == libs.len()
    &&& forall|i: int|
        0 <= i < libs.len() ==> {
            &&& (#[trigger] out[i]).path@ == join_spec(dir, libs[i].path@)
            &&& out[i].name == libs[i].name
            &&& out[i].url == libs[i].url
            &&& out[i].sha1 == libs[i].sha1
        }
}

/// The final archive's coordinate and checksum are both in the data, wrapped.
pub open spec fn target_known(p: InstallProfile) -> bool {
    &&& lookup(p.data@, "PATCHED"@) matches Some(c) && c.len() >= 2 && is_well_formed(
        unwrap_spec(c),
    )
    &&& lookup(p.data@, "PATCHED_SHA"@) matches Some(s) && s.len() >= 2
}

/// The expected checksum of the final archive.
pub open spec fn target_sha_spec(p: InstallProfile) -> Seq<char> {
    unwrap_spec(lookup(p.data@, "PATCHED_SHA"@)->0)
}

/// The path of the final archive.
pub open spec fn target_spec(p: InstallProfile, libraries: Seq<char>) -> Seq<char> {
    join_spec(libraries, maven_path(unwrap_spec(lookup(p.data@, "PATCHED"@)->0)))
}

/// Places every library's path under the libraries directory.
pub fn place_libraries(libs: &Vec<Library>, dir: &str) -> (r: Vec<Library>)
    ensures
        placed_libraries(libs@, dir@, r@),
{
    let mut out: Vec<Library> = Vec::new();
    let mut i: usize = 0;
    while i < libs.len()
        invariant
            i <= libs@.len(),
            out@.len() == i,
            forall|j: int|
                0 <= j < i ==> {
                    &&& (#[trigger] out@[j]).path@ == join_spec(dir@, libs@[j].path@)
                    &&& out@[j].name == libs@[j].name
                    &&& out@[j].url == libs@[j].url
                    &&& out@[j].sha1 == libs@[j].sha1
                },
        decreases libs@.len() - i,
    {
        let lib = &libs[i];
        out.push(
            Library {
                name: lib.name.clone(),
                path: join_path(dir, lib.path.as_str()),
                url: lib.url.clone(),
                sha1: match &lib.sha1 {
                    Some(s) => Some(s.clone()),
                    None => None,
                },
            },
        );
        i = i + 1;
    }
    out
}

/// The path-list separator of a platform.
pub open spec fn separator_spec(p: Platform) -> Seq<char> {
    if p == Platform::Windows {
        ";"@
    } else {
        ":"@
    }
}

/// The binary patch path beside the archive a coordinate names.
pub open spec fn patch_of(c: Seq<char>) -> Seq<char> {
    let s = coordinate_segments(c);
    patch_path_of(s[0], s[1], s[2], coordinate_classifier(c))
}

/// The context the processors of profile `p` resolve against.
pub open spec fn context_spec(ctx: ProcessorContext, req: InstallRequest, p: InstallProfile) -> bool {
    &&& ctx.libraries_directory@ == req.libraries_directory@
    &&& ctx.minecraft_jar@ == version_jar_spec(req.versions_directory@, req.minecraft_version_id@)
    &&& ctx.binpatch@ == join_spec(req.libraries_directory@, patch_of(p.path@))
    &&& ctx.separator@ == separator_spec(req.platform)
}

/// Whether `event` is what `stage` waits for.
pub open spec fn expects(stage: Stage, event: Event) -> bool {
    match (stage, event) {
        (Stage::Start, Event::Begin) => true,
        (Stage::LocateInterpreter, Event::JavaHomeDiscovered(_)) => true,
        (Stage::CheckInterpreter, Event::InterpreterChecked(_)) => true,
        (Stage::FetchManifest, Event::ManifestFetched(_)) => true,
        (Stage::ParseProfile, Event::ProfileParsed(_)) => true,
        (Stage::EnsureBaseGame, Event::BaseGameReady(_)) => true,
        (Stage::WriteVersionMetadata, Event::VersionFileWritten(_)) => true,
        (Stage::DownloadLibraries, Event::LibrariesFetched(_)) => true,
        (Stage::CheckShortCircuit, Event::FinalArchiveChecked(_)) => true,
        (Stage::ReadMainClass, Event::MainClassRead(_)) => true,
        (Stage::RunProcessor, Event::ProcessorExited(_)) => true,
        (Stage::VerifyFinalArtifact, Event::FinalArchiveHashed(_)) => true,
        _ => false,
    }
}

/// `stage` is the one that waits for the answer to action `a`.
pub open spec fn waits_for(a: Action, stage: Stage) -> bool {
    match a {
        Action::DiscoverJavaHome => stage is LocateInterpreter,
        Action::CheckInterpreter { .. } => stage is CheckInterpreter,
        Action::FetchManifest { .. } => stage is FetchManifest,
        Action::ParseProfile { .. } => stage is ParseProfile,
        Action::EnsureBaseGame => stage is EnsureBaseGame,
        Action::WriteVersionFile { .. } => stage is WriteVersionMetadata,
        Action::DownloadLibraries { .. } => stage is DownloadLibraries,
        Action::CheckFinalArchive { .. } => stage is CheckShortCircuit,
        Action::ReadMainClass { .. } => stage is ReadMainClass,
        Action::RunProcessor { .. } => stage is RunProcessor,
        Action::HashFinalArchive { .. } => stage is VerifyFinalArtifact,
        Action::Finish(Ok(_)) => stage is Done,
        Action::Finish(Err(_)) => stage is Failed,
    }
}

/// The event reports, at one of the two checksum gates, the expected checksum.
pub open spec fn gate_passed(stage: Stage, event: Event, sha: Seq<char>) -> bool {
    match (stage, event) {
        (Stage::CheckShortCircuit, Event::FinalArchiveChecked(Some(h))) => h@ == sha,
        (Stage::VerifyFinalArtifact, Event::FinalArchiveHashed(Ok(h))) => h@ == sha,
        _ => false,
    }
}

/// The failure an event reports from the outside world, if any.
pub open spec fn outside_failure(event: Event) -> Option<String> {
    match event {
        Event::ManifestFetched(Err(m)) => Some(m),
        Event::ProfileParsed(Err(m)) => Some(m),
        Event::BaseGameReady(Err(m)) => Some(m),
        Event::VersionFileWritten(Err(m)) => Some(m),
        Event::MainClassRead(Err(m)) => Some(m),
        Event::FinalArchiveHashed(Err(m)) => Some(m),
        _ => None,
    }
}

/// The processors reached so far are planned, each against the profile's data
/// and the context of this installation.
pub open spec fn planned(s: Installer) -> bool {
    &&& s.manifest matches Some(m) && m.install_method == SUPPORTED_INSTALL_METHOD
    &&& s.profile is Some
    &&& target_known(s.profile->0)
    &&& s.target_sha@ == target_sha_spec(s.profile->0)
    &&& s.target@ == target_spec(s.profile->0, s.request.libraries_directory@)
    &&& is_well_formed(s.profile->0.path@)
    &&& context_spec(s.context, s.request, s.profile->0)
    &&& s.commands@.len() <= s.profile->0.processors@.len()
    &&& forall|i: int|
        0 <= i < s.commands@.len() ==> command_spec(
            #[trigger] s.commands@[i],
            s.profile->0.processors@[i],
            s.profile->0.data@,
            s.context,
        )
}

impl Installer {
    /// The facts each stage relies on.
    pub open spec fn wf(&self) -> bool {
        &&& self.stage is ParseProfile ==> (self.manifest matches Some(m) && m.install_method
            == SUPPORTED_INSTALL_METHOD)
        &&& (self.stage is EnsureBaseGame || self.stage is WriteVersionMetadata
            || self.stage is DownloadLibraries || self.stage is CheckShortCircuit) ==> {
            &&& self.manifest matches Some(m) && m.install_method == SUPPORTED_INSTALL_METHOD
            &&& self.profile is Some
        }
        &&& self.stage is CheckShortCircuit ==> {
            &&& target_known(self.profile->0)
            &&& self.target_sha@ == target_sha_spec(self.profile->0)
            &&& self.target@ == target_spec(self.profile->0, self.request.libraries_directory@)
            &&& self.commands@.len() == 0
        }
        &&& (self.stage is ReadMainClass || self.stage is RunProcessor) ==> {
            &&& planned(*self)
            &&& self.next + 1 == self.commands@.len()
        }
        &&& !(self.stage is ReadMainClass || self.stage is RunProcessor
            || self.stage is VerifyFinalArtifact || self.stage is Done || self.stage is Failed)
            ==> self.commands@.len() == 0
        &&& self.stage is VerifyFinalArtifact ==> {
            &&& planned(*self)
            &&& self.commands@.len() == self.profile->0.processors@.len()
            &&& self.next == self.commands@.len()
        }
    }

    /// A fresh installation, waiting for `Event::Begin`.
    pub fn new(request: InstallRequest) -> (r: Installer)
        ensures
            r.wf(),
            r.stage is Start,
            r.request == request,
            r.commands@.len() == 0,
    {
        Installer {
            request,
            stage: Stage::Start,
            java: String::new(),
            manifest: None,
            profile: None,
            target: String::new(),
            target_sha: String::new(),
            context: ProcessorContext {
                libraries_directory: String::new(),
                minecraft_jar: String::new(),
                binpatch: String::new(),
                separator: String::new(),
            },
            commands: Vec::new(),
            next: 0,
        }
    }

    fn fail(&mut self, e: InstallError) -> (a: Action)
        ensures
            *final(self) == (Installer { stage: Stage::Failed, ..*old(self) }),
            a == Action::Finish(Err(e)),
    {
        self.stage = Stage::Failed;
        Action::Finish(Err(e))
    }

    fn check_interpreter(&mut self, home: Option<&str>, discovered: Option<&str>) -> (a: Action)
        ensures
            *final(self) == (Installer {
                stage: final(self).stage,
                java: final(self).java,
                ..*old(self)
            }),
            final(self).stage is Failed || final(self).stage is CheckInterpreter,
            final(self).stage is Failed <==> a is Finish,
            home is None && discovered is None ==> a == Action::Finish(
                Err(InstallError::JavaNotFound),
            ),
            home matches Some(h) ==> (a matches Action::CheckInterpreter { path } && path@
                == java_exec_spec(h@, old(self).request.platform)),
            home is None ==> (discovered matches Some(d) ==> a matches Action::CheckInterpreter {
                path,
            } && path@ == java_exec_spec(d@, old(self).request.platform)),
            a matches Action::CheckInterpreter { path } ==> path@ == final(self).java@,
    {
        match find_exec(home, discovered, self.request.platform) {
            Ok(path) => {
                self.java = path.clone();
                self.stage = Stage::CheckInterpreter;
                Action::CheckInterpreter { path }
            },
            Err(e) => self.fail(e),
        }
    }

    fn fetch_manifest(&mut self) -> (a: Action)
        ensures
            *final(self) == (Installer { stage: Stage::FetchManifest, ..*old(self) }),
            a matches Action::FetchManifest { path, url } && path@ == manifest_path_spec(
                old(self).request,
            ) && url@ == manifest_url_spec(old(self).request),
    {
        let mut name = self.request.forge_version_name.clone();
        name.append(".json");
        let path = join_path(self.request.manifests_cache_directory.as_str(), name.as_str());
        let mut url = String::from_str(MANIFEST_URL);
        url.append("/");
        url.append(self.request.forge_version_name.as_str());
        self.stage = Stage::FetchManifest;
        Action::FetchManifest { path, url }
    }

    fn accept_manifest(&mut self, m: ForgeManifest) -> (a: Action)
        ensures
            *final(self) == (Installer {
                stage: final(self).stage,
                manifest: final(self).manifest,
                ..*old(self)
            }),
            m.install_method != SUPPORTED_INSTALL_METHOD ==> a == Action::Finish(
                Err(InstallError::UnsupportedInstallMethod(m.install_method)),
            ),
            m.install_method == SUPPORTED_INSTALL_METHOD && m.install_profile_json is None ==> a
                == Action::Finish(Err(InstallError::MissingInstallProfile)),
            m.install_method == SUPPORTED_INSTALL_METHOD && m.install_profile_json is Some ==> (a
                matches Action::ParseProfile { text } && text == m.install_profile_json->0),
            m.install_method == SUPPORTED_INSTALL_METHOD && m.install_profile_json is Some ==> (
            final(self).stage is ParseProfile && final(self).manifest == Some(m)),
            final(self).stage is Failed || final(self).stage is ParseProfile,
            final(self).stage is Failed <==> a is Finish,
            final(self).stage is Failed ==> final(self).manifest == old(self).manifest,
    {
        let text = match profile_text(&m) {
            Ok(t) => t.clone(),
            Err(e) => return self.fail(e),
        };
        self.manifest = Some(m);
        self.stage = Stage::ParseProfile;
        Action::ParseProfile { text }
    }

    fn write_version_file(&mut self) -> (a: Action)
        requires
            old(self).manifest is Some,
        ensures
            *final(self) == (Installer { stage: Stage::WriteVersionMetadata, ..*old(self) }),
            a matches Action::WriteVersionFile { path, id, json } && id@ == merged_id_spec(
                old(self).request,
                old(self).manifest->0,
            ) && path@ == version_file_spec(old(self).request.versions_directory@, id@) && json
                == old(self).manifest->0.version_json,
    {
        let m = self.manifest.as_ref().unwrap();
        let mut id = self.request.minecraft_version_id.clone();
        id.append("-");
        id.append(m.name.as_str());
        let mut file = id.clone();
        file.append(".json");
        let dir = join_path(self.request.versions_directory.as_str(), id.as_str());
        let path = join_path(dir.as_str(), file.as_str());
        let json = m.version_json.clone();
        self.stage = Stage::WriteVersionMetadata;
        Action::WriteVersionFile { path, id, json }
    }

    fn request_libraries(&mut self) -> (a: Action)
        requires
            old(self).profile is Some,
        ensures
            *final(self) == (Installer { stage: Stage::DownloadLibraries, ..*old(self) }),
            a matches Action::DownloadLibraries { libraries } && placed_libraries(
                old(self).profile->0.libraries@,
                old(self).request.libraries_directory@,
                libraries@,
            ),
    {
        let p = self.profile.as_ref().unwrap();
        let out = place_libraries(&p.libraries, self.request.libraries_directory.as_str());
        self.stage = Stage::DownloadLibraries;
        Action::DownloadLibraries { libraries: out }
    }

    fn locate_target(&mut self) -> (a: Action)
        requires
            old(self).wf(),
            old(self).stage is DownloadLibraries,
            old(self).commands@.len() == 0,
        ensures
            final(self).wf(),
            *final(self) == (Installer {
                stage: final(self).stage,
                target: final(self).target,
                target_sha: final(self).target_sha,
                ..*old(self)
            }),
            target_known(old(self).profile->0) ==> final(self).stage is CheckShortCircuit,
            target_known(old(self).profile->0) ==> (a matches Action::CheckFinalArchive { path }
                && path@ == target_spec(old(self).profile->0, old(self).request.libraries_directory@)),
            !target_known(old(self).profile->0) ==> (final(self).stage is Failed
                && a matches Action::Finish(Err(_))),
            final(self).stage is Failed || final(self).stage is CheckShortCircuit,
            final(self).stage is Failed <==> a is Finish,
            final(self).stage is Failed ==> (final(self).target == old(self).target
                && final(self).target_sha == old(self).target_sha),
    {
        let p = self.profile.as_ref().unwrap();
        let coordinate = match lookup_client(&p.data, "PATCHED") {
            Some(c) => c,
            None => return self.fail(InstallError::MissingVariable(String::from_str("PATCHED"))),
        };
        let coordinate = match unwrap_value("PATCHED", coordinate.as_str()) {
            Ok(c) => c,
            Err(e) => return self.fail(e),
        };
        let target = match library_path(self.request.libraries_directory.as_str(), coordinate.as_str()) {
            Ok(t) => t,
            Err(e) => return self.fail(e),
        };
        let sha = match lookup_client(&p.data, "PATCHED_SHA") {
            Some(s) => s,
            None => return self.fail(
                InstallError::MissingVariable(String::from_str("PATCHED_SHA")),
            ),
        };
        let sha = match unwrap_value("PATCHED_SHA", sha.as_str()) {
            Ok(s) => s,
            Err(e) => return self.fail(e),
        };
        self.target = target.clone();
        self.target_sha = sha;
        self.stage = Stage::CheckShortCircuit;
        Action::CheckFinalArchive { path: target }
    }

    /// Plans processor `n`, the next to run, or asks for the final check when
    /// every processor has run.
    fn reach_processor(&mut self, n: usize) -> (a: Action)
        requires
            planned(*old(self)),
            old(self).commands@.len() == n,
        ensures
            final(self).wf(),
            final(self).request == old(self).request,
            final(self).java == old(self).java,
            final(self).manifest == old(self).manifest,
            final(self).profile == old(self).profile,
            final(self).target == old(self).target,
            final(self).target_sha == old(self).target_sha,
            final(self).context == old(self).context,
            final(self).commands@.len() >= n,
            forall|i: int| 0 <= i < n ==> final(self).commands@[i] == old(self).commands@[i],
            final(self).stage is Failed <==> a is Finish,
            a matches Action::Finish(r) ==> r is Err,
            final(self).stage is Failed || final(self).stage is ReadMainClass
                || final(self).stage is VerifyFinalArtifact,
            waits_for(a, final(self).stage),
            a is ReadMainClass ==> (final(self).next == n && final(self).commands@.len() == n + 1),
            n == old(self).profile->0.processors@.len() ==> (a matches Action::HashFinalArchive {
                path,
            } && path == old(self).target),
            n < old(self).profile->0.processors@.len() ==> {
                let p = old(self).profile->0.processors@[n as int];
                let data = old(self).profile->0.data@;
                &&& processor_resolves(p, data, old(self).context) ==> (a matches Action::ReadMainClass {
                    jar,
                } && jar@ == library_spec(old(self).request.libraries_directory@, p.jar@))
                &&& !processor_resolves(p, data, old(self).context) ==> a is Finish
                &&& has_missing(p, data) ==> (a matches Action::Finish(Err(InstallError::MissingVariable(k)))
                    && first_missing(p, data, k@))
            },
    {
        let p = self.profile.as_ref().unwrap();
        if n == p.processors.len() {
            self.next = n;
            self.stage = Stage::VerifyFinalArtifact;
            return Action::HashFinalArchive { path: self.target.clone() };
        }
        match plan_processor(&p.processors[n], &p.data, &self.context) {
            Ok(c) => {
                let jar = c.jar.clone();
                self.commands.push(c);
                self.next = n;
                self.stage = Stage::ReadMainClass;
                Action::ReadMainClass { jar }
            },
            Err(e) => self.fail(e),
        }
    }

    /// Sets up the context the processors resolve against and reaches the first one.
    fn start_processors(&mut self) -> (a: Action)
        requires
            old(self).wf(),
            old(self).stage is CheckShortCircuit,
        ensures
            final(self).wf(),
            final(self).request == old(self).request,
            final(self).java == old(self).java,
            final(self).manifest == old(self).manifest,
            final(self).profile == old(self).profile,
            final(self).target == old(self).target,
            final(self).target_sha == old(self).target_sha,
            final(self).stage is ReadMainClass || final(self).stage is VerifyFinalArtifact
                || final(self).stage is Failed,
            final(self).stage is Failed <==> a is Finish,
            a matches Action::Finish(r) ==> r is Err,
            waits_for(a, final(self).stage),
            a is ReadMainClass ==> (final(self).next == 0 && final(self).commands@.len() == 1),
            is_well_formed(old(self).profile->0.path@) ==> context_spec(
                final(self).context,
                old(self).request,
                old(self).profile->0,
            ),
            !is_well_formed(old(self).profile->0.path@) ==> a is Finish,
            is_well_formed(old(self).profile->0.path@) ==> ({
                let ps = old(self).profile->0.processors@;
                let data = old(self).profile->0.data@;
                &&& ps.len() == 0 ==> (a matches Action::HashFinalArchive { path } && path
                    == old(self).target)
                &&& ps.len() > 0 && processor_resolves(ps[0], data, final(self).context) ==> (
                a matches Action::ReadMainClass { jar } && jar@ == library_spec(
                    old(self).request.libraries_directory@,
                    ps[0].jar@,
                ))
                &&& ps.len() > 0 && !processor_resolves(ps[0], data, final(self).context) ==> a is Finish
                &&& ps.len() > 0 && has_missing(ps[0], data) ==> (a matches Action::Finish(
                    Err(InstallError::MissingVariable(k)),
                ) && first_missing(ps[0], data, k@))
            }),
    {
        let p = self.profile.as_ref().unwrap();
        let patched = match Coordinate::parse(p.path.as_str()) {
            Ok(c) => c,
            Err(e) => return self.fail(e),
        };
        let binpatch = join_path(
            self.request.libraries_directory.as_str(),
            patched.patch_file_path().as_str(),
        );
        let id = self.request.minecraft_version_id.as_str();
        let mut jar_name = String::from_str(id);
        jar_name.append(".jar");
        let dir = join_path(self.request.versions_directory.as_str(), id);
        let minecraft_jar = join_path(dir.as_str(), jar_name.as_str());
        self.context = ProcessorContext {
            libraries_directory: self.request.libraries_directory.clone(),
            minecraft_jar,
            binpatch,
            separator: String::from_str(classpath_separator(self.request.platform)),
        };
        self.reach_processor(0)
    }

    /// Advances the installation by one event. `new` establishes `wf` and
    /// every step keeps it; the fields are public for reading only.
    pub fn step(&mut self, event: Event) -> (a: Action)
        requires
            old(self).wf(),
        ensures
            final(self).wf(),
            final(self).request == old(self).request,
            // what a step keeps
            !(old(self).stage is ParseProfile) ==> final(self).profile == old(self).profile,
            !(old(self).stage is FetchManifest) ==> final(self).manifest == old(self).manifest,
            !(old(self).stage is DownloadLibraries) ==> (final(self).target == old(self).target
                && final(self).target_sha == old(self).target_sha),
            !(old(self).stage is CheckShortCircuit) ==> final(self).context == old(self).context,
            !(old(self).stage is Start || old(self).stage is LocateInterpreter) ==> final(self).java
                == old(self).java,
            final(self).commands@.len() >= old(self).commands@.len(),
            forall|i: int|
                0 <= i < old(self).commands@.len() ==> final(self).commands@[i] == old(
                    self,
                ).commands@[i],
            // the installation is over exactly when it says so
            (final(self).stage is Done || final(self).stage is Failed) <==> a matches Action::Finish(_),
            a matches Action::Finish(r) ==> (r is Ok <==> final(self).stage is Done),
            // each action leaves the installation waiting for its answer
            waits_for(a, final(self).stage),
            // processors are reached one after another, each once
            a is ReadMainClass ==> (final(self).next == old(self).commands@.len()
                && final(self).commands@.len() == old(self).commands@.len() + 1),
            a is RunProcessor ==> (final(self).next == old(self).next && final(self).commands@
                == old(self).commands@),
            // success comes only from one of the two checksum gates
            a matches Action::Finish(Ok(_)) ==> gate_passed(old(self).stage, event, old(self).target_sha@),
            // libraries are fetched and processors run only under a supported manifest
            (a is DownloadLibraries || a is ReadMainClass || a is RunProcessor) ==> (final(self).manifest
                matches Some(m) && m.install_method == SUPPORTED_INSTALL_METHOD),
            old(self).stage is Start && event is Begin ==> match old(self).request.java_home {
                Some(h) => a matches Action::CheckInterpreter { path } && path@ == java_exec_spec(
                    h@,
                    old(self).request.platform,
                ),
                None => a is DiscoverJavaHome,
            },
            a matches Action::CheckInterpreter { path } ==> path@ == final(self).java@,
            old(self).stage is LocateInterpreter ==> (event matches Event::JavaHomeDiscovered(None)
                ==> a == Action::Finish(Err(InstallError::JavaNotFound))),
            old(self).stage is LocateInterpreter ==> (event matches Event::JavaHomeDiscovered(Some(d))
                ==> a matches Action::CheckInterpreter { path } && path@ == java_exec_spec(
                d@,
                old(self).request.platform,
            )),
            old(self).stage is CheckInterpreter ==> (event matches Event::InterpreterChecked(true)
                ==> a matches Action::FetchManifest { path, url } && path@ == manifest_path_spec(
                old(self).request,
            ) && url@ == manifest_url_spec(old(self).request)),
            old(self).stage is CheckInterpreter ==> (event matches Event::InterpreterChecked(false)
                ==> a == Action::Finish(Err(InstallError::NotAFile(old(self).java)))),
            old(self).stage is FetchManifest ==> (event matches Event::ManifestFetched(Ok(m)) ==> (
            m.install_method != SUPPORTED_INSTALL_METHOD ==> a == Action::Finish(
                Err(InstallError::UnsupportedInstallMethod(m.install_method)),
            ))),
            old(self).stage is FetchManifest ==> (event matches Event::ManifestFetched(Ok(m)) ==> (
            m.install_method == SUPPORTED_INSTALL_METHOD ==> match m.install_profile_json {
                Some(t) => a == Action::ParseProfile { text: t },
                None => a == Action::Finish(Err(InstallError::MissingInstallProfile)),
            })),
            old(self).stage is ParseProfile ==> (event matches Event::ProfileParsed(Ok(p)) ==> (a
                is EnsureBaseGame && final(self).profile == Some(p))),
            old(self).stage is EnsureBaseGame ==> (event matches Event::BaseGameReady(Ok(_)) ==> a
                matches Action::WriteVersionFile { path, id, json } && id@ == merged_id_spec(
                old(self).request,
                old(self).manifest->0,
            ) && path@ == version_file_spec(old(self).request.versions_directory@, id@) && json
                == old(self).manifest->0.version_json),
            old(self).stage is WriteVersionMetadata ==> (event matches Event::VersionFileWritten(
                Ok(_),
            ) ==> a matches Action::DownloadLibraries { libraries } && placed_libraries(
                old(self).profile->0.libraries@,
                old(self).request.libraries_directory@,
                libraries@,
            )),
            // every hard library failure is reported
            old(self).stage is DownloadLibraries ==> (event matches Event::LibrariesFetched(o) ==> (
            failures(o@).len() > 0 ==> (a matches Action::Finish(
                Err(InstallError::LibraryDownloads(list)),
            ) && views(list@) == failures(o@)))),
            old(self).stage is DownloadLibraries ==> (event matches Event::LibrariesFetched(o) ==> (
            failures(o@).len() == 0 ==> if target_known(old(self).profile->0) {
                a matches Action::CheckFinalArchive { path } && path@ == target_spec(
                    old(self).profile->0,
                    old(self).request.libraries_directory@,
                )
            } else {
                a matches Action::Finish(Err(_))
            })),
            // an archive that is present and verifies ends the installation
            old(self).stage is CheckShortCircuit ==> (event matches Event::FinalArchiveChecked(
                Some(h),
            ) ==> (h@ == old(self).target_sha@ ==> a == Action::Finish(Ok(())))),
            // otherwise the processors run, from the first, or the archive is checked
            // again if there are none
            old(self).stage is CheckShortCircuit ==> (event matches Event::FinalArchiveChecked(c)
                ==> ((c is None || c->0@ != old(self).target_sha@) ==> {
                let p = old(self).profile->0;
                &&& !is_well_formed(p.path@) ==> (a matches Action::Finish(Err(_)))
                &&& is_well_formed(p.path@) ==> context_spec(final(self).context, old(self).request, p)
                &&& is_well_formed(p.path@) && p.processors@.len() == 0 ==> (a matches Action::HashFinalArchive {
                    path,
                } && path == old(self).target)
                &&& is_well_formed(p.path@) && p.processors@.len() > 0 ==> ({
                    let first = p.processors@[0];
                    &&& processor_resolves(first, p.data@, final(self).context) ==> (a matches Action::ReadMainClass {
                        jar,
                    } && jar@ == library_spec(old(self).request.libraries_directory@, first.jar@))
                    &&& !processor_resolves(first, p.data@, final(self).context) ==> (a matches Action::Finish(Err(_)))
                    &&& has_missing(first, p.data@) ==> (a matches Action::Finish(
                        Err(InstallError::MissingVariable(k)),
                    ) && first_missing(first, p.data@, k@))
                })
            })),
            // the processor to run is the current one, with the class its archive declares
            old(self).stage is ReadMainClass ==> (event matches Event::MainClassRead(Ok(t)) ==> match manifest_lookup(
                manifest_spec(t@),
                "Main-Class"@,
            ) {
                Some(c) => a matches Action::RunProcessor { java, main_class, command } && java@
                    == old(self).java@ && main_class@ == c && command.jar@ == old(
                    self,
                ).commands@[old(self).next as int].jar@ && command.classpath@ == old(
                    self,
                ).commands@[old(self).next as int].classpath@ && views(command.args@) == views(
                    old(self).commands@[old(self).next as int].args@,
                ),
                None => a matches Action::Finish(Err(InstallError::MissingMainClass(_))),
            }),
            old(self).stage is RunProcessor ==> (event matches Event::ProcessorExited(Err(out)) ==> (a
                matches Action::Finish(Err(InstallError::ProcessorFailed(jar, o))) && jar@ == old(
                self).commands@[old(self).next as int].jar@ && o == out)),
            // after a successful processor comes the next one, then the final check
            old(self).stage is RunProcessor ==> (event matches Event::ProcessorExited(Ok(_)) ==> ({
                let p = old(self).profile->0;
                let n = old(self).next + 1;
                &&& n == p.processors@.len() ==> (a matches Action::HashFinalArchive { path }
                    && path == old(self).target)
                &&& n < p.processors@.len() ==> ({
                    let q = p.processors@[n as int];
                    &&& processor_resolves(q, p.data@, old(self).context) ==> (a matches Action::ReadMainClass {
                        jar,
                    } && jar@ == library_spec(old(self).request.libraries_directory@, q.jar@))
                    &&& !processor_resolves(q, p.data@, old(self).context) ==> (a matches Action::Finish(Err(_)))
                    &&& has_missing(q, p.data@) ==> (a matches Action::Finish(
                        Err(InstallError::MissingVariable(k)),
                    ) && first_missing(q, p.data@, k@))
                })
            })),
            // the final archive must match its checksum
            old(self).stage is VerifyFinalArtifact ==> (event matches Event::FinalArchiveHashed(Ok(
                h,
            )) ==> (h@ == old(self).target_sha@ ==> a == Action::Finish(Ok(())))),
            old(self).stage is VerifyFinalArtifact ==> (event matches Event::FinalArchiveHashed(Ok(
                h,
            )) ==> (h@ != old(self).target_sha@ ==> a matches Action::Finish(
                Err(InstallError::ChecksumMismatch(_)),
            ))),
            // failures of the outside world end the installation
            expects(old(self).stage, event) ==> (outside_failure(event) matches Some(m) ==> a
                == Action::Finish(Err(InstallError::Io(m)))),
            !expects(old(self).stage, event) ==> a == Action::Finish(
                Err(InstallError::UnexpectedEvent),
            ),
    {
        let stage = self.stage;
        match (stage, event) {
            (Stage::Start, Event::Begin) => {
                match &self.request.java_home {
                    Some(h) => {
                        let h = h.clone();
                        self.check_interpreter(Some(h.as_str()), None)
                    },
                    None => {
                        self.stage = Stage::LocateInterpreter;
                        Action::DiscoverJavaHome
                    },
                }
            },
            (Stage::LocateInterpreter, Event::JavaHomeDiscovered(d)) => match d {
                Some(d) => self.check_interpreter(None, Some(d.as_str())),
                None => self.check_interpreter(None, None),
            },
            (Stage::CheckInterpreter, Event::InterpreterChecked(ok)) => {
                if ok {
                    self.fetch_manifest()
                } else {
                    let path = self.java.clone();
                    self.fail(InstallError::NotAFile(path))
                }
            },
            (Stage::FetchManifest, Event::ManifestFetched(r)) => match r {
                Ok(m) => self.accept_manifest(m),
                Err(e) => self.fail(InstallError::Io(e)),
            },
            (Stage::ParseProfile, Event::ProfileParsed(r)) => match r {
                Ok(p) => {
                    self.profile = Some(p);
                    self.stage = Stage::EnsureBaseGame;
                    Action::EnsureBaseGame
                },
                Err(e) => self.fail(InstallError::Io(e)),
            },
            (Stage::EnsureBaseGame, Event::BaseGameReady(r)) => match r {
                Ok(()) => self.write_version_file(),
                Err(e) => self.fail(InstallError::Io(e)),
            },
            (Stage::WriteVersionMetadata, Event::VersionFileWritten(r)) => match r {
                Ok(()) => self.request_libraries(),
                Err(e) => self.fail(InstallError::Io(e)),
            },
            (Stage::DownloadLibraries, Event::LibrariesFetched(o)) => match download_libraries(&o) {
                Ok(()) => self.locate_target(),
                Err(e) => self.fail(e),
            },
            (Stage::CheckShortCircuit, Event::FinalArchiveChecked(c)) => {
                let verified = match &c {
                    Some(h) => same(h.as_str(), self.target_sha.as_str()),
                    None => false,
                };
                if verified {
                    self.stage = Stage::Done;
                    Action::Finish(Ok(()))
                } else {
                    self.start_processors()
                }
            },
            (Stage::ReadMainClass, Event::MainClassRead(r)) => {
                let command = self.commands[self.next].duplicate();
                let text = match r {
                    Ok(t) => t,
                    Err(e) => return self.fail(InstallError::Io(e)),
                };
                match main_class(text.as_str(), command.jar.as_str()) {
                    Ok(class) => {
                        self.stage = Stage::RunProcessor;
                        Action::RunProcessor {
                            java: self.java.clone(),
                            main_class: class,
                            command,
                        }
                    },
                    Err(e) => self.fail(e),
                }
            },
            (Stage::RunProcessor, Event::ProcessorExited(exit)) => {
                let len = self.commands.len();
                assert(self.next < len);
                if let Err(output) = exit {
                    let jar = self.commands[self.next].jar.clone();
                    return self.fail(InstallError::ProcessorFailed(jar, output));
                }
                let n = self.next + 1;
                self.reach_processor(n)
            },
            (Stage::VerifyFinalArtifact, Event::FinalArchiveHashed(r)) => match r {
                Ok(h) => {
                    if same(h.as_str(), self.target_sha.as_str()) {
                        self.stage = Stage::Done;
                        Action::Finish(Ok(()))
                    } else {
                        let path = self.target.clone();
                        self.fail(InstallError::ChecksumMismatch(path))
                    }
                },
                Err(e) => self.fail(InstallError::Io(e)),
            },
            _ => self.fail(InstallError::UnexpectedEvent),
        }
    }
}

} // verus!
