use vstd::prelude::*;

use crate::mods::join;
use crate::processors::join_with;
use crate::text::views;

verus! {

/// Errors raised by the installation pipeline.
#[derive(Debug, Clone, PartialEq, Eq)]
pub enum InstallError {
    /// A maven coordinate had fewer than three `:`-separated segments.
    MalformedCoordinate(String),
    /// The vendor manifest declares an installation method other than the supported one.
    UnsupportedInstallMethod(u64),
    /// The vendor manifest carries no install profile.
    MissingInstallProfile,
    /// A template or a required entry names a key that the profile data does not hold.
    MissingVariable(String),
    /// A profile data value is not wrapped in the quote characters it must carry.
    UnquotedValue(String),
    /// No interpreter home was given and none could be discovered.
    JavaNotFound,
    /// The interpreter path does not name an existing file.
    NotAFile(String),
    /// An executable archive's manifest declares no entry point.
    MissingMainClass(String),
    /// A processor exited unsuccessfully: its archive and its captured output.
    ProcessorFailed(String, String),
    /// One or more library downloads failed; each entry describes one failure.
    LibraryDownloads(Vec<String>),
    /// A file's checksum did not match the one it must have.
    ChecksumMismatch(String),
    /// An outside operation (disk, network, parsing) failed.
    Io(String),
    /// An event arrived that the installation was not waiting for.
    UnexpectedEvent,
}

/// What tells a user how to point the installer at an interpreter.
pub const JAVA_NOT_FOUND: &'static str = "Could not find java home. Please make sure java is installed. If you're sure it's installed, set JAVA_HOME env var to point to it.";

/// The text of an error.
pub open spec fn message_spec(e: InstallError) -> Seq<char> {
    match e {
        InstallError::MalformedCoordinate(c) => "Malformed maven coordinate: "@ + c@,
        InstallError::UnsupportedInstallMethod(_) => "Forge installation method other than 3 is unimplemented!"@,
        InstallError::MissingInstallProfile => "Forge manifest has no install profile."@,
        InstallError::MissingVariable(v) => "Invalid variable in forge install profile: "@ + v@,
        InstallError::UnquotedValue(v) => "Forge install profile value is not wrapped: "@ + v@,
        InstallError::JavaNotFound => JAVA_NOT_FOUND@,
        InstallError::NotAFile(p) => "Java executable doesn't exist or isn't a file: "@ + p@,
        InstallError::MissingMainClass(j) => "Failed to find main class in "@ + j@,
        InstallError::ProcessorFailed(j, o) => "Processor failed to execute: "@ + j@ + "\n"@ + o@,
        InstallError::LibraryDownloads(l) => "Failed to download libraries: "@ + join_with(
            views(l@),
            "; "@,
        ),
        InstallError::ChecksumMismatch(p) => "Checksum does not match: "@ + p@,
        InstallError::Io(m) => m@,
        InstallError::UnexpectedEvent => "Installation step out of order."@,
    }
}

fn prefixed(prefix: &str, rest: &str) -> (r: String)
    ensures
        r@ == prefix@ + rest@,
{
    let mut s = String::from_str(prefix);
    s.append(rest);
    s
}

impl InstallError {
    /// A description for the user, naming what was at fault.
    pub fn message(&self) -> (r: String)
        ensures
            r@ == message_spec(*self),
    {
        match self {
            InstallError::MalformedCoordinate(c) => prefixed("Malformed maven coordinate: ", c.as_str()),
            InstallError::UnsupportedInstallMethod(_) => String::from_str(
                "Forge installation method other than 3 is unimplemented!",
            ),
            InstallError::MissingInstallProfile => String::from_str(
                "Forge manifest has no install profile.",
            ),
            InstallError::MissingVariable(v) => prefixed(
                "Invalid variable in forge install profile: ",
                v.as_str(),
            ),
            InstallError::UnquotedValue(v) => prefixed(
                "Forge install profile value is not wrapped: ",
                v.as_str(),
            ),
            InstallError::JavaNotFound => String::from_str(JAVA_NOT_FOUND),
            InstallError::NotAFile(p) => prefixed(
                "Java executable doesn't exist or isn't a file: ",
                p.as_str(),
            ),
            InstallError::MissingMainClass(j) => prefixed("Failed to find main class in ", j.as_str()),
            InstallError::ProcessorFailed(j, o) => {
                let mut m = prefixed("Processor failed to execute: ", j.as_str());
                m.append("\n");
                m.append(o.as_str());
                m
            },
            InstallError::LibraryDownloads(l) => {
                let list = join(l, "; ");
                prefixed("Failed to download libraries: ", list.as_str())
            },
            InstallError::ChecksumMismatch(p) => prefixed("Checksum does not match: ", p.as_str()),
            InstallError::Io(m) => m.clone(),
            InstallError::UnexpectedEvent => String::from_str("Installation step out of order."),
        }
    }
}

} // verus!
