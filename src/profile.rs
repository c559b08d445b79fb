use vstd::prelude::*;

use crate::error::InstallError;

verus! {

/// One entry of an install profile's variable data: the value for the client
/// side and the value for the server side.
#[derive(Debug, Clone)]
pub struct DataValue {
    pub client: String,
    pub server: String,
}

/// One processor step: the executable archive's coordinate, the classpath
/// coordinates and the templated arguments.
#[derive(Debug, Clone)]
pub struct Processor {
    pub jar: String,
    pub classpath: Vec<String>,
    pub args: Vec<String>,
}

/// A library the profile needs: its name, its path relative to the libraries
/// directory, where to fetch it (empty when it cannot be fetched) and its
/// expected checksum, if known.
#[derive(Debug, Clone)]
pub struct Library {
    pub name: String,
    pub path: String,
    pub url: String,
    pub sha1: Option<String>,
}

/// The install profile a vendor manifest carries.
#[derive(Debug, Clone)]
pub struct InstallProfile {
    /// Coordinate of the archive the processors produce.
    pub path: String,
    /// Variable data, keyed by name. Read from a JSON object the names are
    /// unique; a lookup takes the first entry of a name.
    pub data: Vec<(String, DataValue)>,
    pub processors: Vec<Processor>,
    pub libraries: Vec<Library>,
}

/// The parts of a vendor manifest the installation reads.
#[derive(Debug, Clone)]
pub struct ForgeManifest {
    pub name: String,
    pub install_method: u64,
    pub version_json: String,
    pub install_profile_json: Option<String>,
}

/// The only installation method this installer carries out.
pub const SUPPORTED_INSTALL_METHOD: u64 = 3;

/// The client value stored under `key`: the first entry with that key.
pub open spec fn lookup(data: Seq<(String, DataValue)>, key: Seq<char>) -> Option<Seq<char>>
    decreases data.len(),
{
    if data.len() == 0 {
        None
    } else if data[0].0@ == key {
        Some(data[0].1.client@)
    } else {
        lookup(data.drop_first(), key)
    }
}

pub open spec fn is_quote(c: char) -> bool {
    c == '"' || c == '\''
}

/// `v` without its enclosing quote characters, if it has a pair of equal ones.
pub open spec fn unquote(v: Seq<char>) -> Seq<char> {
    if v.len() >= 2 && is_quote(v[0]) && v.last() == v[0] {
        v.subrange(1, v.len() - 1)
    } else {
        v
    }
}

/// `v` without its first and last characters.
pub open spec fn unwrap_spec(v: Seq<char>) -> Seq<char> {
    v.subrange(1, v.len() - 1)
}

/// Looks up the client value stored under `key`.
pub fn lookup_client<'a>(data: &'a Vec<(String, DataValue)>, key: &str) -> (r: Option<&'a String>)
    ensures
        match r {
            Some(v) => lookup(data@, key@) == Some(v@),
            None => lookup(data@, key@) is None,
        },
{
    let mut i: usize = 0;
    assert(data@.subrange(0, data@.len() as int) =~= data@);
    while i < data.len()
        invariant
            i <= data@.len(),
            lookup(data@, key@) == lookup(data@.subrange(i as int, data@.len() as int), key@),
        decreases data@.len() - i,
    {
        let ghost rest = data@.subrange(i as int, data@.len() as int);
        assert(rest.drop_first() =~= data@.subrange(i as int + 1, data@.len() as int));
        assert(rest[0] == data@[i as int]);
        if crate::text::same(data[i].0.as_str(), key) {
            return Some(&data[i].1.client);
        }
        i = i + 1;
    }
    assert(data@.subrange(i as int, data@.len() as int) =~= Seq::<(String, DataValue)>::empty());
    None
}

/// Strips one pair of enclosing quote characters, if present.
pub fn strip_quotes(v: &str) -> (r: String)
    ensures
        r@ == unquote(v@),
{
    let n = v.unicode_len();
    if n >= 2 {
        let first = v.get_char(0);
        let last = v.get_char(n - 1);
        if (first == '"' || first == '\'') && last == first {
            return String::from_str(v.substring_char(1, n - 1));
        }
    }
    String::from_str(v)
}

/// Removes the first and last characters of a wrapped profile value (`[...]`
/// around a coordinate, quotes around a checksum).
pub fn unwrap_value(key: &str, v: &str) -> (r: Result<String, InstallError>)
    ensures
        v@.len() >= 2 ==> (r matches Ok(s) && s@ == unwrap_spec(v@)),
        v@.len() < 2 ==> (r matches Err(InstallError::UnquotedValue(k)) && k@ == key@),
{
    let n = v.unicode_len();
    if n < 2 {
        return Err(InstallError::UnquotedValue(String::from_str(key)));
    }
    Ok(String::from_str(v.substring_char(1, n - 1)))
}

/// Checks that the manifest uses the supported installation method and hands
/// out its install profile text.
pub fn profile_text(manifest: &ForgeManifest) -> (r: Result<&String, InstallError>)
    ensures
        manifest.install_method != SUPPORTED_INSTALL_METHOD ==> (r matches Err(
            InstallError::UnsupportedInstallMethod(m),
        ) && m == manifest.install_method),
        manifest.install_method == SUPPORTED_INSTALL_METHOD && manifest.install_profile_json is None
            ==> r matches Err(InstallError::MissingInstallProfile),
        manifest.install_method == SUPPORTED_INSTALL_METHOD
            && manifest.install_profile_json is Some ==> (r matches Ok(t) && t
            == manifest.install_profile_json->0),
{
    if manifest.install_method != SUPPORTED_INSTALL_METHOD {
        return Err(InstallError::UnsupportedInstallMethod(manifest.install_method));
    }
    match &manifest.install_profile_json {
        Some(t) => Ok(t),
        None => Err(InstallError::MissingInstallProfile),
    }
}

} // verus!
