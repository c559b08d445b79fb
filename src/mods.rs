use vstd::prelude::*;

use crate::java::{trim, trim_spec};
use crate::processors::join_with;
use crate::text::{same, views};

verus! {

/// Which descriptor inside a mod archive the information came from.
#[derive(Debug, Clone, Copy, PartialEq, Eq)]
pub enum ModFileInfoSource {
    ModsToml,
    McModInfo,
}

/// One mod that a mod archive declares.
#[derive(Debug, Clone)]
pub struct ModFileInfoMod {
    pub mod_id: String,
    pub name: Option<String>,
    pub version: Option<String>,
    pub description: Option<String>,
    pub authors: Option<String>,
}

/// What a mod archive declares about itself.
#[derive(Debug, Clone)]
pub struct ModFileInfo {
    pub sub_mods: Vec<ModFileInfoMod>,
    pub source: ModFileInfoSource,
}

/// A file of a project in the mod catalog.
#[derive(Debug, Clone)]
pub struct AddonFile {
    pub release_type: u64,
    pub file_name: String,
    pub game_version: Vec<String>,
    pub download_url: String,
    pub project_id: u64,
    pub id: u64,
}

/// What is known of one installed mod.
#[derive(Debug, Clone)]
pub struct ModInfo {
    pub file: Option<ModFileInfo>,
    pub curse: Option<AddonFile>,
}

/// The placeholder a `mods.toml` version takes when the archive's manifest
/// carries the version.
pub const JAR_VERSION_PLACEHOLDER: &'static str = "${file.jarVersion}";

pub open spec fn opt_view(o: Option<String>) -> Option<Seq<char>> {
    match o {
        Some(s) => Some(s@),
        None => None,
    }
}

/// The authors of an `mcmod.info` entry: comma-separated, or none if the list is empty.
pub open spec fn authors_spec(authors: Seq<String>) -> Option<Seq<char>> {
    if authors.len() == 0 {
        None
    } else {
        Some(join_with(views(authors), ", "@))
    }
}

/// The version of a `mods.toml` entry: the manifest's implementation version
/// stands in for the placeholder.
pub open spec fn toml_version_spec(version: Option<Seq<char>>, implementation: Option<Seq<char>>) -> Option<
    Seq<char>,
> {
    match version {
        Some(v) => if v == JAR_VERSION_PLACEHOLDER@ {
            implementation
        } else {
            Some(v)
        },
        None => None,
    }
}

fn opt_clone(o: &Option<String>) -> (r: Option<String>)
    ensures
        opt_view(r) == opt_view(*o),
{
    match o {
        Some(s) => Some(s.clone()),
        None => None,
    }
}

/// Joins the strings with `sep` between each two.
pub fn join(parts: &Vec<String>, sep: &str) -> (r: String)
    ensures
        r@ == join_with(views(parts@), sep@),
{
    let mut out = String::new();
    let mut i: usize = 0;
    while i < parts.len()
        invariant
            i <= parts@.len(),
            out@ == join_with(views(parts@).take(i as int), sep@),
        decreases parts@.len() - i,
    {
        let ghost t = views(parts@).take(i as int + 1);
        assert(t.drop_last() =~= views(parts@).take(i as int));
        assert(t.last() == parts@[i as int]@);
        if i > 0 {
            out.append(sep);
        } else {
            assert(t =~= seq![parts@[0]@]);
        }
        out.append(parts[i].as_str());
        assert(i == 0 ==> out@ =~= parts@[0]@);
        i = i + 1;
    }
    assert(views(parts@).take(parts@.len() as int) =~= views(parts@));
    out
}

impl ModFileInfoMod {
    /// The mod an `mcmod.info` entry describes.
    pub fn from_mc_mod_info_entry(
        mod_id: String,
        name: Option<String>,
        version: Option<String>,
        description: Option<String>,
        authors: &Vec<String>,
    ) -> (r: ModFileInfoMod)
        ensures
            r.mod_id == mod_id,
            r.name == name,
            r.version == version,
            opt_view(r.description) == match description {
                Some(d) => Some(trim_spec(d@)),
                None => None,
            },
            opt_view(r.authors) == authors_spec(authors@),
    {
        let description = match &description {
            Some(d) => Some(trim(d.as_str())),
            None => None,
        };
        let authors = if authors.len() > 0 {
            Some(join(authors, ", "))
        } else {
            None
        };
        ModFileInfoMod { mod_id, name, version, description, authors }
    }

    /// The mod a `mods.toml` entry describes: its display name, its version
    /// (the manifest's implementation version for the placeholder), its
    /// trimmed description, and its own authors or else the file's.
    pub fn from_mods_toml_entry(
        mod_id: String,
        version: Option<String>,
        display_name: String,
        description: &str,
        authors: Option<String>,
        root_authors: &Option<String>,
        implementation_version: &Option<String>,
    ) -> (r: ModFileInfoMod)
        ensures
            r.mod_id == mod_id,
            r.name == Some(display_name),
            opt_view(r.version) == toml_version_spec(
                opt_view(version),
                opt_view(*implementation_version),
            ),
            opt_view(r.description) == Some(trim_spec(description@)),
            opt_view(r.authors) == match authors {
                Some(a) => Some(a@),
                None => opt_view(*root_authors),
            },
    {
        let version = match version {
            Some(v) => if same(v.as_str(), JAR_VERSION_PLACEHOLDER) {
                opt_clone(implementation_version)
            } else {
                Some(v)
            },
            None => None,
        };
        let authors = match authors {
            Some(a) => Some(a),
            None => opt_clone(root_authors),
        };
        ModFileInfoMod {
            mod_id,
            name: Some(display_name),
            version,
            description: Some(trim(description)),
            authors,
        }
    }
}

} // verus!
