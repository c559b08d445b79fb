use vstd::prelude::*;

use crate::error::InstallError;
use crate::text::{
    lemma_split_on_append, lemma_split_on_free, replace, replace_char, split, split_on, views,
};

verus! {

/// A parsed dependency coordinate `group:artifact:version[:classifier][@extension]`.
#[derive(Debug, Clone)]
pub struct Coordinate {
    pub group: String,
    pub artifact: String,
    pub version: String,
    pub classifier: Option<String>,
    pub extension: String,
}

/// The part before the first `@`.
pub open spec fn coordinate_body(c: Seq<char>) -> Seq<char> {
    split_on(c, '@')[0]
}

/// The `:`-separated segments of the body.
pub open spec fn coordinate_segments(c: Seq<char>) -> Seq<Seq<char>> {
    split_on(coordinate_body(c), ':')
}

/// A coordinate is well formed when its body has at least three segments.
pub open spec fn is_well_formed(c: Seq<char>) -> bool {
    coordinate_segments(c).len() >= 3
}

/// The extension: the piece after the first `@`, or `jar`.
pub open spec fn coordinate_extension(c: Seq<char>) -> Seq<char> {
    if split_on(c, '@').len() > 1 {
        split_on(c, '@')[1]
    } else {
        "jar"@
    }
}

/// The optional fourth segment, the classifier.
pub open spec fn coordinate_classifier(c: Seq<char>) -> Option<Seq<char>> {
    if coordinate_segments(c).len() > 3 {
        Some(coordinate_segments(c)[3])
    } else {
        None
    }
}

/// `artifact-version[-classifier].extension`
pub open spec fn file_name_of(
    artifact: Seq<char>,
    version: Seq<char>,
    classifier: Option<Seq<char>>,
    extension: Seq<char>,
) -> Seq<char> {
    let extra = match classifier {
        Some(x) => seq!['-'] + x,
        None => Seq::<char>::empty(),
    };
    artifact + seq!['-'] + version + extra + seq!['.'] + extension
}

/// `group-with-slashes/artifact/version/file-name`
pub open spec fn path_of(
    group: Seq<char>,
    artifact: Seq<char>,
    version: Seq<char>,
    classifier: Option<Seq<char>>,
    extension: Seq<char>,
) -> Seq<char> {
    replace_char(group, '.', '/') + seq!['/'] + artifact + seq!['/'] + version + seq!['/']
        + file_name_of(artifact, version, classifier, extension)
}

/// The file name of the binary patch that belongs beside an archive: the
/// archive's extension gives way to `-clientdata.lzma`.
pub open spec fn patch_path_of(
    group: Seq<char>,
    artifact: Seq<char>,
    version: Seq<char>,
    classifier: Option<Seq<char>>,
) -> Seq<char> {
    let extra = match classifier {
        Some(x) => seq!['-'] + x,
        None => Seq::<char>::empty(),
    };
    replace_char(group, '.', '/') + seq!['/'] + artifact + seq!['/'] + version + seq!['/']
        + artifact + seq!['-'] + version + extra + "-clientdata.lzma"@
}

/// The relative path that a well-formed coordinate resolves to.
pub open spec fn maven_path(c: Seq<char>) -> Seq<char> {
    let s = coordinate_segments(c);
    path_of(s[0], s[1], s[2], coordinate_classifier(c), coordinate_extension(c))
}

impl Coordinate {
    /// The coordinate's components as character sequences.
    pub open spec fn components(&self) -> (
        Seq<char>,
        Seq<char>,
        Seq<char>,
        Option<Seq<char>>,
        Seq<char>,
    ) {
        (
            self.group@,
            self.artifact@,
            self.version@,
            match self.classifier {
                Some(x) => Some(x@),
                None => None,
            },
            self.extension@,
        )
    }

    /// The components that the text `c` denotes.
    pub open spec fn parsed_from(&self, c: Seq<char>) -> bool {
        let s = coordinate_segments(c);
        self.components() == (
            s[0],
            s[1],
            s[2],
            coordinate_classifier(c),
            coordinate_extension(c),
        )
    }

    /// The relative path of this coordinate's file.
    pub open spec fn spec_path(&self) -> Seq<char> {
        let (g, a, v, x, e) = self.components();
        path_of(g, a, v, x, e)
    }

    /// Parses `group:artifact:version[:classifier][@extension]`.
    pub fn parse(name: &str) -> (r: Result<Coordinate, InstallError>)
        ensures
            is_well_formed(name@) ==> (r matches Ok(c) && c.parsed_from(name@)),
            !is_well_formed(name@) ==> (r matches Err(InstallError::MalformedCoordinate(n))
                && n@ == name@),
    {
        let ext_parts = split(name, '@');
        let path_parts = split(ext_parts[0].as_str(), ':');
        assert(views(ext_parts@)[0] == ext_parts@[0]@);
        assert(coordinate_segments(name@) == views(path_parts@));
        if path_parts.len() < 3 {
            return Err(InstallError::MalformedCoordinate(String::from_str(name)));
        }
        assert(views(path_parts@)[0] == path_parts@[0]@);
        assert(views(path_parts@)[1] == path_parts@[1]@);
        assert(views(path_parts@)[2] == path_parts@[2]@);
        let classifier = if path_parts.len() > 3 {
            assert(views(path_parts@)[3] == path_parts@[3]@);
            Some(path_parts[3].clone())
        } else {
            None
        };
        let extension = if ext_parts.len() > 1 {
            assert(views(ext_parts@)[1] == ext_parts@[1]@);
            ext_parts[1].clone()
        } else {
            String::from_str("jar")
        };
        Ok(
            Coordinate {
                group: path_parts[0].clone(),
                artifact: path_parts[1].clone(),
                version: path_parts[2].clone(),
                classifier,
                extension,
            },
        )
    }

    /// The relative path `group/with/slashes/artifact/version/artifact-version[-classifier].ext`.
    pub fn relative_path(&self) -> (r: String)
        ensures
            r@ == self.spec_path(),
    {
        proof {
            reveal_strlit("/");
            reveal_strlit("-");
            reveal_strlit(".");
        }
        let mut out = replace(self.group.as_str(), '.', "/");
        out.append("/");
        out.append(self.artifact.as_str());
        out.append("/");
        out.append(self.version.as_str());
        out.append("/");
        out.append(self.artifact.as_str());
        out.append("-");
        out.append(self.version.as_str());
        match &self.classifier {
            Some(x) => {
                out.append("-");
                out.append(x.as_str());
            },
            None => {},
        }
        out.append(".");
        out.append(self.extension.as_str());
        assert(out@ =~= self.spec_path());
        out
    }
}

impl Coordinate {
    /// The relative path of the binary patch file that belongs beside this
    /// coordinate's archive.
    pub fn patch_file_path(&self) -> (r: String)
        ensures
            r@ == ({
                let (g, a, v, x, e) = self.components();
                patch_path_of(g, a, v, x)
            }),
    {
        proof {
            reveal_strlit("/");
            reveal_strlit("-");
        }
        let mut out = replace(self.group.as_str(), '.', "/");
        out.append("/");
        out.append(self.artifact.as_str());
        out.append("/");
        out.append(self.version.as_str());
        out.append("/");
        out.append(self.artifact.as_str());
        out.append("-");
        out.append(self.version.as_str());
        match &self.classifier {
            Some(x) => {
                out.append("-");
                out.append(x.as_str());
            },
            None => {},
        }
        out.append("-clientdata.lzma");
        let ghost comps = self.components();
        assert(out@ =~= patch_path_of(comps.0, comps.1, comps.2, comps.3));
        out
    }
}

/// The coordinate text `group:artifact:version[:classifier][@extension]`.
pub open spec fn coordinate_text(
    group: Seq<char>,
    artifact: Seq<char>,
    version: Seq<char>,
    classifier: Option<Seq<char>>,
    extension: Option<Seq<char>>,
) -> Seq<char> {
    let base = group + seq![':'] + artifact + seq![':'] + version;
    let body = match classifier {
        Some(x) => base + seq![':'] + x,
        None => base,
    };
    match extension {
        Some(e) => body + seq!['@'] + e,
        None => body,
    }
}

/// A coordinate component holds neither separator.
pub open spec fn is_component(s: Seq<char>) -> bool {
    !s.contains(':') && !s.contains('@')
}

proof fn lemma_concat_free(x: Seq<char>, y: Seq<char>, c: char)
    requires
        !x.contains(c),
        !y.contains(c),
    ensures
        !(x + y).contains(c),
{
    if (x + y).contains(c) {
        let k = choose|k: int| 0 <= k < (x + y).len() && (x + y)[k] == c;
        if k < x.len() {
            assert(x[k] == c);
        } else {
            assert(y[k - x.len()] == c);
        }
    }
}

/// Resolving a coordinate written out from its components gives the path
/// built from those same components: the group with each `.` turned into a
/// path separator, then artifact and version as directories, then the file
/// `artifact-version[-classifier].extension`, where the extension is `jar`
/// when none is written.
pub proof fn lemma_resolution_round_trip(
    group: Seq<char>,
    artifact: Seq<char>,
    version: Seq<char>,
    classifier: Option<Seq<char>>,
    extension: Option<Seq<char>>,
)
    requires
        is_component(group),
        is_component(artifact),
        is_component(version),
        classifier matches Some(x) ==> is_component(x),
        extension matches Some(e) ==> !e.contains('@'),
    ensures
        is_well_formed(coordinate_text(group, artifact, version, classifier, extension)),
        maven_path(coordinate_text(group, artifact, version, classifier, extension)) == path_of(
            group,
            artifact,
            version,
            classifier,
            match extension {
                Some(e) => e,
                None => "jar"@,
            },
        ),
{
    let t = coordinate_text(group, artifact, version, classifier, extension);
    let ga = group + seq![':'] + artifact;
    let base = ga + seq![':'] + version;
    let body = match classifier {
        Some(x) => base + seq![':'] + x,
        None => base,
    };
    assert(!seq![':'].contains('@')) by {
        assert(seq![':'][0] == ':');
    }
    lemma_concat_free(group, seq![':'], '@');
    lemma_concat_free(group + seq![':'], artifact, '@');
    lemma_concat_free(ga, seq![':'], '@');
    lemma_concat_free(ga + seq![':'], version, '@');
    match classifier {
        Some(x) => {
            lemma_concat_free(base, seq![':'], '@');
            lemma_concat_free(base + seq![':'], x, '@');
        },
        None => {},
    }
    lemma_split_on_free(body, '@');
    match extension {
        Some(e) => {
            lemma_split_on_append(body, e, '@');
        },
        None => {},
    }
    assert(coordinate_body(t) == body);
    lemma_split_on_free(group, ':');
    lemma_split_on_append(group, artifact, ':');
    lemma_split_on_append(ga, version, ':');
    assert(split_on(base, ':') =~= seq![group, artifact, version]);
    match classifier {
        Some(x) => {
            lemma_split_on_append(base, x, ':');
            assert(coordinate_segments(t) =~= seq![group, artifact, version, x]);
        },
        None => {
            assert(coordinate_segments(t) =~= seq![group, artifact, version]);
        },
    }
}

/// Resolves a maven coordinate to the relative path of its file.
pub fn parse_maven(name: &str) -> (r: Result<String, InstallError>)
    ensures
        is_well_formed(name@) ==> (r matches Ok(p) && p@ == maven_path(name@)),
        !is_well_formed(name@) ==> (r matches Err(InstallError::MalformedCoordinate(n))
            && n@ == name@),
{
    match Coordinate::parse(name) {
        Ok(c) => Ok(c.relative_path()),
        Err(e) => Err(e),
    }
}

} // verus!
