use vstd::prelude::*;

use crate::error::InstallError;
use crate::text::{same, split, split_on, views};

verus! {

/// The entries of an archive manifest (`META-INF/MANIFEST.MF`), in order.
pub type Manifest = Vec<(String, String)>;

/// The platform families that differ in executable names and path-list separators.
#[derive(Debug, Clone, Copy, PartialEq, Eq)]
pub enum Platform {
    Windows,
    Unix,
}

/// Characters with the Unicode `White_Space` property, as `char::is_whitespace` has them.
pub open spec fn is_space(c: char) -> bool {
    ('\u{9}' <= c && c <= '\u{d}') || c == ' ' || c == '\u{85}' || c == '\u{a0}' || c
        == '\u{1680}' || ('\u{2000}' <= c && c <= '\u{200a}') || c == '\u{2028}' || c
        == '\u{2029}' || c == '\u{202f}' || c == '\u{205f}' || c == '\u{3000}'
}

/// `s` without its leading white space.
pub open spec fn trim_start_spec(s: Seq<char>) -> Seq<char>
    decreases s.len(),
{
    if s.len() > 0 && is_space(s[0]) {
        trim_start_spec(s.drop_first())
    } else {
        s
    }
}

/// `s` without its trailing white space.
pub open spec fn trim_end_spec(s: Seq<char>) -> Seq<char>
    decreases s.len(),
{
    if s.len() > 0 && is_space(s.last()) {
        trim_end_spec(s.drop_last())
    } else {
        s
    }
}

/// `s` without leading and trailing white space.
pub open spec fn trim_spec(s: Seq<char>) -> Seq<char> {
    trim_end_spec(trim_start_spec(s))
}

/// The index of the first `c` in `s`, or the length of `s` if there is none.
pub open spec fn find_spec(s: Seq<char>, c: char) -> int
    decreases s.len(),
{
    if s.len() == 0 {
        0
    } else if s[0] == c {
        0
    } else {
        1 + find_spec(s.drop_first(), c)
    }
}

/// The entry that one manifest line holds: the trimmed text before its first
/// `:` and the trimmed text after it.
pub open spec fn entry_spec(line: Seq<char>) -> Option<(Seq<char>, Seq<char>)> {
    let k = find_spec(line, ':');
    if k < line.len() {
        Some((trim_spec(line.subrange(0, k)), trim_spec(line.subrange(k + 1, line.len() as int))))
    } else {
        None
    }
}

/// The entries of the lines, skipping lines without a `:`.
pub open spec fn entries_spec(lines: Seq<Seq<char>>) -> Seq<(Seq<char>, Seq<char>)>
    decreases lines.len(),
{
    if lines.len() == 0 {
        Seq::empty()
    } else {
        let rest = entries_spec(lines.drop_last());
        match entry_spec(lines.last()) {
            Some(e) => rest.push(e),
            None => rest,
        }
    }
}

/// The entries that a manifest text holds.
pub open spec fn manifest_spec(text: Seq<char>) -> Seq<(Seq<char>, Seq<char>)> {
    entries_spec(split_on(text, '\n'))
}

pub open spec fn entry_views(m: Seq<(String, String)>) -> Seq<(Seq<char>, Seq<char>)> {
    m.map_values(|e: (String, String)| (e.0@, e.1@))
}

/// The value of the last entry under `key`, as collecting into a map keeps it.
pub open spec fn manifest_lookup(m: Seq<(Seq<char>, Seq<char>)>, key: Seq<char>) -> Option<
    Seq<char>,
>
    decreases m.len(),
{
    if m.len() == 0 {
        None
    } else if m.last().0 == key {
        Some(m.last().1)
    } else {
        manifest_lookup(m.drop_last(), key)
    }
}

proof fn lemma_trim_start(s: Seq<char>, i: int)
    requires
        0 <= i <= s.len(),
        forall|j: int| 0 <= j < i ==> is_space(#[trigger] s[j]),
        i == s.len() || !is_space(s[i]),
    ensures
        trim_start_spec(s) == s.subrange(i, s.len() as int),
    decreases i,
{
    if i == 0 {
        assert(s.subrange(0, s.len() as int) =~= s);
        if s.len() > 0 {
            assert(!is_space(s[0]));
        }
    } else {
        let t = s.drop_first();
        assert(is_space(s[0]));
        assert forall|j: int| 0 <= j < i - 1 implies is_space(#[trigger] t[j]) by {
            assert(t[j] == s[j + 1]);
        }
        if i < s.len() {
            assert(t[i - 1] == s[i]);
        }
        lemma_trim_start(t, i - 1);
        assert(t.subrange(i - 1, t.len() as int) =~= s.subrange(i, s.len() as int));
    }
}

proof fn lemma_trim_end(s: Seq<char>, k: int)
    requires
        0 <= k <= s.len(),
        forall|j: int| k <= j < s.len() ==> is_space(#[trigger] s[j]),
        k == 0 || !is_space(s[k - 1]),
    ensures
        trim_end_spec(s) == s.subrange(0, k),
    decreases s.len() - k,
{
    if k == s.len() {
        assert(s.subrange(0, k) =~= s);
        if s.len() > 0 {
            assert(!is_space(s.last()));
        }
    } else {
        let t = s.drop_last();
        assert(is_space(s.last())) by {
            assert(s.last() == s[s.len() - 1]);
        }
        assert forall|j: int| k <= j < t.len() implies is_space(#[trigger] t[j]) by {
            assert(t[j] == s[j]);
        }
        if k > 0 {
            assert(t[k - 1] == s[k - 1]);
        }
        lemma_trim_end(t, k);
        assert(t.subrange(0, k) =~= s.subrange(0, k));
    }
}

/// Whether `c` is white space.
pub fn is_space_char(c: char) -> (r: bool)
    ensures
        r == is_space(c),
{
    ('\u{9}' <= c && c <= '\u{d}') || c == ' ' || c == '\u{85}' || c == '\u{a0}' || c
        == '\u{1680}' || ('\u{2000}' <= c && c <= '\u{200a}') || c == '\u{2028}' || c
        == '\u{2029}' || c == '\u{202f}' || c == '\u{205f}' || c == '\u{3000}'
}

/// Removes leading and trailing white space.
pub fn trim(s: &str) -> (r: String)
    ensures
        r@ == trim_spec(s@),
{
    let n = s.unicode_len();
    let mut i: usize = 0;
    while i < n && is_space_char(s.get_char(i))
        invariant
            n == s@.len(),
            i <= n,
            forall|j: int| 0 <= j < i ==> is_space(#[trigger] s@[j]),
        decreases n - i,
    {
        i = i + 1;
    }
    proof {
        lemma_trim_start(s@, i as int);
    }
    let ghost t = s@.subrange(i as int, n as int);
    let mut k: usize = n;
    while k > i && is_space_char(s.get_char(k - 1))
        invariant
            n == s@.len(),
            i <= k <= n,
            t == s@.subrange(i as int, n as int),
            forall|j: int| k - i <= j < t.len() ==> is_space(#[trigger] t[j]),
        decreases k,
    {
        assert(t[k - 1 - i] == s@[k - 1]);
        k = k - 1;
    }
    proof {
        if k > i {
            assert(t[k - 1 - i] == s@[k - 1]);
        }
        lemma_trim_end(t, k - i);
        assert(t.subrange(0, k - i) =~= s@.subrange(i as int, k as int));
    }
    String::from_str(s.substring_char(i, k))
}

/// The index of the first `c` in `s`, or the length of `s`.
pub fn find_char(s: &str, c: char) -> (r: usize)
    ensures
        r as int == find_spec(s@, c),
        r <= s@.len(),
{
    let n = s.unicode_len();
    let mut i: usize = 0;
    while i < n && s.get_char(i) != c
        invariant
            n == s@.len(),
            i <= n,
            forall|j: int| 0 <= j < i ==> #[trigger] s@[j] != c,
        decreases n - i,
    {
        i = i + 1;
    }
    proof {
        lemma_find(s@, c, i as int);
    }
    i
}

proof fn lemma_find(s: Seq<char>, c: char, i: int)
    requires
        0 <= i <= s.len(),
        forall|j: int| 0 <= j < i ==> #[trigger] s[j] != c,
        i == s.len() || s[i] == c,
    ensures
        find_spec(s, c) == i,
    decreases i,
{
    if i > 0 {
        let t = s.drop_first();
        assert(s[0] != c);
        assert forall|j: int| 0 <= j < i - 1 implies #[trigger] t[j] != c by {
            assert(t[j] == s[j + 1]);
        }
        if i < s.len() {
            assert(t[i - 1] == s[i]);
        }
        lemma_find(t, c, i - 1);
    } else if s.len() > 0 {
        assert(s[0] == c);
    }
}

/// Parses the `Key: value` lines of an archive manifest.
pub fn parse_manifest(manifest_str: &str) -> (r: Manifest)
    ensures
        entry_views(r@) == manifest_spec(manifest_str@),
{
    let lines = split(manifest_str, '\n');
    let mut entries: Manifest = Vec::new();
    let mut i: usize = 0;
    while i < lines.len()
        invariant
            i <= lines@.len(),
            views(lines@) == split_on(manifest_str@, '\n'),
            entry_views(entries@) == entries_spec(views(lines@).take(i as int)),
        decreases lines@.len() - i,
    {
        let line = lines[i].as_str();
        let ghost pre = views(lines@).take(i as int);
        assert(views(lines@).take(i as int + 1).drop_last() =~= pre);
        assert(views(lines@).take(i as int + 1).last() == line@);
        let k = find_char(line, ':');
        let n = line.unicode_len();
        if k < n {
            let key = trim(line.substring_char(0, k));
            let value = trim(line.substring_char(k + 1, n));
            let ghost before = entries@;
            entries.push((key, value));
            assert(entry_views(entries@) =~= entry_views(before).push((key@, value@)));
        }
        i = i + 1;
    }
    assert(views(lines@).take(lines@.len() as int) =~= views(lines@));
    entries
}

/// The value of the last entry named `key`.
pub fn manifest_get<'a>(manifest: &'a Manifest, key: &str) -> (r: Option<&'a String>)
    ensures
        match r {
            Some(v) => manifest_lookup(entry_views(manifest@), key@) == Some(v@),
            None => manifest_lookup(entry_views(manifest@), key@) is None,
        },
{
    let mut found: Option<&String> = None;
    let mut i: usize = 0;
    while i < manifest.len()
        invariant
            i <= manifest@.len(),
            match found {
                Some(v) => manifest_lookup(entry_views(manifest@).take(i as int), key@) == Some(
                    v@,
                ),
                None => manifest_lookup(entry_views(manifest@).take(i as int), key@) is None,
            },
        decreases manifest@.len() - i,
    {
        let ghost t = entry_views(manifest@).take(i as int + 1);
        assert(t.drop_last() =~= entry_views(manifest@).take(i as int));
        assert(t.last() == (manifest@[i as int].0@, manifest@[i as int].1@));
        if same(manifest[i].0.as_str(), key) {
            found = Some(&manifest[i].1);
        }
        i = i + 1;
    }
    assert(entry_views(manifest@).take(manifest@.len() as int) =~= entry_views(manifest@));
    found
}

/// The entry point class that an archive's manifest text declares; `jar`
/// names the archive in the error.
pub fn main_class(manifest_text: &str, jar: &str) -> (r: Result<String, InstallError>)
    ensures
        match manifest_lookup(manifest_spec(manifest_text@), "Main-Class"@) {
            Some(c) => r matches Ok(s) && s@ == c,
            None => r matches Err(InstallError::MissingMainClass(j)) && j@ == jar@,
        },
{
    let manifest = parse_manifest(manifest_text);
    match manifest_get(&manifest, "Main-Class") {
        Some(c) => Ok(c.clone()),
        None => Err(InstallError::MissingMainClass(String::from_str(jar))),
    }
}

/// `home/bin/java`, or `home/bin/java.exe` on Windows.
pub open spec fn java_exec_spec(home: Seq<char>, platform: Platform) -> Seq<char> {
    home + "/bin/"@ + if platform == Platform::Windows {
        "java.exe"@
    } else {
        "java"@
    }
}

/// The interpreter executable inside a runtime home.
pub fn java_executable(home: &str, platform: Platform) -> (r: String)
    ensures
        r@ == java_exec_spec(home@, platform),
{
    let mut out = String::from_str(home);
    out.append("/bin/");
    match platform {
        Platform::Windows => out.append("java.exe"),
        Platform::Unix => out.append("java"),
    }
    out
}

/// Locates the interpreter executable: under the configured home if one is
/// given, else under the discovered one. Whether the file exists is for the
/// caller to check.
pub fn find_exec(home: Option<&str>, discovered: Option<&str>, platform: Platform) -> (r: Result<
    String,
    InstallError,
>)
    ensures
        home matches Some(h) ==> (r matches Ok(p) && p@ == java_exec_spec(h@, platform)),
        home is None ==> (discovered matches Some(d) ==> r matches Ok(p) && p@ == java_exec_spec(
            d@,
            platform,
        )),
        home is None && discovered is None ==> r matches Err(InstallError::JavaNotFound),
{
    match home {
        Some(h) => Ok(java_executable(h, platform)),
        None => match discovered {
            Some(d) => Ok(java_executable(d, platform)),
            None => Err(InstallError::JavaNotFound),
        },
    }
}

/// The separator between classpath entries.
pub fn classpath_separator(platform: Platform) -> (r: &'static str)
    ensures
        platform == Platform::Windows ==> r@ == ";"@,
        platform == Platform::Unix ==> r@ == ":"@,
{
    match platform {
        Platform::Windows => ";",
        Platform::Unix => ":",
    }
}

} // verus!
