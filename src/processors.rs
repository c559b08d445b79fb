use vstd::prelude::*;

use crate::error::InstallError;
use crate::maven::{is_well_formed, maven_path, parse_maven};
use crate::profile::{lookup, lookup_client, strip_quotes, unquote, unwrap_spec, DataValue, Processor};
use crate::text::{same, views};

verus! {

/// The fixed values that processor arguments are resolved against.
#[derive(Debug, Clone)]
pub struct ProcessorContext {
    /// Directory that library coordinates resolve under.
    pub libraries_directory: String,
    /// Path of the base game archive, substituted for the `MINECRAFT_JAR` sentinel.
    pub minecraft_jar: String,
    /// Path of the binary patch file, substituted for the `BINPATCH` sentinel.
    pub binpatch: String,
    /// The platform's path-list separator.
    pub separator: String,
}

/// One processor, ready to run: `<interpreter> -cp <classpath> <main class> <args...>`.
#[derive(Debug, Clone)]
pub struct ProcessorCommand {
    /// Path of the executable archive, whose manifest names the main class.
    pub jar: String,
    pub classpath: String,
    pub args: Vec<String>,
}

/// `dir/rel`
pub open spec fn join_spec(dir: Seq<char>, rel: Seq<char>) -> Seq<char> {
    dir + seq!['/'] + rel
}

/// The parts joined with `sep` between each two.
pub open spec fn join_with(parts: Seq<Seq<char>>, sep: Seq<char>) -> Seq<char>
    decreases parts.len(),
{
    if parts.len() == 0 {
        Seq::<char>::empty()
    } else if parts.len() == 1 {
        parts[0]
    } else {
        join_with(parts.drop_last(), sep) + sep + parts.last()
    }
}

/// `{NAME}`
pub open spec fn is_braced(a: Seq<char>) -> bool {
    a.len() >= 2 && a[0] == '{' && a.last() == '}'
}

/// `[coordinate]`
pub open spec fn is_bracketed(a: Seq<char>) -> bool {
    a.len() >= 2 && a[0] == '[' && a.last() == ']'
}

pub open spec fn is_sentinel(v: Seq<char>) -> bool {
    v == "MINECRAFT_JAR"@ || v == "BINPATCH"@
}

/// First pass: a `{NAME}` reference becomes the sentinel name or the quoted-off
/// data value; anything else stays. `None` when the name is not in the data.
pub open spec fn expand_spec(a: Seq<char>, data: Seq<(String, DataValue)>) -> Option<Seq<char>> {
    if is_braced(a) {
        let v = unwrap_spec(a);
        if is_sentinel(v) {
            Some(v)
        } else {
            match lookup(data, v) {
                Some(x) => Some(unquote(x)),
                None => None,
            }
        }
    } else {
        Some(a)
    }
}

/// Second pass: sentinels become their paths and `[coordinate]` the library
/// path; anything else stays. `None` when the coordinate is malformed.
pub open spec fn substitute_spec(a: Seq<char>, ctx: ProcessorContext) -> Option<Seq<char>> {
    if a == "MINECRAFT_JAR"@ {
        Some(ctx.minecraft_jar@)
    } else if a == "BINPATCH"@ {
        Some(ctx.binpatch@)
    } else if is_bracketed(a) {
        let c = unwrap_spec(a);
        if is_well_formed(c) {
            Some(join_spec(ctx.libraries_directory@, maven_path(c)))
        } else {
            None
        }
    } else {
        Some(a)
    }
}

/// An argument after both passes.
pub open spec fn arg_spec(a: Seq<char>, data: Seq<(String, DataValue)>, ctx: ProcessorContext) -> Option<
    Seq<char>,
> {
    match expand_spec(a, data) {
        Some(x) => substitute_spec(x, ctx),
        None => None,
    }
}

/// The path of the library a coordinate names.
pub open spec fn library_spec(libraries: Seq<char>, c: Seq<char>) -> Seq<char> {
    join_spec(libraries, maven_path(c))
}

/// Every coordinate and every argument of the processor resolves.
pub open spec fn processor_resolves(
    p: Processor,
    data: Seq<(String, DataValue)>,
    ctx: ProcessorContext,
) -> bool {
    &&& is_well_formed(p.jar@)
    &&& forall|i: int| 0 <= i < p.classpath@.len() ==> is_well_formed(#[trigger] p.classpath@[i]@)
    &&& forall|i: int| 0 <= i < p.args@.len() ==> (#[trigger] arg_spec(p.args@[i]@, data, ctx)) is Some
}

/// Some argument of the processor names a variable the data lacks.
pub open spec fn has_missing(p: Processor, data: Seq<(String, DataValue)>) -> bool {
    exists|i: int| 0 <= i < p.args@.len() && (#[trigger] expand_spec(p.args@[i]@, data)) is None
}

/// `k` is the variable named by the first argument whose variable the data lacks.
pub open spec fn first_missing(p: Processor, data: Seq<(String, DataValue)>, k: Seq<char>) -> bool {
    exists|i: int|
        0 <= i < p.args@.len() && (#[trigger] expand_spec(p.args@[i]@, data)) is None
            && unwrap_spec(p.args@[i]@) == k && lookup(data, k) is None && forall|j: int|
            0 <= j < i ==> (#[trigger] expand_spec(p.args@[j]@, data)) is Some
}

/// The classpath: the executable archive, then each classpath library.
pub open spec fn classpath_spec(p: Processor, ctx: ProcessorContext) -> Seq<char> {
    join_with(
        seq![library_spec(ctx.libraries_directory@, p.jar@)] + Seq::new(
            p.classpath@.len(),
            |i: int| library_spec(ctx.libraries_directory@, p.classpath@[i]@),
        ),
        ctx.separator@,
    )
}

/// The command that a resolvable processor becomes.
pub open spec fn command_spec(
    cmd: ProcessorCommand,
    p: Processor,
    data: Seq<(String, DataValue)>,
    ctx: ProcessorContext,
) -> bool {
    &&& cmd.jar@ == library_spec(ctx.libraries_directory@, p.jar@)
    &&& cmd.classpath@ == classpath_spec(p, ctx)
    &&& cmd.args@.len() == p.args@.len()
    &&& forall|i: int|
        0 <= i < p.args@.len() ==> Some(#[trigger] cmd.args@[i]@) == arg_spec(
            p.args@[i]@,
            data,
            ctx,
        )
}

impl ProcessorCommand {
    /// A copy of the command.
    pub fn duplicate(&self) -> (r: ProcessorCommand)
        ensures
            r.jar@ == self.jar@,
            r.classpath@ == self.classpath@,
            views(r.args@) == views(self.args@),
    {
        let mut args: Vec<String> = Vec::new();
        let mut i: usize = 0;
        while i < self.args.len()
            invariant
                i <= self.args@.len(),
                views(args@) == views(self.args@).take(i as int),
            decreases self.args@.len() - i,
        {
            let ghost before = args@;
            args.push(self.args[i].clone());
            assert(views(args@) =~= views(self.args@).take(i as int + 1)) by {
                assert(views(args@) =~= views(before).push(self.args@[i as int]@));
            }
            i = i + 1;
        }
        assert(views(self.args@).take(self.args@.len() as int) =~= views(self.args@));
        ProcessorCommand { jar: self.jar.clone(), classpath: self.classpath.clone(), args }
    }
}

/// `dir/rel`
pub fn join_path(dir: &str, rel: &str) -> (r: String)
    ensures
        r@ == join_spec(dir@, rel@),
{
    proof {
        reveal_strlit("/");
    }
    let mut out = String::from_str(dir);
    out.append("/");
    out.append(rel);
    out
}

/// The path of the library file that a coordinate names.
pub fn library_path(libraries_directory: &str, coordinate: &str) -> (r: Result<
    String,
    InstallError,
>)
    ensures
        is_well_formed(coordinate@) ==> (r matches Ok(p) && p@ == library_spec(
            libraries_directory@,
            coordinate@,
        )),
        !is_well_formed(coordinate@) ==> (r matches Err(InstallError::MalformedCoordinate(n))
            && n@ == coordinate@),
{
    match parse_maven(coordinate) {
        Ok(rel) => Ok(join_path(libraries_directory, rel.as_str())),
        Err(e) => Err(e),
    }
}

/// First pass over one argument: resolves a `{NAME}` reference against the data.
pub fn expand_arg(arg: &str, data: &Vec<(String, DataValue)>) -> (r: Result<String, InstallError>)
    ensures
        expand_spec(arg@, data@) is Some ==> (r matches Ok(x) && x@ == expand_spec(
            arg@,
            data@,
        )->0),
        expand_spec(arg@, data@) is None ==> (r matches Err(InstallError::MissingVariable(v))
            && v@ == unwrap_spec(arg@) && lookup(data@, v@) is None),
{
    let n = arg.unicode_len();
    if n >= 2 && arg.get_char(0) == '{' && arg.get_char(n - 1) == '}' {
        let name = arg.substring_char(1, n - 1);
        if same(name, "MINECRAFT_JAR") || same(name, "BINPATCH") {
            return Ok(String::from_str(name));
        }
        match lookup_client(data, name) {
            Some(v) => Ok(strip_quotes(v.as_str())),
            None => Err(InstallError::MissingVariable(String::from_str(name))),
        }
    } else {
        Ok(String::from_str(arg))
    }
}

/// Second pass over one argument: substitutes sentinels and `[coordinate]` references.
pub fn substitute_arg(arg: &str, ctx: &ProcessorContext) -> (r: Result<String, InstallError>)
    ensures
        substitute_spec(arg@, *ctx) is Some ==> (r matches Ok(x) && x@ == substitute_spec(
            arg@,
            *ctx,
        )->0),
        substitute_spec(arg@, *ctx) is None ==> (r matches Err(
            InstallError::MalformedCoordinate(n),
        ) && n@ == unwrap_spec(arg@)),
{
    if same(arg, "MINECRAFT_JAR") {
        return Ok(ctx.minecraft_jar.clone());
    }
    if same(arg, "BINPATCH") {
        return Ok(ctx.binpatch.clone());
    }
    let n = arg.unicode_len();
    if n >= 2 && arg.get_char(0) == '[' && arg.get_char(n - 1) == ']' {
        library_path(ctx.libraries_directory.as_str(), arg.substring_char(1, n - 1))
    } else {
        Ok(String::from_str(arg))
    }
}

/// Resolves a processor's archive, classpath and arguments into a command.
pub fn plan_processor(
    p: &Processor,
    data: &Vec<(String, DataValue)>,
    ctx: &ProcessorContext,
) -> (r: Result<ProcessorCommand, InstallError>)
    ensures
        r is Ok <==> processor_resolves(*p, data@, *ctx),
        r matches Ok(cmd) ==> command_spec(cmd, *p, data@, *ctx),
        has_missing(*p, data@) ==> (r matches Err(InstallError::MissingVariable(k))
            && first_missing(*p, data@, k@)),
{
    // first pass: variables
    let mut expanded: Vec<String> = Vec::new();
    let mut i: usize = 0;
    while i < p.args.len()
        invariant
            i <= p.args@.len(),
            expanded@.len() == i,
            forall|j: int|
                0 <= j < i ==> Some(#[trigger] expanded@[j]@) == expand_spec(p.args@[j]@, data@),
        decreases p.args@.len() - i,
    {
        match expand_arg(p.args[i].as_str(), data) {
            Ok(x) => expanded.push(x),
            Err(e) => {
                assert(arg_spec(p.args@[i as int]@, data@, *ctx) is None);
                assert(forall|j: int| 0 <= j < i ==> (#[trigger] expand_spec(p.args@[j]@, data@)) is Some) by {
                    assert forall|j: int| 0 <= j < i implies (#[trigger] expand_spec(p.args@[j]@, data@)) is Some by {
                        assert(Some(expanded@[j]@) == expand_spec(p.args@[j]@, data@));
                    }
                }
                return Err(e);
            },
        }
        i = i + 1;
    }
    assert(!has_missing(*p, data@)) by {
        assert forall|j: int| 0 <= j < p.args@.len() implies (#[trigger] expand_spec(p.args@[j]@, data@)) is Some by {
            assert(Some(expanded@[j]@) == expand_spec(p.args@[j]@, data@));
        }
    }
    // second pass: paths
    let mut args: Vec<String> = Vec::new();
    let mut i: usize = 0;
    while i < expanded.len()
        invariant
            i <= expanded@.len(),
            expanded@.len() == p.args@.len(),
            !has_missing(*p, data@),
            args@.len() == i,
            forall|j: int|
                0 <= j < expanded@.len() ==> Some(#[trigger] expanded@[j]@) == expand_spec(
                    p.args@[j]@,
                    data@,
                ),
            forall|j: int|
                0 <= j < i ==> Some(#[trigger] args@[j]@) == arg_spec(p.args@[j]@, data@, *ctx),
        decreases expanded@.len() - i,
    {
        assert(Some(expanded@[i as int]@) == expand_spec(p.args@[i as int]@, data@));
        match substitute_arg(expanded[i].as_str(), ctx) {
            Ok(x) => args.push(x),
            Err(e) => {
                assert(arg_spec(p.args@[i as int]@, data@, *ctx) is None);
                return Err(e);
            },
        }
        i = i + 1;
    }
    let jar = match library_path(ctx.libraries_directory.as_str(), p.jar.as_str()) {
        Ok(j) => j,
        Err(e) => return Err(e),
    };
    let ghost paths = Seq::new(
        p.classpath@.len(),
        |k: int| library_spec(ctx.libraries_directory@, p.classpath@[k]@),
    );
    let mut classpath = jar.clone();
    let mut i: usize = 0;
    assert(seq![jar@] + paths.take(0) =~= seq![jar@]);
    while i < p.classpath.len()
        invariant
            i <= p.classpath@.len(),
            !has_missing(*p, data@),
            paths.len() == p.classpath@.len(),
            forall|k: int|
                0 <= k < paths.len() ==> #[trigger] paths[k] == library_spec(
                    ctx.libraries_directory@,
                    p.classpath@[k]@,
                ),
            forall|k: int| 0 <= k < i ==> is_well_formed(#[trigger] p.classpath@[k]@),
            classpath@ == join_with(seq![jar@] + paths.take(i as int), ctx.separator@),
        decreases p.classpath@.len() - i,
    {
        let entry = match library_path(ctx.libraries_directory.as_str(), p.classpath[i].as_str()) {
            Ok(e) => e,
            Err(e) => return Err(e),
        };
        classpath.append(ctx.separator.as_str());
        classpath.append(entry.as_str());
        let ghost next = seq![jar@] + paths.take(i as int + 1);
        assert(next.drop_last() =~= seq![jar@] + paths.take(i as int));
        assert(next.last() == paths[i as int]);
        i = i + 1;
    }
    assert(paths.take(p.classpath@.len() as int) =~= paths);
    assert(paths =~= Seq::new(
        p.classpath@.len(),
        |k: int| library_spec(ctx.libraries_directory@, p.classpath@[k]@),
    ));
    assert forall|j: int| 0 <= j < p.args@.len() implies (#[trigger] arg_spec(
        p.args@[j]@,
        data@,
        *ctx,
    )) is Some by {
        assert(Some(args@[j]@) == arg_spec(p.args@[j]@, data@, *ctx));
    }
    Ok(ProcessorCommand { jar, classpath, args })
}

} // verus!
