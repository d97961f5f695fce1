//! Response files (`@file` arguments): their expansion, and what is remembered
//! of it while the files stay as they are.

use crate::hash::ContentHash;
use crate::paths;
use crate::paths::{join, parent_of};
use crate::records;
use crate::records::{Record, RecordView, RspCacheEntry, RspDependency, RspView};
use crate::table;
use crate::table::Table;
use crate::text;
use crate::text::{clone_strings, from_chars, str_eq, to_chars};
use vstd::prelude::*;

verus! {

/// How deep response files may refer to each other.
pub const MAX_RSP_DEPTH: usize = 10;

/// A response file as it was found.
#[derive(Debug)]
pub struct RspFile {
    /// The path by which it is referred to.
    pub path: String,
    /// Its canonical path, or why there is none.
    pub canonical: Result<String, String>,
    /// Its content hash, where it could be hashed.
    pub hash: Option<ContentHash>,
    /// Its arguments, or why it could not be read.
    pub arguments: Result<Vec<String>, String>,
}

/// Why a response file is not expanded.
#[derive(Clone, Debug, PartialEq, Eq)]
pub enum ResponseFileError {
    /// Files refer to each other more than ten deep.
    TooDeep {
        /// The file that is too deep.
        path: String,
    },
    /// A file refers to itself, directly or through others.
    CircularReference {
        /// The file.
        path: String,
    },
    /// A file cannot be read.
    ReadError {
        /// The file.
        path: String,
        /// Why.
        source: String,
    },
    /// The file has not been looked at yet.
    Unread {
        /// The file.
        path: String,
    },
}

/// The contents of a [`ResponseFileError`].
#[verifier::ext_equal]
pub enum RspErrorView {
    /// Files refer to each other more than ten deep.
    TooDeep(Seq<char>),
    /// A file refers to itself.
    CircularReference(Seq<char>),
    /// A file cannot be read.
    ReadError(Seq<char>, Seq<char>),
    /// The file has not been looked at yet.
    Unread(Seq<char>),
}

impl View for ResponseFileError {
    type V = RspErrorView;

    open spec fn view(&self) -> RspErrorView {
        match *self {
            ResponseFileError::TooDeep { path } => RspErrorView::TooDeep(path@),
            ResponseFileError::CircularReference { path } => RspErrorView::CircularReference(path@),
            ResponseFileError::ReadError { path, source } => RspErrorView::ReadError(
                path@,
                source@,
            ),
            ResponseFileError::Unread { path } => RspErrorView::Unread(path@),
        }
    }
}

/// What a response file expands to, and the files that were read.
#[derive(Clone, Debug)]
pub struct Expansion {
    /// The arguments.
    pub args: Vec<String>,
    /// The files, each before those that it refers to.
    pub dependencies: Vec<RspDependency>,
}

/// The contents of an [`Expansion`].
#[verifier::ext_equal]
pub struct ExpansionView {
    /// The arguments.
    pub args: Seq<Seq<char>>,
    /// The files.
    pub dependencies: Seq<(Seq<char>, Seq<u8>)>,
}

impl View for Expansion {
    type V = ExpansionView;

    open spec fn view(&self) -> ExpansionView {
        ExpansionView {
            args: text::views(self.args@),
            dependencies: records::dependency_views(self.dependencies@),
        }
    }
}

/// An expansion or an error, by contents.
pub open spec fn outcome_view(r: Result<Expansion, ResponseFileError>) -> Result<
    ExpansionView,
    RspErrorView,
> {
    match r {
        Ok(x) => Ok(x@),
        Err(e) => Err(e@),
    }
}

/// Whether an argument refers to a file: an `@` with something behind it.
pub open spec fn refers(arg: Seq<char>) -> bool {
    arg.len() > 1 && arg[0] == '@'
}

/// The file that an argument refers to, from a directory.
pub open spec fn referred(arg: Seq<char>, dir: Seq<char>) -> Seq<char> {
    paths::joined(dir, arg.skip(1))
}

/// The file that the argument refers to, from a directory, if it refers to
/// one.
pub fn rsp_path(arg: &str, dir: &str) -> (r: Option<String>)
    ensures
        match r {
            Some(p) => refers(arg@) && p@ == referred(arg@, dir@),
            None => !refers(arg@),
        },
{
    let v = to_chars(arg);
    if v.len() > 1 && v[0] == '@' {
        let name = from_chars(&v, 1, v.len());
        assert(name@ =~= arg@.skip(1));
        Some(join(dir, name.as_str()))
    } else {
        None
    }
}

/// The first place at which a file was looked at under a path.
pub open spec fn found_at(files: Seq<RspFile>, path: Seq<char>, i: int) -> bool {
    &&& 0 <= i < files.len()
    &&& files[i].path@ == path
    &&& forall|j: int| 0 <= j < i ==> (#[trigger] files[j]).path@ != path
}

/// The directory that the references of a file start from.
pub open spec fn base_dir(canonical: Seq<char>) -> Seq<char> {
    match paths::parent(canonical) {
        Some(dir) => dir,
        None => "."@,
    }
}

/// The expansion of a file, with `left` levels to go and `open` the files that
/// led to it.
pub open spec fn expand_file(
    files: Seq<RspFile>,
    path: Seq<char>,
    open: Seq<Seq<char>>,
    left: nat,
) -> Result<ExpansionView, RspErrorView>
    decreases left, 0nat,
{
    if left == 0 {
        Err(RspErrorView::TooDeep(path))
    } else if !(exists|i: int| found_at(files, path, i)) {
        Err(RspErrorView::Unread(path))
    } else {
        let f = files[choose|i: int| found_at(files, path, i)];
        match f.canonical {
            Err(e) => Err(RspErrorView::ReadError(path, e@)),
            Ok(c) => if open.contains(c@) {
                Err(RspErrorView::CircularReference(c@))
            } else {
                match f.hash {
                    None => Err(RspErrorView::ReadError(c@, "failed to hash response file"@)),
                    Some(h) => match f.arguments {
                        Err(e) => Err(RspErrorView::ReadError(c@, e@)),
                        Ok(args) => match expand_args(
                            files,
                            text::views(args@),
                            base_dir(c@),
                            open.push(c@),
                            (left - 1) as nat,
                        ) {
                            Err(e) => Err(e),
                            Ok(x) => Ok(
                                ExpansionView {
                                    args: x.args,
                                    dependencies: seq![(c@, h@)] + x.dependencies,
                                },
                            ),
                        },
                    },
                }
            },
        }
    }
}

/// The expansion of the arguments of a file.
pub open spec fn expand_args(
    files: Seq<RspFile>,
    args: Seq<Seq<char>>,
    dir: Seq<char>,
    open: Seq<Seq<char>>,
    left: nat,
) -> Result<ExpansionView, RspErrorView>
    decreases left, args.len(),
{
    if args.len() == 0 {
        Ok(ExpansionView { args: Seq::empty(), dependencies: Seq::empty() })
    } else {
        match expand_args(files, args.drop_last(), dir, open, left) {
            Err(e) => Err(e),
            Ok(x) => if refers(args.last()) {
                match expand_file(files, referred(args.last(), dir), open, left) {
                    Err(e) => Err(e),
                    Ok(y) => Ok(
                        ExpansionView {
                            args: x.args + y.args,
                            dependencies: x.dependencies + y.dependencies,
                        },
                    ),
                }
            } else {
                Ok(ExpansionView { args: x.args.push(args.last()), dependencies: x.dependencies })
            },
        }
    }
}

proof fn place_is_unique(files: Seq<RspFile>, path: Seq<char>, i: int)
    requires
        found_at(files, path, i),
    ensures
        (choose|k: int| found_at(files, path, k)) == i,
{
    let k = choose|k: int| found_at(files, path, k);
    assert(found_at(files, path, k));
    if k < i {
        assert(files[k].path@ != path);
    } else if i < k {
        assert(files[i].path@ != path);
    }
}

proof fn args_fail_early(
    files: Seq<RspFile>,
    args: Seq<Seq<char>>,
    dir: Seq<char>,
    open: Seq<Seq<char>>,
    left: nat,
    i: int,
)
    requires
        0 <= i <= args.len(),
        expand_args(files, args.take(i), dir, open, left) is Err,
    ensures
        expand_args(files, args, dir, open, left) == expand_args(
            files,
            args.take(i),
            dir,
            open,
            left,
        ),
    decreases args.len() - i,
{
    if i == args.len() {
        assert(args.take(i) =~= args);
    } else {
        assert(args.take(i + 1).drop_last() =~= args.take(i));
        args_fail_early(files, args, dir, open, left, i + 1);
    }
}

fn find_file(files: &[RspFile], path: &str) -> (r: Option<usize>)
    ensures
        match r {
            Some(i) => found_at(files@, path@, i as int),
            None => !(exists|i: int| found_at(files@, path@, i)),
        },
{
    let mut i: usize = 0;
    while i < files.len()
        invariant
            i <= files.len(),
            forall|j: int| 0 <= j < i ==> (#[trigger] files@[j]).path@ != path@,
        decreases files.len() - i,
    {
        if str_eq(files[i].path.as_str(), path) {
            return Some(i);
        }
        i = i + 1;
    }
    None
}

/// Expands a response file that was reached through the files in `open`, with
/// `left` levels to go. A reference to a file that is not in `files` is
/// reported as unread.
pub fn expand_rsp_recursive(
    files: &[RspFile],
    path: &str,
    open: &Vec<String>,
    left: usize,
) -> (r: Result<Expansion, ResponseFileError>)
    ensures
        outcome_view(r) == expand_file(files@, path@, text::views(open@), left as nat),
    decreases left,
{
    if left == 0 {
        return Err(ResponseFileError::TooDeep { path: path.to_owned() });
    }
    let at: usize = match find_file(files, path) {
        Some(at) => at,
        None => {
            return Err(ResponseFileError::Unread { path: path.to_owned() });
        },
    };
    proof {
        place_is_unique(files@, path@, at as int);
    }
    let file = &files[at];
    let canonical = match &file.canonical {
        Ok(c) => c.clone(),
        Err(e) => {
            return Err(ResponseFileError::ReadError { path: path.to_owned(), source: e.clone() });
        },
    };
    if crate::text::contains_str(open.as_slice(), canonical.as_str()) {
        return Err(ResponseFileError::CircularReference { path: canonical });
    }
    let hash = match file.hash {
        Some(h) => h,
        None => {
            return Err(
                ResponseFileError::ReadError {
                    path: canonical,
                    source: "failed to hash response file".to_owned(),
                },
            );
        },
    };
    let arguments = match &file.arguments {
        Ok(arguments) => arguments,
        Err(e) => {
            return Err(ResponseFileError::ReadError { path: canonical, source: e.clone() });
        },
    };
    let dir = match parent_of(canonical.as_str()) {
        Some(dir) => dir,
        None => ".".to_owned(),
    };
    let mut opened = clone_strings(open.as_slice());
    opened.push(canonical.clone());
    assert(text::views(opened@) =~= text::views(open@).push(canonical@));
    let mut dependencies: Vec<RspDependency> = Vec::new();
    dependencies.push(RspDependency { path: canonical.clone(), hash });
    let mut args: Vec<String> = Vec::new();
    let ghost all = text::views(arguments@);
    let ghost head: Seq<(Seq<char>, Seq<u8>)> = seq![(canonical@, hash@)];
    let mut i: usize = 0;
    assert(all.take(0) =~= Seq::empty());
    assert(text::views(args@) =~= Seq::empty());
    assert(records::dependency_views(dependencies@) =~= head + Seq::empty());
    while i < arguments.len()
        invariant
            i <= arguments.len(),
            left > 0,
            all == text::views(arguments@),
            text::views(opened@) == text::views(open@).push(canonical@),
            dir@ == base_dir(canonical@),
            head == seq![(canonical@, hash@)],
            ({
                let so_far = expand_args(
                    files@,
                    all.take(i as int),
                    dir@,
                    text::views(opened@),
                    (left - 1) as nat,
                );
                so_far is Ok && so_far->Ok_0.args == text::views(args@) && head
                    + so_far->Ok_0.dependencies == records::dependency_views(dependencies@)
            }),
            expand_file(files@, path@, text::views(open@), left as nat) == (match expand_args(
                files@,
                all,
                dir@,
                text::views(opened@),
                (left - 1) as nat,
            ) {
                Err(e) => Err(e),
                Ok(x) => Ok(
                    ExpansionView { args: x.args, dependencies: head + x.dependencies },
                ),
            }),
        decreases arguments.len() - i,
    {
        let ghost so_far = expand_args(
            files@,
            all.take(i as int),
            dir@,
            text::views(opened@),
            (left - 1) as nat,
        );
        let ghost args_before = text::views(args@);
        let ghost deps_before = records::dependency_views(dependencies@);
        assert(all.take(i + 1).drop_last() =~= all.take(i as int));
        assert(all[i as int] == arguments@[i as int]@);
        match rsp_path(arguments[i].as_str(), dir.as_str()) {
            Some(child) => {
                match expand_rsp_recursive(files, child.as_str(), &opened, left - 1) {
                    Ok(x) => {
                        let ghost xv = x@;
                        let mut x_args = x.args;
                        let mut x_deps = x.dependencies;
                        args.append(&mut x_args);
                        dependencies.append(&mut x_deps);
                        assert(text::views(args@) =~= args_before + xv.args);
                        assert(records::dependency_views(dependencies@) =~= deps_before
                            + xv.dependencies);
                        assert(deps_before + xv.dependencies =~= head + (
                        so_far->Ok_0.dependencies + xv.dependencies));
                    },
                    Err(e) => {
                        proof {
                            args_fail_early(
                                files@,
                                all,
                                dir@,
                                text::views(opened@),
                                (left - 1) as nat,
                                i + 1,
                            );
                        }
                        return Err(e);
                    },
                }
            },
            None => {
                args.push(arguments[i].clone());
                assert(text::views(args@) =~= args_before.push(all[i as int]));
            },
        }
        i = i + 1;
    }
    assert(all.take(all.len() as int) =~= all);
    Ok(Expansion { args, dependencies })
}

/// Whether what was remembered still holds: every file has its hash.
pub open spec fn still_fresh(
    dependencies: Seq<(Seq<char>, Seq<u8>)>,
    hashes: Seq<Option<ContentHash>>,
) -> bool {
    &&& hashes.len() == dependencies.len()
    &&& forall|i: int|
        0 <= i < dependencies.len() ==> (#[trigger] hashes[i]) is Some && hashes[i]->0@
            == dependencies[i].1
}

/// Whether the files of an expansion have the hashes that they had.
pub fn expansion_is_fresh(dependencies: &[RspDependency], hashes: &[Option<ContentHash>]) -> (r:
    bool)
    ensures
        r == still_fresh(records::dependency_views(dependencies@), hashes@),
{
    let ghost deps = records::dependency_views(dependencies@);
    if hashes.len() != dependencies.len() {
        return false;
    }
    let mut i: usize = 0;
    while i < dependencies.len()
        invariant
            i <= dependencies.len(),
            hashes.len() == dependencies.len(),
            deps == records::dependency_views(dependencies@),
            forall|j: int|
                0 <= j < i ==> (#[trigger] hashes@[j]) is Some && hashes@[j]->0@ == deps[j].1,
        decreases dependencies.len() - i,
    {
        assert(deps[i as int].1 == dependencies@[i as int].hash@);
        match &hashes[i] {
            Some(h) => {
                if !h.same(&dependencies[i].hash) {
                    return false;
                }
            },
            None => {
                return false;
            },
        }
        i = i + 1;
    }
    true
}

/// The remembered expansion of a file, if there is one.
pub open spec fn remembered(m: Map<Seq<char>, RecordView>, canonical: Seq<char>) -> Option<RspView> {
    if m.contains_key(canonical) && m[canonical] is Rsp {
        Some(m[canonical]->Rsp_0)
    } else {
        None
    }
}

/// The files whose hashes decide whether what is remembered of a response file
/// still holds.
pub fn remembered_dependencies(cache: &Table, canonical: &str) -> (r: Option<Vec<RspDependency>>)
    ensures
        match r {
            Some(d) => remembered(table::contents(*cache), canonical@) is Some
                && records::dependency_views(d@) == remembered(
                table::contents(*cache),
                canonical@,
            )->0.dependencies,
            None => remembered(table::contents(*cache), canonical@) is None,
        },
{
    match table::get(cache, canonical) {
        Some(Record::Rsp(e)) => Some(e.dependencies),
        _ => None,
    }
}

/// Whether a response file is served from what is remembered of it.
pub open spec fn serves(
    m: Map<Seq<char>, RecordView>,
    canonical: Seq<char>,
    hashes: Seq<Option<ContentHash>>,
) -> bool {
    remembered(m, canonical) is Some && still_fresh(
        remembered(m, canonical)->0.dependencies,
        hashes,
    )
}

/// The record of an expansion.
pub open spec fn expansion_record(x: ExpansionView, now: u64) -> RecordView {
    RecordView::Rsp(
        RspView { expanded: x.args, dependencies: x.dependencies, cached_at: now },
    )
}

/// Expands a response file: what is remembered of it, if its files still have
/// the hashes that they had (`hashes`, in the order in which they were read);
/// else what it expands to now, which is then remembered.
pub fn expand_rsp_arg_cached(
    cache: &mut Table,
    canonical: &str,
    hashes: &[Option<ContentHash>],
    files: &[RspFile],
    now: u64,
) -> (r: Result<Vec<String>, ResponseFileError>)
    ensures
        ({
            let m = table::contents(*old(cache));
            let fresh = expand_file(files@, canonical@, Seq::empty(), MAX_RSP_DEPTH as nat);
            if serves(m, canonical@, hashes@) {
                &&& r is Ok
                &&& text::views(r->Ok_0@) == remembered(m, canonical@)->0.expanded
                &&& table::contents(*final(cache)) == m
            } else {
                match fresh {
                    Ok(x) => {
                        &&& r is Ok
                        &&& text::views(r->Ok_0@) == x.args
                        &&& table::contents(*final(cache)) == m.insert(
                            canonical@,
                            expansion_record(x, now),
                        )
                    },
                    Err(e) => {
                        &&& r is Err
                        &&& r->Err_0@ == e
                        &&& table::contents(*final(cache)) == m
                    },
                }
            }
        }),
{
    if let Some(Record::Rsp(e)) = table::get(cache, canonical) {
        if expansion_is_fresh(e.dependencies.as_slice(), hashes) {
            return Ok(e.expanded);
        }
    }
    let open: Vec<String> = Vec::new();
    assert(text::views(open@) =~= Seq::empty());
    match expand_rsp_recursive(files, canonical, &open, MAX_RSP_DEPTH) {
        Ok(x) => {
            let args = clone_strings(x.args.as_slice());
            table::insert(
                cache,
                canonical.to_owned(),
                Record::Rsp(
                    RspCacheEntry {
                        expanded: x.args,
                        dependencies: x.dependencies,
                        cached_at: now,
                    },
                ),
            );
            Ok(args)
        },
        Err(e) => Err(e),
    }
}

/// Arguments with each one that was expanded replaced by its expansion.
pub open spec fn spliced(args: Seq<Seq<char>>, expansions: Seq<Option<Vec<String>>>) -> Seq<Seq<char>>
    decreases args.len(),
{
    if args.len() == 0 {
        Seq::empty()
    } else {
        let before = spliced(args.drop_last(), expansions);
        match expansions[args.len() - 1] {
            Some(x) => before + text::views(x@),
            None => before.push(args.last()),
        }
    }
}

/// Whether only references were expanded.
pub open spec fn fits(args: Seq<Seq<char>>, expansions: Seq<Option<Vec<String>>>) -> bool {
    expansions.len() == args.len() && forall|i: int|
        0 <= i < args.len() && (#[trigger] expansions[i]) is Some ==> refers(args[i])
}

/// The arguments with each reference replaced by its expansion; one that could
/// not be expanded is passed on as it is.
pub fn expand_args_cached(args: &[String], expansions: &[Option<Vec<String>>]) -> (r: Vec<String>)
    requires
        fits(text::views(args@), expansions@),
    ensures
        text::views(r@) == spliced(text::views(args@), expansions@),
{
    let ghost all = text::views(args@);
    let mut r: Vec<String> = Vec::new();
    let mut i: usize = 0;
    assert(all.take(0) =~= Seq::empty());
    assert(text::views(r@) =~= Seq::empty());
    while i < args.len()
        invariant
            i <= args.len(),
            args.len() == expansions.len(),
            all == text::views(args@),
            text::views(r@) == spliced(all.take(i as int), expansions@),
        decreases args.len() - i,
    {
        let ghost before = text::views(r@);
        assert(all.take(i + 1).drop_last() =~= all.take(i as int));
        assert(all[i as int] == args@[i as int]@);
        match &expansions[i] {
            Some(x) => {
                let mut copy = clone_strings(x.as_slice());
                r.append(&mut copy);
                assert(text::views(r@) =~= before + text::views(x@));
            },
            None => {
                r.push(args[i].clone());
                assert(text::views(r@) =~= before.push(all[i as int]));
            },
        }
        i = i + 1;
    }
    assert(all.take(all.len() as int) =~= all);
    r
}

/// An expansion that is remembered serves its response file as long as every
/// file that was read has the same hash, and not longer.
pub proof fn remembered_expansions_serve(
    m: Map<Seq<char>, RecordView>,
    canonical: Seq<char>,
    x: ExpansionView,
    now: u64,
    hashes: Seq<Option<ContentHash>>,
)
    requires
        hashes.len() == x.dependencies.len(),
    ensures
        ({
            let after = m.insert(canonical, expansion_record(x, now));
            &&& serves(after, canonical, hashes) == (forall|i: int|
                0 <= i < hashes.len() ==> (#[trigger] hashes[i]) is Some && hashes[i]->0@
                    == x.dependencies[i].1)
            &&& serves(after, canonical, hashes) ==> remembered(after, canonical)->0.expanded
                == x.args
        }),
{
}

/// Arguments that refer to no file are their own expansion.
pub proof fn plain_arguments_stay(
    files: Seq<RspFile>,
    args: Seq<Seq<char>>,
    dir: Seq<char>,
    open: Seq<Seq<char>>,
    left: nat,
)
    requires
        forall|i: int| 0 <= i < args.len() ==> !refers(#[trigger] args[i]),
    ensures
        expand_args(files, args, dir, open, left) == Ok::<ExpansionView, RspErrorView>(
            ExpansionView { args, dependencies: Seq::empty() },
        ),
    decreases args.len(),
{
    if args.len() > 0 {
        assert forall|i: int| 0 <= i < args.drop_last().len() implies !refers(
            #[trigger] args.drop_last()[i],
        ) by {
            assert(args.drop_last()[i] == args[i]);
        }
        plain_arguments_stay(files, args.drop_last(), dir, open, left);
        assert(args[args.len() - 1] == args.last());
        assert(args.drop_last().push(args.last()) =~= args);
    } else {
        assert(args =~= Seq::empty());
    }
}

/// How many arguments come of one.
pub open spec fn width(expansion: Option<Vec<String>>) -> nat {
    match expansion {
        Some(x) => x@.len(),
        None => 1,
    }
}

/// How many arguments come of the first `n`.
pub open spec fn place(expansions: Seq<Option<Vec<String>>>, n: int) -> nat
    decreases n,
{
    if n <= 0 {
        0
    } else {
        place(expansions, n - 1) + width(expansions[n - 1])
    }
}

proof fn places_ascend(expansions: Seq<Option<Vec<String>>>, i: int, n: int)
    requires
        0 <= i < n,
    ensures
        place(expansions, i) + width(expansions[i]) <= place(expansions, n),
    decreases n - i,
{
    if i < n - 1 {
        places_ascend(expansions, i, n - 1);
    }
}

/// Every argument of an expansion reaches the command line: the expansion
/// stands, whole and in its order, at the place of its reference, an argument
/// that was not expanded stands at its own, and nothing else is there.
pub proof fn expansions_stand_in_place(
    args: Seq<Seq<char>>,
    expansions: Seq<Option<Vec<String>>>,
    i: int,
)
    requires
        args.len() <= expansions.len(),
        0 <= i < args.len(),
    ensures
        ({
            let r = spliced(args, expansions);
            let at = place(expansions, i) as int;
            &&& r.len() == place(expansions, args.len() as int)
            &&& at + width(expansions[i]) <= r.len()
            &&& expansions[i] matches Some(x) ==> forall|k: int|
                0 <= k < x@.len() ==> r[at + k] == (#[trigger] x@[k])@
            &&& expansions[i] is None ==> r[at] == args[i]
        }),
    decreases args.len(),
{
    let n = args.len() - 1;
    let before = spliced(args.drop_last(), expansions);
    spliced_len(args.drop_last(), expansions);
    spliced_len(args, expansions);
    places_ascend(expansions, i, args.len() as int);
    let r = spliced(args, expansions);
    let at = place(expansions, i) as int;
    if i < n {
        expansions_stand_in_place(args.drop_last(), expansions, i);
        places_ascend(expansions, i, n);
        assert(forall|j: int| 0 <= j < before.len() ==> r[j] == before[j]);
        if let Some(x) = expansions[i] {
            assert forall|k: int| 0 <= k < x@.len() implies r[at + k] == (#[trigger] x@[k])@ by {
                assert(before[at + k] == x@[k]@);
            }
        }
    } else {
        if let Some(x) = expansions[i] {
            assert forall|k: int| 0 <= k < x@.len() implies r[at + k] == (#[trigger] x@[k])@ by {
                assert(text::views(x@)[k] == x@[k]@);
            }
        }
    }
}

proof fn spliced_len(args: Seq<Seq<char>>, expansions: Seq<Option<Vec<String>>>)
    ensures
        spliced(args, expansions).len() == place(expansions, args.len() as int),
    decreases args.len(),
{
    if args.len() > 0 {
        spliced_len(args.drop_last(), expansions);
    }
}

/// Command lines that are joined expand to their expansions, joined; a single
/// reference expands to exactly what was read for it, and a single argument
/// without one to itself.
pub proof fn expansions_join(
    a: Seq<Seq<char>>,
    x: Seq<Option<Vec<String>>>,
    b: Seq<Seq<char>>,
    y: Seq<Option<Vec<String>>>,
    e: Vec<String>,
)
    requires
        a.len() == x.len(),
        b.len() == y.len(),
    ensures
        spliced(a + b, x + y) == spliced(a, x) + spliced(b, y),
        a.len() == 1 && x[0] is None ==> spliced(a, x) == a,
        a.len() == 1 && x[0] == Some(e) ==> spliced(a, x) == text::views(e@),
        a.len() == 0 ==> spliced(a, x).len() == 0,
    decreases b.len(),
{
    reveal_with_fuel(spliced, 2);
    if b.len() == 0 {
        assert(a + b =~= a);
        assert(x + y =~= x);
        assert(spliced(a, x) + spliced(b, y) =~= spliced(a, x));
    } else {
        let d = b.drop_last();
        let z = y.drop_last();
        expansions_join(a, x, d, z, e);
        assert((a + b).drop_last() =~= a + d);
        same_prefix(a + d, x + z, x + y);
        same_prefix(d, z, y);
        assert((x + y)[(a + b).len() - 1] == y[b.len() - 1]);
        assert((a + b).last() == b.last());
        assert(spliced(a + b, x + y) =~= spliced(a, x) + spliced(b, y));
    }
    if a.len() == 1 {
        assert(a.drop_last() =~= Seq::empty());
        if x[0] is None {
            assert(spliced(a, x) =~= a);
        } else {
            assert(spliced(a, x) =~= text::views(x[0]->0@));
        }
    }
}

proof fn same_prefix(a: Seq<Seq<char>>, x: Seq<Option<Vec<String>>>, y: Seq<Option<Vec<String>>>)
    requires
        a.len() <= x.len(),
        a.len() <= y.len(),
        forall|i: int| 0 <= i < a.len() ==> x[i] == y[i],
    ensures
        spliced(a, x) == spliced(a, y),
    decreases a.len(),
{
    if a.len() > 0 {
        same_prefix(a.drop_last(), x, y);
    }
}

/// What a response file expands to is what its arguments expand to, in their
/// order: arguments that are joined expand to their expansions, joined, and read
/// the files of both; one that cannot be expanded makes the whole fail.
pub proof fn nested_expansions_join(
    files: Seq<RspFile>,
    a: Seq<Seq<char>>,
    b: Seq<Seq<char>>,
    dir: Seq<char>,
    open: Seq<Seq<char>>,
    left: nat,
)
    ensures
        ({
            let x = expand_args(files, a, dir, open, left);
            let y = expand_args(files, b, dir, open, left);
            let both = expand_args(files, a + b, dir, open, left);
            &&& x is Err ==> both == x
            &&& x is Ok && y is Err ==> both == y
            &&& x is Ok && y is Ok ==> both is Ok && both->Ok_0.args == x->Ok_0.args + y->Ok_0.args
                && both->Ok_0.dependencies == x->Ok_0.dependencies + y->Ok_0.dependencies
        }),
        a.len() == 1 && refers(a[0]) ==> expand_args(files, a, dir, open, left) == expand_file(
            files,
            paths::joined(dir, a[0].skip(1)),
            open,
            left,
        ),
        a.len() == 1 && (a[0].len() < 2 || a[0][0] != '@') ==> (expand_args(
            files,
            a,
            dir,
            open,
            left,
        ) matches Ok(x) && x.args == a && x.dependencies.len() == 0),
    decreases b.len(),
{
    reveal_with_fuel(expand_args, 2);
    if b.len() == 0 {
        assert(a + b =~= a);
        let x = expand_args(files, a, dir, open, left);
        if x is Ok {
            assert(x->Ok_0.args + Seq::<Seq<char>>::empty() =~= x->Ok_0.args);
            assert(x->Ok_0.dependencies + Seq::<(Seq<char>, Seq<u8>)>::empty()
                =~= x->Ok_0.dependencies);
        }
    } else {
        let d = b.drop_last();
        nested_expansions_join(files, a, d, dir, open, left);
        assert((a + b).drop_last() =~= a + d);
        assert((a + b).last() == b.last());
        let x = expand_args(files, a, dir, open, left);
        let y = expand_args(files, b, dir, open, left);
        let both = expand_args(files, a + b, dir, open, left);
        if x is Ok && y is Ok {
            assert(both->Ok_0.args =~= x->Ok_0.args + y->Ok_0.args);
            assert(both->Ok_0.dependencies =~= x->Ok_0.dependencies + y->Ok_0.dependencies);
        }
    }
    if a.len() == 1 {
        assert(a.drop_last() =~= Seq::empty());
        let x = expand_args(files, a, dir, open, left);
        if refers(a[0]) {
            let y = expand_file(files, paths::joined(dir, a[0].skip(1)), open, left);
            if y is Ok {
                assert(Seq::<Seq<char>>::empty() + y->Ok_0.args =~= y->Ok_0.args);
                assert(Seq::<(Seq<char>, Seq<u8>)>::empty() + y->Ok_0.dependencies
                    =~= y->Ok_0.dependencies);
            }
        } else {
            assert(x->Ok_0.args =~= a);
        }
    }
}

/// A response file that is expanded is among the files that were read, first and
/// with its hash, so that a change of it is noticed; a file that leads back to
/// itself, or lies too deep, is not expanded.
pub proof fn expanded_files_are_remembered(
    files: Seq<RspFile>,
    path: Seq<char>,
    open: Seq<Seq<char>>,
    left: nat,
    i: int,
)
    requires
        found_at(files, path, i),
    ensures
        ({
            let x = expand_file(files, path, open, left);
            &&& x matches Ok(e) ==> {
                &&& files[i].canonical is Ok && files[i].hash is Some && files[i].arguments is Ok
                &&& e.dependencies.len() > 0
                &&& e.dependencies[0] == (files[i].canonical->Ok_0@, files[i].hash->0@)
                &&& left > 0
                &&& !open.contains(files[i].canonical->Ok_0@)
                &&& left > 0 ==> (expand_args(
                    files,
                    text::views(files[i].arguments->Ok_0@),
                    base_dir(files[i].canonical->Ok_0@),
                    open.push(files[i].canonical->Ok_0@),
                    (left - 1) as nat,
                ) matches Ok(y) && e.args == y.args && e.dependencies.skip(1) == y.dependencies)
            }
            &&& left == 0 ==> x is Err
            &&& files[i].canonical is Ok && open.contains(files[i].canonical->Ok_0@) ==> x is Err
        }),
{
    place_is_unique(files, path, i);
    let x = expand_file(files, path, open, left);
    if let Ok(e) = x {
        assert(e.dependencies.skip(1) =~= expand_args(
            files,
            text::views(files[i].arguments->Ok_0@),
            base_dir(files[i].canonical->Ok_0@),
            open.push(files[i].canonical->Ok_0@),
            (left - 1) as nat,
        )->Ok_0.dependencies);
    }
}

/// A remembered expansion is used only while every file that it was read from
/// has the hash that it had: one file that has changed or is gone is enough.
pub proof fn changed_files_are_read_again(
    cache: &mut Table,
    canonical: &str,
    hashes: &[Option<ContentHash>],
    files: &[RspFile],
    now: u64,
    r: Result<Vec<String>, ResponseFileError>,
    i: int,
)
    requires
        call_ensures(expand_rsp_arg_cached, (cache, canonical, hashes, files, now), r),
        table::contents(*old(cache)).contains_key(canonical@),
        table::contents(*old(cache))[canonical@] is Rsp,
        0 <= i < hashes@.len(),
    ensures
        ({
            let kept = table::contents(*old(cache))[canonical@]->Rsp_0;
            let fresh = expand_file(files@, canonical@, Seq::empty(), 10);
            &&& (hashes@[i] is None || (i < kept.dependencies.len() && hashes@[i]->0@
                != kept.dependencies[i].1)) && fresh is Ok ==> r is Ok && text::views(r->Ok_0@)
                == fresh->Ok_0.args
            &&& (hashes@[i] is None || (i < kept.dependencies.len() && hashes@[i]->0@
                != kept.dependencies[i].1)) && fresh is Err ==> r is Err
            &&& hashes@.len() == kept.dependencies.len() && (forall|k: int|
                0 <= k < hashes@.len() ==> (#[trigger] hashes@[k]) is Some && hashes@[k]->0@
                    == kept.dependencies[k].1) ==> r is Ok && text::views(r->Ok_0@)
                == kept.expanded && table::contents(*final(cache)) == table::contents(*old(cache))
        }),
{
    let m = table::contents(*old(cache));
    let kept = m[canonical@]->Rsp_0;
    if hashes@[i] is None || (i < kept.dependencies.len() && hashes@[i]->0@
        != kept.dependencies[i].1) {
        assert(!still_fresh(kept.dependencies, hashes@)) by {
            if still_fresh(kept.dependencies, hashes@) {
                assert(hashes@[i] is Some);
            }
        }
    }
}

/// An argument refers to a file exactly where it begins with an at sign and
/// names something; the file is sought from the directory of the command line.
pub proof fn references_begin_with_a_sign(arg: &str, dir: &str, r: Option<String>)
    requires
        call_ensures(rsp_path, (arg, dir), r),
    ensures
        r is Some <==> arg@.len() > 1 && arg@[0] == '@',
        r is Some ==> r->0@ == paths::joined(dir@, arg@.subrange(1, arg@.len() as int)),
{
    if r is Some {
        assert(arg@.skip(1) =~= arg@.subrange(1, arg@.len() as int));
    }
}

/// The command line that is handed on holds every argument of every expansion,
/// in its order and at the place of its reference, and each other argument as
/// it was: as many as the expansions hold, and one for each of the others.
pub proof fn expanded_arguments_all_arrive(
    args: &[String],
    expansions: &[Option<Vec<String>>],
    r: Vec<String>,
    i: int,
)
    requires
        call_ensures(expand_args_cached, (args, expansions), r),
        args@.len() == expansions@.len(),
        0 <= i < args@.len(),
    ensures
        match expansions@[i] {
            Some(x) => place(expansions@, i) + x@.len() <= r@.len() && forall|k: int|
                0 <= k < x@.len() ==> r@[place(expansions@, i) + k]@ == (#[trigger] x@[k])@,
            None => place(expansions@, i) < r@.len() && r@[place(expansions@, i) as int]@
                == args@[i]@,
        },
        place(expansions@, 0) == 0,
        place(expansions@, i + 1) == place(expansions@, i) + match expansions@[i] {
            Some(x) => x@.len() as int,
            None => 1,
        },
        r@.len() == place(expansions@, args@.len() as int),
{
    let views = text::views(args@);
    expansions_stand_in_place(views, expansions@, i);
    assert(views[i] == args@[i]@);
    let at = place(expansions@, i) as int;
    assert(text::views(r@).len() == r@.len());
    if let Some(x) = expansions@[i] {
        assert forall|k: int| 0 <= k < x@.len() implies r@[at + k]@ == (#[trigger] x@[k])@ by {
            assert(text::views(r@)[at + k] == r@[at + k]@);
        }
    } else {
        assert(text::views(r@)[at] == r@[at]@);
    }
}

} // verus!
