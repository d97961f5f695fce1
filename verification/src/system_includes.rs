//! The header directories of compilers: asked of each compiler once.

use crate::records::{Record, RecordView};
use crate::table;
use crate::table::Table;
use crate::text;
use crate::text::clone_strings;
use vstd::prelude::*;

verus! {

/// The family of a compiler.
#[derive(Clone, Copy, Debug, PartialEq, Eq, Structural)]
pub enum CompilerFamily {
    /// GCC.
    Gcc,
    /// Clang.
    Clang,
    /// The Microsoft compiler.
    Msvc,
    /// The Rust compiler.
    Rustc,
    /// The Rust formatter.
    Rustfmt,
}

impl CompilerFamily {
    /// The name of a family.
    pub open spec fn name(self) -> Seq<char> {
        match self {
            CompilerFamily::Gcc => "gcc"@,
            CompilerFamily::Clang => "clang"@,
            CompilerFamily::Msvc => "msvc"@,
            CompilerFamily::Rustc => "rustc"@,
            CompilerFamily::Rustfmt => "rustfmt"@,
        }
    }

    /// The name of the family.
    pub fn as_str(self) -> (r: &'static str)
        ensures
            r@ == self.name(),
    {
        match self {
            CompilerFamily::Gcc => "gcc",
            CompilerFamily::Clang => "clang",
            CompilerFamily::Msvc => "msvc",
            CompilerFamily::Rustc => "rustc",
            CompilerFamily::Rustfmt => "rustfmt",
        }
    }

    /// Whether compilers of the family have header directories.
    pub fn needs_system_include_discovery(self) -> (r: bool)
        ensures
            r == !(self is Rustc || self is Rustfmt),
    {
        match self {
            CompilerFamily::Rustc => false,
            CompilerFamily::Rustfmt => false,
            _ => true,
        }
    }
}

/// What is to be done to learn the header directories of a compiler.
#[derive(Debug, PartialEq, Eq)]
pub enum Discovery {
    /// Nothing: these are they.
    Known(Vec<String>),
    /// The compiler is to be asked, in the quick way first or in the slow way.
    Ask {
        /// Whether the quick way is tried first.
        fast: bool,
    },
}

/// The header directories that are known of a compiler.
pub open spec fn known_includes(m: Map<Seq<char>, RecordView>, compiler: Seq<char>) -> Option<
    Seq<Seq<char>>,
> {
    if m.contains_key(compiler) && m[compiler] is Paths {
        Some(m[compiler]->Paths_0)
    } else {
        None
    }
}

/// What is to be done: nothing for Rust tools, which have no header
/// directories, nor for a compiler that was asked before. Clang is asked in the
/// quick way first.
pub fn discover_system_includes(cache: &Table, compiler: &str, family: CompilerFamily) -> (r:
    Discovery)
    ensures
        ({
            let known = known_includes(table::contents(*cache), compiler@);
            match r {
                Discovery::Known(paths) => if family is Rustc || family is Rustfmt {
                    paths@.len() == 0
                } else {
                    known is Some && text::views(paths@) == known->0
                },
                Discovery::Ask { fast } => !(family is Rustc || family is Rustfmt) && known is None
                    && fast == (family is Clang),
            }
        }),
{
    if !family.needs_system_include_discovery() {
        return Discovery::Known(Vec::new());
    }
    match table::get(cache, compiler) {
        Some(Record::Paths(paths)) => Discovery::Known(paths),
        _ => Discovery::Ask { fast: family == CompilerFamily::Clang },
    }
}

/// The contents of a list of directories that may be missing.
pub open spec fn opt_views(v: Option<Vec<String>>) -> Option<Seq<Seq<char>>> {
    match v {
        Some(v) => Some(text::views(v@)),
        None => None,
    }
}

/// Whether the compiler is to be asked once more, in the slow way: the quick
/// way has shown nothing.
pub fn needs_slow_probe(fast: bool, first: &Option<Vec<String>>) -> (r: bool)
    ensures
        r == (fast && first is Some && first->0@.len() == 0),
{
    match first {
        Some(paths) => fast && paths.len() == 0,
        None => false,
    }
}

/// What was learned from a compiler.
pub open spec fn learned(
    fast: bool,
    first: Option<Seq<Seq<char>>>,
    slow: Option<Seq<Seq<char>>>,
) -> Option<Seq<Seq<char>>> {
    match first {
        None => None,
        Some(paths) => if fast && paths.len() == 0 && slow is Some {
            slow
        } else {
            Some(paths)
        },
    }
}

/// What was learned: nothing where the first question failed; the answer to
/// the slow question where the quick one has shown nothing; else the answer to
/// the first one.
pub fn discover_system_include_paths(
    fast: bool,
    first: Option<Vec<String>>,
    slow: Option<Vec<String>>,
) -> (r: Option<Vec<String>>)
    ensures
        opt_views(r) == learned(fast, opt_views(first), opt_views(slow)),
{
    match first {
        None => None,
        Some(paths) => {
            if fast && paths.len() == 0 {
                match slow {
                    Some(found) => Some(found),
                    None => Some(paths),
                }
            } else {
                Some(paths)
            }
        },
    }
}

/// The header directories of a compiler after it was asked: what is known of
/// it by then, or else what was learned, which is then known. A question that
/// failed leaves nothing behind.
pub fn settle_includes(cache: &mut Table, compiler: &str, discovered: Option<Vec<String>>) -> (r:
    Vec<String>)
    ensures
        ({
            let before = table::contents(*old(cache));
            let known = known_includes(before, compiler@);
            if known is Some {
                &&& text::views(r@) == known->0
                &&& table::contents(*final(cache)) == before
            } else if discovered is Some {
                &&& text::views(r@) == text::views(discovered->0@)
                &&& table::contents(*final(cache)) == before.insert(
                    compiler@,
                    RecordView::Paths(text::views(discovered->0@)),
                )
            } else {
                &&& r@.len() == 0
                &&& table::contents(*final(cache)) == before
            }
        }),
{
    match table::get(cache, compiler) {
        Some(Record::Paths(paths)) => paths,
        _ => match discovered {
            Some(paths) => {
                let r = clone_strings(paths.as_slice());
                table::insert(cache, compiler.to_owned(), Record::Paths(paths));
                r
            },
            None => Vec::new(),
        },
    }
}

/// A compiler that was asked with success is not asked again, and what is
/// known of other compilers stays.
pub proof fn compilers_are_asked_once(
    m: Map<Seq<char>, RecordView>,
    compiler: Seq<char>,
    paths: Seq<Seq<char>>,
    other: Seq<char>,
)
    ensures
        known_includes(m.insert(compiler, RecordView::Paths(paths)), compiler) == Some(paths),
        other != compiler ==> known_includes(
            m.insert(compiler, RecordView::Paths(paths)),
            other,
        ) == known_includes(m, other),
{
}

/// A Rust compiler has no header directories and is never asked. Any other one
/// is asked until its directories are known, and not after that; only Clang is
/// asked the fast way first.
pub proof fn known_compilers_are_not_asked(
    cache: &Table,
    compiler: &str,
    family: CompilerFamily,
    r: Discovery,
    dirs: Seq<Seq<char>>,
)
    requires
        call_ensures(discover_system_includes, (cache, compiler, family), r),
    ensures
        family is Rustc || family is Rustfmt ==> r is Known && r->Known_0@.len() == 0,
        (family is Gcc || family is Clang || family is Msvc) && table::contents(
            *cache,
        ).contains_key(compiler@) && table::contents(*cache)[compiler@] == RecordView::Paths(dirs)
            ==> r is Known && text::views(r->Known_0@) == dirs,
        (family is Gcc || family is Clang || family is Msvc) && !table::contents(
            *cache,
        ).contains_key(compiler@) ==> r is Ask && r->fast == (family is Clang),
{
}

/// What a compiler has said is remembered under its name and given back; what
/// was known stays, a compiler that has said nothing is not remembered, and no
/// other one is touched.
pub proof fn answers_of_compilers_are_remembered(
    cache: &mut Table,
    compiler: &str,
    discovered: Option<Vec<String>>,
    r: Vec<String>,
    dirs: Seq<Seq<char>>,
    other: Seq<char>,
)
    requires
        call_ensures(settle_includes, (cache, compiler, discovered), r),
        other != compiler@,
    ensures
        table::contents(*old(cache)).contains_key(compiler@) && table::contents(
            *old(cache),
        )[compiler@] == RecordView::Paths(dirs) ==> text::views(r@) == dirs && table::contents(
            *final(cache),
        ) == table::contents(*old(cache)),
        !table::contents(*old(cache)).contains_key(compiler@) && discovered is Some ==> text::views(
            r@,
        ) == text::views(discovered->0@) && table::contents(*final(cache)).contains_key(compiler@)
            && table::contents(*final(cache))[compiler@] == RecordView::Paths(
            text::views(discovered->0@),
        ),
        !table::contents(*old(cache)).contains_key(compiler@) && discovered is None ==> r@.len()
            == 0 && table::contents(*final(cache)) == table::contents(*old(cache)),
        table::contents(*final(cache)).contains_key(other) == table::contents(
            *old(cache),
        ).contains_key(other),
        table::contents(*final(cache)).contains_key(other) ==> table::contents(
            *final(cache),
        )[other] == table::contents(*old(cache))[other],
{
}

/// The slow question is asked only where the fast one had an answer that names
/// no directory; its answer then counts, and a compiler that did not answer at
/// all has none.
pub proof fn empty_answers_are_asked_again(
    fast: bool,
    first: Option<Vec<String>>,
    slow: Option<Vec<String>>,
    again: bool,
    r: Option<Vec<String>>,
)
    requires
        call_ensures(needs_slow_probe, (fast, &first), again),
        call_ensures(discover_system_include_paths, (fast, first, slow), r),
    ensures
        again <==> fast && first is Some && first->0@.len() == 0,
        first is None ==> r is None,
        first is Some && !again ==> r is Some && text::views(r->0@) == text::views(first->0@),
        again && slow is Some ==> r is Some && text::views(r->0@) == text::views(slow->0@),
        again && slow is None ==> r is Some && r->0@.len() == 0,
{
    if first is Some {
        assert(text::views(first->0@).len() == first->0@.len());
    }
    if r is Some {
        assert(text::views(r->0@).len() == r->0@.len());
    }
}

} // verus!
