//! Which arguments of a tool run count towards its key.

use crate::text;
use vstd::prelude::*;
use vstd::string::*;

verus! {

/// The error with which a regular expression fails to compile, if it does.
pub uninterp spec fn regex_error(pattern: Seq<char>) -> Option<Seq<char>>;

/// Whether a regular expression matches anywhere in a text.
pub uninterp spec fn regex_matches(pattern: Seq<char>, text: Seq<char>) -> bool;

/// A text in quotes, with the escapes of `Debug`.
pub uninterp spec fn debug_text(s: Seq<char>) -> Seq<char>;

/// `regex::Regex::new`: the error text where the pattern does not compile, and
/// nothing where it does, named by `regex_error`.
#[verifier::external_body]
fn pattern_error(pattern: &str) -> (r: Option<String>)
    ensures
        text::opt_view(r) == regex_error(pattern@),
{
    regex::Regex::new(pattern).err().map(|e| format!("{e}"))
}

/// `regex::Regex::is_match` of the compiled pattern, named by `regex_matches`;
/// the pattern compiles.
#[verifier::external_body]
fn is_match(pattern: &str, text: &str) -> (r: bool)
    requires
        regex_error(pattern@) is None,
    ensures
        r == regex_matches(pattern@, text@),
{
    regex::Regex::new(pattern).unwrap().is_match(text)
}

/// The `Debug` form of a string in std, named by `debug_text`.
#[verifier::external_body]
fn quoted(s: &str) -> (r: String)
    ensures
        r@ == debug_text(s@),
{
    format!("{s:?}")
}

/// Whether one of the patterns matches the argument.
pub open spec fn any_matches(patterns: Seq<Seq<char>>, arg: Seq<char>) -> bool {
    exists|i: int| 0 <= i < patterns.len() && regex_matches(#[trigger] patterns[i], arg)
}

/// The arguments that no pattern matches, in their order.
pub open spec fn unmatched(args: Seq<Seq<char>>, patterns: Seq<Seq<char>>) -> Seq<Seq<char>>
    decreases args.len(),
{
    if args.len() == 0 {
        args
    } else {
        let rest = unmatched(args.drop_last(), patterns);
        if any_matches(patterns, args.last()) {
            rest
        } else {
            rest.push(args.last())
        }
    }
}

/// Whether `i` is the place of the first pattern that does not compile.
pub open spec fn first_bad(patterns: Seq<Seq<char>>, i: int) -> bool {
    &&& 0 <= i < patterns.len()
    &&& regex_error(patterns[i]) is Some
    &&& forall|j: int| 0 <= j < i ==> regex_error(#[trigger] patterns[j]) is None
}

/// Whether every pattern compiles.
pub open spec fn all_good(patterns: Seq<Seq<char>>) -> bool {
    forall|i: int| 0 <= i < patterns.len() ==> regex_error(#[trigger] patterns[i]) is None
}

/// The arguments that count towards the key: those that no pattern matches.
/// The first pattern that does not compile is the error.
pub fn apply_key_args_filter(args: &[String], patterns: &[String]) -> (r: Result<
    Vec<String>,
    String,
>)
    ensures
        match r {
            Ok(kept) => all_good(text::views(patterns@)) && text::views(kept@) == unmatched(
                text::views(args@),
                text::views(patterns@),
            ),
            Err(message) => exists|i: int|
                #![trigger first_bad(text::views(patterns@), i)]
                first_bad(text::views(patterns@), i) && message@ == debug_text(patterns@[i]@)
                    + ": "@ + regex_error(patterns@[i]@)->0,
        },
{
    let ghost pats = text::views(patterns@);
    let mut i: usize = 0;
    while i < patterns.len()
        invariant
            i <= patterns.len(),
            pats == text::views(patterns@),
            forall|j: int| 0 <= j < i ==> regex_error(#[trigger] pats[j]) is None,
        decreases patterns.len() - i,
    {
        assert(pats[i as int] == patterns@[i as int]@);
        match pattern_error(patterns[i].as_str()) {
            Some(e) => {
                let mut message = quoted(patterns[i].as_str());
                message.append(": ");
                message.append(e.as_str());
                assert(first_bad(pats, i as int));
                return Err(message);
            },
            None => {},
        }
        i = i + 1;
    }
    Ok(keep_unmatched(args, patterns))
}

fn keep_unmatched(args: &[String], patterns: &[String]) -> (kept: Vec<String>)
    requires
        all_good(text::views(patterns@)),
    ensures
        text::views(kept@) == unmatched(text::views(args@), text::views(patterns@)),
{
    let ghost pats = text::views(patterns@);
    let ghost s = text::views(args@);
    let mut kept: Vec<String> = Vec::new();
    let mut i: usize = 0;
    assert(s.take(0) =~= Seq::empty());
    assert(text::views(kept@) =~= Seq::empty());
    while i < args.len()
        invariant
            i <= args.len(),
            s == text::views(args@),
            pats == text::views(patterns@),
            all_good(pats),
            text::views(kept@) == unmatched(s.take(i as int), pats),
        decreases args.len() - i,
    {
        let mut hit = false;
        let mut j: usize = 0;
        while j < patterns.len() && !hit
            invariant
                j <= patterns.len(),
                i < args.len(),
                s == text::views(args@),
                pats == text::views(patterns@),
                all_good(pats),
                hit ==> any_matches(pats, s[i as int]),
                !hit ==> forall|k: int|
                    0 <= k < j ==> !regex_matches(#[trigger] pats[k], s[i as int]),
            decreases patterns.len() - j,
        {
            assert(pats[j as int] == patterns@[j as int]@);
            assert(s[i as int] == args@[i as int]@);
            hit = is_match(patterns[j].as_str(), args[i].as_str());
            j = j + 1;
        }
        let ghost before = kept@;
        if !hit {
            kept.push(args[i].clone());
            assert(text::views(kept@) =~= text::views(before).push(s[i as int]));
        }
        i = i + 1;
        assert(s.take(i as int).drop_last() =~= s.take(i - 1));
        assert(s.take(i as int).last() == s[i - 1]);
    }
    assert(s.take(s.len() as int) =~= s);
    kept
}

/// Without patterns every argument counts.
pub proof fn no_patterns_keep_all(args: Seq<Seq<char>>)
    ensures
        unmatched(args, Seq::empty()) == args,
    decreases args.len(),
{
    if args.len() > 0 {
        no_patterns_keep_all(args.drop_last());
        assert(!any_matches(Seq::empty(), args.last()));
        assert(args.drop_last().push(args.last()) =~= args);
    }
}

/// Of the arguments those stay that no pattern matches, and none else; each
/// pattern is asked of each argument.
pub proof fn only_unmatched_stay(args: Seq<Seq<char>>, patterns: Seq<Seq<char>>, a: Seq<char>)
    ensures
        unmatched(args, patterns).contains(a) <==> args.contains(a) && forall|i: int|
            0 <= i < patterns.len() ==> !regex_matches(#[trigger] patterns[i], a),
    decreases args.len(),
{
    let r = unmatched(args, patterns);
    if args.len() > 0 {
        let t = args.drop_last();
        let rest = unmatched(t, patterns);
        only_unmatched_stay(t, patterns, a);
        assert(t.push(args.last()) =~= args);
        if args.contains(a) && a != args.last() {
            let k = choose|k: int| 0 <= k < args.len() && args[k] == a;
            assert(t[k] == a);
        }
        if t.contains(a) {
            let k = choose|k: int| 0 <= k < t.len() && t[k] == a;
            assert(args[k] == a);
        }
        if rest.contains(a) {
            let k = choose|k: int| 0 <= k < rest.len() && rest[k] == a;
            assert(r[k] == a);
        }
        if r.contains(a) && a != args.last() {
            let k = choose|k: int| 0 <= k < r.len() && r[k] == a;
            assert(rest[k] == a);
        }
        if a == args.last() {
            assert(args[args.len() - 1] == a);
            if !any_matches(patterns, a) {
                assert(r[r.len() - 1] == a);
            } else if r.contains(a) {
                let k = choose|k: int| 0 <= k < r.len() && r[k] == a;
                assert(rest[k] == a);
            }
        }
    }
}

/// One more argument at the end stays at the end, or is left out; those before
/// it are as they were.
pub proof fn arguments_are_kept_in_order(
    args: Seq<Seq<char>>,
    patterns: Seq<Seq<char>>,
    a: Seq<char>,
)
    ensures
        unmatched(args.push(a), patterns) == unmatched(args, patterns) || unmatched(
            args.push(a),
            patterns,
        ) == unmatched(args, patterns).push(a),
        unmatched(args, patterns).len() <= args.len(),
    decreases args.len(),
{
    assert(args.push(a).drop_last() =~= args);
    if args.len() > 0 {
        arguments_are_kept_in_order(args.drop_last(), patterns, args.last());
        assert(args.drop_last().push(args.last()) =~= args);
    }
}

} // verus!
