//! Paths as text: components separated by `/`, a leading `/` for an absolute
//! path.

use crate::text::{from_chars, to_chars};
use crate::text;
use vstd::prelude::*;
use vstd::string::*;

verus! {

/// Whether a path is absolute.
pub open spec fn absolute(path: Seq<char>) -> bool {
    path.len() > 0 && path[0] == '/'
}

/// A path interpreted below a base: an absolute path stands for itself.
pub open spec fn joined(base: Seq<char>, path: Seq<char>) -> Seq<char> {
    if absolute(path) {
        path
    } else if base.len() == 0 || base.last() == '/' {
        base + path
    } else {
        base.push('/') + path
    }
}

/// The place after the last `/`; zero where there is none.
pub open spec fn name_start(path: Seq<char>) -> int
    decreases path.len(),
{
    if path.len() == 0 {
        0
    } else if path.last() == '/' {
        path.len() as int
    } else {
        name_start(path.drop_last())
    }
}

/// The part of a path after its last `/`.
pub open spec fn last_part(path: Seq<char>) -> Seq<char> {
    path.skip(name_start(path))
}

/// Whether a path starts at the present directory, by name.
pub open spec fn starts_here(path: Seq<char>) -> bool {
    path.len() > 0 && path[0] == '.' && (path.len() == 1 || path[1] == '/')
}

/// Where the parts of a path begin: after the root, or after a `.` at the start.
pub open spec fn body_start(path: Seq<char>) -> int {
    if absolute(path) || starts_here(path) {
        1
    } else {
        0
    }
}

/// A path without its last part and the slash before it.
pub open spec fn before_last(path: Seq<char>) -> Seq<char> {
    if name_start(path) > body_start(path) {
        path.take(name_start(path) - 1)
    } else {
        path.take(body_start(path))
    }
}

/// The last part of a path begins within it.
pub proof fn name_start_within(path: Seq<char>)
    ensures
        0 <= name_start(path) <= path.len(),
    decreases path.len(),
{
    if path.len() > 0 && path.last() != '/' {
        name_start_within(path.drop_last());
    }
}

/// A path without what does not count at its end: slashes and single dots.
pub open spec fn trimmed(path: Seq<char>) -> Seq<char>
    decreases path.len(),
{
    let part = last_part(path);
    if path.len() > body_start(path) && (part.len() == 0 || part == seq!['.']) {
        proof {
            name_start_within(path);
        }
        trimmed(before_last(path))
    } else {
        path
    }
}

/// The name of the file that a path leads to: its last part, where that is not
/// `..`. Slashes and single dots at the end do not count.
pub open spec fn file_name(path: Seq<char>) -> Option<Seq<char>> {
    let p = trimmed(path);
    if p.len() <= body_start(p) || last_part(p) == seq!['.', '.'] {
        None
    } else {
        Some(last_part(p))
    }
}

/// The directory that holds what a path leads to: the path without its last
/// part. None for the root and the empty path.
pub open spec fn parent(path: Seq<char>) -> Option<Seq<char>> {
    let p = trimmed(path);
    if p.len() > body_start(p) {
        Some(trimmed(before_last(p)))
    } else if starts_here(p) {
        Some(Seq::empty())
    } else {
        None
    }
}

/// The place of the last `.` in a name, or -1.
pub open spec fn last_dot(name: Seq<char>) -> int
    decreases name.len(),
{
    if name.len() == 0 {
        -1
    } else if name.last() == '.' {
        name.len() - 1
    } else {
        last_dot(name.drop_last())
    }
}

proof fn last_dot_within(name: Seq<char>)
    ensures
        -1 <= last_dot(name) < name.len(),
    decreases name.len(),
{
    if name.len() > 0 && name.last() != '.' {
        last_dot_within(name.drop_last());
    }
}

/// What follows the last dot of a file name; none where the name has no dot
/// after its first character.
pub open spec fn extension(path: Seq<char>) -> Option<Seq<char>> {
    match file_name(path) {
        Some(n) => if last_dot(n) <= 0 {
            None
        } else {
            Some(n.skip(last_dot(n) + 1))
        },
        None => None,
    }
}

/// Whether the path is absolute.
pub fn is_absolute(path: &str) -> (r: bool)
    ensures
        r == absolute(path@),
{
    let v = to_chars(path);
    v.len() > 0 && v[0] == '/'
}

/// The path below the base; an absolute path stands for itself.
pub fn join(base: &str, path: &str) -> (r: String)
    ensures
        r@ == joined(base@, path@),
{
    if is_absolute(path) {
        return path.to_owned();
    }
    let b = to_chars(base);
    let mut r = base.to_owned();
    if b.len() > 0 && b[b.len() - 1] != '/' {
        r.push('/');
    }
    r.append(path);
    r
}

/// A declared path as the tool sees it from its working directory.
pub fn absolutize(path: &str, cwd: &str) -> (r: String)
    ensures
        r@ == joined(cwd@, path@),
{
    join(cwd, path)
}

/// Where the last part of a path of `end` characters begins.
fn start_of_name(v: &Vec<char>, end: usize) -> (s: usize)
    requires
        end <= v.len(),
    ensures
        s == name_start(v@.take(end as int)),
        s <= end,
{
    let mut s: usize = end;
    let ghost path = v@.take(end as int);
    assert(path.take(s as int) =~= path);
    while s > 0 && v[s - 1] != '/'
        invariant
            s <= end <= v.len(),
            path == v@.take(end as int),
            name_start(path) == name_start(path.take(s as int)),
        decreases s,
    {
        assert(path.take(s as int).drop_last() =~= path.take(s - 1));
        s = s - 1;
    }
    s
}

fn start_of_body(v: &Vec<char>, end: usize) -> (s: usize)
    requires
        end <= v.len(),
    ensures
        s == body_start(v@.take(end as int)),
{
    if end > 0 && (v[0] == '/' || (v[0] == '.' && (end == 1 || v[1] == '/'))) {
        1
    } else {
        0
    }
}

/// Where a path of `end` characters ends without its last part, which begins at
/// `s`.
fn end_before(v: &Vec<char>, end: usize, s: usize) -> (e: usize)
    requires
        end <= v.len(),
        s == name_start(v@.take(end as int)),
        s <= end,
        end > body_start(v@.take(end as int)),
    ensures
        e < end,
        v@.take(e as int) == before_last(v@.take(end as int)),
{
    let b: usize = start_of_body(v, end);
    let e: usize = if s > b {
        s - 1
    } else {
        b
    };
    assert(v@.take(e as int) =~= before_last(v@.take(end as int)));
    e
}

/// Where a path of `end` characters ends without slashes and single dots.
fn trimmed_end(v: &Vec<char>, end: usize) -> (e: usize)
    requires
        end <= v.len(),
    ensures
        e <= end,
        v@.take(e as int) == trimmed(v@.take(end as int)),
    decreases end,
{
    let s: usize = start_of_name(v, end);
    let b: usize = start_of_body(v, end);
    let ghost path = v@.take(end as int);
    let ghost part = last_part(path);
    assert(part =~= v@.subrange(s as int, end as int));
    let dot = end - s == 1 && v[s] == '.';
    proof {
        assert(dot ==> part =~= seq!['.']);
        assert(part == seq!['.'] ==> part.len() == 1 && part[0] == '.');
    }
    if end > b && (end == s || dot) {
        let e: usize = end_before(v, end, s);
        trimmed_end(v, e)
    } else {
        end
    }
}

/// The name of the file that the path leads to.
pub fn file_name_of(path: &str) -> (r: Option<String>)
    ensures
        text::opt_view(r) == file_name(path@),
{
    let v = to_chars(path);
    assert(v@.take(v@.len() as int) =~= v@);
    let end: usize = trimmed_end(&v, v.len());
    let s: usize = start_of_name(&v, end);
    let ghost part = last_part(v@.take(end as int));
    assert(part =~= v@.subrange(s as int, end as int));
    let dots = end - s == 2 && v[s] == '.' && v[s + 1] == '.';
    proof {
        assert(dots ==> part =~= seq!['.', '.']);
        assert(part == seq!['.', '.'] ==> part.len() == 2 && part[0] == '.' && part[1] == '.');
    }
    if end <= start_of_body(&v, end) || dots {
        None
    } else {
        Some(from_chars(&v, s, end))
    }
}

/// The directory that holds what the path leads to.
pub fn parent_of(path: &str) -> (r: Option<String>)
    ensures
        text::opt_view(r) == parent(path@),
{
    let v = to_chars(path);
    assert(v@.take(v@.len() as int) =~= v@);
    let end: usize = trimmed_end(&v, v.len());
    if end > start_of_body(&v, end) {
        let s: usize = start_of_name(&v, end);
        let e: usize = end_before(&v, end, s);
        let d: usize = trimmed_end(&v, e);
        let r = from_chars(&v, 0, d);
        assert(r@ =~= v@.take(d as int));
        Some(r)
    } else if end == 1 && v[0] == '.' {
        Some(String::new())
    } else {
        None
    }
}

/// What follows the last dot of the file name.
pub fn extension_of(path: &str) -> (r: Option<String>)
    ensures
        text::opt_view(r) == extension(path@),
{
    match file_name_of(path) {
        None => None,
        Some(name) => {
            let v = to_chars(name.as_str());
            let mut d: usize = v.len();
            assert(v@.take(d as int) =~= v@);
            while d > 0 && v[d - 1] != '.'
                invariant
                    d <= v.len(),
                    last_dot(v@) == last_dot(v@.take(d as int)),
                decreases d,
            {
                assert(v@.take(d as int).drop_last() =~= v@.take(d - 1));
                d = d - 1;
            }
            if d <= 1 {
                None
            } else {
                let r = from_chars(&v, d, v.len());
                assert(r@ =~= v@.skip(d as int));
                Some(r)
            }
        },
    }
}

/// A file name without its extension.
pub open spec fn stem_of_name(n: Seq<char>) -> Seq<char> {
    if last_dot(n) <= 0 {
        n
    } else {
        n.take(last_dot(n))
    }
}

/// The file name of a path without its extension.
pub open spec fn stem(path: Seq<char>) -> Option<Seq<char>> {
    match file_name(path) {
        Some(n) => Some(stem_of_name(n)),
        None => None,
    }
}

/// The file name of the path without its extension.
pub fn stem_of(path: &str) -> (r: Option<String>)
    ensures
        text::opt_view(r) == stem(path@),
{
    match file_name_of(path) {
        None => None,
        Some(name) => {
            let v = to_chars(name.as_str());
            let mut d: usize = v.len();
            assert(v@.take(d as int) =~= v@);
            while d > 0 && v[d - 1] != '.'
                invariant
                    d <= v.len(),
                    last_dot(v@) == last_dot(v@.take(d as int)),
                decreases d,
            {
                assert(v@.take(d as int).drop_last() =~= v@.take(d - 1));
                d = d - 1;
            }
            if d <= 1 {
                Some(name)
            } else {
                let r = from_chars(&v, 0, d - 1);
                assert(r@ =~= v@.take(d - 1));
                Some(r)
            }
        },
    }
}

/// A path with another extension; a path without a file name stays as it is.
pub open spec fn with_ext(path: Seq<char>, ext: Seq<char>) -> Seq<char> {
    let p = trimmed(path);
    match stem(path) {
        Some(s) => p.take(name_start(p) + s.len()).push('.') + ext,
        None => path,
    }
}

/// The path with another extension.
pub fn with_extension(path: &str, ext: &str) -> (r: String)
    ensures
        r@ == with_ext(path@, ext@),
{
    match stem_of(path) {
        Some(s) => {
            let v = to_chars(path);
            assert(v@.take(v@.len() as int) =~= v@);
            let end: usize = trimmed_end(&v, v.len());
            let start: usize = start_of_name(&v, end);
            let n: usize = to_chars(s.as_str()).len();
            proof {
                last_dot_within(file_name(path@)->0);
            }
            let mut r = from_chars(&v, 0, start + n);
            assert(r@ =~= trimmed(path@).take(start + n));
            r.push('.');
            r.append(ext);
            r
        },
        None => path.to_owned(),
    }
}

/// A path with another file name in the place of its own.
pub open spec fn renamed(path: Seq<char>, name: Seq<char>) -> Seq<char> {
    match (file_name(path), parent(path)) {
        (Some(_), Some(dir)) => joined(dir, name),
        _ => joined(path, name),
    }
}

/// The path with another file name in the place of its own.
pub fn with_file_name(path: &str, name: &str) -> (r: String)
    ensures
        r@ == renamed(path@, name@),
{
    match (file_name_of(path), parent_of(path)) {
        (Some(_), Some(dir)) => join(dir.as_str(), name),
        _ => join(path, name),
    }
}

/// The components of a path: what stands between the slashes, without empty
/// ones and single dots, but for a dot at the start.
pub open spec fn components(path: Seq<char>) -> Seq<Seq<char>>
    decreases path.len(),
{
    if path.len() == 0 {
        Seq::empty()
    } else {
        let s = name_start(path);
        let part = path.skip(s);
        let before = if 0 < s <= path.len() {
            components(path.take(s - 1))
        } else {
            Seq::empty()
        };
        if part.len() == 0 || (part == seq!['.'] && s > 0) {
            before
        } else {
            before.push(part)
        }
    }
}

/// Whether a path lies in or below a directory, component by component. The
/// empty directory stands for any.
pub open spec fn under(path: Seq<char>, dir: Seq<char>) -> bool {
    let p = components(path);
    let d = components(dir);
    &&& absolute(path) == absolute(dir) || (!absolute(dir) && d.len() == 0)
    &&& d.len() <= p.len()
    &&& p.take(d.len() as int) == d
}

/// The components of the path.
pub fn components_of(path: &str) -> (r: Vec<String>)
    ensures
        text::views(r@) == components(path@),
{
    let v = to_chars(path);
    assert(v@.take(v@.len() as int) =~= v@);
    components_up_to(&v, v.len())
}

fn components_up_to(v: &Vec<char>, end: usize) -> (r: Vec<String>)
    requires
        end <= v.len(),
    ensures
        text::views(r@) == components(v@.take(end as int)),
    decreases end,
{
    let ghost path = v@.take(end as int);
    if end == 0 {
        let r: Vec<String> = Vec::new();
        assert(text::views(r@) =~= Seq::empty());
        return r;
    }
    let mut s: usize = end;
    assert(path.take(s as int) =~= path);
    while s > 0 && v[s - 1] != '/'
        invariant
            s <= end <= v.len(),
            path == v@.take(end as int),
            name_start(path) == name_start(path.take(s as int)),
        decreases s,
    {
        assert(path.take(s as int).drop_last() =~= path.take(s - 1));
        s = s - 1;
    }
    assert(name_start(path) == s);
    let mut r: Vec<String> = Vec::new();
    if s > 0 {
        r = components_up_to(v, s - 1);
        assert(path.take(s - 1) =~= v@.take(s - 1));
    } else {
        assert(text::views(r@) =~= Seq::empty());
    }
    let ghost before = text::views(r@);
    let ghost part = path.skip(s as int);
    assert(part =~= v@.subrange(s as int, end as int));
    let dot = end - s == 1 && v[s] == '.';
    proof {
        assert(dot ==> part =~= seq!['.']);
        assert(part == seq!['.'] ==> part.len() == 1 && part[0] == '.');
    }
    if end == s || (dot && s > 0) {
        return r;
    }
    r.push(from_chars(v, s, end));
    assert(text::views(r@) =~= before.push(part));
    r
}

/// Whether the path lies in or below the directory.
pub fn path_is_under(path: &str, dir: &str) -> (r: bool)
    ensures
        r == under(path@, dir@),
{
    let p = components_of(path);
    let d = components_of(dir);
    if d.len() > p.len() {
        return false;
    }
    if is_absolute(path) != is_absolute(dir) && (is_absolute(dir) || d.len() > 0) {
        return false;
    }
    let mut i: usize = 0;
    while i < d.len()
        invariant
            i <= d.len() <= p.len(),
            text::views(p@) == components(path@),
            text::views(d@) == components(dir@),
            forall|k: int| 0 <= k < i ==> text::views(p@)[k] == text::views(d@)[k],
        decreases d.len() - i,
    {
        if !crate::text::str_eq(p[i].as_str(), d[i].as_str()) {
            assert(text::views(p@).take(d@.len() as int)[i as int] != text::views(d@)[i as int]);
            return false;
        }
        assert(text::views(p@)[i as int] == text::views(d@)[i as int]);
        i = i + 1;
    }
    assert(text::views(p@).take(d@.len() as int) =~= text::views(d@));
    true
}

/// A directory lies below itself, and what lies below one that lies below
/// another lies below the other.
pub proof fn under_is_a_preorder(a: Seq<char>, b: Seq<char>, c: Seq<char>)
    ensures
        under(a, a),
        under(a, b) && under(b, c) ==> under(a, c),
{
    let ca = components(a);
    let cb = components(b);
    let cc = components(c);
    assert(ca.take(ca.len() as int) =~= ca);
    if under(a, b) && under(b, c) {
        assert(ca.take(cc.len() as int) =~= ca.take(cb.len() as int).take(cc.len() as int));
    }
}

} // verus!
