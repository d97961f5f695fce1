//! The writer of the journal: which files a batch touches, when the journal is
//! rotated, and which rotated files are removed.

use crate::exec_key::sort_names;
use crate::exec_key;
use crate::protocol::joined;
use crate::text::{contains_str, starts_with, str_eq, to_chars};
use crate::text;
use vstd::prelude::*;

verus! {

/// The size from which the journal is rotated.
pub const JOURNAL_MAX_SIZE: u64 = 52_428_800;

/// The number of rotated files that are kept.
pub const JOURNAL_MAX_FILES: usize = 3;

/// The largest number of messages that are written together.
pub const JOURNAL_BATCH_CAP: usize = 64;

/// What the writer has done.
#[derive(Debug)]
pub struct JournalWriter {
    /// Size of the journal.
    pub current_size: u64,
    /// Whether this batch has written to the journal.
    pub touched_global: bool,
    /// Session journals that this batch has written to.
    pub touched_sessions: Vec<String>,
    /// Session journals that are open.
    pub open_sessions: Vec<String>,
}

/// Whether no text occurs twice.
pub open spec fn distinct(v: Seq<Seq<char>>) -> bool {
    forall|i: int, j: int| 0 <= i < j < v.len() ==> (#[trigger] v[i]) != (#[trigger] v[j])
}

/// A sequence with a text added, if it is not there yet.
pub open spec fn with_text(v: Seq<Seq<char>>, s: Seq<char>) -> Seq<Seq<char>> {
    if v.contains(s) {
        v
    } else {
        v.push(s)
    }
}

/// A sequence without a text.
pub open spec fn without_text(v: Seq<Seq<char>>, s: Seq<char>) -> Seq<Seq<char>>
    decreases v.len(),
{
    if v.len() == 0 {
        v
    } else {
        let rest = without_text(v.drop_last(), s);
        if v.last() == s {
            rest
        } else {
            rest.push(v.last())
        }
    }
}

proof fn without_text_contains(v: Seq<Seq<char>>, s: Seq<char>, t: Seq<char>)
    ensures
        without_text(v, s).contains(t) <==> v.contains(t) && t != s,
        distinct(v) ==> distinct(without_text(v, s)),
        without_text(v, s).len() <= v.len(),
    decreases v.len(),
{
    if v.len() == 0 {
    } else {
        let d = v.drop_last();
        let r = without_text(d, s);
        without_text_contains(d, s, t);
        without_text_contains(d, s, v.last());
        assert(v =~= d.push(v.last()));
        assert forall|u: Seq<char>| v.contains(u) <==> (d.contains(u) || u == v.last()) by {
            if d.contains(u) {
                let i = choose|i: int| 0 <= i < d.len() && d[i] == u;
                assert(v[i] == u);
            }
            if u == v.last() {
                assert(v[v.len() - 1] == u);
            }
            if v.contains(u) && u != v.last() {
                let i = choose|i: int| 0 <= i < v.len() && v[i] == u;
                assert(d[i] == u);
            }
        }
        assert forall|u: Seq<char>|
            r.push(v.last()).contains(u) <==> (r.contains(u) || u == v.last()) by {
            let p = r.push(v.last());
            if r.contains(u) {
                let i = choose|i: int| 0 <= i < r.len() && r[i] == u;
                assert(p[i] == u);
            }
            if u == v.last() {
                assert(p[r.len() as int] == u);
            }
            if p.contains(u) && u != v.last() {
                let i = choose|i: int| 0 <= i < p.len() && p[i] == u;
                assert(r[i] == u);
            }
        }
        if distinct(v) {
            assert(distinct(d)) by {
                assert forall|i: int, j: int| 0 <= i < j < d.len() implies (#[trigger] d[i]) != (
                #[trigger] d[j]) by {
                    assert(v[i] == d[i] && v[j] == d[j]);
                }
            }
            assert(!d.contains(v.last())) by {
                if d.contains(v.last()) {
                    let i = choose|i: int| 0 <= i < d.len() && d[i] == v.last();
                    assert(v[i] == v[v.len() - 1]);
                }
            }
            assert(!r.contains(v.last()));
            let p = r.push(v.last());
            assert(distinct(p)) by {
                assert forall|i: int, j: int| 0 <= i < j < p.len() implies (#[trigger] p[i]) != (
                #[trigger] p[j]) by {
                    if j == r.len() {
                        assert(p[i] == r[i]);
                        assert(r.contains(r[i]));
                    } else {
                        assert(p[i] == r[i] && p[j] == r[j]);
                    }
                }
            }
        }
    }
}

fn remove_text(v: &mut Vec<String>, s: &str)
    ensures
        text::views(final(v)@) == without_text(text::views(old(v)@), s@),
{
    let ghost all = text::views(v@);
    let mut r: Vec<String> = Vec::new();
    let mut i: usize = 0;
    assert(all.take(0) =~= Seq::empty());
    assert(text::views(r@) =~= Seq::empty());
    while i < v.len()
        invariant
            i <= v.len(),
            *v == *old(v),
            all == text::views(v@),
            text::views(r@) == without_text(all.take(i as int), s@),
        decreases v.len() - i,
    {
        assert(all.take(i + 1).drop_last() =~= all.take(i as int));
        assert(all.take(i + 1).last() == v@[i as int]@);
        if !str_eq(v[i].as_str(), s) {
            let ghost before = text::views(r@);
            r.push(v[i].clone());
            assert(text::views(r@) =~= before.push(all[i as int]));
        }
        i = i + 1;
    }
    assert(all.take(all.len() as int) =~= all);
    *v = r;
}

/// Which files are flushed at the end of a batch.
#[derive(Debug)]
pub struct FlushPlan {
    /// Whether the journal is flushed.
    pub global: bool,
    /// The session journals that are flushed.
    pub sessions: Vec<String>,
}

impl JournalWriter {
    /// The session journals that this batch has written to.
    pub open spec fn touched(&self) -> Seq<Seq<char>> {
        text::views(self.touched_sessions@)
    }

    /// The session journals that are open.
    pub open spec fn open(&self) -> Seq<Seq<char>> {
        text::views(self.open_sessions@)
    }

    /// Nothing is open twice or flushed twice, and what was written to is
    /// open.
    pub open spec fn wf(&self) -> bool {
        &&& distinct(self.open())
        &&& distinct(self.touched())
        &&& forall|s: Seq<char>| #[trigger]
            self.touched().contains(s) ==> self.open().contains(s)
    }

    /// A writer of a journal of this size.
    pub fn new(current_size: u64) -> (w: Self)
        ensures
            w.wf(),
            w.current_size == current_size,
            !w.touched_global,
            w.touched().len() == 0,
            w.open().len() == 0,
    {
        JournalWriter {
            current_size,
            touched_global: false,
            touched_sessions: Vec::new(),
            open_sessions: Vec::new(),
        }
    }

    /// Whether the journal is rotated before the next line.
    pub fn needs_rotation(&self) -> (r: bool)
        ensures
            r == (self.current_size > 50 * 1024 * 1024),
    {
        self.current_size > JOURNAL_MAX_SIZE
    }

    /// The journal was rotated: it is empty now.
    pub fn rotated(&mut self)
        ensures
            *final(self) == (JournalWriter { current_size: 0, ..*old(self) }),
    {
        self.current_size = 0;
    }

    /// A line of this many bytes goes to the journal, and to a session journal
    /// where one is named; says whether that has to be opened first.
    pub fn record_line(&mut self, line_len: u64, session_path: Option<&str>) -> (opens: bool)
        requires
            old(self).wf(),
            old(self).current_size + line_len + 1 <= u64::MAX,
        ensures
            final(self).wf(),
            final(self).current_size == old(self).current_size + line_len + 1,
            final(self).touched_global,
            match session_path {
                Some(p) => {
                    &&& opens == !old(self).open().contains(p@)
                    &&& final(self).open() == with_text(old(self).open(), p@)
                    &&& final(self).touched() == with_text(old(self).touched(), p@)
                },
                None => {
                    &&& !opens
                    &&& final(self).open() == old(self).open()
                    &&& final(self).touched() == old(self).touched()
                },
            },
    {
        self.current_size = self.current_size + line_len + 1;
        self.touched_global = true;
        match session_path {
            None => false,
            Some(p) => {
                let opens = !contains_str(self.open_sessions.as_slice(), p);
                let ghost open_before = text::views(self.open_sessions@);
                let ghost touched_before = text::views(self.touched_sessions@);
                if opens {
                    self.open_sessions.push(p.to_owned());
                }
                assert(self.open() =~= with_text(open_before, p@));
                if !contains_str(self.touched_sessions.as_slice(), p) {
                    self.touched_sessions.push(p.to_owned());
                }
                assert(self.touched() =~= with_text(touched_before, p@));
                proof {
                    with_text_facts(open_before, p@);
                    with_text_facts(touched_before, p@);
                }
                opens
            },
        }
    }

    /// A session journal is closed; says whether it was open.
    pub fn close_session(&mut self, path: &str) -> (was_open: bool)
        requires
            old(self).wf(),
        ensures
            final(self).wf(),
            was_open == old(self).open().contains(path@),
            final(self).open() == without_text(old(self).open(), path@),
            final(self).touched() == without_text(old(self).touched(), path@),
            final(self).current_size == old(self).current_size,
            final(self).touched_global == old(self).touched_global,
    {
        let was_open = contains_str(self.open_sessions.as_slice(), path);
        remove_text(&mut self.open_sessions, path);
        remove_text(&mut self.touched_sessions, path);
        proof {
            let o = old(self).open();
            let t = old(self).touched();
            assert forall|s: Seq<char>| #[trigger] self.touched().contains(s) implies self.open().contains(
                s,
            ) by {
                without_text_contains(t, path@, s);
                without_text_contains(o, path@, s);
                assert(old(self).touched().contains(s));
            }
            without_text_contains(o, path@, path@);
            without_text_contains(t, path@, path@);
        }
        was_open
    }

    /// The end of a batch: what it has written to is flushed once.
    pub fn end_batch(&mut self) -> (plan: FlushPlan)
        requires
            old(self).wf(),
        ensures
            final(self).wf(),
            plan.global == old(self).touched_global,
            text::views(plan.sessions@) == old(self).touched(),
            !final(self).touched_global,
            final(self).touched().len() == 0,
            final(self).open() == old(self).open(),
            final(self).current_size == old(self).current_size,
    {
        let global = self.touched_global;
        let mut sessions: Vec<String> = Vec::new();
        std::mem::swap(&mut sessions, &mut self.touched_sessions);
        self.touched_global = false;
        FlushPlan { global, sessions }
    }
}

proof fn with_text_facts(v: Seq<Seq<char>>, s: Seq<char>)
    ensures
        distinct(v) ==> distinct(with_text(v, s)),
        forall|t: Seq<char>| #[trigger] with_text(v, s).contains(t) <==> v.contains(t) || t == s,
{
    let w = with_text(v, s);
    assert forall|t: Seq<char>| #[trigger] w.contains(t) <==> v.contains(t) || t == s by {
        if !v.contains(s) {
            if v.contains(t) {
                let i = choose|i: int| 0 <= i < v.len() && v[i] == t;
                assert(w[i] == t);
            }
            if t == s {
                assert(w[v.len() as int] == t);
            }
            if w.contains(t) && t != s {
                let i = choose|i: int| 0 <= i < w.len() && w[i] == t;
                assert(v[i] == t);
            }
        }
    }
    if distinct(v) && !v.contains(s) {
        assert forall|i: int, j: int| 0 <= i < j < w.len() implies (#[trigger] w[i]) != (
        #[trigger] w[j]) by {
            if j == v.len() {
                assert(w[i] == v[i]);
                assert(v.contains(v[i]));
            } else {
                assert(w[i] == v[i] && w[j] == v[j]);
            }
        }
    }
}

/// The name of a rotated journal: the time of rotation, with dashes for
/// colons, after the name of the journal.
pub open spec fn rotated_name(ts: Seq<char>) -> Seq<char> {
    "compile_journal.jsonl."@ + ts.map_values(|c: char| if c == ':' { '-' } else { c })
}

/// The name of a journal that is rotated at this time.
pub fn rotated_journal_name(ts: &str) -> (r: String)
    ensures
        r@ == rotated_name(ts@),
{
    let v = to_chars(ts);
    let mut tail = String::new();
    let mut i: usize = 0;
    let ghost f = |c: char| if c == ':' { '-' } else { c };
    while i < v.len()
        invariant
            i <= v.len(),
            f == (|c: char| if c == ':' { '-' } else { c }),
            tail@ == v@.take(i as int).map_values(f),
        decreases v.len() - i,
    {
        let c = if v[i] == ':' {
            '-'
        } else {
            v[i]
        };
        tail.push(c);
        i = i + 1;
        assert(v@.take(i as int).map_values(f) =~= v@.take(i - 1).map_values(f).push(c));
    }
    assert(v@.take(v@.len() as int) =~= v@);
    joined("compile_journal.jsonl.", tail.as_str())
}

/// The names of rotated journals among the files of a directory.
pub open spec fn rotated_names(names: Seq<Seq<char>>) -> Seq<Seq<char>>
    decreases names.len(),
{
    if names.len() == 0 {
        names
    } else {
        let rest = rotated_names(names.drop_last());
        if text::begins(names.last(), "compile_journal.jsonl."@) {
            rest.push(names.last())
        } else {
            rest
        }
    }
}

/// The rotated journals that are removed: all but the last three in the order
/// of their names.
pub open spec fn surplus(names: Seq<Seq<char>>) -> Seq<Seq<char>> {
    let sorted = exec_key::sorted_texts(rotated_names(names));
    if sorted.len() <= 3 {
        Seq::empty()
    } else {
        sorted.take(sorted.len() - 3)
    }
}

/// The rotated journals that are removed from a directory with these files.
pub fn gc_journal_files(names: &[String]) -> (removed: Vec<String>)
    ensures
        text::views(removed@) == surplus(text::views(names@)),
{
    let ghost all = text::views(names@);
    let mut rotated: Vec<String> = Vec::new();
    let mut i: usize = 0;
    assert(all.take(0) =~= Seq::empty());
    assert(text::views(rotated@) =~= Seq::empty());
    while i < names.len()
        invariant
            i <= names.len(),
            all == text::views(names@),
            text::views(rotated@) == rotated_names(all.take(i as int)),
        decreases names.len() - i,
    {
        assert(all.take(i + 1).drop_last() =~= all.take(i as int));
        assert(all.take(i + 1).last() == names@[i as int]@);
        if starts_with(names[i].as_str(), "compile_journal.jsonl.") {
            let ghost before = text::views(rotated@);
            rotated.push(names[i].clone());
            assert(text::views(rotated@) =~= before.push(all[i as int]));
        }
        i = i + 1;
    }
    assert(all.take(all.len() as int) =~= all);
    let mut sorted = sort_names(rotated.as_slice());
    let ghost s = text::views(sorted@);
    if sorted.len() <= JOURNAL_MAX_FILES {
        let none: Vec<String> = Vec::new();
        assert(text::views(none@) =~= Seq::empty());
        none
    } else {
        let keep: usize = sorted.len() - JOURNAL_MAX_FILES;
        sorted.truncate(keep);
        assert(text::views(sorted@) =~= s.take(keep as int));
        sorted
    }
}

/// After removal at most three rotated journals are left, and no removed one
/// comes after one that is left.
pub proof fn newest_journals_stay(names: Seq<Seq<char>>, i: int, j: int)
    ensures
        rotated_names(names).len() - surplus(names).len() <= 3,
        0 <= i < surplus(names).len() <= j < rotated_names(names).len() ==> !crate::order::text_lt(
            exec_key::sorted_texts(rotated_names(names))[j],
            surplus(names)[i],
        ),
{
    let r = rotated_names(names);
    let items = r.map_values(|s: Seq<char>| (s, ()));
    crate::order::sorted_same_items(items);
    crate::order::sorted_is_sorted(items);
    let sorted = crate::order::sorted_by_key(items);
    if 0 <= i < surplus(names).len() <= j < r.len() {
        assert(!crate::order::text_lt(sorted[j].0, sorted[i].0));
    }
}

proof fn left_texts(v: Seq<Seq<char>>, s: Seq<char>)
    ensures
        forall|x: Seq<char>| #[trigger]
            without_text(v, s).contains(x) <==> v.contains(x) && x != s,
    decreases v.len(),
{
    if v.len() > 0 {
        let init = v.drop_last();
        let rest = without_text(init, s);
        left_texts(init, s);
        assert forall|x: Seq<char>| #[trigger] without_text(v, s).contains(x) <==> v.contains(x)
            && x != s by {
            assert(v =~= init.push(v.last()));
            if v.contains(x) {
                let i = choose|i: int| 0 <= i < v.len() && v[i] == x;
                if i < init.len() {
                    assert(init[i] == x);
                    assert(init.contains(x));
                }
            }
            if init.contains(x) {
                let i = choose|i: int| 0 <= i < init.len() && init[i] == x;
                assert(v[i] == x);
            }
            if v.last() != s {
                let r = rest.push(v.last());
                assert(r[rest.len() as int] == v.last());
                if rest.contains(x) {
                    let i = choose|i: int| 0 <= i < rest.len() && rest[i] == x;
                    assert(r[i] == x);
                }
                if r.contains(x) {
                    let i = choose|i: int| 0 <= i < r.len() && r[i] == x;
                    if i < rest.len() {
                        assert(rest[i] == x);
                    }
                }
            }
            assert(v[v.len() - 1] == v.last());
        }
    }
}

/// A line is counted with its line break, and the journal and the journal of its
/// session are flushed with the batch that it belongs to. The journal of a
/// session is opened with its first line and no second time.
pub proof fn lines_reach_their_journals(
    w: &mut JournalWriter,
    after: &mut JournalWriter,
    line_len: u64,
    path: Option<&str>,
    opens: bool,
    plan: FlushPlan,
    s: Seq<char>,
)
    requires
        call_ensures(JournalWriter::record_line, (w, line_len, path), opens),
        *after == *final(w),
        call_ensures(JournalWriter::end_batch, (after,), plan),
    ensures
        final(w).current_size == old(w).current_size + line_len + 1,
        opens <==> path is Some && !old(w).open().contains(path->0@),
        plan.global,
        path is Some ==> text::views(plan.sessions@).contains(path->0@) && final(after).open().contains(
            path->0@,
        ),
        old(w).touched().contains(s) ==> text::views(plan.sessions@).contains(s),
        text::views(plan.sessions@).contains(s) ==> old(w).touched().contains(s) || (path is Some
            && s == path->0@),
        final(after).open().contains(s) <==> old(w).open().contains(s) || (path is Some && s
            == path->0@),
        !final(after).touched_global && final(after).touched().len() == 0,
        final(after).current_size == final(w).current_size,
{
    if let Some(p) = path {
        let t = old(w).touched();
        let o = old(w).open();
        assert(t.push(p@)[t.len() as int] == p@);
        assert(o.push(p@)[o.len() as int] == p@);
        if t.contains(s) {
            let i = choose|i: int| 0 <= i < t.len() && t[i] == s;
            assert(t.push(p@)[i] == s);
        }
        if o.contains(s) {
            let i = choose|i: int| 0 <= i < o.len() && o[i] == s;
            assert(o.push(p@)[i] == s);
        }
        if t.push(p@).contains(s) {
            let i = choose|i: int| 0 <= i < t.push(p@).len() && t.push(p@)[i] == s;
            if i < t.len() {
                assert(t[i] == s);
            }
        }
        if o.push(p@).contains(s) {
            let i = choose|i: int| 0 <= i < o.push(p@).len() && o.push(p@)[i] == s;
            if i < o.len() {
                assert(o[i] == s);
            }
        }
    }
}

/// Closing the journal of a session closes that one, if it was open, and no
/// other; it is not flushed again.
pub proof fn closed_journals_are_forgotten(
    w: &mut JournalWriter,
    path: &str,
    was_open: bool,
    s: Seq<char>,
)
    requires
        call_ensures(JournalWriter::close_session, (w, path), was_open),
    ensures
        was_open <==> old(w).open().contains(path@),
        final(w).open().contains(s) <==> old(w).open().contains(s) && s != path@,
        final(w).touched().contains(s) <==> old(w).touched().contains(s) && s != path@,
        final(w).current_size == old(w).current_size,
        final(w).touched_global == old(w).touched_global,
{
    left_texts(old(w).open(), path@);
    left_texts(old(w).touched(), path@);
}

/// The journal is rotated once it holds more than fifty mebibytes, and begins
/// anew with nothing in it.
pub proof fn full_journals_are_rotated(
    w: &mut JournalWriter,
    full: bool,
    again: bool,
)
    requires
        call_ensures(JournalWriter::needs_rotation, (&*w,), full),
        call_ensures(JournalWriter::rotated, (w,), ()),
        call_ensures(JournalWriter::needs_rotation, (&*final(w),), again),
    ensures
        full <==> old(w).current_size > 52_428_800,
        !again,
        final(w).current_size == 0,
        final(w).open() == old(w).open(),
        final(w).touched() == old(w).touched(),
{
}

/// A rotated journal is named after its time, with a dash for each colon and no
/// other change.
pub proof fn rotated_journals_are_named_after_their_time(ts: &str, r: String, i: int)
    requires
        call_ensures(rotated_journal_name, (ts,), r),
        0 <= i < ts@.len(),
    ensures
        text::begins(r@, "compile_journal.jsonl."@),
        r@.len() == "compile_journal.jsonl."@.len() + ts@.len(),
        ts@[i] == ':' ==> r@["compile_journal.jsonl."@.len() + i] == '-',
        ts@[i] != ':' ==> r@["compile_journal.jsonl."@.len() + i] == ts@[i],
{
    let p = "compile_journal.jsonl."@;
    assert(r@.take(p.len() as int) =~= p);
}

proof fn rotated_names_only(names: Seq<Seq<char>>)
    ensures
        forall|x: Seq<char>| #[trigger]
            rotated_names(names).contains(x) <==> names.contains(x) && text::begins(
                x,
                "compile_journal.jsonl."@,
            ),
    decreases names.len(),
{
    if names.len() > 0 {
        let init = names.drop_last();
        let rest = rotated_names(init);
        rotated_names_only(init);
        assert forall|x: Seq<char>| #[trigger] rotated_names(names).contains(x) <==> names.contains(
            x,
        ) && text::begins(x, "compile_journal.jsonl."@) by {
            assert(names[names.len() - 1] == names.last());
            if names.contains(x) {
                let i = choose|i: int| 0 <= i < names.len() && names[i] == x;
                if i < init.len() {
                    assert(init[i] == x);
                }
            }
            if init.contains(x) {
                let i = choose|i: int| 0 <= i < init.len() && init[i] == x;
                assert(names[i] == x);
            }
            let r = rest.push(names.last());
            assert(r[rest.len() as int] == names.last());
            if rest.contains(x) {
                let i = choose|i: int| 0 <= i < rest.len() && rest[i] == x;
                assert(r[i] == x);
            }
            if r.contains(x) {
                let i = choose|i: int| 0 <= i < r.len() && r[i] == x;
                if i < rest.len() {
                    assert(rest[i] == x);
                }
            }
        }
    }
}

/// Only rotated journals are removed, each of which was there, and none before
/// there are more than three.
pub proof fn only_rotated_journals_are_removed(
    names: &[String],
    removed: Vec<String>,
    i: int,
)
    requires
        call_ensures(gc_journal_files, (names,), removed),
        0 <= i < removed@.len(),
    ensures
        text::views(names@).contains(removed@[i]@),
        text::begins(removed@[i]@, "compile_journal.jsonl."@),
        removed@.len() + 3 <= names@.len(),
{
    let all = text::views(names@);
    let r = rotated_names(all);
    let items = r.map_values(|s: Seq<char>| (s, ()));
    let sorted = crate::order::sorted_by_key(items);
    crate::order::sorted_same_items(items);
    items.to_multiset_ensures();
    sorted.to_multiset_ensures();
    assert(text::views(removed@).len() == removed@.len());
    assert(text::views(removed@)[i] == removed@[i]@);
    assert(surplus(all)[i] == exec_key::sorted_texts(r)[i]);
    assert(exec_key::sorted_texts(r)[i] == sorted[i].0);
    assert(sorted.contains(sorted[i]));
    assert(sorted.to_multiset().count(sorted[i]) > 0);
    assert(items.contains(sorted[i]));
    let j = choose|j: int| 0 <= j < items.len() && items[j] == sorted[i];
    assert(r[j] == removed@[i]@);
    assert(r.contains(removed@[i]@));
    rotated_names_only(all);
    rotated_fewer(all);
}

proof fn rotated_fewer(names: Seq<Seq<char>>)
    ensures
        rotated_names(names).len() <= names.len(),
    decreases names.len(),
{
    if names.len() > 0 {
        rotated_fewer(names.drop_last());
    }
}

} // verus!
