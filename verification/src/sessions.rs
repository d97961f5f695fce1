//! The sessions of clients: how they end, and which end when a directory is
//! given up.

use crate::paths;
use crate::paths::path_is_under;
use crate::private_daemon;
use crate::private_daemon::PrivateDaemonLifecycle;
use crate::protocol;
use crate::protocol::{
    invalid_session, unknown_session, PhaseProfileSummary, Response, SessionStats,
};
use crate::records;
use crate::stats;
use crate::stats::{count_for_session, one_more, StatEvent};
use crate::table;
use crate::table::Table;
use crate::text;
use crate::text::{contains_str, str_eq};
use vstd::prelude::*;
use vstd::string::*;

verus! {

/// A session.
#[derive(Debug)]
pub struct Session {
    /// Identifier.
    pub id: String,
    /// Process that began it.
    pub client_pid: u32,
    /// Directory that it works in.
    pub working_dir: String,
    /// Processes that it names as owners of a private daemon.
    pub owner_pids: Vec<u32>,
    /// Journal of its own.
    pub journal_path: Option<String>,
    /// Whether its journal shows where time went.
    pub profile: bool,
    /// Counters, where it asked for them.
    pub stats: Option<SessionStats>,
    /// How long its hits have taken.
    pub hit_latency_ns: u64,
    /// Time at which it began, in milliseconds.
    pub created_at_ms: u64,
}

/// All sessions.
#[derive(Debug)]
pub struct SessionBook {
    /// Sessions that have not ended.
    pub active: Vec<Session>,
    /// Identifiers of sessions that were ended by their clients.
    pub ended: Vec<String>,
    /// Roots of the worktrees that sessions work in, by identifier.
    pub worktree_roots: Table,
    /// The sources that sessions with counters have compiled, each once, with
    /// the identifier of the session.
    pub sources: Vec<(String, String)>,
}

/// The identifiers of sessions.
pub open spec fn ids(s: Seq<Session>) -> Seq<Seq<char>> {
    s.map_values(|x: Session| x.id@)
}

/// Whether no two sessions have one identifier.
pub open spec fn ids_differ(s: Seq<Session>) -> bool {
    forall|i: int, j: int| 0 <= i < j < s.len() ==> (#[trigger] s[i]).id@ != (#[trigger] s[j]).id@
}

impl SessionBook {
    /// Whether no two active sessions have one identifier.
    pub open spec fn wf(self) -> bool {
        ids_differ(self.active@)
    }

    /// Without any session.
    pub fn new() -> (b: Self)
        ensures
            b.wf(),
            b.active@.len() == 0,
            b.ended@.len() == 0,
            table::contents(b.worktree_roots) == table::no_entries(),
            b.sources@.len() == 0,
    {
        SessionBook {
            active: Vec::new(),
            ended: Vec::new(),
            worktree_roots: table::new_table(),
            sources: Vec::new(),
        }
    }

    /// The place of an active session.
    pub fn find(&self, id: &str) -> (r: Option<usize>)
        ensures
            match r {
                Some(i) => i < self.active@.len() && self.active@[i as int].id@ == id@,
                None => !ids(self.active@).contains(id@),
            },
    {
        let mut i: usize = 0;
        let ghost all = ids(self.active@);
        while i < self.active.len()
            invariant
                i <= self.active@.len(),
                all == ids(self.active@),
                forall|j: int| 0 <= j < i ==> (#[trigger] all[j]) != id@,
            decreases self.active@.len() - i,
        {
            assert(all[i as int] == self.active@[i as int].id@);
            if str_eq(self.active[i].id.as_str(), id) {
                return Some(i);
            }
            i = i + 1;
        }
        None
    }

    /// Whether a session was ended by its client.
    pub fn has_ended(&self, id: &str) -> (r: bool)
        ensures
            r == text::views(self.ended@).contains(id@),
    {
        contains_str(self.ended.as_slice(), id)
    }
}

/// A session after an event was counted for it.
pub open spec fn with_event(s: Session, event: StatEvent) -> Session {
    Session {
        stats: match s.stats {
            Some(c) => Some(stats::session_counted(c, event)),
            None => None,
        },
        hit_latency_ns: match event {
            StatEvent::Hit { latency_ns, .. } => stats::plus(s.hit_latency_ns, latency_ns),
            _ => s.hit_latency_ns,
        },
        ..s
    }
}

/// A session after a source was counted for it. A source that it has not
/// compiled before is one more.
pub open spec fn with_work(s: Session, event: StatEvent, fresh: bool) -> Session {
    let t = with_event(s, event);
    Session {
        stats: match t.stats {
            Some(c) => Some(
                SessionStats {
                    unique_sources: if fresh {
                        stats::next(c.unique_sources)
                    } else {
                        c.unique_sources
                    },
                    ..c
                },
            ),
            None => None,
        },
        ..t
    }
}

/// The sessions and the sources that they have compiled.
pub struct Ledger {
    /// Sessions that have not ended.
    pub active: Seq<Session>,
    /// Identifiers of sessions, and sources.
    pub sources: Seq<(Seq<char>, Seq<char>)>,
}

/// Whether a session counts what it does.
pub open spec fn counts_work(s: Seq<Session>, id: Seq<char>) -> bool {
    exists|i: int| 0 <= i < s.len() && (#[trigger] s[i]).id@ == id && s[i].stats is Some
}

/// The sessions after a source was counted for one of them.
pub open spec fn after_work(s: Seq<Session>, id: Seq<char>, event: StatEvent, fresh: bool) -> Seq<
    Session,
> {
    s.map_values(
        |x: Session|
            if x.id@ == id {
                with_work(x, event, fresh)
            } else {
                x
            },
    )
}

/// The ledger after a source was served or compiled for a session.
pub open spec fn worked(b: Ledger, id: Seq<char>, source: Seq<char>, event: StatEvent) -> Ledger {
    let fresh = !b.sources.contains((id, source));
    Ledger {
        active: after_work(b.active, id, event, fresh),
        sources: if fresh && counts_work(b.active, id) {
            b.sources.push((id, source))
        } else {
            b.sources
        },
    }
}

/// The sources without those of a session.
pub open spec fn without_session(sources: Seq<(Seq<char>, Seq<char>)>, id: Seq<char>) -> Seq<
    (Seq<char>, Seq<char>),
>
    decreases sources.len(),
{
    if sources.len() == 0 {
        Seq::empty()
    } else {
        let before = without_session(sources.drop_last(), id);
        if sources.last().0 == id {
            before
        } else {
            before.push(sources.last())
        }
    }
}

/// The sessions after an event was counted for one of them.
pub open spec fn after_event(s: Seq<Session>, id: Seq<char>, event: StatEvent) -> Seq<Session> {
    s.map_values(
        |x: Session|
            if x.id@ == id {
                with_event(x, event)
            } else {
                x
            },
    )
}

fn latency_after(total: u64, event: StatEvent) -> (r: u64)
    ensures
        r == match event {
            StatEvent::Hit { latency_ns, .. } => stats::plus(total, latency_ns),
            _ => total,
        },
{
    match event {
        StatEvent::Hit { latency_ns, .. } => total.saturating_add(latency_ns),
        _ => total,
    }
}

impl SessionBook {
    /// The sessions and the sources that they have compiled.
    pub open spec fn ledger(self) -> Ledger {
        Ledger { active: self.active@, sources: text::pair_views(self.sources@) }
    }
}

/// Counts an event for an active session that asked for counters; nothing
/// happens for any other.
pub fn record_session_stat(book: &mut SessionBook, id: &str, event: StatEvent)
    requires
        old(book).wf(),
    ensures
        final(book).wf(),
        final(book).active@ == after_event(old(book).active@, id@, event),
        final(book).ended == old(book).ended,
        final(book).worktree_roots == old(book).worktree_roots,
        final(book).sources == old(book).sources,
{
    let ghost before = book.active@;
    match book.find(id) {
        Some(i) => {
            let mut s = book.active.remove(i);
            let ghost s0 = s;
            if let Some(mut counters) = s.stats {
                count_for_session(&mut counters, event);
                s.stats = Some(counters);
            }
            s.hit_latency_ns = latency_after(s.hit_latency_ns, event);
            assert(s == with_event(s0, event));
            book.active.insert(i, s);
            proof {
                let after = after_event(before, id@, event);
                assert forall|j: int| 0 <= j < before.len() implies book.active@[j] == after[j] by {
                    if j < i {
                        assert(before[j].id@ != before[i as int].id@);
                    } else if j > i {
                        assert(before[i as int].id@ != before[j].id@);
                    }
                }
                assert(book.active@ =~= after);
                assert forall|a: int, b: int| 0 <= a < b < book.active@.len() implies (
                #[trigger] book.active@[a]).id@ != (#[trigger] book.active@[b]).id@ by {
                    assert(before[a].id@ != before[b].id@);
                }
            }
        },
        None => {
            assert forall|j: int| 0 <= j < before.len() implies before[j].id@ != id@ by {
                assert(ids(before)[j] == before[j].id@);
            }
            assert(book.active@ =~= after_event(before, id@, event));
        },
    }
}

fn knows_source(sources: &Vec<(String, String)>, id: &str, source: &str) -> (r: bool)
    ensures
        r == text::pair_views(sources@).contains((id@, source@)),
{
    let ghost all = text::pair_views(sources@);
    let mut i: usize = 0;
    while i < sources.len()
        invariant
            i <= sources.len(),
            all == text::pair_views(sources@),
            forall|j: int| 0 <= j < i ==> (#[trigger] all[j]) != (id@, source@),
        decreases sources.len() - i,
    {
        assert(all[i as int] == (sources@[i as int].0@, sources@[i as int].1@));
        if str_eq(sources[i].0.as_str(), id) && str_eq(sources[i].1.as_str(), source) {
            return true;
        }
        i = i + 1;
    }
    false
}

/// Counts a source that was served or compiled for an active session that asked
/// for counters, with what it took and how many bytes it read or wrote.
pub fn record_session_work(book: &mut SessionBook, id: &str, source: &str, event: StatEvent)
    requires
        old(book).wf(),
    ensures
        final(book).wf(),
        final(book).ledger() == worked(old(book).ledger(), id@, source@, event),
        final(book).ended == old(book).ended,
        final(book).worktree_roots == old(book).worktree_roots,
{
    let ghost before = book.active@;
    let ghost noted = text::pair_views(book.sources@);
    let fresh = !knows_source(&book.sources, id, source);
    match book.find(id) {
        Some(i) => {
            let mut s = book.active.remove(i);
            let ghost s0 = s;
            let mut counting = false;
            if let Some(mut counters) = s.stats {
                counting = true;
                count_for_session(&mut counters, event);
                if fresh {
                    counters.unique_sources = one_more(counters.unique_sources);
                }
                s.stats = Some(counters);
            }
            s.hit_latency_ns = latency_after(s.hit_latency_ns, event);
            assert(s == with_work(s0, event, fresh));
            book.active.insert(i, s);
            if fresh && counting {
                book.sources.push((id.to_owned(), source.to_owned()));
                assert(text::pair_views(book.sources@) =~= noted.push((id@, source@)));
            }
            proof {
                let after = after_work(before, id@, event, fresh);
                assert forall|j: int| 0 <= j < before.len() implies book.active@[j] == after[j] by {
                    if j < i {
                        assert(before[j].id@ != before[i as int].id@);
                    } else if j > i {
                        assert(before[i as int].id@ != before[j].id@);
                    }
                }
                assert(book.active@ =~= after);
                assert(counts_work(before, id@) == counting) by {
                    if counting {
                        assert(before[i as int].stats is Some);
                    } else if counts_work(before, id@) {
                        let k = choose|k: int|
                            0 <= k < before.len() && (#[trigger] before[k]).id@ == id@
                                && before[k].stats is Some;
                        if k < i {
                            assert(before[k].id@ != before[i as int].id@);
                        } else if k > i {
                            assert(before[i as int].id@ != before[k].id@);
                        }
                    }
                }
                assert forall|a: int, b: int| 0 <= a < b < book.active@.len() implies (
                #[trigger] book.active@[a]).id@ != (#[trigger] book.active@[b]).id@ by {
                    assert(before[a].id@ != before[b].id@);
                }
            }
        },
        None => {
            assert forall|j: int| 0 <= j < before.len() implies before[j].id@ != id@ by {
                assert(ids(before)[j] == before[j].id@);
            }
            assert(book.active@ =~= after_work(before, id@, event, fresh));
        },
    }
}

/// Forgets what a session has compiled.
pub fn forget_sources(book: &mut SessionBook, id: &str)
    ensures
        *final(book) == (SessionBook { sources: final(book).sources, ..*old(book) }),
        text::pair_views(final(book).sources@) == without_session(
            text::pair_views(old(book).sources@),
            id@,
        ),
{
    let ghost all = text::pair_views(book.sources@);
    let mut taken: Vec<(String, String)> = Vec::new();
    std::mem::swap(&mut taken, &mut book.sources);
    let ghost given = taken@;
    assert(all.take(0) =~= Seq::empty());
    assert(text::pair_views(book.sources@) =~= Seq::empty());
    for pair in it: taken
        invariant
            it.seq() == given,
            all == text::pair_views(given),
            text::pair_views(book.sources@) == without_session(all.take(it.index()), id@),
            *book == (SessionBook { sources: book.sources, ..*old(book) }),
    {
        let ghost n = it.index();
        let ghost before = text::pair_views(book.sources@);
        assert(all.take(n + 1).drop_last() =~= all.take(n));
        assert(all[n] == (pair.0@, pair.1@));
        if !str_eq(pair.0.as_str(), id) {
            book.sources.push(pair);
            assert(text::pair_views(book.sources@) =~= before.push(all[n]));
        }
    }
    assert(all.take(all.len() as int) =~= all);
}

/// The counters of a session, as they are reported at a time. `saved_ms` is the
/// time that its hits have saved.
pub open spec fn reported(
    s: Option<SessionStats>,
    created_at_ms: u64,
    now_ms: u64,
    saved_ms: u64,
    profile: PhaseProfileSummary,
) -> Option<SessionStats> {
    match s {
        Some(s) => Some(
            SessionStats {
                duration_ms: records::age(now_ms, created_at_ms),
                time_saved_ms: saved_ms,
                phase_profile: Some(profile),
                ..s
            },
        ),
        None => None,
    }
}

fn report(
    s: &Option<SessionStats>,
    created_at_ms: u64,
    now_ms: u64,
    saved_ms: u64,
    profile: PhaseProfileSummary,
) -> (r: Option<SessionStats>)
    ensures
        r == reported(*s, created_at_ms, now_ms, saved_ms, profile),
{
    match s {
        Some(s) => Some(
            SessionStats {
                duration_ms: crate::records::cache_age_at(now_ms, created_at_ms),
                compilations: s.compilations,
                hits: s.hits,
                misses: s.misses,
                non_cacheable: s.non_cacheable,
                errors: s.errors,
                errors_cached: s.errors_cached,
                time_saved_ms: saved_ms,
                unique_sources: s.unique_sources,
                bytes_read: s.bytes_read,
                bytes_written: s.bytes_written,
                lookup_outcomes: s.lookup_outcomes,
                phase_profile: Some(profile),
            },
        ),
        None => None,
    }
}

/// Whether a session is active.
pub open spec fn active_at(b: SessionBook, id: Seq<char>, i: int) -> bool {
    0 <= i < b.active@.len() && b.active@[i].id@ == id
}

/// The answer to a request for the counters of a session: an identifier that
/// cannot be read and a session that is not active are refused.
pub open spec fn stats_answer(
    b: SessionBook,
    raw: Seq<char>,
    parsed: Option<Seq<char>>,
    now_ms: u64,
    saved_ms: u64,
    profile: PhaseProfileSummary,
    r: Response,
) -> bool {
    match parsed {
        None => protocol::is_error(r, "invalid session ID: "@ + raw),
        Some(id) => {
            &&& !ids(b.active@).contains(id) ==> protocol::is_error(r, "unknown session: "@ + raw)
            &&& forall|i: int| #[trigger]
                active_at(b, id, i) ==> r == (Response::SessionStatsResult {
                    stats: reported(
                        b.active@[i].stats,
                        b.active@[i].created_at_ms,
                        now_ms,
                        saved_ms,
                        profile,
                    ),
                })
        },
    }
}

/// The answer to a question for counters: those of the session, where it asked
/// for them. `parsed` is the identifier, if the text is one.
pub fn handle_session_stats(
    book: &SessionBook,
    raw: &str,
    parsed: Option<&str>,
    now_ms: u64,
    saved_ms: u64,
    profile: PhaseProfileSummary,
) -> (r: Response)
    requires
        book.wf(),
    ensures
        stats_answer(*book, raw@, text::opt_str(parsed), now_ms, saved_ms, profile, r),
{
    let id = match parsed {
        Some(id) => id,
        None => {
            return invalid_session(raw);
        },
    };
    match book.find(id) {
        Some(i) => {
            assert(ids(book.active@)[i as int] == id@);
            assert forall|j: int| #[trigger] active_at(*book, id@, j) implies j == i by {
                if j < i {
                    assert(book.active@[j].id@ != book.active@[i as int].id@);
                } else if j > i {
                    assert(book.active@[i as int].id@ != book.active@[j].id@);
                }
            }
            let s = &book.active[i];
            Response::SessionStatsResult {
                stats: report(&s.stats, s.created_at_ms, now_ms, saved_ms, profile),
            }
        },
        None => {
            assert forall|j: int| #[trigger] active_at(*book, id@, j) implies false by {
                assert(ids(book.active@)[j] == id@);
            }
            unknown_session(raw)
        },
    }
}

/// What the end of a session leaves to do.
#[derive(Debug)]
pub struct SessionEnding {
    /// The answer.
    pub response: Response,
    /// The session's journal, to be closed.
    pub close_journal: Option<String>,
}

/// What the end of a session does. An identifier that cannot be read is
/// refused. A session that is not active has ended already, which is no error.
/// An active session leaves, is remembered as ended, and lets go of its owners.
pub open spec fn session_ended(
    before: SessionBook,
    after: SessionBook,
    owners_before: PrivateDaemonLifecycle,
    owners_after: PrivateDaemonLifecycle,
    raw: Seq<char>,
    parsed: Option<Seq<char>>,
    now_ms: u64,
    saved_ms: u64,
    profile: PhaseProfileSummary,
    r: SessionEnding,
) -> bool {
    match parsed {
        None => {
            &&& protocol::is_error(r.response, "invalid session ID: "@ + raw)
            &&& r.close_journal is None
            &&& after == before
            &&& owners_after == owners_before
        },
        Some(id) => {
            &&& table::contents(after.worktree_roots) == table::contents(
                before.worktree_roots,
            ).remove(id)
            &&& text::pair_views(after.sources@) == without_session(
                text::pair_views(before.sources@),
                id,
            )
            &&& !ids(before.active@).contains(id) ==> {
                &&& r.response == (Response::SessionEnded { stats: None })
                &&& r.close_journal is None
                &&& after.active@ == before.active@
                &&& after.ended@ == before.ended@
                &&& owners_after == owners_before
            }
            &&& forall|i: int| #[trigger]
                active_at(before, id, i) ==> {
                    let s = before.active@[i];
                    &&& r.response == (Response::SessionEnded {
                        stats: reported(s.stats, s.created_at_ms, now_ms, saved_ms, profile),
                    })
                    &&& r.close_journal == s.journal_path
                    &&& after.active@ == before.active@.remove(i)
                    &&& text::views(after.ended@) == text::views(before.ended@).push(id)
                    &&& owners_after.serving() == owners_before.serving()
                    &&& owners_after.env_keys() == owners_before.env_keys()
                    &&& forall|p: u32| #[trigger]
                        private_daemon::refs(owners_after.owners(), p) == private_daemon::less(
                            private_daemon::refs(owners_before.owners(), p),
                            private_daemon::times_named(s.owner_pids@, p),
                        )
                }
        },
    }
}

/// Ends a session. A session that is not active ends without counters and
/// without complaint.
pub fn handle_session_end(
    book: &mut SessionBook,
    private: &mut PrivateDaemonLifecycle,
    raw: &str,
    parsed: Option<&str>,
    now_ms: u64,
    saved_ms: u64,
    profile: PhaseProfileSummary,
) -> (r: SessionEnding)
    requires
        old(book).wf(),
        old(private).wf(),
    ensures
        final(book).wf(),
        final(private).wf(),
        session_ended(
            *old(book),
            *final(book),
            *old(private),
            *final(private),
            raw@,
            text::opt_str(parsed),
            now_ms,
            saved_ms,
            profile,
            r,
        ),
{
    let id = match parsed {
        Some(id) => id,
        None => {
            return SessionEnding { response: invalid_session(raw), close_journal: None };
        },
    };
    forget_sources(book, id);
    let _root = table::remove(&mut book.worktree_roots, id);
    match book.find(id) {
        Some(i) => {
            let ghost before = book.active@;
            assert(ids(before)[i as int] == id@);
            assert forall|j: int| #[trigger] active_at(*old(book), id@, j) implies j == i by {
                if j < i {
                    assert(before[j].id@ != before[i as int].id@);
                } else if j > i {
                    assert(before[i as int].id@ != before[j].id@);
                }
            }
            let session = book.active.remove(i);
            assert(ids_differ(book.active@)) by {
                assert forall|a: int, b: int| 0 <= a < b < book.active@.len() implies (
                #[trigger] book.active@[a]).id@ != (#[trigger] book.active@[b]).id@ by {
                    let x = if a < i { a } else { a + 1 };
                    let y = if b < i { b } else { b + 1 };
                    assert(book.active@[a] == before[x] && book.active@[b] == before[y]);
                }
            }
            book.ended.push(id.to_owned());
            assert(text::views(book.ended@) =~= text::views(old(book).ended@).push(id@));
            private.release_session(session.owner_pids.as_slice());
            SessionEnding {
                response: Response::SessionEnded {
                    stats: report(&session.stats, session.created_at_ms, now_ms, saved_ms, profile),
                },
                close_journal: session.journal_path,
            }
        },
        None => {
            assert forall|j: int| #[trigger] active_at(*old(book), id@, j) implies false by {
                assert(ids(book.active@)[j] == id@);
            }
            SessionEnding {
                response: Response::SessionEnded { stats: None },
                close_journal: None,
            }
        },
    }
}

/// The sessions that stay when a directory is given up.
pub open spec fn staying(s: Seq<Session>, dirs: Seq<Seq<char>>, target: Seq<char>) -> Seq<Session>
    decreases s.len(),
{
    if s.len() == 0 {
        Seq::empty()
    } else {
        let before = staying(s.drop_last(), dirs, target);
        if paths::under(dirs[s.len() - 1], target) {
            before
        } else {
            before.push(s.last())
        }
    }
}

/// The sessions that end when a directory is given up.
pub open spec fn leaving(s: Seq<Session>, dirs: Seq<Seq<char>>, target: Seq<char>) -> Seq<Session>
    decreases s.len(),
{
    if s.len() == 0 {
        Seq::empty()
    } else {
        let before = leaving(s.drop_last(), dirs, target);
        if paths::under(dirs[s.len() - 1], target) {
            before.push(s.last())
        } else {
            before
        }
    }
}

/// How often sessions name a process.
pub open spec fn named_by(s: Seq<Session>, pid: u32) -> nat
    decreases s.len(),
{
    if s.len() == 0 {
        0
    } else {
        named_by(s.drop_last(), pid) + private_daemon::times_named(s.last().owner_pids@, pid)
    }
}

/// The journals of sessions.
pub open spec fn journals_of(s: Seq<Session>) -> Seq<Seq<char>>
    decreases s.len(),
{
    if s.len() == 0 {
        Seq::empty()
    } else {
        let before = journals_of(s.drop_last());
        match s.last().journal_path {
            Some(p) => before.push(p@),
            None => before,
        }
    }
}

/// A map without the given keys.
pub open spec fn without(m: Map<Seq<char>, records::RecordView>, keys: Seq<Seq<char>>) -> Map<
    Seq<char>,
    records::RecordView,
>
    decreases keys.len(),
{
    if keys.len() == 0 {
        m
    } else {
        without(m, keys.drop_last()).remove(keys.last())
    }
}

/// The refusal to give up a directory that holds the cache.
pub open spec fn refusal(target: Seq<char>, cache_root: Seq<char>) -> Seq<char> {
    "refusing to release handles under "@ + target
        + " — that path contains the daemon cache root "@ + cache_root
}

/// What giving up a directory leaves to do.
#[derive(Debug)]
pub struct Release {
    /// The answer.
    pub response: Response,
    /// The journals of the sessions that ended, to be closed.
    pub close_journals: Vec<String>,
}

proof fn members_come_from(s: Seq<Session>, dirs: Seq<Seq<char>>, target: Seq<char>)
    requires
        ids_differ(s),
    ensures
        ids_differ(staying(s, dirs, target)),
        forall|i: int|
            0 <= i < staying(s, dirs, target).len() ==> s.contains(
                #[trigger] staying(s, dirs, target)[i],
            ),
        staying(s, dirs, target).len() + leaving(s, dirs, target).len() == s.len(),
    decreases s.len(),
{
    if s.len() > 0 {
        let t = s.drop_last();
        assert(ids_differ(t)) by {
            assert forall|i: int, j: int| 0 <= i < j < t.len() implies (#[trigger] t[i]).id@ != (
            #[trigger] t[j]).id@ by {
                assert(t[i] == s[i] && t[j] == s[j]);
            }
        }
        members_come_from(t, dirs, target);
        let before = staying(t, dirs, target);
        let after = staying(s, dirs, target);
        assert forall|i: int| 0 <= i < after.len() implies s.contains(#[trigger] after[i]) by {
            if i < before.len() {
                assert(after[i] == before[i]);
                let k = choose|k: int| 0 <= k < t.len() && t[k] == before[i];
                assert(s[k] == after[i]);
            } else {
                assert(s[s.len() - 1] == after[i]);
            }
        }
        assert forall|i: int, j: int| 0 <= i < j < after.len() implies (#[trigger] after[i]).id@ != (
        #[trigger] after[j]).id@ by {
            assert(after[i] == before[i]);
            if j < before.len() {
                assert(after[j] == before[j]);
            } else {
                let k = choose|k: int| 0 <= k < t.len() && t[k] == before[i];
                assert(s[k] == after[i]);
                assert(s[s.len() - 1] == after[j]);
            }
        }
    }
}

/// The sources without those of several sessions.
pub open spec fn without_sessions(
    sources: Seq<(Seq<char>, Seq<char>)>,
    gone: Seq<Seq<char>>,
) -> Seq<(Seq<char>, Seq<char>)>
    decreases gone.len(),
{
    if gone.len() == 0 {
        sources
    } else {
        without_session(without_sessions(sources, gone.drop_last()), gone.last())
    }
}

/// What a release of a directory does. A directory that holds the cache is
/// refused. Otherwise the sessions below it leave and let go of their owners,
/// and the others stay.
pub open spec fn worktree_released(
    before: SessionBook,
    after: SessionBook,
    owners_before: PrivateDaemonLifecycle,
    owners_after: PrivateDaemonLifecycle,
    target: Seq<char>,
    cache_root: Seq<char>,
    dirs: Seq<Seq<char>>,
    r: Release,
) -> bool {
    if paths::under(cache_root, target) {
        &&& protocol::is_error(r.response, refusal(target, cache_root))
        &&& r.close_journals@.len() == 0
        &&& after == before
        &&& owners_after == owners_before
    } else {
        let gone = leaving(before.active@, dirs, target);
        &&& r.response matches Response::ReleaseWorktreeHandlesResult {
            inspected,
            released,
            sessions_dropped,
            unreleased,
        }
        &&& inspected == before.active@.len()
        &&& released == gone.len()
        &&& text::views(sessions_dropped@) == ids(gone)
        &&& unreleased@.len() == 0
        &&& text::views(r.close_journals@) == journals_of(gone)
        &&& after.active@ == staying(before.active@, dirs, target)
        &&& after.ended == before.ended
        &&& table::contents(after.worktree_roots) == without(
            table::contents(before.worktree_roots),
            ids(gone),
        )
        &&& text::pair_views(after.sources@) == without_sessions(
            text::pair_views(before.sources@),
            ids(gone),
        )
        &&& owners_after.serving() == owners_before.serving()
        &&& owners_after.env_keys() == owners_before.env_keys()
        &&& forall|p: u32| #[trigger]
            private_daemon::refs(owners_after.owners(), p) == private_daemon::less(
                private_daemon::refs(owners_before.owners(), p),
                named_by(gone, p),
            )
    }
}

/// Ends every session that works below a directory, so that nothing of the
/// daemon keeps it open. A directory that holds the cache is refused.
/// `resolved` holds the directory of each active session as it is found on
/// disk.
pub fn handle_release_worktree_handles(
    book: &mut SessionBook,
    private: &mut PrivateDaemonLifecycle,
    target: &str,
    cache_root: &str,
    resolved: &[String],
) -> (r: Release)
    requires
        old(book).wf(),
        old(private).wf(),
        resolved.len() == old(book).active@.len(),
        old(book).active@.len() <= u32::MAX,
    ensures
        final(book).wf(),
        final(private).wf(),
        worktree_released(
            *old(book),
            *final(book),
            *old(private),
            *final(private),
            target@,
            cache_root@,
            text::views(resolved@),
            r,
        ),
{
    let mut close_journals: Vec<String> = Vec::new();
    if path_is_under(cache_root, target) {
        let mut m = "refusing to release handles under ".to_owned();
        m.append(target);
        m.append(" — that path contains the daemon cache root ");
        m.append(cache_root);
        return Release { response: Response::Error { message: m }, close_journals };
    }
    let ghost all = book.active@;
    let ghost dirs = text::views(resolved@);
    let mut taken: Vec<Session> = Vec::new();
    std::mem::swap(&mut taken, &mut book.active);
    let inspected: u32 = taken.len() as u32;
    let mut released: u32 = 0;
    let mut dropped: Vec<String> = Vec::new();
    let mut i: usize = 0;
    proof {
        assert(all.take(0) =~= Seq::empty());
        assert(ids(leaving(all.take(0), dirs, target@)) =~= Seq::empty());
        assert(text::views(dropped@) =~= Seq::empty());
        assert(text::views(close_journals@) =~= Seq::empty());
        assert(book.active@ =~= Seq::empty());
    }
    for session in it: taken
        invariant
            it.seq() == all,
            all.len() <= u32::MAX,
            i == it.index(),
            resolved.len() == all.len(),
            dirs == text::views(resolved@),
            book.ended == old(book).ended,
            book.active@ == staying(all.take(i as int), dirs, target@),
            private.wf(),
            private.serving() == old(private).serving(),
            private.env_keys() == old(private).env_keys(),
            released == leaving(all.take(i as int), dirs, target@).len(),
            released <= i,
            text::views(dropped@) == ids(leaving(all.take(i as int), dirs, target@)),
            text::views(close_journals@) == journals_of(
                leaving(all.take(i as int), dirs, target@),
            ),
            table::contents(book.worktree_roots) == without(
                table::contents(old(book).worktree_roots),
                ids(leaving(all.take(i as int), dirs, target@)),
            ),
            text::pair_views(book.sources@) == without_sessions(
                text::pair_views(old(book).sources@),
                ids(leaving(all.take(i as int), dirs, target@)),
            ),
            forall|p: u32| #[trigger]
                private_daemon::refs(private.owners(), p) == private_daemon::less(
                    private_daemon::refs(old(private).owners(), p),
                    named_by(leaving(all.take(i as int), dirs, target@), p),
                ),
    {
        let ghost gone = leaving(all.take(i as int), dirs, target@);
        let ghost names = text::views(dropped@);
        let ghost closed = text::views(close_journals@);
        let ghost refs_before = private.owners();
        proof {
            assert(all.take(i + 1).drop_last() =~= all.take(i as int));
            assert(all.take(i + 1).last() == session);
            assert(dirs[i as int] == resolved@[i as int]@);
        }
        if !path_is_under(resolved[i].as_str(), target) {
            book.active.push(session);
        } else {
            let ghost now_gone = leaving(all.take(i + 1), dirs, target@);
            proof {
                assert(now_gone == gone.push(session));
                assert(now_gone.drop_last() =~= gone);
                assert(ids(now_gone) =~= ids(gone).push(session.id@));
                assert(ids(now_gone).drop_last() =~= ids(gone));
            }
            forget_sources(book, session.id.as_str());
            let _root = table::remove(&mut book.worktree_roots, session.id.as_str());
            private.release_session(session.owner_pids.as_slice());
            proof {
                assert forall|p: u32| #[trigger]
                    private_daemon::refs(private.owners(), p) == private_daemon::less(
                        private_daemon::refs(old(private).owners(), p),
                        named_by(now_gone, p),
                    ) by {
                    assert(private_daemon::refs(refs_before, p) == private_daemon::less(
                        private_daemon::refs(old(private).owners(), p),
                        named_by(gone, p),
                    ));
                }
            }
            if let Some(path) = session.journal_path {
                close_journals.push(path);
                assert(text::views(close_journals@) =~= closed.push(path@));
            }
            released = released + 1;
            dropped.push(session.id);
            assert(text::views(dropped@) =~= names.push(session.id@));
        }
        i = i + 1;
    }
    proof {
        assert(all.take(all.len() as int) =~= all);
        members_come_from(all, dirs, target@);
    }
    Release {
        response: Response::ReleaseWorktreeHandlesResult {
            inspected,
            released,
            sessions_dropped: dropped,
            unreleased: Vec::new(),
        },
        close_journals,
    }
}

/// When a directory is given up, every session either stays or ends: the ones
/// that end are those below it.
pub proof fn sessions_stay_or_leave(s: Seq<Session>, dirs: Seq<Seq<char>>, target: Seq<char>, i: int)
    requires
        0 <= i < s.len(),
    ensures
        paths::under(dirs[i], target) ==> leaving(s, dirs, target).contains(s[i]),
        !paths::under(dirs[i], target) ==> staying(s, dirs, target).contains(s[i]),
        staying(s, dirs, target).len() + leaving(s, dirs, target).len() == s.len(),
    decreases s.len(),
{
    let t = s.drop_last();
    let stay = staying(s, dirs, target);
    let leave = leaving(s, dirs, target);
    if i < t.len() {
        sessions_stay_or_leave(t, dirs, target, i);
        assert(t[i] == s[i]);
        if paths::under(dirs[i], target) {
            let k = choose|k: int|
                0 <= k < leaving(t, dirs, target).len() && leaving(t, dirs, target)[k] == s[i];
            assert(leave[k] == s[i]);
        } else {
            let k = choose|k: int|
                0 <= k < staying(t, dirs, target).len() && staying(t, dirs, target)[k] == s[i];
            assert(stay[k] == s[i]);
        }
    } else {
        if paths::under(dirs[i], target) {
            assert(leave[leave.len() - 1] == s[i]);
        } else {
            assert(stay[stay.len() - 1] == s[i]);
        }
        if t.len() > 0 {
            sessions_stay_or_leave(t, dirs, target, 0);
        } else {
            assert(staying(t, dirs, target) =~= Seq::empty());
        }
    }
}

/// Whether two sessions differ at most in what they have counted.
pub open spec fn same_but_counts(a: Session, b: Session) -> bool {
    &&& b.id == a.id
    &&& b.client_pid == a.client_pid
    &&& b.working_dir == a.working_dir
    &&& b.owner_pids == a.owner_pids
    &&& b.journal_path == a.journal_path
    &&& b.profile == a.profile
    &&& b.created_at_ms == a.created_at_ms
    &&& b.stats is Some == a.stats is Some
}

/// Work is counted for the session that did it and for no other. For that one a
/// hit is one more hit with what it took and read, a miss one more miss with
/// what it wrote, and the source is one more source only where the session has
/// not had it before.
pub proof fn work_is_counted_for_its_session(
    b: Ledger,
    id: Seq<char>,
    source: Seq<char>,
    event: StatEvent,
    i: int,
)
    requires
        0 <= i < b.active.len(),
    ensures
        worked(b, id, source, event).active.len() == b.active.len(),
        b.active[i].id@ != id ==> worked(b, id, source, event).active[i] == b.active[i],
        same_but_counts(b.active[i], worked(b, id, source, event).active[i]),
        b.active[i].id@ == id ==> ({
            let after = worked(b, id, source, event).active[i];
            &&& after.hit_latency_ns == stats::grown(
                b.active[i].hit_latency_ns,
                if event is Hit { event->Hit_latency_ns as int } else { 0 },
            )
            &&& b.active[i].stats is Some ==> ({
                let s = b.active[i].stats->0;
                let t = after.stats->0;
                &&& t.hits == stats::grown(s.hits, if event is Hit { 1 } else { 0 })
                &&& t.misses == stats::grown(s.misses, if event is Miss { 1 } else { 0 })
                &&& t.compilations == stats::grown(
                    s.compilations,
                    if event is Compilation { 1 } else { 0 },
                )
                &&& t.bytes_read == stats::grown(
                    s.bytes_read,
                    if event is Hit { event->Hit_bytes as int } else { 0 },
                )
                &&& t.bytes_written == stats::grown(
                    s.bytes_written,
                    if event is Miss { event->Miss_bytes as int } else { 0 },
                )
                &&& t.unique_sources == stats::grown(
                    s.unique_sources,
                    if b.sources.contains((id, source)) { 0 } else { 1 },
                )
            })
        }),
{
}

/// A source that a session compiles twice is one source: the second time raises
/// the number of sources of no session.
pub proof fn sources_are_counted_once(
    b: Ledger,
    id: Seq<char>,
    source: Seq<char>,
    first: StatEvent,
    second: StatEvent,
    i: int,
)
    requires
        0 <= i < b.active.len(),
        b.active[i].stats is Some,
    ensures
        ({
            let once = worked(b, id, source, first);
            let twice = worked(once, id, source, second);
            &&& twice.sources == once.sources
            &&& twice.active[i].stats->0.unique_sources == once.active[i].stats->0.unique_sources
            &&& b.active[i].id@ == id ==> once.sources.contains((id, source))
        }),
{
    let once = worked(b, id, source, first);
    let twice = worked(once, id, source, second);
    let fresh = !b.sources.contains((id, source));
    if b.active[i].id@ == id {
        assert(counts_work(b.active, id));
        if fresh {
            assert(once.sources.last() == (id, source));
            assert(once.sources.contains((id, source)));
        }
    }
    assert(counts_work(once.active, id) == counts_work(b.active, id)) by {
        if counts_work(b.active, id) {
            let k = choose|k: int|
                0 <= k < b.active.len() && (#[trigger] b.active[k]).id@ == id && b.active[k].stats
                    is Some;
            assert(once.active[k].id@ == id && once.active[k].stats is Some);
        }
        if counts_work(once.active, id) {
            let k = choose|k: int|
                0 <= k < once.active.len() && (#[trigger] once.active[k]).id@ == id
                    && once.active[k].stats is Some;
            assert(b.active[k].id@ == id && b.active[k].stats is Some);
        }
    }
    if fresh && counts_work(b.active, id) {
        assert(once.sources.last() == (id, source));
        assert(once.sources.contains((id, source)));
    }
    assert(twice.active[i].id@ == b.active[i].id@);
}

/// An event is counted for its session and for no other, and nothing but the
/// counts of that session changes.
pub proof fn events_are_counted_for_their_session(
    s: Seq<Session>,
    id: Seq<char>,
    event: StatEvent,
    i: int,
)
    requires
        0 <= i < s.len(),
    ensures
        after_event(s, id, event).len() == s.len(),
        s[i].id@ != id ==> after_event(s, id, event)[i] == s[i],
        same_but_counts(s[i], after_event(s, id, event)[i]),
        s[i].id@ == id && s[i].stats is Some ==> ({
            let t = after_event(s, id, event)[i].stats->0;
            &&& t.hits == stats::grown(s[i].stats->0.hits, if event is Hit { 1 } else { 0 })
            &&& t.misses == stats::grown(s[i].stats->0.misses, if event is Miss { 1 } else { 0 })
            &&& t.errors == stats::grown(s[i].stats->0.errors, if event is Failure { 1 } else { 0 })
            &&& t.errors_cached == stats::grown(
                s[i].stats->0.errors_cached,
                if event is CachedFailure { 1 } else { 0 },
            )
            &&& t.non_cacheable == stats::grown(
                s[i].stats->0.non_cacheable,
                if event is NonCacheable { 1 } else { 0 },
            )
            &&& t.compilations == stats::grown(
                s[i].stats->0.compilations,
                if event is Compilation { 1 } else { 0 },
            )
            &&& t.unique_sources == s[i].stats->0.unique_sources
        }),
{
}

/// Forgetting a session's sources forgets its own and keeps all others.
pub proof fn only_its_sources_are_forgotten(
    sources: Seq<(Seq<char>, Seq<char>)>,
    id: Seq<char>,
    p: (Seq<char>, Seq<char>),
)
    ensures
        without_session(sources, id).contains(p) <==> sources.contains(p) && p.0 != id,
        without_session(sources, id).len() <= sources.len(),
    decreases sources.len(),
{
    let r = without_session(sources, id);
    if sources.len() > 0 {
        let t = sources.drop_last();
        let before = without_session(t, id);
        only_its_sources_are_forgotten(t, id, p);
        if sources.contains(p) && p != sources.last() {
            let k = choose|k: int| 0 <= k < sources.len() && sources[k] == p;
            assert(t[k] == p);
        }
        if t.contains(p) {
            let k = choose|k: int| 0 <= k < t.len() && t[k] == p;
            assert(sources[k] == p);
        }
        if before.contains(p) {
            let k = choose|k: int| 0 <= k < before.len() && before[k] == p;
            assert(r[k] == p);
        }
        if r.contains(p) && !before.contains(p) {
            let k = choose|k: int| 0 <= k < r.len() && r[k] == p;
            if k < before.len() {
                assert(before[k] == p);
            }
            assert(p == sources.last());
        }
        if p == sources.last() {
            assert(sources[sources.len() - 1] == p);
            if p.0 != id {
                assert(r[r.len() - 1] == p);
            }
        }
    }
}

/// A session that has ended is gone: a question for its counters is refused,
/// and ending it again changes no session and gives no counters. What it had
/// counted is what the end has answered, with the time since it began.
pub proof fn ended_sessions_are_gone(
    before: SessionBook,
    after: SessionBook,
    owners_before: PrivateDaemonLifecycle,
    owners_after: PrivateDaemonLifecycle,
    raw: Seq<char>,
    id: Seq<char>,
    now_ms: u64,
    saved_ms: u64,
    profile: PhaseProfileSummary,
    r: SessionEnding,
    i: int,
    question: Response,
)
    requires
        before.wf(),
        active_at(before, id, i),
        session_ended(
            before,
            after,
            owners_before,
            owners_after,
            raw,
            Some(id),
            now_ms,
            saved_ms,
            profile,
            r,
        ),
        stats_answer(after, raw, Some(id), now_ms, saved_ms, profile, question),
    ensures
        question is Error,
        r.response is SessionEnded,
        r.response->SessionEnded_stats is Some == before.active@[i].stats is Some,
        before.active@[i].stats is Some ==> ({
            let s = before.active@[i].stats->0;
            let t = r.response->SessionEnded_stats->0;
            &&& t.hits == s.hits
            &&& t.misses == s.misses
            &&& t.compilations == s.compilations
            &&& t.errors == s.errors
            &&& t.errors_cached == s.errors_cached
            &&& t.non_cacheable == s.non_cacheable
            &&& t.unique_sources == s.unique_sources
            &&& t.bytes_read == s.bytes_read
            &&& t.bytes_written == s.bytes_written
            &&& t.lookup_outcomes == s.lookup_outcomes
            &&& now_ms >= before.active@[i].created_at_ms ==> t.duration_ms
                == now_ms - before.active@[i].created_at_ms
            &&& now_ms < before.active@[i].created_at_ms ==> t.duration_ms == 0
            &&& t.time_saved_ms == saved_ms
            &&& t.phase_profile == Some(profile)
        }),
        after.active@.len() == before.active@.len() - 1,
        forall|j: int|
            0 <= j < before.active@.len() && j != i ==> after.active@.contains(
                #[trigger] before.active@[j],
            ),
        forall|j: int| 0 <= j < after.active@.len() ==> (#[trigger] after.active@[j]).id@ != id,
        text::views(after.ended@).contains(id),
        !table::contents(after.worktree_roots).contains_key(id),
        forall|s: Seq<char>| !text::pair_views(after.sources@).contains((id, s)),
        r.close_journal == before.active@[i].journal_path,
{
    let b = before.active@;
    let a = after.active@;
    assert(a == b.remove(i));
    assert forall|j: int| 0 <= j < a.len() implies (#[trigger] a[j]).id@ != id by {
        if j < i {
            assert(a[j] == b[j]);
            assert(b[j].id@ != b[i].id@);
        } else {
            assert(a[j] == b[j + 1]);
            assert(b[i].id@ != b[j + 1].id@);
        }
    }
    assert(!ids(a).contains(id)) by {
        if ids(a).contains(id) {
            let k = choose|k: int| 0 <= k < ids(a).len() && ids(a)[k] == id;
            assert(a[k].id@ == id);
        }
    }
    assert forall|j: int| 0 <= j < b.len() && j != i implies a.contains(#[trigger] b[j]) by {
        if j < i {
            assert(a[j] == b[j]);
        } else {
            assert(a[j - 1] == b[j]);
        }
    }
    let e = text::views(after.ended@);
    assert(e.last() == id);
    assert(e[e.len() - 1] == id);
    assert forall|s: Seq<char>| !text::pair_views(after.sources@).contains((id, s)) by {
        only_its_sources_are_forgotten(text::pair_views(before.sources@), id, (id, s));
    }
}

/// The counters that a session asks for are its own.
pub proof fn sessions_see_their_own_counters(
    b: SessionBook,
    raw: Seq<char>,
    id: Seq<char>,
    now_ms: u64,
    saved_ms: u64,
    profile: PhaseProfileSummary,
    r: Response,
    i: int,
)
    requires
        active_at(b, id, i),
        stats_answer(b, raw, Some(id), now_ms, saved_ms, profile, r),
    ensures
        r is SessionStatsResult,
        r->SessionStatsResult_stats is Some == b.active@[i].stats is Some,
        b.active@[i].stats is Some ==> ({
            let s = b.active@[i].stats->0;
            let t = r->SessionStatsResult_stats->0;
            &&& t.hits == s.hits
            &&& t.misses == s.misses
            &&& t.compilations == s.compilations
            &&& t.errors == s.errors
            &&& t.errors_cached == s.errors_cached
            &&& t.non_cacheable == s.non_cacheable
            &&& t.unique_sources == s.unique_sources
            &&& t.bytes_read == s.bytes_read
            &&& t.bytes_written == s.bytes_written
            &&& t.lookup_outcomes == s.lookup_outcomes
            &&& now_ms >= b.active@[i].created_at_ms ==> t.duration_ms == now_ms
                - b.active@[i].created_at_ms
            &&& now_ms < b.active@[i].created_at_ms ==> t.duration_ms == 0
            &&& t.time_saved_ms == saved_ms
            &&& t.phase_profile == Some(profile)
        }),
{
}

proof fn stay_and_leave_keep_apart(
    s: Seq<Session>,
    dirs: Seq<Seq<char>>,
    target: Seq<char>,
    k: int,
)
    ensures
        0 <= k < staying(s, dirs, target).len() ==> exists|i: int|
            0 <= i < s.len() && #[trigger] s[i] == staying(s, dirs, target)[k] && !paths::under(
                dirs[i],
                target,
            ),
        0 <= k < leaving(s, dirs, target).len() ==> exists|i: int|
            0 <= i < s.len() && #[trigger] s[i] == leaving(s, dirs, target)[k] && paths::under(
                dirs[i],
                target,
            ),
    decreases s.len(),
{
    if s.len() > 0 {
        let t = s.drop_last();
        stay_and_leave_keep_apart(t, dirs, target, k);
        let stay = staying(t, dirs, target);
        let leave = leaving(t, dirs, target);
        if 0 <= k < stay.len() {
            let i = choose|i: int|
                0 <= i < t.len() && #[trigger] t[i] == stay[k] && !paths::under(dirs[i], target);
            assert(s[i] == stay[k]);
        }
        if 0 <= k < leave.len() {
            let i = choose|i: int|
                0 <= i < t.len() && #[trigger] t[i] == leave[k] && paths::under(dirs[i], target);
            assert(s[i] == leave[k]);
        }
        assert(s[s.len() - 1] == s.last());
    }
}

proof fn dropped_keys_are_gone(
    m: Map<Seq<char>, records::RecordView>,
    keys: Seq<Seq<char>>,
    k: Seq<char>,
)
    ensures
        without(m, keys).contains_key(k) <==> m.contains_key(k) && !keys.contains(k),
        without(m, keys).contains_key(k) ==> without(m, keys)[k] == m[k],
    decreases keys.len(),
{
    if keys.len() > 0 {
        let t = keys.drop_last();
        dropped_keys_are_gone(m, t, k);
        assert(t.push(keys.last()) =~= keys);
        if keys.contains(k) && k != keys.last() {
            let i = choose|i: int| 0 <= i < keys.len() && keys[i] == k;
            assert(t[i] == k);
        }
        if t.contains(k) {
            let i = choose|i: int| 0 <= i < t.len() && t[i] == k;
            assert(keys[i] == k);
        }
        if k == keys.last() {
            assert(keys[keys.len() - 1] == k);
        }
    }
}

/// When a directory is given up, a session that works below it is dropped: its
/// identifier is told, and it and its root are no longer known. A session that
/// works elsewhere stays as it was. The answer counts all sessions, and those
/// that were dropped.
pub proof fn a_release_drops_what_is_below(
    before: SessionBook,
    after: SessionBook,
    owners_before: PrivateDaemonLifecycle,
    owners_after: PrivateDaemonLifecycle,
    target: Seq<char>,
    cache_root: Seq<char>,
    dirs: Seq<Seq<char>>,
    r: Release,
    i: int,
)
    requires
        before.wf(),
        dirs.len() == before.active@.len(),
        !paths::under(cache_root, target),
        worktree_released(
            before,
            after,
            owners_before,
            owners_after,
            target,
            cache_root,
            dirs,
            r,
        ),
        0 <= i < before.active@.len(),
    ensures
        r.response is ReleaseWorktreeHandlesResult,
        r.response->inspected == before.active@.len(),
        r.response->released == r.response->sessions_dropped@.len(),
        r.response->released + after.active@.len() == before.active@.len(),
        !paths::under(dirs[i], target) ==> after.active@.contains(before.active@[i]) && !text::views(
            r.response->sessions_dropped@,
        ).contains(before.active@[i].id@),
        paths::under(dirs[i], target) ==> !after.active@.contains(before.active@[i]) && text::views(
            r.response->sessions_dropped@,
        ).contains(before.active@[i].id@) && !table::contents(after.worktree_roots).contains_key(
            before.active@[i].id@,
        ),
        !paths::under(dirs[i], target) && table::contents(before.worktree_roots).contains_key(
            before.active@[i].id@,
        ) ==> table::contents(after.worktree_roots).contains_key(before.active@[i].id@)
            && table::contents(after.worktree_roots)[before.active@[i].id@] == table::contents(
            before.worktree_roots,
        )[before.active@[i].id@],
{
    let s = before.active@;
    let stay = staying(s, dirs, target);
    let gone = leaving(s, dirs, target);
    let told = ids(gone);
    sessions_stay_or_leave(s, dirs, target, i);
    dropped_keys_are_gone(table::contents(before.worktree_roots), told, s[i].id@);
    assert(told.len() == gone.len());
    assert(text::views(r.response->sessions_dropped@).len() == r.response->sessions_dropped@.len());
    if paths::under(dirs[i], target) {
        let k = choose|k: int| 0 <= k < gone.len() && gone[k] == s[i];
        assert(told[k] == s[i].id@);
        if stay.contains(s[i]) {
            let q = choose|q: int| 0 <= q < stay.len() && stay[q] == s[i];
            stay_and_leave_keep_apart(s, dirs, target, q);
            let j = choose|j: int|
                0 <= j < s.len() && #[trigger] s[j] == stay[q] && !paths::under(dirs[j], target);
            if j < i {
                assert(s[j].id@ != s[i].id@);
            } else if j > i {
                assert(s[i].id@ != s[j].id@);
            }
        }
    } else if told.contains(s[i].id@) {
        let q = choose|q: int| 0 <= q < told.len() && told[q] == s[i].id@;
        stay_and_leave_keep_apart(s, dirs, target, q);
        let j = choose|j: int|
            0 <= j < s.len() && #[trigger] s[j] == gone[q] && paths::under(dirs[j], target);
        assert(s[j].id@ == s[i].id@);
        if j < i {
            assert(s[j].id@ != s[i].id@);
        } else if j > i {
            assert(s[i].id@ != s[j].id@);
        }
    }
}

} // verus!
