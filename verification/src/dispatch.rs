//! What becomes of a request: an answer from what the daemon knows, or a task
//! that takes longer.

use crate::connection;
use crate::connection::{answer_plain, refuse_ended_session, PlainRequest};
use crate::exec_probe;
use crate::exec_probe::{handle_exec_probe, handle_exec_store};
use crate::hash::ContentHash;
use crate::journal::JournalContext;
use crate::protocol;
use crate::protocol::Response;
use crate::sessions;
use crate::sessions::{handle_release_worktree_handles, handle_session_end, handle_session_stats};
use crate::state;
use crate::state::{handle_clear, SharedState};
use crate::stats;
use crate::stats::StatEvent;
use crate::table;
use crate::text;
use vstd::prelude::*;

verus! {

/// A request of a client, with what has to be read for it.
#[derive(Debug)]
pub enum Request {
    /// One that is answered from the state alone.
    Plain(PlainRequest),
    /// Empty the cache.
    Clear {
        /// Bytes that were freed on disk.
        on_disk_bytes: u64,
    },
    /// Begin a session.
    SessionStart,
    /// Show the counters of a session.
    SessionStats {
        /// The session, as the client names it.
        session_id: String,
        /// The session, if the name can be read.
        parsed: Option<String>,
    },
    /// End a session.
    SessionEnd {
        /// The session, as the client names it.
        session_id: String,
        /// The session, if the name can be read.
        parsed: Option<String>,
    },
    /// Compile in a session.
    Compile {
        /// The session, as the client names it.
        session_id: String,
        /// The session, if the name can be read.
        parsed: Option<String>,
        /// Who asks for what.
        context: JournalContext,
    },
    /// Compile outside of a session.
    CompileEphemeral {
        /// Who asks for what.
        context: JournalContext,
    },
    /// Link outside of a session.
    LinkEphemeral {
        /// Who asks for what.
        context: JournalContext,
    },
    /// Release what sessions hold below a directory.
    ReleaseWorktreeHandles {
        /// The directory.
        target: String,
        /// The directory of the cache.
        cache_root: String,
        /// The directory of each session.
        resolved: Vec<String>,
    },
    /// Run a tool.
    GenericToolExec,
    /// Look up the result for declared inputs.
    ExecProbe {
        /// Name of the computation.
        name: String,
        /// The inputs.
        input_files: Vec<String>,
        /// The hash of each input.
        hashes: Vec<Option<ContentHash>>,
        /// The environment.
        input_env: Vec<(String, String)>,
        /// Anything else.
        input_extra: Vec<u8>,
    },
    /// Store the result for declared inputs.
    ExecStore {
        /// The key.
        cache_key_hex: String,
        /// The result.
        result_bytes: Vec<u8>,
    },
    /// Look whether inputs have changed.
    FingerprintCheck,
    /// Note what came of a check.
    FingerprintMark,
}

/// Work for a request that the state alone does not answer.
#[derive(Clone, Copy, Debug, PartialEq, Eq, Structural)]
pub enum Task {
    /// Begin a session.
    StartSession,
    /// Compile in a session.
    Compile,
    /// Compile outside of a session.
    CompileEphemeral,
    /// Link outside of a session.
    LinkEphemeral,
    /// Run a tool.
    RunTool,
    /// Watch a directory, then look whether it has changed.
    CheckFingerprint,
    /// Note what came of a check.
    MarkFingerprint,
}

/// What becomes of a request.
#[derive(Debug)]
pub enum Dispatch {
    /// It is answered.
    Answered {
        /// The answer.
        response: Response,
        /// Session journals that are closed.
        close_journals: Vec<String>,
    },
    /// There is something to do; with a context, its answer goes to the
    /// journal.
    Begun {
        /// What.
        task: Task,
        /// Who asked.
        context: Option<JournalContext>,
    },
}

/// When a request is handled, and what the graph is on disk.
#[derive(Clone, Copy, Debug, PartialEq, Eq, Structural)]
pub struct Moment {
    /// Now, in seconds.
    pub now: u64,
    /// Now, in milliseconds.
    pub now_ms: u64,
    /// Version of the graph's file format.
    pub graph_version: u32,
    /// Size of the graph's file.
    pub graph_disk: u64,
    /// The time that all hits have saved, as it is estimated.
    pub saved_ms: u64,
    /// The time that the hits of the session have saved, where a request names
    /// one.
    pub session_saved_ms: u64,
}

/// What has to be read for a request was read for this state.
pub open spec fn fits(st: SharedState, request: Request) -> bool {
    match request {
        Request::ReleaseWorktreeHandles { resolved, .. } => resolved@.len()
            == st.sessions.active@.len() && st.sessions.active@.len() <= u32::MAX,
        Request::ExecProbe { input_files, hashes, .. } => input_files@.len() == hashes@.len(),
        _ => true,
    }
}

/// A request is answered, and no journal is closed.
pub open spec fn answered(d: Dispatch) -> bool {
    d matches Dispatch::Answered { close_journals, .. } && close_journals@.len() == 0
}

/// A request begins a task.
pub open spec fn begins(d: Dispatch, task: Task, context: Option<JournalContext>) -> bool {
    d matches Dispatch::Begun { task: t, context: c } && t == task && c == context
}

/// The answer to a request.
pub open spec fn answer_of(d: Dispatch) -> Response
    recommends
        d is Answered,
{
    d->response
}

/// The journals that are closed with a request.
pub open spec fn closed_journals(d: Dispatch) -> Seq<Seq<char>> {
    match d {
        Dispatch::Answered { close_journals, .. } => text::views(close_journals@),
        Dispatch::Begun { .. } => Seq::empty(),
    }
}

/// Sessions and owners may have changed; nothing else has.
pub open spec fn sessions_changed(before: SharedState, after: SharedState) -> bool {
    after == (SharedState {
        sessions: after.sessions,
        private_daemon: after.private_daemon,
        ..before
    })
}

/// A session in which the client may not compile any more.
pub open spec fn has_ended(st: SharedState, parsed: Option<String>) -> bool {
    parsed matches Some(id) && text::views(st.sessions.ended@).contains(id@)
}

/// A request to compile or to link, in a session that has not ended.
pub open spec fn asks_to_build(st: SharedState, request: Request) -> bool {
    match request {
        Request::Compile { parsed, .. } => !has_ended(st, parsed),
        Request::CompileEphemeral { .. } => true,
        Request::LinkEphemeral { .. } => true,
        _ => false,
    }
}

/// The answer to what begins goes to the journal.
pub open spec fn goes_to_journal(d: Dispatch) -> bool {
    d matches Dispatch::Begun { context, .. } && context is Some
}

fn close_one(journal: Option<String>) -> (r: Vec<String>)
    ensures
        text::views(r@) == match journal {
            Some(p) => seq![p@],
            None => Seq::empty(),
        },
{
    let mut r: Vec<String> = Vec::new();
    if let Some(p) = journal {
        r.push(p);
    }
    assert(text::views(r@) =~= match journal {
        Some(p) => seq![p@],
        None => Seq::empty(),
    });
    r
}

/// Whether a session was ended, and its journal is closed.
pub open spec fn ends_session(
    before: SharedState,
    after: SharedState,
    session_id: Seq<char>,
    parsed: Option<Seq<char>>,
    at: Moment,
    r: Dispatch,
) -> bool {
    &&& sessions_changed(before, after)
    &&& r is Answered
    &&& exists|e: sessions::SessionEnding| #[trigger]
        sessions::session_ended(
            before.sessions,
            after.sessions,
            before.private_daemon,
            after.private_daemon,
            session_id,
            parsed,
            at.now_ms,
            at.session_saved_ms,
            before.profiler,
            e,
        ) && answer_of(r) == e.response && closed_journals(r) == (
        match e.close_journal {
            Some(p) => seq![p@],
            None => Seq::empty(),
        })
}

/// Whether the sessions below a directory were ended, and their journals are
/// closed.
pub open spec fn releases_handles(
    before: SharedState,
    after: SharedState,
    target: Seq<char>,
    cache_root: Seq<char>,
    resolved: Seq<Seq<char>>,
    r: Dispatch,
) -> bool {
    &&& sessions_changed(before, after)
    &&& r is Answered
    &&& exists|e: sessions::Release| #[trigger]
        sessions::worktree_released(
            before.sessions,
            after.sessions,
            before.private_daemon,
            after.private_daemon,
            target,
            cache_root,
            resolved,
            e,
        ) && answer_of(r) == e.response && closed_journals(r) == text::views(
            e.close_journals@,
        )
}

/// Whether this becomes of a request, and of the state of the daemon.
pub open spec fn dispatched(
    before: SharedState,
    after: SharedState,
    request: Request,
    at: Moment,
    r: Dispatch,
) -> bool {
    match request {
        Request::Plain(plain) => {
            &&& after == before
            &&& answered(r)
            &&& connection::plain_answer(
                before,
                plain,
                at.now,
                at.graph_version,
                at.graph_disk,
                at.saved_ms,
                answer_of(r),
            )
        },
        Request::Clear { on_disk_bytes } => answered(r) && state::cleared(
            before,
            after,
            on_disk_bytes,
            answer_of(r),
        ),
        Request::SessionStart => {
            &&& begins(r, Task::StartSession, None)
            &&& after == (SharedState {
                stats: stats::counted(before.stats, StatEvent::Session),
                ..before
            })
        },
        Request::SessionStats { session_id, parsed } => {
            &&& after == before
            &&& answered(r)
            &&& sessions::stats_answer(
                before.sessions,
                session_id@,
                text::opt_view(parsed),
                at.now_ms,
                at.session_saved_ms,
                before.profiler,
                answer_of(r),
            )
        },
        Request::SessionEnd { session_id, parsed } => ends_session(
            before,
            after,
            session_id@,
            text::opt_view(parsed),
            at,
            r,
        ),
        Request::Compile { session_id, parsed, context } => {
            &&& after == before
            &&& if has_ended(before, parsed) {
                answered(r) && protocol::is_error(
                    answer_of(r),
                    "unknown session: "@ + session_id@,
                )
            } else {
                begins(r, Task::Compile, Some(context))
            }
        },
        Request::CompileEphemeral { context } => after == before && begins(
            r,
            Task::CompileEphemeral,
            Some(context),
        ),
        Request::LinkEphemeral { context } => after == before && begins(
            r,
            Task::LinkEphemeral,
            Some(context),
        ),
        Request::ReleaseWorktreeHandles { target, cache_root, resolved } => releases_handles(
            before,
            after,
            target@,
            cache_root@,
            text::views(resolved@),
            r,
        ),
        Request::GenericToolExec => after == before && begins(r, Task::RunTool, None),
        Request::ExecProbe { name, input_files, hashes, input_env, input_extra } => {
            &&& after == before
            &&& answered(r)
            &&& exec_probe::probe_answer(
                table::contents(before.exec_cache),
                (exec_probe::ProbeInputs {
                    name: name@,
                    files: exec_probe::hashed_files(input_files@, hashes@),
                    env: text::pair_views(input_env@),
                    extra: input_extra@,
                }),
                input_files@,
                hashes@,
                answer_of(r),
            )
        },
        Request::ExecStore { cache_key_hex, result_bytes } => {
            &&& after == (SharedState { exec_cache: after.exec_cache, ..before })
            &&& answered(r)
            &&& exec_probe::store_answer(
                before.exec_cache,
                after.exec_cache,
                cache_key_hex@,
                result_bytes@,
                answer_of(r),
            )
        },
        Request::FingerprintCheck => after == before && begins(
            r,
            Task::CheckFingerprint,
            None,
        ),
        Request::FingerprintMark => after == before && begins(
            r,
            Task::MarkFingerprint,
            None,
        ),
    }
}

fn end_session(st: &mut SharedState, session_id: String, parsed: Option<String>, at: Moment) -> (d:
    Dispatch)
    requires
        old(st).wf(),
    ensures
        final(st).wf(),
        ends_session(*old(st), *final(st), session_id@, text::opt_view(parsed), at, d),
{
    let id = match &parsed {
        Some(id) => Some(id.as_str()),
        None => None,
    };
    let profile = st.profiler;
    let ending = handle_session_end(
        &mut st.sessions,
        &mut st.private_daemon,
        session_id.as_str(),
        id,
        at.now_ms,
        at.session_saved_ms,
        profile,
    );
    let ghost e = ending;
    let d = Dispatch::Answered {
        response: ending.response,
        close_journals: close_one(ending.close_journal),
    };
    assert(sessions::session_ended(
        old(st).sessions,
        st.sessions,
        old(st).private_daemon,
        st.private_daemon,
        session_id@,
        text::opt_view(parsed),
        at.now_ms,
        at.session_saved_ms,
        old(st).profiler,
        e,
    ) && answer_of(d) == e.response);
    d
}

fn release_handles(
    st: &mut SharedState,
    target: String,
    cache_root: String,
    resolved: Vec<String>,
) -> (d: Dispatch)
    requires
        old(st).wf(),
        fits(*old(st), (Request::ReleaseWorktreeHandles { target, cache_root, resolved })),
    ensures
        final(st).wf(),
        releases_handles(
            *old(st),
            *final(st),
            target@,
            cache_root@,
            text::views(resolved@),
            d,
        ),
{
    let release = handle_release_worktree_handles(
        &mut st.sessions,
        &mut st.private_daemon,
        target.as_str(),
        cache_root.as_str(),
        resolved.as_slice(),
    );
    let ghost e = release;
    let d = Dispatch::Answered {
        response: release.response,
        close_journals: release.close_journals,
    };
    assert(sessions::worktree_released(
        old(st).sessions,
        st.sessions,
        old(st).private_daemon,
        st.private_daemon,
        target@,
        cache_root@,
        text::views(resolved@),
        e,
    ) && answer_of(d) == e.response);
    d
}

/// What becomes of a request. Only compilations and links go to the journal.
pub fn dispatch(st: &mut SharedState, request: Request, at: Moment) -> (r: Dispatch)
    requires
        old(st).wf(),
        fits(*old(st), request),
    ensures
        final(st).wf(),
        goes_to_journal(r) == asks_to_build(*old(st), request),
        dispatched(*old(st), *final(st), request, at, r),
{
    match request {
        Request::Plain(plain) => Dispatch::Answered {
            response: answer_plain(
                st,
                plain,
                at.now,
                at.graph_version,
                at.graph_disk,
                at.saved_ms,
            ),
            close_journals: Vec::new(),
        },
        Request::Clear { on_disk_bytes } => Dispatch::Answered {
            response: handle_clear(st, on_disk_bytes),
            close_journals: Vec::new(),
        },
        Request::SessionStart => {
            st.stats.record(StatEvent::Session);
            Dispatch::Begun { task: Task::StartSession, context: None }
        },
        Request::SessionStats { session_id, parsed } => {
            let id = match &parsed {
                Some(id) => Some(id.as_str()),
                None => None,
            };
            Dispatch::Answered {
                response: handle_session_stats(
                    &st.sessions,
                    session_id.as_str(),
                    id,
                    at.now_ms,
                    at.session_saved_ms,
                    st.profiler,
                ),
                close_journals: Vec::new(),
            }
        },
        Request::SessionEnd { session_id, parsed } => end_session(st, session_id, parsed, at),
        Request::Compile { session_id, parsed, context } => {
            let id = match &parsed {
                Some(id) => Some(id.as_str()),
                None => None,
            };
            match refuse_ended_session(&st.sessions, session_id.as_str(), id) {
                Some(response) => Dispatch::Answered { response, close_journals: Vec::new() },
                None => Dispatch::Begun { task: Task::Compile, context: Some(context) },
            }
        },
        Request::CompileEphemeral { context } => Dispatch::Begun {
            task: Task::CompileEphemeral,
            context: Some(context),
        },
        Request::LinkEphemeral { context } => Dispatch::Begun {
            task: Task::LinkEphemeral,
            context: Some(context),
        },
        Request::ReleaseWorktreeHandles { target, cache_root, resolved } => release_handles(
            st,
            target,
            cache_root,
            resolved,
        ),
        Request::GenericToolExec => Dispatch::Begun { task: Task::RunTool, context: None },
        Request::ExecProbe { name, input_files, hashes, input_env, input_extra } => {
            Dispatch::Answered {
                response: handle_exec_probe(
                    &st.exec_cache,
                    name.as_str(),
                    input_files.as_slice(),
                    hashes.as_slice(),
                    input_env.as_slice(),
                    input_extra.as_slice(),
                ),
                close_journals: Vec::new(),
            }
        },
        Request::ExecStore { cache_key_hex, result_bytes } => Dispatch::Answered {
            response: handle_exec_store(&mut st.exec_cache, cache_key_hex.as_str(), result_bytes),
            close_journals: Vec::new(),
        },
        Request::FingerprintCheck => Dispatch::Begun {
            task: Task::CheckFingerprint,
            context: None,
        },
        Request::FingerprintMark => Dispatch::Begun { task: Task::MarkFingerprint, context: None },
    }
}

/// A request is answered by what it asks for: a session that is to begin is
/// counted and begun, one that was ended is refused a compilation, and what
/// takes longer is begun with what its journal needs. What only asks changes
/// nothing.
pub proof fn requests_get_what_they_ask_for(
    before: SharedState,
    after: SharedState,
    request: Request,
    at: Moment,
    r: Dispatch,
)
    requires
        dispatched(before, after, request, at, r),
    ensures
        request is SessionStart ==> r is Begun && r->task is StartSession
            && after.stats.sessions_total == stats::grown(before.stats.sessions_total, 1)
            && after.stats.hits == before.stats.hits && after.sessions == before.sessions,
        request is Compile && !(request->Compile_parsed is Some && text::views(
            before.sessions.ended@,
        ).contains(request->Compile_parsed->0@)) ==> r is Begun && r->task is Compile && r->context
            == Some(request->Compile_context),
        request is Compile && request->Compile_parsed is Some && text::views(
            before.sessions.ended@,
        ).contains(request->Compile_parsed->0@) ==> r is Answered && r->response is Error,
        request is CompileEphemeral ==> r is Begun && r->task is CompileEphemeral && r->context
            == Some(request->CompileEphemeral_context),
        request is LinkEphemeral ==> r is Begun && r->task is LinkEphemeral && r->context == Some(
            request->LinkEphemeral_context,
        ),
        request is GenericToolExec ==> r is Begun && r->task is RunTool && r->context is None,
        request is FingerprintCheck ==> r is Begun && r->task is CheckFingerprint,
        request is FingerprintMark ==> r is Begun && r->task is MarkFingerprint,
        request is Clear || request is Plain || request is SessionStats || request is SessionEnd
            || request is ExecProbe || request is ExecStore || request is ReleaseWorktreeHandles
            ==> r is Answered,
        request is Plain || request is SessionStats || request is Compile || request
            is CompileEphemeral || request is LinkEphemeral || request is ExecProbe || request
            is GenericToolExec || request is FingerprintCheck || request is FingerprintMark
            ==> after == before,
        request is ExecStore ==> after.artifacts == before.artifacts && after.stats == before.stats,
        request is SessionEnd ==> after.stats == before.stats && after.artifacts
            == before.artifacts,
        request is Plain && request->Plain_0 is Ping ==> r->response is Pong,
        request is Clear ==> r->response is Cleared,
{
}

} // verus!
