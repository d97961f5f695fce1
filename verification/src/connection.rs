//! The course of a connection: requests are answered one after the other, on
//! the wire on which they came, until the client leaves.

use crate::journal;
use crate::journal::{compile_miss_reason, derive_approx_spans, JournalContext, JournalEntry, SelfProfileNs};
use crate::lifecycle::IpcError;
use crate::outcome;
use crate::outcome::extract_outcome;
use crate::protocol;
use crate::protocol::{unknown_session, LookupResult, Response, StoreResult};
use crate::sessions;
use crate::sessions::SessionBook;
use crate::state;
use crate::state::{list_rust_artifacts, status_snapshot, SharedState};
use crate::table;
use crate::text;
use crate::text::render_decimal;
use vstd::prelude::*;
use vstd::string::*;

verus! {

/// How long a connection waits for the next request, in seconds.
pub const SERVER_REQUEST_RECV_TIMEOUT_SECS: u64 = 600;

/// The wire on which a request came.
#[derive(Clone, Debug, PartialEq, Eq)]
pub enum RequestWire {
    /// The older encoding, without identifiers.
    BincodeV15,
    /// The newer encoding.
    ProstV16 {
        /// Identifier of the request.
        request_id: String,
    },
    /// The newer encoding in a frame.
    FrameV1 {
        /// Identifier of the frame.
        frame_request_id: u64,
        /// Identifier of the request.
        request_id: String,
    },
}

/// The wire on which an answer goes: that of its request, with the same
/// identifiers.
pub fn send_response_for_wire(wire: &RequestWire) -> (r: RequestWire)
    ensures
        match *wire {
            RequestWire::BincodeV15 => r is BincodeV15,
            RequestWire::ProstV16 { request_id } => r is ProstV16 && r->ProstV16_request_id@
                == request_id@,
            RequestWire::FrameV1 { frame_request_id, request_id } => r is FrameV1
                && r->frame_request_id == frame_request_id && r->FrameV1_request_id@
                == request_id@,
        },
{
    match wire {
        RequestWire::BincodeV15 => RequestWire::BincodeV15,
        RequestWire::ProstV16 { request_id } => RequestWire::ProstV16 {
            request_id: request_id.clone(),
        },
        RequestWire::FrameV1 { frame_request_id, request_id } => RequestWire::FrameV1 {
            frame_request_id: *frame_request_id,
            request_id: request_id.clone(),
        },
    }
}

/// How a connection ended.
#[derive(Clone, Copy, Debug, PartialEq, Eq, Structural)]
pub enum ConnectionEnd {
    /// In good order.
    Closed,
    /// With an error of the transport.
    Broken,
    /// With a client of another version.
    Mismatch,
}

/// Where a connection stands; each stage but the last is something to do.
#[derive(Clone, Copy, Debug, PartialEq, Eq, Structural)]
pub enum ConnectionStage {
    /// See whether the client only asks who is there.
    Probe,
    /// Wait for a request.
    Receive,
    /// Say that the versions differ.
    ReplyMismatch,
    /// Say that the request cannot be read.
    ReplyUnreadable,
    /// Say that the daemon shuts down.
    ReplyShutdown,
    /// Handle the request.
    Handle,
    /// Send the answer.
    Reply,
    /// Over.
    Done(ConnectionEnd),
}

/// What came of a stage.
#[derive(Clone, Copy, Debug, PartialEq, Eq, Structural)]
pub enum ConnectionEvent {
    /// It was done.
    Finished,
    /// The client asked who is there, and was answered.
    ProbeServed,
    /// No request came in time.
    TimedOut,
    /// The client speaks another version.
    VersionMismatch,
    /// The transport failed.
    Failed,
    /// The client has left.
    Disconnected,
    /// A message came that is no request.
    Unreadable,
    /// The client asks the daemon to shut down.
    ShutdownRequest,
    /// Another request came.
    Request,
}

/// What a stage leaves behind.
#[derive(Clone, Copy, Debug, PartialEq, Eq, Structural)]
pub struct ConnectionEffects {
    /// Whether the daemon was in use.
    pub touch_activity: bool,
    /// Whether the daemon shuts down.
    pub shut_down: bool,
    /// Whether the journal gets a line for the request, if it is of a kind
    /// that it shows.
    pub journal: bool,
}

/// Nothing is left behind.
pub open spec fn quiet() -> ConnectionEffects {
    ConnectionEffects { touch_activity: false, shut_down: false, journal: false }
}

/// The daemon was in use.
pub open spec fn active() -> ConnectionEffects {
    ConnectionEffects { touch_activity: true, ..quiet() }
}

/// The next stage and what is left behind. An event that a stage does not
/// expect changes nothing.
pub open spec fn connection_next(stage: ConnectionStage, e: ConnectionEvent) -> (
    ConnectionStage,
    ConnectionEffects,
) {
    match stage {
        ConnectionStage::Probe => match e {
            ConnectionEvent::ProbeServed => (
                ConnectionStage::Done(ConnectionEnd::Closed),
                active(),
            ),
            ConnectionEvent::Finished => (ConnectionStage::Receive, quiet()),
            ConnectionEvent::Failed => (ConnectionStage::Done(ConnectionEnd::Broken), quiet()),
            _ => (stage, quiet()),
        },
        ConnectionStage::Receive => match e {
            ConnectionEvent::TimedOut => (ConnectionStage::Done(ConnectionEnd::Closed), quiet()),
            ConnectionEvent::Disconnected => (
                ConnectionStage::Done(ConnectionEnd::Closed),
                quiet(),
            ),
            ConnectionEvent::VersionMismatch => (ConnectionStage::ReplyMismatch, quiet()),
            ConnectionEvent::Failed => (ConnectionStage::Done(ConnectionEnd::Broken), quiet()),
            ConnectionEvent::Unreadable => (ConnectionStage::ReplyUnreadable, active()),
            ConnectionEvent::ShutdownRequest => (ConnectionStage::ReplyShutdown, active()),
            ConnectionEvent::Request => (ConnectionStage::Handle, active()),
            _ => (stage, quiet()),
        },
        ConnectionStage::ReplyMismatch => match e {
            ConnectionEvent::Finished | ConnectionEvent::Failed => (
                ConnectionStage::Done(ConnectionEnd::Mismatch),
                quiet(),
            ),
            _ => (stage, quiet()),
        },
        ConnectionStage::ReplyUnreadable => match e {
            ConnectionEvent::Finished => (ConnectionStage::Receive, quiet()),
            ConnectionEvent::Failed => (ConnectionStage::Done(ConnectionEnd::Broken), quiet()),
            _ => (stage, quiet()),
        },
        ConnectionStage::ReplyShutdown => match e {
            ConnectionEvent::Finished => (
                ConnectionStage::Done(ConnectionEnd::Closed),
                ConnectionEffects { shut_down: true, ..quiet() },
            ),
            ConnectionEvent::Failed => (ConnectionStage::Done(ConnectionEnd::Broken), quiet()),
            _ => (stage, quiet()),
        },
        ConnectionStage::Handle => match e {
            ConnectionEvent::Finished => (ConnectionStage::Reply, quiet()),
            _ => (stage, quiet()),
        },
        ConnectionStage::Reply => match e {
            ConnectionEvent::Finished => (
                ConnectionStage::Receive,
                ConnectionEffects { journal: true, ..quiet() },
            ),
            ConnectionEvent::Failed => (
                ConnectionStage::Done(ConnectionEnd::Broken),
                ConnectionEffects { journal: true, ..quiet() },
            ),
            _ => (stage, quiet()),
        },
        ConnectionStage::Done(_) => (stage, quiet()),
    }
}

/// The next stage of a connection, which begins with
/// [`ConnectionStage::Probe`], and what this one leaves behind.
pub fn next_connection_stage(stage: ConnectionStage, e: ConnectionEvent) -> (r: (
    ConnectionStage,
    ConnectionEffects,
))
    ensures
        r == connection_next(stage, e),
{
    let none = ConnectionEffects { touch_activity: false, shut_down: false, journal: false };
    let used = ConnectionEffects { touch_activity: true, shut_down: false, journal: false };
    let line = ConnectionEffects { touch_activity: false, shut_down: false, journal: true };
    match stage {
        ConnectionStage::Probe => match e {
            ConnectionEvent::ProbeServed => (ConnectionStage::Done(ConnectionEnd::Closed), used),
            ConnectionEvent::Finished => (ConnectionStage::Receive, none),
            ConnectionEvent::Failed => (ConnectionStage::Done(ConnectionEnd::Broken), none),
            _ => (stage, none),
        },
        ConnectionStage::Receive => match e {
            ConnectionEvent::TimedOut => (ConnectionStage::Done(ConnectionEnd::Closed), none),
            ConnectionEvent::Disconnected => (ConnectionStage::Done(ConnectionEnd::Closed), none),
            ConnectionEvent::VersionMismatch => (ConnectionStage::ReplyMismatch, none),
            ConnectionEvent::Failed => (ConnectionStage::Done(ConnectionEnd::Broken), none),
            ConnectionEvent::Unreadable => (ConnectionStage::ReplyUnreadable, used),
            ConnectionEvent::ShutdownRequest => (ConnectionStage::ReplyShutdown, used),
            ConnectionEvent::Request => (ConnectionStage::Handle, used),
            _ => (stage, none),
        },
        ConnectionStage::ReplyMismatch => match e {
            ConnectionEvent::Finished | ConnectionEvent::Failed => (
                ConnectionStage::Done(ConnectionEnd::Mismatch),
                none,
            ),
            _ => (stage, none),
        },
        ConnectionStage::ReplyUnreadable => match e {
            ConnectionEvent::Finished => (ConnectionStage::Receive, none),
            ConnectionEvent::Failed => (ConnectionStage::Done(ConnectionEnd::Broken), none),
            _ => (stage, none),
        },
        ConnectionStage::ReplyShutdown => match e {
            ConnectionEvent::Finished => (
                ConnectionStage::Done(ConnectionEnd::Closed),
                ConnectionEffects { touch_activity: false, shut_down: true, journal: false },
            ),
            ConnectionEvent::Failed => (ConnectionStage::Done(ConnectionEnd::Broken), none),
            _ => (stage, none),
        },
        ConnectionStage::Handle => match e {
            ConnectionEvent::Finished => (ConnectionStage::Reply, none),
            _ => (stage, none),
        },
        ConnectionStage::Reply => match e {
            ConnectionEvent::Finished => (ConnectionStage::Receive, line),
            ConnectionEvent::Failed => (ConnectionStage::Done(ConnectionEnd::Broken), line),
            _ => (stage, none),
        },
        ConnectionStage::Done(_) => (stage, none),
    }
}

/// The stage after several events.
pub open spec fn connection_run(events: Seq<ConnectionEvent>) -> ConnectionStage
    decreases events.len(),
{
    if events.len() == 0 {
        ConnectionStage::Probe
    } else {
        connection_next(connection_run(events.drop_last()), events.last()).0
    }
}

/// How many requests were taken in.
pub open spec fn requests_taken(events: Seq<ConnectionEvent>) -> nat
    decreases events.len(),
{
    if events.len() == 0 {
        0
    } else {
        requests_taken(events.drop_last()) + if connection_run(events.drop_last()) is Receive
            && events.last() is Request {
            1nat
        } else {
            0
        }
    }
}

/// How many lines the journal was offered.
pub open spec fn lines_offered(events: Seq<ConnectionEvent>) -> nat
    decreases events.len(),
{
    if events.len() == 0 {
        0
    } else {
        lines_offered(events.drop_last()) + if connection_next(
            connection_run(events.drop_last()),
            events.last(),
        ).1.journal {
            1nat
        } else {
            0
        }
    }
}

/// Every request that was taken in is offered to the journal once, after its
/// answer was sent or could not be sent: at any moment at most the request in
/// work is missing.
pub proof fn requests_reach_the_journal(events: Seq<ConnectionEvent>)
    ensures
        requests_taken(events) == lines_offered(events) + if connection_run(events) is Handle
            || connection_run(events) is Reply {
            1nat
        } else {
            0
        },
    decreases events.len(),
{
    if events.len() > 0 {
        requests_reach_the_journal(events.drop_last());
    }
}

/// The daemon shuts down only after it has said so, and the connection is over
/// then.
pub proof fn shutdowns_are_announced(stage: ConnectionStage, e: ConnectionEvent)
    ensures
        connection_next(stage, e).1.shut_down ==> stage is ReplyShutdown && e is Finished
            && connection_next(stage, e).0 == ConnectionStage::Done(ConnectionEnd::Closed),
        stage is Done ==> connection_next(stage, e) == (stage, quiet()),
{
}

/// What is said to a client of another version.
pub open spec fn mismatch_text(daemon_crate: Seq<char>, expected: nat, received: nat) -> Seq<char> {
    "protocol version mismatch: daemon zccache v"@ + daemon_crate + " (protocol v"@ + text::decimal(
        expected,
    ) + ") received a request at protocol v"@ + text::decimal(received)
        + ". Run `zccache stop` and retry — the CLI you connected with is built against a different PROTOCOL_VERSION than this daemon."@
}

/// What is said to a client of another version, and how the connection ends.
pub fn version_mismatch(daemon_crate: &str, expected: u32, received: u32) -> (r: (
    Response,
    IpcError,
))
    ensures
        protocol::is_error(
            r.0,
            mismatch_text(daemon_crate@, expected as nat, received as nat),
        ),
        r.1 == (IpcError::VersionMismatch { expected, received }),
{
    let mut m = "protocol version mismatch: daemon zccache v".to_owned();
    m.append(daemon_crate);
    m.append(" (protocol v");
    let e = render_decimal(expected as u128);
    m.append(e.as_str());
    m.append(") received a request at protocol v");
    let v = render_decimal(received as u128);
    m.append(v.as_str());
    m.append(
        ". Run `zccache stop` and retry — the CLI you connected with is built against a different PROTOCOL_VERSION than this daemon.",
    );
    (Response::Error { message: m }, IpcError::VersionMismatch { expected, received })
}

/// Records that the daemon shuts down. Says whether the event log gets a line:
/// only for the first of several requests.
pub fn begin_shutdown(logged: &mut bool, requested: &mut bool) -> (write_event: bool)
    ensures
        write_event == !*old(logged),
        *final(logged),
        *final(requested),
{
    let first = !*logged;
    *logged = true;
    *requested = true;
    first
}

/// A request that is answered from the state alone.
#[derive(Clone, Copy, Debug, PartialEq, Eq, Structural)]
pub enum PlainRequest {
    /// Is the daemon alive?
    Ping,
    /// What is the state of the daemon?
    Status,
    /// What is stored under a key?
    Lookup,
    /// Store something under a key.
    Store,
    /// Which artifacts look like Rust outputs?
    ListRustArtifacts,
}

/// The answer to a request that the state alone answers.
pub open spec fn plain_answer(
    st: SharedState,
    request: PlainRequest,
    now: u64,
    version: u32,
    disk: u64,
    saved_ms: u64,
    r: Response,
) -> bool {
    match request {
        PlainRequest::Ping => r is Pong,
        PlainRequest::Status => r matches Response::Status(s) && state::shows(
            st,
            s,
            now,
            version,
            disk,
            saved_ms,
        ),
        PlainRequest::Lookup => r == Response::LookupResult(LookupResult::Miss),
        PlainRequest::Store => r == Response::StoreResult(StoreResult::Stored),
        PlainRequest::ListRustArtifacts => r matches Response::RustArtifactList { artifacts }
            && state::is_rust_list(table::contents(st.artifacts), artifacts@),
    }
}

/// Answers a request from the state alone. Values are not stored by key: a
/// lookup always misses, and a store is accepted.
pub fn answer_plain(
    st: &SharedState,
    request: PlainRequest,
    now: u64,
    version: u32,
    disk: u64,
    saved_ms: u64,
) -> (r: Response)
    ensures
        plain_answer(*st, request, now, version, disk, saved_ms, r),
{
    match request {
        PlainRequest::Ping => Response::Pong,
        PlainRequest::Status => Response::Status(
            status_snapshot(st, now, version, disk, saved_ms),
        ),
        PlainRequest::Lookup => Response::LookupResult(LookupResult::Miss),
        PlainRequest::Store => Response::StoreResult(StoreResult::Stored),
        PlainRequest::ListRustArtifacts => Response::RustArtifactList {
            artifacts: list_rust_artifacts(&st.artifacts),
        },
    }
}

/// The answer to a compilation in a session that its client has ended; nothing
/// for any other session, known or not.
pub fn refuse_ended_session(book: &SessionBook, raw: &str, parsed: Option<&str>) -> (r: Option<
    Response,
>)
    ensures
        r is Some == (parsed is Some && text::views(book.ended@).contains(parsed->0@)),
        r is Some ==> protocol::is_error(r->0, "unknown session: "@ + raw@),
{
    match parsed {
        Some(id) => if book.has_ended(id) {
            Some(unknown_session(raw))
        } else {
            None
        },
        None => None,
    }
}

/// A line for the journals.
#[derive(Debug)]
pub struct JournalRecord {
    /// The line.
    pub entry: JournalEntry,
    /// The session's own journal.
    pub session_journal: Option<String>,
}

/// The journal of a session, and whether it shows where time went.
pub open spec fn journal_of(s: Seq<sessions::Session>, id: Option<Seq<char>>) -> (Option<Seq<char>>, bool)
    decreases s.len(),
{
    if s.len() == 0 || id is None {
        (None, false)
    } else if s.last().id@ == id->0 {
        (text::opt_view(s.last().journal_path), s.last().profile)
    } else {
        journal_of(s.drop_last(), id)
    }
}

fn session_journal(book: &SessionBook, parsed: Option<&str>) -> (r: (Option<String>, bool))
    requires
        book.wf(),
    ensures
        (text::opt_view(r.0), r.1) == journal_of(
            book.active@,
            match parsed {
                Some(id) => Some(id@),
                None => None,
            },
        ),
{
    let id = match parsed {
        Some(id) => id,
        None => {
            return (None, false);
        },
    };
    let ghost all = book.active@;
    let mut i: usize = book.active.len();
    assert(all.take(i as int) =~= all);
    while i > 0
        invariant
            i <= book.active@.len(),
            parsed == Some(id),
            all == book.active@,
            journal_of(all, Some(id@)) == journal_of(all.take(i as int), Some(id@)),
        decreases i,
    {
        assert(all.take(i as int).drop_last() =~= all.take(i - 1));
        let s = &book.active[i - 1];
        if crate::text::str_eq(s.id.as_str(), id) {
            assert(all.take(i as int).last() == *s);
            return (s.journal_path.clone(), s.profile);
        }
        i = i - 1;
    }
    (None, false)
}

/// The reason of a miss as the journal shows it.
pub open spec fn shown_reason(
    outcome: Seq<char>,
    reason: Option<Seq<char>>,
    non_cacheable: bool,
) -> Option<Seq<char>> {
    if outcome == "miss"@ && reason == Some(crate::miss_reason::UNKNOWN@) && non_cacheable {
        Some(crate::miss_reason::UNCACHEABLE_INPUT@)
    } else {
        reason
    }
}

/// Whether a line shows where the time of a request went.
pub open spec fn profiled(
    e: JournalEntry,
    args: Seq<Seq<char>>,
    outcome: Seq<char>,
    latency_ns: u128,
) -> bool {
    let crate_type = journal::value_after(args, "--crate-type"@);
    &&& text::opt_view(e.crate_name) == journal::value_after(args, "--crate-name"@)
    &&& text::opt_view(e.crate_type) == crate_type
    &&& text::opt_view(e.output_ext) == journal::ext_of_type(crate_type)
    &&& e.miss_diff is Some == journal::is_miss(outcome)
    &&& e.miss_diff matches Some(d) ==> journal::no_changes(d)
    &&& e.self_profile_ns == match journal::approx_spans(outcome, latency_ns) {
        Some(s) => Some(
            SelfProfileNs {
                hash_inputs: s.hash_inputs_ns,
                lookup: s.lookup_ns,
                decompress: s.decompress_ns,
                store: s.store_ns,
            },
        ),
        None => None,
    }
}

/// Whether a line shows nothing beyond the request and its outcome.
pub open spec fn unprofiled(e: JournalEntry) -> bool {
    e.crate_name is None && e.crate_type is None && e.output_ext is None && e.miss_diff is None
        && e.self_profile_ns is None
}

/// Whether this is the line that the journals get for a request and its answer.
pub open spec fn is_record(
    r: Option<JournalRecord>,
    ctx: JournalContext,
    response: Response,
    non_cacheable: bool,
    latency_ns: u128,
    active: Seq<sessions::Session>,
    parsed_session: Option<Seq<char>>,
) -> bool {
    &&& r is Some == outcome::outcome_of(response) is Some
    &&& r is Some ==> {
        let o = outcome::outcome_of(response)->0;
        let j = journal_of(active, parsed_session);
        let e = r->0.entry;
        &&& text::opt_view(r->0.session_journal) == j.0
        &&& e.outcome@ == o.0
        &&& e.exit_code == o.1
        &&& e.latency_ns == latency_ns
        &&& e.compiler == ctx.compiler
        &&& e.args == ctx.args
        &&& e.cwd == ctx.cwd
        &&& e.env == ctx.env
        &&& e.session_id == ctx.session_id
        &&& text::opt_view(e.miss_reason) == shown_reason(o.0, o.2, non_cacheable)
        &&& if j.1 {
            profiled(e, text::views(ctx.args@), o.0, latency_ns)
        } else {
            unprofiled(e)
        }
    }
}

/// The line that the journals get for a request and its answer: nothing for an
/// answer that is neither a compile, a link nor an error. In a session that
/// asks for it the line shows where the time went.
pub fn journal_payload(
    ctx: JournalContext,
    response: &Response,
    non_cacheable: bool,
    latency_ns: u128,
    book: &SessionBook,
    parsed_session: Option<&str>,
) -> (r: Option<JournalRecord>)
    requires
        book.wf(),
    ensures
        is_record(
            r,
            ctx,
            *response,
            non_cacheable,
            latency_ns,
            book.active@,
            text::opt_str(parsed_session),
        ),
{
    let (name, exit_code, reason) = match extract_outcome(response) {
        Some(o) => o,
        None => {
            return None;
        },
    };
    let shown = compile_miss_reason(name, reason, non_cacheable);
    let (session_journal, profile) = session_journal(book, parsed_session);
    let entry = JournalEntry::new(ctx, name, exit_code, latency_ns, shown);
    let entry = if profile {
        entry.with_profile_fields(derive_approx_spans(name, latency_ns))
    } else {
        entry
    };
    Some(JournalRecord { entry, session_journal })
}

/// An answer goes out on the wire on which its request came, with the request's
/// own identifiers.
pub proof fn answers_carry_the_identifiers_of_the_request(wire: &RequestWire, r: RequestWire)
    requires
        call_ensures(send_response_for_wire, (wire,), r),
    ensures
        wire is BincodeV15 <==> r is BincodeV15,
        wire is ProstV16 <==> r is ProstV16,
        wire is FrameV1 <==> r is FrameV1,
        wire is ProstV16 ==> r->ProstV16_request_id@ == wire->ProstV16_request_id@,
        wire is FrameV1 ==> r->frame_request_id == wire->frame_request_id && r->FrameV1_request_id@
            == wire->FrameV1_request_id@,
{
}

/// A connection takes requests one after the other: each is handled and then
/// answered before the next is taken. What cannot be read is answered and the
/// connection goes on; another version is answered and it ends; a failure to
/// answer ends it. Only what comes from a client counts as activity.
pub proof fn connections_take_their_course(stage: ConnectionStage, e: ConnectionEvent)
    ensures
        ({
            let next = connection_next(stage, e);
            &&& stage is Receive && e is Request ==> next.0 is Handle && next.1.touch_activity
            &&& stage is Handle && e is Finished ==> next.0 is Reply
            &&& stage is Reply && e is Finished ==> next.0 is Receive && next.1.journal
            &&& stage is Reply && e is Failed ==> next.0 == ConnectionStage::Done(
                ConnectionEnd::Broken,
            ) && next.1.journal
            &&& stage is Receive && e is Unreadable ==> next.0 is ReplyUnreadable
                && next.1.touch_activity
            &&& stage is ReplyUnreadable && e is Finished ==> next.0 is Receive
            &&& stage is Receive && e is VersionMismatch ==> next.0 is ReplyMismatch
                && !next.1.touch_activity
            &&& stage is ReplyMismatch && (e is Finished || e is Failed) ==> next.0
                == ConnectionStage::Done(ConnectionEnd::Mismatch)
            &&& stage is Receive && e is ShutdownRequest ==> next.0 is ReplyShutdown
            &&& stage is ReplyShutdown && e is Finished ==> next.1.shut_down
            &&& stage is ReplyShutdown && e is Failed ==> !next.1.shut_down
            &&& stage is Receive && (e is TimedOut || e is Disconnected) ==> next.0
                == ConnectionStage::Done(ConnectionEnd::Closed) && !next.1.touch_activity
            &&& next.1.journal ==> stage is Reply
            &&& next.1.touch_activity ==> stage is Receive || stage is Probe
            &&& next.0 is Handle && !(stage is Handle) ==> stage is Receive && e is Request
        }),
{
}

/// A daemon that is told to end is ending from then on, and writes that down the
/// first time only.
pub proof fn shutdowns_are_logged_once(
    logged: &mut bool,
    requested: &mut bool,
    write_event: bool,
)
    requires
        call_ensures(begin_shutdown, (logged, requested), write_event),
    ensures
        *final(requested),
        *final(logged),
        *old(logged) ==> !write_event,
        !*old(logged) ==> write_event,
{
}

/// A ping is answered, a lookup finds nothing and a store stores, whatever the
/// daemon knows.
pub proof fn plain_requests_are_answered(
    st: SharedState,
    request: PlainRequest,
    now: u64,
    version: u32,
    disk: u64,
    saved_ms: u64,
    r: Response,
)
    requires
        plain_answer(st, request, now, version, disk, saved_ms, r),
    ensures
        request is Ping ==> r is Pong,
        request is Status ==> r is Status,
        request is Status ==> r->Status_0.cache_hits == st.stats.hits && r->Status_0.cache_misses
            == st.stats.misses && r->Status_0.sessions_active == st.sessions.active@.len(),
        request is Lookup ==> r is LookupResult && r->LookupResult_0 is Miss,
        request is Store ==> r is StoreResult && r->StoreResult_0 is Stored,
        request is ListRustArtifacts ==> r is RustArtifactList,
{
}

/// A session that was ended is refused, and no other is.
pub proof fn only_ended_sessions_are_refused(
    book: &SessionBook,
    raw: &str,
    parsed: Option<&str>,
    r: Option<Response>,
    i: int,
)
    requires
        call_ensures(refuse_ended_session, (book, raw, parsed), r),
    ensures
        parsed is None ==> r is None,
        parsed is Some && 0 <= i < book.ended@.len() && book.ended@[i]@ == parsed->0@ ==> r is Some
            && r->0 is Error,
        parsed is Some && (forall|k: int|
            0 <= k < book.ended@.len() ==> (#[trigger] book.ended@[k])@ != parsed->0@) ==> r
            is None,
{
    let v = text::views(book.ended@);
    if parsed is Some {
        if 0 <= i < book.ended@.len() && book.ended@[i]@ == parsed->0@ {
            assert(v[i] == parsed->0@);
        }
        if v.contains(parsed->0@) {
            let k = choose|k: int| 0 <= k < v.len() && v[k] == parsed->0@;
            assert(book.ended@[k]@ == parsed->0@);
        }
    }
}

/// What is written to the journal is what was asked and answered: the compiler,
/// the arguments, the directory and the variables of the request, the time that
/// it took, and the exit code of the answer. It goes to the journal of the very
/// session that asked.
pub proof fn journals_tell_what_was_asked(
    r: Option<JournalRecord>,
    ctx: JournalContext,
    response: Response,
    non_cacheable: bool,
    latency_ns: u128,
    active: Seq<sessions::Session>,
    id: Seq<char>,
    i: int,
)
    requires
        is_record(r, ctx, response, non_cacheable, latency_ns, active, Some(id)),
        response is CompileResult,
        0 <= i < active.len(),
        active[i].id@ == id,
        sessions::ids_differ(active),
    ensures
        r is Some,
        r->0.entry.exit_code == response->CompileResult_exit_code,
        r->0.entry.latency_ns == latency_ns,
        r->0.entry.compiler == ctx.compiler,
        r->0.entry.args == ctx.args,
        r->0.entry.cwd == ctx.cwd,
        r->0.entry.env == ctx.env,
        r->0.entry.session_id == ctx.session_id,
        r->0.session_journal is Some == active[i].journal_path is Some,
        active[i].journal_path is Some ==> r->0.session_journal->0@ == active[i].journal_path->0@,
        !active[i].profile ==> r->0.entry.self_profile_ns is None && r->0.entry.crate_name is None,
        response->CompileResult_exit_code == 0 && response->CompileResult_cached
            ==> r->0.entry.outcome@ == "hit"@,
        response->CompileResult_exit_code == 0 && !response->CompileResult_cached
            ==> r->0.entry.outcome@ == "miss"@,
        response->CompileResult_exit_code != 0 ==> r->0.entry.outcome@ == "error"@,
{
    the_journal_is_of_the_session(active, id, i);
}

proof fn the_journal_is_of_the_session(s: Seq<sessions::Session>, id: Seq<char>, i: int)
    requires
        0 <= i < s.len(),
        s[i].id@ == id,
        sessions::ids_differ(s),
    ensures
        journal_of(s, Some(id)) == (text::opt_view(s[i].journal_path), s[i].profile),
    decreases s.len(),
{
    if i < s.len() - 1 {
        assert(s[i].id@ != s[s.len() - 1].id@);
        let t = s.drop_last();
        assert forall|a: int, b: int| 0 <= a < b < t.len() implies (#[trigger] t[a]).id@ != (
        #[trigger] t[b]).id@ by {
            assert(s[a].id@ != s[b].id@);
        }
        the_journal_is_of_the_session(t, id, i);
    }
}

} // verus!
