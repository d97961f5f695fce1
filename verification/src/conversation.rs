//! The conversation with a client: what comes in, what is sent back on which
//! wire, and what the daemon does about it.

use crate::connection;
use crate::connection::{
    begin_shutdown, journal_payload, next_connection_stage, version_mismatch, ConnectionEnd,
    ConnectionEvent, ConnectionStage, JournalRecord, RequestWire,
};
use crate::dispatch;
use crate::dispatch::{dispatch, Dispatch, Moment, Request, Task};
use crate::journal::JournalContext;
use crate::lifecycle::IpcError;
use crate::protocol;
use crate::protocol::Response;
use crate::state::SharedState;
use crate::text;
use vstd::prelude::*;

verus! {

/// What came of a stage of a conversation.
#[derive(Debug)]
pub enum Happening {
    /// The client asked who is there, and was answered.
    ProbeServed,
    /// The client wants more than that.
    NoProbe,
    /// The transport failed before the first request.
    ProbeFailed {
        /// How.
        error: IpcError,
    },
    /// No request came in time.
    TimedOut,
    /// The client has left.
    Disconnected,
    /// The client speaks another version.
    Mismatch {
        /// Version of the daemon.
        expected: u32,
        /// Version of the client.
        received: u32,
    },
    /// The transport failed.
    ReceiveFailed {
        /// How.
        error: IpcError,
    },
    /// A message came that is no request.
    Unreadable {
        /// Its wire.
        wire: RequestWire,
        /// What is wrong with it.
        message: String,
    },
    /// The client asks the daemon to shut down.
    Shutdown {
        /// The wire of the request.
        wire: RequestWire,
    },
    /// Another request came.
    Asked {
        /// The wire of the request.
        wire: RequestWire,
        /// The request.
        request: Request,
    },
    /// The task of a request was carried out.
    Performed {
        /// The answer.
        response: Response,
        /// Whether its command line cannot be cached.
        non_cacheable: bool,
        /// How long it took.
        latency_ns: u128,
        /// The session that the request names, if the name can be read.
        parsed_session: Option<String>,
    },
    /// The answer was sent.
    Sent,
    /// The answer could not be sent.
    SendFailed {
        /// Why.
        error: IpcError,
    },
}

/// A conversation with a client.
#[derive(Debug)]
pub struct Conversation {
    /// Where it stands.
    pub stage: ConnectionStage,
    /// The wire on which the next answer goes.
    pub wire: RequestWire,
    /// The task of the request in work.
    pub work: Option<Task>,
    /// Who asked, where the journal gets a line.
    pub context: Option<JournalContext>,
    /// What is to be sent.
    pub reply: Option<Response>,
    /// What the journal gets once the answer was sent.
    pub record: Option<JournalRecord>,
    /// How it ended.
    pub end: Option<Result<(), IpcError>>,
    /// How it will end once a client of another version was answered.
    pub mismatch: Option<IpcError>,
}

impl Conversation {
    /// Whether there is something to send exactly when it is to be sent, a task
    /// while it is carried out, and an outcome at the end.
    pub open spec fn wf(self) -> bool {
        &&& (self.reply is Some) == (self.stage is Reply || self.stage is ReplyMismatch
            || self.stage is ReplyUnreadable || self.stage is ReplyShutdown)
        &&& (self.work is Some) == (self.stage is Handle)
        &&& (self.end is Some) == (self.stage is Done)
        &&& (self.mismatch is Some) == (self.stage is ReplyMismatch)
        &&& self.context is Some ==> self.stage is Handle
        &&& self.record is Some ==> self.stage is Reply
    }
}

/// The beginning of a conversation.
pub fn new_conversation() -> (c: Conversation)
    ensures
        c.wf(),
        c.stage is Probe,
        c.wire is BincodeV15,
{
    Conversation {
        stage: ConnectionStage::Probe,
        wire: RequestWire::BincodeV15,
        work: None,
        context: None,
        reply: None,
        record: None,
        end: None,
        mismatch: None,
    }
}

/// Whether something can come of a stage.
pub open spec fn fits(stage: ConnectionStage, h: Happening) -> bool {
    match stage {
        ConnectionStage::Probe => h is ProbeServed || h is NoProbe || h is ProbeFailed,
        ConnectionStage::Receive => h is TimedOut || h is Disconnected || h is Mismatch || h
            is ReceiveFailed || h is Unreadable || h is Shutdown || h is Asked,
        ConnectionStage::Handle => h is Performed,
        ConnectionStage::Reply | ConnectionStage::ReplyMismatch | ConnectionStage::ReplyUnreadable
        | ConnectionStage::ReplyShutdown => h is Sent || h is SendFailed,
        ConnectionStage::Done(_) => false,
    }
}

fn fits_stage(stage: ConnectionStage, h: &Happening) -> (b: bool)
    ensures
        b == fits(stage, *h),
{
    match stage {
        ConnectionStage::Probe => matches!(
            h,
            Happening::ProbeServed | Happening::NoProbe | Happening::ProbeFailed { .. }
        ),
        ConnectionStage::Receive => matches!(
            h,
            Happening::TimedOut | Happening::Disconnected | Happening::Mismatch { .. }
            | Happening::ReceiveFailed { .. } | Happening::Unreadable { .. }
            | Happening::Shutdown { .. } | Happening::Asked { .. }
        ),
        ConnectionStage::Handle => matches!(h, Happening::Performed { .. }),
        ConnectionStage::Reply | ConnectionStage::ReplyMismatch | ConnectionStage::ReplyUnreadable
        | ConnectionStage::ReplyShutdown => matches!(
            h,
            Happening::Sent | Happening::SendFailed { .. }
        ),
        ConnectionStage::Done(_) => false,
    }
}

/// The event that something is for the course of the connection.
pub open spec fn event_of(h: Happening) -> ConnectionEvent {
    match h {
        Happening::ProbeServed => ConnectionEvent::ProbeServed,
        Happening::ProbeFailed { .. } => ConnectionEvent::Failed,
        Happening::ReceiveFailed { .. } => ConnectionEvent::Failed,
        Happening::SendFailed { .. } => ConnectionEvent::Failed,
        Happening::TimedOut => ConnectionEvent::TimedOut,
        Happening::Disconnected => ConnectionEvent::Disconnected,
        Happening::Mismatch { .. } => ConnectionEvent::VersionMismatch,
        Happening::Unreadable { .. } => ConnectionEvent::Unreadable,
        Happening::Shutdown { .. } => ConnectionEvent::ShutdownRequest,
        Happening::Asked { .. } => ConnectionEvent::Request,
        _ => ConnectionEvent::Finished,
    }
}

fn as_event(h: &Happening) -> (e: ConnectionEvent)
    ensures
        e == event_of(*h),
{
    match h {
        Happening::ProbeServed => ConnectionEvent::ProbeServed,
        Happening::ProbeFailed { .. } => ConnectionEvent::Failed,
        Happening::ReceiveFailed { .. } => ConnectionEvent::Failed,
        Happening::SendFailed { .. } => ConnectionEvent::Failed,
        Happening::TimedOut => ConnectionEvent::TimedOut,
        Happening::Disconnected => ConnectionEvent::Disconnected,
        Happening::Mismatch { .. } => ConnectionEvent::VersionMismatch,
        Happening::Unreadable { .. } => ConnectionEvent::Unreadable,
        Happening::Shutdown { .. } => ConnectionEvent::ShutdownRequest,
        Happening::Asked { .. } => ConnectionEvent::Request,
        _ => ConnectionEvent::Finished,
    }
}

/// What the event log says of a client that speaks another version of the
/// protocol.
#[derive(Debug)]
pub struct MismatchEvent {
    /// Name of the event.
    pub event: String,
    /// Version of the daemon.
    pub daemon_crate_version: String,
    /// Version of the protocol that the daemon speaks.
    pub daemon_protocol_version: u32,
    /// Version of the protocol that the client speaks.
    pub client_protocol_version: u32,
    /// What is wrong, and what helps.
    pub reason: String,
}

/// Whether an event tells of a client with another version of the protocol.
pub open spec fn tells_mismatch(e: MismatchEvent, version: Seq<char>, expected: u32, received: u32) -> bool {
    &&& e.event@ == "version_mismatch"@
    &&& e.daemon_crate_version@ == version
    &&& e.daemon_protocol_version == expected
    &&& e.client_protocol_version == received
    &&& e.reason@
        == "incompatible IPC PROTOCOL_VERSION; client must stop the daemon and let the new one start"@
}

fn mismatch_event(version: &str, expected: u32, received: u32) -> (e: MismatchEvent)
    ensures
        tells_mismatch(e, version@, expected, received),
{
    MismatchEvent {
        event: "version_mismatch".to_owned(),
        daemon_crate_version: version.to_owned(),
        daemon_protocol_version: expected,
        client_protocol_version: received,
        reason:
            "incompatible IPC PROTOCOL_VERSION; client must stop the daemon and let the new one start".to_owned(),
    }
}

/// What is left to do when a stage is over.
#[derive(Debug)]
pub struct ConnectionNotes {
    /// Session journals that are closed.
    pub close_journals: Vec<String>,
    /// A line for the journals.
    pub journal: Option<JournalRecord>,
    /// An event for the event log: the client speaks another version of the
    /// protocol.
    pub log_mismatch: Option<MismatchEvent>,
    /// Whether the event log says that the daemon shuts down.
    pub log_shutdown: bool,
    /// Whether the daemon is told to shut down.
    pub ring_shutdown: bool,
}

/// Nothing is left to do.
pub open spec fn nothing_to_do(n: ConnectionNotes) -> bool {
    n.close_journals@.len() == 0 && n.journal is None && n.log_mismatch is None && !n.log_shutdown
        && !n.ring_shutdown
}

fn no_notes() -> (n: ConnectionNotes)
    ensures
        nothing_to_do(n),
{
    ConnectionNotes {
        close_journals: Vec::new(),
        journal: None,
        log_mismatch: None,
        log_shutdown: false,
        ring_shutdown: false,
    }
}

/// The daemon after it was in use.
pub open spec fn in_use(st: SharedState, now: u64) -> SharedState {
    SharedState { last_activity: now, ..st }
}

/// Whether a conversation has taken up what becomes of a request: it sends an
/// answer, or carries out a task.
pub open spec fn taken_up(after: Conversation, notes: ConnectionNotes, wire: RequestWire, d: Dispatch) -> bool {
    &&& after.wire == wire
    &&& after.record is None
    &&& notes.journal is None
    &&& notes.log_mismatch is None
    &&& !notes.log_shutdown
    &&& !notes.ring_shutdown
    &&& match d {
        Dispatch::Answered { response, close_journals } => {
            &&& after.stage is Reply
            &&& after.reply == Some(response)
            &&& after.work is None
            &&& after.context is None
            &&& notes.close_journals == close_journals
        },
        Dispatch::Begun { task, context } => {
            &&& after.stage is Handle
            &&& after.reply is None
            &&& after.work == Some(task)
            &&& after.context == context
            &&& notes.close_journals@.len() == 0
        },
    }
}

/// Whether this becomes of a conversation and of the daemon's state when
/// something comes of a stage that is not a request.
pub open spec fn went_on(
    before: Conversation,
    after: Conversation,
    st0: SharedState,
    st1: SharedState,
    h: Happening,
    now: u64,
    notes: ConnectionNotes,
) -> bool {
    &&& after.stage == connection::connection_next(before.stage, event_of(h)).0
    &&& match h {
        Happening::ProbeServed => st1 == in_use(st0, now) && after.end == Some(
            Ok::<(), IpcError>(()),
        ) && nothing_to_do(notes),
        Happening::NoProbe => st1 == st0 && nothing_to_do(notes),
        Happening::ProbeFailed { error } => st1 == st0 && after.end == Some(
            Err::<(), IpcError>(error),
        ) && nothing_to_do(notes),
        Happening::TimedOut | Happening::Disconnected => st1 == st0 && after.end == Some(
            Ok::<(), IpcError>(()),
        ) && nothing_to_do(notes),
        Happening::ReceiveFailed { error } => st1 == st0 && after.end == Some(
            Err::<(), IpcError>(error),
        ) && nothing_to_do(notes),
        Happening::Mismatch { expected, received } => {
            &&& st1 == st0
            &&& after.wire is BincodeV15
            &&& after.reply is Some
            &&& protocol::is_error(
                after.reply->0,
                connection::mismatch_text(st0.version@, expected as nat, received as nat),
            )
            &&& after.mismatch == Some(IpcError::VersionMismatch { expected, received })
            &&& notes.log_mismatch is Some
            &&& tells_mismatch(notes.log_mismatch->0, st0.version@, expected, received)
            &&& notes.close_journals@.len() == 0
            &&& notes.journal is None
            &&& !notes.log_shutdown
            &&& !notes.ring_shutdown
        },
        Happening::Unreadable { wire, message } => {
            &&& st1 == in_use(st0, now)
            &&& after.wire == wire
            &&& after.reply == Some(Response::Error { message })
            &&& nothing_to_do(notes)
        },
        Happening::Shutdown { wire } => {
            &&& st1 == in_use(st0, now)
            &&& after.wire == wire
            &&& after.reply == Some(Response::ShuttingDown)
            &&& nothing_to_do(notes)
        },
        Happening::Asked { .. } => true,
        Happening::Performed { response, non_cacheable, latency_ns, parsed_session } => {
            &&& st1 == st0
            &&& after.wire == before.wire
            &&& after.reply == Some(response)
            &&& match before.context {
                Some(ctx) => connection::is_record(
                    after.record,
                    ctx,
                    response,
                    non_cacheable,
                    latency_ns,
                    st0.sessions.active@,
                    text::opt_view(parsed_session),
                ),
                None => after.record is None,
            }
            &&& nothing_to_do(notes)
        },
        Happening::Sent => {
            &&& before.stage is ReplyShutdown ==> {
                &&& st1 == (SharedState {
                    shutdown_event_logged: true,
                    shutdown_requested: true,
                    ..st0
                })
                &&& notes.log_shutdown == !st0.shutdown_event_logged
                &&& notes.ring_shutdown
                &&& after.end == Some(Ok::<(), IpcError>(()))
            }
            &&& before.stage !is ReplyShutdown ==> st1 == st0 && !notes.log_shutdown
                && !notes.ring_shutdown
            &&& before.stage is ReplyMismatch ==> after.end == Some(
                Err::<(), IpcError>(before.mismatch->0),
            )
            &&& notes.journal == before.record
            &&& notes.log_mismatch is None
            &&& notes.close_journals@.len() == 0
        },
        Happening::SendFailed { error } => {
            &&& st1 == st0
            &&& after.end == Some(
                Err::<(), IpcError>(
                    if before.stage is ReplyMismatch {
                        before.mismatch->0
                    } else {
                        error
                    },
                ),
            )
            &&& notes.journal == before.record
            &&& notes.log_mismatch is None
            &&& notes.close_journals@.len() == 0
            &&& !notes.log_shutdown
            &&& !notes.ring_shutdown
        },
    }
}

/// What is left of a conversation between requests, or at its end.
fn between(
    stage: ConnectionStage,
    wire: RequestWire,
    end: Option<Result<(), IpcError>>,
) -> (c: Conversation)
    requires
        stage is Receive && end is None || stage is Done && end is Some,
    ensures
        c.wf(),
        c.stage == stage,
        c.wire == wire,
        c.end == end,
{
    Conversation {
        stage,
        wire,
        work: None,
        context: None,
        reply: None,
        record: None,
        end,
        mismatch: None,
    }
}

/// A conversation with something to send.
fn sending(
    stage: ConnectionStage,
    wire: RequestWire,
    reply: Response,
    record: Option<JournalRecord>,
    mismatch: Option<IpcError>,
) -> (c: Conversation)
    requires
        stage is Reply || stage is ReplyMismatch || stage is ReplyUnreadable || stage
            is ReplyShutdown,
        record is Some ==> stage is Reply,
        mismatch is Some == stage is ReplyMismatch,
    ensures
        c.wf(),
        c.stage == stage,
        c.wire == wire,
        c.reply == Some(reply),
        c.record == record,
        c.mismatch == mismatch,
        c.context is None,
        c.work is None,
{
    Conversation {
        stage,
        wire,
        work: None,
        context: None,
        reply: Some(reply),
        record,
        end: None,
        mismatch,
    }
}

fn take_up(wire: RequestWire, d: Dispatch) -> (r: (Conversation, ConnectionNotes))
    ensures
        r.0.wf(),
        taken_up(r.0, r.1, wire, d),
{
    match d {
        Dispatch::Answered { response, close_journals } => {
            let mut notes = no_notes();
            notes.close_journals = close_journals;
            (sending(ConnectionStage::Reply, wire, response, None, None), notes)
        },
        Dispatch::Begun { task, context } => (
            Conversation {
                stage: ConnectionStage::Handle,
                wire,
                work: Some(task),
                context,
                reply: None,
                record: None,
                end: None,
                mismatch: None,
            },
            no_notes(),
        ),
    }
}

fn record_of(
    st: &SharedState,
    context: Option<JournalContext>,
    response: &Response,
    non_cacheable: bool,
    latency_ns: u128,
    parsed_session: Option<String>,
) -> (r: Option<JournalRecord>)
    requires
        st.wf(),
    ensures
        match context {
            Some(ctx) => connection::is_record(
                r,
                ctx,
                *response,
                non_cacheable,
                latency_ns,
                st.sessions.active@,
                text::opt_view(parsed_session),
            ),
            None => r is None,
        },
{
    let parsed = match &parsed_session {
        Some(id) => Some(id.as_str()),
        None => None,
    };
    match context {
        Some(ctx) => journal_payload(
            ctx,
            response,
            non_cacheable,
            latency_ns,
            &st.sessions,
            parsed,
        ),
        None => None,
    }
}

/// Goes on with a conversation after something has come of its stage: what is
/// to be sent, or which task is to be carried out, stands in the conversation
/// that is returned, and what else is to be done in the notes. What cannot come
/// of the stage changes nothing.
pub fn handle_connection(st: &mut SharedState, c: Conversation, h: Happening, at: Moment) -> (r: (
    Conversation,
    ConnectionNotes,
))
    requires
        old(st).wf(),
        c.wf(),
        h matches Happening::Asked { request, .. } ==> dispatch::fits(*old(st), request),
    ensures
        final(st).wf(),
        r.0.wf(),
        !fits(c.stage, h) ==> *final(st) == *old(st) && r.0 == c && nothing_to_do(r.1),
        fits(c.stage, h) ==> match h {
            Happening::Asked { wire, request } => exists|d: Dispatch| #[trigger]
                dispatch::dispatched(in_use(*old(st), at.now), *final(st), request, at, d)
                    && dispatch::goes_to_journal(d) == dispatch::asks_to_build(*old(st), request)
                    && taken_up(r.0, r.1, wire, d),
            _ => went_on(c, r.0, *old(st), *final(st), h, at.now, r.1),
        },
{
    if !fits_stage(c.stage, &h) {
        return (c, no_notes());
    }
    let (next, _fx) = next_connection_stage(c.stage, as_event(&h));
    match h {
        Happening::ProbeServed => {
            st.last_activity = at.now;
            (between(next, c.wire, Some(Ok(()))), no_notes())
        },
        Happening::NoProbe => (between(next, c.wire, None), no_notes()),
        Happening::ProbeFailed { error } => (between(next, c.wire, Some(Err(error))), no_notes()),
        Happening::TimedOut => (between(next, c.wire, Some(Ok(()))), no_notes()),
        Happening::Disconnected => (between(next, c.wire, Some(Ok(()))), no_notes()),
        Happening::ReceiveFailed { error } => (
            between(next, c.wire, Some(Err(error))),
            no_notes(),
        ),
        Happening::Mismatch { expected, received } => {
            let (answer, error) = version_mismatch(st.version.as_str(), expected, received);
            let mut notes = no_notes();
            notes.log_mismatch = Some(mismatch_event(st.version.as_str(), expected, received));
            (sending(next, RequestWire::BincodeV15, answer, None, Some(error)), notes)
        },
        Happening::Unreadable { wire, message } => {
            st.last_activity = at.now;
            (sending(next, wire, Response::Error { message }, None, None), no_notes())
        },
        Happening::Shutdown { wire } => {
            st.last_activity = at.now;
            (sending(next, wire, Response::ShuttingDown, None, None), no_notes())
        },
        Happening::Asked { wire, request } => {
            st.last_activity = at.now;
            let ghost used = *st;
            let d = dispatch(st, request, at);
            let ghost e = d;
            let r = take_up(wire, d);
            assert(dispatch::dispatched(used, *st, request, at, e));
            r
        },
        Happening::Performed { response, non_cacheable, latency_ns, parsed_session } => {
            let record = record_of(
                st,
                c.context,
                &response,
                non_cacheable,
                latency_ns,
                parsed_session,
            );
            (sending(next, c.wire, response, record, None), no_notes())
        },
        Happening::Sent => {
            let mut notes = no_notes();
            notes.journal = c.record;
            match c.stage {
                ConnectionStage::ReplyShutdown => {
                    notes.log_shutdown =
                    begin_shutdown(&mut st.shutdown_event_logged, &mut st.shutdown_requested);
                    notes.ring_shutdown = true;
                    (between(next, c.wire, Some(Ok(()))), notes)
                },
                ConnectionStage::ReplyMismatch => match c.mismatch {
                    Some(error) => (between(next, c.wire, Some(Err(error))), notes),
                    None => (between(next, c.wire, Some(Ok(()))), notes),
                },
                _ => (between(next, c.wire, None), notes),
            }
        },
        Happening::SendFailed { error } => {
            let mut notes = no_notes();
            notes.journal = c.record;
            let why = match c.mismatch {
                Some(mismatch) => mismatch,
                None => error,
            };
            (between(next, c.wire, Some(Err(why))), notes)
        },
    }
}

/// An answer goes out on the wire on which its request came, whether the
/// request was answered at once or a task was carried out for it; the journal
/// gets its line when the answer was sent, and also when it could not be sent.
pub proof fn answers_go_out_on_the_wire_of_the_request(
    asked: Conversation,
    notes: ConnectionNotes,
    wire: RequestWire,
    d: Dispatch,
    performed: Conversation,
    sent: Conversation,
    st0: SharedState,
    st1: SharedState,
    st2: SharedState,
    h: Happening,
    g: Happening,
    now: u64,
    performed_notes: ConnectionNotes,
    sent_notes: ConnectionNotes,
)
    requires
        taken_up(asked, notes, wire, d),
        d is Answered ==> performed == asked,
        d is Begun ==> fits(asked.stage, h) && went_on(
            asked,
            performed,
            st0,
            st1,
            h,
            now,
            performed_notes,
        ),
        fits(performed.stage, g),
        went_on(performed, sent, st1, st2, g, now, sent_notes),
    ensures
        performed.wire == wire,
        performed.stage is Reply,
        performed.reply is Some,
        sent_notes.journal == performed.record,
        d is Answered ==> sent_notes.journal is None,
        sent.stage is Receive || sent.stage == ConnectionStage::Done(ConnectionEnd::Broken),
{
}

/// A client is told what was found out, on the wire on which it asked: a request
/// that could not be read is told why, one to shut down that the daemon is going
/// down, and one of another version that the versions differ.
pub proof fn clients_are_told(
    before: Conversation,
    after: Conversation,
    st0: SharedState,
    st1: SharedState,
    h: Happening,
    now: u64,
    notes: ConnectionNotes,
)
    requires
        went_on(before, after, st0, st1, h, now, notes),
        fits(before.stage, h),
    ensures
        h is Unreadable ==> after.wire == h->Unreadable_wire && after.reply == Some(
            Response::Error { message: h->Unreadable_message },
        ) && after.stage is ReplyUnreadable && st1.last_activity == now,
        h is Shutdown ==> after.wire == h->Shutdown_wire && after.reply == Some(
            Response::ShuttingDown,
        ) && after.stage is ReplyShutdown && !notes.ring_shutdown,
        h is Mismatch ==> after.reply is Some && after.reply->0 is Error && after.stage
            is ReplyMismatch && notes.log_mismatch is Some
            && notes.log_mismatch->0.daemon_protocol_version == h->Mismatch_expected
            && notes.log_mismatch->0.client_protocol_version == h->Mismatch_received && st1 == st0,
        h is Performed ==> after.reply == Some(h->Performed_response) && after.wire == before.wire
            && after.stage is Reply && st1 == st0,
        h is Performed && before.context is None ==> after.record is None,
        h is Sent ==> notes.journal == before.record,
        h is Sent && before.stage is ReplyShutdown ==> st1.shutdown_requested && notes.ring_shutdown
            && (notes.log_shutdown <==> !st0.shutdown_event_logged) && after.end == Some(
            Ok::<(), IpcError>(()),
        ),
        h is Sent && before.stage is Reply ==> after.stage is Receive && st1 == st0
            && !notes.ring_shutdown,
        h is SendFailed && !(before.stage is ReplyMismatch) ==> after.end == Some(
            Err::<(), IpcError>(h->SendFailed_error),
        ) && !notes.ring_shutdown && st1 == st0,
        h is TimedOut || h is Disconnected ==> after.end == Some(Ok::<(), IpcError>(())) && st1
            == st0,
        h is ReceiveFailed ==> after.end == Some(Err::<(), IpcError>(h->ReceiveFailed_error)),
{
}

} // verus!
