//! Waiting for a process whose pipes may outlive it.
//!
//! A process can leave behind others that keep its pipes open. Once it has
//! exited, its pipes are drained for a short time only.

use crate::bytes::push_bytes;
use crate::text::{parse_unsigned, trim};
use crate::text;
use vstd::prelude::*;

verus! {

/// How long the pipes are drained after the exit, unless set otherwise.
pub const DEFAULT_POST_EXIT_GRACE_MS: u64 = 2_000;

/// How long the pipes are drained after the exit: what the variable says in
/// milliseconds, or the default where it is not set or cannot be read.
pub open spec fn grace_ms(raw: Option<Seq<char>>) -> u64 {
    match raw {
        Some(v) => match text::unsigned_value(text::trimmed(v)) {
            Some(n) => if n <= u64::MAX {
                n as u64
            } else {
                DEFAULT_POST_EXIT_GRACE_MS
            },
            None => DEFAULT_POST_EXIT_GRACE_MS,
        },
        None => DEFAULT_POST_EXIT_GRACE_MS,
    }
}

/// How long the pipes are drained after the exit, for what the variable was
/// found to say.
pub fn post_exit_grace(raw: &Option<String>) -> (ms: u64)
    ensures
        ms == grace_ms(text::opt_view(*raw)),
{
    match raw {
        Some(v) => {
            let trimmed = trim(v.as_str());
            match parse_unsigned(trimmed.as_str()) {
                Some(ms) => ms,
                None => DEFAULT_POST_EXIT_GRACE_MS,
            }
        },
        None => DEFAULT_POST_EXIT_GRACE_MS,
    }
}

/// Whether the wait is bounded: a grace of zero waits for the pipes for ever.
pub fn watchdog_enabled(grace_ms: u64) -> (r: bool)
    ensures
        r == (grace_ms != 0),
{
    grace_ms != 0
}

/// The end of a process.
#[derive(Clone, Copy, Debug, PartialEq, Eq, Structural)]
pub struct Exit {
    /// Its exit code; none where it was killed.
    pub code: Option<i32>,
    /// When it ended, in milliseconds.
    pub at_ms: u64,
}

/// A process that is being waited for.
#[derive(Debug)]
pub struct Drain {
    exit: Option<Exit>,
    stdout_done: bool,
    stderr_done: bool,
    out: Vec<u8>,
    err: Vec<u8>,
}

/// What is known of a process that is being waited for.
#[verifier::ext_equal]
pub struct DrainView {
    /// Its end.
    pub exit: Option<Exit>,
    /// Whether its standard output is read to the end.
    pub stdout_done: bool,
    /// Whether its standard error is read to the end.
    pub stderr_done: bool,
    /// What was read of its standard output.
    pub out: Seq<u8>,
    /// What was read of its standard error.
    pub err: Seq<u8>,
}

/// What to do next.
#[derive(Clone, Copy, Debug, PartialEq, Eq, Structural)]
pub enum DrainStep {
    /// The process has exited and its pipes are read to the end.
    Complete {
        /// Its exit code.
        code: Option<i32>,
    },
    /// The process is running.
    WaitForExit,
    /// The process has exited; wait for its pipes, at most this long.
    WaitForPipes {
        /// Time that is left, in milliseconds.
        remaining_ms: u64,
    },
    /// Someone else keeps a pipe open: give up and return what was read.
    Abandon {
        /// Exit code of the process.
        code: Option<i32>,
    },
}

/// What to do next for a process. A grace of zero means that its pipes are
/// waited for without bound.
pub open spec fn drain_step(d: DrainView, grace: u64, now_ms: u64) -> DrainStep {
    match d.exit {
        None => DrainStep::WaitForExit,
        Some(e) => {
            let elapsed = if now_ms < e.at_ms {
                0
            } else {
                now_ms - e.at_ms
            };
            if d.stdout_done && d.stderr_done {
                DrainStep::Complete { code: e.code }
            } else if grace == 0 {
                DrainStep::WaitForPipes { remaining_ms: u64::MAX }
            } else if elapsed >= grace {
                DrainStep::Abandon { code: e.code }
            } else {
                DrainStep::WaitForPipes { remaining_ms: (grace - elapsed) as u64 }
            }
        },
    }
}

impl View for Drain {
    type V = DrainView;

    closed spec fn view(&self) -> DrainView {
        DrainView {
            exit: self.exit,
            stdout_done: self.stdout_done,
            stderr_done: self.stderr_done,
            out: self.out@,
            err: self.err@,
        }
    }
}

impl Drain {
    /// A process that has just been started. A stream without a pipe has
    /// nothing to read.
    pub fn new(has_stdout: bool, has_stderr: bool) -> (d: Self)
        ensures
            d@ == (DrainView {
                exit: None,
                stdout_done: !has_stdout,
                stderr_done: !has_stderr,
                out: Seq::empty(),
                err: Seq::empty(),
            }),
    {
        let d = Drain {
            exit: None,
            stdout_done: !has_stdout,
            stderr_done: !has_stderr,
            out: Vec::new(),
            err: Vec::new(),
        };
        assert(d@.out =~= Seq::empty());
        assert(d@.err =~= Seq::empty());
        d
    }

    /// The process has exited.
    pub fn on_exit(&mut self, code: Option<i32>, now_ms: u64)
        ensures
            final(self)@ == (DrainView { exit: Some(Exit { code, at_ms: now_ms }), ..old(self)@ }),
    {
        self.exit = Some(Exit { code, at_ms: now_ms });
    }

    /// A read of standard output has returned these bytes; no bytes mean its
    /// end, as does an error.
    pub fn on_stdout(&mut self, read: Option<&[u8]>)
        ensures
            final(self)@ == match read {
                Some(b) => if b@.len() == 0 {
                    DrainView { stdout_done: true, ..old(self)@ }
                } else {
                    DrainView { out: old(self)@.out + b@, ..old(self)@ }
                },
                None => DrainView { stdout_done: true, ..old(self)@ },
            },
    {
        match read {
            Some(b) => {
                if b.len() == 0 {
                    self.stdout_done = true;
                } else {
                    push_bytes(&mut self.out, b);
                }
            },
            None => {
                self.stdout_done = true;
            },
        }
    }

    /// A read of standard error has returned these bytes; no bytes mean its
    /// end, as does an error.
    pub fn on_stderr(&mut self, read: Option<&[u8]>)
        ensures
            final(self)@ == match read {
                Some(b) => if b@.len() == 0 {
                    DrainView { stderr_done: true, ..old(self)@ }
                } else {
                    DrainView { err: old(self)@.err + b@, ..old(self)@ }
                },
                None => DrainView { stderr_done: true, ..old(self)@ },
            },
    {
        match read {
            Some(b) => {
                if b.len() == 0 {
                    self.stderr_done = true;
                } else {
                    push_bytes(&mut self.err, b);
                }
            },
            None => {
                self.stderr_done = true;
            },
        }
    }

    /// What to do next.
    pub fn step(&self, grace_ms: u64, now_ms: u64) -> (s: DrainStep)
        ensures
            s == drain_step(self@, grace_ms, now_ms),
    {
        match self.exit {
            None => DrainStep::WaitForExit,
            Some(e) => {
                let elapsed: u64 = if now_ms < e.at_ms {
                    0
                } else {
                    now_ms - e.at_ms
                };
                if self.stdout_done && self.stderr_done {
                    DrainStep::Complete { code: e.code }
                } else if grace_ms == 0 {
                    DrainStep::WaitForPipes { remaining_ms: u64::MAX }
                } else if elapsed >= grace_ms {
                    DrainStep::Abandon { code: e.code }
                } else {
                    DrainStep::WaitForPipes { remaining_ms: grace_ms - elapsed }
                }
            },
        }
    }

    /// What was read of standard output and standard error.
    pub fn into_output(self) -> (r: (Vec<u8>, Vec<u8>))
        ensures
            r.0@ == self@.out,
            r.1@ == self@.err,
    {
        (self.out, self.err)
    }
}

/// A process that is running is never given up on, however long it takes, and
/// one that has exited with its pipes read to the end is complete.
pub proof fn running_processes_are_left_alone(d: DrainView, grace: u64, now_ms: u64)
    ensures
        d.exit is None ==> drain_step(d, grace, now_ms) == DrainStep::WaitForExit,
        (d.exit is Some && d.stdout_done && d.stderr_done) ==> drain_step(d, grace, now_ms) == (
        DrainStep::Complete { code: d.exit->0.code }),
{
}

/// Without a grace nothing is given up on, however long the pipes stay open.
pub proof fn no_grace_waits_for_the_pipes(d: DrainView, now_ms: u64)
    ensures
        drain_step(d, 0, now_ms) !is Abandon,
        d.exit is Some && !(d.stdout_done && d.stderr_done) ==> drain_step(d, 0, now_ms)
            is WaitForPipes,
{
}

/// The wait after the exit is bounded: once the grace has passed, the wait is
/// over.
pub proof fn the_drain_is_bounded(d: DrainView, grace: u64, now_ms: u64)
    requires
        grace > 0,
        d.exit is Some,
        now_ms >= d.exit->0.at_ms + grace,
    ensures
        drain_step(d, grace, now_ms) is Complete || drain_step(d, grace, now_ms) is Abandon,
{
}

/// Once the process has exited, its pipes are drained until the time of grace is
/// over, counted from its exit, and not longer.
pub proof fn the_grace_counts_from_the_exit(
    d: &mut Drain,
    code: Option<i32>,
    at_ms: u64,
    grace: u64,
    now_ms: u64,
    s: DrainStep,
)
    requires
        call_ensures(Drain::on_exit, (d, code, at_ms), ()),
        call_ensures(Drain::step, (&*final(d), grace, now_ms), s),
    ensures
        old(d)@.stdout_done && old(d)@.stderr_done ==> s == (DrainStep::Complete { code }),
        !(old(d)@.stdout_done && old(d)@.stderr_done) && grace == 0 ==> s == (
        DrainStep::WaitForPipes { remaining_ms: u64::MAX }),
        !(old(d)@.stdout_done && old(d)@.stderr_done) && grace > 0 && now_ms >= at_ms + grace
            ==> s == (DrainStep::Abandon { code }),
        !(old(d)@.stdout_done && old(d)@.stderr_done) && grace > 0 && at_ms <= now_ms < at_ms
            + grace ==> (s matches DrainStep::WaitForPipes { remaining_ms } && now_ms + remaining_ms
            == at_ms + grace),
        !(old(d)@.stdout_done && old(d)@.stderr_done) && grace > 0 && now_ms < at_ms ==> s == (
        DrainStep::WaitForPipes { remaining_ms: grace }),
        final(d)@.out == old(d)@.out && final(d)@.err == old(d)@.err,
{
}

/// What is read from a pipe is kept in the order in which it came, apart from
/// what came from the other one. A read of nothing ends its pipe and keeps what
/// was read.
pub proof fn output_is_kept_in_order(
    d: &mut Drain,
    e: &mut Drain,
    f: &mut Drain,
    g: &mut Drain,
    a: &[u8],
    b: &[u8],
    r: (Vec<u8>, Vec<u8>),
)
    requires
        call_ensures(Drain::on_stdout, (d, Some(a)), ()),
        *e == *final(d),
        call_ensures(Drain::on_stderr, (e, Some(b)), ()),
        *f == *final(e),
        call_ensures(Drain::on_stdout, (f, None::<&[u8]>), ()),
        *g == *final(f),
        call_ensures(Drain::on_stderr, (g, None::<&[u8]>), ()),
        call_ensures(Drain::into_output, (*final(g),), r),
    ensures
        r.0@ == old(d)@.out + a@,
        r.1@ == old(d)@.err + b@,
        a@.len() > 0 ==> final(d)@.stdout_done == old(d)@.stdout_done,
        a@.len() == 0 ==> final(d)@.stdout_done,
        final(d)@.stderr_done == old(d)@.stderr_done,
        b@.len() > 0 ==> final(e)@.stderr_done == old(d)@.stderr_done,
        b@.len() == 0 ==> final(e)@.stderr_done,
        final(f)@.stdout_done && final(f)@.stderr_done == final(e)@.stderr_done,
        final(g)@.stdout_done && final(g)@.stderr_done,
        final(g)@.exit == old(d)@.exit,
{
    if a@.len() == 0 {
        assert(old(d)@.out + a@ =~= old(d)@.out);
    }
    if b@.len() == 0 {
        assert(old(d)@.err + b@ =~= old(d)@.err);
    }
}

/// A drain begins with nothing read, and with the pipes done that are not there.
pub proof fn missing_pipes_are_done(has_out: bool, has_err: bool, d: Drain, s: DrainStep, now_ms: u64, grace: u64)
    requires
        call_ensures(Drain::new, (has_out, has_err), d),
        call_ensures(Drain::step, (&d, grace, now_ms), s),
    ensures
        d@.stdout_done == !has_out,
        d@.stderr_done == !has_err,
        d@.out.len() == 0 && d@.err.len() == 0,
        s == DrainStep::WaitForExit,
{
}

/// The time of grace is the number that is set, two seconds where none is set or
/// the setting is no number, and zero switches the watch off.
pub proof fn the_grace_is_a_setting(
    raw: Option<String>,
    ms: u64,
    on: bool,
    n: u64,
)
    requires
        call_ensures(post_exit_grace, (&raw,), ms),
        call_ensures(watchdog_enabled, (ms,), on),
    ensures
        raw is None ==> ms == 2_000,
        raw is Some && text::unsigned_value(text::trimmed(raw->0@)) is None ==> ms == 2_000,
        raw is Some && text::trimmed(raw->0@) == text::decimal(n as nat) ==> ms == n,
        on <==> ms > 0,
{
    text::numbers_are_read_back(n as nat, 0);
}

} // verus!
