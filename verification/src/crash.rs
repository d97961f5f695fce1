//! Crash reports.

use crate::protocol::joined;
use crate::text::render_decimal;
use crate::text;
use vstd::prelude::*;
use vstd::string::*;

verus! {

/// The name under which the daemon reports crashes.
pub const BINARY_STEM: &'static str = "zccache-daemon";

/// The crash handlers of a process: once installed, they stay.
#[derive(Debug)]
pub struct CrashHandlers {
    stem: Option<String>,
}

/// A claim on the installed handlers.
#[derive(Debug)]
pub struct CrashGuard {
    stem: String,
}

/// A claim on the handlers of signals and exceptions.
#[derive(Debug)]
pub struct MinidumpHandle {
    guard: CrashGuard,
}

/// The name under which crashes are reported after handlers were asked for:
/// the first one stays.
pub open spec fn after_install(before: Option<Seq<char>>, stem: Seq<char>) -> Option<Seq<char>> {
    match before {
        Some(s) => Some(s),
        None => Some(stem),
    }
}

impl CrashHandlers {
    /// The name under which crashes are reported, where handlers are installed.
    pub closed spec fn installed(&self) -> Option<Seq<char>> {
        text::opt_view(self.stem)
    }

    /// No handlers are installed.
    pub fn new() -> (h: Self)
        ensures
            h.installed() is None,
    {
        CrashHandlers { stem: None }
    }

    /// Installs the handlers, unless they are installed; whoever asks first
    /// gives the name.
    pub fn install(&mut self, stem: &str) -> (g: CrashGuard)
        ensures
            final(self).installed() == after_install(old(self).installed(), stem@),
            final(self).installed() == Some(g.reports_as()),
    {
        if self.stem.is_none() {
            self.stem = Some(stem.to_owned());
        }
        match &self.stem {
            Some(s) => CrashGuard { stem: s.clone() },
            None => CrashGuard { stem: stem.to_owned() },
        }
    }
}

impl CrashGuard {
    /// The name under which crashes are reported.
    pub closed spec fn reports_as(&self) -> Seq<char> {
        self.stem@
    }
}

impl MinidumpHandle {
    /// The name under which crashes are reported.
    pub closed spec fn reports_as(&self) -> Seq<char> {
        self.guard.reports_as()
    }
}

/// Installs the handlers under the name of the daemon.
pub fn install_panic_hook(handlers: &mut CrashHandlers)
    ensures
        final(handlers).installed() == after_install(old(handlers).installed(), BINARY_STEM@),
{
    let _guard = handlers.install(BINARY_STEM);
}

/// Installs the handlers under the name of the daemon, and keeps a claim on
/// them.
#[must_use]
pub fn install_minidump_handler(handlers: &mut CrashHandlers) -> (r: Option<MinidumpHandle>)
    ensures
        final(handlers).installed() == after_install(old(handlers).installed(), BINARY_STEM@),
        r matches Some(h) && final(handlers).installed() == Some(h.reports_as()),
{
    let guard = handlers.install(BINARY_STEM);
    Some(MinidumpHandle { guard })
}

/// Installing the handlers a second time changes nothing: both ways of
/// installing share one registration.
pub proof fn installing_is_idempotent(before: Option<Seq<char>>, stem: Seq<char>, other: Seq<char>)
    ensures
        after_install(after_install(before, stem), other) == after_install(before, stem),
{
}

/// The name of a crash report.
pub fn crash_file_name(timestamp: u64) -> (r: String)
    ensures
        r@ == "crash-"@ + text::decimal(timestamp as nat) + "-zccache-daemon-panic.txt"@,
{
    let ts = render_decimal(timestamp as u128);
    let mut r = joined("crash-", ts.as_str());
    r.append("-zccache-daemon-panic.txt");
    r
}

/// The process that has crashed.
pub struct CrashedProcess {
    /// Version of the daemon.
    pub version: String,
    /// Operating system.
    pub os: String,
    /// Processor.
    pub arch: String,
    /// Process identifier.
    pub pid: u32,
    /// Time of the crash, in seconds.
    pub timestamp: u64,
}

/// The text of a crash report.
pub open spec fn crash_report_text(
    p: CrashedProcess,
    panic_info: Seq<char>,
    backtrace: Seq<char>,
) -> Seq<char> {
    "zccache zccache-daemon crash report (panic)\n"@
        + "===========================================\n"@ + "Version: "@ + p.version@
        + "\nBinary:  zccache-daemon\nOS:      "@ + p.os@ + "\nArch:    "@ + p.arch@
        + "\nPID:     "@ + text::decimal(p.pid as nat) + "\nTime:    "@ + text::decimal(
        p.timestamp as nat,
    ) + "\n\nPanic:\n"@ + panic_info + "\n\nBacktrace:\n"@ + backtrace + "\n"@
}

/// The crash report of a process.
pub fn crash_report(p: &CrashedProcess, panic_info: &str, backtrace: &str) -> (r: String)
    ensures
        r@ == crash_report_text(*p, panic_info@, backtrace@),
{
    let mut r = "zccache zccache-daemon crash report (panic)\n".to_owned();
    r.append("===========================================\n");
    r.append("Version: ");
    r.append(p.version.as_str());
    r.append("\nBinary:  zccache-daemon\nOS:      ");
    r.append(p.os.as_str());
    r.append("\nArch:    ");
    r.append(p.arch.as_str());
    r.append("\nPID:     ");
    let pid = render_decimal(p.pid as u128);
    r.append(pid.as_str());
    r.append("\nTime:    ");
    let ts = render_decimal(p.timestamp as u128);
    r.append(ts.as_str());
    r.append("\n\nPanic:\n");
    r.append(panic_info);
    r.append("\n\nBacktrace:\n");
    r.append(backtrace);
    r.append("\n");
    r
}

/// The first name under which crashes are reported stays, however often one is
/// installed.
pub proof fn the_first_name_stays(
    h: CrashHandlers,
    first: &mut CrashHandlers,
    second: &mut CrashHandlers,
    third: &mut CrashHandlers,
    stem: &str,
    other: &str,
    g1: CrashGuard,
    g2: CrashGuard,
    m: Option<MinidumpHandle>,
)
    requires
        call_ensures(CrashHandlers::new, (), h),
        *first == h,
        call_ensures(CrashHandlers::install, (first, stem), g1),
        *second == *final(first),
        call_ensures(CrashHandlers::install, (second, other), g2),
        *third == *final(second),
        call_ensures(install_minidump_handler, (third,), m),
    ensures
        g1.reports_as() == stem@,
        g2.reports_as() == stem@,
        m is Some && m->0.reports_as() == stem@,
        final(third).installed() == Some(stem@),
{
}

/// The daemon reports its crashes under its own name.
pub proof fn the_daemon_reports_under_its_name(
    h: CrashHandlers,
    a: &mut CrashHandlers,
    b: &mut CrashHandlers,
    m: Option<MinidumpHandle>,
)
    requires
        call_ensures(CrashHandlers::new, (), h),
        *a == h,
        *b == h,
        call_ensures(install_panic_hook, (a,), ()),
        call_ensures(install_minidump_handler, (b,), m),
    ensures
        h.installed() is None,
        final(a).installed() == Some("zccache-daemon"@),
        m is Some && m->0.reports_as() == "zccache-daemon"@,
{
}

/// Whether a text has another within it.
pub open spec fn holds(all: Seq<char>, part: Seq<char>) -> bool {
    exists|before: Seq<char>, after: Seq<char>| all == #[trigger] (before + part + after)
}

/// A report tells of the process all there is to know: its version, its system,
/// its number, the time, the panic and where it came from.
pub proof fn reports_tell_everything(
    p: CrashedProcess,
    panic_info: &str,
    backtrace: &str,
    r: String,
)
    requires
        call_ensures(crash_report, (&p, panic_info, backtrace), r),
    ensures
        holds(r@, "Version: "@ + p.version@),
        holds(r@, "OS:      "@ + p.os@),
        holds(r@, "Arch:    "@ + p.arch@),
        holds(r@, "PID:     "@ + text::decimal(p.pid as nat)),
        holds(r@, "Time:    "@ + text::decimal(p.timestamp as nat)),
        holds(r@, "Panic:\n"@ + panic_info@),
        holds(r@, "Backtrace:\n"@ + backtrace@),
{
    let head = "zccache zccache-daemon crash report (panic)\n"@
        + "===========================================\n"@;
    let s1 = head + "Version: "@ + p.version@;
    let l2 = "\nBinary:  zccache-daemon\nOS:      "@;
    let l3 = "\nArch:    "@;
    let l4 = "\nPID:     "@;
    let l5 = "\nTime:    "@;
    let l6 = "\n\nPanic:\n"@;
    let l7 = "\n\nBacktrace:\n"@;
    let pid = text::decimal(p.pid as nat);
    let ts = text::decimal(p.timestamp as nat);
    let s2 = s1 + l2 + p.os@;
    let s3 = s2 + l3 + p.arch@;
    let s4 = s3 + l4 + pid;
    let s5 = s4 + l5 + ts;
    let s6 = s5 + l6 + panic_info@;
    let s7 = s6 + l7 + backtrace@;
    let a7 = "\n"@;
    let a6 = l7 + backtrace@ + a7;
    let a5 = l6 + panic_info@ + a6;
    let a4 = l5 + ts + a5;
    let a3 = l4 + pid + a4;
    let a2 = l3 + p.arch@ + a3;
    let a1 = l2 + p.os@ + a2;
    assert(r@ == s7 + a7);
    labels_end_their_lines();
    part_held(r@, s6, l7, "Backtrace:\n"@, backtrace@, a7);
    assert(s7 + a7 =~= s6 + a6);
    part_held(r@, s5, l6, "Panic:\n"@, panic_info@, a6);
    assert(s6 + a6 =~= s5 + a5);
    part_held(r@, s4, l5, "Time:    "@, ts, a5);
    assert(s5 + a5 =~= s4 + a4);
    part_held(r@, s3, l4, "PID:     "@, pid, a4);
    assert(s4 + a4 =~= s3 + a3);
    part_held(r@, s2, l3, "Arch:    "@, p.arch@, a3);
    assert(s3 + a3 =~= s2 + a2);
    part_held(r@, s1, l2, "OS:      "@, p.os@, a2);
    assert(s2 + a2 =~= s1 + a1);
    assert(r@ =~= head + ("Version: "@ + p.version@) + a1);
}

proof fn labels_end_their_lines()
    ensures
        "Backtrace:\n"@.len() == 11 && "\n\nBacktrace:\n"@.len() == 13,
        "\n\nBacktrace:\n"@.skip(2) == "Backtrace:\n"@,
        "Panic:\n"@.len() == 7 && "\n\nPanic:\n"@.len() == 9,
        "\n\nPanic:\n"@.skip(2) == "Panic:\n"@,
        "Time:    "@.len() == 9 && "\nTime:    "@.len() == 10,
        "\nTime:    "@.skip(1) == "Time:    "@,
        "PID:     "@.len() == 9 && "\nPID:     "@.len() == 10,
        "\nPID:     "@.skip(1) == "PID:     "@,
        "Arch:    "@.len() == 9 && "\nArch:    "@.len() == 10,
        "\nArch:    "@.skip(1) == "Arch:    "@,
        "OS:      "@.len() == 9 && "\nBinary:  zccache-daemon\nOS:      "@.len() == 34,
        "\nBinary:  zccache-daemon\nOS:      "@.skip(25) == "OS:      "@,
{
    reveal_strlit("Backtrace:\n");
    reveal_strlit("\n\nBacktrace:\n");
    reveal_strlit("Panic:\n");
    reveal_strlit("\n\nPanic:\n");
    reveal_strlit("Time:    ");
    reveal_strlit("\nTime:    ");
    reveal_strlit("PID:     ");
    reveal_strlit("\nPID:     ");
    reveal_strlit("Arch:    ");
    reveal_strlit("\nArch:    ");
    reveal_strlit("OS:      ");
    reveal_strlit("\nBinary:  zccache-daemon\nOS:      ");
    assert("\n\nBacktrace:\n"@.skip(2) =~= "Backtrace:\n"@);
    assert("\n\nPanic:\n"@.skip(2) =~= "Panic:\n"@);
    assert("\nTime:    "@.skip(1) =~= "Time:    "@);
    assert("\nPID:     "@.skip(1) =~= "PID:     "@);
    assert("\nArch:    "@.skip(1) =~= "Arch:    "@);
    assert("\nBinary:  zccache-daemon\nOS:      "@.skip(25) =~= "OS:      "@);
}

proof fn part_held(
    all: Seq<char>,
    before: Seq<char>,
    line: Seq<char>,
    label: Seq<char>,
    value: Seq<char>,
    after: Seq<char>,
)
    requires
        all == before + line + value + after,
        label.len() <= line.len(),
        line.skip(line.len() - label.len()) == label,
    ensures
        holds(all, label + value),
{
    let lead = before + line.take(line.len() - label.len());
    assert(line =~= line.take(line.len() - label.len()) + line.skip(line.len() - label.len()));
    assert(all =~= lead + (label + value) + after);
}

/// Reports of two times are not written to one file.
pub proof fn crash_files_are_told_apart(a: u64, b: u64, x: String, y: String)
    requires
        call_ensures(crash_file_name, (a,), x),
        call_ensures(crash_file_name, (b,), y),
        a != b,
    ensures
        x@ != y@,
        text::begins(x@, "crash-"@),
        text::ends(x@, "-zccache-daemon-panic.txt"@),
{
    let p = "crash-"@;
    let q = "-zccache-daemon-panic.txt"@;
    let m = text::decimal(a as nat);
    let n = text::decimal(b as nat);
    text::numbers_are_read_back(a as nat, b as nat);
    assert(x@.take(p.len() as int) =~= p);
    assert(x@.skip(x@.len() - q.len()) =~= q);
    if x@ == y@ {
        assert(m =~= x@.subrange(p.len() as int, x@.len() - q.len()));
        assert(n =~= y@.subrange(p.len() as int, y@.len() - q.len()));
    }
}

} // verus!
