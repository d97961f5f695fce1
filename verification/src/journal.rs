//! Lines of the compile journal.

use crate::miss_reason;
use crate::text::str_eq;
use crate::text;
use vstd::prelude::*;

verus! {

/// Who asked for a compilation.
#[derive(Clone, Debug)]
pub struct JournalContext {
    /// The compiler.
    pub compiler: String,
    /// Its arguments.
    pub args: Vec<String>,
    /// Its working directory.
    pub cwd: String,
    /// Its environment.
    pub env: Option<Vec<(String, String)>>,
    /// The session.
    pub session_id: Option<String>,
}

/// What has changed since the last compilation.
#[derive(Clone, Debug, PartialEq, Eq)]
pub struct MissDiff {
    /// Files that have changed.
    pub changed_files: Vec<String>,
    /// Flags that have changed.
    pub changed_flags: Vec<String>,
    /// Dependencies that have changed.
    pub changed_deps: Vec<String>,
}

/// Time spent in each phase, as the journal shows it.
#[derive(Clone, Copy, Debug, PartialEq, Eq, Structural)]
pub struct SelfProfileNs {
    /// Hashing inputs.
    pub hash_inputs: u128,
    /// Looking up the artifact.
    pub lookup: u128,
    /// Writing cached outputs.
    pub decompress: u128,
    /// Storing a new artifact.
    pub store: u128,
}

/// Time spent in each phase, as it is measured.
#[derive(Clone, Copy, Debug, PartialEq, Eq, Structural)]
pub struct SelfProfileSpans {
    /// Hashing inputs.
    pub hash_inputs_ns: u128,
    /// Looking up the artifact.
    pub lookup_ns: u128,
    /// Writing cached outputs.
    pub decompress_ns: u128,
    /// Storing a new artifact.
    pub store_ns: u128,
}

/// The sum of two times, or the largest time where it is larger.
pub open spec fn sat_sum(a: u128, b: u128) -> u128 {
    if a + b > u128::MAX {
        u128::MAX
    } else {
        (a + b) as u128
    }
}

impl Default for SelfProfileSpans {
    fn default() -> (s: Self)
        ensures
            s == (SelfProfileSpans {
                hash_inputs_ns: 0,
                lookup_ns: 0,
                decompress_ns: 0,
                store_ns: 0,
            }),
    {
        SelfProfileSpans { hash_inputs_ns: 0, lookup_ns: 0, decompress_ns: 0, store_ns: 0 }
    }
}

fn sat_add(a: u128, b: u128) -> (r: u128)
    ensures
        r == sat_sum(a, b),
{
    if a > u128::MAX - b {
        u128::MAX
    } else {
        a + b
    }
}

impl SelfProfileSpans {
    /// Adds time spent hashing inputs.
    pub fn add_hash_inputs_ns(&mut self, ns: u128)
        ensures
            *final(self) == (SelfProfileSpans {
                hash_inputs_ns: sat_sum(old(self).hash_inputs_ns, ns),
                ..*old(self)
            }),
    {
        self.hash_inputs_ns = sat_add(self.hash_inputs_ns, ns);
    }

    /// Adds time spent looking up the artifact.
    pub fn add_lookup_ns(&mut self, ns: u128)
        ensures
            *final(self) == (SelfProfileSpans {
                lookup_ns: sat_sum(old(self).lookup_ns, ns),
                ..*old(self)
            }),
    {
        self.lookup_ns = sat_add(self.lookup_ns, ns);
    }

    /// Adds time spent writing cached outputs.
    pub fn add_decompress_ns(&mut self, ns: u128)
        ensures
            *final(self) == (SelfProfileSpans {
                decompress_ns: sat_sum(old(self).decompress_ns, ns),
                ..*old(self)
            }),
    {
        self.decompress_ns = sat_add(self.decompress_ns, ns);
    }

    /// Adds time spent storing a new artifact.
    pub fn add_store_ns(&mut self, ns: u128)
        ensures
            *final(self) == (SelfProfileSpans {
                store_ns: sat_sum(old(self).store_ns, ns),
                ..*old(self)
            }),
    {
        self.store_ns = sat_add(self.store_ns, ns);
    }
}

/// A span never shrinks, whatever is added to it.
pub proof fn spans_never_shrink(a: u128, b: u128)
    ensures
        sat_sum(a, b) >= a,
        sat_sum(u128::MAX, b) == u128::MAX,
{
}

/// A line of the journal.
#[derive(Clone, Debug)]
pub struct JournalEntry {
    /// When it was written; empty until it is stamped.
    pub ts: String,
    /// How the compilation came out.
    pub outcome: &'static str,
    /// The compiler.
    pub compiler: String,
    /// Its arguments.
    pub args: Vec<String>,
    /// Its working directory.
    pub cwd: String,
    /// Its environment.
    pub env: Option<Vec<(String, String)>>,
    /// Its exit code.
    pub exit_code: i32,
    /// The session.
    pub session_id: Option<String>,
    /// How long it took.
    pub latency_ns: u128,
    /// Name of the crate, in a profiled session.
    pub crate_name: Option<String>,
    /// Type of the crate, in a profiled session.
    pub crate_type: Option<String>,
    /// Extension of the output, in a profiled session.
    pub output_ext: Option<String>,
    /// Why it missed.
    pub miss_reason: Option<String>,
    /// What has changed, in a profiled session.
    pub miss_diff: Option<MissDiff>,
    /// Time spent in each phase, in a profiled session.
    pub self_profile_ns: Option<SelfProfileNs>,
}

/// The argument after the first one that equals `flag`.
pub open spec fn value_after(args: Seq<Seq<char>>, flag: Seq<char>) -> Option<Seq<char>>
    decreases args.len(),
{
    if args.len() < 2 {
        None
    } else if args[0] == flag {
        Some(args[1])
    } else {
        value_after(args.drop_first(), flag)
    }
}

/// The extension of what a crate of a type is compiled to, for the types that
/// are linked.
pub open spec fn ext_of_type(crate_type: Option<Seq<char>>) -> Option<Seq<char>> {
    match crate_type {
        Some(t) => if t == "bin"@ {
            Some("exe"@)
        } else if t == "proc-macro"@ {
            Some("so"@)
        } else {
            None
        },
        None => None,
    }
}

fn flag_value(args: &Vec<String>, flag: &str) -> (r: Option<String>)
    ensures
        text::opt_view(r) == value_after(text::views(args@), flag@),
{
    let ghost s = text::views(args@);
    let mut i: usize = 0;
    assert(s.skip(0) =~= s);
    while i < args.len() && args.len() - i >= 2
        invariant
            i <= args.len(),
            s == text::views(args@),
            value_after(s, flag@) == value_after(s.skip(i as int), flag@),
        decreases args.len() - i,
    {
        assert(s.skip(i as int)[0] == args@[i as int]@);
        assert(s.skip(i as int)[1] == args@[i + 1]@);
        assert(s.skip(i as int).drop_first() =~= s.skip(i + 1));
        if str_eq(args[i].as_str(), flag) {
            return Some(args[i + 1].clone());
        }
        i = i + 1;
    }
    None
}

/// Whether an outcome is a miss.
pub open spec fn is_miss(outcome: Seq<char>) -> bool {
    outcome == "miss"@ || outcome == "link_miss"@
}

/// Whether nothing has changed.
pub open spec fn no_changes(d: MissDiff) -> bool {
    d.changed_files@.len() == 0 && d.changed_flags@.len() == 0 && d.changed_deps@.len() == 0
}

/// The contents of an optional static text.
pub open spec fn opt_static_view(s: Option<&'static str>) -> Option<Seq<char>> {
    match s {
        Some(s) => Some(s@),
        None => None,
    }
}

impl JournalEntry {
    /// The line of a compilation, without the fields of a profiled session.
    pub fn new(
        ctx: JournalContext,
        outcome: &'static str,
        exit_code: i32,
        latency_ns: u128,
        miss_reason: Option<&'static str>,
    ) -> (e: Self)
        ensures
            e.ts@.len() == 0,
            e.outcome == outcome,
            e.compiler == ctx.compiler,
            e.args == ctx.args,
            e.cwd == ctx.cwd,
            e.env == ctx.env,
            e.exit_code == exit_code,
            e.session_id == ctx.session_id,
            e.latency_ns == latency_ns,
            text::opt_view(e.miss_reason) == opt_static_view(miss_reason),
            e.crate_name is None,
            e.crate_type is None,
            e.output_ext is None,
            e.miss_diff is None,
            e.self_profile_ns is None,
    {
        let reason = match miss_reason {
            Some(r) => Some(r.to_owned()),
            None => None,
        };
        JournalEntry {
            ts: String::new(),
            outcome,
            compiler: ctx.compiler,
            args: ctx.args,
            cwd: ctx.cwd,
            env: ctx.env,
            exit_code,
            session_id: ctx.session_id,
            latency_ns,
            crate_name: None,
            crate_type: None,
            output_ext: None,
            miss_reason: reason,
            miss_diff: None,
            self_profile_ns: None,
        }
    }

    /// The line with the fields of a profiled session: the crate that the
    /// arguments name, the time of each phase, and, for a miss, what has
    /// changed (nothing is known to have changed).
    pub fn with_profile_fields(self, spans: Option<SelfProfileSpans>) -> (e: Self)
        ensures
            text::opt_view(e.crate_name) == value_after(text::views(self.args@), "--crate-name"@),
            text::opt_view(e.crate_type) == value_after(text::views(self.args@), "--crate-type"@),
            text::opt_view(e.output_ext) == ext_of_type(
                value_after(text::views(self.args@), "--crate-type"@),
            ),
            e.miss_diff is Some <==> is_miss(self.outcome@),
            e.miss_diff matches Some(d) ==> no_changes(d),
            e.self_profile_ns == match spans {
                Some(s) => Some(
                    SelfProfileNs {
                        hash_inputs: s.hash_inputs_ns,
                        lookup: s.lookup_ns,
                        decompress: s.decompress_ns,
                        store: s.store_ns,
                    },
                ),
                None => None,
            },
            e.ts == self.ts,
            e.outcome == self.outcome,
            e.compiler == self.compiler,
            e.args == self.args,
            e.cwd == self.cwd,
            e.env == self.env,
            e.exit_code == self.exit_code,
            e.session_id == self.session_id,
            e.latency_ns == self.latency_ns,
            e.miss_reason == self.miss_reason,
    {
        let crate_name = flag_value(&self.args, "--crate-name");
        let crate_type = flag_value(&self.args, "--crate-type");
        let output_ext = match &crate_type {
            Some(t) => if str_eq(t.as_str(), "bin") {
                Some("exe".to_owned())
            } else if str_eq(t.as_str(), "proc-macro") {
                Some("so".to_owned())
            } else {
                None
            },
            None => None,
        };
        let miss_diff = if str_eq(self.outcome, "miss") || str_eq(self.outcome, "link_miss") {
            Some(
                MissDiff {
                    changed_files: Vec::new(),
                    changed_flags: Vec::new(),
                    changed_deps: Vec::new(),
                },
            )
        } else {
            None
        };
        let self_profile_ns = match spans {
            Some(s) => Some(
                SelfProfileNs {
                    hash_inputs: s.hash_inputs_ns,
                    lookup: s.lookup_ns,
                    decompress: s.decompress_ns,
                    store: s.store_ns,
                },
            ),
            None => None,
        };
        JournalEntry {
            ts: self.ts,
            outcome: self.outcome,
            compiler: self.compiler,
            args: self.args,
            cwd: self.cwd,
            env: self.env,
            exit_code: self.exit_code,
            session_id: self.session_id,
            latency_ns: self.latency_ns,
            crate_name,
            crate_type,
            output_ext,
            miss_reason: self.miss_reason,
            miss_diff,
            self_profile_ns,
        }
    }

    /// The line with the time at which it is written.
    pub fn stamped(self, ts: String) -> (e: Self)
        ensures
            e == (JournalEntry { ts, ..self }),
    {
        let mut e = self;
        e.ts = ts;
        e
    }
}

/// The time of each phase, estimated from the whole: a hit hashes, looks up
/// and writes cached outputs, a miss hashes, looks up and stores. Nothing for
/// any other outcome.
pub open spec fn approx_spans(outcome: Seq<char>, total_ns: u128) -> Option<SelfProfileSpans> {
    if outcome == "hit"@ || outcome == "link_hit"@ {
        let third = total_ns / 3;
        Some(
            SelfProfileSpans {
                hash_inputs_ns: third,
                lookup_ns: third,
                decompress_ns: (total_ns - 2 * third) as u128,
                store_ns: 0,
            },
        )
    } else if is_miss(outcome) {
        let quarter = total_ns / 4;
        Some(
            SelfProfileSpans {
                hash_inputs_ns: quarter,
                lookup_ns: quarter,
                decompress_ns: 0,
                store_ns: (total_ns - 2 * quarter) as u128,
            },
        )
    } else {
        None
    }
}

/// The time of each phase, estimated from the whole.
pub fn derive_approx_spans(outcome: &str, total_ns: u128) -> (r: Option<SelfProfileSpans>)
    ensures
        r == approx_spans(outcome@, total_ns),
{
    let mut spans = SelfProfileSpans::default();
    if str_eq(outcome, "hit") || str_eq(outcome, "link_hit") {
        let third: u128 = total_ns / 3;
        spans.add_hash_inputs_ns(third);
        spans.add_lookup_ns(third);
        spans.add_decompress_ns(total_ns - 2 * third);
        Some(spans)
    } else if str_eq(outcome, "miss") || str_eq(outcome, "link_miss") {
        let quarter: u128 = total_ns / 4;
        spans.add_hash_inputs_ns(quarter);
        spans.add_lookup_ns(quarter);
        spans.add_store_ns(total_ns - 2 * quarter);
        Some(spans)
    } else {
        None
    }
}

/// The estimated times of the phases add up to the whole.
pub proof fn spans_add_up(outcome: Seq<char>, total_ns: u128)
    ensures
        approx_spans(outcome, total_ns) matches Some(s) ==> s.hash_inputs_ns + s.lookup_ns
            + s.decompress_ns + s.store_ns == total_ns,
{
}

/// From four nanoseconds on, every phase that an outcome goes through has some
/// time, and the phase that it does not go through has none.
pub proof fn spans_are_shared_out(outcome: Seq<char>, total_ns: u128)
    requires
        total_ns >= 4,
    ensures
        approx_spans(outcome, total_ns) matches Some(s) ==> s.hash_inputs_ns > 0 && s.lookup_ns > 0
            && (s.decompress_ns > 0 <==> !is_miss(outcome)) && (s.store_ns > 0 <==> is_miss(
            outcome,
        )),
{
    reveal_strlit("miss");
    reveal_strlit("link_miss");
    reveal_strlit("hit");
    reveal_strlit("link_hit");
    assert("hit"@[0] != "miss"@[0]);
    assert("hit"@[0] != "link_miss"@[0]);
    assert("link_hit"@[5] != "link_miss"@[5]);
    assert("link_hit"@[0] != "miss"@[0]);
}

/// The reason of a miss: a compile miss without a known reason whose
/// invocation cannot be cached is attributed to that.
pub fn compile_miss_reason(
    outcome: &str,
    default_reason: Option<&'static str>,
    non_cacheable: bool,
) -> (r: Option<&'static str>)
    ensures
        opt_static_view(r) == if outcome@ == "miss"@ && opt_static_view(default_reason) == Some(
            miss_reason::UNKNOWN@,
        ) && non_cacheable {
            Some(miss_reason::UNCACHEABLE_INPUT@)
        } else {
            opt_static_view(default_reason)
        },
{
    let unknown = match default_reason {
        Some(d) => str_eq(d, miss_reason::UNKNOWN),
        None => false,
    };
    if str_eq(outcome, "miss") && unknown && non_cacheable {
        Some(miss_reason::UNCACHEABLE_INPUT)
    } else {
        default_reason
    }
}

proof fn value_behind_the_first_flag(args: Seq<Seq<char>>, flag: Seq<char>)
    ensures
        value_after(args, flag) is None ==> forall|i: int|
            0 <= i < args.len() - 1 ==> #[trigger] args[i] != flag,
        value_after(args, flag) is Some ==> exists|i: int|
            0 <= i < args.len() - 1 && #[trigger] args[i] == flag && Some(args[i + 1])
                == value_after(args, flag) && forall|j: int| 0 <= j < i ==> #[trigger] args[j] != flag,
    decreases args.len(),
{
    if args.len() >= 2 && args[0] != flag {
        let rest = args.drop_first();
        value_behind_the_first_flag(rest, flag);
        if value_after(args, flag) is Some {
            let i = choose|i: int|
                0 <= i < rest.len() - 1 && #[trigger] rest[i] == flag && Some(rest[i + 1])
                    == value_after(rest, flag) && forall|j: int|
                    0 <= j < i ==> #[trigger] rest[j] != flag;
            assert(args[i + 1] == rest[i]);
            assert(args[i + 1 + 1] == rest[i + 1]);
            assert forall|j: int| 0 <= j < i + 1 implies #[trigger] args[j] != flag by {
                if j > 0 {
                    assert(rest[j - 1] == args[j]);
                }
            }
        } else {
            assert forall|i: int| 0 <= i < args.len() - 1 implies #[trigger] args[i] != flag by {
                if i > 0 {
                    assert(rest[i - 1] == args[i]);
                }
            }
        }
    }
}

/// The name and the kind of a crate are the arguments behind the first flag that
/// announces them, and are missing only where no argument stands behind one. A
/// program ends in `exe`, a procedural macro in `so`.
pub proof fn crates_are_named_by_their_arguments(
    entry: JournalEntry,
    spans: Option<SelfProfileSpans>,
    e: JournalEntry,
    i: int,
)
    requires
        call_ensures(JournalEntry::with_profile_fields, (entry, spans), e),
        0 <= i < entry.args@.len() - 1,
    ensures
        entry.args@[i]@ == "--crate-name"@ && (forall|j: int|
            0 <= j < i ==> (#[trigger] entry.args@[j])@ != "--crate-name"@) ==> e.crate_name is Some
            && e.crate_name->0@ == entry.args@[i + 1]@,
        entry.args@[i]@ == "--crate-type"@ && (forall|j: int|
            0 <= j < i ==> (#[trigger] entry.args@[j])@ != "--crate-type"@) ==> e.crate_type is Some
            && e.crate_type->0@ == entry.args@[i + 1]@,
        e.crate_name is None ==> entry.args@[i]@ != "--crate-name"@,
        e.crate_type is None ==> entry.args@[i]@ != "--crate-type"@,
        e.output_ext is Some <==> e.crate_type is Some && (e.crate_type->0@ == "bin"@
            || e.crate_type->0@ == "proc-macro"@),
        e.crate_type is Some && e.crate_type->0@ == "bin"@ ==> e.output_ext is Some
            && e.output_ext->0@ == "exe"@,
        e.crate_type is Some && e.crate_type->0@ == "proc-macro"@ ==> e.output_ext is Some
            && e.output_ext->0@ == "so"@,
{
    let args = text::views(entry.args@);
    reveal_strlit("bin");
    reveal_strlit("proc-macro");
    assert("bin"@.len() != "proc-macro"@.len());
    assert(forall|k: int| 0 <= k < args.len() ==> #[trigger] args[k] == entry.args@[k]@);
    value_behind_the_first_flag(args, "--crate-name"@);
    value_behind_the_first_flag(args, "--crate-type"@);
    assert(args[i] == entry.args@[i]@);
    assert(args[i + 1] == entry.args@[i + 1]@);
    if entry.args@[i]@ == "--crate-name"@ && (forall|j: int|
        0 <= j < i ==> (#[trigger] entry.args@[j])@ != "--crate-name"@) {
        let k = choose|k: int|
            0 <= k < args.len() - 1 && #[trigger] args[k] == "--crate-name"@ && Some(args[k + 1])
                == value_after(args, "--crate-name"@) && forall|j: int|
                0 <= j < k ==> #[trigger] args[j] != "--crate-name"@;
        assert(entry.args@[k]@ == args[k]);
        assert(k == i);
    }
    if entry.args@[i]@ == "--crate-type"@ && (forall|j: int|
        0 <= j < i ==> (#[trigger] entry.args@[j])@ != "--crate-type"@) {
        let k = choose|k: int|
            0 <= k < args.len() - 1 && #[trigger] args[k] == "--crate-type"@ && Some(args[k + 1])
                == value_after(args, "--crate-type"@) && forall|j: int|
                0 <= j < k ==> #[trigger] args[j] != "--crate-type"@;
        assert(entry.args@[k]@ == args[k]);
        assert(k == i);
    }
}

/// A line of the journal tells the request as it came and how it ended; what is
/// added to it later changes nothing of that, and only misses get a difference.
pub proof fn lines_keep_what_was_asked(
    ctx: JournalContext,
    outcome: &'static str,
    exit_code: i32,
    latency_ns: u128,
    reason: Option<&'static str>,
    spans: Option<SelfProfileSpans>,
    ts: String,
    fresh: JournalEntry,
    profiled: JournalEntry,
    e: JournalEntry,
)
    requires
        call_ensures(JournalEntry::new, (ctx, outcome, exit_code, latency_ns, reason), fresh),
        call_ensures(JournalEntry::with_profile_fields, (fresh, spans), profiled),
        call_ensures(JournalEntry::stamped, (profiled, ts), e),
    ensures
        e.ts == ts,
        e.outcome@ == outcome@,
        e.compiler == ctx.compiler,
        e.args == ctx.args,
        e.cwd == ctx.cwd,
        e.env == ctx.env,
        e.session_id == ctx.session_id,
        e.exit_code == exit_code,
        e.latency_ns == latency_ns,
        reason is None <==> e.miss_reason is None,
        reason is Some ==> e.miss_reason->0@ == reason->0@,
        e.miss_diff is Some <==> outcome@ == "miss"@ || outcome@ == "link_miss"@,
        e.miss_diff matches Some(d) ==> d.changed_files@.len() == 0 && d.changed_flags@.len() == 0
            && d.changed_deps@.len() == 0,
        spans is None <==> e.self_profile_ns is None,
        spans matches Some(s) ==> e.self_profile_ns->0.hash_inputs == s.hash_inputs_ns
            && e.self_profile_ns->0.lookup == s.lookup_ns && e.self_profile_ns->0.decompress
            == s.decompress_ns && e.self_profile_ns->0.store == s.store_ns,
{
}

/// Only a miss for no known reason, of an input that cannot be cached, is given
/// another reason; every other one stays.
pub proof fn reasons_stay_unless_unknown(
    outcome: &str,
    reason: Option<&'static str>,
    non_cacheable: bool,
    r: Option<&'static str>,
)
    requires
        call_ensures(compile_miss_reason, (outcome, reason, non_cacheable), r),
    ensures
        reason is None ==> r is None,
        reason is Some ==> r is Some,
        !non_cacheable && reason is Some ==> r->0@ == reason->0@,
        outcome@ != "miss"@ && reason is Some ==> r->0@ == reason->0@,
        reason is Some && reason->0@ != miss_reason::UNKNOWN@ ==> r->0@ == reason->0@,
        outcome@ == "miss"@ && reason is Some && reason->0@ == miss_reason::UNKNOWN@
            && non_cacheable ==> r->0@ == miss_reason::UNCACHEABLE_INPUT@,
{
}

/// Time is added to the span it is named after, and to no other; a span that is
/// full stays full.
pub proof fn time_is_added_to_its_span(
    a: &mut SelfProfileSpans,
    b: &mut SelfProfileSpans,
    c: &mut SelfProfileSpans,
    d: &mut SelfProfileSpans,
    ns: u128,
)
    requires
        call_ensures(SelfProfileSpans::add_hash_inputs_ns, (a, ns), ()),
        call_ensures(SelfProfileSpans::add_lookup_ns, (b, ns), ()),
        call_ensures(SelfProfileSpans::add_decompress_ns, (c, ns), ()),
        call_ensures(SelfProfileSpans::add_store_ns, (d, ns), ()),
    ensures
        old(a).hash_inputs_ns + ns <= u128::MAX ==> final(a).hash_inputs_ns == old(a).hash_inputs_ns + ns,
        old(a).hash_inputs_ns + ns > u128::MAX ==> final(a).hash_inputs_ns == u128::MAX,
        final(a).lookup_ns == old(a).lookup_ns && final(a).decompress_ns == old(a).decompress_ns
            && final(a).store_ns == old(a).store_ns,
        old(b).lookup_ns + ns <= u128::MAX ==> final(b).lookup_ns == old(b).lookup_ns + ns,
        old(b).lookup_ns + ns > u128::MAX ==> final(b).lookup_ns == u128::MAX,
        final(b).hash_inputs_ns == old(b).hash_inputs_ns && final(b).decompress_ns
            == old(b).decompress_ns && final(b).store_ns == old(b).store_ns,
        old(c).decompress_ns + ns <= u128::MAX ==> final(c).decompress_ns == old(c).decompress_ns + ns,
        old(c).decompress_ns + ns > u128::MAX ==> final(c).decompress_ns == u128::MAX,
        final(c).hash_inputs_ns == old(c).hash_inputs_ns && final(c).lookup_ns == old(c).lookup_ns
            && final(c).store_ns == old(c).store_ns,
        old(d).store_ns + ns <= u128::MAX ==> final(d).store_ns == old(d).store_ns + ns,
        old(d).store_ns + ns > u128::MAX ==> final(d).store_ns == u128::MAX,
        final(d).hash_inputs_ns == old(d).hash_inputs_ns && final(d).lookup_ns == old(d).lookup_ns
            && final(d).decompress_ns == old(d).decompress_ns,
{
}

/// The time of a hit is shared out in thirds, that of a miss in quarters, with
/// what is left over to the last part; other outcomes have no shares.
pub proof fn times_are_shared_out_evenly(outcome: &str, total_ns: u128, r: Option<SelfProfileSpans>)
    requires
        call_ensures(derive_approx_spans, (outcome, total_ns), r),
    ensures
        r is Some <==> outcome@ == "hit"@ || outcome@ == "link_hit"@ || outcome@ == "miss"@
            || outcome@ == "link_miss"@,
        r matches Some(s) ==> s.hash_inputs_ns == s.lookup_ns && s.hash_inputs_ns + s.lookup_ns
            + s.decompress_ns + s.store_ns == total_ns,
        r is Some && (outcome@ == "hit"@ || outcome@ == "link_hit"@) ==> r->0.store_ns == 0
            && r->0.lookup_ns <= r->0.decompress_ns <= r->0.lookup_ns + 2,
        r is Some && (outcome@ == "miss"@ || outcome@ == "link_miss"@) ==> r->0.decompress_ns == 0
            && 2 * r->0.lookup_ns <= r->0.store_ns <= 2 * r->0.lookup_ns + 3,
{
    spans_add_up(outcome@, total_ns);
    reveal_strlit("hit");
    reveal_strlit("link_hit");
    reveal_strlit("miss");
    reveal_strlit("link_miss");
    assert("hit"@.len() == 3 && "link_hit"@.len() == 8 && "miss"@.len() == 4 && "link_miss"@.len()
        == 9);
}

} // verus!
