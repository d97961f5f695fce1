//! Priorities of compiler processes.

use crate::text::{str_eq, to_lower, trim};
use crate::text;
use vstd::prelude::*;

verus! {

/// The variable that sets the priority of compilers.
pub const COMPILE_PRIORITY_ENV: &'static str = "ZCCACHE_COMPILE_PRIORITY";

/// The variable that sets the priority of linkers.
pub const ZCCACHE_COMPILE_PRIORITY_LINK: &'static str = "ZCCACHE_COMPILE_PRIORITY_LINK";

/// The processor load from which a build machine counts as saturated, in
/// thousandths of a percent.
pub const AUTO_PRIORITY_SATURATED_CPU_MILLIPERCENT: u32 = 95_000;

/// The variables by which a build machine is recognised, the first one first.
pub const CI_DETECT_ENV_VARS: [&'static str; 8] = [
    "GITHUB_ACTIONS",
    "CI",
    "BUILDKITE",
    "CIRCLECI",
    "GITLAB_CI",
    "TF_BUILD",
    "TEAMCITY_VERSION",
    "JENKINS_URL",
];

/// Whether a value means no.
pub open spec fn says_no(lower: Seq<char>) -> bool {
    lower == "0"@ || lower == "false"@ || lower == "no"@ || lower == "off"@ || lower == "n"@
}

/// Whether a value means yes: it is not blank and does not mean no.
pub open spec fn truthy(value: Seq<char>) -> bool {
    let v = text::trimmed(value);
    v.len() > 0 && !says_no(text::lowered(v))
}

/// Whether the value means yes.
pub fn is_truthy(value: &str) -> (r: bool)
    ensures
        r == truthy(value@),
{
    let trimmed = trim(value);
    if trimmed.as_str().is_empty() {
        return false;
    }
    let lower = to_lower(trimmed.as_str());
    let l = lower.as_str();
    !(str_eq(l, "0") || str_eq(l, "false") || str_eq(l, "no") || str_eq(l, "off") || str_eq(l, "n"))
}

/// Whether a lookup has answered yes for a variable.
pub open spec fn answers_yes(answer: Option<String>) -> bool {
    match answer {
        Some(v) => truthy(v@),
        None => false,
    }
}

/// The first variable of a build machine for which the lookup answers yes.
pub fn is_ci_host_with_env<F: Fn(&str) -> Option<String>>(lookup: F) -> (r: Option<&'static str>)
    requires
        forall|i: int|
            0 <= i < 8 ==> call_requires(lookup, (#[trigger] CI_DETECT_ENV_VARS@[i],)),
    ensures
        match r {
            Some(var) => exists|i: int|
                #![trigger CI_DETECT_ENV_VARS@[i]]
                {
                    &&& 0 <= i < 8
                    &&& var == CI_DETECT_ENV_VARS@[i]
                    &&& exists|a: Option<String>|
                        call_ensures(lookup, (var,), a) && #[trigger] answers_yes(a)
                    &&& forall|j: int|
                        0 <= j < i ==> exists|a: Option<String>|
                            call_ensures(lookup, (#[trigger] CI_DETECT_ENV_VARS@[j],), a)
                                && !(#[trigger] answers_yes(a))
                },
            None => forall|j: int|
                0 <= j < 8 ==> exists|a: Option<String>|
                    call_ensures(lookup, (#[trigger] CI_DETECT_ENV_VARS@[j],), a) && !(
                    #[trigger] answers_yes(a)),
        },
{
    let mut i: usize = 0;
    while i < 8
        invariant
            i <= 8,
            forall|k: int|
                0 <= k < 8 ==> call_requires(lookup, (#[trigger] CI_DETECT_ENV_VARS@[k],)),
            forall|j: int|
                0 <= j < i ==> exists|a: Option<String>|
                    call_ensures(lookup, (#[trigger] CI_DETECT_ENV_VARS@[j],), a) && !(
                    #[trigger] answers_yes(a)),
        decreases 8 - i,
    {
        let var = CI_DETECT_ENV_VARS[i];
        let answer = lookup(var);
        let yes = match &answer {
            Some(v) => is_truthy(v.as_str()),
            None => false,
        };
        assert(yes == answers_yes(answer));
        if yes {
            assert(var == CI_DETECT_ENV_VARS@[i as int]);
            return Some(var);
        }
        i = i + 1;
    }
    None
}

/// The priority of a compiler process.
#[derive(Clone, Copy, Debug, PartialEq, Eq, Structural)]
pub enum CompilePriority {
    /// Decided by the load of the machine.
    Auto,
    /// As the daemon.
    Normal,
    /// Below the daemon.
    Low,
    /// Only when the machine is idle.
    Idle,
    /// Above the daemon.
    High,
}

impl Default for CompilePriority {
    fn default() -> (p: Self)
        ensures
            p == CompilePriority::Auto,
    {
        CompilePriority::Auto
    }
}

/// A priority that has no name.
#[derive(Clone, Debug, PartialEq, Eq)]
pub struct CompilePriorityParseError {
    /// The value, trimmed and in lower case.
    pub value: String,
}

/// A priority as it was asked for and as it is applied.
#[derive(Clone, Copy, Debug, PartialEq, Eq, Structural)]
pub struct CompilePriorityDecision {
    /// What was asked for.
    pub requested: CompilePriority,
    /// What is applied.
    pub effective: CompilePriority,
    /// Processor load at the time, in thousandths of a percent.
    pub cpu_usage_millipercent: Option<u32>,
}

/// The name of a priority.
pub open spec fn priority_name(p: CompilePriority) -> Seq<char> {
    match p {
        CompilePriority::Auto => "auto"@,
        CompilePriority::Normal => "normal"@,
        CompilePriority::Low => "low"@,
        CompilePriority::Idle => "idle"@,
        CompilePriority::High => "high"@,
    }
}

/// The priority of a name.
pub open spec fn priority_named(name: Seq<char>) -> Option<CompilePriority> {
    if name == "auto"@ {
        Some(CompilePriority::Auto)
    } else if name == "normal"@ {
        Some(CompilePriority::Normal)
    } else if name == "low"@ {
        Some(CompilePriority::Low)
    } else if name == "idle"@ {
        Some(CompilePriority::Idle)
    } else if name == "high"@ {
        Some(CompilePriority::High)
    } else {
        None
    }
}

/// The priority that a value names, whatever its case and the white space
/// round it.
pub open spec fn parsed(value: Seq<char>) -> Option<CompilePriority> {
    priority_named(text::lowered(text::trimmed(value)))
}

/// The priority that a value names; low where it names none.
pub open spec fn parsed_or_low(value: Seq<char>) -> CompilePriority {
    match parsed(value) {
        Some(p) => p,
        None => CompilePriority::Low,
    }
}

/// The value of the first variable of a name.
pub open spec fn env_value(env: Seq<(Seq<char>, Seq<char>)>, key: Seq<char>) -> Option<Seq<char>>
    decreases env.len(),
{
    if env.len() == 0 {
        None
    } else if env[0].0 == key {
        Some(env[0].1)
    } else {
        env_value(env.drop_first(), key)
    }
}

/// The contents of an optional environment; empty where there is none.
pub open spec fn env_view(env: Option<&[(String, String)]>) -> Seq<(Seq<char>, Seq<char>)> {
    match env {
        Some(vars) => text::pair_views(vars@),
        None => Seq::empty(),
    }
}

/// The contents of an optional text.
pub open spec fn opt_str_view(s: Option<&str>) -> Option<Seq<char>> {
    match s {
        Some(s) => Some(s@),
        None => None,
    }
}

/// The first of two optional values that is there.
pub open spec fn or_else(a: Option<Seq<char>>, b: Option<Seq<char>>) -> Option<Seq<char>> {
    match a {
        Some(v) => Some(v),
        None => b,
    }
}

/// The priority of a compiler: what the client says, else what the daemon's
/// environment says, else decided by load.
pub open spec fn client_priority(
    env: Seq<(Seq<char>, Seq<char>)>,
    daemon: Option<Seq<char>>,
) -> CompilePriority {
    match or_else(env_value(env, COMPILE_PRIORITY_ENV@), daemon) {
        Some(v) => parsed_or_low(v),
        None => CompilePriority::Auto,
    }
}

/// The priority of a compiler or linker. A linker has a variable of its own,
/// and without it runs low on an interactive machine and normal on a build
/// machine.
pub open spec fn link_priority(
    env: Seq<(Seq<char>, Seq<char>)>,
    is_link_like: bool,
    daemon_link: Option<Seq<char>>,
    daemon_compile: Option<Seq<char>>,
    is_ci: bool,
) -> CompilePriority {
    if is_link_like {
        match or_else(env_value(env, ZCCACHE_COMPILE_PRIORITY_LINK@), daemon_link) {
            Some(v) => parsed_or_low(v),
            None => if is_ci {
                CompilePriority::Normal
            } else {
                CompilePriority::Low
            },
        }
    } else {
        client_priority(env, daemon_compile)
    }
}

/// What the automatic priority means: on a build machine normal until the
/// processors are saturated; on an interactive one normal for a process that
/// is alone, low for one that joins others.
pub open spec fn auto_priority(
    cpu_millipercent: Option<u32>,
    is_ci: bool,
    in_flight_before: usize,
) -> CompilePriority {
    if !is_ci {
        if in_flight_before == 0 {
            CompilePriority::Normal
        } else {
            CompilePriority::Low
        }
    } else {
        match cpu_millipercent {
            Some(cpu) => if cpu >= AUTO_PRIORITY_SATURATED_CPU_MILLIPERCENT {
                CompilePriority::Low
            } else {
                CompilePriority::Normal
            },
            None => CompilePriority::Normal,
        }
    }
}

impl CompilePriority {
    /// The priority that a value names, whatever its case and the white space
    /// round it.
    pub fn parse(value: &str) -> (r: Result<Self, CompilePriorityParseError>)
        ensures
            match r {
                Ok(p) => parsed(value@) == Some(p),
                Err(e) => parsed(value@) is None && e.value@ == text::lowered(
                    text::trimmed(value@),
                ),
            },
    {
        let trimmed = trim(value);
        let lower = to_lower(trimmed.as_str());
        let l = lower.as_str();
        if str_eq(l, "auto") {
            Ok(CompilePriority::Auto)
        } else if str_eq(l, "normal") {
            Ok(CompilePriority::Normal)
        } else if str_eq(l, "low") {
            Ok(CompilePriority::Low)
        } else if str_eq(l, "idle") {
            Ok(CompilePriority::Idle)
        } else if str_eq(l, "high") {
            Ok(CompilePriority::High)
        } else {
            Err(CompilePriorityParseError { value: lower })
        }
    }

    /// The priority that an optional value names; automatic without a value.
    pub fn parse_optional(value: Option<&str>) -> (r: Result<Self, CompilePriorityParseError>)
        ensures
            value is None ==> r == Ok::<Self, CompilePriorityParseError>(CompilePriority::Auto),
            value matches Some(v) ==> match r {
                Ok(p) => parsed(v@) == Some(p),
                Err(e) => parsed(v@) is None && e.value@ == text::lowered(text::trimmed(v@)),
            },
    {
        match value {
            Some(v) => Self::parse(v),
            None => Ok(CompilePriority::Auto),
        }
    }

    /// The priority that a value names; low where it names none.
    pub fn parse_or_warn(value: &str) -> (p: Self)
        ensures
            p == parsed_or_low(value@),
    {
        match Self::parse(value) {
            Ok(p) => p,
            Err(_) => CompilePriority::Low,
        }
    }

    /// The value of the first variable of a name in a client's environment.
    pub fn client_env_value<'a>(env: Option<&'a [(String, String)]>, key: &str) -> (r: Option<
        &'a str,
    >)
        ensures
            opt_str_view(r) == env_value(env_view(env), key@),
    {
        match env {
            None => None,
            Some(vars) => {
                let ghost s = text::pair_views(vars@);
                let mut i: usize = 0;
                assert(s.skip(0) =~= s);
                while i < vars.len()
                    invariant
                        i <= vars.len(),
                        s == text::pair_views(vars@),
                        env_view(env) == s,
                        env_value(s, key@) == env_value(s.skip(i as int), key@),
                    decreases vars.len() - i,
                {
                    assert(s.skip(i as int)[0] == (vars@[i as int].0@, vars@[i as int].1@));
                    assert(s.skip(i as int).drop_first() =~= s.skip(i + 1));
                    if str_eq(vars[i].0.as_str(), key) {
                        return Some(vars[i].1.as_str());
                    }
                    i = i + 1;
                }
                None
            },
        }
    }

    /// The priority of a compiler.
    pub fn from_client_env_with_daemon_env(
        env: Option<&[(String, String)]>,
        daemon_value: Option<&str>,
    ) -> (p: Self)
        ensures
            p == client_priority(env_view(env), opt_str_view(daemon_value)),
    {
        if let Some(value) = Self::client_env_value(env, COMPILE_PRIORITY_ENV) {
            return Self::parse_or_warn(value);
        }
        match daemon_value {
            Some(value) => Self::parse_or_warn(value),
            None => CompilePriority::Auto,
        }
    }

    /// The priority of a compiler or linker.
    pub fn from_client_env_for_link_like_with_daemon_env_ci(
        env: Option<&[(String, String)]>,
        is_link_like: bool,
        daemon_link_value: Option<&str>,
        daemon_compile_value: Option<&str>,
        is_ci: bool,
    ) -> (p: Self)
        ensures
            p == link_priority(
                env_view(env),
                is_link_like,
                opt_str_view(daemon_link_value),
                opt_str_view(daemon_compile_value),
                is_ci,
            ),
    {
        if is_link_like {
            if let Some(value) = Self::client_env_value(env, ZCCACHE_COMPILE_PRIORITY_LINK) {
                return Self::parse_or_warn(value);
            }
            if let Some(value) = daemon_link_value {
                return Self::parse_or_warn(value);
            }
            return if is_ci {
                CompilePriority::Normal
            } else {
                CompilePriority::Low
            };
        }
        Self::from_client_env_with_daemon_env(env, daemon_compile_value)
    }

    /// The name of the priority.
    pub fn as_str(self) -> (r: &'static str)
        ensures
            r@ == priority_name(self),
    {
        match self {
            CompilePriority::Auto => "auto",
            CompilePriority::Normal => "normal",
            CompilePriority::Low => "low",
            CompilePriority::Idle => "idle",
            CompilePriority::High => "high",
        }
    }

    /// What the automatic priority means.
    pub fn auto_effective_priority(
        cpu_usage_millipercent: Option<u32>,
        is_ci: bool,
        in_flight_before: usize,
    ) -> (p: Self)
        ensures
            p == auto_priority(cpu_usage_millipercent, is_ci, in_flight_before),
    {
        if !is_ci {
            if in_flight_before == 0 {
                return CompilePriority::Normal;
            }
            return CompilePriority::Low;
        }
        match cpu_usage_millipercent {
            Some(cpu) => if cpu >= AUTO_PRIORITY_SATURATED_CPU_MILLIPERCENT {
                CompilePriority::Low
            } else {
                CompilePriority::Normal
            },
            None => CompilePriority::Normal,
        }
    }

    /// The priority as it is applied: the automatic one is decided by the load,
    /// any other stands.
    pub fn resolve_with_cpu_usage_and_ci(
        self,
        cpu_usage_millipercent: Option<u32>,
        is_ci: bool,
        in_flight_before: usize,
    ) -> (d: CompilePriorityDecision)
        ensures
            d.requested == self,
            d.cpu_usage_millipercent == cpu_usage_millipercent,
            d.effective == if self == CompilePriority::Auto {
                auto_priority(cpu_usage_millipercent, is_ci, in_flight_before)
            } else {
                self
            },
    {
        let effective = match self {
            CompilePriority::Auto => Self::auto_effective_priority(
                cpu_usage_millipercent,
                is_ci,
                in_flight_before,
            ),
            priority => priority,
        };
        CompilePriorityDecision { requested: self, effective, cpu_usage_millipercent }
    }

    /// The niceness of a process with this priority, where it is changed.
    pub fn unix_nice_value(self) -> (r: Option<i32>)
        ensures
            r == match self {
                CompilePriority::Auto => None,
                CompilePriority::Normal => None,
                CompilePriority::Low => Some(10i32),
                CompilePriority::Idle => Some(19i32),
                CompilePriority::High => Some(-5i32),
            },
    {
        match self {
            CompilePriority::Auto | CompilePriority::Normal => None,
            CompilePriority::Low => Some(10),
            CompilePriority::Idle => Some(19),
            CompilePriority::High => Some(-5),
        }
    }

    /// The Windows priority class of a process with this priority, where it is
    /// changed: below normal, idle or high.
    pub fn windows_priority_class(self) -> (r: Option<u32>)
        ensures
            r == match self {
                CompilePriority::Auto => None,
                CompilePriority::Normal => None,
                CompilePriority::Low => Some(0x4000u32),
                CompilePriority::Idle => Some(0x40u32),
                CompilePriority::High => Some(0x80u32),
            },
    {
        match self {
            CompilePriority::Auto | CompilePriority::Normal => None,
            CompilePriority::Low => Some(0x4000),
            CompilePriority::Idle => Some(0x40),
            CompilePriority::High => Some(0x80),
        }
    }
}

/// The Windows flags with which a process is created: without a window,
/// whatever its priority.
pub fn child_creation_flags(_priority: CompilePriority) -> (flags: u32)
    ensures
        flags == 0x0800_0000,
{
    0x0800_0000
}

/// Whether bytes are handed to a process on its standard input.
pub fn pipes_stdin(stdin_bytes: Option<&[u8]>) -> (r: bool)
    ensures
        r == match stdin_bytes {
            Some(b) => b@.len() > 0,
            None => false,
        },
{
    match stdin_bytes {
        Some(b) => b.len() > 0,
        None => false,
    }
}

/// A priority is given back by its name.
pub proof fn priority_names_round_trip(p: CompilePriority)
    ensures
        priority_named(priority_name(p)) == Some(p),
{
    reveal_strlit("auto");
    reveal_strlit("normal");
    reveal_strlit("low");
    reveal_strlit("idle");
    reveal_strlit("high");
    assert("auto"@[0] != "normal"@[0]);
    assert("auto"@[0] != "low"@[0]);
    assert("auto"@[0] != "idle"@[0]);
    assert("auto"@[0] != "high"@[0]);
    assert("normal"@[0] != "low"@[0]);
    assert("normal"@[0] != "idle"@[0]);
    assert("normal"@[0] != "high"@[0]);
    assert("low"@[0] != "idle"@[0]);
    assert("low"@[0] != "high"@[0]);
    assert("idle"@[0] != "high"@[0]);
}

/// Of processes that start together on an interactive machine, with counts
/// zero, one, two and so on before them, the first runs normal and all others
/// low.
pub proof fn a_wave_has_one_leader(cpu_millipercent: Option<u32>, before: usize)
    ensures
        auto_priority(cpu_millipercent, false, before) == CompilePriority::Normal <==> before == 0,
        auto_priority(cpu_millipercent, false, before) == CompilePriority::Low <==> before > 0,
{
}

/// A setting is on unless it is empty or says no: `0`, `false`, `no`, `off` and
/// `n` in any case, with spaces around them or without.
pub proof fn settings_are_on_unless_they_say_no(value: &str, r: bool)
    requires
        call_ensures(is_truthy, (value,), r),
    ensures
        text::trimmed(value@).len() == 0 ==> !r,
        text::lowered(text::trimmed(value@)) == "0"@ ==> !r,
        text::lowered(text::trimmed(value@)) == "false"@ ==> !r,
        text::lowered(text::trimmed(value@)) == "no"@ ==> !r,
        text::lowered(text::trimmed(value@)) == "off"@ ==> !r,
        text::lowered(text::trimmed(value@)) == "n"@ ==> !r,
        !r ==> text::trimmed(value@).len() == 0 || seq![
            "0"@,
            "false"@,
            "no"@,
            "off"@,
            "n"@,
        ].contains(text::lowered(text::trimmed(value@))),
{
    let words = seq!["0"@, "false"@, "no"@, "off"@, "n"@];
    assert(words[0] == "0"@ && words[1] == "false"@ && words[2] == "no"@ && words[3] == "off"@
        && words[4] == "n"@);
}

/// A priority is read from its name, in any case and with spaces around it or
/// without, and from no other text; the text that is no name is told.
pub proof fn priorities_are_read_from_their_names(
    value: &str,
    r: Result<CompilePriority, CompilePriorityParseError>,
    p: CompilePriority,
    name: &'static str,
)
    requires
        call_ensures(CompilePriority::parse, (value,), r),
        call_ensures(CompilePriority::as_str, (p,), name),
    ensures
        text::lowered(text::trimmed(value@)) == name@ <==> r == Ok::<
            CompilePriority,
            CompilePriorityParseError,
        >(p),
        r matches Err(e) ==> e.value@ == text::lowered(text::trimmed(value@)),
        p == CompilePriority::Auto ==> name@ == "auto"@,
        p == CompilePriority::Normal ==> name@ == "normal"@,
        p == CompilePriority::Low ==> name@ == "low"@,
        p == CompilePriority::Idle ==> name@ == "idle"@,
        p == CompilePriority::High ==> name@ == "high"@,
{
    priority_names_round_trip(p);
    reveal_strlit("auto");
    reveal_strlit("normal");
    reveal_strlit("low");
    reveal_strlit("idle");
    reveal_strlit("high");
}

/// A text that is no priority counts as the low one, and none at all as the
/// automatic one.
pub proof fn unreadable_priorities_are_low(
    value: &str,
    r: Result<CompilePriority, CompilePriorityParseError>,
    p: CompilePriority,
    o: Result<CompilePriority, CompilePriorityParseError>,
    none: Result<CompilePriority, CompilePriorityParseError>,
)
    requires
        call_ensures(CompilePriority::parse, (value,), r),
        call_ensures(CompilePriority::parse_or_warn, (value,), p),
        call_ensures(CompilePriority::parse_optional, (Some(value),), o),
        call_ensures(CompilePriority::parse_optional, (None::<&str>,), none),
    ensures
        r is Ok ==> r->Ok_0 == p && o is Ok && o->Ok_0 == p,
        r is Err ==> p == CompilePriority::Low && o is Err && o->Err_0.value@ == r->Err_0.value@,
        none is Ok && none->Ok_0 == CompilePriority::Auto,
{
}

proof fn first_entry(env: Seq<(Seq<char>, Seq<char>)>, key: Seq<char>)
    ensures
        env_value(env, key) is None ==> forall|i: int|
            0 <= i < env.len() ==> (#[trigger] env[i]).0 != key,
        env_value(env, key) is Some ==> exists|i: int|
            0 <= i < env.len() && (#[trigger] env[i]).0 == key && Some(env[i].1) == env_value(
                env,
                key,
            ) && forall|j: int| 0 <= j < i ==> (#[trigger] env[j]).0 != key,
    decreases env.len(),
{
    if env.len() > 0 && env[0].0 != key {
        let rest = env.drop_first();
        first_entry(rest, key);
        if env_value(env, key) is Some {
            let i = choose|i: int|
                0 <= i < rest.len() && (#[trigger] rest[i]).0 == key && Some(rest[i].1)
                    == env_value(rest, key) && forall|j: int|
                    0 <= j < i ==> (#[trigger] rest[j]).0 != key;
            assert(env[i + 1] == rest[i]);
            assert forall|j: int| 0 <= j < i + 1 implies (#[trigger] env[j]).0 != key by {
                if j > 0 {
                    assert(rest[j - 1] == env[j]);
                }
            }
        } else {
            assert forall|i: int| 0 <= i < env.len() implies (#[trigger] env[i]).0 != key by {
                if i > 0 {
                    assert(rest[i - 1] == env[i]);
                }
            }
        }
    }
}

/// Of the variables that a client sent, the first with the name counts; only
/// where none has it is there no value.
pub proof fn the_first_variable_counts(
    env: Option<&[(String, String)]>,
    key: &str,
    r: Option<&str>,
)
    requires
        call_ensures(CompilePriority::client_env_value, (env, key), r),
    ensures
        env is None ==> r is None,
        env matches Some(vars) ==> match r {
            Some(v) => exists|i: int|
                0 <= i < vars@.len() && (#[trigger] vars@[i]).0@ == key@ && vars@[i].1@ == v@
                    && forall|j: int| 0 <= j < i ==> (#[trigger] vars@[j]).0@ != key@,
            None => forall|i: int| 0 <= i < vars@.len() ==> (#[trigger] vars@[i]).0@ != key@,
        },
{
    first_entry(env_view(env), key@);
    if let Some(vars) = env {
        let e = env_view(env);
        assert(forall|i: int|
            0 <= i < vars@.len() ==> (#[trigger] e[i]).0 == vars@[i].0@ && e[i].1 == vars@[i].1@);
        if r is Some {
            let i = choose|i: int|
                0 <= i < e.len() && (#[trigger] e[i]).0 == key@ && Some(e[i].1) == env_value(
                    e,
                    key@,
                ) && forall|j: int| 0 <= j < i ==> (#[trigger] e[j]).0 != key@;
            assert(vars@[i].0@ == key@);
            assert forall|j: int| 0 <= j < i implies (#[trigger] vars@[j]).0@ != key@ by {
                assert(e[j].0 != key@);
            }
        } else {
            assert forall|i: int| 0 <= i < vars@.len() implies (#[trigger] vars@[i]).0@ != key@ by {
                assert(e[i].0 != key@);
            }
        }
    }
}

/// What the client asks for comes before what the daemon was started with, and
/// without either the priority is automatic.
pub proof fn clients_come_before_daemons(
    env: Option<&[(String, String)]>,
    daemon: Option<&str>,
    asked: Option<&str>,
    p: CompilePriority,
)
    requires
        call_ensures(
            CompilePriority::client_env_value,
            (env, "ZCCACHE_COMPILE_PRIORITY"),
            asked,
        ),
        call_ensures(CompilePriority::from_client_env_with_daemon_env, (env, daemon), p),
    ensures
        asked is Some ==> (forall|q: CompilePriority|
            call_ensures(CompilePriority::parse_or_warn, (asked->0,), q) ==> q == p),
        asked is None && daemon is Some ==> (forall|q: CompilePriority|
            call_ensures(CompilePriority::parse_or_warn, (daemon->0,), q) ==> q == p),
        asked is None && daemon is None ==> p == CompilePriority::Auto,
{
}

/// Linking has a priority of its own: the client's, else the daemon's, else
/// normal on a host of continuous integration and low on any other. Everything
/// else has the priority of compilations.
pub proof fn links_have_their_own_priority(
    env: Option<&[(String, String)]>,
    links: bool,
    daemon_link: Option<&str>,
    daemon: Option<&str>,
    is_ci: bool,
    asked: Option<&str>,
    p: CompilePriority,
    compiles: CompilePriority,
)
    requires
        call_ensures(
            CompilePriority::client_env_value,
            (env, "ZCCACHE_COMPILE_PRIORITY_LINK"),
            asked,
        ),
        call_ensures(CompilePriority::from_client_env_with_daemon_env, (env, daemon), compiles),
        call_ensures(
            CompilePriority::from_client_env_for_link_like_with_daemon_env_ci,
            (env, links, daemon_link, daemon, is_ci),
            p,
        ),
    ensures
        !links ==> p == compiles,
        links && asked is Some ==> (forall|q: CompilePriority|
            call_ensures(CompilePriority::parse_or_warn, (asked->0,), q) ==> q == p),
        links && asked is None && daemon_link is Some ==> (forall|q: CompilePriority|
            call_ensures(CompilePriority::parse_or_warn, (daemon_link->0,), q) ==> q == p),
        links && asked is None && daemon_link is None && is_ci ==> p == CompilePriority::Normal,
        links && asked is None && daemon_link is None && !is_ci ==> p == CompilePriority::Low,
{
}

/// A priority that was asked for is the one that a process gets. The automatic
/// one gives way to the load: on a host of continuous integration to a processor
/// that is busy for 95 hundredths of the time or more, elsewhere to compilers
/// that run already.
pub proof fn only_automatic_priorities_follow_the_load(
    p: CompilePriority,
    cpu: Option<u32>,
    is_ci: bool,
    before: usize,
    d: CompilePriorityDecision,
)
    requires
        call_ensures(CompilePriority::resolve_with_cpu_usage_and_ci, (p, cpu, is_ci, before), d),
    ensures
        d.requested == p,
        d.cpu_usage_millipercent == cpu,
        p != CompilePriority::Auto ==> d.effective == p,
        p == CompilePriority::Auto && is_ci && cpu is Some && cpu->0 >= 95_000 ==> d.effective
            == CompilePriority::Low,
        p == CompilePriority::Auto && is_ci && !(cpu is Some && cpu->0 >= 95_000) ==> d.effective
            == CompilePriority::Normal,
        p == CompilePriority::Auto && !is_ci && before == 0 ==> d.effective
            == CompilePriority::Normal,
        p == CompilePriority::Auto && !is_ci && before > 0 ==> d.effective == CompilePriority::Low,
{
}

/// The system is told of every priority but the normal one: the higher it is,
/// the less nice the process, and idle processes are as nice as can be.
pub proof fn higher_priorities_are_less_nice(
    high: Option<i32>,
    low: Option<i32>,
    idle: Option<i32>,
    p: CompilePriority,
    nice: Option<i32>,
    class: Option<u32>,
)
    requires
        call_ensures(CompilePriority::unix_nice_value, (CompilePriority::High,), high),
        call_ensures(CompilePriority::unix_nice_value, (CompilePriority::Low,), low),
        call_ensures(CompilePriority::unix_nice_value, (CompilePriority::Idle,), idle),
        call_ensures(CompilePriority::unix_nice_value, (p,), nice),
        call_ensures(CompilePriority::windows_priority_class, (p,), class),
    ensures
        high == Some(-5i32) && low == Some(10i32) && idle == Some(19i32),
        high->0 < 0 < low->0 < idle->0,
        nice is None <==> p == CompilePriority::Normal || p == CompilePriority::Auto,
        class is None <==> nice is None,
        p == CompilePriority::High ==> class == Some(0x80u32),
        p == CompilePriority::Low ==> class == Some(0x4000u32),
        p == CompilePriority::Idle ==> class == Some(0x40u32),
{
}

/// A standard input is piped where there is something to pipe.
pub proof fn only_filled_inputs_are_piped(input: Option<&[u8]>, r: bool)
    requires
        call_ensures(pipes_stdin, (input,), r),
    ensures
        r <==> input is Some && input->0@.len() > 0,
{
}

} // verus!
