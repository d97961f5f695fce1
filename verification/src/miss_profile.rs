//! Lines that show where the time of a compilation that ran has gone.

use crate::priority;
use crate::priority::CompilePriorityDecision;
use crate::state;
use crate::text;
use crate::text::render_decimal;
use vstd::prelude::*;
use vstd::string::*;

verus! {

/// What is left of a time after its measured parts, and nothing where the
/// parts exceed it.
pub open spec fn rest(whole: u64, parts: Seq<u64>) -> u64 {
    if state::total_size(parts) > whole {
        0
    } else {
        (whole - state::total_size(parts)) as u64
    }
}

fn rest_of(whole: u64, parts: &[u64]) -> (r: u64)
    ensures
        r == rest(whole, parts@),
{
    whole.saturating_sub(crate::state::sum_sizes(parts))
}

/// A measured time is the sum of its parts and what is left, as long as the
/// parts do not exceed it.
pub proof fn parts_and_rest_add_up(whole: u64, parts: Seq<u64>)
    requires
        state::total_size(parts) <= whole,
    ensures
        state::total_size(parts) + rest(whole, parts) == whole,
{
}

/// A line with one more field.
pub open spec fn field(line: Seq<char>, label: Seq<char>, value: Seq<char>) -> Seq<char> {
    line + " "@ + label + "="@ + value
}

fn push_text_field(s: &mut String, label: &str, value: &str)
    ensures
        final(s)@ == field(old(s)@, label@, value@),
{
    s.append(" ");
    s.append(label);
    s.append("=");
    s.append(value);
}

fn push_number_field(s: &mut String, label: &str, n: u64)
    ensures
        final(s)@ == field(old(s)@, label@, text::decimal(n as nat)),
{
    let value = render_decimal(n as u128);
    push_text_field(s, label, value.as_str());
}

/// Thousandths of a percent in tenths of a percent, to the nearest; to the even
/// one where two are equally near.
pub open spec fn tenths(millipercent: u32) -> nat {
    let low = (millipercent / 100) as nat;
    let over = millipercent % 100;
    if over > 50 || (over == 50 && low % 2 == 1) {
        low + 1
    } else {
        low
    }
}

/// The processor load with one decimal, or `n/a` where it was not measured.
pub open spec fn percent_text(millipercent: Option<u32>) -> Seq<char> {
    match millipercent {
        Some(m) => text::decimal(tenths(m) / 10) + "."@ + text::decimal(tenths(m) % 10),
        None => "n/a"@,
    }
}

fn render_percent(millipercent: Option<u32>) -> (r: String)
    ensures
        r@ == percent_text(millipercent),
{
    match millipercent {
        Some(m) => {
            let low: u32 = m / 100;
            let over: u32 = m % 100;
            let t: u32 = if over > 50 || (over == 50 && low % 2 == 1) {
                low + 1
            } else {
                low
            };
            let mut s = render_decimal((t / 10) as u128);
            s.append(".");
            let d = render_decimal((t % 10) as u128);
            s.append(d.as_str());
            s
        },
        None => "n/a".to_owned(),
    }
}

/// Where the time of a Rust compilation went, in nanoseconds.
#[derive(Clone, Debug)]
pub struct RustMissProfile {
    /// What was asked for: `build`, `check` or `other`.
    pub mode: String,
    /// Priority of the compiler.
    pub compiler_priority_decision: CompilePriorityDecision,
    /// The whole request.
    pub total_ns: u64,
    /// Everything before the compiler.
    pub pre_exec_ns: u64,
    /// Finding the header directories.
    pub system_includes_ns: u64,
    /// Watching the header directories.
    pub system_watch_ns: u64,
    /// Reading the arguments.
    pub parse_args_ns: u64,
    /// Building the context.
    pub build_context_ns: u64,
    /// Hashing the source.
    pub hash_source_ns: u64,
    /// Hashing the headers.
    pub hash_headers_ns: u64,
    /// Asking the dependency graph.
    pub depgraph_check_ns: u64,
    /// Detaching the outputs.
    pub break_outputs_ns: u64,
    /// Preparing the compiler.
    pub compiler_prep_ns: u64,
    /// The compiler itself.
    pub compiler_process_ns: u64,
    /// Directly after the compiler.
    pub post_exec_ns: u64,
    /// Reporting changed files.
    pub apply_changes_ns: u64,
    /// Collecting the outputs.
    pub collect_outputs_ns: u64,
    /// Number of outputs.
    pub rust_output_count: u64,
    /// Size of the outputs.
    pub rust_output_bytes: u64,
    /// Finding the headers.
    pub include_scan_ns: u64,
    /// Registering the files.
    pub register_tracked_ns: u64,
    /// Collecting the directories.
    pub dep_dirs_ns: u64,
    /// Hashing all files.
    pub hash_all_ns: u64,
    /// Storing the artifact.
    pub artifact_store_ns: u64,
    /// Storing: updating the graph.
    pub depgraph_update_ns: u64,
    /// Storing: building the artifact.
    pub artifact_build_ns: u64,
    /// Storing: describing the artifact.
    pub artifact_meta_build_ns: u64,
    /// Storing: taking the outputs.
    pub rust_snapshot_ns: u64,
    /// Outputs that were linked.
    pub rust_snapshot_hardlink_count: u64,
    /// Outputs that were copied.
    pub rust_snapshot_copy_count: u64,
    /// Bytes that were copied.
    pub rust_snapshot_copy_bytes: u64,
    /// Outputs that could not be taken.
    pub rust_snapshot_error_count: u64,
    /// Storing: queueing the write.
    pub persist_enqueue_ns: u64,
    /// Storing: counting.
    pub artifact_insert_stats_ns: u64,
    /// Storing: building the index entry.
    pub artifact_index_build_ns: u64,
    /// Storing: writing the index entry.
    pub artifact_index_persist_ns: u64,
    /// Storing: keeping it in memory.
    pub artifact_memory_insert_ns: u64,
}

/// What is left of the time before the compiler.
pub open spec fn rust_pre_exec_other_ns(p: RustMissProfile) -> u64 {
    rest(
        p.pre_exec_ns,
        seq![p.system_includes_ns, p.system_watch_ns, p.parse_args_ns, p.build_context_ns, p.hash_source_ns, p.hash_headers_ns, p.depgraph_check_ns],
    )
}

/// What is left of the time for storing.
pub open spec fn rust_artifact_store_other_ns(p: RustMissProfile) -> u64 {
    rest(
        p.artifact_store_ns,
        seq![p.depgraph_update_ns, p.artifact_build_ns, p.artifact_meta_build_ns, p.rust_snapshot_ns, p.persist_enqueue_ns, p.artifact_insert_stats_ns, p.artifact_index_build_ns, p.artifact_index_persist_ns, p.artifact_memory_insert_ns],
    )
}

/// What is left of the whole request.
pub open spec fn rust_unaccounted_ns(p: RustMissProfile) -> u64 {
    rest(
        p.total_ns,
        seq![p.pre_exec_ns, p.compiler_prep_ns, p.compiler_process_ns, p.post_exec_ns, p.apply_changes_ns, p.collect_outputs_ns, p.include_scan_ns, p.register_tracked_ns, p.dep_dirs_ns, p.hash_all_ns, p.artifact_store_ns],
    )
}

/// The line of a [`RustMissProfile`].
pub open spec fn rust_line(p: RustMissProfile) -> Seq<char> {
    let s = "zccache_rust_miss_profile"@;
    let s = field(s, "mode"@, p.mode@);
    let s = field(s, "compiler_priority"@, priority::priority_name(p.compiler_priority_decision.requested));
    let s = field(s, "compiler_effective_priority"@, priority::priority_name(p.compiler_priority_decision.effective));
    let s = field(s, "compiler_cpu_usage_percent"@, percent_text(p.compiler_priority_decision.cpu_usage_millipercent));
    let s = field(s, "total_ns"@, text::decimal(p.total_ns as nat));
    let s = field(s, "pre_exec_ns"@, text::decimal(p.pre_exec_ns as nat));
    let s = field(s, "system_includes_ns"@, text::decimal(p.system_includes_ns as nat));
    let s = field(s, "system_watch_ns"@, text::decimal(p.system_watch_ns as nat));
    let s = field(s, "parse_args_ns"@, text::decimal(p.parse_args_ns as nat));
    let s = field(s, "build_context_ns"@, text::decimal(p.build_context_ns as nat));
    let s = field(s, "hash_source_ns"@, text::decimal(p.hash_source_ns as nat));
    let s = field(s, "hash_headers_ns"@, text::decimal(p.hash_headers_ns as nat));
    let s = field(s, "depgraph_check_ns"@, text::decimal(p.depgraph_check_ns as nat));
    let s = field(s, "pre_exec_other_ns"@, text::decimal(rust_pre_exec_other_ns(p) as nat));
    let s = field(s, "break_outputs_ns"@, text::decimal(p.break_outputs_ns as nat));
    let s = field(s, "compiler_prep_ns"@, text::decimal(p.compiler_prep_ns as nat));
    let s = field(s, "compiler_process_ns"@, text::decimal(p.compiler_process_ns as nat));
    let s = field(s, "post_exec_ns"@, text::decimal(p.post_exec_ns as nat));
    let s = field(s, "apply_changes_ns"@, text::decimal(p.apply_changes_ns as nat));
    let s = field(s, "collect_outputs_ns"@, text::decimal(p.collect_outputs_ns as nat));
    let s = field(s, "outputs"@, text::decimal(p.rust_output_count as nat));
    let s = field(s, "output_bytes"@, text::decimal(p.rust_output_bytes as nat));
    let s = field(s, "include_scan_ns"@, text::decimal(p.include_scan_ns as nat));
    let s = field(s, "register_tracked_ns"@, text::decimal(p.register_tracked_ns as nat));
    let s = field(s, "dep_dirs_ns"@, text::decimal(p.dep_dirs_ns as nat));
    let s = field(s, "hash_all_ns"@, text::decimal(p.hash_all_ns as nat));
    let s = field(s, "artifact_store_ns"@, text::decimal(p.artifact_store_ns as nat));
    let s = field(s, "depgraph_update_ns"@, text::decimal(p.depgraph_update_ns as nat));
    let s = field(s, "artifact_build_ns"@, text::decimal(p.artifact_build_ns as nat));
    let s = field(s, "artifact_meta_build_ns"@, text::decimal(p.artifact_meta_build_ns as nat));
    let s = field(s, "rust_snapshot_ns"@, text::decimal(p.rust_snapshot_ns as nat));
    let s = field(s, "rust_snapshot_hardlink_count"@, text::decimal(p.rust_snapshot_hardlink_count as nat));
    let s = field(s, "rust_snapshot_copy_count"@, text::decimal(p.rust_snapshot_copy_count as nat));
    let s = field(s, "rust_snapshot_copy_bytes"@, text::decimal(p.rust_snapshot_copy_bytes as nat));
    let s = field(s, "rust_snapshot_error_count"@, text::decimal(p.rust_snapshot_error_count as nat));
    let s = field(s, "persist_enqueue_ns"@, text::decimal(p.persist_enqueue_ns as nat));
    let s = field(s, "artifact_insert_stats_ns"@, text::decimal(p.artifact_insert_stats_ns as nat));
    let s = field(s, "artifact_index_build_ns"@, text::decimal(p.artifact_index_build_ns as nat));
    let s = field(s, "artifact_index_persist_ns"@, text::decimal(p.artifact_index_persist_ns as nat));
    let s = field(s, "artifact_memory_insert_ns"@, text::decimal(p.artifact_memory_insert_ns as nat));
    let s = field(s, "artifact_store_other_ns"@, text::decimal(rust_artifact_store_other_ns(p) as nat));
    let s = field(s, "unaccounted_ns"@, text::decimal(rust_unaccounted_ns(p) as nat));
    s
}

/// The line that shows where the time of a compilation went.
pub fn emit_rust_miss_profile(p: &RustMissProfile) -> (r: String)
    ensures
        r@ == rust_line(*p),
{
    let pre_exec_other_ns: u64 = rest_of(
        p.pre_exec_ns,
        &[p.system_includes_ns, p.system_watch_ns, p.parse_args_ns, p.build_context_ns, p.hash_source_ns, p.hash_headers_ns, p.depgraph_check_ns],
    );
    let artifact_store_other_ns: u64 = rest_of(
        p.artifact_store_ns,
        &[p.depgraph_update_ns, p.artifact_build_ns, p.artifact_meta_build_ns, p.rust_snapshot_ns, p.persist_enqueue_ns, p.artifact_insert_stats_ns, p.artifact_index_build_ns, p.artifact_index_persist_ns, p.artifact_memory_insert_ns],
    );
    let unaccounted_ns: u64 = rest_of(
        p.total_ns,
        &[p.pre_exec_ns, p.compiler_prep_ns, p.compiler_process_ns, p.post_exec_ns, p.apply_changes_ns, p.collect_outputs_ns, p.include_scan_ns, p.register_tracked_ns, p.dep_dirs_ns, p.hash_all_ns, p.artifact_store_ns],
    );
    let mut s = "zccache_rust_miss_profile".to_owned();
    push_text_field(&mut s, "mode", p.mode.as_str());
    push_text_field(&mut s, "compiler_priority", p.compiler_priority_decision.requested.as_str());
    push_text_field(&mut s, "compiler_effective_priority", p.compiler_priority_decision.effective.as_str());
    let cpu = render_percent(p.compiler_priority_decision.cpu_usage_millipercent);
    push_text_field(&mut s, "compiler_cpu_usage_percent", cpu.as_str());
    push_number_field(&mut s, "total_ns", p.total_ns);
    push_number_field(&mut s, "pre_exec_ns", p.pre_exec_ns);
    push_number_field(&mut s, "system_includes_ns", p.system_includes_ns);
    push_number_field(&mut s, "system_watch_ns", p.system_watch_ns);
    push_number_field(&mut s, "parse_args_ns", p.parse_args_ns);
    push_number_field(&mut s, "build_context_ns", p.build_context_ns);
    push_number_field(&mut s, "hash_source_ns", p.hash_source_ns);
    push_number_field(&mut s, "hash_headers_ns", p.hash_headers_ns);
    push_number_field(&mut s, "depgraph_check_ns", p.depgraph_check_ns);
    push_number_field(&mut s, "pre_exec_other_ns", pre_exec_other_ns);
    push_number_field(&mut s, "break_outputs_ns", p.break_outputs_ns);
    push_number_field(&mut s, "compiler_prep_ns", p.compiler_prep_ns);
    push_number_field(&mut s, "compiler_process_ns", p.compiler_process_ns);
    push_number_field(&mut s, "post_exec_ns", p.post_exec_ns);
    push_number_field(&mut s, "apply_changes_ns", p.apply_changes_ns);
    push_number_field(&mut s, "collect_outputs_ns", p.collect_outputs_ns);
    push_number_field(&mut s, "outputs", p.rust_output_count);
    push_number_field(&mut s, "output_bytes", p.rust_output_bytes);
    push_number_field(&mut s, "include_scan_ns", p.include_scan_ns);
    push_number_field(&mut s, "register_tracked_ns", p.register_tracked_ns);
    push_number_field(&mut s, "dep_dirs_ns", p.dep_dirs_ns);
    push_number_field(&mut s, "hash_all_ns", p.hash_all_ns);
    push_number_field(&mut s, "artifact_store_ns", p.artifact_store_ns);
    push_number_field(&mut s, "depgraph_update_ns", p.depgraph_update_ns);
    push_number_field(&mut s, "artifact_build_ns", p.artifact_build_ns);
    push_number_field(&mut s, "artifact_meta_build_ns", p.artifact_meta_build_ns);
    push_number_field(&mut s, "rust_snapshot_ns", p.rust_snapshot_ns);
    push_number_field(&mut s, "rust_snapshot_hardlink_count", p.rust_snapshot_hardlink_count);
    push_number_field(&mut s, "rust_snapshot_copy_count", p.rust_snapshot_copy_count);
    push_number_field(&mut s, "rust_snapshot_copy_bytes", p.rust_snapshot_copy_bytes);
    push_number_field(&mut s, "rust_snapshot_error_count", p.rust_snapshot_error_count);
    push_number_field(&mut s, "persist_enqueue_ns", p.persist_enqueue_ns);
    push_number_field(&mut s, "artifact_insert_stats_ns", p.artifact_insert_stats_ns);
    push_number_field(&mut s, "artifact_index_build_ns", p.artifact_index_build_ns);
    push_number_field(&mut s, "artifact_index_persist_ns", p.artifact_index_persist_ns);
    push_number_field(&mut s, "artifact_memory_insert_ns", p.artifact_memory_insert_ns);
    push_number_field(&mut s, "artifact_store_other_ns", artifact_store_other_ns);
    push_number_field(&mut s, "unaccounted_ns", unaccounted_ns);
    s
}

/// Where the time of a C or C++ compilation went, in nanoseconds.
#[derive(Clone, Debug)]
pub struct CcMissProfile {
    /// Family of the compiler.
    pub family: String,
    /// Priority of the compiler.
    pub compiler_priority_decision: CompilePriorityDecision,
    /// The whole request.
    pub total_ns: u64,
    /// Everything before the compiler.
    pub pre_exec_ns: u64,
    /// Finding the header directories.
    pub system_includes_ns: u64,
    /// Watching the header directories.
    pub system_watch_ns: u64,
    /// Reading the arguments.
    pub parse_args_ns: u64,
    /// Building the context.
    pub build_context_ns: u64,
    /// Detaching the outputs.
    pub break_outputs_ns: u64,
    /// The compiler itself.
    pub compiler_process_ns: u64,
    /// Directly after the compiler.
    pub post_exec_ns: u64,
    /// Finding the headers.
    pub include_scan_ns: u64,
    /// Registering the files.
    pub register_tracked_ns: u64,
    /// Collecting the directories.
    pub dep_dirs_ns: u64,
    /// Hashing all files.
    pub hash_all_ns: u64,
    /// Storing the artifact.
    pub artifact_store_ns: u64,
    /// Storing: updating the graph.
    pub depgraph_update_ns: u64,
    /// Storing: building the artifact.
    pub artifact_build_ns: u64,
    /// Storing: queueing the write.
    pub persist_enqueue_ns: u64,
    /// Storing: counting.
    pub artifact_insert_stats_ns: u64,
    /// Storing: building the index entry.
    pub artifact_index_build_ns: u64,
    /// Storing: writing the index entry.
    pub artifact_index_persist_ns: u64,
    /// Storing: keeping it in memory.
    pub artifact_memory_insert_ns: u64,
}

/// What is left of the time before the compiler.
pub open spec fn cc_pre_exec_other_ns(p: CcMissProfile) -> u64 {
    rest(
        p.pre_exec_ns,
        seq![p.system_includes_ns, p.system_watch_ns, p.parse_args_ns, p.build_context_ns],
    )
}

/// What is left of the time for storing.
pub open spec fn cc_artifact_store_other_ns(p: CcMissProfile) -> u64 {
    rest(
        p.artifact_store_ns,
        seq![p.depgraph_update_ns, p.artifact_build_ns, p.persist_enqueue_ns, p.artifact_insert_stats_ns, p.artifact_index_build_ns, p.artifact_index_persist_ns, p.artifact_memory_insert_ns],
    )
}

/// What is left of the whole request.
pub open spec fn cc_unaccounted_ns(p: CcMissProfile) -> u64 {
    rest(
        p.total_ns,
        seq![p.pre_exec_ns, p.break_outputs_ns, p.compiler_process_ns, p.post_exec_ns, p.include_scan_ns, p.register_tracked_ns, p.dep_dirs_ns, p.hash_all_ns, p.artifact_store_ns],
    )
}

/// The line of a [`CcMissProfile`].
pub open spec fn cc_line(p: CcMissProfile) -> Seq<char> {
    let s = "zccache_cc_miss_profile"@;
    let s = field(s, "family"@, p.family@);
    let s = field(s, "compiler_priority"@, priority::priority_name(p.compiler_priority_decision.requested));
    let s = field(s, "compiler_effective_priority"@, priority::priority_name(p.compiler_priority_decision.effective));
    let s = field(s, "total_ns"@, text::decimal(p.total_ns as nat));
    let s = field(s, "pre_exec_ns"@, text::decimal(p.pre_exec_ns as nat));
    let s = field(s, "system_includes_ns"@, text::decimal(p.system_includes_ns as nat));
    let s = field(s, "system_watch_ns"@, text::decimal(p.system_watch_ns as nat));
    let s = field(s, "parse_args_ns"@, text::decimal(p.parse_args_ns as nat));
    let s = field(s, "build_context_ns"@, text::decimal(p.build_context_ns as nat));
    let s = field(s, "pre_exec_other_ns"@, text::decimal(cc_pre_exec_other_ns(p) as nat));
    let s = field(s, "break_outputs_ns"@, text::decimal(p.break_outputs_ns as nat));
    let s = field(s, "compiler_process_ns"@, text::decimal(p.compiler_process_ns as nat));
    let s = field(s, "post_exec_ns"@, text::decimal(p.post_exec_ns as nat));
    let s = field(s, "include_scan_ns"@, text::decimal(p.include_scan_ns as nat));
    let s = field(s, "register_tracked_ns"@, text::decimal(p.register_tracked_ns as nat));
    let s = field(s, "dep_dirs_ns"@, text::decimal(p.dep_dirs_ns as nat));
    let s = field(s, "hash_all_ns"@, text::decimal(p.hash_all_ns as nat));
    let s = field(s, "artifact_store_ns"@, text::decimal(p.artifact_store_ns as nat));
    let s = field(s, "depgraph_update_ns"@, text::decimal(p.depgraph_update_ns as nat));
    let s = field(s, "artifact_build_ns"@, text::decimal(p.artifact_build_ns as nat));
    let s = field(s, "persist_enqueue_ns"@, text::decimal(p.persist_enqueue_ns as nat));
    let s = field(s, "artifact_insert_stats_ns"@, text::decimal(p.artifact_insert_stats_ns as nat));
    let s = field(s, "artifact_index_build_ns"@, text::decimal(p.artifact_index_build_ns as nat));
    let s = field(s, "artifact_index_persist_ns"@, text::decimal(p.artifact_index_persist_ns as nat));
    let s = field(s, "artifact_memory_insert_ns"@, text::decimal(p.artifact_memory_insert_ns as nat));
    let s = field(s, "artifact_store_other_ns"@, text::decimal(cc_artifact_store_other_ns(p) as nat));
    let s = field(s, "unaccounted_ns"@, text::decimal(cc_unaccounted_ns(p) as nat));
    s
}

/// The line that shows where the time of a compilation went.
pub fn emit_cc_miss_profile(p: &CcMissProfile) -> (r: String)
    ensures
        r@ == cc_line(*p),
{
    let pre_exec_other_ns: u64 = rest_of(
        p.pre_exec_ns,
        &[p.system_includes_ns, p.system_watch_ns, p.parse_args_ns, p.build_context_ns],
    );
    let artifact_store_other_ns: u64 = rest_of(
        p.artifact_store_ns,
        &[p.depgraph_update_ns, p.artifact_build_ns, p.persist_enqueue_ns, p.artifact_insert_stats_ns, p.artifact_index_build_ns, p.artifact_index_persist_ns, p.artifact_memory_insert_ns],
    );
    let unaccounted_ns: u64 = rest_of(
        p.total_ns,
        &[p.pre_exec_ns, p.break_outputs_ns, p.compiler_process_ns, p.post_exec_ns, p.include_scan_ns, p.register_tracked_ns, p.dep_dirs_ns, p.hash_all_ns, p.artifact_store_ns],
    );
    let mut s = "zccache_cc_miss_profile".to_owned();
    push_text_field(&mut s, "family", p.family.as_str());
    push_text_field(&mut s, "compiler_priority", p.compiler_priority_decision.requested.as_str());
    push_text_field(&mut s, "compiler_effective_priority", p.compiler_priority_decision.effective.as_str());
    push_number_field(&mut s, "total_ns", p.total_ns);
    push_number_field(&mut s, "pre_exec_ns", p.pre_exec_ns);
    push_number_field(&mut s, "system_includes_ns", p.system_includes_ns);
    push_number_field(&mut s, "system_watch_ns", p.system_watch_ns);
    push_number_field(&mut s, "parse_args_ns", p.parse_args_ns);
    push_number_field(&mut s, "build_context_ns", p.build_context_ns);
    push_number_field(&mut s, "pre_exec_other_ns", pre_exec_other_ns);
    push_number_field(&mut s, "break_outputs_ns", p.break_outputs_ns);
    push_number_field(&mut s, "compiler_process_ns", p.compiler_process_ns);
    push_number_field(&mut s, "post_exec_ns", p.post_exec_ns);
    push_number_field(&mut s, "include_scan_ns", p.include_scan_ns);
    push_number_field(&mut s, "register_tracked_ns", p.register_tracked_ns);
    push_number_field(&mut s, "dep_dirs_ns", p.dep_dirs_ns);
    push_number_field(&mut s, "hash_all_ns", p.hash_all_ns);
    push_number_field(&mut s, "artifact_store_ns", p.artifact_store_ns);
    push_number_field(&mut s, "depgraph_update_ns", p.depgraph_update_ns);
    push_number_field(&mut s, "artifact_build_ns", p.artifact_build_ns);
    push_number_field(&mut s, "persist_enqueue_ns", p.persist_enqueue_ns);
    push_number_field(&mut s, "artifact_insert_stats_ns", p.artifact_insert_stats_ns);
    push_number_field(&mut s, "artifact_index_build_ns", p.artifact_index_build_ns);
    push_number_field(&mut s, "artifact_index_persist_ns", p.artifact_index_persist_ns);
    push_number_field(&mut s, "artifact_memory_insert_ns", p.artifact_memory_insert_ns);
    push_number_field(&mut s, "artifact_store_other_ns", artifact_store_other_ns);
    push_number_field(&mut s, "unaccounted_ns", unaccounted_ns);
    s
}

/// Where the time of a link went, in nanoseconds.
#[derive(Clone, Debug)]
pub struct LinkMissProfile {
    /// Family of the compiler.
    pub family: String,
    /// Number of inputs.
    pub input_count: u64,
    /// The whole request.
    pub total_ns: u64,
    /// Reading the arguments.
    pub parse_args_ns: u64,
    /// Hashing the tool.
    pub tool_hash_ns: u64,
    /// Hashing the inputs.
    pub input_hash_ns: u64,
    /// Looking in the cache.
    pub cache_lookup_ns: u64,
    /// The compiler itself.
    pub compiler_process_ns: u64,
    /// Reading the output.
    pub output_read_ns: u64,
    /// Storing the artifact.
    pub artifact_store_ns: u64,
}

/// What is left of the whole request.
pub open spec fn link_unaccounted_ns(p: LinkMissProfile) -> u64 {
    rest(
        p.total_ns,
        seq![p.parse_args_ns, p.tool_hash_ns, p.input_hash_ns, p.cache_lookup_ns, p.compiler_process_ns, p.output_read_ns, p.artifact_store_ns],
    )
}

/// The line of a [`LinkMissProfile`].
pub open spec fn link_line(p: LinkMissProfile) -> Seq<char> {
    let s = "zccache_link_miss_profile"@;
    let s = field(s, "family"@, p.family@);
    let s = field(s, "input_count"@, text::decimal(p.input_count as nat));
    let s = field(s, "total_ns"@, text::decimal(p.total_ns as nat));
    let s = field(s, "parse_args_ns"@, text::decimal(p.parse_args_ns as nat));
    let s = field(s, "tool_hash_ns"@, text::decimal(p.tool_hash_ns as nat));
    let s = field(s, "input_hash_ns"@, text::decimal(p.input_hash_ns as nat));
    let s = field(s, "cache_lookup_ns"@, text::decimal(p.cache_lookup_ns as nat));
    let s = field(s, "compiler_process_ns"@, text::decimal(p.compiler_process_ns as nat));
    let s = field(s, "output_read_ns"@, text::decimal(p.output_read_ns as nat));
    let s = field(s, "artifact_store_ns"@, text::decimal(p.artifact_store_ns as nat));
    let s = field(s, "unaccounted_ns"@, text::decimal(link_unaccounted_ns(p) as nat));
    s
}

/// The line that shows where the time of a link went.
pub fn emit_link_miss_profile(p: &LinkMissProfile) -> (r: String)
    ensures
        r@ == link_line(*p),
{
    let unaccounted_ns: u64 = rest_of(
        p.total_ns,
        &[p.parse_args_ns, p.tool_hash_ns, p.input_hash_ns, p.cache_lookup_ns, p.compiler_process_ns, p.output_read_ns, p.artifact_store_ns],
    );
    let mut s = "zccache_link_miss_profile".to_owned();
    push_text_field(&mut s, "family", p.family.as_str());
    push_number_field(&mut s, "input_count", p.input_count);
    push_number_field(&mut s, "total_ns", p.total_ns);
    push_number_field(&mut s, "parse_args_ns", p.parse_args_ns);
    push_number_field(&mut s, "tool_hash_ns", p.tool_hash_ns);
    push_number_field(&mut s, "input_hash_ns", p.input_hash_ns);
    push_number_field(&mut s, "cache_lookup_ns", p.cache_lookup_ns);
    push_number_field(&mut s, "compiler_process_ns", p.compiler_process_ns);
    push_number_field(&mut s, "output_read_ns", p.output_read_ns);
    push_number_field(&mut s, "artifact_store_ns", p.artifact_store_ns);
    push_number_field(&mut s, "unaccounted_ns", unaccounted_ns);
    s
}

/// Whether a line tells a value under a name.
pub open spec fn tells(line: Seq<char>, label: Seq<char>, value: Seq<char>) -> bool {
    exists|before: Seq<char>, after: Seq<char>|
        line == #[trigger] (before + " "@ + label + "="@ + value + after)
}

proof fn the_field_is_told(
    line: Seq<char>,
    before: Seq<char>,
    label: Seq<char>,
    value: Seq<char>,
    after: Seq<char>,
)
    requires
        line == field(before, label, value) + after,
    ensures
        tells(line, label, value),
        line == before + (" "@ + label + "="@ + value + after),
{
    assert(line =~= before + " "@ + label + "="@ + value + after);
    assert(line =~= before + (" "@ + label + "="@ + value + after));
}

/// Of the time before the Rust compiler ran, what its parts have not taken is
/// told as other; where they seem to have taken more, nothing is.
pub proof fn time_before_the_compiler_is_shared_out(p: RustMissProfile)
    ensures
        p.system_includes_ns + p.system_watch_ns + p.parse_args_ns + p.build_context_ns + p.hash_source_ns + p.hash_headers_ns + p.depgraph_check_ns <= p.pre_exec_ns ==> rust_pre_exec_other_ns(p) == p.pre_exec_ns - (p.system_includes_ns + p.system_watch_ns + p.parse_args_ns + p.build_context_ns + p.hash_source_ns + p.hash_headers_ns + p.depgraph_check_ns),
        p.system_includes_ns + p.system_watch_ns + p.parse_args_ns + p.build_context_ns + p.hash_source_ns + p.hash_headers_ns + p.depgraph_check_ns > p.pre_exec_ns ==> rust_pre_exec_other_ns(p) == 0,
{
    let v0 = Seq::<u64>::empty();
    assert(state::whole(v0) == 0);
    let v1 = v0.push(p.system_includes_ns);
    assert(v1.drop_last() =~= v0);
    assert(state::whole(v1) == state::whole(v0) + p.system_includes_ns);
    let v2 = v1.push(p.system_watch_ns);
    assert(v2.drop_last() =~= v1);
    assert(state::whole(v2) == state::whole(v1) + p.system_watch_ns);
    let v3 = v2.push(p.parse_args_ns);
    assert(v3.drop_last() =~= v2);
    assert(state::whole(v3) == state::whole(v2) + p.parse_args_ns);
    let v4 = v3.push(p.build_context_ns);
    assert(v4.drop_last() =~= v3);
    assert(state::whole(v4) == state::whole(v3) + p.build_context_ns);
    let v5 = v4.push(p.hash_source_ns);
    assert(v5.drop_last() =~= v4);
    assert(state::whole(v5) == state::whole(v4) + p.hash_source_ns);
    let v6 = v5.push(p.hash_headers_ns);
    assert(v6.drop_last() =~= v5);
    assert(state::whole(v6) == state::whole(v5) + p.hash_headers_ns);
    let v7 = v6.push(p.depgraph_check_ns);
    assert(v7.drop_last() =~= v6);
    assert(state::whole(v7) == state::whole(v6) + p.depgraph_check_ns);
    assert(v7 =~= seq![p.system_includes_ns, p.system_watch_ns, p.parse_args_ns, p.build_context_ns, p.hash_source_ns, p.hash_headers_ns, p.depgraph_check_ns]);
    state::sizes_add_up(v7);
}

/// Of the time that storing a Rust artifact took, what its parts have not taken
/// is told as other.
pub proof fn time_of_the_store_is_shared_out(p: RustMissProfile)
    ensures
        p.depgraph_update_ns + p.artifact_build_ns + p.artifact_meta_build_ns + p.rust_snapshot_ns + p.persist_enqueue_ns + p.artifact_insert_stats_ns + p.artifact_index_build_ns + p.artifact_index_persist_ns + p.artifact_memory_insert_ns <= p.artifact_store_ns ==> rust_artifact_store_other_ns(p) == p.artifact_store_ns - (p.depgraph_update_ns + p.artifact_build_ns + p.artifact_meta_build_ns + p.rust_snapshot_ns + p.persist_enqueue_ns + p.artifact_insert_stats_ns + p.artifact_index_build_ns + p.artifact_index_persist_ns + p.artifact_memory_insert_ns),
        p.depgraph_update_ns + p.artifact_build_ns + p.artifact_meta_build_ns + p.rust_snapshot_ns + p.persist_enqueue_ns + p.artifact_insert_stats_ns + p.artifact_index_build_ns + p.artifact_index_persist_ns + p.artifact_memory_insert_ns > p.artifact_store_ns ==> rust_artifact_store_other_ns(p) == 0,
{
    let v0 = Seq::<u64>::empty();
    assert(state::whole(v0) == 0);
    let v1 = v0.push(p.depgraph_update_ns);
    assert(v1.drop_last() =~= v0);
    assert(state::whole(v1) == state::whole(v0) + p.depgraph_update_ns);
    let v2 = v1.push(p.artifact_build_ns);
    assert(v2.drop_last() =~= v1);
    assert(state::whole(v2) == state::whole(v1) + p.artifact_build_ns);
    let v3 = v2.push(p.artifact_meta_build_ns);
    assert(v3.drop_last() =~= v2);
    assert(state::whole(v3) == state::whole(v2) + p.artifact_meta_build_ns);
    let v4 = v3.push(p.rust_snapshot_ns);
    assert(v4.drop_last() =~= v3);
    assert(state::whole(v4) == state::whole(v3) + p.rust_snapshot_ns);
    let v5 = v4.push(p.persist_enqueue_ns);
    assert(v5.drop_last() =~= v4);
    assert(state::whole(v5) == state::whole(v4) + p.persist_enqueue_ns);
    let v6 = v5.push(p.artifact_insert_stats_ns);
    assert(v6.drop_last() =~= v5);
    assert(state::whole(v6) == state::whole(v5) + p.artifact_insert_stats_ns);
    let v7 = v6.push(p.artifact_index_build_ns);
    assert(v7.drop_last() =~= v6);
    assert(state::whole(v7) == state::whole(v6) + p.artifact_index_build_ns);
    let v8 = v7.push(p.artifact_index_persist_ns);
    assert(v8.drop_last() =~= v7);
    assert(state::whole(v8) == state::whole(v7) + p.artifact_index_persist_ns);
    let v9 = v8.push(p.artifact_memory_insert_ns);
    assert(v9.drop_last() =~= v8);
    assert(state::whole(v9) == state::whole(v8) + p.artifact_memory_insert_ns);
    assert(v9 =~= seq![p.depgraph_update_ns, p.artifact_build_ns, p.artifact_meta_build_ns, p.rust_snapshot_ns, p.persist_enqueue_ns, p.artifact_insert_stats_ns, p.artifact_index_build_ns, p.artifact_index_persist_ns, p.artifact_memory_insert_ns]);
    state::sizes_add_up(v9);
}

/// Of the whole time of a Rust compilation, what no part has taken is told as
/// unaccounted.
pub proof fn time_of_a_rust_miss_is_shared_out(p: RustMissProfile)
    ensures
        p.pre_exec_ns + p.compiler_prep_ns + p.compiler_process_ns + p.post_exec_ns + p.apply_changes_ns + p.collect_outputs_ns + p.include_scan_ns + p.register_tracked_ns + p.dep_dirs_ns + p.hash_all_ns + p.artifact_store_ns <= p.total_ns ==> rust_unaccounted_ns(p) == p.total_ns - (p.pre_exec_ns + p.compiler_prep_ns + p.compiler_process_ns + p.post_exec_ns + p.apply_changes_ns + p.collect_outputs_ns + p.include_scan_ns + p.register_tracked_ns + p.dep_dirs_ns + p.hash_all_ns + p.artifact_store_ns),
        p.pre_exec_ns + p.compiler_prep_ns + p.compiler_process_ns + p.post_exec_ns + p.apply_changes_ns + p.collect_outputs_ns + p.include_scan_ns + p.register_tracked_ns + p.dep_dirs_ns + p.hash_all_ns + p.artifact_store_ns > p.total_ns ==> rust_unaccounted_ns(p) == 0,
{
    let v0 = Seq::<u64>::empty();
    assert(state::whole(v0) == 0);
    let v1 = v0.push(p.pre_exec_ns);
    assert(v1.drop_last() =~= v0);
    assert(state::whole(v1) == state::whole(v0) + p.pre_exec_ns);
    let v2 = v1.push(p.compiler_prep_ns);
    assert(v2.drop_last() =~= v1);
    assert(state::whole(v2) == state::whole(v1) + p.compiler_prep_ns);
    let v3 = v2.push(p.compiler_process_ns);
    assert(v3.drop_last() =~= v2);
    assert(state::whole(v3) == state::whole(v2) + p.compiler_process_ns);
    let v4 = v3.push(p.post_exec_ns);
    assert(v4.drop_last() =~= v3);
    assert(state::whole(v4) == state::whole(v3) + p.post_exec_ns);
    let v5 = v4.push(p.apply_changes_ns);
    assert(v5.drop_last() =~= v4);
    assert(state::whole(v5) == state::whole(v4) + p.apply_changes_ns);
    let v6 = v5.push(p.collect_outputs_ns);
    assert(v6.drop_last() =~= v5);
    assert(state::whole(v6) == state::whole(v5) + p.collect_outputs_ns);
    let v7 = v6.push(p.include_scan_ns);
    assert(v7.drop_last() =~= v6);
    assert(state::whole(v7) == state::whole(v6) + p.include_scan_ns);
    let v8 = v7.push(p.register_tracked_ns);
    assert(v8.drop_last() =~= v7);
    assert(state::whole(v8) == state::whole(v7) + p.register_tracked_ns);
    let v9 = v8.push(p.dep_dirs_ns);
    assert(v9.drop_last() =~= v8);
    assert(state::whole(v9) == state::whole(v8) + p.dep_dirs_ns);
    let v10 = v9.push(p.hash_all_ns);
    assert(v10.drop_last() =~= v9);
    assert(state::whole(v10) == state::whole(v9) + p.hash_all_ns);
    let v11 = v10.push(p.artifact_store_ns);
    assert(v11.drop_last() =~= v10);
    assert(state::whole(v11) == state::whole(v10) + p.artifact_store_ns);
    assert(v11 =~= seq![p.pre_exec_ns, p.compiler_prep_ns, p.compiler_process_ns, p.post_exec_ns, p.apply_changes_ns, p.collect_outputs_ns, p.include_scan_ns, p.register_tracked_ns, p.dep_dirs_ns, p.hash_all_ns, p.artifact_store_ns]);
    state::sizes_add_up(v11);
}

/// Of the time before another compiler ran, what its parts have not taken is
/// told as other.
pub proof fn time_before_a_cc_compiler_is_shared_out(p: CcMissProfile)
    ensures
        p.system_includes_ns + p.system_watch_ns + p.parse_args_ns + p.build_context_ns <= p.pre_exec_ns ==> cc_pre_exec_other_ns(p) == p.pre_exec_ns - (p.system_includes_ns + p.system_watch_ns + p.parse_args_ns + p.build_context_ns),
        p.system_includes_ns + p.system_watch_ns + p.parse_args_ns + p.build_context_ns > p.pre_exec_ns ==> cc_pre_exec_other_ns(p) == 0,
{
    let v0 = Seq::<u64>::empty();
    assert(state::whole(v0) == 0);
    let v1 = v0.push(p.system_includes_ns);
    assert(v1.drop_last() =~= v0);
    assert(state::whole(v1) == state::whole(v0) + p.system_includes_ns);
    let v2 = v1.push(p.system_watch_ns);
    assert(v2.drop_last() =~= v1);
    assert(state::whole(v2) == state::whole(v1) + p.system_watch_ns);
    let v3 = v2.push(p.parse_args_ns);
    assert(v3.drop_last() =~= v2);
    assert(state::whole(v3) == state::whole(v2) + p.parse_args_ns);
    let v4 = v3.push(p.build_context_ns);
    assert(v4.drop_last() =~= v3);
    assert(state::whole(v4) == state::whole(v3) + p.build_context_ns);
    assert(v4 =~= seq![p.system_includes_ns, p.system_watch_ns, p.parse_args_ns, p.build_context_ns]);
    state::sizes_add_up(v4);
}

/// Of the time that storing an object took, what its parts have not taken is
/// told as other.
pub proof fn time_of_a_cc_store_is_shared_out(p: CcMissProfile)
    ensures
        p.depgraph_update_ns + p.artifact_build_ns + p.persist_enqueue_ns + p.artifact_insert_stats_ns + p.artifact_index_build_ns + p.artifact_index_persist_ns + p.artifact_memory_insert_ns <= p.artifact_store_ns ==> cc_artifact_store_other_ns(p) == p.artifact_store_ns - (p.depgraph_update_ns + p.artifact_build_ns + p.persist_enqueue_ns + p.artifact_insert_stats_ns + p.artifact_index_build_ns + p.artifact_index_persist_ns + p.artifact_memory_insert_ns),
        p.depgraph_update_ns + p.artifact_build_ns + p.persist_enqueue_ns + p.artifact_insert_stats_ns + p.artifact_index_build_ns + p.artifact_index_persist_ns + p.artifact_memory_insert_ns > p.artifact_store_ns ==> cc_artifact_store_other_ns(p) == 0,
{
    let v0 = Seq::<u64>::empty();
    assert(state::whole(v0) == 0);
    let v1 = v0.push(p.depgraph_update_ns);
    assert(v1.drop_last() =~= v0);
    assert(state::whole(v1) == state::whole(v0) + p.depgraph_update_ns);
    let v2 = v1.push(p.artifact_build_ns);
    assert(v2.drop_last() =~= v1);
    assert(state::whole(v2) == state::whole(v1) + p.artifact_build_ns);
    let v3 = v2.push(p.persist_enqueue_ns);
    assert(v3.drop_last() =~= v2);
    assert(state::whole(v3) == state::whole(v2) + p.persist_enqueue_ns);
    let v4 = v3.push(p.artifact_insert_stats_ns);
    assert(v4.drop_last() =~= v3);
    assert(state::whole(v4) == state::whole(v3) + p.artifact_insert_stats_ns);
    let v5 = v4.push(p.artifact_index_build_ns);
    assert(v5.drop_last() =~= v4);
    assert(state::whole(v5) == state::whole(v4) + p.artifact_index_build_ns);
    let v6 = v5.push(p.artifact_index_persist_ns);
    assert(v6.drop_last() =~= v5);
    assert(state::whole(v6) == state::whole(v5) + p.artifact_index_persist_ns);
    let v7 = v6.push(p.artifact_memory_insert_ns);
    assert(v7.drop_last() =~= v6);
    assert(state::whole(v7) == state::whole(v6) + p.artifact_memory_insert_ns);
    assert(v7 =~= seq![p.depgraph_update_ns, p.artifact_build_ns, p.persist_enqueue_ns, p.artifact_insert_stats_ns, p.artifact_index_build_ns, p.artifact_index_persist_ns, p.artifact_memory_insert_ns]);
    state::sizes_add_up(v7);
}

/// Of the whole time of another compilation, what no part has taken is told as
/// unaccounted.
pub proof fn time_of_a_cc_miss_is_shared_out(p: CcMissProfile)
    ensures
        p.pre_exec_ns + p.break_outputs_ns + p.compiler_process_ns + p.post_exec_ns + p.include_scan_ns + p.register_tracked_ns + p.dep_dirs_ns + p.hash_all_ns + p.artifact_store_ns <= p.total_ns ==> cc_unaccounted_ns(p) == p.total_ns - (p.pre_exec_ns + p.break_outputs_ns + p.compiler_process_ns + p.post_exec_ns + p.include_scan_ns + p.register_tracked_ns + p.dep_dirs_ns + p.hash_all_ns + p.artifact_store_ns),
        p.pre_exec_ns + p.break_outputs_ns + p.compiler_process_ns + p.post_exec_ns + p.include_scan_ns + p.register_tracked_ns + p.dep_dirs_ns + p.hash_all_ns + p.artifact_store_ns > p.total_ns ==> cc_unaccounted_ns(p) == 0,
{
    let v0 = Seq::<u64>::empty();
    assert(state::whole(v0) == 0);
    let v1 = v0.push(p.pre_exec_ns);
    assert(v1.drop_last() =~= v0);
    assert(state::whole(v1) == state::whole(v0) + p.pre_exec_ns);
    let v2 = v1.push(p.break_outputs_ns);
    assert(v2.drop_last() =~= v1);
    assert(state::whole(v2) == state::whole(v1) + p.break_outputs_ns);
    let v3 = v2.push(p.compiler_process_ns);
    assert(v3.drop_last() =~= v2);
    assert(state::whole(v3) == state::whole(v2) + p.compiler_process_ns);
    let v4 = v3.push(p.post_exec_ns);
    assert(v4.drop_last() =~= v3);
    assert(state::whole(v4) == state::whole(v3) + p.post_exec_ns);
    let v5 = v4.push(p.include_scan_ns);
    assert(v5.drop_last() =~= v4);
    assert(state::whole(v5) == state::whole(v4) + p.include_scan_ns);
    let v6 = v5.push(p.register_tracked_ns);
    assert(v6.drop_last() =~= v5);
    assert(state::whole(v6) == state::whole(v5) + p.register_tracked_ns);
    let v7 = v6.push(p.dep_dirs_ns);
    assert(v7.drop_last() =~= v6);
    assert(state::whole(v7) == state::whole(v6) + p.dep_dirs_ns);
    let v8 = v7.push(p.hash_all_ns);
    assert(v8.drop_last() =~= v7);
    assert(state::whole(v8) == state::whole(v7) + p.hash_all_ns);
    let v9 = v8.push(p.artifact_store_ns);
    assert(v9.drop_last() =~= v8);
    assert(state::whole(v9) == state::whole(v8) + p.artifact_store_ns);
    assert(v9 =~= seq![p.pre_exec_ns, p.break_outputs_ns, p.compiler_process_ns, p.post_exec_ns, p.include_scan_ns, p.register_tracked_ns, p.dep_dirs_ns, p.hash_all_ns, p.artifact_store_ns]);
    state::sizes_add_up(v9);
}

/// Of the whole time of a link, what no part has taken is told as unaccounted.
pub proof fn time_of_a_link_is_shared_out(p: LinkMissProfile)
    ensures
        p.parse_args_ns + p.tool_hash_ns + p.input_hash_ns + p.cache_lookup_ns + p.compiler_process_ns + p.output_read_ns + p.artifact_store_ns <= p.total_ns ==> link_unaccounted_ns(p) == p.total_ns - (p.parse_args_ns + p.tool_hash_ns + p.input_hash_ns + p.cache_lookup_ns + p.compiler_process_ns + p.output_read_ns + p.artifact_store_ns),
        p.parse_args_ns + p.tool_hash_ns + p.input_hash_ns + p.cache_lookup_ns + p.compiler_process_ns + p.output_read_ns + p.artifact_store_ns > p.total_ns ==> link_unaccounted_ns(p) == 0,
{
    let v0 = Seq::<u64>::empty();
    assert(state::whole(v0) == 0);
    let v1 = v0.push(p.parse_args_ns);
    assert(v1.drop_last() =~= v0);
    assert(state::whole(v1) == state::whole(v0) + p.parse_args_ns);
    let v2 = v1.push(p.tool_hash_ns);
    assert(v2.drop_last() =~= v1);
    assert(state::whole(v2) == state::whole(v1) + p.tool_hash_ns);
    let v3 = v2.push(p.input_hash_ns);
    assert(v3.drop_last() =~= v2);
    assert(state::whole(v3) == state::whole(v2) + p.input_hash_ns);
    let v4 = v3.push(p.cache_lookup_ns);
    assert(v4.drop_last() =~= v3);
    assert(state::whole(v4) == state::whole(v3) + p.cache_lookup_ns);
    let v5 = v4.push(p.compiler_process_ns);
    assert(v5.drop_last() =~= v4);
    assert(state::whole(v5) == state::whole(v4) + p.compiler_process_ns);
    let v6 = v5.push(p.output_read_ns);
    assert(v6.drop_last() =~= v5);
    assert(state::whole(v6) == state::whole(v5) + p.output_read_ns);
    let v7 = v6.push(p.artifact_store_ns);
    assert(v7.drop_last() =~= v6);
    assert(state::whole(v7) == state::whole(v6) + p.artifact_store_ns);
    assert(v7 =~= seq![p.parse_args_ns, p.tool_hash_ns, p.input_hash_ns, p.cache_lookup_ns, p.compiler_process_ns, p.output_read_ns, p.artifact_store_ns]);
    state::sizes_add_up(v7);
}

/// The line of a Rust compilation tells each of its numbers under its own name.
pub proof fn rust_lines_tell_every_part(p: RustMissProfile)
    ensures
        tells(rust_line(p), "mode"@, p.mode@),
        tells(rust_line(p), "compiler_priority"@, priority::priority_name(p.compiler_priority_decision.requested)),
        tells(rust_line(p), "compiler_effective_priority"@, priority::priority_name(p.compiler_priority_decision.effective)),
        tells(rust_line(p), "compiler_cpu_usage_percent"@, percent_text(p.compiler_priority_decision.cpu_usage_millipercent)),
        tells(rust_line(p), "total_ns"@, text::decimal(p.total_ns as nat)),
        tells(rust_line(p), "pre_exec_ns"@, text::decimal(p.pre_exec_ns as nat)),
        tells(rust_line(p), "system_includes_ns"@, text::decimal(p.system_includes_ns as nat)),
        tells(rust_line(p), "system_watch_ns"@, text::decimal(p.system_watch_ns as nat)),
        tells(rust_line(p), "parse_args_ns"@, text::decimal(p.parse_args_ns as nat)),
        tells(rust_line(p), "build_context_ns"@, text::decimal(p.build_context_ns as nat)),
        tells(rust_line(p), "hash_source_ns"@, text::decimal(p.hash_source_ns as nat)),
        tells(rust_line(p), "hash_headers_ns"@, text::decimal(p.hash_headers_ns as nat)),
        tells(rust_line(p), "depgraph_check_ns"@, text::decimal(p.depgraph_check_ns as nat)),
        tells(rust_line(p), "pre_exec_other_ns"@, text::decimal(rust_pre_exec_other_ns(p) as nat)),
        tells(rust_line(p), "break_outputs_ns"@, text::decimal(p.break_outputs_ns as nat)),
        tells(rust_line(p), "compiler_prep_ns"@, text::decimal(p.compiler_prep_ns as nat)),
        tells(rust_line(p), "compiler_process_ns"@, text::decimal(p.compiler_process_ns as nat)),
        tells(rust_line(p), "post_exec_ns"@, text::decimal(p.post_exec_ns as nat)),
        tells(rust_line(p), "apply_changes_ns"@, text::decimal(p.apply_changes_ns as nat)),
        tells(rust_line(p), "collect_outputs_ns"@, text::decimal(p.collect_outputs_ns as nat)),
        tells(rust_line(p), "outputs"@, text::decimal(p.rust_output_count as nat)),
        tells(rust_line(p), "output_bytes"@, text::decimal(p.rust_output_bytes as nat)),
        tells(rust_line(p), "include_scan_ns"@, text::decimal(p.include_scan_ns as nat)),
        tells(rust_line(p), "register_tracked_ns"@, text::decimal(p.register_tracked_ns as nat)),
        tells(rust_line(p), "dep_dirs_ns"@, text::decimal(p.dep_dirs_ns as nat)),
        tells(rust_line(p), "hash_all_ns"@, text::decimal(p.hash_all_ns as nat)),
        tells(rust_line(p), "artifact_store_ns"@, text::decimal(p.artifact_store_ns as nat)),
        tells(rust_line(p), "depgraph_update_ns"@, text::decimal(p.depgraph_update_ns as nat)),
        tells(rust_line(p), "artifact_build_ns"@, text::decimal(p.artifact_build_ns as nat)),
        tells(rust_line(p), "artifact_meta_build_ns"@, text::decimal(p.artifact_meta_build_ns as nat)),
        tells(rust_line(p), "rust_snapshot_ns"@, text::decimal(p.rust_snapshot_ns as nat)),
        tells(rust_line(p), "rust_snapshot_hardlink_count"@, text::decimal(p.rust_snapshot_hardlink_count as nat)),
        tells(rust_line(p), "rust_snapshot_copy_count"@, text::decimal(p.rust_snapshot_copy_count as nat)),
        tells(rust_line(p), "rust_snapshot_copy_bytes"@, text::decimal(p.rust_snapshot_copy_bytes as nat)),
        tells(rust_line(p), "rust_snapshot_error_count"@, text::decimal(p.rust_snapshot_error_count as nat)),
        tells(rust_line(p), "persist_enqueue_ns"@, text::decimal(p.persist_enqueue_ns as nat)),
        tells(rust_line(p), "artifact_insert_stats_ns"@, text::decimal(p.artifact_insert_stats_ns as nat)),
        tells(rust_line(p), "artifact_index_build_ns"@, text::decimal(p.artifact_index_build_ns as nat)),
        tells(rust_line(p), "artifact_index_persist_ns"@, text::decimal(p.artifact_index_persist_ns as nat)),
        tells(rust_line(p), "artifact_memory_insert_ns"@, text::decimal(p.artifact_memory_insert_ns as nat)),
        tells(rust_line(p), "artifact_store_other_ns"@, text::decimal(rust_artifact_store_other_ns(p) as nat)),
        tells(rust_line(p), "unaccounted_ns"@, text::decimal(rust_unaccounted_ns(p) as nat)),
{
    let s0 = "zccache_rust_miss_profile"@;
    let s1 = field(s0, "mode"@, p.mode@);
    let s2 = field(s1, "compiler_priority"@, priority::priority_name(p.compiler_priority_decision.requested));
    let s3 = field(s2, "compiler_effective_priority"@, priority::priority_name(p.compiler_priority_decision.effective));
    let s4 = field(s3, "compiler_cpu_usage_percent"@, percent_text(p.compiler_priority_decision.cpu_usage_millipercent));
    let s5 = field(s4, "total_ns"@, text::decimal(p.total_ns as nat));
    let s6 = field(s5, "pre_exec_ns"@, text::decimal(p.pre_exec_ns as nat));
    let s7 = field(s6, "system_includes_ns"@, text::decimal(p.system_includes_ns as nat));
    let s8 = field(s7, "system_watch_ns"@, text::decimal(p.system_watch_ns as nat));
    let s9 = field(s8, "parse_args_ns"@, text::decimal(p.parse_args_ns as nat));
    let s10 = field(s9, "build_context_ns"@, text::decimal(p.build_context_ns as nat));
    let s11 = field(s10, "hash_source_ns"@, text::decimal(p.hash_source_ns as nat));
    let s12 = field(s11, "hash_headers_ns"@, text::decimal(p.hash_headers_ns as nat));
    let s13 = field(s12, "depgraph_check_ns"@, text::decimal(p.depgraph_check_ns as nat));
    let s14 = field(s13, "pre_exec_other_ns"@, text::decimal(rust_pre_exec_other_ns(p) as nat));
    let s15 = field(s14, "break_outputs_ns"@, text::decimal(p.break_outputs_ns as nat));
    let s16 = field(s15, "compiler_prep_ns"@, text::decimal(p.compiler_prep_ns as nat));
    let s17 = field(s16, "compiler_process_ns"@, text::decimal(p.compiler_process_ns as nat));
    let s18 = field(s17, "post_exec_ns"@, text::decimal(p.post_exec_ns as nat));
    let s19 = field(s18, "apply_changes_ns"@, text::decimal(p.apply_changes_ns as nat));
    let s20 = field(s19, "collect_outputs_ns"@, text::decimal(p.collect_outputs_ns as nat));
    let s21 = field(s20, "outputs"@, text::decimal(p.rust_output_count as nat));
    let s22 = field(s21, "output_bytes"@, text::decimal(p.rust_output_bytes as nat));
    let s23 = field(s22, "include_scan_ns"@, text::decimal(p.include_scan_ns as nat));
    let s24 = field(s23, "register_tracked_ns"@, text::decimal(p.register_tracked_ns as nat));
    let s25 = field(s24, "dep_dirs_ns"@, text::decimal(p.dep_dirs_ns as nat));
    let s26 = field(s25, "hash_all_ns"@, text::decimal(p.hash_all_ns as nat));
    let s27 = field(s26, "artifact_store_ns"@, text::decimal(p.artifact_store_ns as nat));
    let s28 = field(s27, "depgraph_update_ns"@, text::decimal(p.depgraph_update_ns as nat));
    let s29 = field(s28, "artifact_build_ns"@, text::decimal(p.artifact_build_ns as nat));
    let s30 = field(s29, "artifact_meta_build_ns"@, text::decimal(p.artifact_meta_build_ns as nat));
    let s31 = field(s30, "rust_snapshot_ns"@, text::decimal(p.rust_snapshot_ns as nat));
    let s32 = field(s31, "rust_snapshot_hardlink_count"@, text::decimal(p.rust_snapshot_hardlink_count as nat));
    let s33 = field(s32, "rust_snapshot_copy_count"@, text::decimal(p.rust_snapshot_copy_count as nat));
    let s34 = field(s33, "rust_snapshot_copy_bytes"@, text::decimal(p.rust_snapshot_copy_bytes as nat));
    let s35 = field(s34, "rust_snapshot_error_count"@, text::decimal(p.rust_snapshot_error_count as nat));
    let s36 = field(s35, "persist_enqueue_ns"@, text::decimal(p.persist_enqueue_ns as nat));
    let s37 = field(s36, "artifact_insert_stats_ns"@, text::decimal(p.artifact_insert_stats_ns as nat));
    let s38 = field(s37, "artifact_index_build_ns"@, text::decimal(p.artifact_index_build_ns as nat));
    let s39 = field(s38, "artifact_index_persist_ns"@, text::decimal(p.artifact_index_persist_ns as nat));
    let s40 = field(s39, "artifact_memory_insert_ns"@, text::decimal(p.artifact_memory_insert_ns as nat));
    let s41 = field(s40, "artifact_store_other_ns"@, text::decimal(rust_artifact_store_other_ns(p) as nat));
    let s42 = field(s41, "unaccounted_ns"@, text::decimal(rust_unaccounted_ns(p) as nat));
    let line = s42;
    let t42 = Seq::<char>::empty();
    assert(line =~= s42 + t42);
    let t41 = " "@ + "unaccounted_ns"@ + "="@ + text::decimal(rust_unaccounted_ns(p) as nat) + t42;
    the_field_is_told(line, s41, "unaccounted_ns"@, text::decimal(rust_unaccounted_ns(p) as nat), t42);
    let t40 = " "@ + "artifact_store_other_ns"@ + "="@ + text::decimal(rust_artifact_store_other_ns(p) as nat) + t41;
    the_field_is_told(line, s40, "artifact_store_other_ns"@, text::decimal(rust_artifact_store_other_ns(p) as nat), t41);
    let t39 = " "@ + "artifact_memory_insert_ns"@ + "="@ + text::decimal(p.artifact_memory_insert_ns as nat) + t40;
    the_field_is_told(line, s39, "artifact_memory_insert_ns"@, text::decimal(p.artifact_memory_insert_ns as nat), t40);
    let t38 = " "@ + "artifact_index_persist_ns"@ + "="@ + text::decimal(p.artifact_index_persist_ns as nat) + t39;
    the_field_is_told(line, s38, "artifact_index_persist_ns"@, text::decimal(p.artifact_index_persist_ns as nat), t39);
    let t37 = " "@ + "artifact_index_build_ns"@ + "="@ + text::decimal(p.artifact_index_build_ns as nat) + t38;
    the_field_is_told(line, s37, "artifact_index_build_ns"@, text::decimal(p.artifact_index_build_ns as nat), t38);
    let t36 = " "@ + "artifact_insert_stats_ns"@ + "="@ + text::decimal(p.artifact_insert_stats_ns as nat) + t37;
    the_field_is_told(line, s36, "artifact_insert_stats_ns"@, text::decimal(p.artifact_insert_stats_ns as nat), t37);
    let t35 = " "@ + "persist_enqueue_ns"@ + "="@ + text::decimal(p.persist_enqueue_ns as nat) + t36;
    the_field_is_told(line, s35, "persist_enqueue_ns"@, text::decimal(p.persist_enqueue_ns as nat), t36);
    let t34 = " "@ + "rust_snapshot_error_count"@ + "="@ + text::decimal(p.rust_snapshot_error_count as nat) + t35;
    the_field_is_told(line, s34, "rust_snapshot_error_count"@, text::decimal(p.rust_snapshot_error_count as nat), t35);
    let t33 = " "@ + "rust_snapshot_copy_bytes"@ + "="@ + text::decimal(p.rust_snapshot_copy_bytes as nat) + t34;
    the_field_is_told(line, s33, "rust_snapshot_copy_bytes"@, text::decimal(p.rust_snapshot_copy_bytes as nat), t34);
    let t32 = " "@ + "rust_snapshot_copy_count"@ + "="@ + text::decimal(p.rust_snapshot_copy_count as nat) + t33;
    the_field_is_told(line, s32, "rust_snapshot_copy_count"@, text::decimal(p.rust_snapshot_copy_count as nat), t33);
    let t31 = " "@ + "rust_snapshot_hardlink_count"@ + "="@ + text::decimal(p.rust_snapshot_hardlink_count as nat) + t32;
    the_field_is_told(line, s31, "rust_snapshot_hardlink_count"@, text::decimal(p.rust_snapshot_hardlink_count as nat), t32);
    let t30 = " "@ + "rust_snapshot_ns"@ + "="@ + text::decimal(p.rust_snapshot_ns as nat) + t31;
    the_field_is_told(line, s30, "rust_snapshot_ns"@, text::decimal(p.rust_snapshot_ns as nat), t31);
    let t29 = " "@ + "artifact_meta_build_ns"@ + "="@ + text::decimal(p.artifact_meta_build_ns as nat) + t30;
    the_field_is_told(line, s29, "artifact_meta_build_ns"@, text::decimal(p.artifact_meta_build_ns as nat), t30);
    let t28 = " "@ + "artifact_build_ns"@ + "="@ + text::decimal(p.artifact_build_ns as nat) + t29;
    the_field_is_told(line, s28, "artifact_build_ns"@, text::decimal(p.artifact_build_ns as nat), t29);
    let t27 = " "@ + "depgraph_update_ns"@ + "="@ + text::decimal(p.depgraph_update_ns as nat) + t28;
    the_field_is_told(line, s27, "depgraph_update_ns"@, text::decimal(p.depgraph_update_ns as nat), t28);
    let t26 = " "@ + "artifact_store_ns"@ + "="@ + text::decimal(p.artifact_store_ns as nat) + t27;
    the_field_is_told(line, s26, "artifact_store_ns"@, text::decimal(p.artifact_store_ns as nat), t27);
    let t25 = " "@ + "hash_all_ns"@ + "="@ + text::decimal(p.hash_all_ns as nat) + t26;
    the_field_is_told(line, s25, "hash_all_ns"@, text::decimal(p.hash_all_ns as nat), t26);
    let t24 = " "@ + "dep_dirs_ns"@ + "="@ + text::decimal(p.dep_dirs_ns as nat) + t25;
    the_field_is_told(line, s24, "dep_dirs_ns"@, text::decimal(p.dep_dirs_ns as nat), t25);
    let t23 = " "@ + "register_tracked_ns"@ + "="@ + text::decimal(p.register_tracked_ns as nat) + t24;
    the_field_is_told(line, s23, "register_tracked_ns"@, text::decimal(p.register_tracked_ns as nat), t24);
    let t22 = " "@ + "include_scan_ns"@ + "="@ + text::decimal(p.include_scan_ns as nat) + t23;
    the_field_is_told(line, s22, "include_scan_ns"@, text::decimal(p.include_scan_ns as nat), t23);
    let t21 = " "@ + "output_bytes"@ + "="@ + text::decimal(p.rust_output_bytes as nat) + t22;
    the_field_is_told(line, s21, "output_bytes"@, text::decimal(p.rust_output_bytes as nat), t22);
    let t20 = " "@ + "outputs"@ + "="@ + text::decimal(p.rust_output_count as nat) + t21;
    the_field_is_told(line, s20, "outputs"@, text::decimal(p.rust_output_count as nat), t21);
    let t19 = " "@ + "collect_outputs_ns"@ + "="@ + text::decimal(p.collect_outputs_ns as nat) + t20;
    the_field_is_told(line, s19, "collect_outputs_ns"@, text::decimal(p.collect_outputs_ns as nat), t20);
    let t18 = " "@ + "apply_changes_ns"@ + "="@ + text::decimal(p.apply_changes_ns as nat) + t19;
    the_field_is_told(line, s18, "apply_changes_ns"@, text::decimal(p.apply_changes_ns as nat), t19);
    let t17 = " "@ + "post_exec_ns"@ + "="@ + text::decimal(p.post_exec_ns as nat) + t18;
    the_field_is_told(line, s17, "post_exec_ns"@, text::decimal(p.post_exec_ns as nat), t18);
    let t16 = " "@ + "compiler_process_ns"@ + "="@ + text::decimal(p.compiler_process_ns as nat) + t17;
    the_field_is_told(line, s16, "compiler_process_ns"@, text::decimal(p.compiler_process_ns as nat), t17);
    let t15 = " "@ + "compiler_prep_ns"@ + "="@ + text::decimal(p.compiler_prep_ns as nat) + t16;
    the_field_is_told(line, s15, "compiler_prep_ns"@, text::decimal(p.compiler_prep_ns as nat), t16);
    let t14 = " "@ + "break_outputs_ns"@ + "="@ + text::decimal(p.break_outputs_ns as nat) + t15;
    the_field_is_told(line, s14, "break_outputs_ns"@, text::decimal(p.break_outputs_ns as nat), t15);
    let t13 = " "@ + "pre_exec_other_ns"@ + "="@ + text::decimal(rust_pre_exec_other_ns(p) as nat) + t14;
    the_field_is_told(line, s13, "pre_exec_other_ns"@, text::decimal(rust_pre_exec_other_ns(p) as nat), t14);
    let t12 = " "@ + "depgraph_check_ns"@ + "="@ + text::decimal(p.depgraph_check_ns as nat) + t13;
    the_field_is_told(line, s12, "depgraph_check_ns"@, text::decimal(p.depgraph_check_ns as nat), t13);
    let t11 = " "@ + "hash_headers_ns"@ + "="@ + text::decimal(p.hash_headers_ns as nat) + t12;
    the_field_is_told(line, s11, "hash_headers_ns"@, text::decimal(p.hash_headers_ns as nat), t12);
    let t10 = " "@ + "hash_source_ns"@ + "="@ + text::decimal(p.hash_source_ns as nat) + t11;
    the_field_is_told(line, s10, "hash_source_ns"@, text::decimal(p.hash_source_ns as nat), t11);
    let t9 = " "@ + "build_context_ns"@ + "="@ + text::decimal(p.build_context_ns as nat) + t10;
    the_field_is_told(line, s9, "build_context_ns"@, text::decimal(p.build_context_ns as nat), t10);
    let t8 = " "@ + "parse_args_ns"@ + "="@ + text::decimal(p.parse_args_ns as nat) + t9;
    the_field_is_told(line, s8, "parse_args_ns"@, text::decimal(p.parse_args_ns as nat), t9);
    let t7 = " "@ + "system_watch_ns"@ + "="@ + text::decimal(p.system_watch_ns as nat) + t8;
    the_field_is_told(line, s7, "system_watch_ns"@, text::decimal(p.system_watch_ns as nat), t8);
    let t6 = " "@ + "system_includes_ns"@ + "="@ + text::decimal(p.system_includes_ns as nat) + t7;
    the_field_is_told(line, s6, "system_includes_ns"@, text::decimal(p.system_includes_ns as nat), t7);
    let t5 = " "@ + "pre_exec_ns"@ + "="@ + text::decimal(p.pre_exec_ns as nat) + t6;
    the_field_is_told(line, s5, "pre_exec_ns"@, text::decimal(p.pre_exec_ns as nat), t6);
    let t4 = " "@ + "total_ns"@ + "="@ + text::decimal(p.total_ns as nat) + t5;
    the_field_is_told(line, s4, "total_ns"@, text::decimal(p.total_ns as nat), t5);
    let t3 = " "@ + "compiler_cpu_usage_percent"@ + "="@ + percent_text(p.compiler_priority_decision.cpu_usage_millipercent) + t4;
    the_field_is_told(line, s3, "compiler_cpu_usage_percent"@, percent_text(p.compiler_priority_decision.cpu_usage_millipercent), t4);
    let t2 = " "@ + "compiler_effective_priority"@ + "="@ + priority::priority_name(p.compiler_priority_decision.effective) + t3;
    the_field_is_told(line, s2, "compiler_effective_priority"@, priority::priority_name(p.compiler_priority_decision.effective), t3);
    let t1 = " "@ + "compiler_priority"@ + "="@ + priority::priority_name(p.compiler_priority_decision.requested) + t2;
    the_field_is_told(line, s1, "compiler_priority"@, priority::priority_name(p.compiler_priority_decision.requested), t2);
    let t0 = " "@ + "mode"@ + "="@ + p.mode@ + t1;
    the_field_is_told(line, s0, "mode"@, p.mode@, t1);
}

/// The line of another compilation tells each of its numbers under its own name.
pub proof fn cc_lines_tell_every_part(p: CcMissProfile)
    ensures
        tells(cc_line(p), "family"@, p.family@),
        tells(cc_line(p), "compiler_priority"@, priority::priority_name(p.compiler_priority_decision.requested)),
        tells(cc_line(p), "compiler_effective_priority"@, priority::priority_name(p.compiler_priority_decision.effective)),
        tells(cc_line(p), "total_ns"@, text::decimal(p.total_ns as nat)),
        tells(cc_line(p), "pre_exec_ns"@, text::decimal(p.pre_exec_ns as nat)),
        tells(cc_line(p), "system_includes_ns"@, text::decimal(p.system_includes_ns as nat)),
        tells(cc_line(p), "system_watch_ns"@, text::decimal(p.system_watch_ns as nat)),
        tells(cc_line(p), "parse_args_ns"@, text::decimal(p.parse_args_ns as nat)),
        tells(cc_line(p), "build_context_ns"@, text::decimal(p.build_context_ns as nat)),
        tells(cc_line(p), "pre_exec_other_ns"@, text::decimal(cc_pre_exec_other_ns(p) as nat)),
        tells(cc_line(p), "break_outputs_ns"@, text::decimal(p.break_outputs_ns as nat)),
        tells(cc_line(p), "compiler_process_ns"@, text::decimal(p.compiler_process_ns as nat)),
        tells(cc_line(p), "post_exec_ns"@, text::decimal(p.post_exec_ns as nat)),
        tells(cc_line(p), "include_scan_ns"@, text::decimal(p.include_scan_ns as nat)),
        tells(cc_line(p), "register_tracked_ns"@, text::decimal(p.register_tracked_ns as nat)),
        tells(cc_line(p), "dep_dirs_ns"@, text::decimal(p.dep_dirs_ns as nat)),
        tells(cc_line(p), "hash_all_ns"@, text::decimal(p.hash_all_ns as nat)),
        tells(cc_line(p), "artifact_store_ns"@, text::decimal(p.artifact_store_ns as nat)),
        tells(cc_line(p), "depgraph_update_ns"@, text::decimal(p.depgraph_update_ns as nat)),
        tells(cc_line(p), "artifact_build_ns"@, text::decimal(p.artifact_build_ns as nat)),
        tells(cc_line(p), "persist_enqueue_ns"@, text::decimal(p.persist_enqueue_ns as nat)),
        tells(cc_line(p), "artifact_insert_stats_ns"@, text::decimal(p.artifact_insert_stats_ns as nat)),
        tells(cc_line(p), "artifact_index_build_ns"@, text::decimal(p.artifact_index_build_ns as nat)),
        tells(cc_line(p), "artifact_index_persist_ns"@, text::decimal(p.artifact_index_persist_ns as nat)),
        tells(cc_line(p), "artifact_memory_insert_ns"@, text::decimal(p.artifact_memory_insert_ns as nat)),
        tells(cc_line(p), "artifact_store_other_ns"@, text::decimal(cc_artifact_store_other_ns(p) as nat)),
        tells(cc_line(p), "unaccounted_ns"@, text::decimal(cc_unaccounted_ns(p) as nat)),
{
    let s0 = "zccache_cc_miss_profile"@;
    let s1 = field(s0, "family"@, p.family@);
    let s2 = field(s1, "compiler_priority"@, priority::priority_name(p.compiler_priority_decision.requested));
    let s3 = field(s2, "compiler_effective_priority"@, priority::priority_name(p.compiler_priority_decision.effective));
    let s4 = field(s3, "total_ns"@, text::decimal(p.total_ns as nat));
    let s5 = field(s4, "pre_exec_ns"@, text::decimal(p.pre_exec_ns as nat));
    let s6 = field(s5, "system_includes_ns"@, text::decimal(p.system_includes_ns as nat));
    let s7 = field(s6, "system_watch_ns"@, text::decimal(p.system_watch_ns as nat));
    let s8 = field(s7, "parse_args_ns"@, text::decimal(p.parse_args_ns as nat));
    let s9 = field(s8, "build_context_ns"@, text::decimal(p.build_context_ns as nat));
    let s10 = field(s9, "pre_exec_other_ns"@, text::decimal(cc_pre_exec_other_ns(p) as nat));
    let s11 = field(s10, "break_outputs_ns"@, text::decimal(p.break_outputs_ns as nat));
    let s12 = field(s11, "compiler_process_ns"@, text::decimal(p.compiler_process_ns as nat));
    let s13 = field(s12, "post_exec_ns"@, text::decimal(p.post_exec_ns as nat));
    let s14 = field(s13, "include_scan_ns"@, text::decimal(p.include_scan_ns as nat));
    let s15 = field(s14, "register_tracked_ns"@, text::decimal(p.register_tracked_ns as nat));
    let s16 = field(s15, "dep_dirs_ns"@, text::decimal(p.dep_dirs_ns as nat));
    let s17 = field(s16, "hash_all_ns"@, text::decimal(p.hash_all_ns as nat));
    let s18 = field(s17, "artifact_store_ns"@, text::decimal(p.artifact_store_ns as nat));
    let s19 = field(s18, "depgraph_update_ns"@, text::decimal(p.depgraph_update_ns as nat));
    let s20 = field(s19, "artifact_build_ns"@, text::decimal(p.artifact_build_ns as nat));
    let s21 = field(s20, "persist_enqueue_ns"@, text::decimal(p.persist_enqueue_ns as nat));
    let s22 = field(s21, "artifact_insert_stats_ns"@, text::decimal(p.artifact_insert_stats_ns as nat));
    let s23 = field(s22, "artifact_index_build_ns"@, text::decimal(p.artifact_index_build_ns as nat));
    let s24 = field(s23, "artifact_index_persist_ns"@, text::decimal(p.artifact_index_persist_ns as nat));
    let s25 = field(s24, "artifact_memory_insert_ns"@, text::decimal(p.artifact_memory_insert_ns as nat));
    let s26 = field(s25, "artifact_store_other_ns"@, text::decimal(cc_artifact_store_other_ns(p) as nat));
    let s27 = field(s26, "unaccounted_ns"@, text::decimal(cc_unaccounted_ns(p) as nat));
    let line = s27;
    let t27 = Seq::<char>::empty();
    assert(line =~= s27 + t27);
    let t26 = " "@ + "unaccounted_ns"@ + "="@ + text::decimal(cc_unaccounted_ns(p) as nat) + t27;
    the_field_is_told(line, s26, "unaccounted_ns"@, text::decimal(cc_unaccounted_ns(p) as nat), t27);
    let t25 = " "@ + "artifact_store_other_ns"@ + "="@ + text::decimal(cc_artifact_store_other_ns(p) as nat) + t26;
    the_field_is_told(line, s25, "artifact_store_other_ns"@, text::decimal(cc_artifact_store_other_ns(p) as nat), t26);
    let t24 = " "@ + "artifact_memory_insert_ns"@ + "="@ + text::decimal(p.artifact_memory_insert_ns as nat) + t25;
    the_field_is_told(line, s24, "artifact_memory_insert_ns"@, text::decimal(p.artifact_memory_insert_ns as nat), t25);
    let t23 = " "@ + "artifact_index_persist_ns"@ + "="@ + text::decimal(p.artifact_index_persist_ns as nat) + t24;
    the_field_is_told(line, s23, "artifact_index_persist_ns"@, text::decimal(p.artifact_index_persist_ns as nat), t24);
    let t22 = " "@ + "artifact_index_build_ns"@ + "="@ + text::decimal(p.artifact_index_build_ns as nat) + t23;
    the_field_is_told(line, s22, "artifact_index_build_ns"@, text::decimal(p.artifact_index_build_ns as nat), t23);
    let t21 = " "@ + "artifact_insert_stats_ns"@ + "="@ + text::decimal(p.artifact_insert_stats_ns as nat) + t22;
    the_field_is_told(line, s21, "artifact_insert_stats_ns"@, text::decimal(p.artifact_insert_stats_ns as nat), t22);
    let t20 = " "@ + "persist_enqueue_ns"@ + "="@ + text::decimal(p.persist_enqueue_ns as nat) + t21;
    the_field_is_told(line, s20, "persist_enqueue_ns"@, text::decimal(p.persist_enqueue_ns as nat), t21);
    let t19 = " "@ + "artifact_build_ns"@ + "="@ + text::decimal(p.artifact_build_ns as nat) + t20;
    the_field_is_told(line, s19, "artifact_build_ns"@, text::decimal(p.artifact_build_ns as nat), t20);
    let t18 = " "@ + "depgraph_update_ns"@ + "="@ + text::decimal(p.depgraph_update_ns as nat) + t19;
    the_field_is_told(line, s18, "depgraph_update_ns"@, text::decimal(p.depgraph_update_ns as nat), t19);
    let t17 = " "@ + "artifact_store_ns"@ + "="@ + text::decimal(p.artifact_store_ns as nat) + t18;
    the_field_is_told(line, s17, "artifact_store_ns"@, text::decimal(p.artifact_store_ns as nat), t18);
    let t16 = " "@ + "hash_all_ns"@ + "="@ + text::decimal(p.hash_all_ns as nat) + t17;
    the_field_is_told(line, s16, "hash_all_ns"@, text::decimal(p.hash_all_ns as nat), t17);
    let t15 = " "@ + "dep_dirs_ns"@ + "="@ + text::decimal(p.dep_dirs_ns as nat) + t16;
    the_field_is_told(line, s15, "dep_dirs_ns"@, text::decimal(p.dep_dirs_ns as nat), t16);
    let t14 = " "@ + "register_tracked_ns"@ + "="@ + text::decimal(p.register_tracked_ns as nat) + t15;
    the_field_is_told(line, s14, "register_tracked_ns"@, text::decimal(p.register_tracked_ns as nat), t15);
    let t13 = " "@ + "include_scan_ns"@ + "="@ + text::decimal(p.include_scan_ns as nat) + t14;
    the_field_is_told(line, s13, "include_scan_ns"@, text::decimal(p.include_scan_ns as nat), t14);
    let t12 = " "@ + "post_exec_ns"@ + "="@ + text::decimal(p.post_exec_ns as nat) + t13;
    the_field_is_told(line, s12, "post_exec_ns"@, text::decimal(p.post_exec_ns as nat), t13);
    let t11 = " "@ + "compiler_process_ns"@ + "="@ + text::decimal(p.compiler_process_ns as nat) + t12;
    the_field_is_told(line, s11, "compiler_process_ns"@, text::decimal(p.compiler_process_ns as nat), t12);
    let t10 = " "@ + "break_outputs_ns"@ + "="@ + text::decimal(p.break_outputs_ns as nat) + t11;
    the_field_is_told(line, s10, "break_outputs_ns"@, text::decimal(p.break_outputs_ns as nat), t11);
    let t9 = " "@ + "pre_exec_other_ns"@ + "="@ + text::decimal(cc_pre_exec_other_ns(p) as nat) + t10;
    the_field_is_told(line, s9, "pre_exec_other_ns"@, text::decimal(cc_pre_exec_other_ns(p) as nat), t10);
    let t8 = " "@ + "build_context_ns"@ + "="@ + text::decimal(p.build_context_ns as nat) + t9;
    the_field_is_told(line, s8, "build_context_ns"@, text::decimal(p.build_context_ns as nat), t9);
    let t7 = " "@ + "parse_args_ns"@ + "="@ + text::decimal(p.parse_args_ns as nat) + t8;
    the_field_is_told(line, s7, "parse_args_ns"@, text::decimal(p.parse_args_ns as nat), t8);
    let t6 = " "@ + "system_watch_ns"@ + "="@ + text::decimal(p.system_watch_ns as nat) + t7;
    the_field_is_told(line, s6, "system_watch_ns"@, text::decimal(p.system_watch_ns as nat), t7);
    let t5 = " "@ + "system_includes_ns"@ + "="@ + text::decimal(p.system_includes_ns as nat) + t6;
    the_field_is_told(line, s5, "system_includes_ns"@, text::decimal(p.system_includes_ns as nat), t6);
    let t4 = " "@ + "pre_exec_ns"@ + "="@ + text::decimal(p.pre_exec_ns as nat) + t5;
    the_field_is_told(line, s4, "pre_exec_ns"@, text::decimal(p.pre_exec_ns as nat), t5);
    let t3 = " "@ + "total_ns"@ + "="@ + text::decimal(p.total_ns as nat) + t4;
    the_field_is_told(line, s3, "total_ns"@, text::decimal(p.total_ns as nat), t4);
    let t2 = " "@ + "compiler_effective_priority"@ + "="@ + priority::priority_name(p.compiler_priority_decision.effective) + t3;
    the_field_is_told(line, s2, "compiler_effective_priority"@, priority::priority_name(p.compiler_priority_decision.effective), t3);
    let t1 = " "@ + "compiler_priority"@ + "="@ + priority::priority_name(p.compiler_priority_decision.requested) + t2;
    the_field_is_told(line, s1, "compiler_priority"@, priority::priority_name(p.compiler_priority_decision.requested), t2);
    let t0 = " "@ + "family"@ + "="@ + p.family@ + t1;
    the_field_is_told(line, s0, "family"@, p.family@, t1);
}

/// The line of a link tells each of its numbers under its own name.
pub proof fn link_lines_tell_every_part(p: LinkMissProfile)
    ensures
        tells(link_line(p), "family"@, p.family@),
        tells(link_line(p), "input_count"@, text::decimal(p.input_count as nat)),
        tells(link_line(p), "total_ns"@, text::decimal(p.total_ns as nat)),
        tells(link_line(p), "parse_args_ns"@, text::decimal(p.parse_args_ns as nat)),
        tells(link_line(p), "tool_hash_ns"@, text::decimal(p.tool_hash_ns as nat)),
        tells(link_line(p), "input_hash_ns"@, text::decimal(p.input_hash_ns as nat)),
        tells(link_line(p), "cache_lookup_ns"@, text::decimal(p.cache_lookup_ns as nat)),
        tells(link_line(p), "compiler_process_ns"@, text::decimal(p.compiler_process_ns as nat)),
        tells(link_line(p), "output_read_ns"@, text::decimal(p.output_read_ns as nat)),
        tells(link_line(p), "artifact_store_ns"@, text::decimal(p.artifact_store_ns as nat)),
        tells(link_line(p), "unaccounted_ns"@, text::decimal(link_unaccounted_ns(p) as nat)),
{
    let s0 = "zccache_link_miss_profile"@;
    let s1 = field(s0, "family"@, p.family@);
    let s2 = field(s1, "input_count"@, text::decimal(p.input_count as nat));
    let s3 = field(s2, "total_ns"@, text::decimal(p.total_ns as nat));
    let s4 = field(s3, "parse_args_ns"@, text::decimal(p.parse_args_ns as nat));
    let s5 = field(s4, "tool_hash_ns"@, text::decimal(p.tool_hash_ns as nat));
    let s6 = field(s5, "input_hash_ns"@, text::decimal(p.input_hash_ns as nat));
    let s7 = field(s6, "cache_lookup_ns"@, text::decimal(p.cache_lookup_ns as nat));
    let s8 = field(s7, "compiler_process_ns"@, text::decimal(p.compiler_process_ns as nat));
    let s9 = field(s8, "output_read_ns"@, text::decimal(p.output_read_ns as nat));
    let s10 = field(s9, "artifact_store_ns"@, text::decimal(p.artifact_store_ns as nat));
    let s11 = field(s10, "unaccounted_ns"@, text::decimal(link_unaccounted_ns(p) as nat));
    let line = s11;
    let t11 = Seq::<char>::empty();
    assert(line =~= s11 + t11);
    let t10 = " "@ + "unaccounted_ns"@ + "="@ + text::decimal(link_unaccounted_ns(p) as nat) + t11;
    the_field_is_told(line, s10, "unaccounted_ns"@, text::decimal(link_unaccounted_ns(p) as nat), t11);
    let t9 = " "@ + "artifact_store_ns"@ + "="@ + text::decimal(p.artifact_store_ns as nat) + t10;
    the_field_is_told(line, s9, "artifact_store_ns"@, text::decimal(p.artifact_store_ns as nat), t10);
    let t8 = " "@ + "output_read_ns"@ + "="@ + text::decimal(p.output_read_ns as nat) + t9;
    the_field_is_told(line, s8, "output_read_ns"@, text::decimal(p.output_read_ns as nat), t9);
    let t7 = " "@ + "compiler_process_ns"@ + "="@ + text::decimal(p.compiler_process_ns as nat) + t8;
    the_field_is_told(line, s7, "compiler_process_ns"@, text::decimal(p.compiler_process_ns as nat), t8);
    let t6 = " "@ + "cache_lookup_ns"@ + "="@ + text::decimal(p.cache_lookup_ns as nat) + t7;
    the_field_is_told(line, s6, "cache_lookup_ns"@, text::decimal(p.cache_lookup_ns as nat), t7);
    let t5 = " "@ + "input_hash_ns"@ + "="@ + text::decimal(p.input_hash_ns as nat) + t6;
    the_field_is_told(line, s5, "input_hash_ns"@, text::decimal(p.input_hash_ns as nat), t6);
    let t4 = " "@ + "tool_hash_ns"@ + "="@ + text::decimal(p.tool_hash_ns as nat) + t5;
    the_field_is_told(line, s4, "tool_hash_ns"@, text::decimal(p.tool_hash_ns as nat), t5);
    let t3 = " "@ + "parse_args_ns"@ + "="@ + text::decimal(p.parse_args_ns as nat) + t4;
    the_field_is_told(line, s3, "parse_args_ns"@, text::decimal(p.parse_args_ns as nat), t4);
    let t2 = " "@ + "total_ns"@ + "="@ + text::decimal(p.total_ns as nat) + t3;
    the_field_is_told(line, s2, "total_ns"@, text::decimal(p.total_ns as nat), t3);
    let t1 = " "@ + "input_count"@ + "="@ + text::decimal(p.input_count as nat) + t2;
    the_field_is_told(line, s1, "input_count"@, text::decimal(p.input_count as nat), t2);
    let t0 = " "@ + "family"@ + "="@ + p.family@ + t1;
    the_field_is_told(line, s0, "family"@, p.family@, t1);
}

/// A share of the processor is shown in tenths of a percent, rounded to the
/// nearest one, and to the even one where it lies between two.
pub proof fn shares_are_rounded_to_the_nearest(m: u32)
    ensures
        100 * tenths(m) <= m + 50,
        m <= 100 * tenths(m) + 50,
        m % 100 == 50 ==> tenths(m) % 2 == 0,
        m % 100 == 0 ==> 100 * tenths(m) == m,
{
}

} // verus!
