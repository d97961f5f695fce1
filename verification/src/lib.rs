//! Decision logic of a compiler-cache daemon.

pub mod bytes;
pub mod cache_trim;
pub mod cached_hit;
pub mod child_watchdog;
pub mod client_env;
pub mod compile_concurrency;
pub mod compile_flow;
pub mod compile_hit;
pub mod compile_job;
pub mod compile_multi;
pub mod compiler_hash;
pub mod connection;
pub mod conversation;
pub mod crash;
pub mod dispatch;
pub mod embedded;
pub mod exec_files;
pub mod exec_filter;
pub mod exec_job;
pub mod exec_key;
pub mod exec_probe;
pub mod exec_run;
pub mod graph;
pub mod hash;
pub mod hit_branches;
pub mod inflight;
pub mod jobserver;
pub mod journal;
pub mod journal_writer;
pub mod lifecycle;
pub mod materialize;
pub mod miss_profile;
pub mod miss_reason;
pub mod miss_store;
pub mod order;
pub mod outcome;
pub mod pack;
pub mod paths;
pub mod pending_writes;
pub mod persist;
pub mod priority;
pub mod private_daemon;
pub mod protocol;
pub mod records;
pub mod rsp_cache;
pub mod run;
pub mod sessions;
pub mod state;
pub mod stats;
pub mod system_includes;
pub mod table;
pub mod text;
pub mod unit_lookup;
