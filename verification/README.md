# zccache

The core of a compiler-cache daemon, written in Verus. The daemon serves
compilations, links and tool runs from a content-addressed cache and carries
them out where the cache does not hold them.

`src/` is the library: the state of the daemon, what becomes of each request,
how keys are made, what is stored and served, and in which order things happen.
Every function states in its contract what it returns and changes. Work that
waits for files, processes or clients is written as steps: a function takes what
came of a step and says what comes next.

- Keys: `hash`, `exec_key`, `exec_filter`, `exec_probe`, `order`, `bytes`
- Tables and records: `table`, `records`, `cache_trim`, `pending_writes`, `pack`
- Compilations: `compile_job`, `compile_flow`, `compile_hit`, `hit_branches`, `cached_hit`,
  `miss_store`, `compile_multi`, `unit_lookup`, `system_includes`, `rsp_cache`,
  `compiler_hash`, `graph`
- Tool runs: `exec_job`, `exec_run`, `exec_files`
- The daemon: `state`, `lifecycle`, `run`, `connection`, `conversation`,
  `dispatch`, `sessions`, `private_daemon`, `embedded`, `stats`, `protocol`
- Processes and files: `priority`, `compile_concurrency`, `inflight`,
  `jobserver`, `child_watchdog`, `client_env`, `persist`, `materialize`,
  `paths`, `text`, `crash`
- Journals and profiles: `journal`, `journal_writer`, `outcome`, `miss_reason`,
  `miss_profile`

`app/` holds what touches files, processes and sockets. `tests/` runs the
library on concrete values.
