//! Child processes: pipes, tokens, environment, crash reports and paths.

use zccache::child_watchdog::{
    post_exit_grace, watchdog_enabled, Drain, DrainStep, DEFAULT_POST_EXIT_GRACE_MS,
};
use zccache::client_env::{client_env_var_is_safe_to_replay, replayed_env};
use zccache::crash::{
    crash_file_name, crash_report, install_minidump_handler, install_panic_hook, CrashHandlers,
    CrashedProcess,
};
use zccache::jobserver::{token_bytes, JobserverError, JobserverPool};
use zccache::paths::{
    absolutize, extension_of, file_name_of, join, parent_of, path_is_under, stem_of,
    with_extension, with_file_name,
};
use zccache::text::{
    parse_unsigned, push_padded_hex, render_decimal, render_signed, to_hex, to_lower, trim,
};

#[test]
fn well_behaved_child_returns_full_output() {
    let mut drain = Drain::new(true, true);
    drain.on_stdout(Some(b"hel"));
    assert_eq!(drain.step(2_000, 0), DrainStep::WaitForExit);
    drain.on_exit(Some(0), 10);
    drain.on_stdout(Some(b"lo"));
    drain.on_stdout(None);
    assert_eq!(
        drain.step(2_000, 10),
        DrainStep::WaitForPipes {
            remaining_ms: 2_000
        }
    );
    drain.on_stderr(None);
    assert_eq!(drain.step(2_000, 11), DrainStep::Complete { code: Some(0) });
    assert_eq!(drain.into_output(), (b"hello".to_vec(), Vec::new()));
}

#[test]
fn nonzero_exit_is_reported() {
    let mut drain = Drain::new(false, false);
    drain.on_exit(Some(7), 0);
    assert_eq!(drain.step(2_000, 0), DrainStep::Complete { code: Some(7) });
}

#[test]
fn orphan_holding_pipe_does_not_wedge() {
    let mut drain = Drain::new(true, false);
    drain.on_stdout(Some(b"early"));
    drain.on_exit(Some(0), 100);
    assert_eq!(
        drain.step(2_000, 2_099),
        DrainStep::WaitForPipes { remaining_ms: 1 }
    );
    assert_eq!(
        drain.step(2_000, 2_100),
        DrainStep::Abandon { code: Some(0) }
    );
    assert_eq!(drain.into_output().0, b"early".to_vec());
}

#[test]
fn zero_grace_disables_watchdog() {
    assert!(!watchdog_enabled(post_exit_grace(&Some("0".to_string()))));
    assert!(watchdog_enabled(post_exit_grace(&None)));
    let mut open = Drain::new(true, false);
    open.on_exit(Some(0), 10);
    assert_eq!(
        open.step(0, u64::MAX),
        DrainStep::WaitForPipes {
            remaining_ms: u64::MAX
        }
    );
    open.on_stdout(None);
    assert_eq!(open.step(0, 11), DrainStep::Complete { code: Some(0) });
    assert_eq!(post_exit_grace(&None), DEFAULT_POST_EXIT_GRACE_MS);
    assert_eq!(post_exit_grace(&Some(" 35 ".to_string())), 35);
    assert_eq!(post_exit_grace(&Some("-1".to_string())), 2_000);
}

#[test]
fn create_with_capacity_succeeds() {
    let pool = JobserverPool::create(8, 3, 4, 8).unwrap();
    assert_eq!(pool.capacity(), 8);
    let auth = pool.auth_string();
    let parts: Vec<&str> = auth.split(',').collect();
    assert_eq!(parts.len(), 2, "auth string should be R,W: got {auth:?}");
    let _r: i32 = parts[0].parse().expect("read fd parseable");
    let _w: i32 = parts[1].parse().expect("write fd parseable");
    assert_eq!(auth, "3,4");
}

#[test]
fn create_with_zero_capacity_is_invalid() {
    let err = JobserverPool::create(0, 3, 4, 0).err().unwrap();
    assert!(matches!(err, JobserverError::ZeroCapacity));
    assert!(token_bytes(0).is_err());
}

#[test]
fn pipe_contains_capacity_tokens_after_create() {
    let tokens = token_bytes(3).unwrap();
    assert_eq!(tokens.len(), 3, "pipe should hold exactly 3 tokens");
    for b in tokens {
        assert_eq!(b, b'+', "token byte should be '+': got {b:?}");
    }
}

#[test]
fn a_pipe_that_took_too_little_is_refused() {
    match JobserverPool::create(8, 3, 4, 5).err().unwrap() {
        JobserverError::ShortPriming { message } => {
            assert_eq!(message, "jobserver pipe priming wrote 5 of 8 bytes")
        }
        _ => panic!("unexpected error"),
    }
}

#[test]
fn descriptors_of_a_client_are_not_replayed() {
    assert!(!client_env_var_is_safe_to_replay("MAKEFLAGS"));
    assert!(!client_env_var_is_safe_to_replay("CARGO_MAKEFLAGS"));
    assert!(client_env_var_is_safe_to_replay("PATH"));
    let env = vec![
        ("PATH".to_string(), "/bin".to_string()),
        ("MAKEFLAGS".to_string(), "-j".to_string()),
    ];
    assert_eq!(
        replayed_env(&Some(env)),
        Some(vec![("PATH".to_string(), "/bin".to_string())])
    );
    assert_eq!(replayed_env(&None), None);
}

#[test]
fn crash_handlers_are_installed_once() {
    let mut handlers = CrashHandlers::new();
    install_panic_hook(&mut handlers);
    assert!(install_minidump_handler(&mut handlers).is_some());
    assert_eq!(crash_file_name(17), "crash-17-zccache-daemon-panic.txt");
    let process = CrashedProcess {
        version: "1.2.3".to_string(),
        os: "linux".to_string(),
        arch: "x86_64".to_string(),
        pid: 5,
        timestamp: 17,
    };
    let report = crash_report(&process, "boom", "frames");
    assert!(report.starts_with("zccache zccache-daemon crash report (panic)\n"));
    assert!(report.contains("\nPID:     5\nTime:    17\n\nPanic:\nboom\n\nBacktrace:\nframes\n"));
}

#[test]
fn paths_are_taken_apart_and_joined() {
    assert_eq!(join("/a", "b"), "/a/b");
    assert_eq!(join("/a/", "b"), "/a/b");
    assert_eq!(join("/a", "/b"), "/b");
    assert_eq!(absolutize("x.c", "/w"), "/w/x.c");
    assert_eq!(file_name_of("/a/b.rs").as_deref(), Some("b.rs"));
    assert_eq!(file_name_of("/").as_deref(), None);
    assert_eq!(parent_of("/a/b.rs").as_deref(), Some("/a"));
    assert_eq!(extension_of("/a/b.tar.gz").as_deref(), Some("gz"));
    assert_eq!(extension_of("/a/.hidden").as_deref(), None);
    assert_eq!(stem_of("/a/b.tar.gz").as_deref(), Some("b.tar"));
    assert_eq!(with_extension("/a/b.c", "d"), "/a/b.d");
    assert_eq!(with_file_name("/a/b.c", "x"), "/a/x");
    assert!(path_is_under("/a/b/c", "/a/b"));
    assert!(path_is_under("/a/b", "/a/b"));
    assert!(!path_is_under("/a/bc", "/a/b"));
}

#[test]
fn paths_are_taken_apart_as_std_does() {
    let mut all = vec![String::new()];
    let mut last = all.clone();
    for _ in 0..7 {
        last = last
            .iter()
            .flat_map(|p| ["/", ".", "a"].map(|c| format!("{p}{c}")))
            .collect();
        all.extend(last.iter().cloned());
    }
    for p in &all {
        let path = std::path::Path::new(p);
        let name = path.file_name().map(|n| n.to_str().unwrap());
        assert_eq!(file_name_of(p).as_deref(), name, "name of {p:?}");
        let dir = path.parent().map(|d| d.to_str().unwrap());
        assert_eq!(parent_of(p).as_deref(), dir, "parent of {p:?}");
        let ext = path.extension().map(|e| e.to_str().unwrap());
        assert_eq!(extension_of(p).as_deref(), ext, "extension of {p:?}");
        let stem = path.file_stem().map(|s| s.to_str().unwrap());
        assert_eq!(stem_of(p).as_deref(), stem, "stem of {p:?}");
        let mut changed = path.to_path_buf();
        changed.set_extension("d");
        assert_eq!(with_extension(p, "d"), changed.to_str().unwrap(), "extension of {p:?}");
        let renamed = path.with_file_name("n");
        assert_eq!(with_file_name(p, "n"), renamed.to_str().unwrap(), "name of {p:?}");
        for dir in ["", "/", ".", "a", "/a", "./a", "a/a", "..", "/a/./", "a//a"] {
            assert_eq!(path_is_under(p, dir), path.starts_with(dir), "{p:?} below {dir:?}");
            assert_eq!(join(dir, p), std::path::Path::new(dir).join(p).to_str().unwrap());
        }
    }
}

#[test]
fn numbers_and_texts() {
    assert_eq!(render_decimal(0), "0");
    assert_eq!(render_decimal(u128::MAX), u128::MAX.to_string());
    assert_eq!(render_signed(-17), "-17");
    assert_eq!(render_signed(i64::MIN), i64::MIN.to_string());
    let mut s = String::from("z");
    push_padded_hex(&mut s, 0x1f, 8);
    assert_eq!(s, "z0000001f");
    assert_eq!(to_hex(&[0, 255, 16]), "00ff10");
    assert_eq!(parse_unsigned("42"), Some(42));
    assert_eq!(parse_unsigned(""), None);
    assert_eq!(parse_unsigned("99999999999999999999999"), None);
    assert_eq!(trim(" \t x y\n"), "x y");
    assert_eq!(to_lower("AbC"), "abc");
}
