//! Capability plans carried out for real: spawned subprocesses driven by
//! plans the library issued.

use std::time::Duration;

use wasmforge::capability::{
    default_allowed_commands, gate_shell_exec, shell_outcome_reply, ShellOutcome,
};
use wasmforge::guest::prepare_shell_exec;

fn contains(hay: &[u8], needle: &[u8]) -> bool {
    hay.windows(needle.len().max(1)).any(|w| w == needle)
}

fn runtime() -> tokio::runtime::Runtime {
    tokio::runtime::Builder::new_current_thread().enable_all().build().unwrap()
}

#[test]
fn shell_plan_for_echo_runs_to_completion() {
    let allowed = default_allowed_commands();
    let verdict = prepare_shell_exec(b"echo hello");
    let plan = gate_shell_exec(verdict, b"echo hello", &allowed).unwrap();

    let rt = runtime();
    let outcome = rt.block_on(async {
        let program = String::from_utf8(plan.program.clone()).unwrap();
        let args: Vec<String> =
            plan.args.iter().map(|a| String::from_utf8(a.clone()).unwrap()).collect();
        let out = tokio::process::Command::new(&program).args(&args).output().await.unwrap();
        ShellOutcome::Completed {
            exit_code: out.status.code().unwrap_or(-1),
            stdout: out.stdout,
            stderr: out.stderr,
        }
    });
    let reply = shell_outcome_reply(&outcome).unwrap();
    assert!(contains(&reply, b"Exit code: 0"));
    assert!(contains(&reply, b"hello\n"));
}

#[test]
fn overrunning_subprocess_is_reported_as_timeout() {
    // The wall-clock cut-off itself is exercised with a short limit; the
    // capability's own limit is pinned by the plan.
    let allowed = vec![b"sleep".to_vec()];
    let plan = gate_shell_exec(prepare_shell_exec(b"sleep 5"), b"sleep 5", &allowed).unwrap();
    assert_eq!(plan.timeout_secs, 10);

    let rt = runtime();
    let outcome = rt.block_on(async {
        let fut = tokio::process::Command::new("sleep").arg("5").kill_on_drop(true).output();
        match tokio::time::timeout(Duration::from_millis(200), fut).await {
            Ok(out) => {
                let out = out.unwrap();
                ShellOutcome::Completed {
                    exit_code: out.status.code().unwrap_or(-1),
                    stdout: out.stdout,
                    stderr: out.stderr,
                }
            }
            Err(_) => ShellOutcome::TimedOut,
        }
    });
    assert!(matches!(outcome, ShellOutcome::TimedOut));
    assert!(shell_outcome_reply(&outcome).is_err());
}
