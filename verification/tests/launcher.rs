//! Behaviour of the raising protocol and the terminal launch step.

use ambient::Capability;
use ambient::RunError;
use ambient::protocol::effective_line;
use ambient::protocol::exec_failure_line;
use ambient::protocol::failure_line;
use ambient::protocol::launch;
use ambient::protocol::raise_all;
use ambient::protocol::raise_capability;
use ambient::protocol::remediation_hint;
use ambient::protocol::report_effective;
use ambient::protocol::status_line;
use ambient::protocol::usage_line;
use ambient::run;

#[test]
fn status_line_names_input_and_identifier() {
    let line = status_line("net_bind_service", &Capability::NetBindService);
    assert_eq!(
        line,
        "Raised in inheritable and ambient capsets: net_bind_service (CAP_NET_BIND_SERVICE)"
    );
}

#[test]
fn failure_line_names_input_and_os_error() {
    let line = failure_line("sys_admin", "caps error: PR_CAP_AMBIENT_RAISE failure");
    assert_eq!(
        line,
        "Error raising cap \"sys_admin\": caps error: PR_CAP_AMBIENT_RAISE failure"
    );
}

#[test]
fn remediation_hint_holds_exe_path_and_lowercase_name() {
    let hint = remediation_hint("/usr/local/bin/ambient", &Capability::SysAdmin);
    assert_eq!(
        hint,
        "  try running: sudo setcap sys_admin=eip \"/usr/local/bin/ambient\""
    );
    assert!(hint.contains("sys_admin=eip"));
    assert!(hint.contains("/usr/local/bin/ambient"));
}

#[test]
fn report_lines_are_exact() {
    assert_eq!(effective_line("{CAP_CHOWN}"), "Current effective caps: {CAP_CHOWN}.");
    assert_eq!(usage_line(), "Usage: ambient [-c caps] prog [args]");
    assert_eq!(exec_failure_line("no such file"), "error execvp: no such file");
}

#[test]
fn run_error_messages_are_exact() {
    let e = RunError::UnknownCapability { input: String::from("bogus") };
    assert_eq!(e.message(), "unrecognised capability: bogus");
    let e = RunError::EffectiveReadFailed { error: String::from("boom") };
    assert_eq!(e.message(), "Error reading effective caps: boom");
    assert_eq!(RunError::MissingProgram.message(), "Usage: ambient [-c caps] prog [args]");
    let e = RunError::ExecFailed { error: String::from("no such file") };
    assert_eq!(e.message(), "error execvp: no such file");
}

#[test]
fn raise_capability_returns_an_outcome_without_panicking() {
    match raise_capability(&Capability::Chown) {
        Ok(()) => {},
        Err(error) => assert!(!error.is_empty()),
    }
}

#[test]
fn every_request_is_processed_in_order_and_independently() {
    let names = vec![
        String::from("chown"),
        String::from("net_raw"),
        String::from("kill"),
    ];
    let out = raise_all(&names, true, "/tmp/ambient-under-test").unwrap();
    assert_eq!(out.len(), 3);
    assert_eq!(out[0].name, "chown");
    assert_eq!(out[0].cap, Capability::Chown);
    assert_eq!(out[1].name, "net_raw");
    assert_eq!(out[1].cap, Capability::NetRaw);
    assert_eq!(out[2].name, "kill");
    assert_eq!(out[2].cap, Capability::Kill);
}

#[test]
fn an_unresolvable_request_aborts_the_raising_stage() {
    let names = vec![String::from("chown"), String::from("bogus")];
    match raise_all(&names, true, "/tmp/ambient-under-test") {
        Ok(_) => panic!("an unknown name must not be accepted"),
        Err(RunError::UnknownCapability { input }) => assert_eq!(input, "bogus"),
        Err(_) => panic!("the failure must name the unknown capability"),
    }
}

#[test]
fn the_effective_report_succeeds_on_a_live_process() {
    assert!(report_effective(true).is_ok());
}

#[test]
fn no_program_means_a_usage_error_and_no_exec() {
    let args: Vec<String> = vec![];
    assert!(matches!(launch(&args), RunError::MissingProgram));
}

#[test]
fn a_failed_exec_is_the_last_thing_reported() {
    let args = vec![String::from("/nonexistent/ambient-test-program")];
    match launch(&args) {
        RunError::ExecFailed { error } => assert!(!error.is_empty()),
        _ => panic!("a present program must reach the replacement step"),
    }
}

#[test]
fn a_whole_run_without_a_program_ends_in_the_usage_error() {
    let names = vec![String::from("net_raw")];
    let args: Vec<String> = vec![];
    let r = run(&names, true, "/tmp/ambient-under-test", &args);
    assert!(matches!(r, RunError::MissingProgram));
}

#[test]
fn a_whole_run_reaches_exec_past_raises_and_report() {
    let names = vec![String::from("chown"), String::from("sys_admin")];
    let args = vec![String::from("/nonexistent/ambient-test-program")];
    match run(&names, true, "/tmp/ambient-under-test", &args) {
        RunError::ExecFailed { error } => assert!(!error.is_empty()),
        _ => panic!("with a program given, only the replacement step may fail"),
    }
}

#[test]
fn a_whole_run_aborts_on_an_unknown_name() {
    let names = vec![String::from("bogus")];
    let args = vec![String::from("/nonexistent/ambient-test-program")];
    match run(&names, true, "/tmp/ambient-under-test", &args) {
        RunError::UnknownCapability { input } => assert_eq!(input, "bogus"),
        _ => panic!("an unknown name must abort the run"),
    }
}
