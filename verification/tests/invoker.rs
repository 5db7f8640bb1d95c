use usage_monitor::error::{ErrorKind, ScraperError};
use usage_monitor::invoker::{
    plan_invocation, CommandPlan, Invocation, Stream, Target, EXIT_GRACE_SECS,
};

fn strings(v: &[&str]) -> Vec<String> {
    v.iter().map(|s| s.to_string()).collect()
}

fn program(path: &str, extension: Option<&str>, directory: Option<&str>) -> Target {
    Target::Program {
        path: Some(path.to_string()),
        extension: extension.map(|s| s.to_string()),
        directory: directory.map(|s| s.to_string()),
    }
}

fn plan() -> CommandPlan {
    plan_invocation(program("/opt/scraper/run", None, Some("/opt/scraper")), strings(&["--poll_once"]))
        .unwrap()
}

#[test]
fn override_runs_the_interpreter_with_the_code() {
    let p = plan_invocation(
        Target::Override { command: "python -c print('{\"status\":\"ok\"}')".to_string() },
        strings(&["--poll_once"]),
    )
    .unwrap();
    assert_eq!(p.program, "python");
    assert_eq!(p.args, strings(&["-c", "print('{\"status\":\"ok\"}')"]));
    assert_eq!(p.working_dir, None);
    assert!(!p.reads_stderr);
    assert!(p.overridden);
}

#[test]
fn override_with_empty_code() {
    let p = plan_invocation(Target::Override { command: "python -c ".to_string() }, vec![]).unwrap();
    assert_eq!(p.args, strings(&["-c", ""]));
}

#[test]
fn override_of_another_shape_is_refused() {
    for command in ["", "python", "python -c", "python3 -c x", " python -c x", "sh -c true"] {
        match plan_invocation(Target::Override { command: command.to_string() }, vec![]) {
            Err(e) => {
                assert_eq!(e.kind(), ErrorKind::ExecutionFailure);
                assert_eq!(e.to_string(), "Execution: unsupported CLAUDE_SCRAPER_CMD format");
            }
            other => panic!("unexpected plan for {:?}: {:?}", command, other),
        }
    }
}

#[test]
fn missing_program_is_an_execution_failure() {
    match plan_invocation(Target::Missing { reason: "nothing found".to_string() }, strings(&["--login"])) {
        Err(ScraperError::Execution(m)) => {
            assert_eq!(m, "resource resolution failed: nothing found")
        }
        other => panic!("unexpected plan: {:?}", other),
    }
}

#[test]
fn path_that_is_no_text_is_refused() {
    let target = Target::Program {
        path: None,
        extension: Some("py".to_string()),
        directory: Some("/x".to_string()),
    };
    match plan_invocation(target, vec![]) {
        Err(ScraperError::Execution(m)) => assert_eq!(m, "scraper path contains invalid UTF-8"),
        other => panic!("unexpected plan: {:?}", other),
    }
}

#[test]
fn script_goes_through_the_interpreter() {
    for extension in ["py", "PY", "Py", "pY"] {
        let p = plan_invocation(
            program("../scraper/claude_scraper.py", Some(extension), Some("../scraper")),
            strings(&["--check-session", "-v"]),
        )
        .unwrap();
        assert_eq!(p.program, "python");
        assert_eq!(p.args, strings(&["../scraper/claude_scraper.py", "--check-session", "-v"]));
        assert_eq!(p.working_dir.as_deref(), Some("../scraper"));
        assert!(p.reads_stderr);
        assert!(!p.overridden);
    }
}

#[test]
fn program_is_run_itself() {
    for extension in [None, Some("exe"), Some("pyc"), Some("p"), Some(""), Some("python")] {
        let p = plan_invocation(
            program("/res/scraper/claude_scraper", extension, None),
            strings(&["--poll_once"]),
        )
        .unwrap();
        assert_eq!(p.program, "/res/scraper/claude_scraper");
        assert_eq!(p.args, strings(&["--poll_once"]));
        assert_eq!(p.working_dir, None);
        assert!(p.reads_stderr);
        assert!(!p.overridden);
    }
}

#[test]
fn run_that_ends_well() {
    let run = Invocation::new(plan(), 30);
    assert_eq!(run.plan().program, "/opt/scraper/run");
    assert_eq!(run.timeout_secs(), 30);
    let reading = run.spawned();
    assert_eq!(reading.timeout_secs(), 30);
    assert!(reading.reads_stderr());
    let waiting = reading.completed("out".to_string(), "err".to_string());
    assert_eq!(waiting.grace_secs(), 5);
    assert_eq!(EXIT_GRACE_SECS, 5);
    let end = waiting.exited();
    assert!(!end.kill);
    let output = end.result.unwrap();
    assert_eq!(output.stdout, "out");
    assert_eq!(output.stderr, "err");
}

#[test]
fn output_survives_a_process_that_stays() {
    let end = Invocation::new(plan(), 30)
        .spawned()
        .completed("{\"status\":\"ok\",\"components\":[]}".to_string(), String::new())
        .still_running();
    assert!(end.kill);
    let output = end.result.unwrap();
    assert_eq!(output.stdout, "{\"status\":\"ok\",\"components\":[]}");
    assert_eq!(output.stderr, "");
}

#[test]
fn timeout_kills_and_ends_at_once() {
    let end = Invocation::new(plan(), 1).spawned().timed_out();
    assert!(end.kill);
    match end.result {
        Err(e) => {
            assert_eq!(e.kind(), ErrorKind::Timeout);
            assert!(matches!(e, ScraperError::Timeout(_)));
            assert_eq!(e.message(), "scraper did not produce output in 1s");
        }
        other => panic!("unexpected result: {:?}", other),
    }
    let end = Invocation::new(plan(), 30).spawned().timed_out();
    assert_eq!(end.result.unwrap_err().to_string(), "Timeout: scraper did not produce output in 30s");
    let end = Invocation::new(plan(), u64::MAX).spawned().timed_out();
    assert_eq!(
        end.result.unwrap_err().message(),
        "scraper did not produce output in 18446744073709551615s"
    );
}

#[test]
fn read_failure_is_an_io_failure() {
    let end = Invocation::new(plan(), 30).spawned().failed("stream did not contain valid UTF-8");
    assert!(!end.kill);
    match end.result {
        Err(ScraperError::Io(m)) => assert_eq!(m, "stream did not contain valid UTF-8"),
        other => panic!("unexpected result: {:?}", other),
    }
}

#[test]
fn spawn_failure_names_the_step() {
    let end = Invocation::new(plan(), 30).spawn_failed("No such file or directory (os error 2)");
    assert!(!end.kill);
    match end.result {
        Err(ScraperError::Execution(m)) => assert_eq!(
            m,
            "failed to spawn scraper process: No such file or directory (os error 2)"
        ),
        other => panic!("unexpected result: {:?}", other),
    }
    let overridden =
        plan_invocation(Target::Override { command: "python -c pass".to_string() }, vec![]).unwrap();
    let end = Invocation::new(overridden, 30).spawn_failed("not found");
    match end.result {
        Err(ScraperError::Execution(m)) => assert_eq!(m, "not found"),
        other => panic!("unexpected result: {:?}", other),
    }
}

#[test]
fn missing_pipes() {
    let end = Invocation::new(plan(), 30).pipe_missing(Stream::Stdout);
    assert!(!end.kill);
    match end.result {
        Err(ScraperError::Io(m)) => assert_eq!(m, "failed to capture stdout"),
        other => panic!("unexpected result: {:?}", other),
    }
    let end = Invocation::new(plan(), 30).pipe_missing(Stream::Stderr);
    match end.result {
        Err(e) => {
            assert_eq!(e.kind(), ErrorKind::IoFailure);
            assert_eq!(e.message(), "failed to capture stderr");
        }
        other => panic!("unexpected result: {:?}", other),
    }
}

#[test]
fn override_run_does_not_read_the_error_stream() {
    let overridden =
        plan_invocation(Target::Override { command: "python -c pass".to_string() }, vec![]).unwrap();
    let reading = Invocation::new(overridden, 5).spawned();
    assert!(!reading.reads_stderr());
    assert_eq!(reading.timeout_secs(), 5);
}
