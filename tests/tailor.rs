use tailor::access::{first_action, step, CheckAction, Observation, Verdict};
use tailor::error::TailorError;
use tailor::plan::{announcement, join_words, plan_invocation, Invocation};
use tailor::runner::{exit_code, failure_message, finish_command, Stop};
use tailor::text::append_decimal;

/// Runs the check on a path whose stages would observe the given facts.
fn check(
    present: bool,
    metadata: Result<bool, String>,
    open: Result<(), String>,
) -> Verdict {
    let mut metadata = Some(metadata);
    let mut open = Some(open);
    let mut action = first_action();
    loop {
        let obs = match action {
            CheckAction::ProbePresence => Observation::Presence(present),
            CheckAction::ReadMetadata => Observation::Metadata(metadata.take().unwrap()),
            CheckAction::OpenForRead => Observation::Open(open.take().unwrap()),
            CheckAction::Done(verdict) => return verdict,
        };
        action = step(obs);
    }
}

fn strings(words: &[&str]) -> Vec<String> {
    words.iter().map(|w| w.to_string()).collect()
}

fn words(inv: &Invocation) -> Vec<&str> {
    inv.args.iter().map(|a| a.as_str()).collect()
}

#[test]
fn test_can_tail_file_with_existing_file() {
    let verdict = check(true, Ok(false), Ok(()));
    assert!(verdict.warning("/tmp/existing").is_none());
    let result = verdict.answer("/tmp/existing".to_string()).unwrap();
    assert!(result, "Should be able to tail an existing readable file");
}

#[test]
fn test_can_tail_file_with_nonexistent_file() {
    let verdict = check(false, Ok(false), Ok(()));
    assert!(matches!(verdict, Verdict::Missing));
    assert!(verdict.warning("/tmp/nonexistent_file_12345").is_none());
    let result = verdict.answer("/tmp/nonexistent_file_12345".to_string()).unwrap();
    assert!(!result, "Should not be able to tail a nonexistent file");
}

#[test]
fn test_can_tail_file_with_directory() {
    let verdict = check(true, Ok(true), Ok(()));
    assert!(matches!(verdict, Verdict::Directory));
    assert_eq!(verdict.warning("/tmp/dir").unwrap(), "/tmp/dir is a directory");
    let result = verdict.answer("/tmp/dir".to_string()).unwrap();
    assert!(!result, "Should not be able to tail a directory");
}

#[test]
fn test_can_tail_file_with_unreadable_file() {
    let cause = "Permission denied (os error 13)".to_string();
    let verdict = check(true, Ok(false), Err(cause));
    let warning = verdict.warning("/tmp/locked").unwrap();
    assert_eq!(warning, "cannot read file /tmp/locked: Permission denied (os error 13)");
    assert!(warning.contains("Permission denied"));
    let result = verdict.answer("/tmp/locked".to_string()).unwrap();
    assert!(!result, "Should not be able to tail an unreadable file");
}

#[test]
fn metadata_failure_is_fatal() {
    let verdict = check(true, Err("Permission denied".to_string()), Ok(()));
    assert!(verdict.warning("/srv/x").is_none());
    match verdict.answer("/srv/x".to_string()) {
        Err(e) => {
            assert!(matches!(e, TailorError::Metadata { .. }));
            assert_eq!(e.message(), "failed to read metadata for /srv/x: Permission denied");
        }
        Ok(_) => panic!("metadata failure must be an error"),
    }
}

#[test]
fn missing_path_never_reads_metadata() {
    assert!(matches!(first_action(), CheckAction::ProbePresence));
    assert!(matches!(step(Observation::Presence(false)), CheckAction::Done(Verdict::Missing)));
    assert!(matches!(step(Observation::Presence(true)), CheckAction::ReadMetadata));
    assert!(matches!(step(Observation::Metadata(Ok(true))), CheckAction::Done(Verdict::Directory)));
    assert!(matches!(step(Observation::Metadata(Ok(false))), CheckAction::OpenForRead));
}

#[test]
fn empty_file_is_tailable() {
    let verdict = check(true, Ok(false), Ok(()));
    assert!(verdict.is_tailable());
    assert!(!check(false, Ok(false), Ok(())).is_tailable());
    assert!(!check(true, Ok(true), Ok(())).is_tailable());
    assert!(!check(true, Ok(false), Err("x".to_string())).is_tailable());
}

#[test]
fn test_run_command_success() {
    let result = finish_command("true", Ok(Some(0)));
    assert!(result.is_ok(), "Command 'true' should succeed");
    assert_eq!(exit_code(&result), 0);
}

#[test]
fn test_run_command_with_args() {
    let inv = plan_invocation("/tmp/target", &strings(&["touch"]), false).unwrap();
    assert_eq!(inv.program, "touch");
    assert_eq!(words(&inv), vec!["/tmp/target"]);
    let result = finish_command(&inv.program, Ok(Some(0)));
    assert!(result.is_ok(), "Touch command should succeed");
    assert_eq!(exit_code(&result), 0);
}

#[test]
fn test_run_command_calling_tailor_again() {
    let file1 = "/tmp/t/file1.txt";
    let file2 = "/tmp/t/file2.txt";
    let file3 = "/tmp/t/file3.txt";
    let outer = plan_invocation(file1, &strings(&["tailor", file2, "touch", file3]), false).unwrap();
    assert_eq!(outer.program, "tailor");
    assert_eq!(words(&outer), vec![file2, "touch", file3, file1]);
    let inner = plan_invocation(&outer.args[0], &outer.args[1..].to_vec(), false).unwrap();
    assert_eq!(inner.program, "touch");
    assert_eq!(words(&inner), vec![file3, file1, file2]);
    let result = finish_command(&inner.program, Ok(Some(0)));
    assert_eq!(exit_code(&result), 0);
}

#[test]
fn test_run_command_nonexistent_command() {
    let result = finish_command(
        "nonexistent_command_12345",
        Err("No such file or directory (os error 2)".to_string()),
    );
    assert!(result.is_err(), "Nonexistent command should return error");
    match result {
        Err(Stop::Fatal(e)) => {
            assert!(matches!(e, TailorError::Spawn { .. }));
            assert_eq!(
                e.message(),
                "failed to execute command 'nonexistent_command_12345': No such file or directory (os error 2)"
            );
        }
        _ => panic!("a spawn failure is fatal"),
    }
}

#[test]
fn test_main_fails_without_fallback_command() {
    match plan_invocation("/tmp/nonexistent_file_12345", &Vec::new(), false) {
        Err(e) => {
            assert!(e.message().contains("no fallback command"));
            assert_eq!(
                e.message(),
                "File '/tmp/nonexistent_file_12345' is not readable and no fallback command specified."
            );
            assert_ne!(exit_code(&Err(Stop::Fatal(e))), 0);
        }
        Ok(_) => panic!("no fallback must be an error"),
    }
}

#[test]
fn accessible_file_runs_tail_with_one_argument() {
    let inv = plan_invocation("/var/log/app.log", &strings(&["touch"]), true).unwrap();
    assert_eq!(inv.program, "tail");
    assert_eq!(words(&inv), vec!["/var/log/app.log"]);
}

#[test]
fn fallback_arguments_keep_their_order() {
    let inv = plan_invocation("config.json", &strings(&["cp", "config.template.json"]), false).unwrap();
    assert_eq!(inv.program, "cp");
    assert_eq!(words(&inv), vec!["config.template.json", "config.json"]);
    assert_eq!(
        announcement("config.json", &inv),
        "file config.json cannot be tailed, executing: cp config.template.json config.json"
    );
}

#[test]
fn failing_command_code_is_propagated() {
    let result = finish_command("false", Ok(Some(3)));
    assert!(matches!(result, Err(Stop::ExitWith(3))));
    assert_eq!(exit_code(&result), 3);
    assert_eq!(failure_message("false", 3), "command 'false' failed with exit code: 3");
}

#[test]
fn signal_ending_propagates_minus_one() {
    let result = finish_command("sleep", Ok(None));
    assert!(matches!(result, Err(Stop::ExitWith(-1))));
    assert_eq!(exit_code(&result), -1);
}

#[test]
fn spawn_failure_is_not_a_passthrough_code() {
    let result = finish_command("nope", Err("not found".to_string()));
    assert!(matches!(result, Err(Stop::Fatal(_))));
    assert_eq!(exit_code(&result), 1);
}

#[test]
fn decimal_rendering() {
    let mut s = String::from("code ");
    append_decimal(&mut s, 0);
    assert_eq!(s, "code 0");
    let mut s = String::new();
    append_decimal(&mut s, 127);
    assert_eq!(s, "127");
    let mut s = String::new();
    append_decimal(&mut s, -42);
    assert_eq!(s, "-42");
    let mut s = String::new();
    append_decimal(&mut s, i32::MIN);
    assert_eq!(s, "-2147483648");
    let mut s = String::new();
    append_decimal(&mut s, i32::MAX);
    assert_eq!(s, "2147483647");
}

#[test]
fn join_words_spacing() {
    assert_eq!(join_words(&Vec::new()), "");
    assert_eq!(join_words(&strings(&["a"])), "a");
    assert_eq!(join_words(&strings(&["a", "b c", "d"])), "a b c d");
}
