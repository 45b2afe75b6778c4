use fanout::job::{build_jobs, Job};
use fanout::launcher::{clobber_gate, error_message, is_fatal, output_actions, JobError};
use fanout::queue::dispatch_jobs;

fn sample_job(clobber: bool, record_output: bool) -> Job {
    Job {
        command: "echo".to_string(),
        arguments: vec!["alpha".to_string()],
        stdout_file: "out/echo_alpha.stdout".to_string(),
        clobber,
        record_output,
    }
}

#[test]
fn one_job_per_line_including_blanks() {
    let template = vec!["echo".to_string(), "%INPUT%".to_string()];
    let lines = vec!["alpha".to_string(), "".to_string(), "beta".to_string()];
    let jobs = build_jobs(&template, &lines, &"out".to_string(), &None, false, true);
    assert_eq!(jobs.len(), lines.len());
}

#[test]
fn jobs_carry_templated_arguments_and_paths() {
    let template = vec!["echo".to_string(), "%INPUT%".to_string()];
    let lines = vec!["alpha".to_string(), "beta".to_string()];
    let jobs = build_jobs(&template, &lines, &"out".to_string(), &None, false, true);
    assert_eq!(jobs[0].command, "echo");
    assert_eq!(jobs[0].arguments, vec!["alpha".to_string()]);
    assert_eq!(jobs[0].stdout_file, "out/echo_alpha.stdout");
    assert_eq!(jobs[1].arguments, vec!["beta".to_string()]);
    assert_eq!(jobs[1].stdout_file, "out/echo_beta.stdout");
    assert!(!jobs[0].clobber);
    assert!(jobs[0].record_output);
}

#[test]
fn clobber_gate_refuses_existing_file() {
    let job = sample_job(false, true);
    assert_eq!(clobber_gate(&job, true), Err(JobError::ClobberRefused));
}

#[test]
fn clobber_gate_allows_fresh_path() {
    let job = sample_job(false, true);
    assert_eq!(clobber_gate(&job, false), Ok(()));
}

#[test]
fn clobber_flag_overrides_existing_file() {
    let job = sample_job(true, true);
    assert_eq!(clobber_gate(&job, true), Ok(()));
}

#[test]
fn no_record_ignores_existing_file() {
    let job = sample_job(false, false);
    assert_eq!(clobber_gate(&job, true), Ok(()));
}

#[test]
fn second_job_at_colliding_path_is_refused() {
    let template = vec!["echo".to_string(), "%INPUT%".to_string()];
    let lines = vec!["a b".to_string(), "a_b".to_string()];
    let jobs = build_jobs(&template, &lines, &"out".to_string(), &None, false, true);
    assert_eq!(jobs[0].stdout_file, jobs[1].stdout_file);
    // The first job finds no file; once it has written one, the second is
    // refused before its subprocess runs.
    assert_eq!(clobber_gate(&jobs[0], false), Ok(()));
    assert_eq!(clobber_gate(&jobs[1], true), Err(JobError::ClobberRefused));
}

#[test]
fn output_mirrored_and_stderr_recorded() {
    let job = sample_job(false, true);
    let actions = output_actions(&job, b"out-bytes".to_vec(), b"err-bytes".to_vec());
    assert_eq!(actions.console_stdout, b"out-bytes".to_vec());
    assert_eq!(actions.console_stderr, b"err-bytes".to_vec());
    let fw = actions.file_write.expect("recording is on");
    assert_eq!(fw.path, "out/echo_alpha.stdout");
    assert_eq!(fw.bytes, b"err-bytes".to_vec());
}

#[test]
fn no_record_means_no_file_write() {
    let job = sample_job(false, false);
    let actions = output_actions(&job, b"out".to_vec(), b"err".to_vec());
    assert!(actions.file_write.is_none());
    assert_eq!(actions.console_stdout, b"out".to_vec());
    assert_eq!(actions.console_stderr, b"err".to_vec());
}

#[test]
fn only_input_read_failure_is_fatal() {
    assert!(is_fatal(&JobError::InputReadError));
    assert!(!is_fatal(&JobError::ClobberRefused));
    assert!(!is_fatal(&JobError::SpawnFailure));
    assert!(!is_fatal(&JobError::CaptureIOError));
}

#[test]
fn error_messages() {
    assert_eq!(
        error_message(&JobError::ClobberRefused),
        "Refusing to clobber file"
    );
    assert_eq!(
        error_message(&JobError::InputReadError),
        "Failed to read input file"
    );
    assert_eq!(
        error_message(&JobError::SpawnFailure),
        "Failed to launch command"
    );
    assert_eq!(
        error_message(&JobError::CaptureIOError),
        "Failed to write captured output"
    );
}

#[test]
fn dispatch_queues_jobs_in_order() {
    let template = vec!["echo".to_string(), "%INPUT%".to_string()];
    let lines = vec!["alpha".to_string(), "beta".to_string()];
    let jobs = build_jobs(&template, &lines, &"out".to_string(), &None, false, true);
    let (mut tx, rx) = spmc::channel::<Job>();
    let sent = dispatch_jobs(&mut tx, jobs);
    assert_eq!(sent, 2);
    let first = rx.try_recv().expect("first job queued");
    assert_eq!(first.arguments, vec!["alpha".to_string()]);
    let second = rx.try_recv().expect("second job queued");
    assert_eq!(second.arguments, vec!["beta".to_string()]);
    assert!(rx.try_recv().is_err());
}

#[test]
fn execution_order_does_not_change_writes() {
    let template = vec!["echo".to_string(), "%INPUT%".to_string()];
    let lines = vec!["alpha".to_string(), "beta".to_string()];
    let jobs = build_jobs(&template, &lines, &"out".to_string(), &None, false, true);
    // Captured bytes that depend on the job alone.
    let captured = |j: &Job| j.arguments[0].clone().into_bytes();
    let mut forward = Vec::new();
    for j in jobs.iter() {
        let a = output_actions(j, Vec::new(), captured(j));
        let fw = a.file_write.expect("recording is on");
        forward.push((fw.path, fw.bytes));
    }
    let mut backward = Vec::new();
    for j in jobs.iter().rev() {
        let a = output_actions(j, Vec::new(), captured(j));
        let fw = a.file_write.expect("recording is on");
        backward.push((fw.path, fw.bytes));
    }
    forward.sort();
    backward.sort();
    assert_eq!(forward, backward);
}

#[test]
fn dispatch_without_receivers_sends_nothing() {
    let template = vec!["echo".to_string(), "%INPUT%".to_string()];
    let lines = vec!["alpha".to_string()];
    let jobs = build_jobs(&template, &lines, &"out".to_string(), &None, false, true);
    let (mut tx, rx) = spmc::channel::<Job>();
    drop(rx);
    let sent = dispatch_jobs(&mut tx, jobs);
    assert_eq!(sent, 0);
}
