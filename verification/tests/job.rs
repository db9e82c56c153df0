use buj::error::JobStartError;
use buj::geometry::Size;
use buj::job::{
    reader_step, ExitWatcher, Job, JobRunning, JobState, Launch, Polled, PtySize, Spawned,
    WatcherStep, POLL_INTERVAL_MS, READ_CHUNK,
};

fn child(pid: u32) -> Spawned {
    Spawned::Child { pid }
}

#[test]
fn new_job_is_idle_and_titled_after_its_command() {
    let job = Job::new("sleep 10");
    assert_eq!(job.title, "sleep 10");
    assert_eq!(job.cmd, "sleep 10");
    assert_eq!(job.running, None);
    assert_eq!(job.size, Size { width: 80, height: 24 });
    assert_eq!(job.state(), JobState::Idle);
    assert_eq!(job.status(), None);
    assert_eq!(job.kill_target(), None);
}

#[test]
fn launch_carries_words_and_terminal_size() {
    let mut job = Job::new("echo \"a b\" c");
    job.size = Size { width: 100, height: 30 };
    let launch: Launch = job.launch().unwrap();
    assert_eq!(launch.program, "echo");
    assert_eq!(launch.args, vec!["a b", "c"]);
    assert_eq!(launch.size, PtySize { rows: 30, cols: 100, pixel_width: 0, pixel_height: 0 });
}

#[test]
fn launch_refuses_blank_and_malformed_lines() {
    assert!(matches!(Job::new("  ").launch(), Err(JobStartError::NoCommand)));
    assert!(matches!(Job::new("echo 'x").launch(), Err(JobStartError::Parse(_))));
}

#[test]
fn start_with_nonexistent_executable_is_not_found_and_stays_idle() {
    let mut job = Job::new("definitely-not-a-program");
    let failed = Spawned::Failed {
        message:
            "Unable to spawn definitely-not-a-program because:\nNo viable candidates found in PATH \"/bin\""
                .to_string(),
    };
    assert!(matches!(job.start(failed), Err(JobStartError::NotFound)));
    assert_eq!(job.running, None);
    assert_eq!(job.state(), JobState::Idle);
    assert_eq!(job.status(), None);
}

#[test]
fn each_spawn_failure_reaches_the_caller() {
    let mut job = Job::new("x");
    let fail = |m: &str| Spawned::Failed { message: m.to_string() };
    assert!(matches!(
        job.start(fail("Unable to spawn x because it is not executable")),
        Err(JobStartError::NotExecutable)
    ));
    assert!(matches!(
        job.start(fail("Unable to spawn x because it is a directory")),
        Err(JobStartError::IsDir)
    ));
    assert!(matches!(job.start(fail("openpty failed")), Err(JobStartError::Io(_))));
    assert_eq!(job.state(), JobState::Idle);
}

#[test]
fn short_lived_command_ends_with_status_zero() {
    let mut job = Job::new("true");
    assert!(job.start(child(41)).is_ok());
    assert_eq!(job.state(), JobState::Running);
    assert_eq!(job.status(), None);

    let mut watcher = ExitWatcher::new();
    assert_eq!(
        watcher.step(Polled::StillRunning),
        WatcherStep::Sleep { millis: POLL_INTERVAL_MS }
    );
    let step = watcher.step(Polled::Exited(0));
    assert_eq!(step, WatcherStep::Record { code: 0 });
    if let WatcherStep::Record { code } = step {
        job.record_exit(code);
    }
    assert_eq!(job.status(), Some(0));
    assert_eq!(job.state(), JobState::Exited(0));
}

#[test]
fn watcher_writes_once_and_stops() {
    let mut watcher = ExitWatcher::new();
    assert_eq!(watcher.step(Polled::Exited(3)), WatcherStep::Record { code: 3 });
    assert!(watcher.finished);
    assert_eq!(watcher.step(Polled::Exited(4)), WatcherStep::Stop);
    assert_eq!(watcher.step(Polled::StillRunning), WatcherStep::Stop);

    let mut failing = ExitWatcher::new();
    assert_eq!(failing.step(Polled::Failed), WatcherStep::Stop);
    assert!(failing.finished);
    assert_eq!(failing.step(Polled::Exited(0)), WatcherStep::Stop);
}

#[test]
fn status_is_written_once() {
    let mut job = Job::new("x");
    job.record_exit(9);
    assert_eq!(job.status(), None);
    job.start(child(5)).unwrap();
    job.record_exit(1);
    job.record_exit(2);
    assert_eq!(job.status(), Some(1));
}

#[test]
fn kill_on_running_job_returns_true_and_job_stays_killed() {
    let mut job = Job::new("sleep 1000");
    job.start(child(77)).unwrap();
    assert_eq!(job.kill_target(), Some(77));
    assert!(job.kill(true));
    assert_eq!(job.state(), JobState::Killed);
    job.record_exit(137);
    assert_eq!(job.state(), JobState::Killed);
    assert_eq!(job.running, Some(JobRunning { pid: 77, status: Some(137), killed: true }));
}

#[test]
fn kill_on_idle_job_is_a_no_op_returning_false() {
    let mut job = Job::new("x");
    assert!(!job.kill(true));
    assert!(!job.kill(false));
    assert_eq!(job.state(), JobState::Idle);
}

#[test]
fn refused_signal_leaves_the_job_running() {
    let mut job = Job::new("x");
    job.start(child(8)).unwrap();
    assert!(!job.kill(false));
    assert_eq!(job.state(), JobState::Running);
}

#[test]
fn restart_after_kill_gives_a_fresh_process_record() {
    let mut job = Job::new("sleep 1000");
    job.start(child(100)).unwrap();
    assert!(job.kill(true));
    let restart = job.restart();
    assert_eq!(restart.kill, Some(100));
    assert_eq!(job.state(), JobState::Idle);
    let launch = restart.launch.unwrap();
    assert_eq!(launch.program, "sleep");
    job.start(child(101)).unwrap();
    assert_eq!(job.running, Some(JobRunning { pid: 101, status: None, killed: false }));
    assert_eq!(job.state(), JobState::Running);
}

#[test]
fn failed_restart_leaves_the_job_idle() {
    let mut job = Job::new("ok");
    job.start(child(1)).unwrap();
    job.with_cmd("bad 'quote".to_string());
    let restart = job.restart();
    assert_eq!(restart.kill, Some(1));
    assert!(matches!(restart.launch, Err(JobStartError::Parse(_))));
    assert_eq!(job.state(), JobState::Idle);

    let mut other = Job::new("gone");
    other.start(child(2)).unwrap();
    let restart = other.restart();
    assert!(restart.launch.is_ok());
    let failed = Spawned::Failed { message: "Unable to spawn gone because it does not exist".into() };
    assert!(matches!(other.start(failed), Err(JobStartError::NotFound)));
    assert_eq!(other.state(), JobState::Idle);
}

#[test]
fn resize_reports_the_terminal_size_of_a_live_job_only() {
    let mut job = Job::new("x");
    assert_eq!(job.resize(Size { width: 10, height: 4 }), None);
    assert_eq!(job.size, Size { width: 10, height: 4 });
    job.start(child(3)).unwrap();
    assert_eq!(
        job.resize(Size { width: 132, height: 43 }),
        Some(PtySize { rows: 43, cols: 132, pixel_width: 0, pixel_height: 0 })
    );
}

#[test]
fn reader_feeds_exactly_what_was_read() {
    let mut buf = [0u8; READ_CHUNK];
    buf[..5].copy_from_slice(b"hello");
    assert_eq!(reader_step(&buf, Some(5)), Some(&b"hello"[..]));
    assert_eq!(reader_step(&buf, Some(READ_CHUNK)).map(|s| s.len()), Some(READ_CHUNK));
    assert_eq!(reader_step(&buf, Some(0)), None);
    assert_eq!(reader_step(&buf, None), None);
}

#[test]
fn bursts_lose_no_byte() {
    let chunks: [&[u8]; 4] = [b"ab", b"", b"cde", b"f"];
    let mut fed = Vec::new();
    for chunk in chunks.iter().filter(|c| !c.is_empty()) {
        let mut buf = [0u8; READ_CHUNK];
        buf[..chunk.len()].copy_from_slice(chunk);
        fed.extend_from_slice(reader_step(&buf, Some(chunk.len())).unwrap());
    }
    assert_eq!(fed, b"abcdef");
}
