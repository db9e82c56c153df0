//! One shell command and the life of the process that runs it.
//!
//! A job is `Idle` until it has been started, `Running` while its child
//! lives, and then `Exited` with a code or `Killed`. Spawning, signalling and
//! reading are done by the caller; the functions here decide what is to be
//! done and record what came of it.

use crate::command::{
    command_of, is_blank, parse_command, shellish_words, texts, unclosed_quote, Command,
    CommandView,
};
use crate::error::{
    classify_spawn_error, spawn_failure, JobStartError, JobStartErrorView, ParseErrorView,
};
use crate::geometry::Size;
use vstd::prelude::*;
use vstd::slice::slice_subrange;
use vstd::string::*;

verus! {

/// Size of a pseudo-terminal: cells, and pixels where they are known.
#[derive(Clone, Copy, Debug, PartialEq, Eq, Structural)]
pub struct PtySize {
    pub rows: u16,
    pub cols: u16,
    pub pixel_width: u16,
    pub pixel_height: u16,
}

/// The terminal size that goes with an area on screen: one row per cell of
/// height, one column per cell of width, no pixel size.
pub open spec fn pty_size_of(size: Size) -> PtySize {
    PtySize { rows: size.height, cols: size.width, pixel_width: 0, pixel_height: 0 }
}

/// At least one.
pub open spec fn at_least_one(n: u16) -> u16 {
    if n == 0 {
        1
    } else {
        n
    }
}

impl PtySize {
    /// Rows and columns for the emulator's grid, which has at least one
    /// cell: a size of zero counts as one.
    pub fn grid(self) -> (out: (u16, u16))
        ensures
            out == (at_least_one(self.rows), at_least_one(self.cols)),
    {
        (
            if self.rows == 0 {
                1
            } else {
                self.rows
            },
            if self.cols == 0 {
                1
            } else {
                self.cols
            },
        )
    }

    /// See [`pty_size_of`].
    pub fn of(size: Size) -> (out: PtySize)
        ensures
            out == pty_size_of(size),
    {
        PtySize { rows: size.height, cols: size.width, pixel_width: 0, pixel_height: 0 }
    }
}

/// Lines of scrollback that a job's terminal emulator keeps.
pub const SCROLLBACK: usize = 0;

/// Everything needed to spawn a job's process.
#[derive(Debug)]
pub struct Launch {
    /// The executable, looked up through the search path by the spawner.
    pub program: String,
    /// Its arguments.
    pub args: Vec<String>,
    /// Size of the pseudo-terminal and of the emulator behind it.
    pub size: PtySize,
}

/// [`Launch`] with its words as sequences of characters.
pub struct LaunchView {
    pub program: Seq<char>,
    pub args: Seq<Seq<char>>,
    pub size: PtySize,
}

impl View for Launch {
    type V = LaunchView;

    open spec fn view(&self) -> LaunchView {
        LaunchView { program: self.program@, args: texts(self.args@), size: self.size }
    }
}

impl Launch {
    /// The launch of `command` in a terminal that fills `size`.
    pub fn plan(command: Command, size: Size) -> (out: Launch)
        ensures
            out@ == (LaunchView {
                program: command@.program,
                args: command@.args,
                size: pty_size_of(size),
            }),
    {
        Launch { program: command.program, args: command.args, size: PtySize::of(size) }
    }
}

/// What came of an attempt to spawn.
#[derive(Debug)]
pub enum Spawned {
    /// The child runs under this process id.
    Child { pid: u32 },
    /// The spawn failed with this text.
    Failed { message: String },
}

/// The live-process part of a job.
#[derive(Clone, Copy, Debug, PartialEq, Eq, Structural)]
pub struct JobRunning {
    /// Process id, the target of termination signals.
    pub pid: u32,
    /// Exit code, once the child has been seen to exit; written once.
    pub status: Option<u32>,
    /// Whether a termination signal was accepted for this process.
    pub killed: bool,
}

/// Where a job stands in its life.
#[derive(Clone, Copy, Debug, PartialEq, Eq, Structural)]
pub enum JobState {
    /// Never started, or torn down for a restart that failed.
    Idle,
    /// The child lives, as far as is known.
    Running,
    /// The child ended on its own with this code.
    Exited(u32),
    /// The child was terminated by `kill`.
    Killed,
}

/// A shell command with a title, and its process if it has one.
#[derive(Debug)]
pub struct Job {
    /// Display title; starts out as the command line.
    pub title: String,
    /// The command line used to spawn and respawn the job.
    pub cmd: String,
    /// The process, present from a successful start on.
    pub running: Option<JobRunning>,
    /// The area that the job's terminal fills on screen.
    pub size: Size,
}

/// [`Job`] with its texts as sequences of characters.
pub struct JobView {
    pub title: Seq<char>,
    pub cmd: Seq<char>,
    pub running: Option<JobRunning>,
    pub size: Size,
}

impl View for Job {
    type V = JobView;

    open spec fn view(&self) -> JobView {
        JobView { title: self.title@, cmd: self.cmd@, running: self.running, size: self.size }
    }
}

impl JobView {
    /// The exit code, if the job has a process that was seen to exit.
    pub open spec fn status(self) -> Option<u32> {
        match self.running {
            Some(running) => running.status,
            None => None,
        }
    }

    /// The state of the job. A process that was killed counts as `Killed`
    /// whatever code is recorded for it afterwards.
    pub open spec fn state(self) -> JobState {
        match self.running {
            None => JobState::Idle,
            Some(running) => if running.killed {
                JobState::Killed
            } else {
                match running.status {
                    Some(code) => JobState::Exited(code),
                    None => JobState::Running,
                }
            },
        }
    }

    /// The job after a termination signal was accepted for its process, if
    /// it has one.
    pub open spec fn marked_killed(self) -> JobView {
        match self.running {
            Some(running) => JobView {
                running: Some(JobRunning { killed: true, ..running }),
                ..self
            },
            None => self,
        }
    }

    /// The job after its process was seen to exit with `code`: the first
    /// code recorded stays.
    pub open spec fn with_exit(self, code: u32) -> JobView {
        match self.running {
            Some(running) => if running.status is None {
                JobView { running: Some(JobRunning { status: Some(code), ..running }), ..self }
            } else {
                self
            },
            None => self,
        }
    }

    /// What is to be spawned for this job, or why nothing can be.
    pub open spec fn launch(self) -> Result<LaunchView, JobStartErrorView> {
        launch_of(command_of(shellish_words(self.cmd)), self.size)
    }
}

/// The launch that goes with a split command line.
pub open spec fn launch_of(command: Result<CommandView, JobStartErrorView>, size: Size) -> Result<
    LaunchView,
    JobStartErrorView,
> {
    match command {
        Ok(c) => Ok(LaunchView { program: c.program, args: c.args, size: pty_size_of(size) }),
        Err(e) => Err(e),
    }
}

/// The outcome of a launch that was refused for `reason`.
pub open spec fn refused(reason: JobStartErrorView) -> Result<LaunchView, JobStartErrorView> {
    Err(reason)
}

/// A launch outcome with its texts as sequences of characters.
pub open spec fn launch_view(out: Result<Launch, JobStartError>) -> Result<
    LaunchView,
    JobStartErrorView,
> {
    match out {
        Ok(launch) => Ok(launch@),
        Err(e) => Err(e@),
    }
}

/// What a restart asks of the caller.
#[derive(Debug)]
pub struct Restart {
    /// The process to terminate first, if the job had one.
    pub kill: Option<u32>,
    /// What to spawn afterwards, or why nothing can be.
    pub launch: Result<Launch, JobStartError>,
}

impl Job {
    /// A job for `cmd`, titled after it, idle, in an 80 by 24 terminal.
    pub fn new(cmd: &str) -> (out: Job)
        ensures
            out@ == (JobView {
                title: cmd@,
                cmd: cmd@,
                running: None,
                size: Size { width: 80, height: 24 },
            }),
    {
        Job {
            title: cmd.to_owned(),
            cmd: cmd.to_owned(),
            running: None,
            size: Size::new(80, 24),
        }
    }

    /// The exit code of the job's process: `None` while it runs and when
    /// there is no process.
    pub fn status(&self) -> (out: Option<u32>)
        ensures
            out == self@.status(),
    {
        match &self.running {
            Some(running) => running.status,
            None => None,
        }
    }

    /// Where the job stands in its life.
    pub fn state(&self) -> (out: JobState)
        ensures
            out == self@.state(),
    {
        match &self.running {
            None => JobState::Idle,
            Some(running) => {
                if running.killed {
                    JobState::Killed
                } else {
                    match running.status {
                        Some(code) => JobState::Exited(code),
                        None => JobState::Running,
                    }
                }
            },
        }
    }

    /// Replaces the command line; it takes effect at the next start.
    pub fn with_cmd(&mut self, cmd: String)
        ensures
            final(self)@ == (JobView { cmd: cmd@, ..old(self)@ }),
    {
        self.cmd = cmd;
    }

    /// First half of a start: what to spawn. A command line that does not
    /// parse, or that holds no word, is refused here, before anything is
    /// spawned.
    pub fn launch(&self) -> (out: Result<Launch, JobStartError>)
        ensures
            launch_view(out) == self@.launch(),
            is_blank(self@.cmd) ==> launch_view(out) == refused(JobStartErrorView::NoCommand),
            forall|quote: char|
                unclosed_quote(self@.cmd, quote) ==> launch_view(out) == refused(
                    JobStartErrorView::Parse(ParseErrorView::DanglingString),
                ),
    {
        match parse_command(self.cmd.as_str()) {
            Ok(command) => Ok(Launch::plan(command, self.size)),
            Err(e) => Err(e),
        }
    }

    /// Second half of a start: records what came of the spawn. A child makes
    /// the job `Running` with a fresh process record; a failure is classified
    /// and leaves the job as it was.
    pub fn start(&mut self, spawned: Spawned) -> (out: Result<(), JobStartError>)
        ensures
            match spawned {
                Spawned::Child { pid } => {
                    &&& out is Ok
                    &&& final(self)@ == (JobView {
                        running: Some(JobRunning { pid, status: None, killed: false }),
                        ..old(self)@
                    })
                },
                Spawned::Failed { message } => {
                    &&& out matches Err(e) && e@ == spawn_failure(message@)
                    &&& final(self)@ == old(self)@
                },
            },
    {
        match spawned {
            Spawned::Child { pid } => {
                self.running = Some(JobRunning { pid, status: None, killed: false });
                Ok(())
            },
            Spawned::Failed { message } => Err(classify_spawn_error(message.as_str())),
        }
    }

    /// The process that `kill` is to signal: the job's own, if it has one.
    pub fn kill_target(&self) -> (out: Option<u32>)
        ensures
            out == match self@.running {
                Some(running) => Some(running.pid),
                None => None,
            },
    {
        match &self.running {
            Some(running) => Some(running.pid),
            None => None,
        }
    }

    /// Records a forceful termination. `accepted` says whether the system
    /// took the signal for [`Job::kill_target`]. Returns whether the job was
    /// killed: never for a job without a process, which is left untouched.
    pub fn kill(&mut self, accepted: bool) -> (out: bool)
        ensures
            out == (accepted && old(self)@.running is Some),
            final(self)@ == (if accepted {
                old(self)@.marked_killed()
            } else {
                old(self)@
            }),
            out ==> final(self)@.state() == JobState::Killed,
    {
        if !accepted {
            return false;
        }
        match self.running {
            Some(running) => {
                self.running = Some(
                    JobRunning { pid: running.pid, status: running.status, killed: true },
                );
                true
            },
            None => false,
        }
    }

    /// Tears the job down for a restart: the process record is dropped at
    /// once, so that a start that fails afterwards leaves the job `Idle`.
    /// The caller terminates `kill`, spawns `launch` and calls [`Job::start`].
    pub fn restart(&mut self) -> (out: Restart)
        ensures
            final(self)@ == (JobView { running: None, ..old(self)@ }),
            final(self)@.state() == JobState::Idle,
            out.kill == match old(self)@.running {
                Some(running) => Some(running.pid),
                None => None,
            },
            launch_view(out.launch) == old(self)@.launch(),
            is_blank(old(self)@.cmd) ==> launch_view(out.launch) == refused(
                JobStartErrorView::NoCommand,
            ),
            forall|quote: char|
                unclosed_quote(old(self)@.cmd, quote) ==> launch_view(out.launch) == refused(
                    JobStartErrorView::Parse(ParseErrorView::DanglingString),
                ),
    {
        let kill = self.kill_target();
        self.running = None;
        Restart { kill, launch: self.launch() }
    }

    /// Records that the child was seen to exit with `code`. The status is
    /// written once: a job without a process, or with a code already, keeps
    /// what it has.
    pub fn record_exit(&mut self, code: u32)
        ensures
            final(self)@ == old(self)@.with_exit(code),
            old(self)@.state() == JobState::Killed ==> final(self)@.state() == JobState::Killed,
    {
        match self.running {
            Some(running) => {
                if running.status.is_none() {
                    self.running = Some(
                        JobRunning { pid: running.pid, status: Some(code), killed: running.killed },
                    );
                }
            },
            None => {},
        }
    }

    /// Tells the job the area it has on screen. Returns the size to which a
    /// live terminal and its emulator are to be set before the screen is
    /// read, `None` when there is no process.
    pub fn resize(&mut self, size: Size) -> (out: Option<PtySize>)
        ensures
            final(self)@ == (JobView { size, ..old(self)@ }),
            out == (if old(self)@.running is Some {
                Some(pty_size_of(size))
            } else {
                None
            }),
    {
        self.size = size;
        if self.running.is_some() {
            Some(PtySize::of(size))
        } else {
            None
        }
    }
}

/// The life of a job, transition by transition. An exit code turns
/// `Running` into `Exited` and changes no other state: the first code stays
/// and a killed job stays killed. An accepted signal turns every job that has
/// a process into `Killed`. A job without a process is moved by neither.
pub proof fn lemma_job_lifecycle(job: JobView, code: u32)
    ensures
        job.state() == JobState::Idle ==> job.with_exit(code).state() == JobState::Idle
            && job.marked_killed().state() == JobState::Idle,
        job.state() == JobState::Running ==> job.with_exit(code).state() == JobState::Exited(code)
            && job.marked_killed().state() == JobState::Killed,
        job.state() is Exited ==> job.with_exit(code).state() == job.state()
            && job.marked_killed().state() == JobState::Killed,
        job.state() == JobState::Killed ==> job.with_exit(code).state() == JobState::Killed
            && job.marked_killed().state() == JobState::Killed,
        job.state() != JobState::Idle <==> job.running is Some,
{
}

/// Milliseconds between two polls of a child's status.
pub const POLL_INTERVAL_MS: u64 = 50;

/// What one poll of the child told.
#[derive(Clone, Copy, Debug, PartialEq, Eq, Structural)]
pub enum Polled {
    /// The child has not ended.
    StillRunning,
    /// The child ended with this code.
    Exited(u32),
    /// The status could not be read.
    Failed,
}

/// What the exit watcher does next.
#[derive(Clone, Copy, Debug, PartialEq, Eq, Structural)]
pub enum WatcherStep {
    /// Sleep this long, then poll again.
    Sleep { millis: u64 },
    /// Write the code to the status cell, release the terminal's slave side, stop.
    Record { code: u32 },
    /// Stop without writing.
    Stop,
}

/// The task that waits for a child to end. It writes the exit code at most
/// once and is finished from then on.
#[derive(Clone, Copy, Debug, PartialEq, Eq, Structural)]
pub struct ExitWatcher {
    pub finished: bool,
}

impl ExitWatcher {
    pub fn new() -> (out: ExitWatcher)
        ensures
            !out.finished,
    {
        ExitWatcher { finished: false }
    }

    /// The step that a poll result leads to, from a watcher in this state.
    pub open spec fn next(self, polled: Polled) -> (ExitWatcher, WatcherStep) {
        if self.finished {
            (self, WatcherStep::Stop)
        } else {
            match polled {
                Polled::StillRunning => (self, WatcherStep::Sleep { millis: POLL_INTERVAL_MS }),
                Polled::Exited(code) => (
                    ExitWatcher { finished: true },
                    WatcherStep::Record { code },
                ),
                Polled::Failed => (ExitWatcher { finished: true }, WatcherStep::Stop),
            }
        }
    }

    /// Takes one poll result and says what to do next.
    pub fn step(&mut self, polled: Polled) -> (out: WatcherStep)
        ensures
            (*final(self), out) == old(self).next(polled),
    {
        if self.finished {
            return WatcherStep::Stop;
        }
        match polled {
            Polled::StillRunning => WatcherStep::Sleep { millis: POLL_INTERVAL_MS },
            Polled::Exited(code) => {
                self.finished = true;
                WatcherStep::Record { code }
            },
            Polled::Failed => {
                self.finished = true;
                WatcherStep::Stop
            },
        }
    }
}

/// The watcher after a whole run of polls.
pub open spec fn watcher_after(start: ExitWatcher, polls: Seq<Polled>) -> ExitWatcher
    decreases polls.len(),
{
    if polls.len() == 0 {
        start
    } else {
        watcher_after(start, polls.drop_last()).next(polls.last()).0
    }
}

/// How many times a run of polls makes the watcher write an exit code.
pub open spec fn records_in(start: ExitWatcher, polls: Seq<Polled>) -> nat
    decreases polls.len(),
{
    if polls.len() == 0 {
        0
    } else {
        let before = watcher_after(start, polls.drop_last());
        let wrote: nat = if before.next(polls.last()).1 is Record {
            1
        } else {
            0
        };
        records_in(start, polls.drop_last()) + wrote
    }
}

/// Whatever the polls report and however long they go on, the watcher writes
/// the exit code at most once, and having written it is finished.
pub proof fn lemma_exit_is_recorded_once(start: ExitWatcher, polls: Seq<Polled>)
    ensures
        records_in(start, polls) <= 1,
        records_in(start, polls) == 1 ==> watcher_after(start, polls).finished,
        start.finished ==> records_in(start, polls) == 0 && watcher_after(start, polls).finished,
    decreases polls.len(),
{
    if polls.len() > 0 {
        lemma_exit_is_recorded_once(start, polls.drop_last());
    }
}

/// Bytes asked of the terminal in one read.
pub const READ_CHUNK: usize = 1024;

/// The part of the read buffer that goes to the terminal emulator after a
/// read that reported `read` bytes, or `None` when the reader is to stop: on
/// a failed read and on a read of nothing, both of which mean that the
/// terminal is closed. After feeding, the reader signals the job's notifier.
pub fn reader_step<'a>(buf: &'a [u8], read: Option<usize>) -> (out: Option<&'a [u8]>)
    requires
        read matches Some(n) ==> n <= buf@.len(),
    ensures
        match read {
            Some(n) if n > 0 => out matches Some(fed) && fed@ == buf@.subrange(0, n as int),
            _ => out is None,
        },
{
    match read {
        Some(n) if n > 0 => Some(slice_subrange(buf, 0, n)),
        _ => None,
    }
}

} // verus!
