//! The application's state: the registry of jobs with its selection, the
//! animations, and the popups.

use crate::action::Action;
use crate::animation::AnimationTicker;
use crate::error::{spawn_failure, JobStartErrorView};
use crate::event::{Event, KeyCode, KeyEvent};
use crate::input::{InputState, InputView};
use crate::job::{Job, JobRunning, JobView, Spawned};
use crate::popup::{
    done, EditPopup, Effect, EffectView, Handled, NewJobPopup, PopupKind, RenamePopup,
    SharedPopupState,
};
use vstd::prelude::*;

verus! {

/// The application's state.
#[derive(Debug)]
pub struct App {
    /// Index of the selected job.
    pub current_job: Option<usize>,
    /// The jobs, in the order in which they were added.
    pub jobs: Vec<Job>,
    /// The animation played at start and, reversed, at shutdown.
    pub anim: AnimationTicker,
    /// The animation that slides the sidebar in.
    pub sidebar_anim: AnimationTicker,
    pub popup: SharedPopupState,
    pub popup_edit: EditPopup,
    pub popup_new_job: NewJobPopup,
    pub popup_rename: RenamePopup,
}

/// [`App`] as plain values.
pub struct AppView {
    pub current_job: Option<usize>,
    pub jobs: Seq<JobView>,
    pub anim: AnimationTicker,
    pub sidebar_anim: AnimationTicker,
    pub popup: SharedPopupState,
    pub edit: InputView,
    pub new_job: InputView,
    pub last_err: Option<JobStartErrorView>,
    pub rename: InputView,
}

/// The views of a list of jobs.
pub open spec fn job_views(jobs: Seq<Job>) -> Seq<JobView> {
    Seq::new(jobs.len(), |i: int| jobs[i]@)
}

/// The process ids of the jobs that have a process, in the jobs' order.
pub open spec fn pids_of(jobs: Seq<JobView>) -> Seq<u32>
    decreases jobs.len(),
{
    if jobs.len() == 0 {
        Seq::empty()
    } else {
        match jobs.last().running {
            Some(running) => pids_of(jobs.drop_last()).push(running.pid),
            None => pids_of(jobs.drop_last()),
        }
    }
}

/// The jobs after the signals sent to [`pids_of`] were answered: `accepted`
/// holds one answer for each job that has a process, in the jobs' order,
/// and a job whose signal was accepted counts as killed.
pub open spec fn kills_recorded(jobs: Seq<JobView>, accepted: Seq<bool>) -> Seq<JobView>
    decreases jobs.len(),
{
    if jobs.len() == 0 {
        jobs
    } else {
        let last = jobs.last();
        if last.running is Some {
            kills_recorded(jobs.drop_last(), accepted.drop_last()).push(
                if accepted.last() {
                    last.marked_killed()
                } else {
                    last
                },
            )
        } else {
            kills_recorded(jobs.drop_last(), accepted).push(last)
        }
    }
}

/// The list of processes grows with the jobs: by one for a job that has a
/// process, not at all for one that has none.
proof fn lemma_pids_grow(jobs: Seq<JobView>, upto: int)
    requires
        0 <= upto < jobs.len(),
    ensures
        pids_of(jobs.take(upto + 1)).len() == pids_of(jobs.take(upto)).len() + (if jobs[upto].running
            is Some {
            1nat
        } else {
            0nat
        }),
        pids_of(jobs.take(upto + 1)).len() <= pids_of(jobs).len(),
    decreases jobs.len() - upto,
{
    let next = jobs.take(upto + 1);
    assert(next.drop_last() == jobs.take(upto));
    assert(next.last() == jobs[upto]);
    if upto + 1 < jobs.len() {
        lemma_pids_grow(jobs, upto + 1);
    } else {
        assert(jobs.take(upto + 1) == jobs);
    }
}

/// Ticks of the opening animation.
pub const INTRO_LEN: usize = 120;

/// Ticks of the sidebar's animation.
pub const SIDEBAR_LEN: usize = 40;

/// Milliseconds per tick of the sidebar's animation.
pub const SIDEBAR_TICK_MS: u64 = 20;

impl View for App {
    type V = AppView;

    open spec fn view(&self) -> AppView {
        AppView {
            current_job: self.current_job,
            jobs: job_views(self.jobs@),
            anim: self.anim,
            sidebar_anim: self.sidebar_anim,
            popup: self.popup,
            edit: self.popup_edit.input@,
            new_job: self.popup_new_job.input@,
            last_err: match self.popup_new_job.last_err {
                Some(e) => Some(e@),
                None => None,
            },
            rename: self.popup_rename.input@,
        }
    }
}

impl AppView {
    /// The selection points at a job, and the popups' text fields are
    /// well-formed.
    pub open spec fn wf(self) -> bool {
        &&& self.current_job matches Some(i) ==> i < self.jobs.len()
        &&& self.edit.wf()
        &&& self.new_job.wf()
        &&& self.rename.wf()
    }

    /// The selected job.
    pub open spec fn current(self) -> Option<JobView> {
        match self.current_job {
            Some(i) => if i < self.jobs.len() {
                Some(self.jobs[i as int])
            } else {
                None
            },
            None => None,
        }
    }

    /// The sidebar slides in when it is at rest while the opening animation
    /// stands at tick 60 or 100 and there is a job to show.
    pub open spec fn sidebar_due(self) -> bool {
        &&& self.sidebar_anim.state is Stop
        &&& self.anim.tick == 60 || self.anim.tick == 100
        &&& self.jobs.len() > 0
    }

    /// The state after [`App::update_sidebar`] at `now`.
    pub open spec fn sidebar_updated(self, now: u64) -> AppView {
        if self.sidebar_due() {
            AppView { sidebar_anim: self.sidebar_anim.started(now), ..self }
        } else {
            self
        }
    }

    /// The state after `job` was added: it is the last job and the selected
    /// one, and the first job to arrive sets the sidebar in motion.
    pub open spec fn pushed(self, job: JobView, now: u64) -> AppView {
        AppView {
            current_job: Some(self.jobs.len() as usize),
            jobs: self.jobs.push(job),
            sidebar_anim: if self.jobs.len() == 0 {
                self.sidebar_anim.started(now)
            } else {
                self.sidebar_anim
            },
            ..self
        }
    }

    /// The selection one further, wrapping to the first job after the last;
    /// with nothing selected it goes to the first job.
    pub open spec fn next_index(self) -> Option<usize> {
        if self.jobs.len() == 0 {
            None
        } else {
            match self.current_job {
                Some(i) => Some(((i + 1) % (self.jobs.len() as int)) as usize),
                None => Some(0usize),
            }
        }
    }

    /// The selection one back, wrapping to the last job before the first;
    /// with nothing selected it goes to the first job.
    pub open spec fn previous_index(self) -> Option<usize> {
        if self.jobs.len() == 0 {
            None
        } else {
            match self.current_job {
                Some(i) => if i > 0 {
                    Some((i - 1) as usize)
                } else {
                    Some((self.jobs.len() - 1) as usize)
                },
                None => Some(0usize),
            }
        }
    }

    /// The selection after the job at `index` is gone: it keeps pointing at
    /// the job it pointed at, and is dropped with that job.
    pub open spec fn index_without(self, index: usize) -> Option<usize> {
        match self.current_job {
            Some(i) => if i == index {
                None
            } else if i > index {
                Some((i - 1) as usize)
            } else {
                Some(i)
            },
            None => None,
        }
    }
}

impl App {
    /// The state at launch, at time `now`: no job, no popup, the opening
    /// animation running, the sidebar's animation prepared.
    pub fn new(now: u64) -> (out: App)
        ensures
            out@ == (AppView {
                current_job: None,
                jobs: Seq::empty(),
                anim: (AnimationTicker { len: INTRO_LEN, ..AnimationTicker::default_spec() }).started(
                    now,
                ),
                sidebar_anim: AnimationTicker {
                    len: SIDEBAR_LEN,
                    tick_duration: SIDEBAR_TICK_MS,
                    ..AnimationTicker::default_spec()
                },
                popup: SharedPopupState {
                    anim: AnimationTicker::default_spec(),
                    active_popup: None,
                    quitting: false,
                },
                edit: InputView::cleared(),
                new_job: InputView::cleared(),
                last_err: None,
                rename: InputView::cleared(),
            }),
            out@.wf(),
    {
        let mut anim = AnimationTicker::default();
        anim.len = INTRO_LEN;
        anim.start(now);

        let mut sidebar_anim = AnimationTicker::default();
        sidebar_anim.len = SIDEBAR_LEN;
        sidebar_anim.next_tick(SIDEBAR_TICK_MS);

        let out = App {
            current_job: None,
            jobs: Vec::new(),
            anim,
            sidebar_anim,
            popup: SharedPopupState::new(),
            popup_edit: EditPopup { input: InputState::new() },
            popup_new_job: NewJobPopup { input: InputState::new(), last_err: None },
            popup_rename: RenamePopup { input: InputState::new() },
        };
        assert(out@.jobs =~= Seq::empty());
        out
    }

    /// Whether the selection points at a job and the text fields are
    /// well-formed; see [`AppView::wf`].
    pub fn is_well_formed(&self) -> (out: bool)
        ensures
            out == self@.wf(),
    {
        let selection_ok = match self.current_job {
            Some(i) => i < self.jobs.len(),
            None => true,
        };
        selection_ok && self.popup_edit.input.is_well_formed()
            && self.popup_new_job.input.is_well_formed()
            && self.popup_rename.input.is_well_formed()
    }

    /// Sets the sidebar's animation off when it is due.
    pub fn update_sidebar(&mut self, now: u64)
        requires
            now + old(self).sidebar_anim.tick_duration <= u64::MAX,
        ensures
            final(self)@ == old(self)@.sidebar_updated(now),
    {
        if self.sidebar_anim.running() {
            return ;
        }
        let anim_tick = self.anim.tick;
        let is_on_bounds = anim_tick == 60 || anim_tick == 100;

        if is_on_bounds && self.jobs.len() > 0 {
            self.sidebar_anim.start(now);
        }
    }

    /// The selected job, if the selection points at one.
    pub fn current_job(&self) -> (out: Option<&Job>)
        ensures
            match out {
                Some(job) => self@.current() == Some(job@),
                None => self@.current() is None,
            },
            self@.wf() ==> (out is Some <==> self.current_job is Some),
    {
        match self.current_job {
            Some(i) => {
                if i < self.jobs.len() {
                    Some(&self.jobs[i])
                } else {
                    None
                }
            },
            None => None,
        }
    }

    /// The selected job, for changing it in place.
    pub fn current_job_mut(&mut self) -> (out: Option<&mut Job>)
        ensures
            match out {
                Some(job) => {
                    &&& old(self).current_job matches Some(i) && i < old(self).jobs@.len() && *job
                        == old(self).jobs@[i as int] && final(self).jobs@ == old(self).jobs@.update(
                        i as int,
                        *final(job),
                    )
                    &&& final(self).current_job == old(self).current_job
                    &&& final(self).anim == old(self).anim
                    &&& final(self).sidebar_anim == old(self).sidebar_anim
                    &&& final(self).popup == old(self).popup
                    &&& final(self).popup_edit == old(self).popup_edit
                    &&& final(self).popup_new_job == old(self).popup_new_job
                    &&& final(self).popup_rename == old(self).popup_rename
                },
                None => old(self)@.current() is None && *final(self) == *old(self),
            },
    {
        match self.current_job {
            Some(i) => {
                if i < self.jobs.len() {
                    Some(&mut self.jobs[i])
                } else {
                    None
                }
            },
            None => None,
        }
    }

    /// Adds a job and selects it.
    pub fn push_job(&mut self, job: Job, now: u64)
        requires
            now + old(self).sidebar_anim.tick_duration <= u64::MAX,
            old(self)@.wf(),
        ensures
            final(self)@ == old(self)@.pushed(job@, now),
            final(self)@.wf(),
    {
        if self.jobs.len() == 0 {
            self.sidebar_anim.start(now);
        }
        let idx = self.jobs.len();
        self.jobs.push(job);
        self.current_job = Some(idx);
        assert(final(self)@.jobs =~= old(self)@.jobs.push(job@));
    }

    /// Selects the job at `index`. An index that points at no job is
    /// refused: the selection stays as it is and `false` is returned.
    pub fn select(&mut self, index: usize) -> (out: bool)
        ensures
            out == (index < old(self)@.jobs.len()),
            final(self)@ == (AppView {
                current_job: if out {
                    Some(index)
                } else {
                    old(self)@.current_job
                },
                ..old(self)@
            }),
            old(self)@.wf() ==> final(self)@.wf(),
    {
        if index < self.jobs.len() {
            self.current_job = Some(index);
            true
        } else {
            false
        }
    }

    /// Moves the selection to the next job, round the end.
    pub fn select_next(&mut self)
        requires
            old(self)@.wf(),
        ensures
            final(self)@ == (AppView { current_job: old(self)@.next_index(), ..old(self)@ }),
            final(self)@.wf(),
    {
        let len = self.jobs.len();
        self.current_job = if len == 0 {
            None
        } else {
            match self.current_job {
                Some(i) => Some((i + 1) % len),
                None => Some(0),
            }
        };
    }

    /// Moves the selection to the job before, round the start.
    pub fn select_previous(&mut self)
        requires
            old(self)@.wf(),
        ensures
            final(self)@ == (AppView { current_job: old(self)@.previous_index(), ..old(self)@ }),
            final(self)@.wf(),
    {
        let len = self.jobs.len();
        self.current_job = if len == 0 {
            None
        } else {
            match self.current_job {
                Some(i) => if i > 0 {
                    Some(i - 1)
                } else {
                    Some(len - 1)
                },
                None => Some(0),
            }
        };
    }

    /// Takes the job at `index` out of the registry. The selection follows
    /// the job it pointed at and is dropped if that job is the one removed,
    /// so that it never points at another job than before.
    pub fn remove(&mut self, index: usize) -> (out: Option<Job>)
        requires
            old(self)@.wf(),
        ensures
            match out {
                Some(job) => {
                    &&& index < old(self)@.jobs.len()
                    &&& job@ == old(self)@.jobs[index as int]
                    &&& final(self)@ == (AppView {
                        jobs: old(self)@.jobs.remove(index as int),
                        current_job: old(self)@.index_without(index),
                        ..old(self)@
                    })
                },
                None => index >= old(self)@.jobs.len() && final(self)@ == old(self)@,
            },
            final(self)@.wf(),
            final(self)@.current() == (if old(self)@.current_job == Some(index) {
                None
            } else {
                old(self)@.current()
            }),
    {
        if index >= self.jobs.len() {
            return None;
        }
        let job = self.jobs.remove(index);
        self.current_job = match self.current_job {
            Some(i) => if i == index {
                None
            } else if i > index {
                Some(i - 1)
            } else {
                Some(i)
            },
            None => None,
        };
        assert(final(self)@.jobs =~= old(self)@.jobs.remove(index as int));
        Some(job)
    }

    /// The job whose output is to wake the event loop: the selected one,
    /// since only it is drawn. `None` when there is nothing to wait for.
    pub fn job_tick(&self) -> (out: Option<usize>)
        ensures
            out == (match self@.current_job {
                Some(i) => if i < self@.jobs.len() {
                    Some(i)
                } else {
                    None
                },
                None => None,
            }),
    {
        match self.current_job {
            Some(i) => if i < self.jobs.len() {
                Some(i)
            } else {
                None
            },
            None => None,
        }
    }

    /// The processes to terminate at shutdown: every job's, in the jobs'
    /// order. The signals are independent of each other and may be sent
    /// all at once.
    pub fn kill_jobs(&self) -> (out: Vec<u32>)
        ensures
            out@ == pids_of(self@.jobs),
    {
        let mut out: Vec<u32> = Vec::new();
        let mut i: usize = 0;
        while i < self.jobs.len()
            invariant
                i <= self.jobs.len(),
                out@ == pids_of(self@.jobs.take(i as int)),
            decreases self.jobs.len() - i,
        {
            proof {
                let next = self@.jobs.take(i + 1);
                assert(next.drop_last() == self@.jobs.take(i as int));
                assert(next.last() == self.jobs@[i as int]@);
            }
            match self.jobs[i].kill_target() {
                Some(pid) => {
                    out.push(pid);
                },
                None => {},
            }
            i += 1;
        }
        assert(self@.jobs.take(i as int) == self@.jobs);
        out
    }

    /// Records the answers to the signals asked for by [`App::kill_jobs`]:
    /// one for each job that has a process, in the jobs' order.
    pub fn kill_jobs_done(&mut self, accepted: &Vec<bool>)
        requires
            accepted@.len() == pids_of(old(self)@.jobs).len(),
        ensures
            final(self)@ == (AppView {
                jobs: kills_recorded(old(self)@.jobs, accepted@),
                ..old(self)@
            }),
            old(self)@.wf() ==> final(self)@.wf(),
    {
        let ghost before = self@.jobs;
        let mut i: usize = 0;
        let mut k: usize = 0;
        while i < self.jobs.len()
            invariant
                i <= self.jobs.len(),
                self.jobs@.len() == before.len(),
                accepted@.len() == pids_of(before).len(),
                k == pids_of(before.take(i as int)).len(),
                k <= accepted@.len(),
                self@.jobs.take(i as int) == kills_recorded(
                    before.take(i as int),
                    accepted@.take(k as int),
                ),
                forall|j: int| i <= j < before.len() ==> self@.jobs[j] == before[j],
                self@ == (AppView { jobs: self@.jobs, ..old(self)@ }),
            decreases self.jobs.len() - i,
        {
            let ghost jobs_before = self@.jobs;
            proof {
                let next = before.take(i + 1);
                assert(next.drop_last() == before.take(i as int));
                assert(next.last() == before[i as int]);
                assert(jobs_before[i as int] == before[i as int]);
                lemma_pids_grow(before, i as int);
            }
            if self.jobs[i].kill_target().is_some() {
                proof {
                    let taken = accepted@.take(k + 1);
                    assert(taken.drop_last() == accepted@.take(k as int));
                    assert(taken.last() == accepted@[k as int]);
                }
                let answers = accepted.len();
                assert(k < answers);
                self.jobs[i].kill(accepted[k]);
                k += 1;
            }
            proof {
                let now = self@.jobs;
                assert(now.take(i + 1) =~= jobs_before.take(i as int).push(now[i as int]));
            }
            i += 1;
        }
        proof {
            assert(before.take(i as int) == before);
            assert(self@.jobs.take(i as int) == self@.jobs);
            assert(accepted@.take(k as int) == accepted@);
        }
    }
}

/// The raw outcome of an event that a handler does not look at: a resize
/// asks for a redraw, everything else for nothing.
pub open spec fn unhandled(event: Event) -> Action {
    match event {
        Event::Resize(_, _) => Action::Tick,
        _ => Action::Noop,
    }
}

impl AppView {
    /// Every deadline that an animation may set at `now` fits the clock,
    /// and every tick counter can still count up.
    pub open spec fn clock_fits(self, now: u64) -> bool {
        &&& now + self.anim.tick_duration <= u64::MAX
        &&& now + self.sidebar_anim.tick_duration <= u64::MAX
        &&& now + self.popup.anim.tick_duration <= u64::MAX
        &&& self.anim.tick < usize::MAX
        &&& self.sidebar_anim.tick < usize::MAX
        &&& self.popup.anim.tick < usize::MAX
    }

    /// The application's own keys: `q` quits, `n` opens the new-job popup.
    pub open spec fn app_keyed(self, key: KeyEvent, now: u64) -> (AppView, Action) {
        match key.code {
            KeyCode::Char(c) => if c == 'q' {
                (self, Action::Quit)
            } else if c == 'n' {
                (self.opened(PopupKind::NewJob, now), Action::Tick)
            } else {
                (self, Action::Noop)
            },
            _ => (self, Action::Noop),
        }
    }

    /// The keys that act on jobs: `Tab` and `BackTab` move the selection,
    /// `k` kills and `r` restarts the selected job, `m` and `e` open the
    /// rename and edit popups for it.
    pub open spec fn job_keyed(self, key: KeyEvent, now: u64) -> (AppView, Action, EffectView) {
        match key.code {
            KeyCode::Tab => (
                AppView { current_job: self.next_index(), ..self },
                Action::Tick,
                EffectView::Nothing,
            ),
            KeyCode::BackTab => (
                AppView { current_job: self.previous_index(), ..self },
                Action::Tick,
                EffectView::Nothing,
            ),
            KeyCode::Char(c) => if c == 'k' && self.current() is Some {
                (self, Action::Tick, EffectView::Kill)
            } else if c == 'm' && self.current_job is Some {
                (self.opened(PopupKind::Rename, now), Action::Tick, EffectView::Nothing)
            } else if c == 'e' && self.current_job is Some {
                (self.opened(PopupKind::Edit, now), Action::Tick, EffectView::Nothing)
            } else if c == 'r' {
                (
                    self,
                    Action::Tick,
                    if self.current() is Some {
                        EffectView::Restart
                    } else {
                        EffectView::Nothing
                    },
                )
            } else {
                (self, Action::Noop, EffectView::Nothing)
            },
            _ => (self, Action::Noop, EffectView::Nothing),
        }
    }

    /// What the job view makes of an event: keys act on jobs, everything
    /// else is left unhandled.
    pub open spec fn job_handled(self, event: Event, now: u64) -> (AppView, Action, EffectView) {
        match event {
            Event::Key(key) => self.job_keyed(key, now),
            _ => (self, unhandled(event), EffectView::Nothing),
        }
    }

    /// What the application itself makes of an event, once the popup layer
    /// has left it untouched.
    pub open spec fn own_handled(self, event: Event, now: u64) -> (AppView, Action) {
        match event {
            Event::Key(key) => self.app_keyed(key, now),
            _ => (self, unhandled(event)),
        }
    }

    /// The whole chain: the popup layer first, then the application's own
    /// keys, then the job view. The first handler whose outcome is not
    /// `Noop` ends the chain, and the handlers after it do not run.
    pub open spec fn handled(self, event: Event, now: u64) -> (AppView, Action, EffectView) {
        let (after_popup, popup_action, popup_effect) = self.popup_handled(event, now);
        if popup_action != Action::Noop {
            (after_popup, popup_action, popup_effect)
        } else {
            let (after_own, own_action) = after_popup.own_handled(event, now);
            if own_action != Action::Noop {
                (after_own, own_action, EffectView::Nothing)
            } else {
                after_own.job_handled(event, now)
            }
        }
    }

    /// The state after a new job's spawn is known. A child makes the job
    /// the last and selected one and closes the popup; a failure is shown
    /// in the popup and the job is dropped.
    pub open spec fn spawned(self, job: JobView, outcome: Result<u32, Seq<char>>, now: u64) -> AppView {
        match outcome {
            Ok(pid) => AppView {
                jobs: self.jobs.push(
                    JobView {
                        running: Some(JobRunning { pid, status: None, killed: false }),
                        ..job
                    },
                ),
                current_job: Some(self.jobs.len() as usize),
                popup: self.popup.closing(now),
                ..self
            },
            Err(message) => AppView { last_err: Some(spawn_failure(message)), ..self },
        }
    }
}

/// A spawn outcome as plain values.
pub open spec fn spawned_view(spawned: Spawned) -> Result<u32, Seq<char>> {
    match spawned {
        Spawned::Child { pid } => Ok(pid),
        Spawned::Failed { message } => Err(message@),
    }
}

impl App {
    /// Whether the selection points at a job.
    pub(crate) fn has_current(&self) -> (out: bool)
        ensures
            out == (self@.current() is Some),
    {
        match self.current_job {
            Some(i) => i < self.jobs.len(),
            None => false,
        }
    }

}

impl Job {
    /// The keys that act on jobs; see [`AppView::job_keyed`].
    pub fn handle_key_events(state: &mut App, key: KeyEvent, now: u64) -> (out: Handled)
        requires
            old(state)@.wf(),
            now + old(state).popup.anim.tick_duration <= u64::MAX,
        ensures
            (final(state)@, out.action, out.effect@) == old(state)@.job_keyed(key, now),
            final(state)@.wf(),
    {
        match key.code {
            KeyCode::Tab => {
                state.select_next();
                done(Action::Tick)
            },
            KeyCode::BackTab => {
                state.select_previous();
                done(Action::Tick)
            },
            KeyCode::Char(c) => {
                if c == 'k' && state.has_current() {
                    Handled { action: Action::Tick, effect: Effect::Kill }
                } else if c == 'm' && state.current_job.is_some() {
                    SharedPopupState::open(state, PopupKind::Rename, now);
                    done(Action::Tick)
                } else if c == 'e' && state.current_job.is_some() {
                    SharedPopupState::open(state, PopupKind::Edit, now);
                    done(Action::Tick)
                } else if c == 'r' {
                    if state.has_current() {
                        Handled { action: Action::Tick, effect: Effect::Restart }
                    } else {
                        done(Action::Tick)
                    }
                } else {
                    done(Action::Noop)
                }
            },
            _ => done(Action::Noop),
        }
    }

    /// What the job view makes of an event; see [`AppView::job_handled`].
    pub fn handle_event(state: &mut App, event: Event, now: u64) -> (out: Handled)
        requires
            old(state)@.wf(),
            now + old(state).popup.anim.tick_duration <= u64::MAX,
        ensures
            (final(state)@, out.action, out.effect@) == old(state)@.job_handled(event, now),
            final(state)@.wf(),
    {
        match event {
            Event::Key(key) => Job::handle_key_events(state, key, now),
            Event::Resize(_, _) => done(Action::Tick),
            _ => done(Action::Noop),
        }
    }
}

impl App {
    /// The application's own keys; see [`AppView::app_keyed`].
    pub fn handle_key_events(&mut self, key: KeyEvent, now: u64) -> (out: Action)
        requires
            old(self)@.wf(),
            now + old(self).popup.anim.tick_duration <= u64::MAX,
        ensures
            (final(self)@, out) == old(self)@.app_keyed(key, now),
            final(self)@.wf(),
    {
        match key.code {
            KeyCode::Char(c) => {
                if c == 'q' {
                    Action::Quit
                } else if c == 'n' {
                    SharedPopupState::open(self, PopupKind::NewJob, now);
                    Action::Tick
                } else {
                    Action::Noop
                }
            },
            _ => Action::Noop,
        }
    }

    /// Passes on an event that the application itself left untouched: it
    /// goes to the job view.
    pub fn propagate_event(&mut self, event: Event, now: u64) -> (out: Handled)
        requires
            old(self)@.wf(),
            now + old(self).popup.anim.tick_duration <= u64::MAX,
        ensures
            (final(self)@, out.action, out.effect@) == old(self)@.job_handled(event, now),
            final(self)@.wf(),
    {
        Job::handle_event(self, event, now)
    }

    /// Handles one event from the terminal; see [`AppView::handled`].
    pub fn handle_event(&mut self, event: Event, now: u64) -> (out: Handled)
        requires
            old(self)@.wf(),
            now + old(self).popup.anim.tick_duration <= u64::MAX,
        ensures
            (final(self)@, out.action, out.effect@) == old(self)@.handled(event, now),
            final(self)@.wf(),
    {
        let from_popup = SharedPopupState::handle_event(self, event, now);
        match from_popup.action {
            Action::Noop => {},
            _ => {
                return from_popup;
            },
        }
        let own = match event {
            Event::Key(key) => self.handle_key_events(key, now),
            Event::Resize(_, _) => Action::Tick,
            _ => Action::Noop,
        };
        match own {
            Action::Noop => self.propagate_event(event, now),
            _ => done(own),
        }
    }

    /// Takes the outcome of the spawn asked for by [`Effect::Spawn`]. Asks
    /// for a redraw either way.
    pub fn job_spawned(&mut self, job: Job, spawned: Spawned, now: u64) -> (out: Action)
        requires
            old(self)@.wf(),
            now + old(self).popup.anim.tick_duration <= u64::MAX,
        ensures
            final(self)@ == old(self)@.spawned(job@, spawned_view(spawned), now),
            out == Action::Tick,
            final(self)@.wf(),
    {
        let mut job = job;
        match job.start(spawned) {
            Ok(()) => {
                let idx = self.jobs.len();
                self.jobs.push(job);
                self.current_job = Some(idx);
                self.popup.anim.reverse();
                self.popup.anim.start(now);
                self.popup.quitting = true;
                assert(final(self)@.jobs =~= old(self)@.spawned(
                    job@,
                    spawned_view(spawned),
                    now,
                ).jobs);
            },
            Err(e) => {
                self.popup_new_job.last_err = Some(e);
            },
        }
        Action::Tick
    }
}

} // verus!
