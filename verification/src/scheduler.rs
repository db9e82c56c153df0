//! The event loop's decisions: what to wait for, and what a wake-up leads to.
//!
//! The loop itself belongs to the caller. It draws, asks [`Scheduler::sources`]
//! what to wait for, waits until the first of them is ready, and hands that
//! one to [`Scheduler::tick`], which says whether to wait again, to redraw,
//! or to leave.

use crate::action::{first_decisive, lemma_merge_seq_is_first_decisive, merge_seq, Action};
use crate::animation::{AnimationState, AnimationTicker};
use crate::app::{App, AppView};
use crate::popup::SharedPopupState;
use vstd::prelude::*;

verus! {

/// The two phases of the loop.
#[derive(Clone, Copy, Debug, PartialEq, Eq, Structural)]
pub enum Phase {
    /// Normal operation.
    Interactive,
    /// The opening animation plays backwards; when it has come to rest the
    /// loop ends.
    Quitting,
}

/// The source that won the race.
#[derive(Clone, Copy, Debug, PartialEq, Eq, Structural)]
pub enum Wake {
    /// A terminal event, already handled, with the outcome of handling it.
    Input(Action),
    /// The selected job has new output.
    JobOutput,
    /// An animation's deadline has passed.
    Timer,
}

/// What the loop does next.
#[derive(Clone, Copy, Debug, PartialEq, Eq, Structural)]
pub enum Step {
    /// Wait again without drawing.
    Wait,
    /// Draw, then wait.
    Redraw,
    /// Leave the loop and terminate all jobs.
    Exit,
}

/// What the loop waits for. Whichever is ready first wins; the others are
/// offered again at the next wait.
#[derive(Clone, Copy, Debug, PartialEq, Eq, Structural)]
pub struct Sources {
    /// Whether terminal events are read.
    pub input: bool,
    /// The job whose output notifier is awaited.
    pub job: Option<usize>,
    /// Deadline of the opening animation.
    pub anim: Option<u64>,
    /// Deadline of the sidebar's animation.
    pub sidebar_anim: Option<u64>,
    /// Deadline of the popup's animation.
    pub popup_anim: Option<u64>,
}

/// The loop's own state.
#[derive(Clone, Copy, Debug, PartialEq, Eq, Structural)]
pub struct Scheduler {
    pub phase: Phase,
}

/// A ticker's deadline, if it is running.
pub open spec fn deadline(ticker: AnimationTicker) -> Option<u64> {
    match ticker.state {
        AnimationState::Running { next_tick } => Some(next_tick),
        AnimationState::Stop => None,
    }
}

impl Wake {
    /// The outcome that a wake-up stands for: input brings its own, new
    /// output asks for a redraw, a timer for nothing by itself.
    pub open spec fn action_spec(self) -> Action {
        match self {
            Wake::Input(action) => action,
            Wake::JobOutput => Action::Tick,
            Wake::Timer => Action::Noop,
        }
    }

    /// See [`Wake::action_spec`].
    pub fn action(self) -> (out: Action)
        ensures
            out == self.action_spec(),
    {
        match self {
            Wake::Input(action) => action,
            Wake::JobOutput => Action::Tick,
            Wake::Timer => Action::Noop,
        }
    }
}

impl AppView {
    /// The state after all three animations were brought up to date at
    /// `now`, and the outcome of the tick: `primary` merged with theirs, in
    /// the order opening animation, sidebar, popup.
    pub open spec fn ticked(self, primary: Action, now: u64) -> (AppView, Action) {
        let (anim, a) = self.anim.updated(now);
        let (sidebar_anim, s) = self.sidebar_anim.updated(now);
        let (popup_anim, p) = self.popup.anim.updated(now);
        (
            AppView {
                anim,
                sidebar_anim,
                popup: SharedPopupState { anim: popup_anim, ..self.popup },
                ..self
            },
            primary.merged(a).merged(s).merged(p),
        )
    }

    /// The state as shutdown begins at `now`: sidebar and opening animation
    /// turn round, and the opening animation starts.
    pub open spec fn shutting_down(self, now: u64) -> AppView {
        AppView {
            sidebar_anim: AnimationTicker {
                reverse: !self.sidebar_anim.reverse,
                ..self.sidebar_anim
            },
            anim: (AnimationTicker { reverse: !self.anim.reverse, ..self.anim }).started(now),
            ..self
        }
    }

    /// The state after one round of the shutdown animation at `now`.
    pub open spec fn wound_down(self, now: u64) -> AppView {
        AppView {
            sidebar_anim: self.sidebar_anim.updated(now).0,
            anim: self.anim.updated(now).0,
            ..self
        }
    }

    /// What the loop waits for in `phase`.
    pub open spec fn sources(self, phase: Phase) -> Sources {
        match phase {
            Phase::Interactive => Sources {
                input: true,
                job: match self.current_job {
                    Some(i) => if i < self.jobs.len() {
                        Some(i)
                    } else {
                        None
                    },
                    None => None,
                },
                anim: deadline(self.anim),
                sidebar_anim: deadline(self.sidebar_anim),
                popup_anim: deadline(self.popup.anim),
            },
            Phase::Quitting => Sources {
                input: false,
                job: None,
                anim: deadline(self.anim),
                sidebar_anim: None,
                popup_anim: None,
            },
        }
    }

    /// The state after [`Scheduler::prepare`] in `phase`.
    pub open spec fn prepared(self, phase: Phase, now: u64) -> AppView {
        match phase {
            Phase::Interactive => self.popup_settled().sidebar_updated(now),
            Phase::Quitting => self.sidebar_updated(now),
        }
    }

    /// The outcome of a tick: state, phase and next step.
    pub open spec fn stepped(self, phase: Phase, wake: Wake, now: u64) -> (AppView, Phase, Step) {
        match phase {
            Phase::Interactive => {
                let (next, merged) = self.ticked(wake.action_spec(), now);
                match merged {
                    Action::Noop | Action::Intercept => (next, Phase::Interactive, Step::Wait),
                    Action::Tick => (next, Phase::Interactive, Step::Redraw),
                    Action::Quit => (next.shutting_down(now), Phase::Quitting, Step::Redraw),
                }
            },
            Phase::Quitting => if self.anim.state is Stop {
                (self, Phase::Quitting, Step::Exit)
            } else {
                (self.wound_down(now), Phase::Quitting, Step::Redraw)
            },
        }
    }
}

impl Scheduler {
    /// A scheduler in the interactive phase.
    pub fn new() -> (out: Scheduler)
        ensures
            out.phase == Phase::Interactive,
    {
        Scheduler { phase: Phase::Interactive }
    }

    /// Brings the state up to date before a wait: a popup that has closed is
    /// put away and the sidebar is set in motion when due. While quitting,
    /// popups are left alone.
    pub fn prepare(&self, app: &mut App, now: u64)
        requires
            now + old(app).sidebar_anim.tick_duration <= u64::MAX,
        ensures
            final(app)@ == old(app)@.prepared(self.phase, now),
            old(app)@.wf() ==> final(app)@.wf(),
    {
        match self.phase {
            Phase::Interactive => {
                SharedPopupState::update(app);
                app.update_sidebar(now);
            },
            Phase::Quitting => {
                app.update_sidebar(now);
            },
        }
    }

    /// What to wait for. While interactive: terminal input, the selected
    /// job's output, and every running animation's deadline. While quitting:
    /// the opening animation's deadline alone, so that input is not read.
    pub fn sources(&self, app: &App) -> (out: Sources)
        ensures
            out == app@.sources(self.phase),
    {
        match self.phase {
            Phase::Interactive => Sources {
                input: true,
                job: app.job_tick(),
                anim: app.anim.wait_tick(),
                sidebar_anim: app.sidebar_anim.wait_tick(),
                popup_anim: app.popup.anim.wait_tick(),
            },
            Phase::Quitting => Sources {
                input: false,
                job: None,
                anim: app.anim.wait_tick(),
                sidebar_anim: None,
                popup_anim: None,
            },
        }
    }

    /// Takes the winner of the race at `now` and says what to do next.
    ///
    /// While interactive, the winner's outcome is merged with those of the
    /// animations: the first that is not `Noop` counts. `Tick` redraws.
    /// `Quit` does not leave at once: it starts the shutdown animation and
    /// enters the quitting phase. `Noop` and `Intercept` wait again.
    ///
    /// While quitting, the winner is ignored. The loop ends once the
    /// opening animation has come to rest; until then every tick advances
    /// the animations and redraws.
    pub fn tick(&mut self, app: &mut App, wake: Wake, now: u64) -> (out: Step)
        requires
            old(app)@.clock_fits(now),
        ensures
            (final(app)@, final(self).phase, out) == old(app)@.stepped(old(self).phase, wake, now),
            old(app)@.wf() ==> final(app)@.wf(),
    {
        match self.phase {
            Phase::Interactive => {
                let mut action = wake.action();
                action.merge_assign(app.anim.update(now));
                action.merge_assign(app.sidebar_anim.update(now));
                action.merge_assign(app.popup.anim.update(now));
                match action {
                    Action::Noop | Action::Intercept => Step::Wait,
                    Action::Tick => Step::Redraw,
                    Action::Quit => {
                        app.sidebar_anim.reverse();
                        app.anim.reverse();
                        app.anim.start(now);
                        self.phase = Phase::Quitting;
                        Step::Redraw
                    },
                }
            },
            Phase::Quitting => {
                if app.anim.stopped() {
                    Step::Exit
                } else {
                    app.sidebar_anim.update(now);
                    app.anim.update(now);
                    Step::Redraw
                }
            },
        }
    }
}

/// An animation never asks for more than a redraw.
pub proof fn lemma_animations_only_tick(ticker: AnimationTicker, now: u64)
    ensures
        ticker.updated(now).1 == Action::Noop || ticker.updated(now).1 == Action::Tick,
{
}

/// The outcome of a tick is the first outcome that is not `Noop` among
/// the winner's and the three animations', in that order.
pub proof fn lemma_tick_merges_in_order(app: AppView, primary: Action, now: u64)
    ensures
        app.ticked(primary, now).1 == first_decisive(
            seq![
                primary,
                app.anim.updated(now).1,
                app.sidebar_anim.updated(now).1,
                app.popup.anim.updated(now).1,
            ],
        ),
{
    let outcomes = seq![
        primary,
        app.anim.updated(now).1,
        app.sidebar_anim.updated(now).1,
        app.popup.anim.updated(now).1,
    ];
    lemma_merge_seq_is_first_decisive(outcomes);
    reveal_with_fuel(merge_seq, 5);
    assert(outcomes.drop_last().drop_last().drop_last().drop_last().len() == 0);
}

/// `Quit` wins over everything: a tick ends in `Quit` exactly when its
/// winner brought `Quit`, whatever the animations do.
pub proof fn lemma_quit_wins_the_tick(app: AppView, primary: Action, now: u64)
    ensures
        app.ticked(primary, now).1 == Action::Quit <==> primary == Action::Quit,
{
    lemma_animations_only_tick(app.anim, now);
    lemma_animations_only_tick(app.sidebar_anim, now);
    lemma_animations_only_tick(app.popup.anim, now);
}

/// Once quitting, always quitting: no wake-up brings the loop back to the
/// interactive phase, and the loop leaves only from the quitting phase.
pub proof fn lemma_quitting_is_final(app: AppView, phase: Phase, wake: Wake, now: u64)
    ensures
        phase == Phase::Quitting ==> app.stepped(phase, wake, now).1 == Phase::Quitting,
        app.stepped(phase, wake, now).2 == Step::Exit ==> phase == Phase::Quitting && app.anim.state
            is Stop,
{
}

/// A tick while interactive turns to quitting exactly when the merged
/// outcome is `Quit`, and then redraws instead of leaving.
pub proof fn lemma_quit_enters_quitting(app: AppView, wake: Wake, now: u64)
    ensures
        app.stepped(Phase::Interactive, wake, now).1 == Phase::Quitting <==> app.ticked(
            wake.action_spec(),
            now,
        ).1 == Action::Quit,
        app.stepped(Phase::Interactive, wake, now).1 == Phase::Quitting ==> app.stepped(
            Phase::Interactive,
            wake,
            now,
        ).2 == Step::Redraw,
{
}

/// New output of the selected job always redraws, whatever the animations
/// do; and an animation's step redraws when the winner itself asks for nothing.
pub proof fn lemma_output_and_animation_redraw(app: AppView, now: u64)
    ensures
        app.stepped(Phase::Interactive, Wake::JobOutput, now).2 == Step::Redraw,
        app.anim.updated(now).1 == Action::Tick ==> app.stepped(
            Phase::Interactive,
            Wake::Timer,
            now,
        ).2 == Step::Redraw,
{
}

} // verus!
