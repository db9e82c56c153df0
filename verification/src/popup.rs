//! The popups: which of them is open, how it slides in and out, and what
//! keys do while it is open.

use crate::action::Action;
use crate::animation::AnimationTicker;
use crate::app::{unhandled, App, AppView};
use crate::error::JobStartError;
use crate::event::{Event, KeyCode, KeyEvent};
use crate::geometry::{Rect, Size};
use crate::input::{InputState, InputView};
use crate::island::{can_stand, drawn, AnimatedIsland, Frame, Side};
use crate::job::{Job, JobView, Launch, LaunchView};
use crate::layout::{popup_area, popup_area_spec, popup_fits};
use vstd::prelude::*;

verus! {

/// The popups that the interface can show.
#[derive(Clone, Copy, Debug, PartialEq, Eq, Structural)]
pub enum PopupKind {
    Edit,
    NewJob,
    Rename,
}

/// What all popups share: the animation that slides them in and out, which
/// of them is open, and whether it is on its way out.
#[derive(Clone, Copy, Debug, PartialEq, Eq, Structural)]
pub struct SharedPopupState {
    pub anim: AnimationTicker,
    pub active_popup: Option<PopupKind>,
    pub quitting: bool,
}

/// The popup that edits the selected job's command line.
#[derive(Debug)]
pub struct EditPopup {
    pub input: InputState,
}

/// The popup that starts a new job.
#[derive(Debug)]
pub struct NewJobPopup {
    pub input: InputState,
    /// Why the last attempt to start a job failed.
    pub last_err: Option<JobStartError>,
}

/// The popup that renames the selected job.
#[derive(Debug)]
pub struct RenamePopup {
    pub input: InputState,
}

impl SharedPopupState {
    /// No popup, the animation at rest.
    pub fn new() -> (out: SharedPopupState)
        ensures
            out == (SharedPopupState {
                anim: AnimationTicker::default_spec(),
                active_popup: None,
                quitting: false,
            }),
    {
        SharedPopupState { anim: AnimationTicker::default(), active_popup: None, quitting: false }
    }
}

/// Work that handling an event leaves to the caller, because it takes a
/// process to be signalled or spawned.
#[derive(Debug)]
pub enum Effect {
    /// Nothing.
    Nothing,
    /// Terminate the selected job: signal [`Job::kill_target`], then call [`Job::kill`].
    Kill,
    /// Restart the selected job: [`Job::restart`], signal, spawn, [`Job::start`].
    Restart,
    /// Spawn `launch` for the new job `job` and hand both the job and the
    /// outcome to [`App::job_spawned`].
    Spawn { job: Job, launch: Launch },
}

/// [`Effect`] as plain values.
pub enum EffectView {
    Nothing,
    Kill,
    Restart,
    Spawn { job: JobView, launch: LaunchView },
}

impl View for Effect {
    type V = EffectView;

    open spec fn view(&self) -> EffectView {
        match self {
            Effect::Nothing => EffectView::Nothing,
            Effect::Kill => EffectView::Kill,
            Effect::Restart => EffectView::Restart,
            Effect::Spawn { job, launch } => EffectView::Spawn { job: job@, launch: launch@ },
        }
    }
}

/// What came of handling an event.
#[derive(Debug)]
pub struct Handled {
    /// The outcome for the scheduler.
    pub action: Action,
    /// What is left for the caller to do.
    pub effect: Effect,
}

impl PopupKind {
    /// Ticks that the popup takes to slide in.
    pub open spec fn duration_spec(self) -> usize {
        7
    }

    /// Whether `q` and `Esc` close the popup before it sees them.
    pub open spec fn auto_close_spec(self) -> bool {
        false
    }

    /// See [`PopupKind::duration_spec`].
    pub fn duration(self) -> (out: usize)
        ensures
            out == self.duration_spec(),
    {
        7
    }

    /// See [`PopupKind::auto_close_spec`].
    pub fn auto_close(self) -> (out: bool)
        ensures
            out == self.auto_close_spec(),
    {
        false
    }
}

impl SharedPopupState {
    /// The popup on its way out: its animation runs backwards from `now` on.
    pub open spec fn closing(self, now: u64) -> SharedPopupState {
        SharedPopupState {
            anim: (AnimationTicker { reverse: !self.anim.reverse, ..self.anim }).started(now),
            quitting: true,
            ..self
        }
    }

    /// The state after [`SharedPopupState::close`] at `now`.
    pub open spec fn closed(self, now: u64) -> SharedPopupState {
        if self.active_popup is None || self.quitting {
            self
        } else {
            self.closing(now)
        }
    }

    /// Starts closing the open popup; does nothing when none is open or it
    /// is closing already.
    pub fn close(&mut self, now: u64)
        requires
            now + old(self).anim.tick_duration <= u64::MAX,
        ensures
            *final(self) == old(self).closed(now),
    {
        if self.active_popup.is_none() || self.quitting {
            return ;
        }
        self.anim.reverse();
        self.anim.start(now);
        self.quitting = true;
    }
}

impl AppView {
    /// The state after `kind` was mounted: the popup's text field is
    /// filled from the selected job, or emptied.
    pub open spec fn mounted(self, kind: PopupKind) -> AppView {
        match kind {
            PopupKind::Edit => AppView {
                edit: match self.current() {
                    Some(job) => InputView::holding(job.cmd),
                    None => InputView::cleared(),
                },
                ..self
            },
            PopupKind::NewJob => AppView { new_job: InputView::cleared(), last_err: None, ..self },
            PopupKind::Rename => AppView {
                rename: match self.current() {
                    Some(job) => InputView::holding(job.title),
                    None => InputView::cleared(),
                },
                ..self
            },
        }
    }

    /// The state after [`SharedPopupState::open`]: nothing happens while a popup is open
    /// or closing; otherwise `kind` opens, its animation starts and it is
    /// mounted.
    pub open spec fn opened(self, kind: PopupKind, now: u64) -> AppView {
        if self.popup.active_popup is Some || self.popup.quitting {
            self
        } else {
            AppView {
                popup: SharedPopupState {
                    active_popup: Some(kind),
                    anim: (AnimationTicker { len: kind.duration_spec(), ..self.popup.anim }).started(
                        now,
                    ),
                    ..self.popup
                },
                ..self
            }.mounted(kind)
        }
    }

    /// The state after [`SharedPopupState::update`]: a popup whose closing
    /// animation has come to rest is mounted once more, which resets its
    /// text field, and is gone; the animation turns forward again.
    pub open spec fn popup_settled(self) -> AppView {
        if self.popup.anim.state is Stop && self.popup.quitting {
            let reset = match self.popup.active_popup {
                Some(kind) => self.mounted(kind),
                None => self,
            };
            AppView {
                popup: SharedPopupState {
                    quitting: false,
                    active_popup: None,
                    anim: AnimationTicker { reverse: !self.popup.anim.reverse, ..self.popup.anim },
                },
                ..reset
            }
        } else {
            self
        }
    }

    /// The jobs with the selected job's command line replaced.
    pub open spec fn with_current_cmd(self, cmd: Seq<char>) -> AppView {
        match self.current_job {
            Some(i) => if i < self.jobs.len() {
                AppView {
                    jobs: self.jobs.update(i as int, JobView { cmd, ..self.jobs[i as int] }),
                    ..self
                }
            } else {
                self
            },
            None => self,
        }
    }

    /// The jobs with the selected job's title replaced.
    pub open spec fn with_current_title(self, title: Seq<char>) -> AppView {
        match self.current_job {
            Some(i) => if i < self.jobs.len() {
                AppView {
                    jobs: self.jobs.update(i as int, JobView { title, ..self.jobs[i as int] }),
                    ..self
                }
            } else {
                self
            },
            None => self,
        }
    }

    /// A key in the edit popup. `Esc` closes it. `Enter` on an empty field
    /// asks for a redraw; on a filled one it gives the selected job the new
    /// command line, asks for its restart and closes the popup. Other keys
    /// go to the text field.
    pub open spec fn edit_keyed(self, key: KeyEvent) -> (AppView, Action, EffectView) {
        match key.code {
            KeyCode::Esc => (self, Action::Quit, EffectView::Nothing),
            KeyCode::Enter => if self.edit.content.len() == 0 {
                (self, Action::Tick, EffectView::Nothing)
            } else if self.current() is Some {
                (self.with_current_cmd(self.edit.content), Action::Quit, EffectView::Restart)
            } else {
                (self, Action::Quit, EffectView::Nothing)
            },
            _ => {
                let (field, taken) = self.edit.keyed(key);
                (
                    AppView { edit: field, ..self },
                    if taken {
                        Action::Tick
                    } else {
                        Action::Noop
                    },
                    EffectView::Nothing,
                )
            },
        }
    }

    /// A key in the rename popup. `Esc` closes it. `Enter` on an empty field
    /// asks for a redraw; on a filled one it gives the selected job the new
    /// title and closes the popup. Other keys go to the text field.
    pub open spec fn rename_keyed(self, key: KeyEvent) -> (AppView, Action, EffectView) {
        match key.code {
            KeyCode::Esc => (self, Action::Quit, EffectView::Nothing),
            KeyCode::Enter => if self.rename.content.len() == 0 {
                (self, Action::Tick, EffectView::Nothing)
            } else {
                (self.with_current_title(self.rename.content), Action::Quit, EffectView::Nothing)
            },
            _ => {
                let (field, taken) = self.rename.keyed(key);
                (
                    AppView { rename: field, ..self },
                    if taken {
                        Action::Tick
                    } else {
                        Action::Noop
                    },
                    EffectView::Nothing,
                )
            },
        }
    }

    /// A key in the new-job popup. `Esc` closes it. `Enter` makes a job of
    /// the field's text: a command line that cannot be launched is reported
    /// in the popup at once; one that can is handed out to be spawned, and
    /// the popup stays until the outcome is known. Other keys go to the
    /// text field.
    pub open spec fn new_job_keyed(self, key: KeyEvent) -> (AppView, Action, EffectView) {
        match key.code {
            KeyCode::Esc => (self, Action::Quit, EffectView::Nothing),
            KeyCode::Enter => {
                let job = JobView {
                    title: self.new_job.content,
                    cmd: self.new_job.content,
                    running: None,
                    size: Size { width: 80, height: 24 },
                };
                match job.launch() {
                    Err(e) => (AppView { last_err: Some(e), ..self }, Action::Tick, EffectView::Nothing),
                    Ok(launch) => (self, Action::Tick, EffectView::Spawn { job, launch }),
                }
            },
            _ => {
                let (field, taken) = self.new_job.keyed(key);
                (
                    AppView { new_job: field, ..self },
                    if taken {
                        Action::Tick
                    } else {
                        Action::Noop
                    },
                    EffectView::Nothing,
                )
            },
        }
    }

    /// What the open popup `kind` makes of an event, before the popup layer
    /// has its say.
    pub open spec fn popup_raw(self, kind: PopupKind, event: Event) -> (AppView, Action, EffectView) {
        match event {
            Event::Key(key) => if kind.auto_close_spec() && (key.code == KeyCode::Char('q')
                || key.code == KeyCode::Esc) {
                (self, Action::Quit, EffectView::Nothing)
            } else {
                match kind {
                    PopupKind::Edit => self.edit_keyed(key),
                    PopupKind::NewJob => self.new_job_keyed(key),
                    PopupKind::Rename => self.rename_keyed(key),
                }
            },
            _ => (self, unhandled(event), EffectView::Nothing),
        }
    }

    /// The popup layer's handling of an event. A closing popup swallows it
    /// (`Intercept`); without a popup nothing happens (`Noop`). An open
    /// popup gets the event: what it leaves untouched is swallowed, its
    /// `Quit` starts the closing animation and asks for a redraw, and
    /// anything else is passed on.
    pub open spec fn popup_handled(self, event: Event, now: u64) -> (AppView, Action, EffectView) {
        if self.popup.quitting {
            (self, Action::Intercept, EffectView::Nothing)
        } else {
            match self.popup.active_popup {
                None => (self, Action::Noop, EffectView::Nothing),
                Some(kind) => {
                    let (next, raw, effect) = self.popup_raw(kind, event);
                    match raw {
                        Action::Noop => (next, Action::Intercept, effect),
                        Action::Quit => (
                            AppView { popup: next.popup.closing(now), ..next },
                            Action::Tick,
                            effect,
                        ),
                        _ => (next, raw, effect),
                    }
                },
            }
        }
    }
}

impl EditPopup {
    /// Fills the text field with the selected job's command line, or
    /// empties it when no job is selected.
    pub fn on_mount(state: &mut App)
        ensures
            final(state)@ == old(state)@.mounted(PopupKind::Edit),
            old(state)@.wf() ==> final(state)@.wf(),
    {
        let cmd = match state.current_job() {
            Some(job) => Some(job.cmd.clone()),
            None => None,
        };
        match cmd {
            Some(cmd) => state.popup_edit.input.change_all(cmd.as_str()),
            None => state.popup_edit.input.clear(),
        }
    }
}

impl NewJobPopup {
    /// Empties the text field and forgets the last failure.
    pub fn on_mount(state: &mut App)
        ensures
            final(state)@ == old(state)@.mounted(PopupKind::NewJob),
            old(state)@.wf() ==> final(state)@.wf(),
    {
        state.popup_new_job.input.clear();
        state.popup_new_job.last_err = None;
    }
}

impl RenamePopup {
    /// Fills the text field with the selected job's title, or empties it
    /// when no job is selected.
    pub fn on_mount(state: &mut App)
        ensures
            final(state)@ == old(state)@.mounted(PopupKind::Rename),
            old(state)@.wf() ==> final(state)@.wf(),
    {
        let title = match state.current_job() {
            Some(job) => Some(job.title.clone()),
            None => None,
        };
        match title {
            Some(title) => state.popup_rename.input.change_all(title.as_str()),
            None => state.popup_rename.input.clear(),
        }
    }
}

impl PopupKind {
    /// Mounts the popup of this kind.
    pub fn on_mount(self, state: &mut App)
        ensures
            final(state)@ == old(state)@.mounted(self),
            old(state)@.wf() ==> final(state)@.wf(),
    {
        match self {
            PopupKind::Edit => EditPopup::on_mount(state),
            PopupKind::NewJob => NewJobPopup::on_mount(state),
            PopupKind::Rename => RenamePopup::on_mount(state),
        }
    }
}

impl SharedPopupState {
    /// Opens the popup `kind`, unless one is open or closing.
    pub fn open(state: &mut App, kind: PopupKind, now: u64)
        requires
            now + old(state).popup.anim.tick_duration <= u64::MAX,
        ensures
            final(state)@ == old(state)@.opened(kind, now),
            old(state)@.wf() ==> final(state)@.wf(),
    {
        if state.popup.active_popup.is_some() || state.popup.quitting {
            return ;
        }
        state.popup.active_popup = Some(kind);
        state.popup.anim.len = kind.duration();
        state.popup.anim.start(now);
        kind.on_mount(state);
    }

    /// Puts away a popup whose closing animation has come to rest.
    pub fn update(state: &mut App)
        ensures
            final(state)@ == old(state)@.popup_settled(),
            old(state)@.wf() ==> final(state)@.wf(),
    {
        if state.popup.anim.stopped() && state.popup.quitting {
            match state.popup.active_popup {
                Some(kind) => {
                    state.popup.active_popup = None;
                    kind.on_mount(state);
                },
                None => {},
            }
            state.popup.quitting = false;
            state.popup.active_popup = None;
            state.popup.anim.reverse();
        }
    }
}

/// The outcome of a key that a text field may or may not have taken.
pub(crate) fn field_outcome(taken: bool) -> (out: Handled)
    ensures
        out.action == (if taken {
            Action::Tick
        } else {
            Action::Noop
        }),
        out.effect@ == EffectView::Nothing,
{
    Handled {
        action: if taken {
            Action::Tick
        } else {
            Action::Noop
        },
        effect: Effect::Nothing,
    }
}

/// An outcome that leaves nothing to the caller.
pub(crate) fn done(action: Action) -> (out: Handled)
    ensures
        out.action == action,
        out.effect@ == EffectView::Nothing,
{
    Handled { action, effect: Effect::Nothing }
}

impl EditPopup {
    /// A key in the edit popup; see [`AppView::edit_keyed`].
    pub fn handle_key_events(state: &mut App, key: KeyEvent) -> (out: Handled)
        requires
            old(state)@.wf(),
        ensures
            (final(state)@, out.action, out.effect@) == old(state)@.edit_keyed(key),
            final(state)@.wf(),
    {
        match key.code {
            KeyCode::Esc => done(Action::Quit),
            KeyCode::Enter => {
                if state.popup_edit.input.chars().len() == 0 {
                    return done(Action::Tick);
                }
                let content = state.popup_edit.input.content();
                match state.current_job {
                    Some(i) => {
                        if i < state.jobs.len() {
                            state.jobs[i].with_cmd(content);
                            assert(final(state)@.jobs =~= old(state)@.with_current_cmd(
                                content@,
                            ).jobs);
                            return Handled { action: Action::Quit, effect: Effect::Restart };
                        }
                    },
                    None => {},
                }
                done(Action::Quit)
            },
            _ => field_outcome(state.popup_edit.input.handle_key(key)),
        }
    }
}

impl RenamePopup {
    /// A key in the rename popup; see [`AppView::rename_keyed`].
    pub fn handle_key_events(state: &mut App, key: KeyEvent) -> (out: Handled)
        requires
            old(state)@.wf(),
        ensures
            (final(state)@, out.action, out.effect@) == old(state)@.rename_keyed(key),
            final(state)@.wf(),
    {
        match key.code {
            KeyCode::Esc => done(Action::Quit),
            KeyCode::Enter => {
                if state.popup_rename.input.chars().len() == 0 {
                    return done(Action::Tick);
                }
                let content = state.popup_rename.input.content();
                match state.current_job {
                    Some(i) => {
                        if i < state.jobs.len() {
                            state.jobs[i].title = content;
                            assert(final(state)@.jobs =~= old(state)@.with_current_title(
                                content@,
                            ).jobs);
                        }
                    },
                    None => {},
                }
                done(Action::Quit)
            },
            _ => field_outcome(state.popup_rename.input.handle_key(key)),
        }
    }
}

impl NewJobPopup {
    /// A key in the new-job popup; see [`AppView::new_job_keyed`].
    pub fn handle_key_events(state: &mut App, key: KeyEvent) -> (out: Handled)
        requires
            old(state)@.wf(),
        ensures
            (final(state)@, out.action, out.effect@) == old(state)@.new_job_keyed(key),
            final(state)@.wf(),
    {
        match key.code {
            KeyCode::Esc => done(Action::Quit),
            KeyCode::Enter => {
                let content = state.popup_new_job.input.content();
                let job = Job::new(content.as_str());
                match job.launch() {
                    Err(e) => {
                        state.popup_new_job.last_err = Some(e);
                        done(Action::Tick)
                    },
                    Ok(launch) => Handled {
                        action: Action::Tick,
                        effect: Effect::Spawn { job, launch },
                    },
                }
            },
            _ => field_outcome(state.popup_new_job.input.handle_key(key)),
        }
    }
}

impl PopupKind {
    /// What the open popup of this kind makes of an event; see
    /// [`AppView::popup_raw`].
    pub fn handle_event(self, state: &mut App, event: Event) -> (out: Handled)
        requires
            old(state)@.wf(),
        ensures
            (final(state)@, out.action, out.effect@) == old(state)@.popup_raw(self, event),
            final(state)@.wf(),
            final(state)@.popup == old(state)@.popup,
    {
        match event {
            Event::Key(key) => {
                if self.auto_close() && (key.code == KeyCode::Char('q') || key.code
                    == KeyCode::Esc) {
                    done(Action::Quit)
                } else {
                    match self {
                        PopupKind::Edit => EditPopup::handle_key_events(state, key),
                        PopupKind::NewJob => NewJobPopup::handle_key_events(state, key),
                        PopupKind::Rename => RenamePopup::handle_key_events(state, key),
                    }
                }
            },
            Event::Resize(_, _) => done(Action::Tick),
            _ => done(Action::Noop),
        }
    }
}

impl SharedPopupState {
    /// The popup layer's handling of an event; see [`AppView::popup_handled`].
    pub fn handle_event(state: &mut App, event: Event, now: u64) -> (out: Handled)
        requires
            old(state)@.wf(),
            now + old(state).popup.anim.tick_duration <= u64::MAX,
        ensures
            (final(state)@, out.action, out.effect@) == old(state)@.popup_handled(event, now),
            final(state)@.wf(),
    {
        if state.popup.quitting {
            return done(Action::Intercept);
        }
        let kind = match state.popup.active_popup {
            Some(kind) => kind,
            None => {
                return done(Action::Noop);
            },
        };
        let raw = kind.handle_event(state, event);
        match raw.action {
            Action::Noop => Handled { action: Action::Intercept, effect: raw.effect },
            Action::Quit => {
                state.popup.anim.reverse();
                state.popup.anim.start(now);
                state.popup.quitting = true;
                Handled { action: Action::Tick, effect: raw.effect }
            },
            _ => raw,
        }
    }
}

/// A popup on its way to the screen: the place reserved for it and the
/// panel that it slides in as.
#[derive(Clone, Copy, Debug, PartialEq, Eq, Structural)]
pub struct PopupBuilder {
    pub area: Rect,
    pub island: AnimatedIsland,
}

impl PopupBuilder {
    /// A popup without a place, sliding in from the top.
    pub fn new() -> (out: PopupBuilder)
        ensures
            out == (PopupBuilder { area: Rect::zero(), island: AnimatedIsland { side: Side::Top } }),
    {
        PopupBuilder {
            area: Rect { x: 0, y: 0, width: 0, height: 0 },
            island: AnimatedIsland::new(),
        }
    }

    /// The same popup, resting in `area`.
    pub fn reserve(self, area: Rect) -> (out: PopupBuilder)
        ensures
            out == (PopupBuilder { area, ..self }),
    {
        PopupBuilder { area, island: self.island }
    }

    /// The same popup, sliding in from `side`.
    pub fn direction(self, side: Side) -> (out: PopupBuilder)
        ensures
            out == (PopupBuilder { island: AnimatedIsland { side }, ..self }),
    {
        PopupBuilder { area: self.area, island: self.island.direction(side) }
    }

    /// Lays the popup out; see [`AnimatedIsland::draw`].
    pub fn draw(self, edge: Option<u16>, screen: Rect) -> (out: Option<Frame>)
        requires
            can_stand(self.island.side, edge, self.area),
        ensures
            drawn(out, self.island.side, edge, self.area, screen),
    {
        self.island.draw(edge, self.area, screen)
    }
}

impl PopupKind {
    /// Gives the popup of this kind its place on a main area of `area`
    /// and the side it slides in from, the left.
    pub fn build(self, island: PopupBuilder, area: Rect) -> (out: PopupBuilder)
        requires
            popup_fits(self, area),
        ensures
            out == (PopupBuilder {
                area: popup_area_spec(self, area),
                island: AnimatedIsland { side: Side::Left },
            }),
    {
        island.direction(Side::Left).reserve(popup_area(self, area))
    }
}

impl EditPopup {
    /// See [`PopupKind::build`].
    pub fn build(island: PopupBuilder, area: Rect) -> (out: PopupBuilder)
        requires
            popup_fits(PopupKind::Edit, area),
        ensures
            out == (PopupBuilder {
                area: popup_area_spec(PopupKind::Edit, area),
                island: AnimatedIsland { side: Side::Left },
            }),
    {
        PopupKind::Edit.build(island, area)
    }
}

impl NewJobPopup {
    /// See [`PopupKind::build`].
    pub fn build(island: PopupBuilder, area: Rect) -> (out: PopupBuilder)
        requires
            popup_fits(PopupKind::NewJob, area),
        ensures
            out == (PopupBuilder {
                area: popup_area_spec(PopupKind::NewJob, area),
                island: AnimatedIsland { side: Side::Left },
            }),
    {
        PopupKind::NewJob.build(island, area)
    }
}

impl RenamePopup {
    /// See [`PopupKind::build`].
    pub fn build(island: PopupBuilder, area: Rect) -> (out: PopupBuilder)
        requires
            popup_fits(PopupKind::Rename, area),
        ensures
            out == (PopupBuilder {
                area: popup_area_spec(PopupKind::Rename, area),
                island: AnimatedIsland { side: Side::Left },
            }),
    {
        PopupKind::Rename.build(island, area)
    }
}

} // verus!
