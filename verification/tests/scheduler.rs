use buj::action::Action;
use buj::animation::AnimationState;
use buj::app::App;
use buj::job::Job;
use buj::scheduler::{Phase, Scheduler, Sources, Step, Wake};

/// An app whose animations are all at rest.
fn quiet_app() -> App {
    let mut app = App::new(0);
    app.anim.end();
    app
}

#[test]
fn wake_maps_to_its_action() {
    assert_eq!(Wake::Input(Action::Quit).action(), Action::Quit);
    assert_eq!(Wake::Input(Action::Noop).action(), Action::Noop);
    assert_eq!(Wake::JobOutput.action(), Action::Tick);
    assert_eq!(Wake::Timer.action(), Action::Noop);
}

#[test]
fn noop_and_intercept_wait_again() {
    let mut app = quiet_app();
    let mut scheduler = Scheduler::new();
    assert_eq!(scheduler.tick(&mut app, Wake::Input(Action::Noop), 10), Step::Wait);
    assert_eq!(scheduler.tick(&mut app, Wake::Input(Action::Intercept), 10), Step::Wait);
    assert_eq!(scheduler.tick(&mut app, Wake::Timer, 10), Step::Wait);
    assert_eq!(scheduler.phase, Phase::Interactive);
}

#[test]
fn output_and_tick_redraw() {
    let mut app = quiet_app();
    let mut scheduler = Scheduler::new();
    assert_eq!(scheduler.tick(&mut app, Wake::JobOutput, 10), Step::Redraw);
    assert_eq!(scheduler.tick(&mut app, Wake::Input(Action::Tick), 10), Step::Redraw);
    assert_eq!(scheduler.phase, Phase::Interactive);
}

#[test]
fn a_fired_timer_redraws_through_the_animation() {
    let mut app = App::new(0);
    let mut scheduler = Scheduler::new();
    assert_eq!(scheduler.tick(&mut app, Wake::Timer, 0), Step::Wait);
    assert_eq!(app.anim.tick, 0);
    assert_eq!(scheduler.tick(&mut app, Wake::Timer, 1), Step::Redraw);
    assert_eq!(app.anim.tick, 1);
}

#[test]
fn all_animations_advance_even_when_the_first_outcome_decides() {
    let mut app = App::new(0);
    app.push_job(Job::new("a"), 0);
    app.popup.anim.len = 7;
    app.popup.anim.start(0);
    let mut scheduler = Scheduler::new();
    assert_eq!(scheduler.tick(&mut app, Wake::Input(Action::Intercept), 100), Step::Wait);
    assert_eq!((app.anim.tick, app.sidebar_anim.tick, app.popup.anim.tick), (1, 1, 1));
}

#[test]
fn quit_enters_the_quitting_phase_instead_of_leaving() {
    let mut app = quiet_app();
    app.anim.tick = 2;
    let mut scheduler = Scheduler::new();
    assert_eq!(scheduler.tick(&mut app, Wake::Input(Action::Quit), 10), Step::Redraw);
    assert_eq!(scheduler.phase, Phase::Quitting);
    assert!(app.anim.reverse);
    assert!(app.sidebar_anim.reverse);
    assert_eq!(app.anim.state, AnimationState::Running { next_tick: 10 });

    assert_eq!(scheduler.tick(&mut app, Wake::Timer, 11), Step::Redraw);
    assert_eq!(app.anim.tick, 1);
    // Input does not count while quitting.
    assert_eq!(scheduler.tick(&mut app, Wake::Input(Action::Tick), 12), Step::Redraw);
    assert_eq!(app.anim.tick, 0);
    assert_eq!(scheduler.tick(&mut app, Wake::Timer, 13), Step::Redraw);
    assert!(app.anim.stopped());
    assert_eq!(scheduler.tick(&mut app, Wake::Timer, 14), Step::Exit);
    assert_eq!(scheduler.phase, Phase::Quitting);
}

#[test]
fn an_earlier_outcome_keeps_a_later_quit_out() {
    let mut app = App::new(0);
    let mut scheduler = Scheduler::new();
    // The winner asks for a redraw; nothing after it can turn that into a quit.
    assert_eq!(scheduler.tick(&mut app, Wake::JobOutput, 5), Step::Redraw);
    assert_eq!(scheduler.phase, Phase::Interactive);
}

#[test]
fn sources_while_interactive() {
    let mut app = App::new(3);
    let scheduler = Scheduler::new();
    assert_eq!(
        scheduler.sources(&app),
        Sources { input: true, job: None, anim: Some(3), sidebar_anim: None, popup_anim: None }
    );
    app.push_job(Job::new("a"), 10);
    app.push_job(Job::new("b"), 10);
    app.select(0);
    assert_eq!(
        scheduler.sources(&app),
        Sources {
            input: true,
            job: Some(0),
            anim: Some(3),
            sidebar_anim: Some(30),
            popup_anim: None
        }
    );
}

#[test]
fn sources_while_quitting() {
    let mut app = App::new(3);
    app.push_job(Job::new("a"), 10);
    let scheduler = Scheduler { phase: Phase::Quitting };
    assert_eq!(
        scheduler.sources(&app),
        Sources { input: false, job: None, anim: Some(3), sidebar_anim: None, popup_anim: None }
    );
}

#[test]
fn prepare_settles_popups_only_while_interactive() {
    let mut app = quiet_app();
    app.popup.quitting = true;
    Scheduler { phase: Phase::Quitting }.prepare(&mut app, 0);
    assert!(app.popup.quitting);
    Scheduler::new().prepare(&mut app, 0);
    assert!(!app.popup.quitting);
}
