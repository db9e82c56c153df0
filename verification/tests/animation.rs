use buj::action::Action;
use buj::animation::{
    AnimationState, AnimationTick, AnimationTicker, Blinker, TickRange, DEBUG_DELAY_MS,
};

fn ticker(len: usize, duration: u64) -> AnimationTicker {
    let mut t = AnimationTicker::default();
    t.len = len;
    t.next_tick(duration);
    t
}

#[test]
fn default_ticker_is_stopped() {
    let t = AnimationTicker::default();
    assert!(t.stopped());
    assert!(!t.running());
    assert_eq!(t.wait_tick(), None);
    assert_eq!((t.len, t.tick, t.tick_duration, t.render_blink), (0, 0, 0, false));
}

#[test]
fn start_sets_the_deadline_and_hides_blinkers() {
    let mut t = ticker(3, 20);
    t.render_blink = true;
    t.start(100);
    assert!(t.running());
    assert_eq!(t.state, AnimationState::Running { next_tick: 120 });
    assert_eq!(t.wait_tick(), Some(120));
    assert!(!t.render_blink);
}

#[test]
fn update_steps_only_after_the_deadline() {
    let mut t = ticker(3, 20);
    t.start(100);
    assert_eq!(t.update(120), Action::Noop);
    assert_eq!(t.tick, 0);
    assert_eq!(t.update(121), Action::Tick);
    assert_eq!(t.tick, 1);
    assert_eq!(t.state, AnimationState::Running { next_tick: 141 });
}

#[test]
fn update_of_a_stopped_ticker_does_nothing() {
    let mut t = ticker(3, 20);
    assert_eq!(t.update(1_000), Action::Noop);
    assert_eq!(t.tick, 0);
    assert!(t.stopped());
}

#[test]
fn forward_run_ends_at_the_length() {
    let mut t = ticker(3, 0);
    t.start(0);
    let mut now = 1;
    let mut outcomes = Vec::new();
    while t.running() {
        outcomes.push(t.update(now));
        now += 1;
    }
    assert_eq!(outcomes, vec![Action::Tick, Action::Tick, Action::Tick]);
    assert_eq!(t.tick, 3);
    assert!(t.render_blink);
}

#[test]
fn reverse_run_ends_at_zero_with_noop() {
    let mut t = ticker(3, 0);
    t.tick = 2;
    t.reverse();
    t.start(0);
    assert_eq!(t.update(1), Action::Tick);
    assert_eq!(t.update(2), Action::Tick);
    assert_eq!(t.tick, 0);
    assert!(t.running());
    assert_eq!(t.update(3), Action::Noop);
    assert!(t.stopped());
    assert!(t.render_blink);
    t.reverse();
    assert!(!t.reverse);
}

#[test]
fn blink_flickers_between_ticks_60_and_100() {
    let mut t = ticker(120, 0);
    t.start(0);
    let mut seen = Vec::new();
    for now in 1..=100u64 {
        t.update(now);
        if t.tick >= 60 && t.tick < 100 {
            seen.push((t.tick, t.render_blink));
        }
    }
    assert_eq!(seen.len(), 40);
    // (tick - 60)^2 / 300 is odd for distances 18..=24, 30..=34 and 39.
    for (tick, blink) in seen {
        let d = tick - 60;
        let expected = (18..=24).contains(&d) || (30..=34).contains(&d) || d == 39;
        assert_eq!(blink, expected, "tick {tick}");
    }
    assert_eq!(t.tick, 100);
}

#[test]
fn debug_slows_ticks_set_afterwards() {
    let mut t = AnimationTicker::default();
    t.next_tick(20);
    assert_eq!(t.tick_duration, 20);
    t.debug();
    assert_eq!(t.tick_duration, 20);
    t.next_tick(20);
    assert_eq!(t.tick_duration, 20 + DEBUG_DELAY_MS);
}

#[test]
fn range_clamps_and_rebases_the_tick() {
    let mut t = ticker(120, 0);
    t.tick = 70;
    assert_eq!(t.range(60..100), AnimationTick::new(10, 60..100));
    assert_eq!(t.range(80..120).tick, 0);
    assert_eq!(t.range(0..29).tick, 29);
    assert_eq!(t.range(90..10).tick, 0);
    assert!(t.is_on_range(60..100));
    assert!(t.is_on_range(70..71));
    assert!(!t.is_on_range(0..70));
    assert!(!t.is_on_range(71..100));
    assert_eq!(t.tick(), AnimationTick::new(70, 0..120));
}

#[test]
fn animation_tick_measures_against_its_range() {
    let tick = AnimationTick::new(5, 10..20);
    assert_eq!(tick.range, TickRange { start: 10, end: 20 });
    assert_eq!(tick.tick(), 15);
    assert_eq!(*tick, 5);
    assert_eq!(tick.range(), 10);
    assert!(!tick.ended());
    assert!(AnimationTick::new(10, 10..20).ended());
    assert!(AnimationTick::new(0, 0..0).ended());
    assert_eq!(TickRange::from(3..9), TickRange { start: 3, end: 9 });
}

#[test]
fn blinker_shows_its_content_only_while_blinking_parts_show() {
    let mut t = AnimationTicker::default();
    assert_eq!(Blinker::new("dot").draw(&t), None);
    t.end();
    assert_eq!(Blinker::new("dot").draw(&t), Some("dot"));
    t.start(0);
    assert_eq!(Blinker::new(7).draw(&t), None);
}
