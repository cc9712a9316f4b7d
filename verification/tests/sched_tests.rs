use loopfetch::driver::{Action, KeyCode, KeyEventKind, LoopFetch};
use loopfetch::reload::ReloadController;
use loopfetch::sched::Scheduler;
use loopfetch::settings::{Layout, Order};

#[test]
fn refresh_fires_exactly_on_multiples_of_five() {
    let mut sched = Scheduler::new();
    for tick in 0u64..16 {
        let expected = tick % 5 == 0;
        assert_eq!(sched.should_refresh_telemetry(5), expected, "tick {}", tick);
        sched.tick_logic();
    }
}

#[test]
fn divisor_one_fires_always() {
    let mut sched = Scheduler::new();
    for _ in 0..4 {
        assert!(sched.should_refresh_telemetry(1));
        sched.tick_logic();
    }
}

#[test]
fn counters_advance_independently() {
    let mut sched = Scheduler::new();
    sched.tick_logic();
    sched.tick_logic();
    sched.tick_frame();
    assert_eq!(sched.logic_count(), 2);
    assert_eq!(sched.frame_count(), 1);
}

#[test]
fn reload_controller_is_a_single_pulse() {
    let mut rc = ReloadController::new();
    assert!(!rc.is_reloading());
    rc.begin();
    assert!(rc.is_reloading());
    rc.settle();
    assert!(!rc.is_reloading());
}

#[test]
fn key_map_actions() {
    let mut app = LoopFetch::init("");
    assert_eq!(app.handle_key(KeyEventKind::Press, KeyCode::Char('q')), Action::Exit);
    assert_eq!(app.handle_key(KeyEventKind::Press, KeyCode::Char('d')), Action::ToggleDebug);
    assert_eq!(app.handle_key(KeyEventKind::Press, KeyCode::Char('r')), Action::Reload);
    assert_eq!(app.handle_key(KeyEventKind::Press, KeyCode::Char('x')), Action::Ignored);
    assert_eq!(app.handle_key(KeyEventKind::Press, KeyCode::Other), Action::Ignored);
}

#[test]
fn only_presses_are_actionable() {
    let mut app = LoopFetch::init("");
    assert_eq!(app.handle_key(KeyEventKind::Release, KeyCode::Char('q')), Action::Ignored);
    assert_eq!(app.handle_key(KeyEventKind::Repeat, KeyCode::Up), Action::Ignored);
    assert_eq!(app.settings.layout(), Layout::Horizontal);
}

#[test]
fn arrow_keys_toggle_axes() {
    let mut app = LoopFetch::init("");
    assert_eq!(app.handle_key(KeyEventKind::Press, KeyCode::Up), Action::LayoutToggled);
    assert_eq!(app.settings.layout(), Layout::Vertical);
    assert_eq!(app.handle_key(KeyEventKind::Press, KeyCode::Down), Action::LayoutToggled);
    assert_eq!(app.settings.layout(), Layout::Horizontal);
    assert_eq!(app.handle_key(KeyEventKind::Press, KeyCode::Left), Action::OrderToggled);
    assert_eq!(app.settings.order(), Order::AsciiFirst);
    assert_eq!(app.handle_key(KeyEventKind::Press, KeyCode::Right), Action::OrderToggled);
    assert_eq!(app.settings.order(), Order::InfoFirst);
}

#[test]
fn begin_tick_follows_the_default_divisor() {
    let mut app = LoopFetch::init("");
    // Default divisor is 3: the first two passes skip, the third refreshes.
    assert!(!app.begin_tick());
    assert!(!app.begin_tick());
    assert!(app.begin_tick());
    assert!(!app.begin_tick());
}
