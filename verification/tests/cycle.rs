use crossterm::event::KeyCode;
use crossterm::event::KeyEvent;
use crossterm::event::KeyModifiers;
use crossterm::event::MouseButton;
use crossterm::event::MouseEvent;
use crossterm::event::MouseEventKind;
use tui_wrapper::cycle::conclude;
use tui_wrapper::cycle::remaining_wait;
use tui_wrapper::cycle::step;
use tui_wrapper::cycle::tick_due;
use tui_wrapper::cycle::Outcome;
use tui_wrapper::cycle::Pending;
use tui_wrapper::cycle::Phase;
use tui_wrapper::cycle::Request;
use tui_wrapper::cycle::Step;
use tui_wrapper::event::Event;
use tui_wrapper::span::Span;

fn key(c: char) -> KeyEvent {
    KeyEvent::new(KeyCode::Char(c), KeyModifiers::NONE)
}

fn click() -> MouseEvent {
    MouseEvent {
        kind: MouseEventKind::Down(MouseButton::Left),
        column: 3,
        row: 4,
        modifiers: KeyModifiers::NONE,
    }
}

fn outcomes() -> Vec<Outcome> {
    vec![
        Outcome::Rendered,
        Outcome::Input(Event::Key(key('a'))),
        Outcome::Input(Event::Resize(80, 24)),
        Outcome::Ready,
        Outcome::TimedOut,
        Outcome::Failed,
    ]
}

#[test]
fn into_key_keeps_only_key_events() {
    let k = Event::Key(key('x')).into_key();
    assert!(matches!(k, Some(e) if e.code == KeyCode::Char('x')));
    assert!(Event::FocusGained.into_key().is_none());
    assert!(Event::FocusLost.into_key().is_none());
    assert!(Event::Mouse(click()).into_key().is_none());
    assert!(Event::Paste(String::from("x")).into_key().is_none());
    assert!(Event::Resize(80, 24).into_key().is_none());
}

#[test]
fn a_drawing_is_followed_by_a_wait() {
    assert!(matches!(step(false, Phase::Running(Pending::Render), Outcome::Rendered), Step::Wait));
    assert!(matches!(step(true, Phase::Running(Pending::Render), Outcome::Rendered), Step::Wait));
}

#[test]
fn a_key_event_read_is_handed_on() {
    for ticked in [false, true] {
        let s = step(ticked, Phase::Running(Pending::Read), Outcome::Input(Event::Key(key('q'))));
        assert!(matches!(s, Step::Settle(Some(e)) if e.code == KeyCode::Char('q')));
    }
}

#[test]
fn other_events_read_are_dropped() {
    for ticked in [false, true] {
        let others = vec![
            Event::FocusGained,
            Event::FocusLost,
            Event::Mouse(click()),
            Event::Paste(String::from("pasted")),
            Event::Resize(120, 40),
        ];
        for event in others {
            let s = step(ticked, Phase::Running(Pending::Read), Outcome::Input(event));
            assert!(matches!(s, Step::Settle(None)));
        }
    }
}

#[test]
fn a_poll_that_finds_input_is_followed_by_a_read() {
    assert!(matches!(step(true, Phase::Running(Pending::Poll), Outcome::Ready), Step::Fetch));
}

#[test]
fn a_poll_that_times_out_settles_without_a_key() {
    assert!(matches!(
        step(true, Phase::Running(Pending::Poll), Outcome::TimedOut),
        Step::Settle(None)
    ));
}

#[test]
fn an_unticked_cycle_never_polls() {
    for outcome in outcomes() {
        assert!(matches!(step(false, Phase::Running(Pending::Poll), outcome), Step::Fault));
    }
}

#[test]
fn a_failure_faults_a_running_cycle() {
    for ticked in [false, true] {
        for pending in [Pending::Render, Pending::Read, Pending::Poll] {
            assert!(matches!(step(ticked, Phase::Running(pending), Outcome::Failed), Step::Fault));
        }
    }
}

#[test]
fn an_outcome_that_answers_nothing_is_a_fault() {
    for ticked in [false, true] {
        assert!(matches!(step(ticked, Phase::Running(Pending::Render), Outcome::Ready), Step::Fault));
        assert!(matches!(
            step(ticked, Phase::Running(Pending::Render), Outcome::Input(Event::Key(key('a')))),
            Step::Fault
        ));
        assert!(matches!(step(ticked, Phase::Running(Pending::Read), Outcome::Rendered), Step::Fault));
        assert!(matches!(step(ticked, Phase::Running(Pending::Read), Outcome::TimedOut), Step::Fault));
        assert!(matches!(step(ticked, Phase::Running(Pending::Poll), Outcome::Rendered), Step::Fault));
        for outcome in outcomes() {
            assert!(matches!(step(ticked, Phase::Idle, outcome), Step::Fault));
        }
    }
}

#[test]
fn a_stopped_cycle_stays_stopped() {
    for ticked in [false, true] {
        for outcome in outcomes() {
            assert!(matches!(step(ticked, Phase::Terminated, outcome), Step::Rest));
        }
        for outcome in outcomes() {
            assert!(matches!(step(ticked, Phase::Faulted, outcome), Step::Fault));
        }
    }
}

#[test]
fn conclude_stops_a_closed_application() {
    assert_eq!(conclude(true), (Phase::Terminated, Request::Finish));
}

#[test]
fn conclude_draws_an_open_application_again() {
    assert_eq!(conclude(false), (Phase::Running(Pending::Render), Request::Render));
}

#[test]
fn the_wait_is_what_is_left_of_the_interval() {
    let interval = Span::from_millis(50);
    assert_eq!(remaining_wait(interval, Span::zero()), Span::from_millis(50));
    assert_eq!(remaining_wait(interval, Span::from_millis(20)), Span::from_millis(30));
    assert_eq!(remaining_wait(interval, Span::new(0, 49_999_999).unwrap()), Span::new(0, 1).unwrap());
    assert_eq!(remaining_wait(interval, Span::from_millis(50)), Span::zero());
}

#[test]
fn the_wait_is_never_negative() {
    let interval = Span::from_millis(50);
    assert_eq!(remaining_wait(interval, Span::from_millis(51)), Span::zero());
    assert_eq!(remaining_wait(interval, Span::from_secs(3_600)), Span::zero());
    assert_eq!(remaining_wait(Span::zero(), Span::from_millis(1)), Span::zero());
    assert_eq!(remaining_wait(Span::zero(), Span::zero()), Span::zero());
}

#[test]
fn a_tick_is_due_once_the_interval_has_passed() {
    let interval = Span::from_millis(50);
    assert!(!tick_due(interval, Span::zero()));
    assert!(!tick_due(interval, Span::new(0, 49_999_999).unwrap()));
    assert!(tick_due(interval, Span::from_millis(50)));
    assert!(tick_due(interval, Span::from_millis(175)));
}

#[test]
fn an_empty_interval_makes_a_tick_always_due() {
    assert!(tick_due(Span::zero(), Span::zero()));
    assert!(tick_due(Span::zero(), Span::from_millis(3)));
}

#[test]
fn a_full_wait_brings_a_tick() {
    let interval = Span::from_millis(50);
    for before in [0u64, 1, 20, 49, 50, 80] {
        let before = Span::from_millis(before);
        let wait = remaining_wait(interval, before);
        let after = Span::new(0, (before.as_nanos() + wait.as_nanos()) as u32).unwrap();
        assert!(tick_due(interval, after));
    }
}

#[test]
fn ticks_keep_an_interval_apart_on_a_simulated_clock() {
    // One lap every 20 ms against an interval of 50 ms, for one second.
    let interval = Span::from_millis(50);
    let mut last_tick: u64 = 0;
    let mut ticks: u64 = 0;
    let mut now: u64 = 0;
    while now < 1_000 {
        now += 20;
        if tick_due(interval, Span::from_millis(now - last_tick)) {
            ticks += 1;
            last_tick = now;
        }
    }
    // Due at 60, 120, ...: every third lap.
    assert_eq!(ticks, 16);
    assert!(ticks * 50 <= last_tick);
}
