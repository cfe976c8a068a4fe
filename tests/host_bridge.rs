use autosplitter::{Level, Logger, Runtime, Splitter, TimerState};

#[test]
fn timer_state_codes() {
    assert_eq!(TimerState::from_raw(0), Some(TimerState::NotRunning));
    assert_eq!(TimerState::from_raw(1), Some(TimerState::Running));
    assert_eq!(TimerState::from_raw(2), Some(TimerState::Paused));
    assert_eq!(TimerState::from_raw(3), Some(TimerState::Ended));
}

#[test]
fn timer_state_unknown_code() {
    assert_eq!(TimerState::from_raw(4), None);
    assert_eq!(TimerState::from_raw(u32::MAX), None);
}

#[test]
fn error_message_has_error_glyph() {
    assert_eq!(Logger.format(Level::Error, "x"), Some("\u{26D4} x".to_string()));
}

#[test]
fn info_message_is_unchanged() {
    assert_eq!(Logger.format(Level::Info, "x"), Some("x".to_string()));
}

#[test]
fn warning_message_has_warning_glyph() {
    assert_eq!(
        Logger.format(Level::Warn, "low memory"),
        Some("\u{26A0}\u{FE0F} low memory".to_string())
    );
}

#[test]
fn debug_and_trace_are_suppressed() {
    assert_eq!(Logger.format(Level::Debug, "x"), None);
    assert_eq!(Logger.format(Level::Trace, "x"), None);
}

#[test]
fn enabled_levels() {
    assert!(Logger.enabled(Level::Error));
    assert!(Logger.enabled(Level::Warn));
    assert!(Logger.enabled(Level::Info));
    assert!(!Logger.enabled(Level::Debug));
    assert!(!Logger.enabled(Level::Trace));
}

struct Counter {
    updates: u32,
}

impl Splitter for Counter {
    fn new() -> Self {
        Counter { updates: 0 }
    }

    fn update(&mut self) {
        self.updates += 1;
    }
}

#[test]
fn setup_happens_once_over_ticks() {
    let mut rt: Runtime<Counter> = Runtime::new();
    let mut setups = 0;
    for _ in 0..5 {
        if rt.needs_setup() {
            setups += 1;
        }
        rt.tick();
    }
    assert_eq!(setups, 1);
    assert!(rt.started());
    assert_eq!(rt.splitter().unwrap().updates, 5);
}

#[test]
fn fresh_runtime_is_not_started() {
    let rt: Runtime<Counter> = Runtime::new();
    assert!(!rt.started());
    assert!(rt.needs_setup());
    assert!(rt.splitter().is_none());
}
