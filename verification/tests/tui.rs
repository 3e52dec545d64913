use gitlab_tui::key::{KeyCode, KeyEvent};
use gitlab_tui::tui::{
    enter, exit, read, stop_step, tick, Event, Input, MouseEvent, Reading, StopStep,
    TerminalCommand, GRACE_MS, LIMIT_MS, TICK_MS,
};

#[test]
fn key_presses_are_delivered() {
    let key = KeyEvent::new(KeyCode::Char('j'), 0);
    assert_eq!(read(Input::Key { key, pressed: true }), Reading::Deliver(Event::Key(key)));
}

#[test]
fn keys_held_or_let_go_are_passed_over() {
    let key = KeyEvent::new(KeyCode::Char('j'), 0);
    assert_eq!(read(Input::Key { key, pressed: false }), Reading::Skip);
}

#[test]
fn mouse_and_focus_are_delivered() {
    let mouse = MouseEvent { column: 3, row: 4, modifiers: 0 };
    assert_eq!(read(Input::Mouse(mouse)), Reading::Deliver(Event::Mouse(mouse)));
    assert_eq!(read(Input::FocusGained), Reading::Deliver(Event::FocusGained));
    assert_eq!(read(Input::FocusLost), Reading::Deliver(Event::FocusLost));
}

#[test]
fn failures_are_delivered_as_errors() {
    assert_eq!(read(Input::Failed), Reading::Deliver(Event::Error));
}

#[test]
fn other_input_is_passed_over_and_the_end_stops_the_loop() {
    assert_eq!(read(Input::Other), Reading::Skip);
    assert_eq!(read(Input::Ended), Reading::Stop);
}

#[test]
fn waiting_for_the_loop_goes_from_patience_to_force_to_giving_up() {
    assert_eq!(stop_step(0), StopStep { abort: false, give_up: false });
    assert_eq!(stop_step(50), StopStep { abort: false, give_up: false });
    assert_eq!(stop_step(51), StopStep { abort: true, give_up: false });
    assert_eq!(stop_step(100), StopStep { abort: true, give_up: false });
    assert_eq!(stop_step(101), StopStep { abort: true, give_up: true });
    assert_eq!(stop_step(u32::MAX), StopStep { abort: true, give_up: true });
}

#[test]
fn entering_captures_the_mouse_only_on_request() {
    assert_eq!(
        enter(false),
        vec![
            TerminalCommand::EnableRawMode,
            TerminalCommand::EnterAlternateScreen,
            TerminalCommand::HideCursor
        ]
    );
    assert_eq!(
        enter(true),
        vec![
            TerminalCommand::EnableRawMode,
            TerminalCommand::EnterAlternateScreen,
            TerminalCommand::HideCursor,
            TerminalCommand::EnableMouseCapture
        ]
    );
}

#[test]
fn leaving_undoes_what_entering_did() {
    assert_eq!(
        exit(true, false),
        vec![
            TerminalCommand::Flush,
            TerminalCommand::LeaveAlternateScreen,
            TerminalCommand::ShowCursor,
            TerminalCommand::DisableRawMode
        ]
    );
    assert_eq!(
        exit(true, true),
        vec![
            TerminalCommand::Flush,
            TerminalCommand::DisableMouseCapture,
            TerminalCommand::LeaveAlternateScreen,
            TerminalCommand::ShowCursor,
            TerminalCommand::DisableRawMode
        ]
    );
}

#[test]
fn a_terminal_that_is_not_in_raw_mode_needs_no_leaving() {
    assert!(exit(false, false).is_empty());
    assert!(exit(false, true).is_empty());
}

#[test]
fn a_tick_is_followed_by_a_request_to_paint() {
    assert_eq!(tick(), vec![Event::Tick, Event::Render]);
}

#[test]
fn the_intervals_are_as_recommended() {
    assert_eq!(TICK_MS, 100);
    assert_eq!(GRACE_MS, 50);
    assert_eq!(LIMIT_MS, 100);
}
