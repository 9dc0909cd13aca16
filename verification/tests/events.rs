use hg_dashboard::events::{handle_events, InputEvent, KeyKind, POLL_INTERVAL_MILLIS};
use hg_dashboard::focus::KeyCommand;
use hg_dashboard::ui::ActiveFrame;

fn press(symbol: char) -> InputEvent {
    InputEvent::Key { kind: KeyKind::Press, symbol: Some(symbol) }
}

#[test]
fn bound_keys_map_to_their_commands() {
    assert_eq!(press('q').to_command(), KeyCommand::Quit);
    assert_eq!(press('s').to_command(), KeyCommand::FocusStatus);
    assert_eq!(press('l').to_command(), KeyCommand::FocusLog);
    assert_eq!(press('b').to_command(), KeyCommand::ToggleBranchesBookmarks);
}

#[test]
fn other_keys_map_to_noop() {
    for symbol in ['a', 'Q', 'S', 'L', 'B', ' ', '1', '\n', 'é'] {
        assert_eq!(press(symbol).to_command(), KeyCommand::NoOp);
    }
    let arrow = InputEvent::Key { kind: KeyKind::Press, symbol: None };
    assert_eq!(arrow.to_command(), KeyCommand::NoOp);
}

#[test]
fn release_and_repeat_map_to_noop() {
    for symbol in ['q', 's', 'l', 'b'] {
        for kind in [KeyKind::Release, KeyKind::Repeat] {
            let event = InputEvent::Key { kind, symbol: Some(symbol) };
            assert_eq!(event.to_command(), KeyCommand::NoOp);
        }
    }
}

#[test]
fn idle_and_other_events_map_to_noop() {
    assert_eq!(InputEvent::Idle.to_command(), KeyCommand::NoOp);
    assert_eq!(InputEvent::Other.to_command(), KeyCommand::NoOp);
}

#[test]
fn only_pressing_q_ends_the_loop() {
    let mut focus = ActiveFrame::Log;
    assert!(handle_events(&mut focus, press('q')));
    assert_eq!(focus, ActiveFrame::Log);
    for event in [
        InputEvent::Idle,
        InputEvent::Other,
        press('s'),
        press('l'),
        press('b'),
        press('x'),
        InputEvent::Key { kind: KeyKind::Release, symbol: Some('q') },
        InputEvent::Key { kind: KeyKind::Repeat, symbol: Some('q') },
        InputEvent::Key { kind: KeyKind::Press, symbol: None },
    ] {
        assert!(!handle_events(&mut focus, event));
    }
}

#[test]
fn handle_events_moves_the_focus() {
    let mut focus = ActiveFrame::Status;
    assert!(!handle_events(&mut focus, press('b')));
    assert_eq!(focus, ActiveFrame::Branches);
    assert!(!handle_events(&mut focus, press('b')));
    assert_eq!(focus, ActiveFrame::Bookmarks);
    assert!(!handle_events(&mut focus, press('l')));
    assert_eq!(focus, ActiveFrame::Log);
    assert!(!handle_events(&mut focus, press('b')));
    assert_eq!(focus, ActiveFrame::Branches);
    assert!(!handle_events(&mut focus, press('s')));
    assert_eq!(focus, ActiveFrame::Status);
}

#[test]
fn unrecognized_input_keeps_the_focus() {
    for start in [ActiveFrame::Status, ActiveFrame::Branches, ActiveFrame::Bookmarks, ActiveFrame::Log]
    {
        for event in [
            InputEvent::Idle,
            InputEvent::Other,
            press('x'),
            press('B'),
            InputEvent::Key { kind: KeyKind::Release, symbol: Some('b') },
            InputEvent::Key { kind: KeyKind::Repeat, symbol: Some('s') },
            InputEvent::Key { kind: KeyKind::Press, symbol: None },
        ] {
            let mut focus = start;
            assert!(!handle_events(&mut focus, event));
            assert_eq!(focus, start);
        }
    }
}

#[test]
fn poll_interval_is_fifty_milliseconds() {
    assert_eq!(POLL_INTERVAL_MILLIS, 50);
}
