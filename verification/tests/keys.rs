use ephosh::event::Event;
use ephosh::input::{Config, InputMode, TerminalEvent};
use ephosh::key::{Key, KeyCode, KeyPress, Keystroke, ALT, CONTROL, SHIFT};

fn press(code: KeyCode, modifiers: u8) -> KeyPress {
    KeyPress { code, modifiers }
}

#[test]
fn control_alone_makes_a_control_key() {
    assert_eq!(Key::from(press(KeyCode::Char('c'), CONTROL)), Key::Ctrl('c'));
}

#[test]
fn other_modifiers_leave_a_character() {
    assert_eq!(Key::from(press(KeyCode::Char('c'), 0)), Key::Char('c'));
    assert_eq!(Key::from(press(KeyCode::Char('C'), SHIFT)), Key::Char('C'));
    assert_eq!(Key::from(press(KeyCode::Char('c'), ALT)), Key::Char('c'));
    assert_eq!(Key::from(press(KeyCode::Char('c'), CONTROL | SHIFT)), Key::Char('c'));
}

#[test]
fn escape_is_escape_whatever_is_held() {
    assert_eq!(Key::from(press(KeyCode::Esc, 0)), Key::Esc);
    assert_eq!(Key::from(press(KeyCode::Esc, CONTROL)), Key::Esc);
}

#[test]
fn other_keys_are_unknown() {
    assert_eq!(Key::from(press(KeyCode::Enter, 0)), Key::Unknown);
    assert_eq!(Key::from(press(KeyCode::Backspace, 0)), Key::Unknown);
    assert_eq!(Key::from(press(KeyCode::Left, CONTROL)), Key::Unknown);
    assert_eq!(Key::from(press(KeyCode::Other, 0)), Key::Unknown);
}

#[test]
fn keystrokes_name_editing_and_moving_keys() {
    assert_eq!(Keystroke::from_press(press(KeyCode::Enter, 0)), Keystroke::Enter);
    assert_eq!(Keystroke::from_press(press(KeyCode::Backspace, 0)), Keystroke::Backspace);
    assert_eq!(Keystroke::from_press(press(KeyCode::Left, 0)), Keystroke::Left);
    assert_eq!(Keystroke::from_press(press(KeyCode::Right, SHIFT)), Keystroke::Right);
    assert_eq!(Keystroke::from_press(press(KeyCode::Up, 0)), Keystroke::Up);
    assert_eq!(Keystroke::from_press(press(KeyCode::Down, 0)), Keystroke::Down);
}

#[test]
fn keystrokes_name_the_controls() {
    assert_eq!(Keystroke::from_press(press(KeyCode::Esc, 0)), Keystroke::SwitchMode);
    assert_eq!(Keystroke::from_press(press(KeyCode::Char('p'), CONTROL)), Keystroke::PreviousPane);
    assert_eq!(Keystroke::from_press(press(KeyCode::Char('n'), CONTROL)), Keystroke::NextPane);
    assert_eq!(Keystroke::from_press(press(KeyCode::Char('x'), CONTROL)), Keystroke::Other);
    assert_eq!(Keystroke::from_press(press(KeyCode::Other, 0)), Keystroke::Other);
}

#[test]
fn keystrokes_pass_characters_on() {
    assert_eq!(Keystroke::from_press(press(KeyCode::Char('p'), 0)), Keystroke::Char('p'));
    assert_eq!(Keystroke::from_press(press(KeyCode::Char('n'), ALT)), Keystroke::Char('n'));
}

#[test]
fn reading_ends_with_the_exit_key() {
    let config = Config::default();
    assert_eq!(config.exit_key, Key::Char('q'));
    assert_eq!(config.tick_rate, 150);
    assert!(config.ends_input(&TerminalEvent::Input(Key::Char('q')), false));
    assert!(!config.ends_input(&TerminalEvent::Input(Key::Char('q')), true));
    assert!(!config.ends_input(&TerminalEvent::Input(Key::Char('x')), false));
    assert!(!config.ends_input(&TerminalEvent::Input(Key::Ctrl('q')), false));
    assert!(!config.ends_input(&TerminalEvent::Tick, false));
}

#[test]
fn events_and_modes_compare() {
    assert_eq!(Event::Input(3), Event::Input(3));
    assert_ne!(Event::Input(3), Event::Tick);
    assert_ne!(TerminalEvent::Input('a'), TerminalEvent::Tick);
    assert_ne!(InputMode::Command, InputMode::Interact);
}
