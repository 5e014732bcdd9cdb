use tuisample_code::input::{on_input, InputAction, InputEvent, KeyCode, KeyInput, KeyKind};

const SHIFT: u8 = 0b0000_0001;
const CONTROL: u8 = 0b0000_0010;
const ALT: u8 = 0b0000_0100;

fn key(kind: KeyKind, modifiers: u8, code: KeyCode) -> InputEvent<u32> {
    InputEvent::Key(KeyInput { kind, modifiers, code, key: 7 })
}

#[test]
fn control_c_and_control_d_quit() {
    for c in ['c', 'd'] {
        for kind in [KeyKind::Press, KeyKind::Repeat] {
            for modifiers in [CONTROL, CONTROL | SHIFT, CONTROL | ALT, 0xff] {
                assert_eq!(on_input(key(kind, modifiers, KeyCode::Char(c))), InputAction::Quit);
            }
        }
    }
}

#[test]
fn the_control_bit_is_the_one_of_the_terminal_crate() {
    let control = crossterm::event::KeyModifiers::CONTROL.bits();
    assert_eq!(control, CONTROL);
    assert_eq!(on_input(key(KeyKind::Press, control, KeyCode::Char('c'))), InputAction::Quit);
    let others = crossterm::event::KeyModifiers::all().bits() & !control;
    assert_eq!(on_input(key(KeyKind::Press, others, KeyCode::Char('c'))), InputAction::Key(7));
}

#[test]
fn the_same_letters_without_control_are_typed() {
    for modifiers in [0, SHIFT, ALT, SHIFT | ALT, !CONTROL] {
        assert_eq!(
            on_input(key(KeyKind::Press, modifiers, KeyCode::Char('c'))),
            InputAction::Key(7)
        );
    }
}

#[test]
fn other_keys_with_control_are_passed_on() {
    assert_eq!(on_input(key(KeyKind::Press, CONTROL, KeyCode::Char('C'))), InputAction::Key(7));
    assert_eq!(on_input(key(KeyKind::Press, CONTROL, KeyCode::Char('x'))), InputAction::Key(7));
    assert_eq!(on_input(key(KeyKind::Repeat, CONTROL, KeyCode::Other)), InputAction::Key(7));
}

#[test]
fn released_keys_are_ignored() {
    assert_eq!(on_input(key(KeyKind::Release, 0, KeyCode::Char('a'))), InputAction::Ignore);
    assert_eq!(on_input(key(KeyKind::Release, CONTROL, KeyCode::Char('c'))), InputAction::Ignore);
}

#[test]
fn pastes_are_passed_on_and_the_rest_is_ignored() {
    let paste: InputEvent<u32> = InputEvent::Paste("two\nlines".to_string());
    assert_eq!(on_input(paste), InputAction::Paste("two\nlines".to_string()));
    let other: InputEvent<u32> = InputEvent::Other;
    assert_eq!(on_input(other), InputAction::Ignore);
}
