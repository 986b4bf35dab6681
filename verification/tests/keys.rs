use md_hardware::session::{
    decode_key, Effect, InputFocusElement, Key, KeyAction, KeyPress, Mode, Session, SessionState,
};

fn plain(key: Key) -> KeyPress {
    KeyPress {
        key,
        control: false,
    }
}

fn with_control(key: Key) -> KeyPress {
    KeyPress { key, control: true }
}

const MODES: [Mode; 3] = [Mode::Input, Mode::Chart, Mode::Finished];

#[test]
fn q_quits_in_every_mode() {
    for mode in MODES {
        assert_eq!(decode_key(mode, plain(Key::Char('q'))), Some(KeyAction::Quit));
        assert_eq!(decode_key(mode, plain(Key::Char('Q'))), Some(KeyAction::Quit));
        assert_eq!(
            decode_key(mode, with_control(Key::Char('q'))),
            Some(KeyAction::Quit)
        );
    }
}

#[test]
fn control_c_quits_and_plain_c_does_not() {
    for mode in MODES {
        assert_eq!(
            decode_key(mode, with_control(Key::Char('c'))),
            Some(KeyAction::Quit)
        );
    }
    assert_eq!(
        decode_key(Mode::Input, plain(Key::Char('c'))),
        Some(KeyAction::Digit('c'))
    );
    assert_eq!(decode_key(Mode::Chart, plain(Key::Char('c'))), None);
    assert_eq!(decode_key(Mode::Finished, plain(Key::Char('c'))), None);
    assert_eq!(
        decode_key(Mode::Input, with_control(Key::Char('C'))),
        Some(KeyAction::Digit('C'))
    );
}

#[test]
fn keys_of_the_form() {
    let expected = [
        (Key::Char('7'), Some(KeyAction::Digit('7'))),
        (Key::Char('x'), Some(KeyAction::Digit('x'))),
        (Key::Backspace, Some(KeyAction::EraseLast)),
        (Key::Tab, Some(KeyAction::CycleFocus)),
        (Key::Down, Some(KeyAction::MoveDown)),
        (Key::Left, Some(KeyAction::MoveDown)),
        (Key::Up, Some(KeyAction::MoveUp)),
        (Key::Right, Some(KeyAction::MoveUp)),
        (Key::Enter, Some(KeyAction::Confirm)),
        (Key::Esc, None),
        (Key::Other, None),
    ];
    for (key, action) in expected {
        assert_eq!(decode_key(Mode::Input, plain(key)), action);
    }
    assert_eq!(
        decode_key(Mode::Input, with_control(Key::Char('5'))),
        Some(KeyAction::Digit('5'))
    );
}

#[test]
fn keys_of_a_run_in_progress() {
    let expected = [
        (Key::Esc, Some(KeyAction::Back)),
        (Key::Char('7'), None),
        (Key::Backspace, None),
        (Key::Tab, None),
        (Key::Down, None),
        (Key::Left, None),
        (Key::Up, None),
        (Key::Right, None),
        (Key::Enter, None),
        (Key::Other, None),
    ];
    for (key, action) in expected {
        assert_eq!(decode_key(Mode::Chart, plain(key)), action);
    }
}

#[test]
fn keys_of_the_popup() {
    let expected = [
        (Key::Enter, Some(KeyAction::Confirm)),
        (Key::Up, Some(KeyAction::MoveUp)),
        (Key::Down, Some(KeyAction::MoveDown)),
        (Key::Tab, Some(KeyAction::CycleFocus)),
        (Key::Esc, Some(KeyAction::Back)),
        (Key::Left, None),
        (Key::Right, None),
        (Key::Char('7'), None),
        (Key::Backspace, None),
        (Key::Other, None),
    ];
    for (key, action) in expected {
        assert_eq!(decode_key(Mode::Finished, plain(key)), action);
    }
}

#[test]
fn key_presses_drive_a_whole_session() {
    let mut session = Session::new(0, 2, Vec::new());
    for key in [Key::Tab, Key::Char('3'), Key::Char('x'), Key::Tab, Key::Right, Key::Tab] {
        assert!(session.handle_key_press(plain(key), 0).is_empty());
    }
    assert_eq!(
        session.state(),
        &SessionState::Configuring {
            input_text: "3".to_string(),
            focus: InputFocusElement::OkButton,
            selected_cpu_count: 2,
        }
    );
    let effects = session.handle_key_press(plain(Key::Enter), 100);
    assert_eq!(effects.len(), 1);
    assert!(matches!(effects[0], Effect::SpawnEngine(config)
        if config.duration_secs == 3 && config.worker_count == 2));
    assert_eq!(session.mode(), Mode::Chart);

    let before = session.clone();
    for key in [Key::Enter, Key::Tab, Key::Char('1'), Key::Left, Key::Other] {
        assert!(session.handle_key_press(plain(key), 200).is_empty());
        assert_eq!(session, before);
    }
    assert!(session.engine_finished(Some(12)));

    let before = session.clone();
    for key in [Key::Left, Key::Right, Key::Char('1'), Key::Backspace] {
        assert!(session.handle_key_press(plain(key), 300).is_empty());
        assert_eq!(session, before);
    }
    assert!(session.handle_key_press(plain(Key::Down), 300).is_empty());
    assert_eq!(
        session.handle_key_press(plain(Key::Enter), 300),
        vec![Effect::Exit]
    );
    assert!(session.handle_key_press(plain(Key::Up), 300).is_empty());
    assert_eq!(
        session.handle_key_press(plain(Key::Enter), 300),
        vec![Effect::ResetTelemetry]
    );
    assert_eq!(session.mode(), Mode::Input);
}

#[test]
fn escape_leaves_a_run_and_a_popup_but_not_the_form() {
    let mut session = Session::new(0, 2, Vec::new());
    assert!(session.handle_key_press(plain(Key::Esc), 0).is_empty());
    assert_eq!(session.mode(), Mode::Input);
    for key in [Key::Tab, Key::Char('9'), Key::Tab, Key::Tab, Key::Enter] {
        session.handle_key_press(plain(key), 0);
    }
    assert_eq!(session.mode(), Mode::Chart);
    assert_eq!(
        session.handle_key_press(plain(Key::Esc), 50),
        vec![Effect::CancelEngine, Effect::ResetTelemetry]
    );
    assert_eq!(session.mode(), Mode::Input);
    for key in [Key::Tab, Key::Char('9'), Key::Tab, Key::Tab, Key::Enter] {
        session.handle_key_press(plain(key), 0);
    }
    session.engine_finished(None);
    assert_eq!(
        session.handle_key_press(plain(Key::Esc), 50),
        vec![Effect::Exit]
    );
    assert_eq!(session.mode(), Mode::Finished);
}

#[test]
fn control_c_cancels_a_run_in_progress() {
    let mut session = Session::new(0, 2, Vec::new());
    for key in [Key::Tab, Key::Char('9'), Key::Tab, Key::Tab, Key::Enter] {
        session.handle_key_press(plain(key), 0);
    }
    assert_eq!(
        session.handle_key_press(with_control(Key::Char('c')), 10),
        vec![Effect::CancelEngine, Effect::Exit]
    );
    assert_eq!(session.mode(), Mode::Chart);
}
