use tui_wav::controls::{
    action_for_input, next_command, usage, Action, Command, Key, KeyInput, KeyKind,
};

fn press(key: Key) -> Option<KeyInput> {
    Some(KeyInput { key, kind: KeyKind::Press })
}

#[test]
fn quit_keys() {
    assert_eq!(action_for_input(press(Key::Char('q'))), Action::Quit);
    assert_eq!(action_for_input(press(Key::Esc)), Action::Quit);
}

#[test]
fn pause_keys() {
    assert_eq!(action_for_input(press(Key::Char(' '))), Action::TogglePause);
    assert_eq!(action_for_input(press(Key::Char('p'))), Action::TogglePause);
}

#[test]
fn other_keys_do_nothing() {
    assert_eq!(action_for_input(press(Key::Char('Q'))), Action::Nothing);
    assert_eq!(action_for_input(press(Key::Char('x'))), Action::Nothing);
    assert_eq!(action_for_input(press(Key::Other)), Action::Nothing);
    assert_eq!(action_for_input(None), Action::Nothing);
}

#[test]
fn only_presses_act() {
    for kind in [KeyKind::Repeat, KeyKind::Release] {
        assert_eq!(action_for_input(Some(KeyInput { key: Key::Char('q'), kind })), Action::Nothing);
        assert_eq!(action_for_input(Some(KeyInput { key: Key::Esc, kind })), Action::Nothing);
        assert_eq!(action_for_input(Some(KeyInput { key: Key::Char(' '), kind })), Action::Nothing);
    }
}

#[test]
fn main_loop_commands() {
    assert_eq!(next_command(Action::Quit, false), Command::Quit);
    assert_eq!(next_command(Action::Quit, true), Command::Quit);
    assert_eq!(next_command(Action::TogglePause, false), Command::Pause);
    assert_eq!(next_command(Action::TogglePause, true), Command::Play);
    assert_eq!(next_command(Action::Nothing, true), Command::Continue);
    assert_eq!(next_command(Action::Nothing, false), Command::Continue);
}

#[test]
fn toggling_twice_restores_pause_state() {
    for start in [false, true] {
        let mut paused = start;
        for _ in 0..2 {
            match next_command(Action::TogglePause, paused) {
                Command::Play => paused = false,
                Command::Pause => paused = true,
                _ => unreachable!(),
            }
        }
        assert_eq!(paused, start);
    }
}

#[test]
fn usage_text() {
    assert_eq!(
        usage(),
        "usage: tui-wav <audio-file>\n\n\
         play a wav/mp3/flac/ogg/m4a file and render a live FFT spectrum in the terminal.\n\
         keys: space pause/resume · q quit"
    );
}
