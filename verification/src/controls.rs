//! Keyboard controls: which key does what, and what the main loop does next.
use vstd::prelude::*;

verus! {

/// What the user asked for in one poll of the keyboard.
#[derive(Debug, Clone, Copy, PartialEq, Eq, Structural)]
pub enum Action {
    /// Leave the player.
    Quit,
    /// Pause a playing track or resume a paused one.
    TogglePause,
    /// Nothing to do: no key, or a key without a meaning.
    Nothing,
}

/// The key of a keyboard event, as far as the controls tell keys apart.
#[derive(Debug, Clone, Copy, PartialEq, Eq, Structural)]
pub enum Key {
    /// A character key.
    Char(char),
    /// The escape key.
    Esc,
    /// Any other key.
    Other,
}

/// Whether a key event is a press, a repeat or a release.
#[derive(Debug, Clone, Copy, PartialEq, Eq, Structural)]
pub enum KeyKind {
    Press,
    Repeat,
    Release,
}

/// One keyboard event.
#[derive(Debug, Clone, Copy, PartialEq, Eq, Structural)]
pub struct KeyInput {
    pub key: Key,
    pub kind: KeyKind,
}

/// The action a key stands for when it is pressed.
pub open spec fn key_action(key: Key) -> Action {
    match key {
        Key::Char(c) => if c == 'q' {
            Action::Quit
        } else if c == ' ' || c == 'p' {
            Action::TogglePause
        } else {
            Action::Nothing
        },
        Key::Esc => Action::Quit,
        Key::Other => Action::Nothing,
    }
}

/// The action for the outcome of one poll: only a key press acts; no event,
/// an event that is not a key, a repeat or a release does nothing.
pub open spec fn input_action(input: Option<KeyInput>) -> Action {
    match input {
        Some(k) => if k.kind == KeyKind::Press {
            key_action(k.key)
        } else {
            Action::Nothing
        },
        None => Action::Nothing,
    }
}

/// Maps the outcome of one keyboard poll to an action: `q` and Esc quit,
/// space and `p` pause or resume, anything else does nothing.
pub fn action_for_input(input: Option<KeyInput>) -> (action: Action)
    ensures
        action == input_action(input),
        input is None ==> action == Action::Nothing,
        (input matches Some(k) && k.kind != KeyKind::Press) ==> action == Action::Nothing,
        action == Action::Quit <==> (input matches Some(k) && k.kind == KeyKind::Press && (k.key
            == Key::Esc || k.key == Key::Char('q'))),
        action == Action::TogglePause <==> (input matches Some(k) && k.kind == KeyKind::Press && (
        k.key == Key::Char(' ') || k.key == Key::Char('p'))),
{
    match input {
        Some(k) => {
            if k.kind != KeyKind::Press {
                return Action::Nothing;
            }
            match k.key {
                Key::Char(c) => {
                    if c == 'q' {
                        Action::Quit
                    } else if c == ' ' || c == 'p' {
                        Action::TogglePause
                    } else {
                        Action::Nothing
                    }
                },
                Key::Esc => Action::Quit,
                Key::Other => Action::Nothing,
            }
        },
        None => Action::Nothing,
    }
}

/// What the main loop does after a poll.
#[derive(Debug, Clone, Copy, PartialEq, Eq, Structural)]
pub enum Command {
    /// Leave the loop.
    Quit,
    /// Resume playback.
    Play,
    /// Pause playback.
    Pause,
    /// Draw the next frame.
    Continue,
}

/// The main loop's response to an action, given whether playback is paused.
pub open spec fn command_for(action: Action, paused: bool) -> Command {
    match action {
        Action::Quit => Command::Quit,
        Action::TogglePause => if paused {
            Command::Play
        } else {
            Command::Pause
        },
        Action::Nothing => Command::Continue,
    }
}

/// Whether playback is paused after a command is carried out.
pub open spec fn paused_after(command: Command, paused: bool) -> bool {
    match command {
        Command::Play => false,
        Command::Pause => true,
        _ => paused,
    }
}

/// Decides what the main loop does with an action: quit, toggle the pause
/// (resume a paused player, pause a playing one) or go on drawing.
pub fn next_command(action: Action, paused: bool) -> (command: Command)
    ensures
        command == command_for(action, paused),
        command == Command::Quit <==> action == Action::Quit,
        command == Command::Play <==> (action == Action::TogglePause && paused),
        command == Command::Pause <==> (action == Action::TogglePause && !paused),
        command == Command::Continue <==> action == Action::Nothing,
{
    match action {
        Action::Quit => Command::Quit,
        Action::TogglePause => {
            if paused {
                Command::Play
            } else {
                Command::Pause
            }
        },
        Action::Nothing => Command::Continue,
    }
}

/// Pausing flips with each toggle, and toggling twice gives back the state
/// that playback started in; an action that is not a toggle leaves it alone.
pub proof fn lemma_toggle_twice(paused: bool)
    ensures
        paused_after(command_for(Action::TogglePause, paused), paused) == !paused,
        ({
            let once = paused_after(command_for(Action::TogglePause, paused), paused);
            paused_after(command_for(Action::TogglePause, once), once) == paused
        }),
        paused_after(command_for(Action::Nothing, paused), paused) == paused,
{
}

/// Only a key press acts: no event, a repeat or a release does nothing, so
/// one press of a key acts once. Space and `p` pressed toggle the pause and
/// nothing else does; `q` and Esc pressed quit and nothing else does.
pub proof fn lemma_key_bindings(input: Option<KeyInput>)
    ensures
        input is None ==> input_action(input) == Action::Nothing,
        (input matches Some(k) && k.kind != KeyKind::Press) ==> input_action(input)
            == Action::Nothing,
        input_action(input) == Action::TogglePause <==> (input matches Some(k) && k.kind
            == KeyKind::Press && (k.key == Key::Char(' ') || k.key == Key::Char('p'))),
        input_action(input) == Action::Quit <==> (input matches Some(k) && k.kind == KeyKind::Press
            && (k.key == Key::Esc || k.key == Key::Char('q'))),
{
}

/// Toggling resumes exactly a paused player and pauses exactly a playing one,
/// and only a toggle changes whether playback is paused.
pub proof fn lemma_toggle_flips(action: Action, paused: bool)
    ensures
        command_for(action, paused) == Command::Play <==> (action == Action::TogglePause && paused),
        command_for(action, paused) == Command::Pause <==> (action == Action::TogglePause
            && !paused),
        command_for(action, paused) == Command::Quit <==> action == Action::Quit,
        paused_after(command_for(action, paused), paused) == (if action == Action::TogglePause {
            !paused
        } else {
            paused
        }),
{
}

/// The main loop ends exactly when the user pressed `q` or Esc.
pub proof fn lemma_quit_only_on_quit_keys(input: Option<KeyInput>, paused: bool)
    ensures
        command_for(input_action(input), paused) == Command::Quit <==> (input matches Some(k) && k.kind
            == KeyKind::Press && (k.key == Key::Esc || k.key == Key::Char('q'))),
{
}

/// The text shown when the program is started without an audio file.
pub fn usage() -> (text: String)
    ensures
        text@ == "usage: tui-wav <audio-file>\n\nplay a wav/mp3/flac/ogg/m4a file and render a live FFT spectrum in the terminal.\nkeys: space pause/resume \u{b7} q quit"@,
{
    String::from_str(
        "usage: tui-wav <audio-file>\n\nplay a wav/mp3/flac/ogg/m4a file and render a live FFT spectrum in the terminal.\nkeys: space pause/resume \u{b7} q quit",
    )
}

} // verus!
