//! What a key press on the login screen does.
use vstd::prelude::*;
use crate::power::PowerAction;
use crate::state::FerriteState;

verus! {

/// Whether the program goes on after an event.
#[derive(Clone, Copy, Debug, PartialEq, Eq, Structural)]
pub enum Action {
    Continue,
    Quit,
}

/// The keys the login screen tells apart.
#[derive(Clone, Copy, Debug, PartialEq, Eq, Structural)]
pub enum Key {
    Esc,
    Up,
    Down,
    Left,
    Right,
    Enter,
    F(u8),
    Other,
}

/// What the screen does with a key.
#[derive(Clone, Copy, Debug, PartialEq, Eq, Structural)]
pub enum KeyCommand {
    Quit,
    FocusNext,
    FocusPrev,
    Submit,
    Power(PowerAction),
    /// Handed to the focused field.
    Forward,
}

pub open spec fn command_for(key: Key) -> KeyCommand {
    match key {
        Key::Esc => KeyCommand::Quit,
        Key::Down => KeyCommand::FocusNext,
        Key::Up => KeyCommand::FocusPrev,
        Key::Enter => KeyCommand::Submit,
        Key::F(n) => if n == 1 {
            KeyCommand::Power(PowerAction::Shutdown)
        } else if n == 2 {
            KeyCommand::Power(PowerAction::Reboot)
        } else {
            KeyCommand::Forward
        },
        _ => KeyCommand::Forward,
    }
}

/// Escape quits, the arrows up and down move the focus, enter submits the
/// form, F1 shuts down and F2 reboots; the focused field gets the rest.
pub fn key_command(key: Key) -> (r: KeyCommand)
    ensures
        r == command_for(key),
{
    match key {
        Key::Esc => KeyCommand::Quit,
        Key::Down => KeyCommand::FocusNext,
        Key::Up => KeyCommand::FocusPrev,
        Key::Enter => KeyCommand::Submit,
        Key::F(n) => if n == 1 {
            KeyCommand::Power(PowerAction::Shutdown)
        } else if n == 2 {
            KeyCommand::Power(PowerAction::Reboot)
        } else {
            KeyCommand::Forward
        },
        _ => KeyCommand::Forward,
    }
}

/// The state remembered after a successful login as `user` into `session`.
pub fn login_record(user: String, session: String) -> (r: FerriteState)
    ensures
        r.version == 1,
        r.last_user == Some(user),
        r.last_session == Some(session),
{
    FerriteState { version: 1, last_user: Some(user), last_session: Some(session) }
}

} // verus!
