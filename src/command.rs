//! The commands a user can give, and the keys that give them.
use vstd::prelude::*;

verus! {

/// Character that the escape key stands for.
pub const ESCAPE: char = '\u{1b}';

/// What the user can ask for.
#[derive(Clone, Copy, Debug, PartialEq, Eq)]
pub enum UserCommand {
    Quit,
    TogglePause,
    VolumeUp,
    VolumeDown,
    SearchTrack,
    NextStation,
}

/// The command a key gives, if any.
pub open spec fn command_of(key: char) -> Option<UserCommand> {
    if key == 'q' || key == ESCAPE {
        Some(UserCommand::Quit)
    } else if key == 'p' {
        Some(UserCommand::TogglePause)
    } else if key == 'V' {
        Some(UserCommand::VolumeUp)
    } else if key == 'v' {
        Some(UserCommand::VolumeDown)
    } else if key == 'y' {
        Some(UserCommand::SearchTrack)
    } else if key == 'n' {
        Some(UserCommand::NextStation)
    } else {
        None
    }
}

/// The command a key gives, if any.
pub fn command_for_key(key: char) -> (r: Option<UserCommand>)
    ensures
        r == command_of(key),
{
    if key == 'q' || key == ESCAPE {
        Some(UserCommand::Quit)
    } else if key == 'p' {
        Some(UserCommand::TogglePause)
    } else if key == 'V' {
        Some(UserCommand::VolumeUp)
    } else if key == 'v' {
        Some(UserCommand::VolumeDown)
    } else if key == 'y' {
        Some(UserCommand::SearchTrack)
    } else if key == 'n' {
        Some(UserCommand::NextStation)
    } else {
        None
    }
}

} // verus!
