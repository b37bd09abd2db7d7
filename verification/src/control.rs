//! Playback control: which action a line of input from the host asks for.

use crate::text::{trim_end, trim_end_of};
use vstd::prelude::*;
use vstd::string::*;

verus! {

/// What the host can ask of the player.
#[derive(Clone, Copy, Debug, PartialEq, Eq, Structural)]
pub enum ControlAction {
    /// Play if paused, pause if playing.
    TogglePlayback,
    /// Go to the previous track.
    Previous,
    /// Go to the next track.
    Next,
}

impl ControlAction {
    /// The command by which the player is asked for this action.
    pub open spec fn command_of(self) -> Seq<char> {
        match self {
            ControlAction::TogglePlayback => "play-pause"@,
            ControlAction::Previous => "previous"@,
            ControlAction::Next => "next"@,
        }
    }

    /// The command by which the player is asked for this action.
    pub fn command(self) -> (command: &'static str)
        ensures
            command@ == self.command_of(),
    {
        match self {
            ControlAction::TogglePlayback => "play-pause",
            ControlAction::Previous => "previous",
            ControlAction::Next => "next",
        }
    }
}

/// The action that a line of input asks for. The host sends the number of a
/// button and a line end: 1 for the previous track, 2 to toggle playback, 3 for
/// the next track. A line of a single character, or of anything else, asks for
/// nothing.
pub open spec fn control_of(line: Seq<char>) -> Option<ControlAction> {
    let button = trim_end_of(line);
    if line.len() <= 1 {
        None
    } else if button == seq!['2'] {
        Some(ControlAction::TogglePlayback)
    } else if button == seq!['1'] {
        Some(ControlAction::Previous)
    } else if button == seq!['3'] {
        Some(ControlAction::Next)
    } else {
        None
    }
}

/// The action that a line of input asks for, if any.
pub fn control_for(line: &str) -> (action: Option<ControlAction>)
    ensures
        action == control_of(line@),
{
    if line.unicode_len() <= 1 {
        return None;
    }
    let button = trim_end(line).to_owned();
    proof {
        reveal_strlit("1");
        reveal_strlit("2");
        reveal_strlit("3");
        assert("1"@ =~= seq!['1']);
        assert("2"@ =~= seq!['2']);
        assert("3"@ =~= seq!['3']);
    }
    if button == "2".to_owned() {
        Some(ControlAction::TogglePlayback)
    } else if button == "1".to_owned() {
        Some(ControlAction::Previous)
    } else if button == "3".to_owned() {
        Some(ControlAction::Next)
    } else {
        None
    }
}

} // verus!
