//! Playback status: the closed set of states a player can report.

use vstd::prelude::*;
use vstd::string::*;

verus! {

/// What the player is doing.
#[derive(Clone, Copy, Debug, PartialEq, Eq, Structural)]
pub enum PlaybackStatus {
    Playing,
    Paused,
    Stopped,
}

/// The status that a status word stands for: `Playing` and `Paused` for their
/// exact names, `Stopped` for every other text.
pub open spec fn status_of(word: Seq<char>) -> PlaybackStatus {
    if word == "Playing"@ {
        PlaybackStatus::Playing
    } else if word == "Paused"@ {
        PlaybackStatus::Paused
    } else {
        PlaybackStatus::Stopped
    }
}

/// The glyph shown in front of the text for each status.
pub open spec fn glyph_of(status: PlaybackStatus) -> char {
    match status {
        PlaybackStatus::Playing => '\u{23f5}',
        PlaybackStatus::Paused => '\u{23f8}',
        PlaybackStatus::Stopped => '\u{23f9}',
    }
}

impl PlaybackStatus {
    /// The word by which the watcher reports this status.
    pub open spec fn word(self) -> Seq<char> {
        match self {
            PlaybackStatus::Playing => "Playing"@,
            PlaybackStatus::Paused => "Paused"@,
            PlaybackStatus::Stopped => "Stopped"@,
        }
    }

    /// The glyph shown in front of the text, as a string of one character.
    pub fn glyph(self) -> (s: &'static str)
        ensures
            s@ == seq![glyph_of(self)],
    {
        proof {
            reveal_strlit("\u{23f5}");
            reveal_strlit("\u{23f8}");
            reveal_strlit("\u{23f9}");
            assert("\u{23f5}"@ =~= seq!['\u{23f5}']);
            assert("\u{23f8}"@ =~= seq!['\u{23f8}']);
            assert("\u{23f9}"@ =~= seq!['\u{23f9}']);
        }
        match self {
            PlaybackStatus::Playing => "\u{23f5}",
            PlaybackStatus::Paused => "\u{23f8}",
            PlaybackStatus::Stopped => "\u{23f9}",
        }
    }

    /// The word by which the watcher reports this status.
    pub fn as_str(self) -> (s: &'static str)
        ensures
            s@ == self.word(),
    {
        match self {
            PlaybackStatus::Playing => "Playing",
            PlaybackStatus::Paused => "Paused",
            PlaybackStatus::Stopped => "Stopped",
        }
    }
}

/// Maps a status word to its status. The match is exact and case-sensitive;
/// a word that names no status maps to `Stopped`.
pub fn status_from(word: &str) -> (status: PlaybackStatus)
    ensures
        status == status_of(word@),
{
    let w = word.to_owned();
    if w == "Playing".to_owned() {
        PlaybackStatus::Playing
    } else if w == "Paused".to_owned() {
        PlaybackStatus::Paused
    } else {
        PlaybackStatus::Stopped
    }
}

/// A word that is neither `Playing` nor `Paused` maps to `Stopped`.
pub proof fn lemma_status_of_other_words(word: Seq<char>)
    requires
        word != "Playing"@,
        word != "Paused"@,
    ensures
        status_of(word) == PlaybackStatus::Stopped,
{
}

/// Every status is what its own word maps to.
pub proof fn lemma_status_of_word(status: PlaybackStatus)
    ensures
        status_of(status.word()) == status,
        status_of("Playing"@) == PlaybackStatus::Playing,
        status_of("Paused"@) == PlaybackStatus::Paused,
        status_of("Stopped"@) == PlaybackStatus::Stopped,
{
    reveal_strlit("Playing");
    reveal_strlit("Paused");
    reveal_strlit("Stopped");
    assert("Playing"@.len() == 7);
    assert("Paused"@.len() == 6);
    assert("Stopped"@.len() == 7);
    assert("Stopped"@[0] == 'S');
    assert("Playing"@[0] == 'P');
}

} // verus!
