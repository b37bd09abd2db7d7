//! The track that is playing, and the text shown for it.

use crate::status::PlaybackStatus;
use crate::text::starts_with;
use vstd::prelude::*;
use vstd::string::*;

verus! {

/// What is known of the current track.
#[derive(Debug)]
pub struct State {
    pub status: PlaybackStatus,
    pub artist: String,
    pub title: String,
}

/// A track as plain values: the model of [`State`].
pub struct TrackState {
    pub status: PlaybackStatus,
    pub artist: Seq<char>,
    pub title: Seq<char>,
}

/// What stands between artist and title in the display text.
pub open spec fn joiner() -> Seq<char> {
    seq![' ', '-', ' ']
}

/// The text shown for a track: artist, joiner and title, or the title alone
/// where there is no artist or the title already starts with the artist.
pub open spec fn display_of(artist: Seq<char>, title: Seq<char>) -> Seq<char> {
    if artist.len() > 0 && !artist.is_prefix_of(title) {
        artist + joiner() + title
    } else {
        title
    }
}

impl TrackState {
    /// The track before anything is known: stopped, with no artist and no title.
    pub open spec fn blank() -> TrackState {
        TrackState { status: PlaybackStatus::Stopped, artist: Seq::empty(), title: Seq::empty() }
    }

    /// The text shown for this track.
    pub open spec fn display_text(self) -> Seq<char> {
        display_of(self.artist, self.title)
    }
}

impl View for State {
    type V = TrackState;

    open spec fn view(&self) -> TrackState {
        TrackState { status: self.status, artist: self.artist@, title: self.title@ }
    }
}

impl Default for State {
    fn default() -> (state: State)
        ensures
            state@ == TrackState::blank(),
    {
        State { status: PlaybackStatus::Stopped, artist: String::new(), title: String::new() }
    }
}

impl Clone for State {
    fn clone(&self) -> (copy: State)
        ensures
            copy@ == self@,
    {
        State { status: self.status, artist: self.artist.clone(), title: self.title.clone() }
    }
}

impl State {
    /// The text shown for this track.
    pub fn display_text(&self) -> (text: String)
        ensures
            text@ == self@.display_text(),
    {
        if !self.artist.as_str().is_empty() && !starts_with(
            self.title.as_str(),
            self.artist.as_str(),
        ) {
            proof {
                reveal_strlit(" - ");
                assert(" - "@ =~= joiner());
            }
            self.artist.clone().concat(" - ").concat(self.title.as_str())
        } else {
            self.title.clone()
        }
    }
}

/// Without an artist the text is the title.
pub proof fn lemma_display_without_artist(title: Seq<char>)
    ensures
        display_of(Seq::empty(), title) == title,
{
}

/// Where the title starts with the artist the text is the title.
pub proof fn lemma_display_title_leads(artist: Seq<char>, title: Seq<char>)
    requires
        artist.is_prefix_of(title),
    ensures
        display_of(artist, title) == title,
{
}

/// Otherwise the text is artist, joiner and title.
pub proof fn lemma_display_joined(artist: Seq<char>, title: Seq<char>)
    requires
        artist.len() > 0,
        !artist.is_prefix_of(title),
    ensures
        display_of(artist, title) == artist + seq![' ', '-', ' '] + title,
{
}

} // verus!
