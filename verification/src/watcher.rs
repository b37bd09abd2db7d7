//! The watcher bridge: it reads the watcher's lines one by one, keeps the
//! track as the lines so far describe it, and hands on a snapshot whenever
//! the track changed.

use crate::parse::{parse_update, parsed_update};
use crate::state::{State, TrackState};
use crate::text::{trim_end, trim_end_of};
use vstd::prelude::*;
use vstd::string::*;

verus! {

/// What a line makes of the bridge's track, and whether a snapshot goes out.
/// A line of nothing but white space says that no track is left: the track
/// goes blank and a snapshot goes out. Any other line is read as an update
/// and goes out if it changed the track.
pub open spec fn accepted(line: Seq<char>, track: TrackState) -> (TrackState, bool) {
    let content = trim_end_of(line);
    if content.len() == 0 {
        (TrackState::blank(), true)
    } else {
        parsed_update(content, track)
    }
}

/// The bridge's side of the line protocol.
#[derive(Debug)]
pub struct WatcherBridge {
    state: State,
}

impl View for WatcherBridge {
    type V = TrackState;

    closed spec fn view(&self) -> TrackState {
        self.state@
    }
}

impl WatcherBridge {
    /// A bridge that has read nothing yet: its track is blank.
    pub fn new() -> (bridge: WatcherBridge)
        ensures
            bridge@ == TrackState::blank(),
    {
        WatcherBridge { state: State::default() }
    }

    /// The track as the lines so far describe it.
    pub fn state(&self) -> (state: &State)
        ensures
            state@ == self@,
    {
        &self.state
    }

    /// Reads one line of the watcher, with or without its line end. Returns the
    /// snapshot to send on, if one is to be sent.
    pub fn accept_line(&mut self, line: &str) -> (snapshot: Option<State>)
        ensures
            final(self)@ == accepted(line@, old(self)@).0,
            snapshot is Some <==> accepted(line@, old(self)@).1,
            snapshot matches Some(state) ==> state@ == final(self)@,
    {
        let content = trim_end(line);
        let forward = if content.is_empty() {
            self.state = State::default();
            true
        } else {
            parse_update(content, &mut self.state)
        };
        if forward {
            Some(self.state.clone())
        } else {
            None
        }
    }
}

impl Default for WatcherBridge {
    fn default() -> (bridge: WatcherBridge)
        ensures
            bridge@ == TrackState::blank(),
    {
        WatcherBridge::new()
    }
}

/// A line that is read a second time sends nothing on, unless it is a line of
/// white space, and leaves the track as the first reading made it.
pub proof fn lemma_accept_again(line: Seq<char>, track: TrackState)
    ensures
        accepted(line, accepted(line, track).0).0 == accepted(line, track).0,
        trim_end_of(line).len() > 0 ==> !accepted(line, accepted(line, track).0).1,
{
    let content = trim_end_of(line);
    if content.len() > 0 {
        crate::parse::lemma_parse_again_is_clean(content, track);
    }
}

} // verus!
