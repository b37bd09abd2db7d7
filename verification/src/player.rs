//! The render loop's decisions: what a message does to the display, when a
//! line is drawn, what the line holds and how the marquee moves.
//!
//! The loop itself waits and prints, which is not done here. Each of its
//! rounds hands what it received to [`Player::refresh_step`] and carries out
//! the [`Step`] that comes back.

use crate::config::Config;
use crate::scroll::{Direction, Scroll, ScrollState};
use crate::state::{State, TrackState};
use crate::status::{glyph_of, PlaybackStatus};
use vstd::prelude::*;
use vstd::string::*;

verus! {

/// The time, in milliseconds, that the loop waits between two rounds in which
/// nothing rests.
pub const POLL_INTERVAL_MS: u64 = 30;

/// What the queue delivers.
#[derive(Debug)]
pub enum Message {
    /// The track as it now is.
    Snapshot(State),
    /// A request to draw again, with the track as it was.
    ManualRefresh,
}

/// A message as plain values: the model of [`Message`].
pub enum MessageView {
    Snapshot(TrackState),
    ManualRefresh,
}

impl View for Message {
    type V = MessageView;

    open spec fn view(&self) -> MessageView {
        match self {
            Message::Snapshot(state) => MessageView::Snapshot(state@),
            Message::ManualRefresh => MessageView::ManualRefresh,
        }
    }
}

/// What one look at the queue finds.
#[derive(Debug)]
pub enum Event {
    /// A message was waiting.
    Message(Message),
    /// Nothing was waiting.
    Empty,
    /// Nothing was waiting and nothing can come: the sender is gone.
    Disconnected,
}

/// An event as plain values: the model of [`Event`].
pub enum EventView {
    Message(MessageView),
    Empty,
    Disconnected,
}

impl View for Event {
    type V = EventView;

    open spec fn view(&self) -> EventView {
        match self {
            Event::Message(message) => EventView::Message(message@),
            Event::Empty => EventView::Empty,
            Event::Disconnected => EventView::Disconnected,
        }
    }
}

/// How long the loop waits after a round.
#[derive(Clone, Copy, Debug, PartialEq, Eq, Structural)]
pub enum Pause {
    /// The short wait of a loop that watches for the next tick.
    Poll,
    /// A whole scroll interval: nothing moves before a message arrives.
    Interval,
}

impl Pause {
    /// The wait in milliseconds under the given settings.
    pub open spec fn millis_of(self, config: Config) -> int {
        match self {
            Pause::Poll => POLL_INTERVAL_MS as int,
            Pause::Interval => config.scroll_interval_ms as int,
        }
    }

    /// The wait in milliseconds under the given settings.
    pub fn millis(self, config: &Config) -> (ms: u64)
        ensures
            ms == self.millis_of(*config),
    {
        match self {
            Pause::Poll => POLL_INTERVAL_MS,
            Pause::Interval => config.scroll_interval_ms as u64,
        }
    }
}

/// One line to print, and what the loop does after printing it.
#[derive(Debug)]
pub struct Frame {
    /// The line, without its line end. It is empty where no track is shown.
    pub line: String,
    /// Whether the time since the last drawing starts anew.
    pub restart_timer: bool,
    /// How long the loop waits before its next round.
    pub pause: Pause,
}

/// A frame as plain values: the model of [`Frame`].
pub struct FrameView {
    pub line: Seq<char>,
    pub restart_timer: bool,
    pub pause: Pause,
}

impl View for Frame {
    type V = FrameView;

    open spec fn view(&self) -> FrameView {
        FrameView { line: self.line@, restart_timer: self.restart_timer, pause: self.pause }
    }
}

/// What the loop does in one round.
#[derive(Debug)]
pub enum Step {
    /// Leave the loop: the queue is closed.
    Stop,
    /// Print nothing, wait the short wait and go on.
    Idle,
    /// Print the frame's line and go on as the frame says.
    Draw(Frame),
}

/// A step as plain values: the model of [`Step`].
pub enum StepView {
    Stop,
    Idle,
    Draw(FrameView),
}

impl View for Step {
    type V = StepView;

    open spec fn view(&self) -> StepView {
        match self {
            Step::Stop => StepView::Stop,
            Step::Idle => StepView::Idle,
            Step::Draw(frame) => StepView::Draw(frame@),
        }
    }
}

/// The display as plain values: the model of [`Player`].
pub struct PlayerView {
    /// The track shown.
    pub track: TrackState,
    /// Where the marquee stands.
    pub scroll: Scroll,
    /// The settings.
    pub config: Config,
    /// Whether a message asked for a drawing that has not been made yet.
    pub pending: bool,
}

impl PlayerView {
    /// A new display: no track, the scroll at its start, nothing to draw.
    pub open spec fn initial(config: Config) -> PlayerView {
        PlayerView {
            track: TrackState::blank(),
            scroll: Scroll::start(),
            config,
            pending: false,
        }
    }

    /// The text of the track shown.
    pub open spec fn text(self) -> Seq<char> {
        self.track.display_text()
    }

    /// The number of characters shown at once.
    pub open spec fn width(self) -> nat {
        self.config.display_width as nat
    }

    /// Whether the window lies within the text, where the text is longer than
    /// the display. This holds of every display, whatever its status.
    pub open spec fn window_in_bounds(self) -> bool {
        self.scroll.in_bounds(self.text().len(), self.width())
    }

    /// Whether there is no track to show.
    pub open spec fn is_blank(self) -> bool {
        self.track.title.len() == 0
    }

    /// Whether the marquee runs: a track that plays, with a text longer than the
    /// display.
    pub open spec fn scrolling(self) -> bool {
        !self.is_blank() && self.track.status == PlaybackStatus::Playing && self.text().len()
            > self.width()
    }

    /// The display showing `track`. The scroll starts over if the text differs
    /// from the one shown, and stays as it is if only other things changed.
    pub open spec fn showing(self, track: TrackState) -> PlayerView {
        PlayerView {
            track,
            scroll: if track.display_text() != self.text() {
                Scroll::reset()
            } else {
                self.scroll
            },
            ..self
        }
    }

    /// The display after a message: a snapshot is shown, and either kind of
    /// message asks for a drawing.
    pub open spec fn received(self, message: MessageView) -> PlayerView {
        match message {
            MessageView::Snapshot(track) => PlayerView { pending: true, ..self.showing(track) },
            MessageView::ManualRefresh => PlayerView { pending: true, ..self },
        }
    }

    /// The display with its title removed.
    pub open spec fn cleared(self) -> PlayerView {
        self.showing(TrackState { title: Seq::empty(), ..self.track })
    }

    /// The part of the text that is shown: the window of the marquee where it
    /// runs, else the start of the text as far as the display is wide.
    pub open spec fn window(self) -> Seq<char> {
        if self.scrolling() {
            self.text().subrange(
                self.scroll.position as int,
                (self.scroll.position + self.width()) as int,
            )
        } else if self.text().len() > self.width() {
            self.text().take(self.width() as int)
        } else {
            self.text()
        }
    }

    /// The line drawn: empty where there is no track, else the glyph of the
    /// status, a space and the window.
    pub open spec fn line(self) -> Seq<char> {
        if self.is_blank() {
            Seq::empty()
        } else {
            seq![glyph_of(self.track.status), ' '] + self.window()
        }
    }

    /// The frame drawn. A display that does not scroll starts the timer anew and
    /// rests a whole interval; one that scrolls starts it anew only when it was
    /// due, and keeps polling.
    pub open spec fn frame(self, timer_due: bool) -> FrameView {
        FrameView {
            line: self.line(),
            restart_timer: timer_due || !self.scrolling(),
            pause: if self.scrolling() {
                Pause::Poll
            } else {
                Pause::Interval
            },
        }
    }

    /// The display after a drawing: nothing is pending, and the marquee has
    /// moved by a tick if it runs and the timer was due.
    pub open spec fn redrawn(self, timer_due: bool) -> PlayerView {
        PlayerView {
            scroll: if self.scrolling() && timer_due {
                self.scroll.tick(self.text().len(), self.width(), self.config.hold_cap())
            } else {
                self.scroll
            },
            pending: false,
            ..self
        }
    }

    /// One round of the loop: the display after it and the step to carry out.
    /// A closed queue stops the loop. Otherwise a message is taken in, and a
    /// frame is drawn if the timer is due or a drawing is pending.
    pub open spec fn stepped(self, event: EventView, timer_due: bool) -> (PlayerView, StepView) {
        match event {
            EventView::Disconnected => (self, StepView::Stop),
            EventView::Message(message) => self.received(message).drawn_if_due(timer_due),
            EventView::Empty => self.drawn_if_due(timer_due),
        }
    }

    /// The second half of a round: a frame is drawn if the timer is due or a
    /// drawing is pending.
    pub open spec fn drawn_if_due(self, timer_due: bool) -> (PlayerView, StepView) {
        if timer_due || self.pending {
            (self.redrawn(timer_due), StepView::Draw(self.frame(timer_due)))
        } else {
            (self, StepView::Idle)
        }
    }
}

/// The display: the track shown, the marquee and the settings.
#[derive(Debug)]
pub struct Player {
    state: State,
    scroll: ScrollState,
    config: Config,
    pending_update: bool,
}

impl View for Player {
    type V = PlayerView;

    closed spec fn view(&self) -> PlayerView {
        PlayerView {
            track: self.state@,
            scroll: self.scroll@,
            config: self.config,
            pending: self.pending_update,
        }
    }
}

impl Player {
    #[verifier::type_invariant]
    spec fn window_fits(&self) -> bool {
        self@.window_in_bounds()
    }

    /// A new display with the given settings.
    pub fn new(config: Config) -> (player: Player)
        ensures
            player@ == PlayerView::initial(config),
            player@.window_in_bounds(),
    {
        Player {
            state: State::default(),
            scroll: ScrollState::start(),
            config,
            pending_update: false,
        }
    }

    /// The track shown.
    pub fn state(&self) -> (state: &State)
        ensures
            state@ == self@.track,
    {
        &self.state
    }

    /// Where the marquee stands. The window it describes lies within the text.
    pub fn scroll(&self) -> (scroll: ScrollState)
        ensures
            scroll@ == self@.scroll,
            self@.window_in_bounds(),
    {
        proof {
            use_type_invariant(self);
        }
        self.scroll
    }

    /// The settings.
    pub fn config(&self) -> (config: Config)
        ensures
            config == self@.config,
    {
        self.config
    }

    /// Whether a message asked for a drawing that has not been made yet.
    pub fn is_pending(&self) -> (pending: bool)
        ensures
            pending == self@.pending,
    {
        self.pending_update
    }

    /// Shows `state`. The scroll starts over if the text differs from the one
    /// shown.
    fn show(&mut self, state: State)
        ensures
            final(self)@ == old(self)@.showing(state@),
    {
        proof {
            use_type_invariant(&*self);
        }
        let changed = !(state.display_text() == self.state.display_text());
        if changed {
            self.scroll = ScrollState::reset();
        }
        self.state = state;
    }

    /// Takes in a message from the queue.
    pub fn receive(&mut self, message: Message)
        ensures
            final(self)@ == old(self)@.received(message@),
            final(self)@.window_in_bounds(),
    {
        match message {
            Message::Snapshot(state) => {
                self.show(state);
            },
            Message::ManualRefresh => {},
        }
        proof {
            use_type_invariant(&*self);
        }
        self.pending_update = true;
    }

    /// Removes the title, so that the display goes blank.
    pub fn clear(&mut self)
        ensures
            final(self)@ == old(self)@.cleared(),
            final(self)@.window_in_bounds(),
    {
        let blank = State {
            status: self.state.status,
            artist: self.state.artist.clone(),
            title: String::new(),
        };
        self.show(blank);
        proof {
            use_type_invariant(&*self);
        }
    }

    /// Draws the display: gives the frame to print and moves the marquee where
    /// it runs and the timer is due.
    pub fn redraw(&mut self, timer_due: bool) -> (frame: Frame)
        ensures
            frame@ == old(self)@.frame(timer_due),
            final(self)@ == old(self)@.redrawn(timer_due),
            final(self)@.window_in_bounds(),
    {
        proof {
            use_type_invariant(&*self);
        }
        self.pending_update = false;
        if self.state.title.as_str().is_empty() {
            return Frame { line: String::new(), restart_timer: true, pause: Pause::Interval };
        }
        let display = self.state.display_text();
        let len = display.as_str().unicode_len();
        let width = self.config.display_width;
        let glyph = self.state.status.glyph();
        if self.state.status != PlaybackStatus::Playing || len <= width {
            let shown = if len > width {
                display.as_str().substring_char(0, width)
            } else {
                display.as_str()
            };
            let line = String::from_str(glyph).concat(" ").concat(shown);
            proof {
                reveal_strlit(" ");
                assert(line@ =~= self@.line());
            }
            Frame { line, restart_timer: true, pause: Pause::Interval }
        } else {
            let start = self.scroll.position;
            let shown = display.as_str().substring_char(start, start + width);
            let line = String::from_str(glyph).concat(" ").concat(shown);
            proof {
                reveal_strlit(" ");
                assert(line@ =~= self@.line());
            }
            if timer_due {
                let mut scroll = self.scroll;
                scroll.tick(len, width, self.config.hold_limit());
                self.scroll = scroll;
            }
            Frame { line, restart_timer: timer_due, pause: Pause::Poll }
        }
    }

    /// One round of the render loop. `event` is what the queue held when the
    /// round began, `timer_due` whether a scroll interval has passed since the
    /// timer was last started.
    pub fn refresh_step(&mut self, event: Event, timer_due: bool) -> (step: Step)
        ensures
            (final(self)@, step@) == old(self)@.stepped(event@, timer_due),
            final(self)@.window_in_bounds(),
    {
        proof {
            use_type_invariant(&*self);
        }
        match event {
            Event::Disconnected => {
                return Step::Stop;
            },
            Event::Message(message) => {
                self.receive(message);
            },
            Event::Empty => {},
        }
        if timer_due || self.pending_update {
            Step::Draw(self.redraw(timer_due))
        } else {
            Step::Idle
        }
    }
}

/// A new display has its window within the text.
pub proof fn lemma_initial_in_bounds(config: Config)
    ensures
        PlayerView::initial(config).window_in_bounds(),
{
}

/// No message moves the window out of the text.
pub proof fn lemma_received_in_bounds(player: PlayerView, message: MessageView)
    requires
        player.window_in_bounds(),
    ensures
        player.received(message).window_in_bounds(),
{
}

/// Removing the title does not move the window out of the text.
pub proof fn lemma_cleared_in_bounds(player: PlayerView)
    requires
        player.window_in_bounds(),
    ensures
        player.cleared().window_in_bounds(),
{
}

/// No drawing moves the window out of the text.
pub proof fn lemma_redrawn_in_bounds(player: PlayerView, timer_due: bool)
    requires
        player.window_in_bounds(),
    ensures
        player.redrawn(timer_due).window_in_bounds(),
{
}

/// No round of the loop moves the window out of the text.
pub proof fn lemma_stepped_in_bounds(player: PlayerView, event: EventView, timer_due: bool)
    requires
        player.window_in_bounds(),
    ensures
        player.stepped(event, timer_due).0.window_in_bounds(),
{
}

/// Where a track plays whose text is longer than the display, the window
/// starts no later than the display's width before the end of the text.
pub proof fn lemma_scrolling_position(player: PlayerView)
    requires
        player.window_in_bounds(),
        player.track.status == PlaybackStatus::Playing,
        player.text().len() > player.width(),
    ensures
        0 <= player.scroll.position <= player.text().len() - player.width(),
{
}

/// The part of the text that is shown is never longer than the display is
/// wide, and where the marquee runs it is exactly as long.
pub proof fn lemma_window_fits(player: PlayerView)
    requires
        player.window_in_bounds(),
    ensures
        player.window().len() <= player.width(),
        player.scrolling() ==> player.window().len() == player.width(),
        player.line().len() <= player.width() + 2,
{
}

/// A snapshot whose text differs from the one shown starts the scroll over,
/// wherever it stood: at the first character, forward, with two rests counted.
pub proof fn lemma_new_text_resets_scroll(player: PlayerView, track: TrackState)
    requires
        track.display_text() != player.text(),
    ensures
        player.received(MessageView::Snapshot(track)).scroll == (Scroll {
            position: 0,
            direction: Direction::Forward,
            hold_count: 2,
        }),
{
}

/// A snapshot with the text that is shown leaves the scroll where it stands,
/// whatever else it changes.
pub proof fn lemma_same_text_keeps_scroll(player: PlayerView, track: TrackState)
    requires
        track.display_text() == player.text(),
    ensures
        player.received(MessageView::Snapshot(track)).scroll == player.scroll,
{
}

/// A message always asks for a drawing, and the round in which it arrives
/// draws: a snapshot or a refresh never ends in an idle round.
pub proof fn lemma_message_draws(player: PlayerView, message: MessageView, timer_due: bool)
    ensures
        player.received(message).pending,
        player.stepped(EventView::Message(message), timer_due).1 is Draw,
        !player.stepped(EventView::Message(message), timer_due).0.pending,
{
}

/// A drawing that no timer asked for leaves the marquee where it stands.
pub proof fn lemma_refresh_does_not_scroll(player: PlayerView)
    ensures
        player.redrawn(false).scroll == player.scroll,
{
}

/// A track that does not play is drawn from the start of its text, whatever
/// the scroll says, and no drawing moves the scroll.
pub proof fn lemma_resting_track_shows_start(player: PlayerView, timer_due: bool)
    requires
        player.track.status != PlaybackStatus::Playing,
    ensures
        player.window() == if player.text().len() > player.width() {
            player.text().take(player.width() as int)
        } else {
            player.text()
        },
        player.redrawn(timer_due).scroll == player.scroll,
        player.redrawn(timer_due).window() == player.window(),
{
}

impl Default for Player {
    fn default() -> (player: Player)
        ensures
            player@ == PlayerView::initial(Config::standard()),
    {
        Player::new(Config::default())
    }
}

} // verus!
