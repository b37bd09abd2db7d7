//! A fixed-width "now playing" marquee for a status bar.
//!
//! The crate holds the decisions of two cooperating parts. The watcher bridge
//! ([`watcher`]) turns the lines of a media watcher into snapshots of the
//! track. The render loop ([`player`]) shows the track as a line of text, and
//! as a horizontally scrolling window where the text is longer than the
//! display. Waiting, reading and printing are left to the program around it.

pub mod config;
pub mod control;
pub mod parse;
pub mod player;
pub mod scroll;
pub mod state;
pub mod status;
pub mod text;
pub mod watcher;

pub use config::Config;
pub use control::{control_for, ControlAction};
pub use parse::{parse_fields, parse_update};
pub use player::{Event, Frame, Message, Pause, Player, Step, POLL_INTERVAL_MS};
pub use scroll::{Direction, ScrollState};
pub use state::State;
pub use status::{status_from, PlaybackStatus};
pub use watcher::WatcherBridge;
