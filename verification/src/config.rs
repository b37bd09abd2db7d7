//! Settings of the display.

use vstd::prelude::*;

verus! {

/// How wide the display is and how fast it scrolls.
#[derive(Clone, Copy, Debug, PartialEq, Eq, Structural)]
pub struct Config {
    /// The number of characters of text that are shown at once.
    pub display_width: usize,
    /// The time between two steps of the scroll, in milliseconds.
    pub scroll_interval_ms: usize,
    /// The number of intervals for which the scroll rests at either end.
    pub scroll_hold_intervals: usize,
}

impl Config {
    /// The settings used where none are given: 25 characters, a step every
    /// 300 ms, a rest of 5 intervals.
    pub open spec fn standard() -> Config {
        Config { display_width: 25, scroll_interval_ms: 300, scroll_hold_intervals: 5 }
    }

    /// The highest count of rests that holds the scroll at an end: one less than
    /// the intervals of rest, and zero where there are none.
    pub open spec fn hold_cap(self) -> nat {
        if self.scroll_hold_intervals > 0 {
            (self.scroll_hold_intervals - 1) as nat
        } else {
            0
        }
    }

    /// Whether the marquee's timer is due: a scroll interval or more has passed
    /// since the timer was started.
    pub open spec fn is_due(self, elapsed_ms: int) -> bool {
        elapsed_ms >= self.scroll_interval_ms
    }

    /// Whether the marquee's timer is due, `elapsed_ms` milliseconds after it
    /// was started.
    pub fn timer_due(&self, elapsed_ms: u128) -> (due: bool)
        ensures
            due == self.is_due(elapsed_ms as int),
    {
        elapsed_ms >= self.scroll_interval_ms as u128
    }

    /// The highest count of rests that holds the scroll at an end.
    pub fn hold_limit(&self) -> (cap: usize)
        ensures
            cap == self.hold_cap(),
    {
        if self.scroll_hold_intervals > 0 {
            self.scroll_hold_intervals - 1
        } else {
            0
        }
    }
}

impl Default for Config {
    fn default() -> (config: Config)
        ensures
            config == Config::standard(),
    {
        Config { display_width: 25, scroll_interval_ms: 300, scroll_hold_intervals: 5 }
    }
}

} // verus!
