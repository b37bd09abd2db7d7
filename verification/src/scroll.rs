//! The marquee: a window that moves over a text too long for the display,
//! one character per tick, resting at either end before it turns.

use vstd::prelude::*;

verus! {

/// The way the window moves over the text.
#[derive(Clone, Copy, Debug, PartialEq, Eq, Structural)]
pub enum Direction {
    /// Towards the end of the text.
    Forward,
    /// Back towards its start.
    Backward,
}

/// Where the window stands and what it does next.
#[derive(Clone, Copy, Debug, PartialEq, Eq, Structural)]
pub struct ScrollState {
    /// The index of the first character shown.
    pub position: usize,
    /// The way the window moves.
    pub direction: Direction,
    /// The ticks spent resting at the current end.
    pub hold_count: usize,
}

/// A scroll as plain values: the model of [`ScrollState`].
pub struct Scroll {
    pub position: nat,
    pub direction: Direction,
    pub hold_count: nat,
}

impl Scroll {
    /// The scroll of a new display.
    pub open spec fn start() -> Scroll {
        Scroll { position: 0, direction: Direction::Forward, hold_count: 0 }
    }

    /// The scroll after the text has changed.
    pub open spec fn reset() -> Scroll {
        Scroll { position: 0, direction: Direction::Forward, hold_count: 2 }
    }

    /// Whether a window of `width` characters at this position lies within a
    /// text of `len` characters. It says nothing of a text that fits the display.
    pub open spec fn in_bounds(self, len: nat, width: nat) -> bool {
        len > width ==> self.position + width <= len
    }

    /// Whether the window has come back to the start of the text.
    pub open spec fn at_start(self) -> bool {
        self.position == 0 && self.direction == Direction::Backward
    }

    /// Whether the window has reached the end of the text.
    pub open spec fn at_end(self, len: nat, width: nat) -> bool {
        self.position + width >= len && self.direction == Direction::Forward
    }

    /// Whether the next tick is spent resting.
    pub open spec fn holds(self, len: nat, width: nat, hold_cap: nat) -> bool {
        (self.at_start() || self.at_end(len, width)) && self.hold_count < hold_cap
    }

    /// The scroll one tick later, over a text of `len` characters in a display
    /// of `width`. At an end it rests while the count of rests is below
    /// `hold_cap`; after that it turns and moves a character the other way. In
    /// between it moves a character on.
    pub open spec fn tick(self, len: nat, width: nat, hold_cap: nat) -> Scroll {
        if self.holds(len, width, hold_cap) {
            Scroll { hold_count: self.hold_count + 1, ..self }
        } else {
            match self.direction {
                Direction::Forward => if self.position + width >= len {
                    Scroll {
                        position: if self.position > 0 {
                            (self.position - 1) as nat
                        } else {
                            0
                        },
                        direction: Direction::Backward,
                        hold_count: 0,
                    }
                } else {
                    Scroll { position: self.position + 1, hold_count: 0, ..self }
                },
                Direction::Backward => if self.position == 0 {
                    Scroll {
                        position: if width < len {
                            1
                        } else {
                            0
                        },
                        direction: Direction::Forward,
                        hold_count: 0,
                    }
                } else {
                    Scroll { position: (self.position - 1) as nat, hold_count: 0, ..self }
                },
            }
        }
    }
}

impl View for ScrollState {
    type V = Scroll;

    open spec fn view(&self) -> Scroll {
        Scroll {
            position: self.position as nat,
            direction: self.direction,
            hold_count: self.hold_count as nat,
        }
    }
}

impl ScrollState {
    /// The scroll of a new display.
    pub fn start() -> (scroll: ScrollState)
        ensures
            scroll@ == Scroll::start(),
    {
        ScrollState { position: 0, direction: Direction::Forward, hold_count: 0 }
    }

    /// The scroll after the text has changed.
    pub fn reset() -> (scroll: ScrollState)
        ensures
            scroll@ == Scroll::reset(),
    {
        ScrollState { position: 0, direction: Direction::Forward, hold_count: 2 }
    }

    /// Moves the scroll by one tick over a text of `len` characters that is
    /// longer than the display of `width`.
    pub fn tick(&mut self, len: usize, width: usize, hold_cap: usize)
        requires
            len > width,
            old(self).position + width <= len,
        ensures
            final(self)@ == old(self)@.tick(len as nat, width as nat, hold_cap as nat),
            final(self).position + width <= len,
    {
        let at_start = self.position == 0 && self.direction == Direction::Backward;
        let at_end = self.position + width >= len && self.direction == Direction::Forward;
        if (at_start || at_end) && self.hold_count < hold_cap {
            self.hold_count += 1;
        } else {
            self.hold_count = 0;
            match self.direction {
                Direction::Forward => {
                    if self.position + width >= len {
                        self.direction = Direction::Backward;
                        if self.position > 0 {
                            self.position -= 1;
                        }
                    } else {
                        self.position += 1;
                    }
                },
                Direction::Backward => {
                    if self.position == 0 {
                        self.direction = Direction::Forward;
                        if self.position + width < len {
                            self.position += 1;
                        }
                    } else {
                        self.position -= 1;
                    }
                },
            }
        }
    }
}

/// A tick keeps the window within a text that is longer than the display.
pub proof fn lemma_tick_in_bounds(scroll: Scroll, len: nat, width: nat, hold_cap: nat)
    requires
        len > width,
        scroll.position + width <= len,
    ensures
        0 <= scroll.tick(len, width, hold_cap).position <= len - width,
{
}

/// With no rest allowed the scroll turns on the very tick on which it stands
/// at an end, and the count of rests stays zero.
pub proof fn lemma_no_hold_turns_at_once(scroll: Scroll, len: nat, width: nat)
    ensures
        scroll.tick(len, width, 0).hold_count == 0,
        scroll.at_end(len, width) ==> scroll.tick(len, width, 0).direction == Direction::Backward,
        scroll.at_start() ==> scroll.tick(len, width, 0).direction == Direction::Forward,
{
}

/// The scroll turns only at an end, and turns there as soon as the count of
/// rests has reached `hold_cap`: until then a tick at an end moves nothing.
pub proof fn lemma_turns_at_ends(scroll: Scroll, len: nat, width: nat, hold_cap: nat)
    ensures
        scroll.holds(len, width, hold_cap) ==> scroll.tick(len, width, hold_cap).position
            == scroll.position && scroll.tick(len, width, hold_cap).direction == scroll.direction,
        scroll.tick(len, width, hold_cap).direction != scroll.direction <==> !scroll.holds(
            len,
            width,
            hold_cap,
        ) && (scroll.at_start() || scroll.at_end(len, width)),
{
}

} // verus!
