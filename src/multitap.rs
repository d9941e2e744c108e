//! Selecting one of several letters by pressing one key repeatedly.
use vstd::prelude::*;

verus! {

/// Time between updates of the input state, in milliseconds.
pub const INPUT_UPDATE_DELAY_MS: u32 = 10;

/// Presses closer together than this (in microseconds) continue a cycle.
pub const SEQUENCE_DELAY_US: u64 = 500_000;

/// Whether a press at `now` continues the cycle whose last press or release was at `last`
/// (times in microseconds).
pub open spec fn continues(now: u64, last: Option<u64>) -> bool {
    match last {
        Some(t) => t <= now && now - t < SEQUENCE_DELAY_US,
        None => false,
    }
}

/// The candidate selected by a press: the next one in the cycle, or the first one
/// when the press starts a new cycle.
pub open spec fn selected(now: u64, last: Option<u64>, counter: u8, n: u8) -> u8 {
    if continues(now, last) {
        ((counter as nat + 1) % (n as nat)) as u8
    } else {
        0
    }
}

/// Select the candidate of a press at `now`; `last_click` holds the position in the
/// cycle, kept below `n`.
fn select(now: u64, last_time: Option<u64>, last_click: &mut u8, n: u8) -> (r: u8)
    requires
        n == 3 || n == 4,
    ensures
        r == selected(now, last_time, *old(last_click), n),
        *final(last_click) == r,
        r < n,
{
    let cont = match last_time {
        Some(t) => t <= now && now - t < SEQUENCE_DELAY_US,
        None => false,
    };
    if cont {
        *last_click = ((*last_click as u16 + 1) % (n as u16)) as u8;
    } else {
        *last_click = 0;
    }
    *last_click
}

/// Which of three letters a press at `now` selects.
pub fn check_three_input(now: u64, last_time: Option<u64>, last_click: &mut u8) -> (r: (bool, bool, bool))
    ensures
        *final(last_click) == selected(now, last_time, *old(last_click), 3),
        r == (*final(last_click) == 0, *final(last_click) == 1, *final(last_click) == 2),
{
    let k = select(now, last_time, last_click, 3);
    (k == 0, k == 1, k == 2)
}

/// Which of four letters a press at `now` selects.
pub fn check_four_input(now: u64, last_time: Option<u64>, last_click: &mut u8) -> (r: (bool, bool, bool, bool))
    ensures
        *final(last_click) == selected(now, last_time, *old(last_click), 4),
        r == (*final(last_click) == 0, *final(last_click) == 1, *final(last_click) == 2, *final(last_click) == 3),
{
    let k = select(now, last_time, last_click, 4);
    (k == 0, k == 1, k == 2, k == 3)
}

/// State of one key that cycles through letters.
#[derive(Clone, Copy, Debug, PartialEq, Eq, Structural)]
pub struct MultiTap {
    /// Time of the last press, or of the last release, in microseconds.
    pub last_time: Option<u64>,
    /// Position in the current cycle.
    pub last_click: u8,
    /// Whether the key was asserted at the previous tick.
    pub was_asserted: bool,
}

impl MultiTap {
    /// A key never pressed.
    pub open spec fn new_spec() -> MultiTap {
        MultiTap { last_time: None, last_click: 0, was_asserted: false }
    }

    /// A key never pressed.
    pub fn new() -> (r: MultiTap)
        ensures
            r == MultiTap::new_spec(),
    {
        MultiTap { last_time: None, last_click: 0, was_asserted: false }
    }

    /// The letter a tick selects: while the key is asserted, the next one of the
    /// cycle (at every tick), else none.
    pub open spec fn selection(self, asserted: bool, now: u64, n: u8) -> Option<u8> {
        if asserted {
            Some(selected(now, self.last_time, self.last_click, n))
        } else {
            None
        }
    }

    /// The state after a tick: the time of each press and of each release is recorded.
    pub open spec fn next(self, asserted: bool, now: u64, n: u8) -> MultiTap {
        if asserted {
            MultiTap {
                last_time: Some(now),
                last_click: selected(now, self.last_time, self.last_click, n),
                was_asserted: true,
            }
        } else {
            MultiTap {
                last_time: if self.was_asserted { Some(now) } else { self.last_time },
                last_click: self.last_click,
                was_asserted: false,
            }
        }
    }

    /// One sampling tick of a key with `n` letters.
    pub fn tick(&mut self, asserted: bool, now: u64, n: u8) -> (r: Option<u8>)
        requires
            n == 3 || n == 4,
        ensures
            r == old(self).selection(asserted, now, n),
            *final(self) == old(self).next(asserted, now, n),
    {
        let r = if asserted {
            let k = select(now, self.last_time, &mut self.last_click, n);
            self.last_time = Some(now);
            Some(k)
        } else {
            if self.was_asserted {
                self.last_time = Some(now);
            }
            None
        };
        self.was_asserted = asserted;
        r
    }
}

} // verus!
