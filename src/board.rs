//! The main board's own controls: a shift switch, the digit keys (keys 2 to 9 also
//! cycle through letters, as on a phone), backspace and enter.
use vstd::prelude::*;
use crate::input::Input;
use crate::keypad::Keypad;
use crate::multitap::MultiTap;
use crate::numpad::Numpad;

verus! {

/// Levels of the main board's controls at one tick (`true`: asserted).
#[derive(Clone, Copy, Debug, PartialEq, Eq, Structural)]
pub struct MainPins {
    pub switch: bool,
    pub b0: bool,
    pub b1: bool,
    pub b2: bool,
    pub b3: bool,
    pub b4: bool,
    pub b5: bool,
    pub b6: bool,
    pub b7: bool,
    pub b8: bool,
    pub b9: bool,
    pub back: bool,
    pub front: bool,
}

impl MainPins {
    /// Level of digit key `k`, for `k` from 2 to 9.
    pub open spec fn letter_key(self, k: int) -> bool {
        if k == 2 {
            self.b2
        } else if k == 3 {
            self.b3
        } else if k == 4 {
            self.b4
        } else if k == 5 {
            self.b5
        } else if k == 6 {
            self.b6
        } else if k == 7 {
            self.b7
        } else if k == 8 {
            self.b8
        } else {
            self.b9
        }
    }
}

/// Number of letters of digit key `k`: four on 7 and 9, three on the others.
pub open spec fn letters_of(k: int) -> u8 {
    if k == 7 || k == 9 {
        4
    } else {
        3
    }
}

/// Level of digit key `k`, for `k` from 2 to 9.
fn key_level(pins: &MainPins, k: usize) -> (r: bool)
    requires
        2 <= k <= 9,
    ensures
        r == pins.letter_key(k as int),
{
    match k {
        2 => pins.b2,
        3 => pins.b3,
        4 => pins.b4,
        5 => pins.b5,
        6 => pins.b6,
        7 => pins.b7,
        8 => pins.b8,
        _ => pins.b9,
    }
}

/// Whether selection `sel` picks letter `i`.
pub open spec fn picks(sel: Option<u8>, i: u8) -> bool {
    sel == Some(i)
}

/// The letter keys of one tick: shift, enter and backspace as the pins read, letters
/// as the selections of keys 2 to 9 pick them.
pub open spec fn local_keypad(shift: bool, enter: bool, backspace: bool, s2: Option<u8>, s3: Option<u8>, s4: Option<u8>, s5: Option<u8>, s6: Option<u8>, s7: Option<u8>, s8: Option<u8>, s9: Option<u8>) -> Keypad {
    Keypad {
        shift,
        enter,
        backspace,
        a: picks(s2, 0),
        b: picks(s2, 1),
        c: picks(s2, 2),
        d: picks(s3, 0),
        e: picks(s3, 1),
        f: picks(s3, 2),
        g: picks(s4, 0),
        h: picks(s4, 1),
        i: picks(s4, 2),
        j: picks(s5, 0),
        k: picks(s5, 1),
        l: picks(s5, 2),
        m: picks(s6, 0),
        n: picks(s6, 1),
        o: picks(s6, 2),
        p: picks(s7, 0),
        q: picks(s7, 1),
        r: picks(s7, 2),
        s: picks(s7, 3),
        t: picks(s8, 0),
        u: picks(s8, 1),
        v: picks(s8, 2),
        w: picks(s9, 0),
        x: picks(s9, 1),
        y: picks(s9, 2),
        z: picks(s9, 3),
    }
}

/// The local state of one tick: digits and control keys as the pins read, letters as
/// the selections of keys 2 to 9 (`sel[k - 2]`) pick them.
pub open spec fn local_input(pins: MainPins, sel: Seq<Option<u8>>) -> Input {
    Input {
        numpad: Numpad {
            zero: pins.b0,
            one: pins.b1,
            two: pins.b2,
            three: pins.b3,
            four: pins.b4,
            five: pins.b5,
            six: pins.b6,
            seven: pins.b7,
            eight: pins.b8,
            nine: pins.b9,
        },
        keypad: local_keypad(pins.switch, pins.front, pins.back, sel[0], sel[1], sel[2], sel[3], sel[4], sel[5], sel[6], sel[7]),
        ..Input::empty()
    }
}

/// Build the letter keys of one tick.
fn build_keypad(shift: bool, enter: bool, backspace: bool, s2: Option<u8>, s3: Option<u8>, s4: Option<u8>, s5: Option<u8>, s6: Option<u8>, s7: Option<u8>, s8: Option<u8>, s9: Option<u8>) -> (r: Keypad)
    ensures
        r == local_keypad(shift, enter, backspace, s2, s3, s4, s5, s6, s7, s8, s9),
{
    Keypad {
        shift,
        enter,
        backspace,
        a: s2 == Some(0u8),
        b: s2 == Some(1u8),
        c: s2 == Some(2u8),
        d: s3 == Some(0u8),
        e: s3 == Some(1u8),
        f: s3 == Some(2u8),
        g: s4 == Some(0u8),
        h: s4 == Some(1u8),
        i: s4 == Some(2u8),
        j: s5 == Some(0u8),
        k: s5 == Some(1u8),
        l: s5 == Some(2u8),
        m: s6 == Some(0u8),
        n: s6 == Some(1u8),
        o: s6 == Some(2u8),
        p: s7 == Some(0u8),
        q: s7 == Some(1u8),
        r: s7 == Some(2u8),
        s: s7 == Some(3u8),
        t: s8 == Some(0u8),
        u: s8 == Some(1u8),
        v: s8 == Some(2u8),
        w: s9 == Some(0u8),
        x: s9 == Some(1u8),
        y: s9 == Some(2u8),
        z: s9 == Some(3u8),
    }
}

/// What keys 2 to 9 select at a tick, in that order.
pub open spec fn selections(taps: [MultiTap; 8], pins: MainPins, now: u64) -> Seq<Option<u8>> {
    Seq::new(8, |k: int| taps@[k].selection(pins.letter_key(k + 2), now, letters_of(k + 2)))
}

/// Cycle state of the letter keys 2 to 9 (`taps[k - 2]`).
#[derive(Clone, Copy, Debug, PartialEq, Eq)]
pub struct MainKeys {
    pub taps: [MultiTap; 8],
}

impl MainKeys {
    /// No key pressed yet.
    pub fn new() -> (r: MainKeys)
        ensures
            forall|k: int| 0 <= k < 8 ==> r.taps@[k] == MultiTap::new_spec(),
    {
        let t = MultiTap::new();
        MainKeys { taps: [t, t, t, t, t, t, t, t] }
    }

    /// Sample the controls once: advance the cycle of each letter key and give the
    /// local state of this tick.
    pub fn sample(&mut self, pins: &MainPins, now: u64) -> (r: Input)
        ensures
            forall|k: int| 0 <= k < 8 ==> final(self).taps@[k] == old(self).taps@[k].next(pins.letter_key(k + 2), now, letters_of(k + 2)),
            r == local_input(*pins, selections(old(self).taps, *pins, now)),
    {
        let sel = self.tick_all(pins, now);
        let keypad = build_keypad(pins.switch, pins.front, pins.back, sel[0], sel[1], sel[2], sel[3], sel[4], sel[5], sel[6], sel[7]);
        let numpad = Numpad {
            zero: pins.b0,
            one: pins.b1,
            two: pins.b2,
            three: pins.b3,
            four: pins.b4,
            five: pins.b5,
            six: pins.b6,
            seven: pins.b7,
            eight: pins.b8,
            nine: pins.b9,
        };
        let base = Input::default();
        Input { numpad, keypad, ..base }
    }

    /// Tick each letter key.
    fn tick_all(&mut self, pins: &MainPins, now: u64) -> (r: [Option<u8>; 8])
        ensures
            forall|k: int| 0 <= k < 8 ==> final(self).taps@[k] == old(self).taps@[k].next(pins.letter_key(k + 2), now, letters_of(k + 2)),
            r@ == selections(old(self).taps, *pins, now),
    {
        let ghost start = self.taps;
        let mut r: [Option<u8>; 8] = [None, None, None, None, None, None, None, None];
        let mut i: usize = 0;
        while i < 8
            invariant
                i <= 8,
                forall|k: int| 0 <= k < i ==> self.taps@[k] == start@[k].next(pins.letter_key(k + 2), now, letters_of(k + 2)),
                forall|k: int| i <= k < 8 ==> self.taps@[k] == start@[k],
                forall|k: int| 0 <= k < i ==> r@[k] == selections(start, *pins, now)[k],
            decreases 8 - i,
        {
            let n: u8 = if i == 5 || i == 7 { 4 } else { 3 };
            let level = key_level(pins, i + 2);
            let sel = self.tick_key(i, level, now, n);
            r[i] = sel;
            i = i + 1;
        }
        assert(r@ =~= selections(start, *pins, now));
        r
    }

    /// Tick letter key `idx + 2`.
    fn tick_key(&mut self, idx: usize, asserted: bool, now: u64, n: u8) -> (r: Option<u8>)
        requires
            idx < 8,
            n == letters_of(idx + 2),
        ensures
            r == old(self).taps@[idx as int].selection(asserted, now, n),
            final(self).taps@ == old(self).taps@.update(idx as int, old(self).taps@[idx as int].next(asserted, now, n)),
    {
        let mut t = self.taps[idx];
        let r = t.tick(asserted, now, n);
        self.taps[idx] = t;
        r
    }
}

} // verus!
