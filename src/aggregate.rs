//! Merging the local board's state with the states of two cascaded extensions.
use vstd::prelude::*;
use crate::analog::AnalogInputs;
use crate::input::Input;

verus! {

/// The combined state. The first extension (or an empty state) is the baseline; the
/// keys of the local board and of the second extension are merged into it; the
/// second extension's first three analog channels become channels 3 to 5, and its
/// first payload becomes the second payload.
pub open spec fn combined(local: Input, extension_a: Option<Input>, extension_b: Option<Input>) -> Input {
    let base = match extension_a {
        Some(a) => a,
        None => Input::empty(),
    };
    let merged = base.or(local);
    match extension_b {
        None => merged,
        Some(b) => Input {
            analog: AnalogInputs { a3: b.analog.a0, a4: b.analog.a1, a5: b.analog.a2, ..merged.analog },
            other_input_two: b.other_input_one,
            ..merged.or(b)
        },
    }
}

/// Combine the local board's state with the states of the extensions that answered.
pub fn aggregate(local: Input, extension_a: Option<Input>, extension_b: Option<Input>) -> (r: Input)
    ensures
        r == combined(local, extension_a, extension_b),
{
    let base = match extension_a {
        Some(a) => a,
        None => Input::default(),
    };
    let mut next = base.merge(local);
    match extension_b {
        None => {},
        Some(b) => {
            next = next.merge(b);
            next.analog.a3 = b.analog.a0;
            next.analog.a4 = b.analog.a1;
            next.analog.a5 = b.analog.a2;
            next.other_input_two = b.other_input_one;
        },
    }
    next
}

/// An edge on an extension's enable pin: the extension counts as connected exactly
/// while the pin reads high, and one that has just connected has its decode
/// instructions fetched. Returns the new connected flag and whether to fetch.
pub fn on_enable_edge(enabled: bool, level: bool) -> (r: (bool, bool))
    ensures
        r.0 == level,
        r.1 == (level && !enabled),
{
    (level, level && !enabled)
}

} // verus!
