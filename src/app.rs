//! Movement of the focus among the fields of the login form.
use vstd::prelude::*;

verus! {

/// The number of the last field of the form: session, username, password.
pub const MAX_FOCUS_INDEX: u8 = 2;

/// The field after `current`, staying on the last one.
pub fn next_focus(current: u8, max: u8) -> (r: u8)
    ensures
        r == (if current < max { current + 1 } else { current as int }),
{
    if current < max {
        current + 1
    } else {
        current
    }
}

/// The field before `current`, staying on the first one.
pub fn prev_focus(current: u8) -> (r: u8)
    ensures
        r == (if current > 0 { current - 1 } else { 0int }),
{
    if current > 0 {
        current - 1
    } else {
        0
    }
}

} // verus!
