//! Suppression of the clipboard monitor while the application writes to the
//! clipboard itself, so that its own writes are not recorded again.
use vstd::prelude::*;

verus! {

/// The monitor's suppression flags: skip the next change, and skip the change
/// with a given clipboard sequence number (0 means none).
#[derive(Debug, Clone, Copy, PartialEq, Eq, Structural)]
pub struct SuppressState {
    pub suppress_next: bool,
    pub skip_sequence: u32,
}

pub open spec fn initial_suppress_state() -> SuppressState {
    SuppressState { suppress_next: false, skip_sequence: 0 }
}

pub open spec fn after_suppress(s: SuppressState) -> SuppressState {
    SuppressState { suppress_next: true, ..s }
}

/// The flag's old value and the state with the flag cleared.
pub open spec fn take_suppress(s: SuppressState) -> (bool, SuppressState) {
    (s.suppress_next, SuppressState { suppress_next: false, ..s })
}

pub open spec fn after_skip(s: SuppressState, sequence: u32) -> SuppressState {
    SuppressState { skip_sequence: sequence, ..s }
}

/// Whether `sequence` is the one to skip, and the state with the skip consumed
/// when it was.
pub open spec fn take_skipped(s: SuppressState, sequence: u32) -> (bool, SuppressState) {
    if s.skip_sequence != 0 && s.skip_sequence == sequence {
        (true, SuppressState { skip_sequence: 0, ..s })
    } else {
        (false, s)
    }
}

impl SuppressState {
    pub fn new() -> (r: Self)
        ensures
            r == initial_suppress_state(),
    {
        SuppressState { suppress_next: false, skip_sequence: 0 }
    }
}

pub fn suppress_next_capture(state: &mut SuppressState)
    ensures
        *final(state) == after_suppress(*old(state)),
{
    state.suppress_next = true;
}

pub fn take_suppress_next_capture(state: &mut SuppressState) -> (r: bool)
    ensures
        (r, *final(state)) == take_suppress(*old(state)),
{
    let r = state.suppress_next;
    state.suppress_next = false;
    r
}

pub fn skip_clipboard_sequence(state: &mut SuppressState, sequence: u32)
    ensures
        *final(state) == after_skip(*old(state), sequence),
{
    state.skip_sequence = sequence;
}

pub fn take_skipped_sequence(state: &mut SuppressState, sequence: u32) -> (r: bool)
    ensures
        (r, *final(state)) == take_skipped(*old(state), sequence),
{
    let skipped = state.skip_sequence;
    if skipped != 0 && skipped == sequence {
        state.skip_sequence = 0;
        true
    } else {
        false
    }
}

/// A suppression is consumed by exactly one take: the first take after
/// `suppress_next_capture` answers yes, the next one no.
pub proof fn law_suppress_consumed_once(s: SuppressState)
    ensures
        take_suppress(after_suppress(s)).0,
        !take_suppress(take_suppress(after_suppress(s)).1).0,
        take_suppress(after_suppress(s)).1.skip_sequence == s.skip_sequence,
{
}

/// A skipped sequence number (other than 0) is skipped exactly once, and only
/// that number is.
pub proof fn law_skip_consumed_once(s: SuppressState, sequence: u32, other: u32)
    requires
        sequence != 0,
        other != sequence,
    ensures
        take_skipped(after_skip(s, sequence), sequence).0,
        !take_skipped(take_skipped(after_skip(s, sequence), sequence).1, sequence).0,
        take_skipped(after_skip(s, sequence), other) == (false, after_skip(s, sequence)),
        take_skipped(after_skip(s, sequence), sequence).1.suppress_next == s.suppress_next,
{
}

/// Sequence number 0 is never skipped.
pub proof fn law_zero_never_skipped(s: SuppressState)
    ensures
        take_skipped(s, 0) == (false, s),
{
}

} // verus!
