//! The clipboard monitor's decisions. The polling loop itself (reading the
//! sequence number, the settings, the foreground application and the clipboard,
//! saving images, storing entries) runs outside; each observation goes to
//! `poll_step`, which says what to do next.
use vstd::prelude::*;

use crate::capture::RawCapture;
use crate::models::SaveOutcome;
use crate::suppress::{
    take_skipped, take_skipped_sequence, take_suppress, take_suppress_next_capture, SuppressState,
};

verus! {

/// What the monitor remembers between polls: the last clipboard sequence number
/// seen and the hash of the last image captured (none after anything else).
#[derive(Debug, Clone, Copy, PartialEq, Eq, Structural)]
pub struct MonitorState {
    pub last_sequence: u32,
    pub last_image_hash: Option<u64>,
}

impl MonitorState {
    pub fn new(initial_sequence: u32) -> (r: Self)
        ensures
            r.last_sequence == initial_sequence,
            r.last_image_hash is None,
    {
        MonitorState { last_sequence: initial_sequence, last_image_hash: None }
    }
}

/// A poll that sees `sequence` goes on to read the clipboard when the number
/// changed and the change is neither the skipped one nor a suppressed one.
/// The skipped number is consumed first; the suppression flag only when the
/// number was not the skipped one.
pub open spec fn sequence_step(m: MonitorState, s: SuppressState, sequence: u32) -> (
    bool,
    MonitorState,
    SuppressState,
) {
    if sequence == m.last_sequence {
        (false, m, s)
    } else {
        let m2 = MonitorState { last_sequence: sequence, ..m };
        let (skipped, s1) = take_skipped(s, sequence);
        if skipped {
            (false, m2, s1)
        } else {
            let (suppressed, s2) = take_suppress(s1);
            (!suppressed, m2, s2)
        }
    }
}

pub fn observe_sequence(
    monitor: &mut MonitorState,
    suppression: &mut SuppressState,
    sequence: u32,
) -> (proceed: bool)
    ensures
        (proceed, *final(monitor), *final(suppression)) == sequence_step(
            *old(monitor),
            *old(suppression),
            sequence,
        ),
{
    if sequence == monitor.last_sequence {
        return false;
    }
    monitor.last_sequence = sequence;
    if take_skipped_sequence(suppression, sequence) {
        return false;
    }
    !take_suppress_next_capture(suppression)
}

/// While monitoring is switched off no image is remembered.
pub fn monitoring_disabled(monitor: &mut MonitorState)
    ensures
        final(monitor).last_sequence == old(monitor).last_sequence,
        final(monitor).last_image_hash is None,
{
    monitor.last_image_hash = None;
}

/// A capture (with `image_hash` the hash of its bytes when it is an image) is
/// stored unless it is the same image as the last one captured.
pub open spec fn capture_step(m: MonitorState, image_hash: Option<u64>) -> (bool, MonitorState) {
    match image_hash {
        Some(h) => if m.last_image_hash == Some(h) {
            (false, m)
        } else {
            (true, MonitorState { last_image_hash: Some(h), ..m })
        },
        None => (true, MonitorState { last_image_hash: None, ..m }),
    }
}

pub fn observe_capture(monitor: &mut MonitorState, image_hash: Option<u64>) -> (store: bool)
    ensures
        (store, *final(monitor)) == capture_step(*old(monitor), image_hash),
{
    match image_hash {
        Some(h) => {
            if monitor.last_image_hash == Some(h) {
                return false;
            }
            monitor.last_image_hash = Some(h);
            true
        },
        None => {
            monitor.last_image_hash = None;
            true
        },
    }
}

/// `DefaultHasher` (`DefaultHasher::new`, `Hash::hash` of the byte slice, then
/// `Hasher::finish`). Nothing is stated of the value: the algorithm is
/// unspecified and may differ between builds.
#[verifier::external_body]
fn hash_bytes(bytes: &[u8]) -> u64 {
    let mut hasher = std::collections::hash_map::DefaultHasher::new();
    std::hash::Hash::hash(bytes, &mut hasher);
    std::hash::Hasher::finish(&hasher)
}

/// The hash the monitor compares captures by: that of an image's bytes, none
/// for files and text.
pub fn capture_hash(capture: &RawCapture) -> (r: Option<u64>)
    ensures
        (r is Some) == (capture is Image),
{
    match capture {
        RawCapture::Image(bytes) => Some(hash_bytes(bytes.as_slice())),
        _ => None,
    }
}

/// What a poll has observed.
#[derive(Debug, Clone, Copy, PartialEq, Eq, Structural)]
pub enum PollEvent {
    /// The clipboard sequence number read.
    Sequence(u32),
    /// Whether the stored settings have monitoring switched on.
    MonitoringEnabled(bool),
    /// Whether the foreground application is one whose copies are skipped.
    ForegroundExcluded(bool),
    /// The clipboard held nothing that can be captured.
    ClipboardEmpty,
    /// The clipboard was read; the capture's hash (see `capture_hash`).
    Captured(Option<u64>),
}

/// What the polling loop does next.
#[derive(Debug, Clone, Copy, PartialEq, Eq, Structural)]
pub enum PollAction {
    /// Nothing more in this poll.
    Wait,
    /// Read the monitoring switch from the settings.
    CheckMonitoring,
    /// Check the foreground application.
    CheckForeground,
    /// Read the clipboard.
    ReadClipboard,
    /// Save and store the capture.
    Store,
}

/// One step of a poll. A changed sequence number (neither skipped nor
/// suppressed) leads to the monitoring switch; a switch that is on leads to the
/// foreground check, one that is off forgets the last image and ends the poll;
/// an application that is not excluded leads to reading the clipboard; a capture
/// is stored unless it repeats the last image.
pub open spec fn poll_transition(m: MonitorState, s: SuppressState, event: PollEvent) -> (
    PollAction,
    MonitorState,
    SuppressState,
) {
    match event {
        PollEvent::Sequence(sequence) => {
            let (proceed, m1, s1) = sequence_step(m, s, sequence);
            (
                if proceed {
                    PollAction::CheckMonitoring
                } else {
                    PollAction::Wait
                },
                m1,
                s1,
            )
        },
        PollEvent::MonitoringEnabled(on) => if on {
            (PollAction::CheckForeground, m, s)
        } else {
            (PollAction::Wait, MonitorState { last_image_hash: None, ..m }, s)
        },
        PollEvent::ForegroundExcluded(excluded) => (
            if excluded {
                PollAction::Wait
            } else {
                PollAction::ReadClipboard
            },
            m,
            s,
        ),
        PollEvent::ClipboardEmpty => (PollAction::Wait, m, s),
        PollEvent::Captured(hash) => {
            let (store, m1) = capture_step(m, hash);
            (
                if store {
                    PollAction::Store
                } else {
                    PollAction::Wait
                },
                m1,
                s,
            )
        },
    }
}

pub fn poll_step(monitor: &mut MonitorState, suppression: &mut SuppressState, event: PollEvent) -> (action:
    PollAction)
    ensures
        (action, *final(monitor), *final(suppression)) == poll_transition(
            *old(monitor),
            *old(suppression),
            event,
        ),
{
    match event {
        PollEvent::Sequence(sequence) => {
            if observe_sequence(monitor, suppression, sequence) {
                PollAction::CheckMonitoring
            } else {
                PollAction::Wait
            }
        },
        PollEvent::MonitoringEnabled(on) => {
            if on {
                PollAction::CheckForeground
            } else {
                monitoring_disabled(monitor);
                PollAction::Wait
            }
        },
        PollEvent::ForegroundExcluded(excluded) => {
            if excluded {
                PollAction::Wait
            } else {
                PollAction::ReadClipboard
            }
        },
        PollEvent::ClipboardEmpty => PollAction::Wait,
        PollEvent::Captured(hash) => {
            if observe_capture(monitor, hash) {
                PollAction::Store
            } else {
                PollAction::Wait
            }
        },
    }
}

/// Nothing is stored while monitoring is off, and the image remembered before is
/// forgotten, so the same image copied after monitoring is switched back on is
/// stored again.
pub proof fn law_monitoring_off_forgets_image(m: MonitorState, s: SuppressState, h: u64)
    ensures
        ({
            let (action, m1, s1) = poll_transition(m, s, PollEvent::MonitoringEnabled(false));
            &&& action == PollAction::Wait
            &&& s1 == s
            &&& poll_transition(m1, s1, PollEvent::Captured(Some(h))).0 == PollAction::Store
        }),
{
}

/// A saved image file is kept only when its entry was stored as new; after a
/// duplicate or a failure it is removed.
pub fn keeps_saved_image<E>(outcome: &Result<SaveOutcome, E>) -> (keep: bool)
    ensures
        keep == (outcome matches Ok(SaveOutcome::Inserted(_))),
{
    match outcome {
        Ok(SaveOutcome::Inserted(_)) => true,
        _ => false,
    }
}

/// The same image captured twice in a row is stored once.
pub proof fn law_repeated_image_stored_once(m: MonitorState, h: u64)
    ensures
        !capture_step(capture_step(m, Some(h)).1, Some(h)).0,
{
}

/// A clipboard change is acted on at most once: polling again with the same
/// sequence number does nothing.
pub proof fn law_sequence_seen_once(m: MonitorState, s: SuppressState, sequence: u32)
    ensures
        ({
            let (_, m1, s1) = sequence_step(m, s, sequence);
            sequence_step(m1, s1, sequence) == (false, m1, s1)
        }),
{
}

} // verus!
