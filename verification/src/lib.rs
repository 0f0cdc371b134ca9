//! A recording-state register: one process-wide boolean flag with three
//! operations, set it, clear it, and read it. The host application wraps a
//! value of [`RecordingState`] in a mutual-exclusion lock and dispatches each
//! command against it; the register itself holds the whole of the logic.

use vstd::prelude::*;

verus! {

/// The register the command handlers share: a single flag that says whether
/// recording is on. It starts off, and every command either overwrites it
/// unconditionally or reads it.
pub struct RecordingState {
    pub is_recording: bool,
}

/// The register after a start command: recording on, whatever it was before.
pub open spec fn spec_start(s: RecordingState) -> RecordingState {
    RecordingState { is_recording: true }
}

/// The register after a stop command: recording off, whatever it was before.
pub open spec fn spec_stop(s: RecordingState) -> RecordingState {
    RecordingState { is_recording: false }
}

/// What a state query reports: the flag as it stands.
pub open spec fn spec_read(s: RecordingState) -> bool {
    s.is_recording
}

impl RecordingState {
    /// A fresh register: recording is off.
    pub fn new() -> (s: RecordingState)
        ensures
            !spec_read(s),
    {
        RecordingState { is_recording: false }
    }

    /// Turns recording on, unconditionally, and acknowledges. Redundant calls
    /// are accepted: the flag is overwritten, not guarded.
    pub fn start_recording(&mut self) -> (ack: String)
        ensures
            *final(self) == spec_start(*old(self)),
            ack@ == "Recording started"@,
    {
        self.is_recording = true;
        String::from_str("Recording started")
    }

    /// Turns recording off, unconditionally, and acknowledges. Redundant calls
    /// are accepted: the flag is overwritten, not guarded.
    pub fn stop_recording(&mut self) -> (ack: String)
        ensures
            *final(self) == spec_stop(*old(self)),
            ack@ == "Recording stopped"@,
    {
        self.is_recording = false;
        String::from_str("Recording stopped")
    }

    /// Reads the flag; the register is left untouched.
    pub fn get_recording_state(&self) -> (r: bool)
        ensures
            r == spec_read(*self),
    {
        self.is_recording
    }
}

impl Default for RecordingState {
    /// The default register equals a fresh one: recording is off.
    fn default() -> (s: RecordingState)
        ensures
            !spec_read(s),
    {
        RecordingState { is_recording: false }
    }
}

/// A start leaves the register recording: a read right after reports true.
pub proof fn lemma_read_after_start(s: RecordingState)
    ensures
        spec_read(spec_start(s)),
{
}

/// A stop leaves the register idle: a read right after reports false.
pub proof fn lemma_read_after_stop(s: RecordingState)
    ensures
        !spec_read(spec_stop(s)),
{
}

/// Starting twice in a row ends where starting once does: the start command
/// is idempotent under repetition.
pub proof fn lemma_start_idempotent(s: RecordingState)
    ensures
        spec_start(spec_start(s)) == spec_start(s),
{
}

/// Stopping twice in a row ends where stopping once does: the stop command
/// is idempotent under repetition.
pub proof fn lemma_stop_idempotent(s: RecordingState)
    ensures
        spec_stop(spec_stop(s)) == spec_stop(s),
{
}

} // verus!
