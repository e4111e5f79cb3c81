//! Messages exchanged between the application, the recorder and its callers.

use vstd::prelude::*;

verus! {

/// Commands for the recorder.
///
/// `Start` is fire-and-forget. `Stop` is answered exactly once, by the
/// recorder's `Reply` action; the slot the answer travels through belongs to
/// whoever runs the recorder.
#[derive(Clone, Copy, Debug, PartialEq, Eq, Structural)]
pub enum RecorderCommand {
    Start,
    Stop,
}

/// Application state, as seen by observers.
#[derive(Clone, Copy, Debug, PartialEq, Eq, Structural)]
pub enum AppState {
    Idle,
    Recording,
    Processing,
}

/// What a press of the shortcut asks for.
#[derive(Clone, Copy, Debug, PartialEq, Eq, Structural)]
pub enum ToggleAction {
    /// Play the start sound, if any, and start the recorder.
    StartRecording,
    /// Stop the recorder, play the stop sound, if any, then transcribe the
    /// recording, process the text and inject it.
    StopAndProcess,
    /// A recording is being processed: nothing.
    Ignore,
}

impl AppState {
    /// The state after a press of the shortcut, and what the press asks for.
    pub open spec fn spec_toggled(self) -> (AppState, ToggleAction) {
        match self {
            AppState::Idle => (AppState::Recording, ToggleAction::StartRecording),
            AppState::Recording => (AppState::Processing, ToggleAction::StopAndProcess),
            AppState::Processing => (AppState::Processing, ToggleAction::Ignore),
        }
    }

    /// A press of the shortcut: it starts a recording while idle, ends it
    /// while recording, and is ignored while a recording is processed.
    pub fn toggled(self) -> (next: (AppState, ToggleAction))
        ensures
            next == self.spec_toggled(),
    {
        match self {
            AppState::Idle => (AppState::Recording, ToggleAction::StartRecording),
            AppState::Recording => (AppState::Processing, ToggleAction::StopAndProcess),
            AppState::Processing => (AppState::Processing, ToggleAction::Ignore),
        }
    }

    /// The state once a recording was processed to its end: idle again. In
    /// any other state nothing was being processed and nothing changes.
    pub fn processed(self) -> (next: AppState)
        ensures
            self == AppState::Processing ==> next == AppState::Idle,
            self != AppState::Processing ==> next == self,
    {
        match self {
            AppState::Processing => AppState::Idle,
            other => other,
        }
    }
}

} // verus!
