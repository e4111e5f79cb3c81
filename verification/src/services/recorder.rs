//! The recorder: one recording session at a time, from `Start` to `Stop`.
//!
//! The recorder decides; it performs nothing itself. Each call of
//! [`Recorder::step`] takes what happened (a command, a chunk from the
//! bridge, or the outcome of the action asked for last) and answers with the
//! next [`Action`]. Whoever runs the recorder performs the action and comes
//! back with its outcome. While [`Recorder::awaits_outcome`] holds, nothing
//! but that outcome is accepted, so commands are handled one at a time.

use crate::audio::capture::{AudioCapture, CapturePlan};
use crate::audio::format::AudioFormat;
use crate::audio::wav_sink::{WavSink, WavSpec};
use crate::messages::RecorderCommand;
use vstd::prelude::*;
use vstd::string::StringExecFns;

verus! {

/// Milliseconds the recorder waits, after it has closed the chunk channel,
/// for the bridge to notice and exit, before it finalizes the encoder.
pub const GRACE_MILLIS: u64 = 50;

/// How the name of every destination file begins.
pub const TEMP_FILE_PREFIX: &'static str = "dictator-";

/// How the name of every destination file ends.
pub const TEMP_FILE_SUFFIX: &'static str = ".wav";

/// How many chunks the channel from the bridge to the recorder holds.
pub const CHUNK_CHANNEL_CAPACITY: usize = 100;

/// How many commands the channel from the handles to the recorder holds.
pub const COMMAND_CHANNEL_CAPACITY: usize = 10;

/// How the name of a destination file begins and ends; what stands between
/// is chosen afresh for each file.
#[derive(Clone, Copy, Debug, PartialEq, Eq)]
pub struct TempFileName {
    pub prefix: &'static str,
    pub suffix: &'static str,
}

/// The name of every destination file of the recorder.
pub open spec fn temp_file_name() -> TempFileName {
    TempFileName { prefix: TEMP_FILE_PREFIX, suffix: TEMP_FILE_SUFFIX }
}

/// Where the recorder stands.
#[derive(Clone, Copy, Debug, PartialEq, Eq, Structural)]
pub enum Phase {
    /// No stream, no encoder.
    Idle,
    /// A start was accepted; the destination file is being created.
    CreatingFile,
    /// The encoder is being opened against the destination file.
    OpeningSink,
    /// The input stream and its bridge are being started.
    StartingCapture,
    /// Stream and encoder are open; chunks are forwarded.
    Recording,
    /// A chunk that arrived while recording is being written.
    Writing,
    /// A write failed: the session is still there, but no more chunks are
    /// forwarded until it is stopped.
    Degraded,
    /// A stop was accepted; the input stream is being dropped.
    DroppingStream,
    /// The chunk channel is being emptied, one queued chunk at a time.
    Draining,
    /// A queued chunk is being written.
    DrainWriting,
    /// The chunk channel is being replaced, which tells the bridge to exit.
    ReplacingChannel,
    /// The bridge is given its grace period.
    Settling,
    /// The encoder is being finalized.
    Finalizing,
}

/// The step of a start that failed.
#[derive(Clone, Copy, Debug, PartialEq, Eq, Structural)]
pub enum StartFailure {
    /// No recording can be made in the recorder's format.
    Format,
    /// The destination file could not be created.
    TempFile,
    /// The encoder could not be opened.
    Sink,
    /// The input stream could not be opened, or no buffer can be made for
    /// the format.
    Capture,
}

/// Failures reported to callers.
#[derive(Debug, PartialEq, Eq)]
pub enum RecorderError {
    /// `Stop` arrived while no session existed.
    NoActiveRecording,
    /// The encoder could not be finalized; the text says why.
    Finalize(String),
    /// The recorder is gone: a command could not be handed to it.
    CommandNotSent,
    /// The recorder went away before it answered.
    ReplyNotReceived,
}

impl RecorderError {
    /// The text of the failure.
    pub open spec fn spec_message(&self) -> Seq<char> {
        match *self {
            RecorderError::NoActiveRecording => "No active recording"@,
            RecorderError::Finalize(why) => "Failed to finalize WAV: "@ + why@,
            RecorderError::CommandNotSent => "Failed to send command: the recorder is gone"@,
            RecorderError::ReplyNotReceived => "Failed to receive stop response"@,
        }
    }

    /// The text of the failure.
    pub fn message(&self) -> (text: String)
        ensures
            text@ == self.spec_message(),
    {
        match self {
            RecorderError::NoActiveRecording => String::from_str("No active recording"),
            RecorderError::Finalize(why) => String::from_str("Failed to finalize WAV: ").concat(
                why.as_str(),
            ),
            RecorderError::CommandNotSent => String::from_str(
                "Failed to send command: the recorder is gone",
            ),
            RecorderError::ReplyNotReceived => String::from_str("Failed to receive stop response"),
        }
    }
}

/// What the recorder is told.
#[derive(Debug, PartialEq, Eq)]
pub enum Event {
    /// A command from a handle.
    Command(RecorderCommand),
    /// A chunk from the bridge.
    Chunk(Vec<u32>),
    /// The action asked for last was performed.
    Completed,
    /// The action asked for last failed; the text says why.
    Failed(String),
    /// The answer to `TryReceive`: the chunk that was queued, or `None`
    /// where the channel was empty or closed.
    Queued(Option<Vec<u32>>),
}

/// What the recorder asks for.
#[derive(Debug, PartialEq, Eq)]
pub enum Action {
    /// Nothing to perform: wait for the next command or chunk.
    Listen,
    /// Create a fresh destination file with a name of this form.
    CreateTempFile(TempFileName),
    /// Open the encoder against the destination file.
    OpenSink(WavSpec),
    /// Open the default input device and start its bridge, bound to the
    /// current chunk channel; keep the stream handle.
    StartCapture(CapturePlan),
    /// Hand the chunk to the encoder.
    Write(Vec<u32>),
    /// Drop the stream handle, which stops the hardware callback.
    DropStream,
    /// Receive one queued chunk without blocking and report it.
    TryReceive,
    /// Replace the chunk channel by a fresh one of this capacity, dropping
    /// the old receiver.
    ReplaceChannel(usize),
    /// Wait for so many milliseconds.
    Sleep(u64),
    /// Flush and close the encoder.
    Finalize,
    /// Answer the pending `Stop`: with the finished file, or with a failure.
    /// Afterwards wait for the next command.
    Reply(Result<(), RecorderError>),
    /// A start failed: release what it had acquired so far and wait for the
    /// next command.
    Abandon(StartFailure),
    /// `Start` arrived while a session exists: report it and change nothing.
    AlreadyRecording,
}

/// Whether a session exists in a phase: from the acceptance of `Start`
/// until the answer to `Stop`.
pub open spec fn has_session(phase: Phase) -> bool {
    phase != Phase::Idle
}

/// Whether a phase waits for the outcome of an action. In the other phases
/// the recorder listens for commands.
pub open spec fn awaits_outcome(phase: Phase) -> bool {
    phase != Phase::Idle && phase != Phase::Recording && phase != Phase::Degraded
}

/// Whether chunks are taken from the bridge in a phase.
pub open spec fn wants_chunks(phase: Phase) -> bool {
    phase == Phase::Recording
}

/// The transition table: the next phase and the action for an event, or
/// `None` where the event has no place in the phase.
pub open spec fn next(phase: Phase, format: AudioFormat, event: Event) -> Option<(Phase, Action)> {
    match (phase, event) {
        (Phase::Idle, Event::Command(RecorderCommand::Start)) => if format.is_valid() {
            Some((Phase::CreatingFile, Action::CreateTempFile(temp_file_name())))
        } else {
            Some((Phase::Idle, Action::Abandon(StartFailure::Format)))
        },
        (Phase::Idle, Event::Command(RecorderCommand::Stop)) => Some(
            (Phase::Idle, Action::Reply(Err(RecorderError::NoActiveRecording))),
        ),
        (Phase::CreatingFile, Event::Completed) => Some(
            (Phase::OpeningSink, Action::OpenSink(WavSink::spec_for(format))),
        ),
        (Phase::CreatingFile, Event::Failed(_)) => Some(
            (Phase::Idle, Action::Abandon(StartFailure::TempFile)),
        ),
        (Phase::OpeningSink, Event::Completed) => if AudioCapture::can_plan(format) {
            Some((Phase::StartingCapture, Action::StartCapture(AudioCapture::spec_plan(format))))
        } else {
            Some((Phase::Idle, Action::Abandon(StartFailure::Capture)))
        },
        (Phase::OpeningSink, Event::Failed(_)) => Some(
            (Phase::Idle, Action::Abandon(StartFailure::Sink)),
        ),
        (Phase::StartingCapture, Event::Completed) => Some((Phase::Recording, Action::Listen)),
        (Phase::StartingCapture, Event::Failed(_)) => Some(
            (Phase::Idle, Action::Abandon(StartFailure::Capture)),
        ),
        (Phase::Recording, Event::Command(RecorderCommand::Start)) => Some(
            (Phase::Recording, Action::AlreadyRecording),
        ),
        (Phase::Recording, Event::Command(RecorderCommand::Stop)) => Some(
            (Phase::DroppingStream, Action::DropStream),
        ),
        (Phase::Recording, Event::Chunk(chunk)) => Some((Phase::Writing, Action::Write(chunk))),
        (Phase::Writing, Event::Completed) => Some((Phase::Recording, Action::Listen)),
        (Phase::Writing, Event::Failed(_)) => Some((Phase::Degraded, Action::Listen)),
        (Phase::Degraded, Event::Command(RecorderCommand::Start)) => Some(
            (Phase::Degraded, Action::AlreadyRecording),
        ),
        (Phase::Degraded, Event::Command(RecorderCommand::Stop)) => Some(
            (Phase::DroppingStream, Action::DropStream),
        ),
        (Phase::DroppingStream, Event::Completed) => Some((Phase::Draining, Action::TryReceive)),
        (Phase::Draining, Event::Queued(Some(chunk))) => Some(
            (Phase::DrainWriting, Action::Write(chunk)),
        ),
        (Phase::Draining, Event::Queued(None)) => Some(
            (Phase::ReplacingChannel, Action::ReplaceChannel(CHUNK_CHANNEL_CAPACITY)),
        ),
        (Phase::DrainWriting, Event::Completed) => Some((Phase::Draining, Action::TryReceive)),
        (Phase::DrainWriting, Event::Failed(_)) => Some(
            (Phase::ReplacingChannel, Action::ReplaceChannel(CHUNK_CHANNEL_CAPACITY)),
        ),
        (Phase::ReplacingChannel, Event::Completed) => Some(
            (Phase::Settling, Action::Sleep(GRACE_MILLIS)),
        ),
        (Phase::Settling, Event::Completed) => Some((Phase::Finalizing, Action::Finalize)),
        (Phase::Finalizing, Event::Completed) => Some((Phase::Idle, Action::Reply(Ok(())))),
        (Phase::Finalizing, Event::Failed(why)) => Some(
            (Phase::Idle, Action::Reply(Err(RecorderError::Finalize(why)))),
        ),
        _ => None,
    }
}

/// Coordinates audio capture and encoding.
pub struct Recorder {
    format: AudioFormat,
    phase: Phase,
}

impl Recorder {
    /// The phase the recorder is in.
    pub closed spec fn spec_phase(&self) -> Phase {
        self.phase
    }

    /// The format of every session of this recorder.
    pub closed spec fn spec_format(&self) -> AudioFormat {
        self.format
    }

    /// An idle recorder for a format.
    pub fn new(format: AudioFormat) -> (recorder: Self)
        ensures
            recorder.spec_phase() == Phase::Idle,
            recorder.spec_format() == format,
    {
        Recorder { format, phase: Phase::Idle }
    }

    /// The phase the recorder is in.
    pub fn phase(&self) -> (phase: Phase)
        ensures
            phase == self.spec_phase(),
    {
        self.phase
    }

    /// The format of every session of this recorder.
    pub fn format(&self) -> (format: AudioFormat)
        ensures
            format == self.spec_format(),
    {
        self.format
    }

    /// Whether chunks are to be taken from the bridge now. Chunks are never
    /// read while there is no encoder to receive them.
    pub fn wants_chunks(&self) -> (wanted: bool)
        ensures
            wanted == wants_chunks(self.spec_phase()),
    {
        self.phase == Phase::Recording
    }

    /// Whether the recorder waits for the outcome of the action it asked
    /// for last, rather than for a command.
    pub fn awaits_outcome(&self) -> (waiting: bool)
        ensures
            waiting == awaits_outcome(self.spec_phase()),
    {
        self.phase != Phase::Idle && self.phase != Phase::Recording && self.phase
            != Phase::Degraded
    }

    /// Whether a session exists.
    pub fn has_session(&self) -> (active: bool)
        ensures
            active == has_session(self.spec_phase()),
    {
        self.phase != Phase::Idle
    }

    /// Handles a command from a handle. Commands are accepted exactly while
    /// no outcome is awaited.
    pub fn handle_command(&mut self, cmd: RecorderCommand) -> (action: Option<Action>)
        ensures
            final(self).spec_format() == old(self).spec_format(),
            action is Some <==> !awaits_outcome(old(self).spec_phase()),
            match next(old(self).spec_phase(), old(self).spec_format(), Event::Command(cmd)) {
                Some((phase, act)) => action == Some(act) && final(self).spec_phase() == phase,
                None => action is None && final(self).spec_phase() == old(self).spec_phase(),
            },
    {
        match self.phase {
            Phase::Idle => match cmd {
                RecorderCommand::Start => {
                    if self.format.is_valid() {
                        self.phase = Phase::CreatingFile;
                        Some(
                            Action::CreateTempFile(
                                TempFileName { prefix: TEMP_FILE_PREFIX, suffix: TEMP_FILE_SUFFIX },
                            ),
                        )
                    } else {
                        Some(Action::Abandon(StartFailure::Format))
                    }
                },
                RecorderCommand::Stop => Some(
                    Action::Reply(Err(RecorderError::NoActiveRecording)),
                ),
            },
            Phase::Recording | Phase::Degraded => match cmd {
                RecorderCommand::Start => Some(Action::AlreadyRecording),
                RecorderCommand::Stop => {
                    self.phase = Phase::DroppingStream;
                    Some(Action::DropStream)
                },
            },
            _ => None,
        }
    }

    /// Handles a chunk from the bridge: while recording it goes to the
    /// encoder; in any other phase it is not accepted.
    pub fn handle_chunk(&mut self, chunk: Vec<u32>) -> (action: Option<Action>)
        ensures
            final(self).spec_format() == old(self).spec_format(),
            action is Some <==> wants_chunks(old(self).spec_phase()),
            match next(old(self).spec_phase(), old(self).spec_format(), Event::Chunk(chunk)) {
                Some((phase, act)) => action == Some(act) && final(self).spec_phase() == phase,
                None => action is None && final(self).spec_phase() == old(self).spec_phase(),
            },
    {
        match self.phase {
            Phase::Recording => {
                self.phase = Phase::Writing;
                Some(Action::Write(chunk))
            },
            _ => None,
        }
    }

    /// Takes one step: the next phase and action are those of the
    /// transition table; an event that has no place in the current phase
    /// changes nothing and is answered with `None`.
    pub fn step(&mut self, event: Event) -> (action: Option<Action>)
        ensures
            final(self).spec_format() == old(self).spec_format(),
            match next(old(self).spec_phase(), old(self).spec_format(), event) {
                Some((phase, act)) => action == Some(act) && final(self).spec_phase() == phase,
                None => action is None && final(self).spec_phase() == old(self).spec_phase(),
            },
    {
        match event {
            Event::Command(cmd) => self.handle_command(cmd),
            Event::Chunk(chunk) => self.handle_chunk(chunk),
            Event::Completed => self.handle_completed(),
            Event::Failed(why) => self.handle_failed(why),
            Event::Queued(queued) => self.handle_queued(queued),
        }
    }

    /// The action asked for last was performed: go on with the sequence it
    /// belongs to.
    pub fn handle_completed(&mut self) -> (action: Option<Action>)
        ensures
            final(self).spec_format() == old(self).spec_format(),
            match next(old(self).spec_phase(), old(self).spec_format(), Event::Completed) {
                Some((phase, act)) => action == Some(act) && final(self).spec_phase() == phase,
                None => action is None && final(self).spec_phase() == old(self).spec_phase(),
            },
    {
        match self.phase {
            Phase::CreatingFile => {
                self.phase = Phase::OpeningSink;
                Some(Action::OpenSink(WavSink::spec_of(self.format)))
            },
            Phase::OpeningSink => match AudioCapture::plan(self.format) {
                Some(plan) => {
                    self.phase = Phase::StartingCapture;
                    Some(Action::StartCapture(plan))
                },
                None => {
                    self.phase = Phase::Idle;
                    Some(Action::Abandon(StartFailure::Capture))
                },
            },
            Phase::StartingCapture => {
                self.phase = Phase::Recording;
                Some(Action::Listen)
            },
            Phase::Writing => {
                self.phase = Phase::Recording;
                Some(Action::Listen)
            },
            Phase::DroppingStream => {
                self.phase = Phase::Draining;
                Some(Action::TryReceive)
            },
            Phase::DrainWriting => {
                self.phase = Phase::Draining;
                Some(Action::TryReceive)
            },
            Phase::ReplacingChannel => {
                self.phase = Phase::Settling;
                Some(Action::Sleep(GRACE_MILLIS))
            },
            Phase::Settling => {
                self.phase = Phase::Finalizing;
                Some(Action::Finalize)
            },
            Phase::Finalizing => {
                self.phase = Phase::Idle;
                Some(Action::Reply(Ok(())))
            },
            _ => None,
        }
    }

    /// The action asked for last failed: a failed start is abandoned, a
    /// failed write ends the forwarding of chunks, a failure to finalize is
    /// the answer to `Stop`.
    pub fn handle_failed(&mut self, why: String) -> (action: Option<Action>)
        ensures
            final(self).spec_format() == old(self).spec_format(),
            match next(old(self).spec_phase(), old(self).spec_format(), Event::Failed(why)) {
                Some((phase, act)) => action == Some(act) && final(self).spec_phase() == phase,
                None => action is None && final(self).spec_phase() == old(self).spec_phase(),
            },
    {
        match self.phase {
            Phase::CreatingFile => {
                self.phase = Phase::Idle;
                Some(Action::Abandon(StartFailure::TempFile))
            },
            Phase::OpeningSink => {
                self.phase = Phase::Idle;
                Some(Action::Abandon(StartFailure::Sink))
            },
            Phase::StartingCapture => {
                self.phase = Phase::Idle;
                Some(Action::Abandon(StartFailure::Capture))
            },
            Phase::Writing => {
                self.phase = Phase::Degraded;
                Some(Action::Listen)
            },
            Phase::DrainWriting => {
                self.phase = Phase::ReplacingChannel;
                Some(Action::ReplaceChannel(CHUNK_CHANNEL_CAPACITY))
            },
            Phase::Finalizing => {
                self.phase = Phase::Idle;
                Some(Action::Reply(Err(RecorderError::Finalize(why))))
            },
            _ => None,
        }
    }

    /// The answer to `TryReceive`: a queued chunk is written before
    /// anything else happens; once nothing is queued the channel is
    /// replaced.
    pub fn handle_queued(&mut self, queued: Option<Vec<u32>>) -> (action: Option<Action>)
        ensures
            final(self).spec_format() == old(self).spec_format(),
            match next(old(self).spec_phase(), old(self).spec_format(), Event::Queued(queued)) {
                Some((phase, act)) => action == Some(act) && final(self).spec_phase() == phase,
                None => action is None && final(self).spec_phase() == old(self).spec_phase(),
            },
    {
        match self.phase {
            Phase::Draining => match queued {
                Some(chunk) => {
                    self.phase = Phase::DrainWriting;
                    Some(Action::Write(chunk))
                },
                None => {
                    self.phase = Phase::ReplacingChannel;
                    Some(Action::ReplaceChannel(CHUNK_CHANNEL_CAPACITY))
                },
            },
            _ => None,
        }
    }
}

/// What a handle answers to `start`: success once the command was handed
/// to the recorder, a failure where the recorder is gone. Whether a session
/// began is not known then; a later `stop` tells.
pub fn resolve_start(sent: bool) -> (r: Result<(), RecorderError>)
    ensures
        sent ==> r == Ok::<(), RecorderError>(()),
        !sent ==> r == Err::<(), RecorderError>(RecorderError::CommandNotSent),
{
    if sent {
        Ok(())
    } else {
        Err(RecorderError::CommandNotSent)
    }
}

/// What a handle answers to `stop`: the recorder's own answer where one
/// came; a failure where the command could not be handed over, or where the
/// recorder went away before it answered.
pub fn resolve_stop(sent: bool, reply: Option<Result<(), RecorderError>>) -> (r: Result<
    (),
    RecorderError,
>)
    ensures
        !sent ==> r == Err::<(), RecorderError>(RecorderError::CommandNotSent),
        sent && reply is None ==> r == Err::<(), RecorderError>(RecorderError::ReplyNotReceived),
        sent && reply is Some ==> r == reply->Some_0,
{
    if !sent {
        return Err(RecorderError::CommandNotSent);
    }
    match reply {
        Some(answer) => answer,
        None => Err(RecorderError::ReplyNotReceived),
    }
}

} // verus!
