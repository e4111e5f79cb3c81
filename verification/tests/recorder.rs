use dictator::audio::capture::AudioCapture;
use dictator::audio::format::AudioFormat;
use dictator::audio::wav_sink::WavSink;
use dictator::messages::RecorderCommand;
use dictator::services::recorder::{
    resolve_start, resolve_stop, Action, Event, Phase, Recorder, RecorderError, StartFailure, TempFileName,
    CHUNK_CHANNEL_CAPACITY, COMMAND_CHANNEL_CAPACITY, GRACE_MILLIS, TEMP_FILE_PREFIX, TEMP_FILE_SUFFIX,
};

const NAME: TempFileName = TempFileName { prefix: "dictator-", suffix: ".wav" };

fn recording() -> Recorder {
    let mut recorder = Recorder::new(AudioFormat::default());
    assert_eq!(recorder.step(Event::Command(RecorderCommand::Start)), Some(Action::CreateTempFile(NAME)));
    assert!(matches!(recorder.step(Event::Completed), Some(Action::OpenSink(_))));
    assert!(matches!(recorder.step(Event::Completed), Some(Action::StartCapture(_))));
    assert_eq!(recorder.step(Event::Completed), Some(Action::Listen));
    assert_eq!(recorder.phase(), Phase::Recording);
    recorder
}

#[test]
fn new_recorder_is_idle() {
    let recorder = Recorder::new(AudioFormat { sample_rate: 48000, channels: 2 });
    assert_eq!(recorder.phase(), Phase::Idle);
    assert_eq!(recorder.format().sample_rate, 48000);
    assert_eq!(recorder.format().channels, 2);
    assert!(!recorder.has_session());
    assert!(!recorder.wants_chunks());
    assert!(!recorder.awaits_outcome());
}

#[test]
fn stop_while_idle_fails_with_no_active_recording() {
    let mut recorder = Recorder::new(AudioFormat::default());
    let action = recorder.step(Event::Command(RecorderCommand::Stop));
    assert_eq!(action, Some(Action::Reply(Err(RecorderError::NoActiveRecording))));
    assert_eq!(recorder.phase(), Phase::Idle);
    assert_eq!(RecorderError::NoActiveRecording.message(), "No active recording");
    let again = recorder.handle_command(RecorderCommand::Stop);
    assert_eq!(again, Some(Action::Reply(Err(RecorderError::NoActiveRecording))));
}

#[test]
fn start_runs_file_sink_capture_in_order() {
    let format = AudioFormat::default();
    let mut recorder = Recorder::new(format);
    assert_eq!(recorder.step(Event::Command(RecorderCommand::Start)), Some(Action::CreateTempFile(NAME)));
    assert_eq!(recorder.phase(), Phase::CreatingFile);
    assert!(recorder.awaits_outcome());
    assert!(recorder.has_session());
    assert_eq!(recorder.step(Event::Completed), Some(Action::OpenSink(WavSink::spec_of(format))));
    assert_eq!(recorder.phase(), Phase::OpeningSink);
    let plan = AudioCapture::plan(format).unwrap();
    assert_eq!(recorder.step(Event::Completed), Some(Action::StartCapture(plan)));
    assert_eq!(recorder.phase(), Phase::StartingCapture);
    assert!(!recorder.wants_chunks());
    assert_eq!(recorder.step(Event::Completed), Some(Action::Listen));
    assert_eq!(recorder.phase(), Phase::Recording);
    assert!(recorder.wants_chunks());
    assert!(!recorder.awaits_outcome());
}

#[test]
fn start_while_recording_changes_nothing() {
    let mut recorder = recording();
    assert_eq!(recorder.step(Event::Command(RecorderCommand::Start)), Some(Action::AlreadyRecording));
    assert_eq!(recorder.phase(), Phase::Recording);
    assert!(recorder.wants_chunks());
    assert_eq!(recorder.step(Event::Chunk(vec![1, 2])), Some(Action::Write(vec![1, 2])));
}

#[test]
fn two_starts_give_one_session() {
    let mut recorder = Recorder::new(AudioFormat::default());
    let mut files = 0;
    let mut pending = vec![RecorderCommand::Start, RecorderCommand::Start];
    pending.reverse();
    let mut last = None;
    while let Some(cmd) = pending.pop() {
        let mut action = recorder.step(Event::Command(cmd));
        while recorder.awaits_outcome() {
            if action == Some(Action::CreateTempFile(NAME)) {
                files += 1;
            }
            action = recorder.step(Event::Completed);
        }
        last = action;
    }
    assert_eq!(files, 1);
    assert_eq!(last, Some(Action::AlreadyRecording));
    assert_eq!(recorder.phase(), Phase::Recording);
}

#[test]
fn failed_start_leaves_recorder_idle() {
    let mut recorder = Recorder::new(AudioFormat::default());
    recorder.step(Event::Command(RecorderCommand::Start));
    assert_eq!(
        recorder.step(Event::Failed("disk full".to_string())),
        Some(Action::Abandon(StartFailure::TempFile))
    );
    assert_eq!(recorder.phase(), Phase::Idle);

    recorder.step(Event::Command(RecorderCommand::Start));
    recorder.step(Event::Completed);
    assert_eq!(
        recorder.step(Event::Failed("not writable".to_string())),
        Some(Action::Abandon(StartFailure::Sink))
    );
    assert_eq!(recorder.phase(), Phase::Idle);

    recorder.step(Event::Command(RecorderCommand::Start));
    recorder.step(Event::Completed);
    recorder.step(Event::Completed);
    assert_eq!(
        recorder.step(Event::Failed("no input device".to_string())),
        Some(Action::Abandon(StartFailure::Capture))
    );
    assert_eq!(recorder.phase(), Phase::Idle);
    assert_eq!(
        recorder.step(Event::Command(RecorderCommand::Stop)),
        Some(Action::Reply(Err(RecorderError::NoActiveRecording)))
    );
    assert_eq!(recorder.step(Event::Command(RecorderCommand::Start)), Some(Action::CreateTempFile(NAME)));
}

#[test]
fn start_is_abandoned_for_a_format_without_recordings() {
    for format in [
        AudioFormat { sample_rate: 0, channels: 1 },
        AudioFormat { sample_rate: 16000, channels: 0 },
        AudioFormat { sample_rate: u32::MAX, channels: 1 },
        AudioFormat { sample_rate: 48000, channels: u16::MAX },
    ] {
        assert!(!format.is_valid());
        let mut recorder = Recorder::new(format);
        assert_eq!(
            recorder.step(Event::Command(RecorderCommand::Start)),
            Some(Action::Abandon(StartFailure::Format))
        );
        assert_eq!(recorder.phase(), Phase::Idle);
        assert!(!recorder.has_session());
    }
}

#[test]
fn usual_formats_are_valid() {
    assert!(AudioFormat::default().is_valid());
    assert!(AudioFormat { sample_rate: 44100, channels: 2 }.is_valid());
    assert!(AudioFormat { sample_rate: 192000, channels: 8 }.is_valid());
    assert!(AudioFormat { sample_rate: 1, channels: 1 }.is_valid());
    assert!(AudioFormat { sample_rate: 32768, channels: 65535 }.is_valid());
    assert!(!AudioFormat { sample_rate: 32769, channels: 65535 }.is_valid());
}

#[test]
fn chunks_are_refused_unless_recording() {
    let mut recorder = Recorder::new(AudioFormat::default());
    assert_eq!(recorder.step(Event::Chunk(vec![1])), None);
    assert_eq!(recorder.handle_chunk(vec![1]), None);
    assert_eq!(recorder.phase(), Phase::Idle);
    recorder.step(Event::Command(RecorderCommand::Start));
    assert_eq!(recorder.step(Event::Chunk(vec![1])), None);
    assert_eq!(recorder.phase(), Phase::CreatingFile);
}

#[test]
fn events_out_of_place_change_nothing() {
    let mut recorder = Recorder::new(AudioFormat::default());
    assert_eq!(recorder.step(Event::Completed), None);
    assert_eq!(recorder.step(Event::Failed("x".to_string())), None);
    assert_eq!(recorder.step(Event::Queued(None)), None);
    assert_eq!(recorder.phase(), Phase::Idle);
    let mut busy = recording();
    assert_eq!(busy.step(Event::Queued(Some(vec![1]))), None);
    assert_eq!(busy.step(Event::Completed), None);
    assert_eq!(busy.phase(), Phase::Recording);
    busy.step(Event::Command(RecorderCommand::Stop));
    assert_eq!(busy.step(Event::Command(RecorderCommand::Start)), None);
    assert_eq!(busy.step(Event::Command(RecorderCommand::Stop)), None);
    assert_eq!(busy.step(Event::Failed("x".to_string())), None);
    assert_eq!(busy.phase(), Phase::DroppingStream);
}

#[test]
fn write_failure_degrades_the_session() {
    let mut recorder = recording();
    assert_eq!(recorder.step(Event::Chunk(vec![7])), Some(Action::Write(vec![7])));
    assert_eq!(recorder.phase(), Phase::Writing);
    assert_eq!(recorder.step(Event::Failed("encoder gone".to_string())), Some(Action::Listen));
    assert_eq!(recorder.phase(), Phase::Degraded);
    assert!(!recorder.wants_chunks());
    assert!(recorder.has_session());
    assert_eq!(recorder.step(Event::Chunk(vec![8])), None);
    assert_eq!(recorder.step(Event::Command(RecorderCommand::Start)), Some(Action::AlreadyRecording));
    assert_eq!(recorder.phase(), Phase::Degraded);
    assert_eq!(recorder.step(Event::Command(RecorderCommand::Stop)), Some(Action::DropStream));
    assert_eq!(recorder.step(Event::Completed), Some(Action::TryReceive));
    assert_eq!(recorder.step(Event::Queued(Some(vec![9]))), Some(Action::Write(vec![9])));
    assert_eq!(recorder.step(Event::Failed("encoder gone".to_string())), Some(Action::ReplaceChannel(100)));
    assert_eq!(recorder.step(Event::Completed), Some(Action::Sleep(GRACE_MILLIS)));
    assert_eq!(recorder.step(Event::Completed), Some(Action::Finalize));
    assert_eq!(
        recorder.step(Event::Failed("disk full".to_string())),
        Some(Action::Reply(Err(RecorderError::Finalize("disk full".to_string()))))
    );
    assert_eq!(recorder.phase(), Phase::Idle);
}

#[test]
fn stop_drains_queued_chunks_before_finalizing() {
    let mut recorder = recording();
    assert_eq!(recorder.step(Event::Command(RecorderCommand::Stop)), Some(Action::DropStream));
    assert!(!recorder.wants_chunks());
    assert_eq!(recorder.step(Event::Completed), Some(Action::TryReceive));
    assert_eq!(recorder.step(Event::Queued(Some(vec![1, 2]))), Some(Action::Write(vec![1, 2])));
    assert_eq!(recorder.step(Event::Completed), Some(Action::TryReceive));
    assert_eq!(recorder.step(Event::Queued(Some(vec![3]))), Some(Action::Write(vec![3])));
    assert_eq!(recorder.step(Event::Completed), Some(Action::TryReceive));
    assert_eq!(recorder.step(Event::Queued(None)), Some(Action::ReplaceChannel(100)));
    assert_eq!(recorder.step(Event::Completed), Some(Action::Sleep(50)));
    assert_eq!(recorder.step(Event::Completed), Some(Action::Finalize));
    assert_eq!(recorder.step(Event::Completed), Some(Action::Reply(Ok(()))));
    assert_eq!(recorder.phase(), Phase::Idle);
    assert!(!recorder.has_session());
}

#[test]
fn error_texts() {
    assert_eq!(
        RecorderError::Finalize("disk full".to_string()).message(),
        "Failed to finalize WAV: disk full"
    );
    assert_eq!(RecorderError::CommandNotSent.message(), "Failed to send command: the recorder is gone");
    assert_eq!(RecorderError::ReplyNotReceived.message(), "Failed to receive stop response");
}

#[test]
fn handle_answers() {
    assert_eq!(resolve_start(true), Ok(()));
    assert_eq!(resolve_start(false), Err(RecorderError::CommandNotSent));
    assert_eq!(resolve_stop(false, None), Err(RecorderError::CommandNotSent));
    assert_eq!(resolve_stop(false, Some(Ok(()))), Err(RecorderError::CommandNotSent));
    assert_eq!(resolve_stop(true, None), Err(RecorderError::ReplyNotReceived));
    assert_eq!(resolve_stop(true, Some(Ok(()))), Ok(()));
    assert_eq!(
        resolve_stop(true, Some(Err(RecorderError::NoActiveRecording))),
        Err(RecorderError::NoActiveRecording)
    );
}

#[test]
fn file_name_and_channel_sizes() {
    assert_eq!(TEMP_FILE_PREFIX, "dictator-");
    assert_eq!(TEMP_FILE_SUFFIX, ".wav");
    assert_eq!(CHUNK_CHANNEL_CAPACITY, 100);
    assert_eq!(COMMAND_CHANNEL_CAPACITY, 10);
    let mut recorder = Recorder::new(AudioFormat::default());
    match recorder.step(Event::Command(RecorderCommand::Start)) {
        Some(Action::CreateTempFile(name)) => {
            assert_eq!(name.prefix, "dictator-");
            assert_eq!(name.suffix, ".wav");
        }
        other => panic!("unexpected action {:?}", other),
    }
}
