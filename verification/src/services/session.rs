//! Whole sessions: what the recorder does over a sequence of events, and
//! what that means for the audio in the file.

use super::recorder::{
    next, temp_file_name, Action, Event, Phase, RecorderError, CHUNK_CHANNEL_CAPACITY, GRACE_MILLIS,
};
use crate::audio::capture::AudioCapture;
use crate::audio::format::AudioFormat;
use crate::audio::sample::{lemma_quantized_seq_concat, quantized_seq};
use crate::audio::wav_sink::WavSink;
use crate::messages::RecorderCommand;
use vstd::prelude::*;

verus! {

/// The phase reached and the actions asked for, in order, when the events
/// are handed to a recorder one after the other. An event that has no place
/// in the phase it meets leaves no trace.
pub open spec fn run(phase: Phase, format: AudioFormat, events: Seq<Event>) -> (Phase, Seq<Action>)
    decreases events.len(),
{
    if events.len() == 0 {
        (phase, Seq::empty())
    } else {
        let before = run(phase, format, events.drop_last());
        match next(before.0, format, events.last()) {
            Some((after, action)) => (after, before.1.push(action)),
            None => before,
        }
    }
}

/// The samples handed to the encoder by a sequence of actions, in order.
pub open spec fn written(actions: Seq<Action>) -> Seq<u32>
    decreases actions.len(),
{
    if actions.len() == 0 {
        Seq::empty()
    } else {
        match actions.last() {
            Action::Write(chunk) => written(actions.drop_last()) + chunk@,
            _ => written(actions.drop_last()),
        }
    }
}

/// What an encoder that was open throughout puts into the file for a
/// sequence of actions: the encoding of each chunk it is handed, in order.
pub open spec fn encoded(actions: Seq<Action>) -> Seq<i16>
    decreases actions.len(),
{
    if actions.len() == 0 {
        Seq::empty()
    } else {
        match actions.last() {
            Action::Write(chunk) => encoded(actions.drop_last()) + quantized_seq(chunk@),
            _ => encoded(actions.drop_last()),
        }
    }
}

/// The samples of a sequence of chunks, in order.
pub open spec fn samples_of(chunks: Seq<Vec<u32>>) -> Seq<u32>
    decreases chunks.len(),
{
    if chunks.len() == 0 {
        Seq::empty()
    } else {
        samples_of(chunks.drop_last()) + chunks.last()@
    }
}

/// The events of a start that succeeds: the command, then the creation of
/// the file, the opening of the encoder and the start of the capture.
pub open spec fn start_events() -> Seq<Event> {
    seq![
        Event::Command(RecorderCommand::Start),
        Event::Completed,
        Event::Completed,
        Event::Completed,
    ]
}

/// What a start that succeeds asks for.
pub open spec fn start_actions(format: AudioFormat) -> Seq<Action> {
    seq![
        Action::CreateTempFile(temp_file_name()),
        Action::OpenSink(WavSink::spec_for(format)),
        Action::StartCapture(AudioCapture::spec_plan(format)),
        Action::Listen,
    ]
}

/// The events of chunks that arrive while recording, each written with
/// success.
pub open spec fn delivery_events(chunks: Seq<Vec<u32>>) -> Seq<Event>
    decreases chunks.len(),
{
    if chunks.len() == 0 {
        Seq::empty()
    } else {
        delivery_events(chunks.drop_last()).push(Event::Chunk(chunks.last())).push(
            Event::Completed,
        )
    }
}

/// What the delivery of chunks asks for: each chunk is written, in order.
pub open spec fn delivery_actions(chunks: Seq<Vec<u32>>) -> Seq<Action>
    decreases chunks.len(),
{
    if chunks.len() == 0 {
        Seq::empty()
    } else {
        delivery_actions(chunks.drop_last()).push(Action::Write(chunks.last())).push(
            Action::Listen,
        )
    }
}

/// The events of chunks found queued in the channel during the drain, each
/// written with success.
pub open spec fn drain_events(queued: Seq<Vec<u32>>) -> Seq<Event>
    decreases queued.len(),
{
    if queued.len() == 0 {
        Seq::empty()
    } else {
        drain_events(queued.drop_last()).push(Event::Queued(Some(queued.last()))).push(
            Event::Completed,
        )
    }
}

/// What the drain asks for: each queued chunk is written, in order, and the
/// channel is asked again.
pub open spec fn drain_actions(queued: Seq<Vec<u32>>) -> Seq<Action>
    decreases queued.len(),
{
    if queued.len() == 0 {
        Seq::empty()
    } else {
        drain_actions(queued.drop_last()).push(Action::Write(queued.last())).push(
            Action::TryReceive,
        )
    }
}

/// The events of a stop that succeeds, with the chunks found queued: the
/// command, the drop of the stream, the drain until the channel is empty,
/// the replacement of the channel, the grace period and the finalization.
pub open spec fn stop_events(queued: Seq<Vec<u32>>) -> Seq<Event> {
    seq![Event::Command(RecorderCommand::Stop), Event::Completed] + drain_events(queued)
        + seq![Event::Queued(None), Event::Completed, Event::Completed, Event::Completed]
}

/// What a stop that succeeds asks for.
pub open spec fn stop_actions(queued: Seq<Vec<u32>>) -> Seq<Action> {
    seq![Action::DropStream, Action::TryReceive] + drain_actions(queued) + seq![
        Action::ReplaceChannel(CHUNK_CHANNEL_CAPACITY),
        Action::Sleep(GRACE_MILLIS),
        Action::Finalize,
        Action::Reply(Ok(())),
    ]
}

/// Running two sequences of events one after the other is running their
/// concatenation.
pub proof fn lemma_run_concat(phase: Phase, format: AudioFormat, first: Seq<Event>, second: Seq<Event>)
    ensures
        run(phase, format, first + second) == (
            run(run(phase, format, first).0, format, second).0,
            run(phase, format, first).1 + run(run(phase, format, first).0, format, second).1,
        ),
    decreases second.len(),
{
    let mid = run(phase, format, first);
    if second.len() == 0 {
        assert(first + second =~= first);
        assert(mid.1 + Seq::<Action>::empty() =~= mid.1);
    } else {
        lemma_run_concat(phase, format, first, second.drop_last());
        assert((first + second).drop_last() =~= first + second.drop_last());
        assert((first + second).last() == second.last());
        let before = run(mid.0, format, second.drop_last());
        match next(before.0, format, second.last()) {
            Some((after, action)) => {
                assert((mid.1 + before.1).push(action) =~= mid.1 + before.1.push(action));
            },
            None => {},
        }
    }
}

/// The samples written by two sequences of actions are those of the first
/// followed by those of the second.
pub proof fn lemma_written_concat(first: Seq<Action>, second: Seq<Action>)
    ensures
        written(first + second) == written(first) + written(second),
    decreases second.len(),
{
    if second.len() == 0 {
        assert(first + second =~= first);
        assert(written(first) + written(second) =~= written(first));
    } else {
        lemma_written_concat(first, second.drop_last());
        assert((first + second).drop_last() =~= first + second.drop_last());
        assert((first + second).last() == second.last());
        match second.last() {
            Action::Write(chunk) => {
                assert((written(first) + written(second.drop_last())) + chunk@ =~= written(first)
                    + (written(second.drop_last()) + chunk@));
            },
            _ => {},
        }
    }
}

/// Appending one action to a sequence of actions.
proof fn lemma_written_push(actions: Seq<Action>, action: Action)
    ensures
        written(actions.push(action)) == match action {
            Action::Write(chunk) => written(actions) + chunk@,
            _ => written(actions),
        },
{
    assert(actions.push(action).drop_last() =~= actions);
    assert(actions.push(action).last() == action);
}

/// The file holds the sample-by-sample encoding of what was written, in
/// the order of the writes: chunk borders leave no trace.
pub proof fn lemma_encoded_is_quantized_written(actions: Seq<Action>)
    ensures
        encoded(actions) == quantized_seq(written(actions)),
        encoded(actions).len() == written(actions).len(),
    decreases actions.len(),
{
    if actions.len() == 0 {
        assert(quantized_seq(Seq::<u32>::empty()) =~= Seq::<i16>::empty());
    } else {
        lemma_encoded_is_quantized_written(actions.drop_last());
        match actions.last() {
            Action::Write(chunk) => {
                lemma_quantized_seq_concat(written(actions.drop_last()), chunk@);
            },
            _ => {},
        }
    }
}

/// One step from a phase: the run of a single event.
proof fn lemma_run_one(phase: Phase, format: AudioFormat, event: Event)
    ensures
        run(phase, format, seq![event]) == match next(phase, format, event) {
            Some((after, action)) => (after, seq![action]),
            None => (phase, Seq::<Action>::empty()),
        },
{
    let events = seq![event];
    assert(events.drop_last() =~= Seq::<Event>::empty());
    assert(events.last() == event);
    assert(run(phase, format, events.drop_last()) == (phase, Seq::<Action>::empty()));
    match next(phase, format, event) {
        Some((after, action)) => {
            assert(Seq::<Action>::empty().push(action) =~= seq![action]);
        },
        None => {},
    }
}

/// Appending one event to a run.
proof fn lemma_run_push(phase: Phase, format: AudioFormat, events: Seq<Event>, event: Event)
    ensures
        run(phase, format, events.push(event)) == match next(
            run(phase, format, events).0,
            format,
            event,
        ) {
            Some((after, action)) => (after, run(phase, format, events).1.push(action)),
            None => run(phase, format, events),
        },
{
    assert(events.push(event).drop_last() =~= events);
    assert(events.push(event).last() == event);
}

/// Stopping while idle fails with "no active recording", asks for no file
/// and no encoder, and leaves the recorder idle.
pub proof fn law_stop_while_idle(format: AudioFormat)
    ensures
        run(Phase::Idle, format, seq![Event::Command(RecorderCommand::Stop)]) == (
            Phase::Idle,
            seq![Action::Reply(Err(RecorderError::NoActiveRecording))],
        ),
{
    lemma_run_one(Phase::Idle, format, Event::Command(RecorderCommand::Stop));
}

/// Starting while a session exists changes nothing: the recorder stays in
/// its phase and only reports that it is recording already.
pub proof fn law_start_while_recording(phase: Phase, format: AudioFormat)
    requires
        phase == Phase::Recording || phase == Phase::Degraded,
    ensures
        run(phase, format, seq![Event::Command(RecorderCommand::Start)]) == (
            phase,
            seq![Action::AlreadyRecording],
        ),
{
    lemma_run_one(phase, format, Event::Command(RecorderCommand::Start));
}

/// A start that succeeds leads from idle to recording.
pub proof fn lemma_start(format: AudioFormat)
    requires
        format.is_valid(),
    ensures
        run(Phase::Idle, format, start_events()) == (Phase::Recording, start_actions(format)),
{
    let e0 = Seq::<Event>::empty().push(Event::Command(RecorderCommand::Start));
    let e1 = e0.push(Event::Completed);
    let e2 = e1.push(Event::Completed);
    let e3 = e2.push(Event::Completed);
    assert(e3 =~= start_events());
    lemma_run_push(Phase::Idle, format, Seq::empty(), Event::Command(RecorderCommand::Start));
    lemma_run_push(Phase::Idle, format, e0, Event::Completed);
    lemma_run_push(Phase::Idle, format, e1, Event::Completed);
    lemma_run_push(Phase::Idle, format, e2, Event::Completed);
    assert(run(Phase::Idle, format, e3).1 =~= start_actions(format));
}

/// Two starts in immediate succession give exactly one session: the file is
/// created once, and the second start is only reported.
pub proof fn law_second_start_is_ignored(format: AudioFormat)
    requires
        format.is_valid(),
    ensures
        run(
            Phase::Idle,
            format,
            start_events().push(Event::Command(RecorderCommand::Start)),
        ) == (Phase::Recording, start_actions(format).push(Action::AlreadyRecording)),
{
    lemma_start(format);
    lemma_run_push(Phase::Idle, format, start_events(), Event::Command(RecorderCommand::Start));
}

/// Chunks that arrive while recording are written in the order of their
/// arrival, and the recorder goes on recording.
pub proof fn lemma_delivery(format: AudioFormat, chunks: Seq<Vec<u32>>)
    ensures
        run(Phase::Recording, format, delivery_events(chunks)) == (
            Phase::Recording,
            delivery_actions(chunks),
        ),
        written(delivery_actions(chunks)) == samples_of(chunks),
    decreases chunks.len(),
{
    if chunks.len() > 0 {
        lemma_delivery(format, chunks.drop_last());
        let head = delivery_events(chunks.drop_last());
        lemma_run_push(Phase::Recording, format, head, Event::Chunk(chunks.last()));
        lemma_run_push(
            Phase::Recording,
            format,
            head.push(Event::Chunk(chunks.last())),
            Event::Completed,
        );
        let acts = delivery_actions(chunks.drop_last()).push(Action::Write(chunks.last()));
        lemma_written_push(delivery_actions(chunks.drop_last()), Action::Write(chunks.last()));
        lemma_written_push(acts, Action::Listen);
    }
}

/// Chunks found queued during the drain are written in the order in which
/// they were queued, before anything else happens.
pub proof fn lemma_drain(format: AudioFormat, queued: Seq<Vec<u32>>)
    ensures
        run(Phase::Draining, format, drain_events(queued)) == (
            Phase::Draining,
            drain_actions(queued),
        ),
        written(drain_actions(queued)) == samples_of(queued),
    decreases queued.len(),
{
    if queued.len() > 0 {
        lemma_drain(format, queued.drop_last());
        let head = drain_events(queued.drop_last());
        lemma_run_push(Phase::Draining, format, head, Event::Queued(Some(queued.last())));
        lemma_run_push(
            Phase::Draining,
            format,
            head.push(Event::Queued(Some(queued.last()))),
            Event::Completed,
        );
        let acts = drain_actions(queued.drop_last()).push(Action::Write(queued.last()));
        lemma_written_push(drain_actions(queued.drop_last()), Action::Write(queued.last()));
        lemma_written_push(acts, Action::TryReceive);
    }
}

/// The draining law: a stop of a session writes every chunk that is still
/// queued in the channel, in order, after the stream was dropped and before
/// the encoder is finalized; then it answers with the finished file and
/// leaves the recorder idle.
pub proof fn law_stop_drains(phase: Phase, format: AudioFormat, queued: Seq<Vec<u32>>)
    requires
        phase == Phase::Recording || phase == Phase::Degraded,
    ensures
        run(phase, format, stop_events(queued)) == (Phase::Idle, stop_actions(queued)),
        written(stop_actions(queued)) == samples_of(queued),
{
    let head = seq![Event::Command(RecorderCommand::Stop), Event::Completed];
    let tail = seq![Event::Queued(None), Event::Completed, Event::Completed, Event::Completed];
    let e0 = Seq::<Event>::empty().push(Event::Command(RecorderCommand::Stop));
    assert(e0.push(Event::Completed) =~= head);
    lemma_run_push(phase, format, Seq::empty(), Event::Command(RecorderCommand::Stop));
    lemma_run_push(phase, format, e0, Event::Completed);
    assert(run(phase, format, head).1 =~= seq![Action::DropStream, Action::TryReceive]);
    lemma_drain(format, queued);
    let t0 = Seq::<Event>::empty().push(Event::Queued(None));
    let t1 = t0.push(Event::Completed);
    let t2 = t1.push(Event::Completed);
    assert(t2.push(Event::Completed) =~= tail);
    lemma_run_push(Phase::Draining, format, Seq::empty(), Event::Queued(None));
    lemma_run_push(Phase::Draining, format, t0, Event::Completed);
    lemma_run_push(Phase::Draining, format, t1, Event::Completed);
    lemma_run_push(Phase::Draining, format, t2, Event::Completed);
    let last = seq![
        Action::ReplaceChannel(CHUNK_CHANNEL_CAPACITY),
        Action::Sleep(GRACE_MILLIS),
        Action::Finalize,
        Action::Reply(Ok(())),
    ];
    assert(run(Phase::Draining, format, tail).1 =~= last);
    lemma_run_concat(phase, format, head, drain_events(queued));
    lemma_run_concat(phase, format, head + drain_events(queued), tail);
    let first = seq![Action::DropStream, Action::TryReceive];
    lemma_written_concat(first, drain_actions(queued));
    lemma_written_concat(first + drain_actions(queued), last);
    lemma_written_fixed(first);
    lemma_written_fixed(last);
    assert(Seq::<u32>::empty() + samples_of(queued) + Seq::<u32>::empty() =~= samples_of(queued));
}

/// Actions other than `Write` hand nothing to the encoder.
proof fn lemma_written_fixed(actions: Seq<Action>)
    requires
        forall|i: int| 0 <= i < actions.len() ==> !(#[trigger] actions[i] is Write),
    ensures
        written(actions) == Seq::<u32>::empty(),
    decreases actions.len(),
{
    if actions.len() > 0 {
        lemma_written_fixed(actions.drop_last());
    }
}

/// Whether a phase belongs to a stop that was accepted and is not answered
/// yet.
pub open spec fn stop_pending(phase: Phase) -> bool {
    phase == Phase::DroppingStream || phase == Phase::Draining || phase == Phase::DrainWriting
        || phase == Phase::ReplacingChannel || phase == Phase::Settling || phase
        == Phase::Finalizing
}

/// At most one session at a time: a destination file is asked for only by a
/// start that meets an idle recorder, and the input stream is opened only in
/// the course of that start.
pub proof fn law_one_session_at_a_time(phase: Phase, format: AudioFormat, event: Event)
    ensures
        next(phase, format, event) matches Some((after, Action::CreateTempFile(_))) ==> phase
            == Phase::Idle && event == Event::Command(RecorderCommand::Start) && after
            == Phase::CreatingFile && format.is_valid(),
        next(phase, format, event) matches Some((after, Action::StartCapture(_))) ==> phase
            == Phase::OpeningSink && after == Phase::StartingCapture,
        has_session_after(phase, format, event) && phase == Phase::Idle ==> event == Event::Command(
            RecorderCommand::Start,
        ),
{
}

/// Whether a session exists after an event was handled.
pub open spec fn has_session_after(phase: Phase, format: AudioFormat, event: Event) -> bool {
    match next(phase, format, event) {
        Some((after, _)) => after != Phase::Idle,
        None => phase != Phase::Idle,
    }
}

/// Every stop is answered exactly once. A reply is given either at once, to
/// a stop that meets an idle recorder, or at the end of the finalization
/// that an accepted stop led to; and a phase belongs to a pending stop
/// exactly from the acceptance of that stop until its reply.
pub proof fn law_stop_is_answered_once(phase: Phase, format: AudioFormat, event: Event)
    ensures
        match next(phase, format, event) {
            Some((after, action)) => {
                &&& action is Reply <==> (phase == Phase::Idle && event == Event::Command(
                    RecorderCommand::Stop,
                )) || phase == Phase::Finalizing
                &&& stop_pending(after) <==> (stop_pending(phase) && !(action is Reply)) || (
                !stop_pending(phase) && phase != Phase::Idle && event == Event::Command(
                    RecorderCommand::Stop,
                ))
                &&& stop_pending(phase) ==> !(event is Command)
            },
            None => true,
        },
{
}

/// Chunks reach the encoder unchanged and only while it is there: a write is
/// asked for only with the chunk that just arrived while recording, or with
/// the chunk that was just found queued during the drain.
pub proof fn law_writes_are_what_arrived(phase: Phase, format: AudioFormat, event: Event)
    ensures
        next(phase, format, event) matches Some((_, Action::Write(chunk))) ==> (phase
            == Phase::Recording && event == Event::Chunk(chunk)) || (phase == Phase::Draining
            && event == Event::Queued(Some(chunk))),
        event is Chunk && phase != Phase::Recording ==> next(phase, format, event) is None,
{
}

/// The order of a stop: the encoder is finalized only after the grace
/// period, which begins only after the channel was replaced, which happens
/// only at the end of the drain, which begins only after the stream was
/// dropped.
pub proof fn law_stop_order(phase: Phase, format: AudioFormat, event: Event)
    ensures
        match next(phase, format, event) {
            Some((after, action)) => {
                &&& action is Finalize <==> phase == Phase::Settling
                &&& action is Sleep <==> phase == Phase::ReplacingChannel
                &&& action is ReplaceChannel <==> (phase == Phase::Draining && event
                    == Event::Queued(None::<Vec<u32>>)) || (phase == Phase::DrainWriting
                    && event is Failed)
                &&& action is TryReceive <==> (phase == Phase::DroppingStream || phase
                    == Phase::DrainWriting) && event == Event::Completed
                &&& action is DropStream <==> (phase == Phase::Recording || phase
                    == Phase::Degraded) && event == Event::Command(RecorderCommand::Stop)
            },
            None => true,
        },
{
}

/// Failures stay within their session: whatever happened before, an idle
/// recorder accepts the next start.
pub proof fn law_idle_accepts_start(phase: Phase, format: AudioFormat, events: Seq<Event>)
    requires
        format.is_valid(),
        run(phase, format, events).0 == Phase::Idle,
    ensures
        run(phase, format, events.push(Event::Command(RecorderCommand::Start))) == (
            Phase::CreatingFile,
            run(phase, format, events).1.push(Action::CreateTempFile(temp_file_name())),
        ),
{
    lemma_run_push(phase, format, events, Event::Command(RecorderCommand::Start));
}

/// A full cycle in a valid format: a start, chunks delivered while
/// recording, and a stop that finds more chunks queued. The recorder ends
/// idle and answers the stop with the finished file; the encoder was handed
/// exactly the samples of the delivered chunks followed by those of the
/// queued ones; and the file holds their sample-by-sample encoding, one
/// encoded sample for each.
pub proof fn law_full_cycle(format: AudioFormat, delivered: Seq<Vec<u32>>, queued: Seq<Vec<u32>>)
    requires
        format.is_valid(),
    ensures
        run(Phase::Idle, format, start_events() + delivery_events(delivered) + stop_events(queued))
            == (
            Phase::Idle,
            start_actions(format) + delivery_actions(delivered) + stop_actions(queued),
        ),
        written(start_actions(format) + delivery_actions(delivered) + stop_actions(queued))
            == samples_of(delivered) + samples_of(queued),
        encoded(start_actions(format) + delivery_actions(delivered) + stop_actions(queued))
            == quantized_seq(samples_of(delivered) + samples_of(queued)),
        encoded(start_actions(format) + delivery_actions(delivered) + stop_actions(queued)).len()
            == samples_of(delivered).len() + samples_of(queued).len(),
{
    lemma_start(format);
    lemma_delivery(format, delivered);
    law_stop_drains(Phase::Recording, format, queued);
    lemma_run_concat(Phase::Idle, format, start_events(), delivery_events(delivered));
    lemma_run_concat(
        Phase::Idle,
        format,
        start_events() + delivery_events(delivered),
        stop_events(queued),
    );
    lemma_written_fixed(start_actions(format));
    lemma_written_concat(start_actions(format), delivery_actions(delivered));
    lemma_written_concat(
        start_actions(format) + delivery_actions(delivered),
        stop_actions(queued),
    );
    assert(Seq::<u32>::empty() + samples_of(delivered) =~= samples_of(delivered));
    lemma_encoded_is_quantized_written(
        start_actions(format) + delivery_actions(delivered) + stop_actions(queued),
    );
}

} // verus!
