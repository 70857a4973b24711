//! The toggle state machine that drives dictation.
use vstd::prelude::*;

verus! {

/// Where the dictation cycle currently stands.
#[derive(Debug, Clone, Copy, PartialEq, Eq, Structural)]
pub enum State {
    Idle,
    Recording,
    Transcribing,
}

/// Something that happened to the dictation cycle.
#[derive(Debug, Clone, Copy, PartialEq, Eq, Structural)]
pub enum Event {
    HotkeyPressed,
    TranscriptionDone,
    TranscriptionFailed,
}

/// What the caller must do after a transition.
#[derive(Debug, Clone, Copy, PartialEq, Eq, Structural)]
pub enum Action {
    Nothing,
    StartRecording,
    StopAndTranscribe,
}

/// The transition relation, stated case by case.
pub open spec fn step(state: State, event: Event) -> (State, Action) {
    match (state, event) {
        (State::Idle, Event::HotkeyPressed) => (State::Recording, Action::StartRecording),
        (State::Recording, Event::HotkeyPressed) => (State::Transcribing, Action::StopAndTranscribe),
        (State::Transcribing, Event::TranscriptionDone) => (State::Idle, Action::Nothing),
        (State::Transcribing, Event::TranscriptionFailed) => (State::Idle, Action::Nothing),
        (s, _) => (s, Action::Nothing),
    }
}

/// Pure toggle state machine. No IO: the caller performs the returned action.
pub fn transition(state: State, event: Event) -> (r: (State, Action))
    ensures
        r == step(state, event),
{
    match (state, event) {
        (State::Idle, Event::HotkeyPressed) => (State::Recording, Action::StartRecording),
        (State::Recording, Event::HotkeyPressed) => (State::Transcribing, Action::StopAndTranscribe),
        (State::Transcribing, Event::TranscriptionDone) => (State::Idle, Action::Nothing),
        (State::Transcribing, Event::TranscriptionFailed) => (State::Idle, Action::Nothing),
        (s, _) => (s, Action::Nothing),
    }
}


/// What the caller reports after carrying out the action of a hotkey press.
#[derive(Debug, Clone, Copy, PartialEq, Eq, Structural)]
pub enum HotkeyOutcome {
    /// The action needed no work (`Action::Nothing`).
    NoWork,
    /// Recording was asked for and the recorder started.
    RecorderStarted,
    /// Recording was asked for and the recorder could not start.
    RecorderFailed,
    /// Transcription was asked for; the recorder was stopped and its samples queued.
    JobQueued,
    /// Transcription was asked for; the recorder was stopped but the job could not be queued.
    QueueFailed,
    /// Transcription was asked for but no recorder was running.
    NoRecorder,
}

/// The state a hotkey press settles in, given the state before the press, the
/// state the transition proposed and what carrying out the action gave.
pub open spec fn settled(previous: State, proposed: State, outcome: HotkeyOutcome) -> State {
    match outcome {
        HotkeyOutcome::RecorderFailed => previous,
        HotkeyOutcome::NoRecorder => previous,
        HotkeyOutcome::QueueFailed => State::Idle,
        _ => proposed,
    }
}

/// After a hotkey press: roll back to `previous` when the recorder failed to
/// start or was missing, fall back to `Idle` when the transcription job could
/// not be queued, and otherwise keep the state the transition proposed.
pub fn settle_hotkey(previous: State, proposed: State, outcome: HotkeyOutcome) -> (r: State)
    ensures
        r == settled(previous, proposed, outcome),
{
    match outcome {
        HotkeyOutcome::RecorderFailed => previous,
        HotkeyOutcome::NoRecorder => previous,
        HotkeyOutcome::QueueFailed => State::Idle,
        _ => proposed,
    }
}

/// The outcome of a hotkey press's action, from what the caller saw: whether
/// a recorder was running when the action began, and whether the work it did
/// (starting the recorder, or queueing the stopped recorder's samples)
/// succeeded.
pub open spec fn outcome_of(action: Action, had_recorder: bool, work_ok: bool) -> HotkeyOutcome {
    match action {
        Action::Nothing => HotkeyOutcome::NoWork,
        Action::StartRecording => if work_ok {
            HotkeyOutcome::RecorderStarted
        } else {
            HotkeyOutcome::RecorderFailed
        },
        Action::StopAndTranscribe => if !had_recorder {
            HotkeyOutcome::NoRecorder
        } else if work_ok {
            HotkeyOutcome::JobQueued
        } else {
            HotkeyOutcome::QueueFailed
        },
    }
}

/// Classifies what carrying out `action` gave (see [`outcome_of`]).
pub fn hotkey_outcome(action: Action, had_recorder: bool, work_ok: bool) -> (r: HotkeyOutcome)
    ensures
        r == outcome_of(action, had_recorder, work_ok),
{
    match action {
        Action::Nothing => HotkeyOutcome::NoWork,
        Action::StartRecording => if work_ok {
            HotkeyOutcome::RecorderStarted
        } else {
            HotkeyOutcome::RecorderFailed
        },
        Action::StopAndTranscribe => if !had_recorder {
            HotkeyOutcome::NoRecorder
        } else if work_ok {
            HotkeyOutcome::JobQueued
        } else {
            HotkeyOutcome::QueueFailed
        },
    }
}

/// The outcomes that carrying out `action` can report, when a recorder is
/// running exactly if `recording` holds.
pub open spec fn outcome_fits(action: Action, recording: bool, outcome: HotkeyOutcome) -> bool {
    match action {
        Action::Nothing => outcome == HotkeyOutcome::NoWork,
        Action::StartRecording => outcome == HotkeyOutcome::RecorderStarted
            || outcome == HotkeyOutcome::RecorderFailed,
        Action::StopAndTranscribe => if recording {
            outcome == HotkeyOutcome::JobQueued || outcome == HotkeyOutcome::QueueFailed
        } else {
            outcome == HotkeyOutcome::NoRecorder
        },
    }
}

/// Whether a recorder runs after the action reported `outcome`.
pub open spec fn recorder_after(recording: bool, outcome: HotkeyOutcome) -> bool {
    match outcome {
        HotkeyOutcome::RecorderStarted => true,
        HotkeyOutcome::JobQueued => false,
        HotkeyOutcome::QueueFailed => false,
        _ => recording,
    }
}

/// A recorder runs exactly while the cycle is in `Recording`.
pub open spec fn recorder_matches(state: State, recording: bool) -> bool {
    (state == State::Recording) == recording
}

/// A hotkey press from `Idle` starts recording, one from `Recording` stops it
/// and transcribes, and one while transcribing is ignored.
pub proof fn hotkey_toggles(state: State)
    ensures
        state == State::Idle ==> step(state, Event::HotkeyPressed) == (
        State::Recording,
        Action::StartRecording,
        ),
        state == State::Recording ==> step(state, Event::HotkeyPressed) == (
        State::Transcribing,
        Action::StopAndTranscribe,
        ),
        state == State::Transcribing ==> step(state, Event::HotkeyPressed) == (
        State::Transcribing,
        Action::Nothing,
        ),
{
}

/// A completion event (done or failed) ends a transcription in `Idle`, asks for
/// nothing, and leaves any other state as it was.
pub proof fn completion_ends_transcription(state: State, event: Event)
    requires
        event != Event::HotkeyPressed,
    ensures
        step(state, event).1 == Action::Nothing,
        state == State::Transcribing ==> step(state, event).0 == State::Idle,
        state != State::Transcribing ==> step(state, event).0 == state,
{
}

/// Only a hotkey press ever asks for work; every other transition is a no-op
/// or a return to `Idle`.
pub proof fn only_hotkey_asks_for_work(state: State, event: Event)
    ensures
        step(state, event).1 != Action::Nothing ==> event == Event::HotkeyPressed,
        step(state, event).1 == Action::Nothing ==> (step(state, event).0 == state
            || step(state, event).0 == State::Idle),
{
}

/// One full dictation: two hotkey presses and a completion (done or failed)
/// bring `Idle` back to `Idle`, asking first to record and then to transcribe.
pub proof fn dictation_round_trip(completion: Event)
    requires
        completion != Event::HotkeyPressed,
    ensures
        ({
            let (s1, a1) = step(State::Idle, Event::HotkeyPressed);
            let (s2, a2) = step(s1, Event::HotkeyPressed);
            let (s3, a3) = step(s2, completion);
            &&& a1 == Action::StartRecording
            &&& a2 == Action::StopAndTranscribe
            &&& a3 == Action::Nothing
            &&& s3 == State::Idle
        }),
{
}

/// A hotkey press, settled with any outcome its action can report, keeps the
/// recorder running exactly while the cycle is in `Recording`.
pub proof fn hotkey_keeps_recorder_in_step(state: State, recording: bool, outcome: HotkeyOutcome)
    requires
        recorder_matches(state, recording),
        outcome_fits(step(state, Event::HotkeyPressed).1, recording, outcome),
    ensures
        recorder_matches(
            settled(state, step(state, Event::HotkeyPressed).0, outcome),
            recorder_after(recording, outcome),
        ),
        outcome != HotkeyOutcome::NoRecorder,
{
}

/// Whatever the work of a hotkey press gave, classified by [`outcome_of`]:
/// the recorder keeps running exactly while the cycle is in `Recording`; a job
/// is sent exactly when the press came in `Recording`, and then the cycle ends
/// in `Transcribing`, or in `Idle` when the job could not be sent; a press
/// while transcribing changes nothing.
pub proof fn hotkey_press_keeps_recorder(state: State, recording: bool, work_ok: bool)
    requires
        recorder_matches(state, recording),
    ensures
        ({
            let (proposed, action) = step(state, Event::HotkeyPressed);
            let outcome = outcome_of(action, recording, work_ok);
            let after = settled(state, proposed, outcome);
            &&& outcome_fits(action, recording, outcome)
            &&& recorder_matches(after, recorder_after(recording, outcome))
            &&& (outcome == HotkeyOutcome::JobQueued || outcome == HotkeyOutcome::QueueFailed)
                <==> state == State::Recording
            &&& outcome == HotkeyOutcome::JobQueued ==> after == State::Transcribing
            &&& outcome == HotkeyOutcome::QueueFailed ==> after == State::Idle
            &&& state == State::Transcribing ==> after == state && recorder_after(recording, outcome)
                == recording
        }),
{
}

/// The states and actions that the events `es` drive the cycle through from
/// `start`: one more state than there are events, and one action per event.
pub open spec fn trace(start: State, es: Seq<Event>) -> (Seq<State>, Seq<Action>)
    decreases es.len(),
{
    if es.len() == 0 {
        (seq![start], Seq::empty())
    } else {
        let (ss, acts) = trace(start, es.drop_last());
        let (s, a) = step(ss.last(), es.last());
        (ss.push(s), acts.push(a))
    }
}

/// How many more `StartRecording` than `StopAndTranscribe` actions `acts` holds.
pub open spec fn open_recordings(acts: Seq<Action>) -> int
    decreases acts.len(),
{
    if acts.len() == 0 {
        0
    } else {
        open_recordings(acts.drop_last()) + match acts.last() {
            Action::StartRecording => 1int,
            Action::StopAndTranscribe => -1int,
            Action::Nothing => 0int,
        }
    }
}

proof fn lemma_trace_shape(start: State, es: Seq<Event>)
    ensures
        trace(start, es).0.len() == es.len() + 1,
        trace(start, es).1.len() == es.len(),
        trace(start, es).0[0] == start,
        forall|k: int|
            0 <= k < es.len() ==> (trace(start, es).0[k + 1], trace(start, es).1[k]) == step(
                #[trigger] trace(start, es).0[k],
                es[k],
            ),
    decreases es.len(),
{
    if es.len() > 0 {
        let init = es.drop_last();
        lemma_trace_shape(start, init);
        let (ss, acts) = trace(start, init);
        assert forall|k: int| 0 <= k < es.len() implies (trace(start, es).0[k + 1], trace(
            start,
            es,
        ).1[k]) == step(#[trigger] trace(start, es).0[k], es[k]) by {
            if k < es.len() - 1 {
                assert(trace(start, es).0[k] == ss[k]);
                assert(trace(start, es).0[k + 1] == ss[k + 1]);
                assert(trace(start, es).1[k] == acts[k]);
                assert(es[k] == init[k]);
            } else {
                assert(trace(start, es).0[k] == ss.last());
            }
        }
    }
}

proof fn lemma_open_recordings(start: State, es: Seq<Event>)
    requires
        start == State::Idle,
    ensures
        forall|k: int|
            0 <= k <= es.len() ==> open_recordings(#[trigger] trace(start, es).1.take(k)) == (
            if trace(start, es).0[k] == State::Recording {
                1int
            } else {
                0int
            }),
    decreases es.len(),
{
    lemma_trace_shape(start, es);
    let (ss, acts) = trace(start, es);
    if es.len() == 0 {
        assert(acts.take(0) =~= Seq::<Action>::empty());
    } else {
        let init = es.drop_last();
        lemma_open_recordings(start, init);
        lemma_trace_shape(start, init);
        let (ss0, acts0) = trace(start, init);
        assert forall|k: int| 0 <= k <= es.len() implies open_recordings(
            #[trigger] acts.take(k),
        ) == (if ss[k] == State::Recording {
            1int
        } else {
            0int
        }) by {
            if k < es.len() {
                assert(acts.take(k) =~= acts0.take(k));
                assert(ss[k] == ss0[k]);
            } else {
                let n = es.len() - 1;
                assert(acts.take(k).drop_last() =~= acts0.take(n));
                assert(acts.take(k).last() == acts[n]);
                assert(ss[n] == ss0[n]);
                assert((ss[n + 1], acts[n]) == step(ss[n], es[n]));
            }
        }
    }
}

/// Over any run of events from `Idle`: the actions that ask for work
/// alternate, starting to record first; recording starts only from `Idle`
/// and stops only from `Recording`; and the cycle only returns to `Idle`
/// from `Transcribing` (or by staying there).
pub proof fn actions_alternate(es: Seq<Event>)
    ensures
        ({
            let (ss, acts) = trace(State::Idle, es);
            &&& ss.len() == es.len() + 1 && acts.len() == es.len()
            &&& forall|k: int|
                0 <= k <= es.len() ==> 0 <= #[trigger] open_recordings(acts.take(k)) <= 1
            &&& forall|k: int|
                0 <= k < es.len() && #[trigger] acts[k] == Action::StartRecording ==> ss[k]
                    == State::Idle && open_recordings(acts.take(k)) == 0
            &&& forall|k: int|
                0 <= k < es.len() && #[trigger] acts[k] == Action::StopAndTranscribe ==> ss[k]
                    == State::Recording && open_recordings(acts.take(k)) == 1
            &&& forall|k: int|
                0 <= k < es.len() && #[trigger] ss[k] != State::Idle && ss[k + 1] == State::Idle
                    ==> ss[k] == State::Transcribing
        }),
{
    lemma_trace_shape(State::Idle, es);
    lemma_open_recordings(State::Idle, es);
    let (ss, acts) = trace(State::Idle, es);
    assert forall|k: int| 0 <= k <= es.len() implies 0 <= #[trigger] open_recordings(acts.take(k)) <= 1 by {
        assert(open_recordings(acts.take(k)) == (if ss[k] == State::Recording { 1int } else { 0int }));
    }
    assert forall|k: int| 0 <= k < es.len() && #[trigger] acts[k] == Action::StartRecording implies ss[k]
        == State::Idle && open_recordings(acts.take(k)) == 0 by {
        assert((ss[k + 1], acts[k]) == step(ss[k], es[k]));
        assert(open_recordings(acts.take(k)) == (if ss[k] == State::Recording { 1int } else { 0int }));
    }
    assert forall|k: int| 0 <= k < es.len() && #[trigger] acts[k] == Action::StopAndTranscribe implies ss[k]
        == State::Recording && open_recordings(acts.take(k)) == 1 by {
        assert((ss[k + 1], acts[k]) == step(ss[k], es[k]));
        assert(open_recordings(acts.take(k)) == (if ss[k] == State::Recording { 1int } else { 0int }));
    }
    assert forall|k: int| 0 <= k < es.len() && #[trigger] ss[k] != State::Idle && ss[k + 1] == State::Idle
        implies ss[k] == State::Transcribing by {
        assert((ss[k + 1], acts[k]) == step(ss[k], es[k]));
    }
}

/// A completion event keeps the recorder running exactly while the cycle is in
/// `Recording`.
pub proof fn completion_keeps_recorder_in_step(state: State, recording: bool, event: Event)
    requires
        recorder_matches(state, recording),
        event != Event::HotkeyPressed,
    ensures
        recorder_matches(step(state, event).0, recording),
{
}

} // verus!
