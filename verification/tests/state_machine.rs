use privatewhisper::app::{
    hotkey_outcome, settle_hotkey, transition, Action, Event, HotkeyOutcome, State,
};

#[test]
fn idle_hotkey_starts_recording() {
    assert_eq!(
        transition(State::Idle, Event::HotkeyPressed),
        (State::Recording, Action::StartRecording)
    );
}

#[test]
fn recording_hotkey_stops_and_transcribes() {
    assert_eq!(
        transition(State::Recording, Event::HotkeyPressed),
        (State::Transcribing, Action::StopAndTranscribe)
    );
}

#[test]
fn transcribing_done_returns_to_idle() {
    assert_eq!(
        transition(State::Transcribing, Event::TranscriptionDone),
        (State::Idle, Action::Nothing)
    );
}

#[test]
fn transcribing_failed_returns_to_idle() {
    assert_eq!(
        transition(State::Transcribing, Event::TranscriptionFailed),
        (State::Idle, Action::Nothing)
    );
}

#[test]
fn hotkey_ignored_while_transcribing() {
    assert_eq!(
        transition(State::Transcribing, Event::HotkeyPressed),
        (State::Transcribing, Action::Nothing)
    );
}

#[test]
fn stray_completion_events_are_noops() {
    assert_eq!(
        transition(State::Idle, Event::TranscriptionDone),
        (State::Idle, Action::Nothing)
    );
    assert_eq!(
        transition(State::Recording, Event::TranscriptionFailed),
        (State::Recording, Action::Nothing)
    );
}

#[test]
fn full_dictation_cycle_returns_to_idle() {
    let (s1, a1) = transition(State::Idle, Event::HotkeyPressed);
    let (s2, a2) = transition(s1, Event::HotkeyPressed);
    let (s3, a3) = transition(s2, Event::TranscriptionDone);
    assert_eq!((a1, a2, a3), (Action::StartRecording, Action::StopAndTranscribe, Action::Nothing));
    assert_eq!(s3, State::Idle);
}

#[test]
fn failed_recorder_start_rolls_back_to_idle() {
    let (next, action) = transition(State::Idle, Event::HotkeyPressed);
    assert_eq!(action, Action::StartRecording);
    assert_eq!(settle_hotkey(State::Idle, next, HotkeyOutcome::RecorderFailed), State::Idle);
    assert_eq!(settle_hotkey(State::Idle, next, HotkeyOutcome::RecorderStarted), State::Recording);
}

#[test]
fn failed_queue_falls_back_to_idle() {
    let (next, _) = transition(State::Recording, Event::HotkeyPressed);
    assert_eq!(settle_hotkey(State::Recording, next, HotkeyOutcome::QueueFailed), State::Idle);
    assert_eq!(settle_hotkey(State::Recording, next, HotkeyOutcome::JobQueued), State::Transcribing);
}

#[test]
fn missing_recorder_keeps_previous_state() {
    let (next, _) = transition(State::Recording, Event::HotkeyPressed);
    assert_eq!(settle_hotkey(State::Recording, next, HotkeyOutcome::NoRecorder), State::Recording);
}

#[test]
fn ignored_hotkey_settles_where_it_was() {
    let (next, action) = transition(State::Transcribing, Event::HotkeyPressed);
    assert_eq!(action, Action::Nothing);
    assert_eq!(settle_hotkey(State::Transcribing, next, HotkeyOutcome::NoWork), State::Transcribing);
}

#[test]
fn outcomes_follow_what_the_work_gave() {
    assert_eq!(hotkey_outcome(Action::Nothing, false, false), HotkeyOutcome::NoWork);
    assert_eq!(hotkey_outcome(Action::StartRecording, false, true), HotkeyOutcome::RecorderStarted);
    assert_eq!(hotkey_outcome(Action::StartRecording, false, false), HotkeyOutcome::RecorderFailed);
    assert_eq!(hotkey_outcome(Action::StopAndTranscribe, true, true), HotkeyOutcome::JobQueued);
    assert_eq!(hotkey_outcome(Action::StopAndTranscribe, true, false), HotkeyOutcome::QueueFailed);
    assert_eq!(hotkey_outcome(Action::StopAndTranscribe, false, true), HotkeyOutcome::NoRecorder);
}

#[test]
fn actions_alternate_over_a_run_of_events() {
    let events = [
        Event::TranscriptionDone,
        Event::HotkeyPressed,
        Event::TranscriptionFailed,
        Event::HotkeyPressed,
        Event::HotkeyPressed,
        Event::TranscriptionDone,
        Event::HotkeyPressed,
    ];
    let mut state = State::Idle;
    let mut work = Vec::new();
    for e in events {
        let (next, action) = transition(state, e);
        if action != Action::Nothing {
            work.push(action);
        }
        state = next;
    }
    assert_eq!(
        work,
        vec![Action::StartRecording, Action::StopAndTranscribe, Action::StartRecording]
    );
    assert_eq!(state, State::Recording);
}
