use voice_turn::capture::{ActivityDetector, UtteranceBuffer};
use voice_turn::coordinator::{TurnCoordinator, TurnError, TurnState};
use voice_turn::mute::MuteGate;
use voice_turn::tools::timeout::TimeoutTool;

fn listening(silence_duration: u64, input_rate: usize) -> TurnCoordinator {
    let mut coordinator = TurnCoordinator::new(silence_duration, input_rate);
    coordinator.start().unwrap();
    coordinator
}

fn checking_mute() -> TurnCoordinator {
    let detector = ActivityDetector::new(10);
    let mut buffer = UtteranceBuffer::<f32>::new(0);
    buffer.push_frame(&detector, &[0.5], 11, 0);
    let mut coordinator = listening(500, 16_000);
    coordinator.poll(&mut buffer, 501).unwrap().unwrap();
    coordinator.transcribed().unwrap();
    coordinator
}

fn dispatching() -> TurnCoordinator {
    let mut coordinator = checking_mute();
    let mut gate = MuteGate::new(0);
    assert_eq!(coordinator.settle_mute(&mut gate, false, 1_000), Ok(true));
    coordinator
}

#[test]
fn a_new_coordinator_is_idle() {
    let coordinator = TurnCoordinator::new(750, 48_000);
    assert_eq!(coordinator.state(), TurnState::Idle);
    assert_eq!(coordinator.silence_duration(), 750);
    assert_eq!(coordinator.input_rate(), 48_000);
}

#[test]
fn start_begins_listening_once() {
    let mut coordinator = TurnCoordinator::new(750, 48_000);
    assert_eq!(coordinator.start(), Ok(()));
    assert_eq!(coordinator.state(), TurnState::AwaitingSilence);
    assert_eq!(coordinator.start(), Err(TurnError::OutOfTurn));
    assert_eq!(coordinator.state(), TurnState::AwaitingSilence);
}

#[test]
fn polling_before_start_is_out_of_turn() {
    let detector = ActivityDetector::new(10);
    let mut buffer = UtteranceBuffer::<f32>::new(0);
    buffer.push_frame(&detector, &[0.5], 11, 0);
    let mut coordinator = TurnCoordinator::new(500, 48_000);
    assert_eq!(coordinator.poll(&mut buffer, 10_000), Err(TurnError::OutOfTurn));
    assert_eq!(coordinator.state(), TurnState::Idle);
    assert!(buffer.has_voice());
    assert_eq!(buffer.len(), 1);
}

#[test]
fn pure_silence_never_triggers_transcription() {
    let detector = ActivityDetector::new(100);
    let mut buffer = UtteranceBuffer::<f32>::new(0);
    let mut coordinator = listening(500, 48_000);
    for tick in 1..=100u64 {
        buffer.push_frame(&detector, &[0.0, 0.0, 0.0], 100, tick * 100);
        assert_eq!(coordinator.poll(&mut buffer, tick * 100), Ok(None));
        assert_eq!(coordinator.state(), TurnState::AwaitingSilence);
    }
    assert_eq!(buffer.len(), 300);
}

#[test]
fn the_end_of_speech_is_found_at_the_first_poll_past_the_silence() {
    let detector = ActivityDetector::new(100);
    let mut buffer = UtteranceBuffer::<f32>::new(0);
    let mut coordinator = listening(500, 48_000);
    let voiced_at = 1_030;
    let poll_period = 100;
    buffer.push_frame(&detector, &[0.5, 0.4, 0.3, 0.2], 101, voiced_at);
    let mut fired = Vec::new();
    let mut now = 1_000;
    while now < 5_000 {
        now += poll_period;
        buffer.push_frame(&detector, &[0.0], 0, now);
        if coordinator.state() != TurnState::AwaitingSilence {
            coordinator.transcribed().unwrap();
            let mut gate = MuteGate::new(0);
            coordinator.settle_mute(&mut gate, false, now).unwrap();
            coordinator.dialogue_failed().unwrap();
        }
        if let Some(utterance) = coordinator.poll(&mut buffer, now).unwrap() {
            fired.push((now, utterance));
        }
    }
    assert_eq!(fired.len(), 1);
    let (at, utterance) = &fired[0];
    assert_eq!(*at, 1_600);
    assert!(*at >= voiced_at + 500 && *at < voiced_at + 500 + poll_period);
    assert_eq!(*utterance, vec![0.5, 0.2, 0.0, 0.0]);
}

#[test]
fn a_poll_exactly_at_the_end_of_the_silence_does_not_fire() {
    let detector = ActivityDetector::new(100);
    let mut buffer = UtteranceBuffer::<f32>::new(0);
    let mut coordinator = listening(500, 16_000);
    buffer.push_frame(&detector, &[0.5], 101, 1_000);
    assert_eq!(coordinator.poll(&mut buffer, 1_500), Ok(None));
    assert_eq!(coordinator.poll(&mut buffer, 1_600), Ok(Some(vec![0.5])));
}

#[test]
fn entering_transcribing_clears_the_buffer_at_once() {
    let detector = ActivityDetector::new(100);
    let mut buffer = UtteranceBuffer::<f32>::new(0);
    let mut coordinator = listening(500, 16_000);
    buffer.push_frame(&detector, &[0.5, 0.25], 101, 1_000);
    let utterance = coordinator.poll(&mut buffer, 2_000).unwrap();
    assert_eq!(utterance, Some(vec![0.5, 0.25]));
    assert_eq!(coordinator.state(), TurnState::Transcribing);
    assert_eq!(buffer.len(), 0);
    assert!(!buffer.has_voice());
    buffer.push_frame(&detector, &[0.75], 101, 2_100);
    assert_eq!(coordinator.poll(&mut buffer, 9_000), Err(TurnError::OutOfTurn));
    assert_eq!(buffer.len(), 1);
    assert!(buffer.has_voice());
}

#[test]
fn the_utterance_is_resampled_from_the_input_rate() {
    let detector = ActivityDetector::new(100);
    let mut buffer = UtteranceBuffer::<u32>::new(0);
    let mut coordinator = listening(500, 48_000);
    buffer.push_frame(&detector, &[0, 1, 2, 3, 4, 5, 6], 101, 1_000);
    assert_eq!(coordinator.poll(&mut buffer, 2_000), Ok(Some(vec![0, 3, 6])));
}

#[test]
fn a_suppressed_turn_without_the_magic_word_is_dropped() {
    let mut coordinator = checking_mute();
    let now = 10_000;
    let mut gate = MuteGate::new(0);
    gate.suppress_for(now, 30);
    let dispatch = coordinator.check_mute(&mut gate, "What time is it", TimeoutTool::MAGIC_WORD, now);
    assert_eq!(dispatch, Ok(false));
    assert_eq!(coordinator.state(), TurnState::AwaitingSilence);
    assert_eq!(gate.suppressed_until, now + 30_000);
}

#[test]
fn the_magic_word_overrides_a_suppression() {
    let mut coordinator = checking_mute();
    let now = 10_000;
    let mut gate = MuteGate::new(0);
    gate.suppress_for(now, 30);
    let dispatch = coordinator.check_mute(&mut gate, "Cat please respond", TimeoutTool::MAGIC_WORD, now);
    assert_eq!(dispatch, Ok(true));
    assert_eq!(coordinator.state(), TurnState::Dispatching);
    assert_eq!(gate.suppressed_until, now);
}

#[test]
fn without_suppression_every_turn_is_dispatched() {
    let mut coordinator = checking_mute();
    let mut gate = MuteGate::new(500);
    let dispatch = coordinator.check_mute(&mut gate, "What time is it", TimeoutTool::MAGIC_WORD, 700);
    assert_eq!(dispatch, Ok(true));
    assert_eq!(coordinator.state(), TurnState::Dispatching);
    assert_eq!(gate.suppressed_until, 700);
}

#[test]
fn a_suppression_that_ends_now_no_longer_holds() {
    let mut coordinator = checking_mute();
    let mut gate = MuteGate::new(0);
    gate.suppress_for(0, 30);
    assert_eq!(coordinator.settle_mute(&mut gate, false, 30_000), Ok(true));
    assert_eq!(gate.suppressed_until, 30_000);
    let mut coordinator = checking_mute();
    let mut gate = MuteGate::new(0);
    gate.suppress_for(0, 30);
    assert_eq!(coordinator.settle_mute(&mut gate, false, 29_999), Ok(false));
    assert_eq!(gate.suppressed_until, 30_000);
}

#[test]
fn checking_mute_out_of_turn_leaves_the_gate_alone() {
    let mut coordinator = listening(500, 16_000);
    let mut gate = MuteGate::new(0);
    gate.suppress_for(0, 30);
    assert_eq!(coordinator.check_mute(&mut gate, "cat", "cat", 5), Err(TurnError::OutOfTurn));
    assert_eq!(coordinator.settle_mute(&mut gate, true, 5), Err(TurnError::OutOfTurn));
    assert_eq!(gate.suppressed_until, 30_000);
    assert_eq!(coordinator.state(), TurnState::AwaitingSilence);
}

#[test]
fn a_failed_dialogue_call_abandons_the_turn() {
    let mut coordinator = dispatching();
    assert_eq!(coordinator.dialogue_failed(), Ok(()));
    assert_eq!(coordinator.state(), TurnState::AwaitingSilence);
    assert_eq!(coordinator.dialogue_failed(), Err(TurnError::OutOfTurn));
}

#[test]
fn a_reply_is_cleaned_for_synthesis() {
    let mut coordinator = dispatching();
    let text = coordinator.replied("<think>They greet me.</think>Hello \u{1F600}!");
    assert_eq!(text, Ok("Hello !".to_string()));
    assert_eq!(coordinator.state(), TurnState::Synthesizing);
}

#[test]
fn a_reply_out_of_turn_is_refused() {
    let mut coordinator = listening(500, 16_000);
    assert_eq!(coordinator.replied("Hello"), Err(TurnError::OutOfTurn));
    assert_eq!(coordinator.state(), TurnState::AwaitingSilence);
}

#[test]
fn a_reply_keeps_its_letters_of_any_script() {
    let mut coordinator = dispatching();
    let text = coordinator.replied("\u{65E5}\u{672C}\u{8A9E} ok \u{1F600}");
    assert_eq!(text, Ok("\u{65E5}\u{672C}\u{8A9E} ok ".to_string()));
    assert_eq!(coordinator.state(), TurnState::Synthesizing);
    assert_eq!(coordinator.replied("again"), Err(TurnError::OutOfTurn));
}

#[test]
fn a_whole_turn_runs_through_every_state() {
    let detector = ActivityDetector::new(100);
    let mut buffer = UtteranceBuffer::<f32>::new(0);
    let mut gate = MuteGate::new(0);
    let mut coordinator = TurnCoordinator::new(500, 16_000);
    assert_eq!(coordinator.state(), TurnState::Idle);
    coordinator.start().unwrap();
    assert_eq!(coordinator.state(), TurnState::AwaitingSilence);
    buffer.push_frame(&detector, &[0.5], 101, 100);
    assert_eq!(coordinator.poll(&mut buffer, 700), Ok(Some(vec![0.5])));
    assert_eq!(coordinator.state(), TurnState::Transcribing);
    coordinator.transcribed().unwrap();
    assert_eq!(coordinator.state(), TurnState::CheckingMute);
    assert_eq!(coordinator.check_mute(&mut gate, "Hello", "cat", 800), Ok(true));
    assert_eq!(coordinator.state(), TurnState::Dispatching);
    assert_eq!(coordinator.replied("Hi!"), Ok("Hi!".to_string()));
    assert_eq!(coordinator.state(), TurnState::Synthesizing);
    coordinator.synthesized().unwrap();
    assert_eq!(coordinator.state(), TurnState::Playing);
    coordinator.played().unwrap();
    assert_eq!(coordinator.state(), TurnState::AwaitingSilence);
    assert_eq!(coordinator.silence_duration(), 500);
    assert_eq!(coordinator.input_rate(), 16_000);
}

#[test]
fn steps_out_of_turn_change_nothing() {
    let mut coordinator = listening(500, 16_000);
    assert_eq!(coordinator.transcribed(), Err(TurnError::OutOfTurn));
    assert_eq!(coordinator.synthesized(), Err(TurnError::OutOfTurn));
    assert_eq!(coordinator.played(), Err(TurnError::OutOfTurn));
    assert_eq!(coordinator.dialogue_failed(), Err(TurnError::OutOfTurn));
    assert_eq!(coordinator.state(), TurnState::AwaitingSilence);
}

#[test]
fn speech_during_a_turn_belongs_to_the_next_utterance() {
    let detector = ActivityDetector::new(100);
    let mut buffer = UtteranceBuffer::<f32>::new(0);
    let mut gate = MuteGate::new(0);
    let mut coordinator = listening(500, 16_000);
    buffer.push_frame(&detector, &[0.5], 101, 100);
    coordinator.poll(&mut buffer, 700).unwrap().unwrap();
    buffer.push_frame(&detector, &[0.25], 101, 800);
    coordinator.transcribed().unwrap();
    coordinator.check_mute(&mut gate, "Hello", "cat", 900).unwrap();
    coordinator.replied("Hi!").unwrap();
    coordinator.synthesized().unwrap();
    buffer.push_frame(&detector, &[0.125], 0, 1_000);
    coordinator.played().unwrap();
    assert_eq!(coordinator.poll(&mut buffer, 1_400), Ok(Some(vec![0.25, 0.125])));
}
