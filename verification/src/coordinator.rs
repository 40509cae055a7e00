//! The turn coordinator: the state machine that sequences one turn at a
//! time from end of speech to end of playback.
//!
//! The coordinator does no outside work itself. Its caller polls it,
//! carries out what a step asks for (transcription, the dialogue call,
//! synthesis, playback) and reports back with the next step. A step taken in
//! a state it does not belong to changes nothing and returns `OutOfTurn`.

use crate::capture::UtteranceBuffer;
use crate::mute::MuteGate;
use crate::resample::{decimated, downsample_to_16k};
use crate::text::{contains, hears, synthesis_input, without_emoji, without_reasoning};
use crate::trusted::lowercase_of;
use vstd::prelude::*;

verus! {

/// The time between two polls, in milliseconds: the end of an utterance is
/// found at most this long after the silence duration has passed.
pub const POLL_PERIOD_MILLIS: u64 = 100;

/// Where the pipeline stands. Exactly one state is active at any time.
#[derive(Clone, Copy, Debug, PartialEq, Eq, Structural)]
pub enum TurnState {
    /// Not started yet.
    Idle,
    /// Listening, and waiting for speech to be followed by silence.
    AwaitingSilence,
    /// An utterance has been handed out for transcription.
    Transcribing,
    /// A transcript is there; the mute gate decides whether it goes on.
    CheckingMute,
    /// The transcript has gone to the dialogue engine.
    Dispatching,
    /// The cleaned reply has gone to speech synthesis.
    Synthesizing,
    /// The synthesized reply is playing.
    Playing,
}

/// Why a step was refused.
#[derive(Clone, Copy, Debug, PartialEq, Eq, Structural)]
pub enum TurnError {
    /// The step does not belong to the current state.
    OutOfTurn,
}

/// Sequences the pipeline. Holds the current state, the silence that ends
/// an utterance, and the rate at which the input device records.
pub struct TurnCoordinator {
    state: TurnState,
    silence_duration: u64,
    input_rate: usize,
}

impl TurnCoordinator {
    /// The current state.
    pub closed spec fn spec_state(&self) -> TurnState {
        self.state
    }

    /// The silence, in milliseconds, that ends an utterance.
    pub closed spec fn spec_silence_duration(&self) -> u64 {
        self.silence_duration
    }

    /// The sample rate of the input device, in hertz.
    pub closed spec fn spec_input_rate(&self) -> usize {
        self.input_rate
    }

    /// Whether `other` has the same settings as `self`.
    pub open spec fn same_settings(&self, other: &TurnCoordinator) -> bool {
        &&& self.silence_duration() == other.silence_duration()
        &&& self.input_rate() == other.input_rate()
    }

    /// Whether `self` is `before` moved to `state`, or `before` itself where
    /// `moved` is false.
    pub open spec fn follows(&self, before: &TurnCoordinator, moved: bool, state: TurnState) -> bool {
        &&& self.same_settings(before)
        &&& self.state() == if moved {
            state
        } else {
            before.state()
        }
    }

    /// A coordinator in `Idle`.
    pub fn new(silence_duration: u64, input_rate: usize) -> (coordinator: TurnCoordinator)
        ensures
            coordinator.state() == TurnState::Idle,
            coordinator.silence_duration() == silence_duration,
            coordinator.input_rate() == input_rate,
    {
        TurnCoordinator { state: TurnState::Idle, silence_duration, input_rate }
    }

    /// The current state.
    #[verifier::when_used_as_spec(spec_state)]
    pub fn state(&self) -> (state: TurnState)
        ensures
            state == self.spec_state(),
    {
        self.state
    }

    /// The silence, in milliseconds, that ends an utterance.
    #[verifier::when_used_as_spec(spec_silence_duration)]
    pub fn silence_duration(&self) -> (duration: u64)
        ensures
            duration == self.spec_silence_duration(),
    {
        self.silence_duration
    }

    /// The sample rate of the input device, in hertz.
    #[verifier::when_used_as_spec(spec_input_rate)]
    pub fn input_rate(&self) -> (rate: usize)
        ensures
            rate == self.spec_input_rate(),
    {
        self.input_rate
    }

    /// Moves to `to` where the current state is `from`.
    fn advance(&mut self, from: TurnState, to: TurnState) -> (out: Result<(), TurnError>)
        ensures
            final(self).follows(old(self), old(self).state() == from, to),
            out == if old(self).state() == from {
                Ok::<(), TurnError>(())
            } else {
                Err::<(), TurnError>(TurnError::OutOfTurn)
            },
    {
        if self.state == from {
            self.state = to;
            Ok(())
        } else {
            Err(TurnError::OutOfTurn)
        }
    }

    /// Starts listening: `Idle` becomes `AwaitingSilence`.
    pub fn start(&mut self) -> (out: Result<(), TurnError>)
        ensures
            final(self).follows(
                old(self),
                old(self).state() == TurnState::Idle,
                TurnState::AwaitingSilence,
            ),
            out == if old(self).state() == TurnState::Idle {
                Ok::<(), TurnError>(())
            } else {
                Err::<(), TurnError>(TurnError::OutOfTurn)
            },
    {
        self.advance(TurnState::Idle, TurnState::AwaitingSilence)
    }

    /// One poll at `now`. In `AwaitingSilence`, where the utterance in
    /// `buffer` has ended, the buffer and its voice flag are cleared, the
    /// utterance comes back decimated to the transcription rate, and the
    /// state becomes `Transcribing`. Where it has not ended, nothing changes
    /// and `None` comes back.
    pub fn poll<T: Copy>(&mut self, buffer: &mut UtteranceBuffer<T>, now: u64) -> (out: Result<
        Option<Vec<T>>,
        TurnError,
    >)
        ensures
            final(self).follows(
                old(self),
                old(self).state() == TurnState::AwaitingSilence && old(buffer)@.ended(
                    now,
                    old(self).silence_duration(),
                ),
                TurnState::Transcribing,
            ),
            old(self).state() != TurnState::AwaitingSilence ==> {
                &&& out == Err::<Option<Vec<T>>, TurnError>(TurnError::OutOfTurn)
                &&& final(buffer)@ == old(buffer)@
            },
            old(self).state() == TurnState::AwaitingSilence && !old(buffer)@.ended(
                now,
                old(self).silence_duration(),
            ) ==> {
                &&& out == Ok::<Option<Vec<T>>, TurnError>(None)
                &&& final(buffer)@ == old(buffer)@
            },
            old(self).state() == TurnState::AwaitingSilence && old(buffer)@.ended(
                now,
                old(self).silence_duration(),
            ) ==> {
                &&& out matches Ok(Some(utterance))
                &&& utterance@ == decimated(old(buffer)@.samples, old(self).input_rate() as int)
                &&& final(buffer)@ == old(buffer)@.after_take()
            },
    {
        if self.state != TurnState::AwaitingSilence {
            return Err(TurnError::OutOfTurn);
        }
        if !buffer.utterance_ended(now, self.silence_duration) {
            return Ok(None);
        }
        let samples = buffer.take();
        self.state = TurnState::Transcribing;
        Ok(Some(downsample_to_16k(samples.as_slice(), self.input_rate)))
    }

    /// The transcript has arrived: `Transcribing` becomes `CheckingMute`.
    pub fn transcribed(&mut self) -> (out: Result<(), TurnError>)
        ensures
            final(self).follows(
                old(self),
                old(self).state() == TurnState::Transcribing,
                TurnState::CheckingMute,
            ),
            out == if old(self).state() == TurnState::Transcribing {
                Ok::<(), TurnError>(())
            } else {
                Err::<(), TurnError>(TurnError::OutOfTurn)
            },
    {
        self.advance(TurnState::Transcribing, TurnState::CheckingMute)
    }

    /// Whether a turn is dropped at `now`: `gate` suppresses, and the
    /// magic word was not heard.
    pub open spec fn drops(gate: MuteGate, heard_magic_word: bool, now: u64) -> bool {
        gate.suppresses(now) && !heard_magic_word
    }

    /// Decides in `CheckingMute` whether the turn goes on, given whether
    /// the magic word was heard. A dropped turn leaves the mute gate untouched and
    /// returns to `AwaitingSilence` with `false`. Otherwise the mute gate is
    /// reset to `now`, the state becomes `Dispatching`, and `true` comes
    /// back: the transcript goes to the dialogue engine.
    pub fn settle_mute(&mut self, gate: &mut MuteGate, heard_magic_word: bool, now: u64) -> (out:
        Result<bool, TurnError>)
        ensures
            final(self).follows(
                old(self),
                old(self).state() == TurnState::CheckingMute,
                if Self::drops(*old(gate), heard_magic_word, now) {
                    TurnState::AwaitingSilence
                } else {
                    TurnState::Dispatching
                },
            ),
            old(self).state() != TurnState::CheckingMute ==> {
                &&& out == Err::<bool, TurnError>(TurnError::OutOfTurn)
                &&& *final(gate) == *old(gate)
            },
            old(self).state() == TurnState::CheckingMute && Self::drops(
                *old(gate),
                heard_magic_word,
                now,
            ) ==> {
                &&& out == Ok::<bool, TurnError>(false)
                &&& *final(gate) == *old(gate)
            },
            old(self).state() == TurnState::CheckingMute && !Self::drops(
                *old(gate),
                heard_magic_word,
                now,
            ) ==> {
                &&& out == Ok::<bool, TurnError>(true)
                &&& final(gate).suppressed_until == now
            },
    {
        if self.state != TurnState::CheckingMute {
            return Err(TurnError::OutOfTurn);
        }
        if gate.is_suppressed(now) && !heard_magic_word {
            self.state = TurnState::AwaitingSilence;
            Ok(false)
        } else {
            gate.reset(now);
            self.state = TurnState::Dispatching;
            Ok(true)
        }
    }

    /// Decides in `CheckingMute` whether the turn goes on, from the raw
    /// transcript: the magic word counts as heard where it stands in the
    /// lowercase form of the transcript. See `settle_mute`.
    pub fn check_mute(
        &mut self,
        gate: &mut MuteGate,
        transcript: &str,
        magic_word: &str,
        now: u64,
    ) -> (out: Result<bool, TurnError>)
        ensures
            final(self).follows(
                old(self),
                old(self).state() == TurnState::CheckingMute,
                if Self::drops(
                    *old(gate),
                    contains(lowercase_of(transcript@), magic_word@),
                    now,
                ) {
                    TurnState::AwaitingSilence
                } else {
                    TurnState::Dispatching
                },
            ),
            old(self).state() != TurnState::CheckingMute ==> {
                &&& out == Err::<bool, TurnError>(TurnError::OutOfTurn)
                &&& *final(gate) == *old(gate)
            },
            old(self).state() == TurnState::CheckingMute && Self::drops(
                *old(gate),
                contains(lowercase_of(transcript@), magic_word@),
                now,
            ) ==> {
                &&& out == Ok::<bool, TurnError>(false)
                &&& *final(gate) == *old(gate)
            },
            old(self).state() == TurnState::CheckingMute && !Self::drops(
                *old(gate),
                contains(lowercase_of(transcript@), magic_word@),
                now,
            ) ==> {
                &&& out == Ok::<bool, TurnError>(true)
                &&& final(gate).suppressed_until == now
            },
    {
        let heard = hears(transcript, magic_word);
        self.settle_mute(gate, heard, now)
    }

    /// The dialogue call failed: the turn is abandoned, and `Dispatching`
    /// becomes `AwaitingSilence`.
    pub fn dialogue_failed(&mut self) -> (out: Result<(), TurnError>)
        ensures
            final(self).follows(
                old(self),
                old(self).state() == TurnState::Dispatching,
                TurnState::AwaitingSilence,
            ),
            out == if old(self).state() == TurnState::Dispatching {
                Ok::<(), TurnError>(())
            } else {
                Err::<(), TurnError>(TurnError::OutOfTurn)
            },
    {
        self.advance(TurnState::Dispatching, TurnState::AwaitingSilence)
    }

    /// The dialogue engine has replied. In `Dispatching` the reply is
    /// stripped of its reasoning trace and of emoji; the result comes back
    /// as the synthesis input, and the state becomes `Synthesizing`.
    pub fn replied(&mut self, reply: &str) -> (out: Result<String, TurnError>)
        ensures
            final(self).follows(
                old(self),
                old(self).state() == TurnState::Dispatching,
                TurnState::Synthesizing,
            ),
            match out {
                Ok(text) => old(self).state() == TurnState::Dispatching && text@ == without_emoji(
                    without_reasoning(reply@),
                ),
                Err(error) => old(self).state() != TurnState::Dispatching && error
                    == TurnError::OutOfTurn,
            },
    {
        if self.state != TurnState::Dispatching {
            return Err(TurnError::OutOfTurn);
        }
        self.state = TurnState::Synthesizing;
        Ok(synthesis_input(reply))
    }

    /// Synthesis is done: `Synthesizing` becomes `Playing`.
    pub fn synthesized(&mut self) -> (out: Result<(), TurnError>)
        ensures
            final(self).follows(
                old(self),
                old(self).state() == TurnState::Synthesizing,
                TurnState::Playing,
            ),
            out == if old(self).state() == TurnState::Synthesizing {
                Ok::<(), TurnError>(())
            } else {
                Err::<(), TurnError>(TurnError::OutOfTurn)
            },
    {
        self.advance(TurnState::Synthesizing, TurnState::Playing)
    }

    /// Playback has run to its end: `Playing` becomes `AwaitingSilence`.
    pub fn played(&mut self) -> (out: Result<(), TurnError>)
        ensures
            final(self).follows(
                old(self),
                old(self).state() == TurnState::Playing,
                TurnState::AwaitingSilence,
            ),
            out == if old(self).state() == TurnState::Playing {
                Ok::<(), TurnError>(())
            } else {
                Err::<(), TurnError>(TurnError::OutOfTurn)
            },
    {
        self.advance(TurnState::Playing, TurnState::AwaitingSilence)
    }
}

} // verus!
