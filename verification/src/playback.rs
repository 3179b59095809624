//! The playback controller: at most one audio sink, and the three states
//! it moves through.

use vstd::prelude::*;

verus! {

/// Where playback stands.
#[derive(Clone, Copy, Debug, PartialEq, Eq, Structural)]
pub enum PlaybackStatus {
    Idle,
    Playing,
    Paused,
}

/// Why a song could not be started.
#[derive(Clone, Copy, Debug, PartialEq, Eq, Structural)]
pub enum PlaybackError {
    /// A sink is active already; it was left alone.
    AlreadyPlaying,
    /// The file could not be opened or decoded.
    Decode,
    /// No audio output could be opened.
    OutputDevice,
}

/// What the caller has to ask of the active sink after a toggle.
#[derive(Clone, Copy, Debug, PartialEq, Eq, Structural)]
pub enum SinkRequest {
    Nothing,
    Pause,
    Resume,
}

/// The playback state. `S` is the audio sink; the state owns the one sink
/// that is active, so there is a sink exactly when it is not `Idle`.
#[derive(Debug, PartialEq, Eq)]
pub enum PlaybackState<S> {
    Idle,
    Playing(S),
    Paused(S),
}

impl<S> PlaybackState<S> {
    pub open spec fn status_of(self) -> PlaybackStatus {
        match self {
            PlaybackState::Idle => PlaybackStatus::Idle,
            PlaybackState::Playing(_) => PlaybackStatus::Playing,
            PlaybackState::Paused(_) => PlaybackStatus::Paused,
        }
    }

    /// The active sink.
    pub open spec fn sink_of(self) -> Option<S> {
        match self {
            PlaybackState::Idle => None,
            PlaybackState::Playing(sink) => Some(sink),
            PlaybackState::Paused(sink) => Some(sink),
        }
    }

    /// What `play` answers: a start is accepted only from `Idle`, and then
    /// only if a sink could be opened.
    pub open spec fn play_outcome(self, opened: Result<S, PlaybackError>) -> Result<
        (),
        PlaybackError,
    > {
        match self {
            PlaybackState::Idle => match opened {
                Ok(_) => Ok(()),
                Err(e) => Err(e),
            },
            _ => Err(PlaybackError::AlreadyPlaying),
        }
    }

    /// The state after `play`: `Playing` on the new sink where the start
    /// was accepted, unchanged where it was not.
    pub open spec fn after_play(self, opened: Result<S, PlaybackError>) -> Self {
        match (self, opened) {
            (PlaybackState::Idle, Ok(sink)) => PlaybackState::Playing(sink),
            _ => self,
        }
    }

    /// The state after a toggle: `Playing` and `Paused` change places on
    /// the same sink, `Idle` stays.
    pub open spec fn after_toggle(self) -> Self {
        match self {
            PlaybackState::Idle => PlaybackState::Idle,
            PlaybackState::Playing(sink) => PlaybackState::Paused(sink),
            PlaybackState::Paused(sink) => PlaybackState::Playing(sink),
        }
    }

    pub open spec fn toggle_request(self) -> SinkRequest {
        match self {
            PlaybackState::Idle => SinkRequest::Nothing,
            PlaybackState::Playing(_) => SinkRequest::Pause,
            PlaybackState::Paused(_) => SinkRequest::Resume,
        }
    }

    /// The state after `times` toggles.
    pub open spec fn after_toggles(self, times: nat) -> Self
        decreases times,
    {
        if times == 0 {
            self
        } else {
            self.after_toggles((times - 1) as nat).after_toggle()
        }
    }

    /// The state once the audio backend has said whether the sink is
    /// paused: an active sink is `Paused` or `Playing` as the backend says,
    /// and `Idle` stays `Idle`.
    pub open spec fn after_report(self, paused: bool) -> Self {
        match self.sink_of() {
            None => PlaybackState::Idle,
            Some(sink) => if paused {
                PlaybackState::Paused(sink)
            } else {
                PlaybackState::Playing(sink)
            },
        }
    }

    pub fn new() -> (state: Self)
        ensures
            state is Idle,
    {
        PlaybackState::Idle
    }

    pub fn status(&self) -> (status: PlaybackStatus)
        ensures
            status == self.status_of(),
    {
        match self {
            PlaybackState::Idle => PlaybackStatus::Idle,
            PlaybackState::Playing(_) => PlaybackStatus::Playing,
            PlaybackState::Paused(_) => PlaybackStatus::Paused,
        }
    }

    pub fn is_playing(&self) -> (playing: bool)
        ensures
            playing == (self is Playing),
    {
        match self {
            PlaybackState::Playing(_) => true,
            _ => false,
        }
    }

    /// The active sink, for the caller to pause, resume or ask.
    pub fn sink(&self) -> (sink: Option<&S>)
        ensures
            match sink {
                Some(s) => self.sink_of() == Some(*s),
                None => self.sink_of() is None,
            },
    {
        match self {
            PlaybackState::Idle => None,
            PlaybackState::Playing(sink) => Some(sink),
            PlaybackState::Paused(sink) => Some(sink),
        }
    }

    /// Whether a song may be started now: only from `Idle`. To be asked
    /// before a sink is opened.
    pub fn can_play(&self) -> (r: Result<(), PlaybackError>)
        ensures
            r == (if self is Idle {
                Ok::<(), PlaybackError>(())
            } else {
                Err(PlaybackError::AlreadyPlaying)
            }),
    {
        match self {
            PlaybackState::Idle => Ok(()),
            _ => Err(PlaybackError::AlreadyPlaying),
        }
    }

    /// Starts a song. `opened` is what came of opening a sink for it: the
    /// sink with the decoded song queued, or why there is none. While a
    /// sink is active the start is refused with `AlreadyPlaying` and the
    /// active sink stays; a failure to open leaves the state as it was.
    pub fn play(&mut self, opened: Result<S, PlaybackError>) -> (r: Result<(), PlaybackError>)
        ensures
            r == old(self).play_outcome(opened),
            *final(self) == old(self).after_play(opened),
    {
        match self {
            PlaybackState::Idle => match opened {
                Ok(sink) => {
                    *self = PlaybackState::Playing(sink);
                    Ok(())
                },
                Err(e) => Err(e),
            },
            _ => Err(PlaybackError::AlreadyPlaying),
        }
    }

    /// Pauses a playing sink and resumes a paused one; without a sink
    /// nothing happens. The answer is what the caller asks of the sink.
    pub fn toggle_pause(&mut self) -> (request: SinkRequest)
        ensures
            request == old(self).toggle_request(),
            *final(self) == old(self).after_toggle(),
    {
        let mut current = PlaybackState::Idle;
        core::mem::swap(self, &mut current);
        match current {
            PlaybackState::Idle => SinkRequest::Nothing,
            PlaybackState::Playing(sink) => {
                *self = PlaybackState::Paused(sink);
                SinkRequest::Pause
            },
            PlaybackState::Paused(sink) => {
                *self = PlaybackState::Playing(sink);
                SinkRequest::Resume
            },
        }
    }

    /// Takes over what the audio backend says of the sink: paused or not.
    /// Whether there is a sink does not change by it.
    pub fn reflect(&mut self, paused: bool)
        ensures
            *final(self) == old(self).after_report(paused),
    {
        let mut current = PlaybackState::Idle;
        core::mem::swap(self, &mut current);
        match current {
            PlaybackState::Idle => {},
            PlaybackState::Playing(sink) => {
                if paused {
                    *self = PlaybackState::Paused(sink);
                } else {
                    *self = PlaybackState::Playing(sink);
                }
            },
            PlaybackState::Paused(sink) => {
                if paused {
                    *self = PlaybackState::Paused(sink);
                } else {
                    *self = PlaybackState::Playing(sink);
                }
            },
        }
    }

    /// Ends playback and hands the sink back for the caller to release.
    pub fn stop(&mut self) -> (released: Option<S>)
        ensures
            *final(self) == PlaybackState::<S>::Idle,
            released == old(self).sink_of(),
    {
        let mut current = PlaybackState::Idle;
        core::mem::swap(self, &mut current);
        match current {
            PlaybackState::Idle => None,
            PlaybackState::Playing(sink) => Some(sink),
            PlaybackState::Paused(sink) => Some(sink),
        }
    }
}

/// Toggling never gains or loses the sink.
pub proof fn lemma_toggles_keep_sink<S>(state: PlaybackState<S>, times: nat)
    ensures
        state.after_toggles(times).sink_of() == state.sink_of(),
    decreases times,
{
    if times > 0 {
        lemma_toggles_keep_sink(state, (times - 1) as nat);
    }
}

/// Once a song was started, a second start is refused with
/// `AlreadyPlaying` for as long as nothing stops the first, however often
/// playback was paused and resumed in between; the first sink stays the
/// active one.
pub proof fn lemma_second_play_is_refused<S>(
    first: S,
    toggles: nat,
    second: Result<S, PlaybackError>,
)
    ensures
        ({
            let started = PlaybackState::<S>::Idle.after_play(Ok(first));
            let later = started.after_toggles(toggles);
            &&& PlaybackState::<S>::Idle.play_outcome(Ok(first)) == Ok::<(), PlaybackError>(())
            &&& later.play_outcome(second) == Err::<(), PlaybackError>(
                PlaybackError::AlreadyPlaying,
            )
            &&& later.after_play(second) == later
            &&& later.sink_of() == Some(first)
        }),
{
    lemma_toggles_keep_sink(PlaybackState::<S>::Idle.after_play(Ok(first)), toggles);
}

/// Whatever the state was, once playback was stopped a song can be started
/// again, and the new sink becomes the active one.
pub proof fn lemma_play_after_stop<S>(sink: S)
    ensures
        PlaybackState::<S>::Idle.play_outcome(Ok(sink)) == Ok::<(), PlaybackError>(()),
        PlaybackState::<S>::Idle.after_play(Ok(sink)) == PlaybackState::Playing(sink),
{
}

/// A toggle does nothing to `Idle`, pauses what plays, and a second toggle
/// brings back the state before the first.
pub proof fn lemma_toggle_pause_cycle<S>(state: PlaybackState<S>)
    ensures
        state is Idle ==> state.after_toggle() == state && state.toggle_request()
            == SinkRequest::Nothing,
        state matches PlaybackState::Playing(sink) ==> state.after_toggle()
            == PlaybackState::Paused(sink),
        state matches PlaybackState::Paused(sink) ==> state.after_toggle()
            == PlaybackState::Playing(sink),
        state.after_toggle().after_toggle() == state,
{
}

} // verus!
