//! The playback session: at most one track, one engine handle, three states.

use vstd::prelude::*;
use crate::catalog::{TrackCatalog, TrackView};
use crate::engine::{EngineFault, EngineRequest};
use crate::gain::{in_unit_interval, Gain, UNITY_BITS};

verus! {

/// Nanoseconds in a second.
pub const NANOS_PER_SECOND: u64 = 1_000_000_000;

/// Where playback stands.
#[derive(Clone, Copy, Debug, PartialEq, Eq)]
pub enum PlayerState {
    /// Nothing is selected and no engine handle is held.
    Idle,
    /// A track is selected and is not suspended.
    Playing,
    /// A track is selected and is suspended.
    Paused,
}

/// The transitions of a session that concern the engine.
#[derive(Clone, Copy, Debug, PartialEq, Eq)]
pub enum Operation {
    /// Select the track with this index and play it from its beginning.
    SelectAndPlay(i32),
    /// Suspend playback.
    Pause,
    /// Go on with suspended playback.
    Resume,
    /// End playback and forget the track.
    Stop,
    /// Set the output gain.
    SetVolume(Gain),
}

/// Why a track was not started.
#[derive(Clone, Copy, Debug, PartialEq, Eq)]
pub enum PlayError {
    /// The catalog holds no track with the index.
    InvalidIndex,
    /// The engine could not start the track.
    Engine(EngineFault),
}

/// A gain outside the interval from 0.0 to 1.0 was refused.
#[derive(Clone, Copy, Debug, PartialEq, Eq)]
pub struct OutOfRange;

/// What a session reports of itself.
#[derive(Clone, Copy, Debug, PartialEq, Eq)]
pub struct StatusSnapshot {
    /// The index of the current track.
    pub current_track: Option<i32>,
    /// Where playback stands.
    pub state: PlayerState,
    /// Whole seconds since the last track was started, if one ever was.
    /// Time spent paused counts.
    pub elapsed_seconds: Option<u64>,
    /// The configured output gain.
    pub volume: Gain,
}

/// What a session stands for.
pub struct SessionView {
    /// Where playback stands.
    pub state: PlayerState,
    /// The index of the current track in the catalog.
    pub current_track: Option<i32>,
    /// The configured output gain.
    pub volume: Gain,
    /// The clock reading, in nanoseconds, at which the last track started.
    pub started_at: Option<u64>,
    /// Whether the session owns an open engine handle.
    pub handle_held: bool,
}

/// Whole seconds from one reading of a monotonic nanosecond clock to a later
/// one; zero if the second reading is not later.
pub open spec fn seconds_between(start: u64, now: u64) -> u64 {
    if now >= start {
        ((now - start) / (NANOS_PER_SECOND as int)) as u64
    } else {
        0
    }
}

/// Whether a catalog holds a track with this index.
pub open spec fn resolves(catalog: Seq<TrackView>, index: i32) -> bool {
    1 <= index <= catalog.len()
}

impl SessionView {
    /// What holds of every session: its gain lies in the unit interval, an
    /// idle session has neither a track nor a handle, and a session that is
    /// not idle has a track and a start time.
    pub open spec fn well_formed(self) -> bool {
        &&& in_unit_interval(self.volume.bits)
        &&& self.state is Idle ==> self.current_track is None && !self.handle_held
        &&& !(self.state is Idle) ==> self.current_track is Some && self.started_at is Some
    }

    /// The session at application start.
    pub open spec fn initial() -> SessionView {
        SessionView {
            state: PlayerState::Idle,
            current_track: None,
            volume: Gain { bits: UNITY_BITS },
            started_at: None,
            handle_held: false,
        }
    }

    /// The number of engine handles that the session owns.
    pub open spec fn handles(self) -> int {
        if self.handle_held {
            1
        } else {
            0
        }
    }

    /// The engine plan of an operation: what the engine has to do, in this
    /// order, before the session makes the transition.
    pub open spec fn plan(self, catalog: Seq<TrackView>, operation: Operation) -> Seq<
        EngineRequest,
    > {
        match operation {
            Operation::SelectAndPlay(index) => {
                let start = EngineRequest::Start { track: index, gain: self.volume };
                if !resolves(catalog, index) {
                    seq![]
                } else if self.handle_held {
                    seq![EngineRequest::Release, start]
                } else {
                    seq![start]
                }
            },
            Operation::Pause => if self.state is Playing && self.handle_held {
                seq![EngineRequest::Pause]
            } else {
                seq![]
            },
            Operation::Resume => if self.state is Paused && self.handle_held {
                seq![EngineRequest::Resume]
            } else {
                seq![]
            },
            Operation::Stop => if self.handle_held {
                seq![EngineRequest::Release]
            } else {
                seq![]
            },
            Operation::SetVolume(gain) => if in_unit_interval(gain.bits) && self.handle_held {
                seq![EngineRequest::SetGain(gain)]
            } else {
                seq![]
            },
        }
    }

    /// The session after an attempt to play the track with this index.
    /// `fault` is what the engine reported of the start, `now` the clock
    /// reading when it returned.
    ///
    /// An index that the catalog lacks changes nothing. A start that
    /// succeeded makes the track current and the session playing. A start
    /// that failed leaves state, track, start time and gain as they were; the
    /// handle that was released to free the device stays released.
    pub open spec fn after_select_and_play(
        self,
        catalog: Seq<TrackView>,
        index: i32,
        fault: Option<EngineFault>,
        now: u64,
    ) -> SessionView {
        if !resolves(catalog, index) {
            self
        } else if fault is None {
            SessionView {
                state: PlayerState::Playing,
                current_track: Some(index),
                started_at: Some(now),
                handle_held: true,
                ..self
            }
        } else {
            SessionView { handle_held: false, ..self }
        }
    }

    /// What an attempt to play reports.
    pub open spec fn play_outcome(
        catalog: Seq<TrackView>,
        index: i32,
        fault: Option<EngineFault>,
    ) -> Result<(), PlayError> {
        if !resolves(catalog, index) {
            Err(PlayError::InvalidIndex)
        } else {
            match fault {
                None => Ok(()),
                Some(fault) => Err(PlayError::Engine(fault)),
            }
        }
    }

    /// The session after `pause`: a playing session is paused, any other is
    /// left alone.
    pub open spec fn after_pause(self) -> SessionView {
        if self.state is Playing {
            SessionView { state: PlayerState::Paused, ..self }
        } else {
            self
        }
    }

    /// The session after `resume`: a paused session plays again, any other
    /// is left alone.
    pub open spec fn after_resume(self) -> SessionView {
        if self.state is Paused {
            SessionView { state: PlayerState::Playing, ..self }
        } else {
            self
        }
    }

    /// The session after `stop`: a session that is not idle gives up its
    /// handle and its track and becomes idle; an idle one is left alone.
    pub open spec fn after_stop(self) -> SessionView {
        if self.state is Idle {
            self
        } else {
            SessionView {
                state: PlayerState::Idle,
                current_track: None,
                handle_held: false,
                ..self
            }
        }
    }

    /// The session after `set_volume`: a gain in the unit interval is
    /// stored, any other changes nothing.
    pub open spec fn after_set_volume(self, gain: Gain) -> SessionView {
        if in_unit_interval(gain.bits) {
            SessionView { volume: gain, ..self }
        } else {
            self
        }
    }

    /// The session after an operation.
    pub open spec fn after(
        self,
        catalog: Seq<TrackView>,
        operation: Operation,
        fault: Option<EngineFault>,
        now: u64,
    ) -> SessionView {
        match operation {
            Operation::SelectAndPlay(index) => self.after_select_and_play(
                catalog,
                index,
                fault,
                now,
            ),
            Operation::Pause => self.after_pause(),
            Operation::Resume => self.after_resume(),
            Operation::Stop => self.after_stop(),
            Operation::SetVolume(gain) => self.after_set_volume(gain),
        }
    }

    /// What the session reports of itself at clock reading `now`.
    pub open spec fn status(self, now: u64) -> StatusSnapshot {
        StatusSnapshot {
            current_track: self.current_track,
            state: self.state,
            elapsed_seconds: match self.started_at {
                Some(start) => Some(seconds_between(start, now)),
                None => None,
            },
            volume: self.volume,
        }
    }
}

/// The one mutable playback context. It owns at most one engine handle and
/// refers to its track by the track's index in the catalog.
///
/// A session that plays or is paused holds the handle of its track, with one
/// exception: when a switch to another track fails, the old handle has been
/// released to free the device and no new one has been opened. The session
/// then keeps its state and its track, holds no handle, and asks nothing
/// more of the engine until a track is started again.
#[derive(Debug)]
pub struct PlaybackSession {
    state: PlayerState,
    current_track: Option<i32>,
    volume: Gain,
    started_at: Option<u64>,
    handle_held: bool,
}

impl View for PlaybackSession {
    type V = SessionView;

    closed spec fn view(&self) -> SessionView {
        SessionView {
            state: self.state,
            current_track: self.current_track,
            volume: self.volume,
            started_at: self.started_at,
            handle_held: self.handle_held,
        }
    }
}

impl PlaybackSession {
    #[verifier::type_invariant]
    pub open spec fn well_formed(&self) -> bool {
        self@.well_formed()
    }

    /// A session at application start: idle, no track, full volume.
    pub fn new() -> (session: PlaybackSession)
        ensures
            session@ == SessionView::initial(),
    {
        let volume = Gain::unity();
        PlaybackSession {
            state: PlayerState::Idle,
            current_track: None,
            volume,
            started_at: None,
            handle_held: false,
        }
    }

    /// Where playback stands.
    pub fn state(&self) -> (state: PlayerState)
        ensures
            state == self@.state,
    {
        self.state
    }

    /// The index of the current track.
    pub fn current_track(&self) -> (track: Option<i32>)
        ensures
            track == self@.current_track,
    {
        self.current_track
    }

    /// The configured output gain.
    pub fn volume(&self) -> (volume: Gain)
        ensures
            volume == self@.volume,
            in_unit_interval(volume.bits),
    {
        proof {
            use_type_invariant(self);
        }
        self.volume
    }

    /// Whether the session owns an open engine handle.
    pub fn holds_handle(&self) -> (held: bool)
        ensures
            held == self@.handle_held,
    {
        self.handle_held
    }

    /// The engine plan of an operation: what the engine has to do, in this
    /// order, before the session makes the transition.
    pub fn engine_requests(&self, catalog: &TrackCatalog, operation: Operation) -> (requests: Vec<
        EngineRequest,
    >)
        ensures
            requests@ == self@.plan(catalog@, operation),
    {
        let mut requests: Vec<EngineRequest> = Vec::new();
        match operation {
            Operation::SelectAndPlay(index) => {
                if catalog.get(index).is_some() {
                    if self.handle_held {
                        requests.push(EngineRequest::Release);
                    }
                    requests.push(EngineRequest::Start { track: index, gain: self.volume });
                }
            },
            Operation::Pause => {
                if self.handle_held {
                    match self.state {
                        PlayerState::Playing => {
                            requests.push(EngineRequest::Pause);
                        },
                        _ => {},
                    }
                }
            },
            Operation::Resume => {
                if self.handle_held {
                    match self.state {
                        PlayerState::Paused => {
                            requests.push(EngineRequest::Resume);
                        },
                        _ => {},
                    }
                }
            },
            Operation::Stop => {
                if self.handle_held {
                    requests.push(EngineRequest::Release);
                }
            },
            Operation::SetVolume(gain) => {
                if gain.is_in_range() && self.handle_held {
                    requests.push(EngineRequest::SetGain(gain));
                }
            },
        }
        requests
    }

    /// Selects the track with this index and plays it from its beginning,
    /// whatever the session was doing.
    ///
    /// The engine has carried out the plan of this operation before the
    /// call. `fault` says how the start went and `now` is the reading of a
    /// monotonic nanosecond clock when it returned.
    pub fn select_and_play(
        &mut self,
        catalog: &TrackCatalog,
        index: i32,
        fault: Option<EngineFault>,
        now: u64,
    ) -> (outcome: Result<(), PlayError>)
        ensures
            final(self)@ == old(self)@.after_select_and_play(catalog@, index, fault, now),
            outcome == SessionView::play_outcome(catalog@, index, fault),
    {
        proof {
            use_type_invariant(&*self);
        }
        if catalog.get(index).is_none() {
            return Err(PlayError::InvalidIndex);
        }
        match fault {
            None => {
                *self = PlaybackSession {
                    state: PlayerState::Playing,
                    current_track: Some(index),
                    volume: self.volume,
                    started_at: Some(now),
                    handle_held: true,
                };
                Ok(())
            },
            Some(fault) => {
                self.handle_held = false;
                Err(PlayError::Engine(fault))
            },
        }
    }

    /// Suspends a playing session; any other session is left alone. Says
    /// whether the session was playing.
    pub fn pause(&mut self) -> (paused: bool)
        ensures
            final(self)@ == old(self)@.after_pause(),
            paused == (old(self)@.state is Playing),
    {
        proof {
            use_type_invariant(&*self);
        }
        match self.state {
            PlayerState::Playing => {
                self.state = PlayerState::Paused;
                true
            },
            _ => false,
        }
    }

    /// Goes on with a paused session; any other session is left alone. Says
    /// whether the session was paused.
    pub fn resume(&mut self) -> (resumed: bool)
        ensures
            final(self)@ == old(self)@.after_resume(),
            resumed == (old(self)@.state is Paused),
    {
        proof {
            use_type_invariant(&*self);
        }
        match self.state {
            PlayerState::Paused => {
                self.state = PlayerState::Playing;
                true
            },
            _ => false,
        }
    }

    /// Ends playback: the session gives up its handle and its track and
    /// becomes idle. An idle session is left alone. Says whether the session
    /// had anything to stop.
    pub fn stop(&mut self) -> (stopped: bool)
        ensures
            final(self)@ == old(self)@.after_stop(),
            stopped == !(old(self)@.state is Idle),
    {
        proof {
            use_type_invariant(&*self);
        }
        match self.state {
            PlayerState::Idle => false,
            _ => {
                *self = PlaybackSession {
                    state: PlayerState::Idle,
                    current_track: None,
                    volume: self.volume,
                    started_at: self.started_at,
                    handle_held: false,
                };
                true
            },
        }
    }

    /// Sets the output gain. A gain outside the interval from 0.0 to 1.0 is
    /// refused and changes nothing.
    pub fn set_volume(&mut self, gain: Gain) -> (outcome: Result<(), OutOfRange>)
        ensures
            final(self)@ == old(self)@.after_set_volume(gain),
            outcome is Ok <==> in_unit_interval(gain.bits),
    {
        proof {
            use_type_invariant(&*self);
        }
        if gain.is_in_range() {
            self.volume = gain;
            Ok(())
        } else {
            Err(OutOfRange)
        }
    }

    /// Reports the session at clock reading `now`, in nanoseconds. Nothing
    /// changes.
    pub fn status(&self, now: u64) -> (snapshot: StatusSnapshot)
        ensures
            snapshot == self@.status(now),
    {
        let elapsed_seconds = match self.started_at {
            Some(start) => Some(
                if now >= start {
                    (now - start) / NANOS_PER_SECOND
                } else {
                    0
                },
            ),
            None => None,
        };
        StatusSnapshot {
            current_track: self.current_track,
            state: self.state,
            elapsed_seconds,
            volume: self.volume,
        }
    }
}

} // verus!
