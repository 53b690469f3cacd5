//! Playback: the transport state shared between the foreground and the
//! decode thread, and the decisions of the decode loop.
use vstd::prelude::*;
use crate::timeline::{position_at, position_of, seek_target_micros, target_time};

verus! {

/// A message to the playback decode loop.
pub enum PlayerCommand {
    Play,
    Pause,
    /// Seek to an absolute time, in microseconds.
    Seek(i64),
    Stop,
}

/// The abstract transport state: times in microseconds.
pub struct Transport {
    pub playing: bool,
    pub current_time: int,
    pub duration: int,
    pub seek_requested: Option<int>,
}

/// The transport after a seek to the normalized `position`: the target time
/// is recorded as pending.
pub open spec fn after_seek(s: Transport, position: int) -> Transport {
    Transport { seek_requested: Some(target_time(s.duration, position)), ..s }
}

/// Transport state of one playback session. The foreground records intent
/// in it at once (playing, pending seek); the decode thread records what it
/// produced (current time, end of stream). Its duration never changes.
pub struct PlayerState {
    playing: bool,
    current_time: i64,
    duration: i64,
    seek_requested: Option<i64>,
}

impl View for PlayerState {
    type V = Transport;

    closed spec fn view(&self) -> Transport {
        Transport {
            playing: self.playing,
            current_time: self.current_time as int,
            duration: self.duration as int,
            seek_requested: match self.seek_requested {
                Some(t) => Some(t as int),
                None => None,
            },
        }
    }
}

impl Default for PlayerState {
    fn default() -> (r: PlayerState)
        ensures
            r@ == (Transport { playing: false, current_time: 0, duration: 0, seek_requested: None }),
    {
        PlayerState { playing: false, current_time: 0, duration: 0, seek_requested: None }
    }
}

impl PlayerState {
    /// The duration is never negative.
    pub open spec fn well_formed(&self) -> bool {
        self@.duration >= 0
    }

    /// A paused session at time zero of a clip of `duration` microseconds.
    pub fn new(duration: i64) -> (r: PlayerState)
        requires
            duration >= 0,
        ensures
            r@ == (Transport {
                playing: false,
                current_time: 0,
                duration: duration as int,
                seek_requested: None,
            }),
            r.well_formed(),
    {
        PlayerState { playing: false, current_time: 0, duration, seek_requested: None }
    }

    /// Marks the session as playing; returns the command for the decode loop.
    pub fn play(&mut self) -> (r: PlayerCommand)
        ensures
            final(self)@ == (Transport { playing: true, ..old(self)@ }),
            r is Play,
    {
        self.playing = true;
        PlayerCommand::Play
    }

    /// Marks the session as paused; returns the command for the decode loop.
    pub fn pause(&mut self) -> (r: PlayerCommand)
        ensures
            final(self)@ == (Transport { playing: false, ..old(self)@ }),
            r is Pause,
    {
        self.playing = false;
        PlayerCommand::Pause
    }

    /// Pauses a playing session and plays a paused one.
    pub fn toggle_playback(&mut self) -> (r: PlayerCommand)
        ensures
            final(self)@ == (Transport { playing: !old(self)@.playing, ..old(self)@ }),
            if old(self)@.playing {
                r is Pause
            } else {
                r is Play
            },
    {
        if self.playing {
            self.pause()
        } else {
            self.play()
        }
    }

    pub fn is_playing(&self) -> (r: bool)
        ensures
            r == self@.playing,
    {
        self.playing
    }

    /// Seeks to the normalized `position`, clamped to `[0, 1]`: the target
    /// time is recorded as pending and returned in the command.
    pub fn seek(&mut self, position: i64) -> (r: PlayerCommand)
        requires
            old(self).well_formed(),
        ensures
            final(self)@ == after_seek(old(self)@, position as int),
            r == PlayerCommand::Seek(target_time(old(self)@.duration, position as int) as i64),
            0 <= target_time(old(self)@.duration, position as int) <= old(self)@.duration,
            final(self).well_formed(),
    {
        let target = seek_target_micros(self.duration, position);
        self.seek_requested = Some(target);
        PlayerCommand::Seek(target)
    }

    /// The current time as a normalized position in `[0, POSITION_ONE]`.
    pub fn current_position(&self) -> (r: i64)
        ensures
            r == position_of(self@.current_time, self@.duration),
    {
        position_at(self.current_time, self.duration)
    }

    /// The current time, in microseconds.
    pub fn current_time(&self) -> (r: i64)
        ensures
            r == self@.current_time,
    {
        self.current_time
    }

    /// The duration, in microseconds.
    pub fn duration(&self) -> (r: i64)
        ensures
            r == self@.duration,
    {
        self.duration
    }

    /// The target of the seek that the decode thread has not finished yet.
    pub fn seek_requested(&self) -> (r: Option<i64>)
        ensures
            r matches Some(t) ==> self@.seek_requested == Some(t as int),
            r is None ==> self@.seek_requested is None,
    {
        self.seek_requested
    }

    /// Records that the decode thread has finished seeking to `target`.
    pub fn finish_seek(&mut self, target: i64)
        ensures
            final(self)@ == (Transport {
                current_time: target as int,
                seek_requested: None,
                ..old(self)@
            }),
    {
        self.current_time = target;
        self.seek_requested = None;
    }

    /// Records that the decode thread produced the frame shown at `timestamp`.
    pub fn record_frame(&mut self, timestamp: i64)
        ensures
            final(self)@ == (Transport { current_time: timestamp as int, ..old(self)@ }),
    {
        self.current_time = timestamp;
    }

    /// Records that the stream ran out while playing: playback pauses.
    pub fn end_of_stream(&mut self)
        ensures
            final(self)@ == (Transport { playing: false, ..old(self)@ }),
    {
        self.playing = false;
    }
}

/// Seeking records the same target for a position outside `[0, 1]` as for
/// the nearest end.
pub proof fn lemma_player_seek_clamps(s: Transport, position: int)
    requires
        s.duration >= 0,
    ensures
        position < 0 ==> after_seek(s, position) == after_seek(s, 0),
        position > crate::timeline::POSITION_ONE ==> after_seek(s, position) == after_seek(
            s,
            crate::timeline::POSITION_ONE as int,
        ),
{
    crate::timeline::lemma_seek_clamps(s.duration, position);
}

/// What the decode loop does after a command.
pub enum LoopAction {
    /// Leave the loop.
    Exit,
    /// Seek the open media to this time, in microseconds, and flush.
    SeekTo(i64),
    /// Go on.
    Continue,
}

/// The abstract state of the decode loop.
pub struct LoopState {
    pub playing: bool,
    /// Timestamp of the last frame delivered since the last seek.
    pub last_timestamp: Option<i64>,
}

/// The loop state after the decoder yields a frame shown at `t`, and whether
/// the frame is delivered: only one later than every frame delivered since
/// the last seek is.
pub open spec fn offer(s: LoopState, t: i64) -> (LoopState, bool) {
    match s.last_timestamp {
        Some(last) if t <= last => (s, false),
        _ => (LoopState { last_timestamp: Some(t), ..s }, true),
    }
}

/// The loop state after a command.
pub open spec fn after_command(s: LoopState, cmd: PlayerCommand) -> LoopState {
    match cmd {
        PlayerCommand::Play => LoopState { playing: true, ..s },
        PlayerCommand::Pause => LoopState { playing: false, ..s },
        PlayerCommand::Seek(_) => LoopState { last_timestamp: None, ..s },
        PlayerCommand::Stop => s,
    }
}

/// Decisions of the playback decode loop: whether to decode, which frames to
/// deliver, and when to leave.
pub struct PlaybackLoop {
    playing: bool,
    last_timestamp: Option<i64>,
}

impl View for PlaybackLoop {
    type V = LoopState;

    closed spec fn view(&self) -> LoopState {
        LoopState { playing: self.playing, last_timestamp: self.last_timestamp }
    }
}

impl PlaybackLoop {
    /// A paused loop that has delivered nothing.
    pub fn new() -> (r: PlaybackLoop)
        ensures
            r@ == (LoopState { playing: false, last_timestamp: None }),
    {
        PlaybackLoop { playing: false, last_timestamp: None }
    }

    /// Applies one command: `Stop` leaves the loop whatever the state, a seek
    /// is carried out by the caller and starts a new run of frames.
    pub fn on_command(&mut self, cmd: &PlayerCommand) -> (r: LoopAction)
        ensures
            final(self)@ == after_command(old(self)@, *cmd),
            match *cmd {
                PlayerCommand::Stop => r is Exit,
                PlayerCommand::Seek(t) => r == LoopAction::SeekTo(t),
                _ => r is Continue,
            },
    {
        match cmd {
            PlayerCommand::Play => {
                self.playing = true;
                LoopAction::Continue
            },
            PlayerCommand::Pause => {
                self.playing = false;
                LoopAction::Continue
            },
            PlayerCommand::Seek(t) => {
                self.last_timestamp = None;
                LoopAction::SeekTo(*t)
            },
            PlayerCommand::Stop => LoopAction::Exit,
        }
    }

    /// Whether the loop decodes on this iteration; when it does not, it
    /// waits and looks at its commands again.
    pub fn should_decode(&self) -> (r: bool)
        ensures
            r == self@.playing,
    {
        self.playing
    }

    /// Offers a decoded frame shown at `timestamp`; returns whether to
    /// deliver it.
    pub fn offer_frame(&mut self, timestamp: i64) -> (r: bool)
        ensures
            (final(self)@, r) == offer(old(self)@, timestamp),
    {
        let fresh = match self.last_timestamp {
            Some(last) => timestamp > last,
            None => true,
        };
        if fresh {
            self.last_timestamp = Some(timestamp);
        }
        fresh
    }

    /// The stream ran out while playing: the loop pauses.
    pub fn end_of_stream(&mut self)
        ensures
            final(self)@ == (LoopState { playing: false, ..old(self)@ }),
    {
        self.playing = false;
    }
}

/// What became of one decode attempt while playing.
pub enum DecodeOutcome {
    /// A new frame: send it to the foreground.
    Deliver,
    /// A frame no later than the last one delivered: drop it and decode on.
    Skip,
    /// The stream ran out: playback has paused.
    Ended,
}

impl PlaybackLoop {
    /// Takes the result of one decode attempt while playing: the timestamp
    /// of the frame the decoder yielded, or `None` at end of stream. A frame
    /// later than every one delivered since the last seek is delivered and
    /// becomes the current time; an end of stream pauses both the loop and
    /// the transport.
    pub fn take_decoded(&mut self, transport: &mut PlayerState, decoded: Option<i64>) -> (r:
        DecodeOutcome)
        ensures
            match decoded {
                None => {
                    &&& r is Ended
                    &&& final(self)@ == (LoopState { playing: false, ..old(self)@ })
                    &&& final(transport)@ == (Transport { playing: false, ..old(transport)@ })
                },
                Some(t) => {
                    &&& final(self)@ == offer(old(self)@, t).0
                    &&& if offer(old(self)@, t).1 {
                        &&& r is Deliver
                        &&& final(transport)@ == (Transport {
                            current_time: t as int,
                            ..old(transport)@
                        })
                    } else {
                        r is Skip && final(transport)@ == old(transport)@
                    }
                },
            },
    {
        match decoded {
            None => {
                self.end_of_stream();
                transport.end_of_stream();
                DecodeOutcome::Ended
            },
            Some(t) => {
                if self.offer_frame(t) {
                    transport.record_frame(t);
                    DecodeOutcome::Deliver
                } else {
                    DecodeOutcome::Skip
                }
            },
        }
    }
}

/// Between two seeks, the frames that the loop delivers have strictly
/// increasing timestamps.
pub proof fn lemma_delivered_frames_increase(s: LoopState, first: i64, second: i64)
    requires
        offer(s, first).1,
        offer(offer(s, first).0, second).1,
    ensures
        first < second,
        offer(offer(s, first).0, second).0.last_timestamp == Some(second),
{
}

/// A delivered frame is later than every frame delivered before it since
/// the last seek.
pub proof fn lemma_delivered_after_last(s: LoopState, t: i64)
    requires
        offer(s, t).1,
    ensures
        s.last_timestamp matches Some(last) ==> last < t,
        offer(s, t).0.last_timestamp == Some(t),
        offer(s, t).0.playing == s.playing,
{
}

} // verus!
