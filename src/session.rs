use crate::buffers::{AudioRenderingBuffer, PlayerBuffer, VideoRenderingBuffer};
use crate::clock::should_present;
use crate::scheduler::{schedule_spec, schedule_track, Presentation};
use crate::units::{PlaybackAssetMetadata, RawUnit, TrackKind};
use vstd::prelude::*;

verus! {

/// The life of a playback session; it runs once and never restarts.
#[derive(Clone, Copy, Debug, PartialEq, Eq, Structural)]
pub enum SessionState {
    Starting,
    Running,
    Draining,
    Ended,
}

/// What moves a session from one state to the next.
#[derive(Clone, Copy, Debug, PartialEq, Eq, Structural)]
pub enum SessionEvent {
    /// The feeder and both decoders are running.
    WorkersStarted,
    /// The user asked to quit, or a fatal error stopped the session.
    Cancelled,
    /// Every queue is empty and marked end-of-stream.
    Drained,
    /// The workers have been joined and their resources released.
    WorkersJoined,
}

pub open spec fn next_state(s: SessionState, e: SessionEvent) -> SessionState {
    match (s, e) {
        (SessionState::Starting, SessionEvent::WorkersStarted) => SessionState::Running,
        (SessionState::Running, SessionEvent::Drained) => SessionState::Draining,
        (SessionState::Draining, SessionEvent::WorkersJoined) => SessionState::Ended,
        (SessionState::Ended, _) => SessionState::Ended,
        (_, SessionEvent::Cancelled) => SessionState::Ended,
        _ => s,
    }
}

/// A session is single-shot: nothing leads back to `Running` from
/// `Draining` or `Ended`, and `Ended` is terminal.
pub proof fn lemma_single_shot(s: SessionState, e: SessionEvent)
    ensures
        next_state(s, e) == SessionState::Running ==> s == SessionState::Starting || s
            == SessionState::Running,
        s == SessionState::Ended ==> next_state(s, e) == SessionState::Ended,
        e == SessionEvent::Cancelled ==> next_state(s, e) == SessionState::Ended,
{
}

/// What one tick presented or dropped on each track.
#[derive(Clone, Debug)]
pub struct TickReport {
    pub audio: Presentation,
    pub video: Presentation,
}

/// Whether both decoded queues and both compressed queues are drained.
pub open spec fn all_drained(
    video_frames: &VideoRenderingBuffer,
    audio_frames: &AudioRenderingBuffer,
    video_packets: &PlayerBuffer,
    audio_packets: &PlayerBuffer,
) -> bool {
    video_frames.frames.drained() && audio_frames.frames.drained() && video_packets.queue.drained()
        && audio_packets.queue.drained()
}

/// The playback session: its state machine and its presentation tick.
pub struct Player {
    state: SessionState,
}

impl Player {
    pub closed spec fn session_state(&self) -> SessionState {
        self.state
    }

    pub fn new() -> (r: Player)
        ensures
            r.session_state() == SessionState::Starting,
    {
        Player { state: SessionState::Starting }
    }

    pub fn state(&self) -> (r: SessionState)
        ensures
            r == self.session_state(),
    {
        self.state
    }

    /// Moves the session on by `event`.
    pub fn handle(&mut self, event: SessionEvent)
        ensures
            final(self).session_state() == next_state(old(self).session_state(), event),
    {
        self.state = match (self.state, event) {
            (SessionState::Starting, SessionEvent::WorkersStarted) => SessionState::Running,
            (SessionState::Running, SessionEvent::Drained) => SessionState::Draining,
            (SessionState::Draining, SessionEvent::WorkersJoined) => SessionState::Ended,
            (SessionState::Ended, _) => SessionState::Ended,
            (_, SessionEvent::Cancelled) => SessionState::Ended,
            (s, _) => s,
        };
    }

    /// Whether a decoded picture is due after `elapsed_ms` milliseconds of
    /// playback, in the video track's time base.
    pub fn should_render_video_frame(
        &self,
        frame: &RawUnit,
        asset: &PlaybackAssetMetadata,
        elapsed_ms: u64,
    ) -> (r: bool)
        requires
            asset.wf(),
        ensures
            r == match frame.pts {
                Some(p) => asset.time_base_of(TrackKind::Video).is_due(p as int, elapsed_ms as int),
                None => false,
            },
    {
        should_present(frame.pts, asset.video_time_base(), elapsed_ms)
    }

    /// Whether a decoded sample block is due after `elapsed_ms` milliseconds
    /// of playback, in the audio track's time base.
    pub fn should_render_audio_frame(
        &self,
        frame: &RawUnit,
        asset: &PlaybackAssetMetadata,
        elapsed_ms: u64,
    ) -> (r: bool)
        requires
            asset.wf(),
        ensures
            r == match frame.pts {
                Some(p) => asset.time_base_of(TrackKind::Audio).is_due(p as int, elapsed_ms as int),
                None => false,
            },
    {
        should_present(frame.pts, asset.audio_time_base(), elapsed_ms)
    }

    /// One tick of a running session after `elapsed_ms` milliseconds of
    /// playback: the audio queue, then the video queue, each gives up at most
    /// its due head unit; then, if every queue is drained, the session moves
    /// to `Draining`. In any other state the tick does nothing.
    pub fn tick(
        &mut self,
        video_frames: &mut VideoRenderingBuffer,
        audio_frames: &mut AudioRenderingBuffer,
        video_packets: &PlayerBuffer,
        audio_packets: &PlayerBuffer,
        asset: &PlaybackAssetMetadata,
        elapsed_ms: u64,
    ) -> (r: TickReport)
        requires
            old(video_frames).wf(),
            old(audio_frames).wf(),
            asset.wf(),
        ensures
            final(video_frames).wf(),
            final(audio_frames).wf(),
            final(video_frames).frames.cap() == old(video_frames).frames.cap(),
            final(audio_frames).frames.cap() == old(audio_frames).frames.cap(),
            final(video_frames).frames.eos() == old(video_frames).frames.eos(),
            final(audio_frames).frames.eos() == old(audio_frames).frames.eos(),
            old(self).session_state() != SessionState::Running ==> r.audio is Idle && r.video is Idle
                && final(self).session_state() == old(self).session_state() && final(video_frames).frames@
                == old(video_frames).frames@ && final(audio_frames).frames@ == old(audio_frames).frames@,
            old(self).session_state() == SessionState::Running ==> {
                &&& (r.audio, final(audio_frames).frames@) == schedule_spec(
                    old(audio_frames).frames@,
                    asset.time_base_of(TrackKind::Audio),
                    elapsed_ms as int,
                )
                &&& (r.video, final(video_frames).frames@) == schedule_spec(
                    old(video_frames).frames@,
                    asset.time_base_of(TrackKind::Video),
                    elapsed_ms as int,
                )
                &&& final(self).session_state() == if all_drained(
                    final(video_frames),
                    final(audio_frames),
                    video_packets,
                    audio_packets,
                ) {
                    SessionState::Draining
                } else {
                    SessionState::Running
                }
            },
    {
        if self.state != SessionState::Running {
            return TickReport { audio: Presentation::Idle, video: Presentation::Idle };
        }
        let audio = schedule_track(&mut audio_frames.frames, asset.audio_time_base(), elapsed_ms);
        let video = schedule_track(&mut video_frames.frames, asset.video_time_base(), elapsed_ms);
        if video_frames.frames.is_drained() && audio_frames.frames.is_drained()
            && video_packets.has_ended() && audio_packets.has_ended() {
            self.handle(SessionEvent::Drained);
        }
        TickReport { audio, video }
    }
}

} // verus!
