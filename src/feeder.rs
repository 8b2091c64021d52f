use crate::buffers::PlayerBuffer;
use crate::units::{CompressedUnit, PlaybackAssetMetadata, PlaybackError, TrackKind};
use vstd::prelude::*;

verus! {

/// The track a unit from container stream `stream_index` belongs to; an
/// index that is neither the video nor the audio track's is a fatal
/// configuration error.
pub open spec fn route_spec(asset: PlaybackAssetMetadata, stream_index: usize) -> Result<
    TrackKind,
    PlaybackError,
> {
    if stream_index == asset.stream_of(TrackKind::Video) {
        Ok(TrackKind::Video)
    } else if stream_index == asset.stream_of(TrackKind::Audio) {
        Ok(TrackKind::Audio)
    } else {
        Err(PlaybackError::UnrecognizedStream(stream_index))
    }
}

pub fn route_packet(asset: &PlaybackAssetMetadata, stream_index: usize) -> (r: Result<
    TrackKind,
    PlaybackError,
>)
    ensures
        r == route_spec(*asset, stream_index),
{
    if stream_index == asset.video_stream_index() {
        Ok(TrackKind::Video)
    } else if stream_index == asset.audio_stream_index() {
        Ok(TrackKind::Audio)
    } else {
        Err(PlaybackError::UnrecognizedStream(stream_index))
    }
}

/// What one step of the feeder did.
#[derive(Clone, Debug)]
pub enum FeedOutcome {
    /// The unit went to this track's compressed queue.
    Queued(TrackKind),
    /// The track's queue had no room: the unit comes back, to be offered
    /// again once the decoder has taken a unit.
    Full(CompressedUnit),
    /// The demultiplexer is exhausted and both queues are marked
    /// end-of-stream.
    Exhausted,
}

/// Moves compressed units from the demultiplexer to the two tracks' queues.
pub struct DemuxFeeder {
    exhausted: bool,
}

impl DemuxFeeder {
    pub closed spec fn is_exhausted(&self) -> bool {
        self.exhausted
    }

    pub fn new() -> (r: DemuxFeeder)
        ensures
            !r.is_exhausted(),
    {
        DemuxFeeder { exhausted: false }
    }

    pub fn exhausted(&self) -> (r: bool)
        ensures
            r == self.is_exhausted(),
    {
        self.exhausted
    }

    /// Handles what the demultiplexer gave next. A unit is routed by its
    /// stream index and pushed to that track's queue; `None` marks both
    /// queues end-of-stream, once. After exhaustion nothing is done.
    pub fn feed(
        &mut self,
        asset: &PlaybackAssetMetadata,
        next: Option<CompressedUnit>,
        video: &mut PlayerBuffer,
        audio: &mut PlayerBuffer,
    ) -> (r: Result<FeedOutcome, PlaybackError>)
        requires
            old(video).wf(),
            old(audio).wf(),
        ensures
            final(video).wf(),
            final(audio).wf(),
            final(video).queue.cap() == old(video).queue.cap(),
            final(audio).queue.cap() == old(audio).queue.cap(),
            old(self).is_exhausted() ==> r == Ok::<FeedOutcome, PlaybackError>(
                FeedOutcome::Exhausted,
            ) && final(self).is_exhausted() && final(video).queue@ == old(video).queue@
                && final(audio).queue@ == old(audio).queue@ && final(video).queue.eos() == old(video).queue.eos() && final(audio).queue.eos() == old(audio).queue.eos(),
            !old(self).is_exhausted() && next is None ==> r == Ok::<FeedOutcome, PlaybackError>(
                FeedOutcome::Exhausted,
            ) && final(self).is_exhausted() && final(video).queue@ == old(video).queue@
                && final(audio).queue@ == old(audio).queue@ && final(video).queue.eos()
                && final(audio).queue.eos(),
            !old(self).is_exhausted() && next is Some ==> {
                let u = next->0;
                &&& !final(self).is_exhausted()
                &&& final(video).queue.eos() == old(video).queue.eos()
                &&& final(audio).queue.eos() == old(audio).queue.eos()
                &&& route_spec(*asset, u.stream_index) matches Err(e) ==> r == Err::<
                    FeedOutcome,
                    PlaybackError,
                >(e) && final(video).queue@ == old(video).queue@ && final(audio).queue@ == old(audio).queue@
                &&& route_spec(*asset, u.stream_index) == Ok::<TrackKind, PlaybackError>(
                    TrackKind::Video,
                ) ==> final(audio).queue@ == old(audio).queue@ && (if !old(video).queue.is_full_spec() && !old(video).queue.eos() {
                    r == Ok::<FeedOutcome, PlaybackError>(FeedOutcome::Queued(TrackKind::Video))
                        && final(video).queue@ == old(video).queue@.push(u)
                } else {
                    r == Ok::<FeedOutcome, PlaybackError>(FeedOutcome::Full(u)) && final(video).queue@ == old(video).queue@
                })
                &&& route_spec(*asset, u.stream_index) == Ok::<TrackKind, PlaybackError>(
                    TrackKind::Audio,
                ) ==> final(video).queue@ == old(video).queue@ && (if !old(audio).queue.is_full_spec() && !old(audio).queue.eos() {
                    r == Ok::<FeedOutcome, PlaybackError>(FeedOutcome::Queued(TrackKind::Audio))
                        && final(audio).queue@ == old(audio).queue@.push(u)
                } else {
                    r == Ok::<FeedOutcome, PlaybackError>(FeedOutcome::Full(u)) && final(audio).queue@ == old(audio).queue@
                })
            },
    {
        if self.exhausted {
            return Ok(FeedOutcome::Exhausted);
        }
        match next {
            None => {
                video.endOfFile();
                audio.endOfFile();
                self.exhausted = true;
                Ok(FeedOutcome::Exhausted)
            },
            Some(unit) => {
                let kind = match route_packet(asset, unit.stream_index) {
                    Ok(k) => k,
                    Err(e) => return Err(e),
                };
                let pushed = match kind {
                    TrackKind::Video => video.push_packet(unit),
                    TrackKind::Audio => audio.push_packet(unit),
                };
                match pushed {
                    Ok(()) => Ok(FeedOutcome::Queued(kind)),
                    Err(unit) => Ok(FeedOutcome::Full(unit)),
                }
            },
        }
    }
}

} // verus!
