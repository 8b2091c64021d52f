use crate::clock::TimeBase;
use vstd::prelude::*;

verus! {

/// The two kinds of track a session plays.
#[derive(Clone, Copy, Debug, PartialEq, Eq, Structural)]
pub enum TrackKind {
    Video,
    Audio,
}

/// One coded chunk of a track as stored in the container.
#[derive(Clone, Debug)]
pub struct CompressedUnit {
    /// The container's index of the track the unit belongs to.
    pub stream_index: usize,
    /// The encoder-assigned decode timestamp, in the track's time base.
    pub dts: Option<i64>,
    /// The presentation timestamp the decoder carries over to its output.
    pub pts: Option<i64>,
    pub data: Vec<u8>,
}

/// One decoded block of picture planes or audio samples.
#[derive(Clone, Debug)]
pub struct RawUnit {
    /// The presentation timestamp, in the track's time base.
    pub pts: Option<i64>,
    /// The payload: Y, U and V planes of a picture, or one plane of
    /// interleaved audio samples.
    pub planes: Vec<Vec<u8>>,
}

impl RawUnit {
    /// The picture laid out as YV12 for the display surface: the Y plane,
    /// then V, then U.
    pub fn yv12_bytes(&self) -> (r: Vec<u8>)
        requires
            self.planes@.len() >= 3,
        ensures
            r@ == self.planes@[0]@ + self.planes@[2]@ + self.planes@[1]@,
    {
        let mut out: Vec<u8> = Vec::new();
        append_bytes(&mut out, &self.planes[0]);
        append_bytes(&mut out, &self.planes[2]);
        append_bytes(&mut out, &self.planes[1]);
        out
    }
}

fn append_bytes(out: &mut Vec<u8>, src: &Vec<u8>)
    ensures
        final(out)@ == old(out)@ + src@,
{
    let mut i: usize = 0;
    while i < src.len()
        invariant
            i <= src@.len(),
            out@ == old(out)@ + src@.subrange(0, i as int),
        decreases src@.len() - i,
    {
        out.push(src[i]);
        i = i + 1;
        assert(src@.subrange(0, i as int) =~= src@.subrange(0, i - 1 as int).push(src@[i - 1]));
    }
    assert(src@.subrange(0, i as int) =~= src@);
}

/// Why a session cannot start or go on.
#[derive(Clone, Copy, Debug, PartialEq, Eq, Structural)]
pub enum PlaybackError {
    /// The container holds no track of this kind.
    MissingTrack(TrackKind),
    /// The track's time base is not a non-negative rational with a positive
    /// denominator.
    InvalidTimeBase(TrackKind),
    /// A unit arrived for a track that the session did not enumerate.
    UnrecognizedStream(usize),
}

/// What the session needs to know of its two tracks, fixed at start.
#[derive(Clone, Copy, Debug, PartialEq, Eq, Structural)]
pub struct PlaybackAssetMetadata {
    video_stream_index: usize,
    audio_stream_index: usize,
    width: u32,
    height: u32,
    video_time_base: TimeBase,
    audio_time_base: TimeBase,
}

impl PlaybackAssetMetadata {
    pub open spec fn wf(&self) -> bool {
        self.time_base_of(TrackKind::Video).wf() && self.time_base_of(TrackKind::Audio).wf()
    }

    pub closed spec fn stream_of(&self, kind: TrackKind) -> usize {
        match kind {
            TrackKind::Video => self.video_stream_index,
            TrackKind::Audio => self.audio_stream_index,
        }
    }

    pub closed spec fn time_base_of(&self, kind: TrackKind) -> TimeBase {
        match kind {
            TrackKind::Video => self.video_time_base,
            TrackKind::Audio => self.audio_time_base,
        }
    }

    pub closed spec fn spec_width(&self) -> u32 {
        self.width
    }

    pub closed spec fn spec_height(&self) -> u32 {
        self.height
    }

    /// Gathers the metadata of the best video and audio tracks. Fails with
    /// `MissingTrack` when a track is absent (video checked first), else with
    /// `InvalidTimeBase` when a time base `(num, den)` has `num < 0` or
    /// `den <= 0` (video checked first).
    pub fn new(
        video_stream_index: Option<usize>,
        audio_stream_index: Option<usize>,
        width: u32,
        height: u32,
        video_time_base: (i32, i32),
        audio_time_base: (i32, i32),
    ) -> (r: Result<PlaybackAssetMetadata, PlaybackError>)
        ensures
            video_stream_index is None ==> r == Err::<PlaybackAssetMetadata, PlaybackError>(
                PlaybackError::MissingTrack(TrackKind::Video),
            ),
            video_stream_index is Some && audio_stream_index is None ==> r == Err::<
                PlaybackAssetMetadata,
                PlaybackError,
            >(PlaybackError::MissingTrack(TrackKind::Audio)),
            video_stream_index is Some && audio_stream_index is Some && !(video_time_base.0 >= 0
                && video_time_base.1 > 0) ==> r == Err::<PlaybackAssetMetadata, PlaybackError>(
                PlaybackError::InvalidTimeBase(TrackKind::Video),
            ),
            video_stream_index is Some && audio_stream_index is Some && video_time_base.0 >= 0
                && video_time_base.1 > 0 && !(audio_time_base.0 >= 0 && audio_time_base.1 > 0)
                ==> r == Err::<PlaybackAssetMetadata, PlaybackError>(
                PlaybackError::InvalidTimeBase(TrackKind::Audio),
            ),
            r is Ok <==> (video_stream_index is Some && audio_stream_index is Some
                && video_time_base.0 >= 0 && video_time_base.1 > 0 && audio_time_base.0 >= 0
                && audio_time_base.1 > 0),
            r matches Ok(m) ==> m.wf() && m.stream_of(TrackKind::Video) == video_stream_index->0
                && m.stream_of(TrackKind::Audio) == audio_stream_index->0 && m.spec_width()
                == width && m.spec_height() == height && m.time_base_of(TrackKind::Video) == (TimeBase {
                num: video_time_base.0,
                den: video_time_base.1,
            }) && m.time_base_of(TrackKind::Audio) == (TimeBase {
                num: audio_time_base.0,
                den: audio_time_base.1,
            }),
    {
        let video_stream_index = match video_stream_index {
            Some(i) => i,
            None => return Err(PlaybackError::MissingTrack(TrackKind::Video)),
        };
        let audio_stream_index = match audio_stream_index {
            Some(i) => i,
            None => return Err(PlaybackError::MissingTrack(TrackKind::Audio)),
        };
        let video_time_base = match TimeBase::new(video_time_base.0, video_time_base.1) {
            Some(t) => t,
            None => return Err(PlaybackError::InvalidTimeBase(TrackKind::Video)),
        };
        let audio_time_base = match TimeBase::new(audio_time_base.0, audio_time_base.1) {
            Some(t) => t,
            None => return Err(PlaybackError::InvalidTimeBase(TrackKind::Audio)),
        };
        Ok(PlaybackAssetMetadata {
            video_stream_index,
            audio_stream_index,
            width,
            height,
            video_time_base,
            audio_time_base,
        })
    }

    pub fn video_stream_index(&self) -> (r: usize)
        ensures
            r == self.stream_of(TrackKind::Video),
    {
        self.video_stream_index
    }

    pub fn audio_stream_index(&self) -> (r: usize)
        ensures
            r == self.stream_of(TrackKind::Audio),
    {
        self.audio_stream_index
    }

    pub fn width(&self) -> (r: u32)
        ensures
            r == self.spec_width(),
    {
        self.width
    }

    pub fn height(&self) -> (r: u32)
        ensures
            r == self.spec_height(),
    {
        self.height
    }

    pub fn video_time_base(&self) -> (r: TimeBase)
        ensures
            r == self.time_base_of(TrackKind::Video),
    {
        self.video_time_base
    }

    pub fn audio_time_base(&self) -> (r: TimeBase)
        ensures
            r == self.time_base_of(TrackKind::Audio),
    {
        self.audio_time_base
    }
}

} // verus!
