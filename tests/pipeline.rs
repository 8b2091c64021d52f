use avsync::buffers::{AudioRenderingBuffer, PlayerBuffer, VideoRenderingBuffer, BUFFER_CAPACITY};
use avsync::clock::{should_present, TimeBase};
use avsync::decoder::{DecodeError, DecoderAction, TrackDecoder};
use avsync::feeder::{route_packet, DemuxFeeder, FeedOutcome};
use avsync::queue::BoundedQueue;
use avsync::scheduler::{schedule_track, Presentation};
use avsync::session::{Player, SessionEvent, SessionState};
use avsync::units::{CompressedUnit, PlaybackAssetMetadata, PlaybackError, RawUnit, TrackKind};

fn raw(pts: Option<i64>, tag: u8) -> RawUnit {
    RawUnit { pts, planes: vec![vec![tag]] }
}

fn packet(stream_index: usize, tag: u8) -> CompressedUnit {
    CompressedUnit { stream_index, dts: Some(tag as i64), pts: Some(tag as i64), data: vec![tag] }
}

fn millis() -> TimeBase {
    TimeBase::new(1, 1000).unwrap()
}

fn asset() -> PlaybackAssetMetadata {
    PlaybackAssetMetadata::new(Some(0), Some(1), 640, 360, (1, 1000), (1, 1000)).unwrap()
}

fn tag_of(u: &RawUnit) -> u8 {
    u.planes[0][0]
}

#[test]
fn queue_pops_in_push_order() {
    for cap in 1..5usize {
        let mut q: BoundedQueue<u32> = BoundedQueue::new(cap);
        let mut out = Vec::new();
        for i in 0..12u32 {
            if q.push(i).is_err() {
                out.push(q.pop_if_ready().unwrap());
                assert!(q.push(i).is_ok());
            }
        }
        while let Some(x) = q.pop_if_ready() {
            out.push(x);
        }
        assert_eq!(out, (0..12u32).collect::<Vec<_>>());
    }
}

#[test]
fn queue_refuses_push_beyond_capacity() {
    let mut q: BoundedQueue<u32> = BoundedQueue::new(3);
    assert!(q.push(1).is_ok());
    assert!(q.push(2).is_ok());
    assert!(q.push(3).is_ok());
    assert!(q.is_full());
    assert_eq!(q.push(4), Err(4));
    assert_eq!(q.len(), 3);
    assert_eq!(q.pop_if_ready(), Some(1));
    assert!(q.push(4).is_ok());
    assert_eq!(q.len(), 3);
    assert_eq!(q.capacity(), 3);
}

#[test]
fn queue_pop_on_empty_is_not_ready() {
    let mut q: BoundedQueue<u32> = BoundedQueue::new(2);
    assert_eq!(q.pop_if_ready(), None);
    assert_eq!(q.peek(), None);
    q.push(7).unwrap();
    assert_eq!(q.peek(), Some(&7));
    assert_eq!(q.len(), 1);
}

#[test]
fn queue_drained_only_when_empty_and_ended() {
    let mut q: BoundedQueue<u32> = BoundedQueue::new(2);
    assert!(!q.is_drained());
    q.push(1).unwrap();
    q.mark_end_of_stream();
    assert!(!q.is_drained());
    assert_eq!(q.push(2), Err(2));
    assert_eq!(q.pop_if_ready(), Some(1));
    assert!(q.is_drained());
    q.mark_end_of_stream();
    assert_eq!(q.pop_if_ready(), None);
    assert_eq!(q.push(3), Err(3));
    assert!(q.is_drained());
}

#[test]
fn buffers_hold_ten_units() {
    assert_eq!(BUFFER_CAPACITY, 10);
    let mut b = PlayerBuffer::new();
    for i in 0..10u8 {
        assert!(b.push_packet(packet(0, i)).is_ok());
    }
    assert!(b.push_packet(packet(0, 10)).is_err());
    assert_eq!(b.packets().len(), 10);
    assert_eq!(b.pop_packet().unwrap().data, vec![0]);
    assert!(!b.has_ended());
    b.endOfFile();
    assert!(!b.has_ended());
    while b.pop_packet().is_some() {}
    assert!(b.has_ended());

    let mut v = VideoRenderingBuffer::new();
    assert!(v.is_empty());
    for i in 0..10u8 {
        v.frames.push(raw(Some(i as i64), i)).unwrap();
    }
    assert!(v.is_full());
    let a = AudioRenderingBuffer::new();
    assert!(a.is_empty());
    assert!(!a.is_full());
}

#[test]
fn time_base_rejects_bad_rationals() {
    assert!(TimeBase::new(1, 0).is_none());
    assert!(TimeBase::new(-1, 25).is_none());
    assert_eq!(TimeBase::new(1, 25), Some(TimeBase { num: 1, den: 25 }));
}

#[test]
fn clock_switches_at_the_deadline() {
    let tb = millis();
    assert!(!should_present(Some(40), tb, 39));
    assert!(should_present(Some(40), tb, 40));
    assert!(should_present(Some(40), tb, 41));
    // 90 kHz: 3600 ticks are 40 ms
    let tb90 = TimeBase::new(1, 90000).unwrap();
    assert!(!should_present(Some(3600), tb90, 39));
    assert!(should_present(Some(3600), tb90, 40));
    // 1/25 s per tick: tick 3 is due at 120 ms
    let tb25 = TimeBase::new(1, 25).unwrap();
    assert!(!should_present(Some(3), tb25, 119));
    assert!(should_present(Some(3), tb25, 120));
}

#[test]
fn clock_is_monotonic_over_time() {
    let tb = TimeBase::new(1, 90000).unwrap();
    let mut seen_due = false;
    for e in 0..200u64 {
        let due = should_present(Some(9000), tb, e);
        if seen_due {
            assert!(due);
        }
        seen_due = due;
        assert_eq!(due, e >= 100);
    }
}

#[test]
fn clock_handles_extreme_values() {
    let tb = TimeBase::new(i32::MAX, 1).unwrap();
    assert!(!should_present(Some(i64::MAX), tb, u64::MAX));
    assert!(should_present(Some(i64::MIN), tb, 0));
    assert!(should_present(Some(-5), millis(), 0));
}

#[test]
fn undated_unit_is_never_due() {
    assert!(!should_present(None, millis(), 0));
    assert!(!should_present(None, millis(), u64::MAX));
}

#[test]
fn metadata_reports_missing_tracks_and_bad_time_bases() {
    assert_eq!(
        PlaybackAssetMetadata::new(None, None, 1, 1, (1, 1), (1, 1)),
        Err(PlaybackError::MissingTrack(TrackKind::Video))
    );
    assert_eq!(
        PlaybackAssetMetadata::new(Some(0), None, 1, 1, (1, 1), (1, 1)),
        Err(PlaybackError::MissingTrack(TrackKind::Audio))
    );
    assert_eq!(
        PlaybackAssetMetadata::new(Some(0), Some(1), 1, 1, (1, 0), (1, 1)),
        Err(PlaybackError::InvalidTimeBase(TrackKind::Video))
    );
    assert_eq!(
        PlaybackAssetMetadata::new(Some(0), Some(1), 1, 1, (1, 1), (-1, 1)),
        Err(PlaybackError::InvalidTimeBase(TrackKind::Audio))
    );
    let m = PlaybackAssetMetadata::new(Some(3), Some(5), 640, 360, (1, 90000), (1, 48000)).unwrap();
    assert_eq!(m.video_stream_index(), 3);
    assert_eq!(m.audio_stream_index(), 5);
    assert_eq!(m.width(), 640);
    assert_eq!(m.height(), 360);
    assert_eq!(m.video_time_base(), TimeBase { num: 1, den: 90000 });
    assert_eq!(m.audio_time_base(), TimeBase { num: 1, den: 48000 });
}

#[test]
fn yv12_layout_swaps_chroma_planes() {
    let u = RawUnit { pts: Some(0), planes: vec![vec![1, 1, 1, 1], vec![2], vec![3]] };
    assert_eq!(u.yv12_bytes(), vec![1, 1, 1, 1, 3, 2]);
}

#[test]
fn routing_rejects_unknown_streams() {
    let m = asset();
    assert_eq!(route_packet(&m, 0), Ok(TrackKind::Video));
    assert_eq!(route_packet(&m, 1), Ok(TrackKind::Audio));
    assert_eq!(route_packet(&m, 2), Err(PlaybackError::UnrecognizedStream(2)));
}

#[test]
fn feeder_routes_then_marks_both_queues_once() {
    let m = asset();
    let mut f = DemuxFeeder::new();
    let mut v = PlayerBuffer::new();
    let mut a = PlayerBuffer::new();
    assert!(matches!(f.feed(&m, Some(packet(0, 1)), &mut v, &mut a), Ok(FeedOutcome::Queued(TrackKind::Video))));
    assert!(matches!(f.feed(&m, Some(packet(1, 2)), &mut v, &mut a), Ok(FeedOutcome::Queued(TrackKind::Audio))));
    assert!(matches!(f.feed(&m, Some(packet(7, 3)), &mut v, &mut a), Err(PlaybackError::UnrecognizedStream(7))));
    assert_eq!(v.packets().len(), 1);
    assert_eq!(a.packets().len(), 1);
    assert!(!f.exhausted());
    assert!(matches!(f.feed(&m, None, &mut v, &mut a), Ok(FeedOutcome::Exhausted)));
    assert!(f.exhausted());
    assert!(v.packets().is_ended());
    assert!(a.packets().is_ended());
    assert!(matches!(f.feed(&m, None, &mut v, &mut a), Ok(FeedOutcome::Exhausted)));
    assert_eq!(v.packets().len(), 1);
}

#[test]
fn feeder_hands_unit_back_when_queue_full() {
    let m = asset();
    let mut f = DemuxFeeder::new();
    let mut v = PlayerBuffer::new();
    let mut a = PlayerBuffer::new();
    for i in 0..10u8 {
        assert!(matches!(f.feed(&m, Some(packet(0, i)), &mut v, &mut a), Ok(FeedOutcome::Queued(_))));
    }
    match f.feed(&m, Some(packet(0, 42)), &mut v, &mut a) {
        Ok(FeedOutcome::Full(u)) => assert_eq!(u.data, vec![42]),
        _ => panic!("expected the unit back"),
    }
    v.pop_packet();
    assert!(matches!(f.feed(&m, Some(packet(0, 42)), &mut v, &mut a), Ok(FeedOutcome::Queued(TrackKind::Video))));
}

#[test]
fn decoder_skips_failed_unit_and_keeps_order() {
    let mut input: BoundedQueue<CompressedUnit> = BoundedQueue::new(10);
    let mut output: BoundedQueue<RawUnit> = BoundedQueue::new(10);
    for i in 0..5u8 {
        input.push(packet(0, i)).unwrap();
    }
    input.mark_end_of_stream();
    let mut d = TrackDecoder::new();
    let mut steps = 0;
    loop {
        steps += 1;
        assert!(steps < 100);
        match d.next_action(&mut input, &mut output) {
            DecoderAction::Decode(u) => {
                let tag = u.data[0];
                let outcome = match tag {
                    2 => Err(DecodeError { code: -1 }),
                    3 => Ok(None),
                    _ => Ok(Some(raw(Some(tag as i64), tag))),
                };
                d.accept(outcome);
                assert!(!d.finished());
            }
            DecoderAction::Wait => panic!("nothing should block here"),
            DecoderAction::Finished => break,
        }
    }
    assert_eq!(d.failures(), 1);
    assert!(output.is_ended());
    let mut tags = Vec::new();
    while let Some(u) = output.pop_if_ready() {
        tags.push(tag_of(&u));
    }
    assert_eq!(tags, vec![0, 1, 4]);
    assert!(output.is_drained());
}

#[test]
fn decoder_waits_for_room_in_output() {
    let mut input: BoundedQueue<CompressedUnit> = BoundedQueue::new(4);
    let mut output: BoundedQueue<RawUnit> = BoundedQueue::new(1);
    input.push(packet(0, 1)).unwrap();
    input.push(packet(0, 2)).unwrap();
    let mut d = TrackDecoder::new();
    assert!(matches!(d.next_action(&mut input, &mut output), DecoderAction::Decode(_)));
    assert!(d.awaiting_outcome());
    d.accept(Ok(Some(raw(Some(1), 1))));
    assert!(matches!(d.next_action(&mut input, &mut output), DecoderAction::Decode(_)));
    d.accept(Ok(Some(raw(Some(2), 2))));
    assert!(matches!(d.next_action(&mut input, &mut output), DecoderAction::Wait));
    assert_eq!(output.len(), 1);
    assert_eq!(tag_of(&output.pop_if_ready().unwrap()), 1);
    assert!(matches!(d.next_action(&mut input, &mut output), DecoderAction::Wait));
    assert_eq!(tag_of(output.peek().unwrap()), 2);
    input.mark_end_of_stream();
    output.pop_if_ready();
    assert!(matches!(d.next_action(&mut input, &mut output), DecoderAction::Finished));
    assert!(output.is_drained());
}

#[test]
fn scheduler_discards_undated_head() {
    let mut q: BoundedQueue<RawUnit> = BoundedQueue::new(4);
    q.push(raw(None, 1)).unwrap();
    q.push(raw(Some(0), 2)).unwrap();
    assert!(matches!(schedule_track(&mut q, millis(), u64::MAX), Presentation::Discarded));
    assert_eq!(q.len(), 1);
    match schedule_track(&mut q, millis(), 0) {
        Presentation::Present(u) => assert_eq!(tag_of(&u), 2),
        _ => panic!("expected a presentation"),
    }
    assert!(matches!(schedule_track(&mut q, millis(), 0), Presentation::Idle));
}

#[test]
fn scheduler_leaves_early_unit_queued() {
    let mut q: BoundedQueue<RawUnit> = BoundedQueue::new(4);
    q.push(raw(Some(50), 1)).unwrap();
    q.push(raw(Some(10), 2)).unwrap();
    assert!(matches!(schedule_track(&mut q, millis(), 20), Presentation::NotDue));
    assert_eq!(q.len(), 2);
    assert!(matches!(schedule_track(&mut q, millis(), 60), Presentation::Present(_)));
    // one unit per tick, even when the next is overdue too
    assert_eq!(q.len(), 1);
}

#[test]
fn player_renders_by_track_time_base() {
    let p = Player::new();
    let m = PlaybackAssetMetadata::new(Some(0), Some(1), 1, 1, (1, 25), (1, 1000)).unwrap();
    let f = raw(Some(2), 0);
    assert!(!p.should_render_video_frame(&f, &m, 79));
    assert!(p.should_render_video_frame(&f, &m, 80));
    assert!(p.should_render_audio_frame(&f, &m, 2));
    assert!(!p.should_render_audio_frame(&raw(None, 0), &m, 1000));
}

#[test]
fn session_is_single_shot() {
    let mut p = Player::new();
    assert_eq!(p.state(), SessionState::Starting);
    p.handle(SessionEvent::Drained);
    assert_eq!(p.state(), SessionState::Starting);
    p.handle(SessionEvent::WorkersStarted);
    assert_eq!(p.state(), SessionState::Running);
    p.handle(SessionEvent::WorkersStarted);
    assert_eq!(p.state(), SessionState::Running);
    p.handle(SessionEvent::Cancelled);
    assert_eq!(p.state(), SessionState::Ended);
    p.handle(SessionEvent::WorkersStarted);
    assert_eq!(p.state(), SessionState::Ended);
}

#[test]
fn tick_does_nothing_unless_running() {
    let mut p = Player::new();
    let m = asset();
    let mut v = VideoRenderingBuffer::new();
    let mut a = AudioRenderingBuffer::new();
    v.frames.push(raw(Some(0), 1)).unwrap();
    let vp = PlayerBuffer::new();
    let ap = PlayerBuffer::new();
    let r = p.tick(&mut v, &mut a, &vp, &ap, &m, 100);
    assert!(matches!(r.video, Presentation::Idle));
    assert_eq!(v.frames.len(), 1);
    assert_eq!(p.state(), SessionState::Starting);
}

#[test]
fn end_to_end_presentation_order() {
    let m = asset();
    let mut p = Player::new();
    let mut video = VideoRenderingBuffer::new();
    let mut audio = AudioRenderingBuffer::new();
    for pts in [0i64, 40, 80] {
        video.frames.push(raw(Some(pts), pts as u8)).unwrap();
    }
    for pts in [0i64, 20] {
        audio.frames.push(raw(Some(pts), pts as u8)).unwrap();
    }
    video.frames.mark_end_of_stream();
    audio.frames.mark_end_of_stream();
    let mut video_packets = PlayerBuffer::new();
    let mut audio_packets = PlayerBuffer::new();
    video_packets.endOfFile();
    audio_packets.endOfFile();
    p.handle(SessionEvent::WorkersStarted);

    let mut log: Vec<(&str, u8, u64)> = Vec::new();
    let mut now: u64 = 0;
    while p.state() == SessionState::Running {
        assert!(now <= 1000);
        let r = p.tick(&mut video, &mut audio, &video_packets, &audio_packets, &m, now);
        if let Presentation::Present(u) = r.audio {
            log.push(("audio", tag_of(&u), now));
        }
        if let Presentation::Present(u) = r.video {
            log.push(("video", tag_of(&u), now));
        }
        now += 10;
    }
    assert_eq!(
        log,
        vec![("audio", 0, 0), ("video", 0, 0), ("audio", 20, 20), ("video", 40, 40), ("video", 80, 80)]
    );
    assert_eq!(p.state(), SessionState::Draining);
    assert_eq!(now, 90);
    p.handle(SessionEvent::WorkersJoined);
    assert_eq!(p.state(), SessionState::Ended);
}
