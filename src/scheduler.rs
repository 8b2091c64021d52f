use crate::clock::{should_present, TimeBase};
use crate::queue::BoundedQueue;
use crate::units::RawUnit;
use vstd::prelude::*;

verus! {

/// What one tick did with one track's decoded queue.
#[derive(Clone, Debug)]
pub enum Presentation {
    /// The queue was empty.
    Idle,
    /// The head unit is not due yet; it stays queued.
    NotDue,
    /// The head unit had no presentation timestamp and was dropped.
    Discarded,
    /// The head unit is due: it was taken off the queue for the sink.
    Present(RawUnit),
}

/// The outcome of one tick on a queue holding `q`: what happened and what
/// the queue holds afterwards. At most one unit leaves the queue, and only
/// from its front.
pub open spec fn schedule_spec(q: Seq<RawUnit>, time_base: TimeBase, elapsed_ms: int) -> (
    Presentation,
    Seq<RawUnit>,
) {
    if q.len() == 0 {
        (Presentation::Idle, q)
    } else {
        match q[0].pts {
            None => (Presentation::Discarded, q.drop_first()),
            Some(p) => if time_base.is_due(p as int, elapsed_ms) {
                (Presentation::Present(q[0]), q.drop_first())
            } else {
                (Presentation::NotDue, q)
            },
        }
    }
}

/// One tick of the presentation scheduler on one track.
pub fn schedule_track(frames: &mut BoundedQueue<RawUnit>, time_base: TimeBase, elapsed_ms: u64) -> (r:
    Presentation)
    requires
        old(frames).wf(),
        time_base.wf(),
    ensures
        final(frames).wf(),
        final(frames).cap() == old(frames).cap(),
        final(frames).eos() == old(frames).eos(),
        (r, final(frames)@) == schedule_spec(old(frames)@, time_base, elapsed_ms as int),
{
    let pts = match frames.peek() {
        None => return Presentation::Idle,
        Some(unit) => unit.pts,
    };
    if pts.is_none() {
        let _ = frames.pop_if_ready();
        return Presentation::Discarded;
    }
    if should_present(pts, time_base, elapsed_ms) {
        match frames.pop_if_ready() {
            Some(unit) => Presentation::Present(unit),
            None => Presentation::Idle,
        }
    } else {
        Presentation::NotDue
    }
}

/// A unit without a presentation timestamp is never presented: at the head
/// of the queue it is discarded whatever the clock says, and nothing a tick
/// presents lacks a timestamp.
pub proof fn lemma_undated_never_presented(q: Seq<RawUnit>, time_base: TimeBase, elapsed_ms: int)
    ensures
        q.len() > 0 && q[0].pts is None ==> schedule_spec(q, time_base, elapsed_ms).0 is Discarded,
        schedule_spec(q, time_base, elapsed_ms).0 matches Presentation::Present(u) ==> u.pts is Some,
{
}

} // verus!
