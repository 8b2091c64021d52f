use crate::queue::BoundedQueue;
use crate::units::{CompressedUnit, RawUnit};
use vstd::prelude::*;

verus! {

/// How many units each of the session's queues holds at most.
pub const BUFFER_CAPACITY: usize = 10;

/// The queue of compressed units waiting for one track's decoder.
pub struct PlayerBuffer {
    pub queue: BoundedQueue<CompressedUnit>,
}

impl PlayerBuffer {
    pub open spec fn wf(&self) -> bool {
        self.queue.wf()
    }

    pub fn new() -> (r: PlayerBuffer)
        ensures
            r.wf(),
            r.queue@ == Seq::<CompressedUnit>::empty(),
            r.queue.cap() == BUFFER_CAPACITY,
            !r.queue.eos(),
    {
        PlayerBuffer { queue: BoundedQueue::new(BUFFER_CAPACITY) }
    }

    /// Queues `packet`; hands it back when the buffer is full or the stream
    /// has ended.
    pub fn push_packet(&mut self, packet: CompressedUnit) -> (r: Result<(), CompressedUnit>)
        requires
            old(self).wf(),
        ensures
            final(self).wf(),
            final(self).queue.cap() == old(self).queue.cap(),
            final(self).queue.eos() == old(self).queue.eos(),
            r.is_ok() == (!old(self).queue.is_full_spec() && !old(self).queue.eos()),
            r.is_ok() ==> final(self).queue@ == old(self).queue@.push(packet),
            r.is_err() ==> r == Err::<(), CompressedUnit>(packet) && final(self).queue@ == old(
                self,
            ).queue@,
    {
        self.queue.push(packet)
    }

    /// Takes the oldest queued packet, if any.
    pub fn pop_packet(&mut self) -> (r: Option<CompressedUnit>)
        requires
            old(self).wf(),
        ensures
            final(self).wf(),
            final(self).queue.cap() == old(self).queue.cap(),
            final(self).queue.eos() == old(self).queue.eos(),
            old(self).queue@.len() == 0 ==> r is None && final(self).queue@ == old(self).queue@,
            old(self).queue@.len() > 0 ==> r == Some(old(self).queue@[0]) && final(self).queue@
                == old(self).queue@.drop_first(),
    {
        self.queue.pop_if_ready()
    }

    /// The queued packets, oldest first.
    pub fn packets(&self) -> (r: &BoundedQueue<CompressedUnit>)
        ensures
            *r == self.queue,
    {
        &self.queue
    }

    /// Records that no more packets will arrive.
    #[allow(non_snake_case)]
    pub fn endOfFile(&mut self)
        requires
            old(self).wf(),
        ensures
            final(self).wf(),
            final(self).queue@ == old(self).queue@,
            final(self).queue.cap() == old(self).queue.cap(),
            final(self).queue.eos(),
    {
        self.queue.mark_end_of_stream()
    }

    /// True once the buffer is empty and no more packets will arrive.
    pub fn has_ended(&self) -> (r: bool)
        ensures
            r == self.queue.drained(),
    {
        self.queue.is_drained()
    }
}

/// The queue of decoded pictures waiting for presentation.
pub struct VideoRenderingBuffer {
    pub frames: BoundedQueue<RawUnit>,
}

impl VideoRenderingBuffer {
    pub open spec fn wf(&self) -> bool {
        self.frames.wf()
    }

    pub fn new() -> (r: VideoRenderingBuffer)
        ensures
            r.wf(),
            r.frames@ == Seq::<RawUnit>::empty(),
            r.frames.cap() == BUFFER_CAPACITY,
            !r.frames.eos(),
    {
        VideoRenderingBuffer { frames: BoundedQueue::new(BUFFER_CAPACITY) }
    }

    pub fn is_full(&self) -> (r: bool)
        ensures
            r == self.frames.is_full_spec(),
    {
        self.frames.is_full()
    }

    pub fn is_empty(&self) -> (r: bool)
        ensures
            r == (self.frames@.len() == 0),
    {
        self.frames.is_empty()
    }
}

/// The queue of decoded sample blocks waiting for the audio device.
pub struct AudioRenderingBuffer {
    pub frames: BoundedQueue<RawUnit>,
}

impl AudioRenderingBuffer {
    pub open spec fn wf(&self) -> bool {
        self.frames.wf()
    }

    pub fn new() -> (r: AudioRenderingBuffer)
        ensures
            r.wf(),
            r.frames@ == Seq::<RawUnit>::empty(),
            r.frames.cap() == BUFFER_CAPACITY,
            !r.frames.eos(),
    {
        AudioRenderingBuffer { frames: BoundedQueue::new(BUFFER_CAPACITY) }
    }

    pub fn is_full(&self) -> (r: bool)
        ensures
            r == self.frames.is_full_spec(),
    {
        self.frames.is_full()
    }

    pub fn is_empty(&self) -> (r: bool)
        ensures
            r == (self.frames@.len() == 0),
    {
        self.frames.is_empty()
    }
}

} // verus!
