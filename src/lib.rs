// The buffering and audio/video synchronisation pipeline of a media player:
// bounded queues between the demultiplexer, the two track decoders and the
// presentation tick, a clock that decides when a decoded unit is due, and the
// playback session's state machine.

pub mod buffers;
pub mod clock;
pub mod decoder;
pub mod feeder;
pub mod queue;
pub mod scheduler;
pub mod session;
pub mod units;
