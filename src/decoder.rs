use crate::queue::BoundedQueue;
use crate::units::{CompressedUnit, RawUnit};
use vstd::prelude::*;

verus! {

/// A decode call that failed for one unit; `code` is the decoder's own.
#[derive(Clone, Copy, Debug, PartialEq, Eq, Structural)]
pub struct DecodeError {
    pub code: i32,
}

/// The units that a run of decode outcomes yields, in order: one for each
/// call that produced a unit, none for a call that produced nothing or
/// failed.
pub open spec fn survivors(outcomes: Seq<Result<Option<RawUnit>, DecodeError>>) -> Seq<RawUnit>
    decreases outcomes.len(),
{
    if outcomes.len() == 0 {
        Seq::empty()
    } else {
        survivors(outcomes.drop_last()) + match outcomes.last() {
            Ok(Some(u)) => seq![u],
            _ => Seq::empty(),
        }
    }
}

/// Decoding two runs one after the other yields the units of the first run
/// followed by those of the second.
pub proof fn lemma_survivors_append(
    a: Seq<Result<Option<RawUnit>, DecodeError>>,
    b: Seq<Result<Option<RawUnit>, DecodeError>>,
)
    ensures
        survivors(a + b) == survivors(a) + survivors(b),
    decreases b.len(),
{
    if b.len() == 0 {
        assert(a + b =~= a);
        assert(survivors(a) + survivors(b) =~= survivors(a));
    } else {
        assert((a + b).drop_last() =~= a + b.drop_last());
        assert((a + b).last() == b.last());
        lemma_survivors_append(a, b.drop_last());
        let tail = match b.last() {
            Ok(Some(u)) => seq![u],
            _ => Seq::<RawUnit>::empty(),
        };
        assert(survivors(a) + survivors(b.drop_last()) + tail =~= survivors(a) + (survivors(
            b.drop_last(),
        ) + tail));
    }
}

/// A unit that fails to decode costs only itself: the output is every unit
/// decoded before it followed by every unit decoded after it, each group
/// in the order in which it was decoded.
pub proof fn lemma_decode_failure_isolated(
    outcomes: Seq<Result<Option<RawUnit>, DecodeError>>,
    k: int,
)
    requires
        0 <= k < outcomes.len(),
        outcomes[k] is Err,
    ensures
        survivors(outcomes) == survivors(outcomes.take(k)) + survivors(outcomes.skip(k + 1)),
{
    let failed = seq![outcomes[k]];
    assert(outcomes =~= outcomes.take(k) + failed + outcomes.skip(k + 1));
    lemma_survivors_append(outcomes.take(k) + failed, outcomes.skip(k + 1));
    lemma_survivors_append(outcomes.take(k), failed);
    assert(failed.drop_last() =~= Seq::<Result<Option<RawUnit>, DecodeError>>::empty());
    assert(failed.last() == outcomes[k]);
    assert(survivors(failed.drop_last()) =~= Seq::<RawUnit>::empty());
    assert(survivors(failed) =~= Seq::<RawUnit>::empty());
    assert(survivors(outcomes.take(k)) + survivors(failed) =~= survivors(outcomes.take(k)));
}

/// What a track decoder's worker is to do next.
#[derive(Clone, Debug)]
pub enum DecoderAction {
    /// Run the decode transform on this unit and hand the outcome to
    /// `accept`.
    Decode(CompressedUnit),
    /// Nothing to do until a queue changes.
    Wait,
    /// The input is drained and the output marked end-of-stream.
    Finished,
}

/// The decisions of one track's decoder worker, between the compressed
/// queue it drains and the decoded queue it fills.
pub struct TrackDecoder {
    pending: Option<RawUnit>,
    awaiting: bool,
    finished: bool,
    failures: u64,
    outcomes: Ghost<Seq<Result<Option<RawUnit>, DecodeError>>>,
    emitted: Ghost<Seq<RawUnit>>,
}

impl TrackDecoder {
    /// Every decode outcome accepted so far.
    pub closed spec fn outcomes_log(&self) -> Seq<Result<Option<RawUnit>, DecodeError>> {
        self.outcomes@
    }

    /// Every unit pushed to the output queue so far.
    pub closed spec fn emitted_log(&self) -> Seq<RawUnit> {
        self.emitted@
    }

    /// A decoded unit that the output queue had no room for yet.
    pub closed spec fn pending_unit(&self) -> Option<RawUnit> {
        self.pending
    }

    /// Whether a unit was handed out for decoding and its outcome is due.
    pub closed spec fn is_awaiting(&self) -> bool {
        self.awaiting
    }

    pub closed spec fn is_finished(&self) -> bool {
        self.finished
    }

    pub closed spec fn failure_count(&self) -> nat {
        self.failures as nat
    }

    pub open spec fn pending_seq(&self) -> Seq<RawUnit> {
        match self.pending_unit() {
            Some(u) => seq![u],
            None => Seq::empty(),
        }
    }

    /// Every unit decoded so far has been emitted, in order, but for the
    /// last one, which may still be pending.
    pub closed spec fn wf(&self) -> bool {
        &&& self.emitted@ + self.pending_seq() == survivors(self.outcomes@)
        &&& self.finished ==> self.pending is None && !self.awaiting
        &&& self.awaiting ==> self.pending is None
    }

    pub fn new() -> (r: TrackDecoder)
        ensures
            r.wf(),
            r.outcomes_log() == Seq::<Result<Option<RawUnit>, DecodeError>>::empty(),
            r.emitted_log() == Seq::<RawUnit>::empty(),
            r.pending_unit() is None,
            !r.is_awaiting(),
            !r.is_finished(),
            r.failure_count() == 0,
    {
        let r = TrackDecoder {
            pending: None,
            awaiting: false,
            finished: false,
            failures: 0,
            outcomes: Ghost(Seq::empty()),
            emitted: Ghost(Seq::empty()),
        };
        assert(r.emitted@ + r.pending_seq() =~= survivors(r.outcomes@));
        r
    }

    pub fn awaiting_outcome(&self) -> (r: bool)
        ensures
            r == self.is_awaiting(),
    {
        self.awaiting
    }

    pub fn finished(&self) -> (r: bool)
        ensures
            r == self.is_finished(),
    {
        self.finished
    }

    /// How many units failed to decode.
    pub fn failures(&self) -> (r: u64)
        ensures
            r == self.failure_count(),
    {
        self.failures
    }

    /// Decides the worker's next step. A pending unit is pushed to `output`
    /// first; while `output` has no room the worker waits. Then the next
    /// compressed unit is taken from `input` for decoding; once `input` is
    /// drained, `output` is marked end-of-stream and the decoder finishes.
    pub fn next_action(
        &mut self,
        input: &mut BoundedQueue<CompressedUnit>,
        output: &mut BoundedQueue<RawUnit>,
    ) -> (r: DecoderAction)
        requires
            old(self).wf(),
            !old(self).is_awaiting(),
            old(input).wf(),
            old(output).wf(),
        ensures
            final(self).wf(),
            final(input).wf(),
            final(output).wf(),
            final(input).cap() == old(input).cap(),
            final(input).eos() == old(input).eos(),
            final(output).cap() == old(output).cap(),
            final(self).outcomes_log() == old(self).outcomes_log(),
            final(self).failure_count() == old(self).failure_count(),
            old(self).is_finished() ==> r is Finished && final(self).is_finished()
                && final(input)@ == old(input)@ && final(output)@ == old(output)@
                && final(output).eos() == old(output).eos(),
            !old(self).is_finished() && old(self).pending_unit() is Some && (old(output).is_full_spec() || old(output).eos()) ==> r is Wait && final(self).pending_unit()
                == old(self).pending_unit() && final(self).emitted_log() == old(self).emitted_log()
                && !final(self).is_finished() && final(input)@ == old(input)@ && final(output)@
                == old(output)@ && final(output).eos() == old(output).eos(),
            !old(self).is_finished() && old(self).pending_unit() is Some && !old(output).is_full_spec() && !old(output).eos() ==> final(output)@ == old(output)@.push(
                old(self).pending_unit()->0,
            ) && final(self).emitted_log() == old(self).emitted_log().push(
                old(self).pending_unit()->0,
            ),
            !old(self).is_finished() && old(self).pending_unit() is None ==> final(output)@ == old(output)@ && final(self).emitted_log() == old(self).emitted_log(),
            !old(self).is_finished() && (old(self).pending_unit() is None || (!old(output).is_full_spec() && !old(output).eos())) ==> {
                &&& final(self).pending_unit() is None
                &&& old(input)@.len() > 0 ==> r == DecoderAction::Decode(old(input)@[0])
                    && final(input)@ == old(input)@.drop_first() && final(self).is_awaiting()
                    && !final(self).is_finished() && final(output).eos() == old(output).eos()
                &&& old(input)@.len() == 0 && old(input).eos() ==> r is Finished
                    && final(self).is_finished() && final(output).eos() && final(input)@ == old(input)@
                &&& old(input)@.len() == 0 && !old(input).eos() ==> r is Wait
                    && !final(self).is_finished() && !final(self).is_awaiting() && final(input)@
                    == old(input)@ && final(output).eos() == old(output).eos()
            },
    {
        if self.finished {
            return DecoderAction::Finished;
        }
        if self.pending.is_some() {
            let unit = self.pending.take().unwrap();
            match output.push(unit) {
                Ok(()) => {
                    proof {
                        self.emitted@ = self.emitted@.push(unit);
                        assert(self.emitted@ + self.pending_seq() =~= old(self).emitted@ + old(self).pending_seq());
                    }
                },
                Err(unit) => {
                    self.pending = Some(unit);
                    return DecoderAction::Wait;
                },
            }
        }
        proof {
            assert(self.emitted@ + self.pending_seq() =~= self.emitted@);
        }
        match input.pop_if_ready() {
            Some(unit) => {
                self.awaiting = true;
                DecoderAction::Decode(unit)
            },
            None => {
                if input.is_ended() {
                    output.mark_end_of_stream();
                    self.finished = true;
                    DecoderAction::Finished
                } else {
                    DecoderAction::Wait
                }
            },
        }
    }

    /// Takes the outcome of decoding the unit that `next_action` handed out.
    /// A produced unit waits to be pushed; a failure is counted and the unit
    /// skipped; the decoder goes on either way.
    pub fn accept(&mut self, outcome: Result<Option<RawUnit>, DecodeError>)
        requires
            old(self).wf(),
            old(self).is_awaiting(),
        ensures
            final(self).wf(),
            final(self).outcomes_log() == old(self).outcomes_log().push(outcome),
            final(self).emitted_log() == old(self).emitted_log(),
            final(self).pending_unit() == match outcome {
                Ok(Some(u)) => Some(u),
                _ => None::<RawUnit>,
            },
            !final(self).is_awaiting(),
            !final(self).is_finished(),
            final(self).failure_count() == if outcome is Err && old(self).failure_count()
                < u64::MAX {
                old(self).failure_count() + 1
            } else {
                old(self).failure_count()
            },
    {
        proof {
            let next = self.outcomes@.push(outcome);
            assert(next.drop_last() =~= self.outcomes@);
            self.outcomes@ = next;
        }
        self.awaiting = false;
        match outcome {
            Ok(Some(unit)) => {
                self.pending = Some(unit);
            },
            Ok(None) => {
                proof {
                    assert(self.emitted@ + self.pending_seq() =~= survivors(self.outcomes@));
                }
            },
            Err(_) => {
                if self.failures < u64::MAX {
                    self.failures = self.failures + 1;
                }
                proof {
                    assert(self.emitted@ + self.pending_seq() =~= survivors(self.outcomes@));
                }
            },
        }
    }
}

} // verus!
