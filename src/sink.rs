use vstd::prelude::*;

use crate::error::RecorderError;

verus! {

/// The in-process destination of captured samples.
///
/// The capture callback hands each batch to `accept`; whoever owns the encoder takes the
/// accepted samples out with `take_pending`, in the order they came, and reports with
/// `record_failed_writes` how many of them the encoder refused. Every sample that was
/// accepted is either still pending or has been taken out, exactly once.
pub struct SampleSink<T> {
    pending: Vec<T>,
    failed_writes: u64,
    delivered: Ghost<Seq<T>>,
    handed_out: Ghost<Seq<T>>,
}

impl<T: Copy> SampleSink<T> {
    /// Every sample accepted so far, in delivery order.
    pub closed spec fn delivered(&self) -> Seq<T> {
        self.delivered@
    }

    /// Every sample taken out so far, in the order it was taken.
    pub closed spec fn handed_out(&self) -> Seq<T> {
        self.handed_out@
    }

    /// The samples accepted and not yet taken out.
    pub closed spec fn pending(&self) -> Seq<T> {
        self.pending@
    }

    /// How many samples the encoder refused (saturating).
    pub closed spec fn failures(&self) -> u64 {
        self.failed_writes
    }

    /// What has been taken out, followed by what is pending, is what was delivered.
    pub closed spec fn wf(&self) -> bool {
        self.delivered@ == self.handed_out@ + self.pending@
    }

    /// An empty sink.
    pub fn new() -> (r: Self)
        ensures
            r.wf(),
            r.delivered() == Seq::<T>::empty(),
            r.handed_out() == Seq::<T>::empty(),
            r.pending() == Seq::<T>::empty(),
            r.failures() == 0,
    {
        SampleSink {
            pending: Vec::new(),
            failed_writes: 0,
            delivered: Ghost(Seq::empty()),
            handed_out: Ghost(Seq::empty()),
        }
    }

    /// Appends one batch from the capture callback, keeping its order.
    pub fn accept(&mut self, batch: &[T])
        requires
            old(self).wf(),
        ensures
            final(self).wf(),
            final(self).delivered() == old(self).delivered() + batch@,
            final(self).pending() == old(self).pending() + batch@,
            final(self).handed_out() == old(self).handed_out(),
            final(self).failures() == old(self).failures(),
    {
        let ghost start = self.pending@;
        let mut i: usize = 0;
        while i < batch.len()
            invariant
                i <= batch@.len(),
                self.pending@ == start + batch@.subrange(0, i as int),
                self.delivered@ == old(self).delivered@,
                self.handed_out@ == old(self).handed_out@,
                self.failed_writes == old(self).failed_writes,
            decreases batch@.len() - i,
        {
            self.pending.push(batch[i]);
            assert(batch@.subrange(0, i + 1) == batch@.subrange(0, i as int).push(batch@[i as int]));
            i = i + 1;
        }
        assert(batch@.subrange(0, batch@.len() as int) == batch@);
        self.delivered = Ghost(self.delivered@ + batch@);
        assert(self.delivered@ =~= self.handed_out@ + self.pending@);
    }

    /// Takes out every pending sample, oldest first, for the encoder to write.
    pub fn take_pending(&mut self) -> (r: Vec<T>)
        requires
            old(self).wf(),
        ensures
            final(self).wf(),
            r@ == old(self).pending(),
            final(self).pending() == Seq::<T>::empty(),
            final(self).handed_out() == old(self).handed_out() + r@,
            final(self).delivered() == old(self).delivered(),
            final(self).failures() == old(self).failures(),
    {
        let mut r: Vec<T> = Vec::new();
        r.append(&mut self.pending);
        self.handed_out = Ghost(self.handed_out@ + r@);
        assert(self.delivered@ =~= self.handed_out@ + self.pending@);
        r
    }

    /// The number of samples accepted and not yet taken out.
    pub fn pending_len(&self) -> (r: usize)
        ensures
            r == self.pending().len(),
    {
        self.pending.len()
    }

    /// Notes that the encoder refused `n` samples; the count saturates at `u64::MAX`.
    pub fn record_failed_writes(&mut self, n: u64)
        requires
            old(self).wf(),
        ensures
            final(self).wf(),
            final(self).failures() == if old(self).failures() + n > u64::MAX {
                u64::MAX
            } else {
                (old(self).failures() + n) as u64
            },
            final(self).delivered() == old(self).delivered(),
            final(self).handed_out() == old(self).handed_out(),
            final(self).pending() == old(self).pending(),
    {
        self.failed_writes = self.failed_writes.saturating_add(n);
    }

    /// How many samples the encoder refused.
    pub fn failed_writes(&self) -> (r: u64)
        ensures
            r == self.failures(),
    {
        self.failed_writes
    }

    /// The verdict on the recording once the encoder is closed: complete, or partial when
    /// the encoder refused any sample.
    pub fn outcome(&self) -> (r: Result<(), RecorderError>)
        ensures
            r is Ok <==> self.failures() == 0,
            r is Err ==> r == Err::<(), RecorderError>(RecorderError::PartialRecordingFailure),
    {
        if self.failed_writes == 0 {
            Ok(())
        } else {
            Err(RecorderError::PartialRecordingFailure)
        }
    }
}

/// Once nothing is pending, the samples taken out are exactly the samples delivered, in
/// delivery order, with no gap and no duplicate.
pub proof fn lemma_drained_sink_hands_out_every_sample<T: Copy>(s: SampleSink<T>)
    requires
        s.wf(),
        s.pending().len() == 0,
    ensures
        s.handed_out() == s.delivered(),
{
    reveal(SampleSink::wf);
    reveal(SampleSink::pending);
    reveal(SampleSink::handed_out);
    reveal(SampleSink::delivered);
    assert(s.pending@ == Seq::<T>::empty());
    assert(s.handed_out@ + Seq::<T>::empty() =~= s.handed_out@);
}

} // verus!
