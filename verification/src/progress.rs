//! Progress reporting for archive operations.

use vstd::prelude::*;

verus! {

/// A sink for extraction lifecycle and byte-count signals.
///
/// All three calls are advisory: they return nothing and must not fail the
/// extraction.  Implementations may be invoked from a thread other than the
/// one that constructed them.
pub trait ProgressReporter {
    /// Called when extraction starts, with the archive's size when known.
    fn on_start(&self, total_bytes: Option<u64>);

    /// Called with the running total of compressed bytes read so far.
    fn on_progress(&self, bytes_processed: u64);

    /// Called when extraction finishes.
    fn on_finish(&self, message: &str);
}

/// A no-op progress reporter; the default, so that progress plumbing has
/// zero cost when unused.
#[derive(Clone, Copy, Debug)]
pub struct NoProgressReporter;

impl ProgressReporter for NoProgressReporter {
    fn on_start(&self, _total_bytes: Option<u64>) {
    }

    fn on_progress(&self, _bytes_processed: u64) {
    }

    fn on_finish(&self, _message: &str) {
    }
}

impl Default for NoProgressReporter {
    fn default() -> (r: Self)
        ensures
            r == NoProgressReporter,
    {
        NoProgressReporter
    }
}

/// The sum of a sequence of per-read byte counts.
pub open spec fn total_read(reads: Seq<nat>) -> nat
    decreases reads.len(),
{
    if reads.len() == 0 {
        0
    } else {
        total_read(reads.drop_last()) + reads.last()
    }
}

/// A wrapper around a byte source that accounts for progress: it owns the
/// inner reader and a running total of the bytes handed out, and reports the
/// total to its reporter after every read, zero-length reads at end of input
/// included.
///
/// The wrapper itself never reads; whoever forwards a read from the inner
/// source calls [`ProgressReader::record_read`] with the count that came
/// back.
pub struct ProgressReader<R, P: ProgressReporter> {
    inner: R,
    reporter: P,
    bytes_read: u64,
    reads: Ghost<Seq<nat>>,
}

impl<R, P: ProgressReporter> ProgressReader<R, P> {
    /// The wrapped byte source.
    pub closed spec fn spec_inner(&self) -> R {
        self.inner
    }

    /// The reporter the running total is signalled to.
    pub closed spec fn spec_reporter(&self) -> P {
        self.reporter
    }

    /// The recorded sizes of the reads forwarded so far.
    pub closed spec fn spec_reads(&self) -> Seq<nat> {
        self.reads@
    }

    /// The running total as stored.
    pub closed spec fn spec_bytes_read(&self) -> u64 {
        self.bytes_read
    }

    /// The running total is exactly the sum of the recorded reads: the last
    /// value reported equals the number of bytes actually read from the
    /// source.
    pub open spec fn wf(&self) -> bool {
        self.spec_bytes_read() == total_read(self.spec_reads())
    }

    /// Create a new progress reader around `inner`.
    pub fn new(inner: R, reporter: P) -> (r: Self)
        ensures
            r.wf(),
            r.spec_inner() == inner,
            r.spec_reporter() == reporter,
            r.spec_reads() == Seq::<nat>::empty(),
            r.spec_bytes_read() == 0,
    {
        ProgressReader { inner, reporter, bytes_read: 0, reads: Ghost(Seq::empty()) }
    }

    /// Get the total bytes read.
    pub fn bytes_read(&self) -> (r: u64)
        ensures
            r == self.spec_bytes_read(),
    {
        self.bytes_read
    }

    /// Mutable access to the wrapped byte source, so reads can be forwarded.
    pub fn inner_mut(&mut self) -> (r: &mut R)
        ensures
            *r == old(self).spec_inner(),
            final(self).spec_inner() == *final(r),
            final(self).spec_reporter() == old(self).spec_reporter(),
            final(self).spec_reads() == old(self).spec_reads(),
            final(self).spec_bytes_read() == old(self).spec_bytes_read(),
    {
        &mut self.inner
    }

    /// Account for one forwarded read of `n` bytes and report the new
    /// running total to the reporter.
    pub fn record_read(&mut self, n: usize)
        requires
            old(self).spec_bytes_read() + n <= u64::MAX,
        ensures
            final(self).spec_reads() == old(self).spec_reads().push(n as nat),
            final(self).spec_bytes_read() == old(self).spec_bytes_read() + n,
            final(self).spec_inner() == old(self).spec_inner(),
            final(self).spec_reporter() == old(self).spec_reporter(),
            old(self).wf() ==> final(self).wf(),
    {
        self.bytes_read = self.bytes_read + (n as u64);
        proof {
            self.reads@ = self.reads@.push(n as nat);
            assert(self.reads@.drop_last() =~= old(self).reads@);
        }
        self.reporter.on_progress(self.bytes_read);
    }
}

/// Progress is non-decreasing: the running total after any read is at most
/// the running total after any later read.
pub proof fn lemma_progress_monotonic(reads: Seq<nat>, i: int, j: int)
    requires
        0 <= i <= j <= reads.len(),
    ensures
        total_read(reads.take(i)) <= total_read(reads.take(j)),
    decreases j - i,
{
    if i < j {
        lemma_progress_monotonic(reads, i, j - 1);
        assert(reads.take(j).drop_last() =~= reads.take(j - 1));
        assert(total_read(reads.take(j)) == total_read(reads.take(j - 1)) + reads[j - 1]);
    }
}

} // verus!
