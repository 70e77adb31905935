use vstd::prelude::*;

use crate::channel::{unbounded_pair, unbounded_send, unbounded_try_recv, RecvPoll};
use crate::config::StreamConfig;
use crate::sample::CanonicalSample;

verus! {

/// The producing half of the capture bridge, held by the real-time
/// callback. Pushing never blocks; once the consuming half is gone a
/// batch is silently discarded, because the real-time context cannot
/// propagate errors without violating its non-blocking contract.
pub struct CaptureFeed {
    sender: tokio::sync::mpsc::UnboundedSender<Vec<CanonicalSample>>,
}

impl CaptureFeed {
    /// Forwards one converted batch to the asynchronous side. Returns
    /// `true` while the consumer still listens; a refused batch is
    /// dropped on the floor, never an error and never a panic. Total
    /// over all inputs: verification of this function is what shows the
    /// callback path cannot fail.
    pub fn push_batch(&self, batch: Vec<CanonicalSample>) -> (r: bool) {
        match unbounded_send(&self.sender, batch) {
            Ok(()) => true,
            Err(_) => false,
        }
    }
}

/// One non-blocking look at the capture sequence.
#[derive(PartialEq, Eq, Debug)]
pub enum BatchPoll {
    /// The next batch, exactly as the driver delivered it.
    Batch(Vec<CanonicalSample>),
    /// No batch queued right now, but the producer is still alive.
    Pending,
    /// The producer is gone and every queued batch has been consumed;
    /// the sequence has permanently ended.
    Ended,
}

/// The consuming half of the capture bridge: exposes the captured audio
/// as a lazily produced sequence of batches. The underlying device
/// stream is idle until the first poll; polling marks the stream
/// started, and the unverified edge that owns the device handle starts
/// it exactly then.
pub struct AudioInputStream {
    config: StreamConfig,
    receiver: tokio::sync::mpsc::UnboundedReceiver<Vec<CanonicalSample>>,
    started: bool,
}

/// Creates the capture bridge for an opened stream: the feed the
/// real-time callback writes into, and the input stream the
/// asynchronous side reads from. The queue between them is unbounded
/// and strictly first-in first-out, so the producer never blocks and no
/// batch is reordered or dropped while the consumer lives.
pub fn open_capture(config: StreamConfig) -> (r: (CaptureFeed, AudioInputStream))
    ensures
        r.1.cfg() == config,
        !r.1.has_started(),
{
    let (sender, receiver) = unbounded_pair();
    (CaptureFeed { sender }, AudioInputStream { config, receiver, started: false })
}

impl AudioInputStream {
    /// The configuration the stream was opened with.
    pub closed spec fn cfg(self) -> StreamConfig {
        self.config
    }

    /// Whether the capture sequence has been polled at least once, and
    /// the device stream is therefore due to be active.
    pub closed spec fn has_started(self) -> bool {
        self.started
    }

    pub fn config(&self) -> (r: StreamConfig)
        ensures
            r == self.cfg(),
    {
        self.config
    }

    pub fn started(&self) -> (r: bool)
        ensures
            r == self.has_started(),
    {
        self.started
    }

    /// One non-blocking poll of the capture sequence. The first poll
    /// transitions the stream from idle to started; every poll leaves
    /// the configuration untouched.
    pub fn poll_batch(&mut self) -> (r: BatchPoll)
        ensures
            final (self).cfg() == old(self).cfg(),
            final (self).has_started(),
    {
        self.started = true;
        match unbounded_try_recv(&mut self.receiver) {
            RecvPoll::Item(batch) => BatchPoll::Batch(batch),
            RecvPoll::Waiting => BatchPoll::Pending,
            RecvPoll::Ended => BatchPoll::Ended,
        }
    }

}

} // verus!
