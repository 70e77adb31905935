use vstd::prelude::*;

use crate::channel::{oneshot_pair, oneshot_try_recv, unbounded_pair, unbounded_send, SignalPoll};
use crate::errors::SubmitError;
use crate::track::AudioTrack;

verus! {

/// What a readiness check reports: `Ready` when the sink may accept the
/// next track, `Pending` while the previously submitted one is still
/// playing.
#[derive(Clone, Copy, PartialEq, Eq, Structural, Debug)]
pub enum Readiness {
    Ready,
    Pending,
}

/// The sink's two-state machine, as a pure function: whether it is busy
/// after a submission, given whether it was busy before and whether the
/// track was delivered to the worker.
pub open spec fn submit_next_busy(busy: bool, delivered: bool) -> bool {
    busy || delivered
}

/// The outcome a submission reports: refused outright while busy,
/// accepted when idle and delivered, and a closed-channel error when
/// idle but the worker is gone.
pub open spec fn submit_verdict(busy: bool, delivered: bool) -> Result<(), SubmitError> {
    if busy {
        Err(SubmitError::AlreadyBusy)
    } else if delivered {
        Ok(())
    } else {
        Err(SubmitError::ChannelClosed)
    }
}

/// Whether the sink is still busy after a readiness check, given what
/// the completion signal reported: only an unfired, still-live signal
/// keeps it busy.
pub open spec fn ready_next_busy(busy: bool, sig: SignalPoll) -> bool {
    busy && sig == SignalPoll::Waiting
}

/// What a readiness check reports, given the completion signal's state.
pub open spec fn ready_report(busy: bool, sig: SignalPoll) -> Readiness {
    if busy && sig == SignalPoll::Waiting {
        Readiness::Pending
    } else {
        Readiness::Ready
    }
}

/// The sink's decision over one observed state of the in-flight
/// track's completion signal: what the readiness check reports, and
/// whether the sink is still busy afterwards. Readiness is reported
/// only once the signal is no longer awaited — fired by the worker, or
/// lost because the worker died — never while it is still waiting; and
/// the sink leaves the busy state exactly when readiness is reported.
pub fn resolve_signal(sig: SignalPoll) -> (r: (Readiness, bool))
    ensures
        r.0 == ready_report(true, sig),
        r.1 == ready_next_busy(true, sig),
{
    match sig {
        SignalPoll::Waiting => (Readiness::Pending, true),
        SignalPoll::Fired => (Readiness::Ready, false),
        SignalPoll::Lost => (Readiness::Ready, false),
    }
}

/// Law: single track in flight. While a track is in flight a further
/// submission is refused with `AlreadyBusy` and the sink stays busy,
/// whatever the worker does meanwhile; the readiness check resolves as
/// soon as the completion signal is no longer awaited, leaving the sink
/// idle; and an idle sink accepts a submission whenever the worker
/// still listens.
pub proof fn lemma_single_in_flight(delivered: bool, sig: SignalPoll)
    ensures
        submit_verdict(true, delivered) == Err::<(), SubmitError>(SubmitError::AlreadyBusy),
        submit_next_busy(true, delivered),
        sig != SignalPoll::Waiting ==> !ready_next_busy(true, sig) && ready_report(true, sig)
            == Readiness::Ready,
        ready_report(true, SignalPoll::Waiting) == Readiness::Pending,
        submit_verdict(false, true) == Ok::<(), SubmitError>(()),
        submit_next_busy(false, true),
{
}

/// The asynchronous-facing half of playback: accepts one finite track
/// at a time, forwards it to the worker that owns the playback engine,
/// and refuses further submissions until the worker's completion signal
/// has been observed. Backpressure is this explicit two-state machine,
/// not an internal queue: overlapping submissions are a caller error.
pub struct AudioOutputStream {
    sender: tokio::sync::mpsc::UnboundedSender<(AudioTrack, tokio::sync::oneshot::Sender<()>)>,
    pending: Option<tokio::sync::oneshot::Receiver<()>>,
}

/// Creates the playback bridge: the sink the asynchronous side submits
/// tracks to, and the receiving half of the playback queue, to be owned
/// by the single dedicated worker that plays each track to completion
/// and fires its completion signal.
pub fn open_playback() -> (r: (
    AudioOutputStream,
    tokio::sync::mpsc::UnboundedReceiver<(AudioTrack, tokio::sync::oneshot::Sender<()>)>,
))
    ensures
        !r.0.is_busy(),
{
    let (sender, receiver) = unbounded_pair();
    (AudioOutputStream { sender, pending: None }, receiver)
}

impl AudioOutputStream {
    /// Whether a submitted track's completion signal is still awaited.
    pub closed spec fn is_busy(self) -> bool {
        self.pending is Some
    }

    pub fn busy(&self) -> (r: bool)
        ensures
            r == self.is_busy(),
    {
        self.pending.is_some()
    }

    /// Submits one track. Valid only while idle: a busy sink refuses
    /// with `AlreadyBusy` and is left exactly as it was. When idle, the
    /// track is paired with a fresh completion signal and handed to the
    /// worker; the sink is busy from then on until the readiness check
    /// observes the signal. A worker that is gone surfaces as
    /// `ChannelClosed`, and the sink stays idle.
    pub fn start_send(&mut self, track: AudioTrack) -> (r: Result<(), SubmitError>)
        ensures
            r == submit_verdict(old(self).is_busy(), r is Ok),
            final (self).is_busy() == submit_next_busy(old(self).is_busy(), r is Ok),
            old(self).is_busy() ==> *final (self) == *old(self),
    {
        if self.pending.is_some() {
            return Err(SubmitError::AlreadyBusy);
        }
        let (signal_tx, signal_rx) = oneshot_pair();
        match unbounded_send(&self.sender, (track, signal_tx)) {
            Ok(()) => {
                self.pending = Some(signal_rx);
                Ok(())
            },
            Err(_) => Err(SubmitError::ChannelClosed),
        }
    }

    /// The readiness check: immediately ready while idle; while busy,
    /// the completion signal is polled once and `resolve_signal`
    /// decides — ready exactly when the signal is no longer awaited,
    /// and the sink is idle again from then on, its receiver discarded.
    pub fn poll_ready(&mut self) -> (r: Readiness)
        ensures
            !old(self).is_busy() ==> *final (self) == *old(self) && r == Readiness::Ready,
            r == Readiness::Pending <==> final (self).is_busy(),
            final (self).is_busy() ==> old(self).is_busy(),
    {
        match &mut self.pending {
            None => Readiness::Ready,
            Some(signal_rx) => {
                let sig = oneshot_try_recv(signal_rx);
                let (report, still_busy) = resolve_signal(sig);
                if !still_busy {
                    self.pending = None;
                }
                report
            },
        }
    }

    /// Flushing has the same meaning as the readiness check: there is
    /// nothing buffered in the sink itself, only the one in-flight
    /// track to wait for.
    pub fn poll_flush(&mut self) -> (r: Readiness)
        ensures
            !old(self).is_busy() ==> *final (self) == *old(self) && r == Readiness::Ready,
            r == Readiness::Pending <==> final (self).is_busy(),
            final (self).is_busy() ==> old(self).is_busy(),
    {
        self.poll_ready()
    }

    /// Closing likewise only waits for the in-flight track; the queue
    /// to the worker closes when the sink is dropped.
    pub fn poll_close(&mut self) -> (r: Readiness)
        ensures
            !old(self).is_busy() ==> *final (self) == *old(self) && r == Readiness::Ready,
            r == Readiness::Pending <==> final (self).is_busy(),
            final (self).is_busy() ==> old(self).is_busy(),
    {
        self.poll_ready()
    }
}

} // verus!
