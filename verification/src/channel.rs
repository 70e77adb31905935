use vstd::prelude::*;

verus! {

// The two channel flavours the bridge is built on: an unbounded
// multi-producer queue whose send never blocks (the real-time callback
// feeds it), and a one-shot signal that carries a single completion
// notification. Both come from an outside asynchronous runtime; the
// declarations and wrappers below are the whole trusted boundary of
// this crate.
#[verifier::external_type_specification]
#[verifier::external_body]
#[verifier::reject_recursive_types(T)]
pub struct ExUnboundedSender<T>(tokio::sync::mpsc::UnboundedSender<T>);

#[verifier::external_type_specification]
#[verifier::external_body]
#[verifier::reject_recursive_types(T)]
pub struct ExUnboundedReceiver<T>(tokio::sync::mpsc::UnboundedReceiver<T>);

#[verifier::external_type_specification]
#[verifier::external_body]
#[verifier::reject_recursive_types(T)]
pub struct ExOneshotSender<T>(tokio::sync::oneshot::Sender<T>);

#[verifier::external_type_specification]
#[verifier::external_body]
#[verifier::reject_recursive_types(T)]
pub struct ExOneshotReceiver<T>(tokio::sync::oneshot::Receiver<T>);

#[verifier::external_type_specification]
#[verifier::external_body]
pub struct ExOneshotRecvError(tokio::sync::oneshot::error::RecvError);

/// One non-blocking look at an unbounded queue's receiving half.
pub enum RecvPoll<T> {
    /// The next value, in the order the producer sent them.
    Item(T),
    /// Nothing queued right now, but a sender is still alive.
    Waiting,
    /// Every sender is gone and the queue has been drained; no further
    /// value will ever arrive.
    Ended,
}

/// One non-blocking look at a one-shot signal's receiving half.
#[derive(Clone, Copy, PartialEq, Eq, Structural, Debug)]
pub enum SignalPoll {
    /// The signal has been fired.
    Fired,
    /// Not fired yet, and the firing half is still alive.
    Waiting,
    /// The signal can never arrive any more: the firing half was
    /// dropped without firing, or the signal was already consumed.
    Lost,
}

/// Relies on tokio::sync::mpsc::unbounded_channel: creates a fresh,
/// empty queue and returns its two halves.
#[verifier::external_body]
pub(crate) fn unbounded_pair<T>() -> (tokio::sync::mpsc::UnboundedSender<T>, tokio::sync::mpsc::UnboundedReceiver<T>) {
    tokio::sync::mpsc::unbounded_channel()
}

/// Relies on tokio::sync::mpsc::UnboundedSender::send: never blocks;
/// returns the value back exactly when the receiving half is gone, and
/// queues it behind all previously sent values otherwise.
#[verifier::external_body]
pub(crate) fn unbounded_send<T>(
    sender: &tokio::sync::mpsc::UnboundedSender<T>,
    value: T,
) -> (r: Result<(), T>)
    ensures
        r matches Err(v) ==> v == value,
{
    sender.send(value).map_err(|tokio::sync::mpsc::error::SendError(v)| v)
}

/// Relies on tokio::sync::mpsc::UnboundedReceiver::try_recv: never
/// blocks; distinguishes an empty-but-open queue from one whose senders
/// are all gone.
#[verifier::external_body]
pub(crate) fn unbounded_try_recv<T>(receiver: &mut tokio::sync::mpsc::UnboundedReceiver<T>) -> (r:
    RecvPoll<T>) {
    match receiver.try_recv() {
        Ok(v) => RecvPoll::Item(v),
        Err(tokio::sync::mpsc::error::TryRecvError::Empty) => RecvPoll::Waiting,
        Err(tokio::sync::mpsc::error::TryRecvError::Disconnected) => RecvPoll::Ended,
    }
}

/// Relies on tokio::sync::oneshot::channel: creates a fresh, unfired
/// signal and returns its two halves.
#[verifier::external_body]
pub(crate) fn oneshot_pair() -> (tokio::sync::oneshot::Sender<()>, tokio::sync::oneshot::Receiver<()>) {
    tokio::sync::oneshot::channel()
}

/// Relies on tokio::sync::oneshot::Receiver::try_recv: never blocks;
/// reports `Fired` only after the sending half has fired the signal,
/// and `Lost` only after the sending half was dropped without firing or
/// the signal was already consumed by an earlier call.
#[verifier::external_body]
pub(crate) fn oneshot_try_recv(receiver: &mut tokio::sync::oneshot::Receiver<()>) -> (r:
    SignalPoll) {
    match receiver.try_recv() {
        Ok(()) => SignalPoll::Fired,
        Err(tokio::sync::oneshot::error::TryRecvError::Empty) => SignalPoll::Waiting,
        Err(tokio::sync::oneshot::error::TryRecvError::Closed) => SignalPoll::Lost,
    }
}

} // verus!
