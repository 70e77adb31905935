use audio_bridge::channel::SignalPoll;
use audio_bridge::config::StreamConfig;
use audio_bridge::errors::SubmitError;
use audio_bridge::sample::{CanonicalSample, SampleRepr};
use audio_bridge::sink::{open_playback, resolve_signal, Readiness};
use audio_bridge::track::AudioTrack;

fn mono_48k() -> StreamConfig {
    StreamConfig::try_new(1, 48000, Some(SampleRepr::F32)).unwrap()
}

fn track_of_len(n: u32) -> AudioTrack {
    let samples: Vec<CanonicalSample> = (0..n).map(CanonicalSample::from_bits).collect();
    AudioTrack::new(samples, mono_48k())
}

#[test]
fn second_submission_while_busy_is_refused() {
    let (mut sink, mut worker_rx) = open_playback();
    assert!(!sink.busy());
    assert_eq!(sink.start_send(track_of_len(3)), Ok(()));
    assert!(sink.busy());

    assert_eq!(sink.start_send(track_of_len(4)), Err(SubmitError::AlreadyBusy));
    assert!(sink.busy());

    // Act as the worker: take the track, play it, fire its signal.
    let (_track, signal) = worker_rx.try_recv().unwrap();
    signal.send(()).unwrap();

    assert_eq!(sink.poll_ready(), Readiness::Ready);
    assert!(!sink.busy());
    assert_eq!(sink.start_send(track_of_len(5)), Ok(()));
    assert!(sink.busy());
}

#[test]
fn readiness_resolves_only_after_completion() {
    let (mut sink, mut worker_rx) = open_playback();
    assert_eq!(sink.start_send(track_of_len(100)), Ok(()));

    // Pending immediately after submission, and for as long as the
    // worker has not signalled.
    assert_eq!(sink.poll_ready(), Readiness::Pending);
    assert_eq!(sink.poll_flush(), Readiness::Pending);

    let (track, signal) = worker_rx.try_recv().unwrap();
    assert_eq!(track.current_frame_len(), Some(100));
    assert_eq!(sink.poll_ready(), Readiness::Pending);

    signal.send(()).unwrap();
    assert_eq!(sink.poll_ready(), Readiness::Ready);
    assert!(!sink.busy());
}

#[test]
fn empty_track_is_accepted_and_completes() {
    let (mut sink, mut worker_rx) = open_playback();
    assert_eq!(sink.start_send(track_of_len(0)), Ok(()));

    let (mut track, signal) = worker_rx.try_recv().unwrap();
    assert_eq!(track.current_frame_len(), Some(0));
    assert_eq!(track.next(), None);
    signal.send(()).unwrap();

    assert_eq!(sink.poll_close(), Readiness::Ready);
    assert!(!sink.busy());
}

#[test]
fn dead_worker_surfaces_as_channel_closed() {
    let (mut sink, worker_rx) = open_playback();
    drop(worker_rx);
    assert_eq!(sink.start_send(track_of_len(1)), Err(SubmitError::ChannelClosed));
    assert!(!sink.busy());
    assert_eq!(sink.poll_ready(), Readiness::Ready);
}

#[test]
fn lost_signal_resolves_readiness() {
    let (mut sink, mut worker_rx) = open_playback();
    assert_eq!(sink.start_send(track_of_len(2)), Ok(()));
    let (_track, signal) = worker_rx.try_recv().unwrap();
    // The worker dies without firing: the sink resolves gracefully
    // rather than waiting forever.
    drop(signal);
    assert_eq!(sink.poll_ready(), Readiness::Ready);
    assert!(!sink.busy());
}

#[test]
fn readiness_decision_follows_the_signal() {
    // An awaited signal keeps the sink busy and pending; a fired or
    // lost one resolves readiness and leaves it idle.
    assert_eq!(resolve_signal(SignalPoll::Waiting), (Readiness::Pending, true));
    assert_eq!(resolve_signal(SignalPoll::Fired), (Readiness::Ready, false));
    assert_eq!(resolve_signal(SignalPoll::Lost), (Readiness::Ready, false));
}

#[test]
fn orphaned_completion_signal_is_discarded() {
    let (mut sink, mut worker_rx) = open_playback();
    assert_eq!(sink.start_send(track_of_len(7)), Ok(()));
    drop(sink);
    // The worker still receives and finishes the in-flight track; the
    // fired signal has nobody listening, which is not an error.
    let (track, signal) = worker_rx.try_recv().unwrap();
    assert_eq!(track.current_frame_len(), Some(7));
    assert!(signal.send(()).is_err());
}
