use audio_bridge::config::StreamConfig;
use audio_bridge::errors::OpenError;
use audio_bridge::sample::{CanonicalSample, SampleRepr};
use audio_bridge::track::AudioTrack;

fn stereo_44k() -> StreamConfig {
    StreamConfig::try_new(2, 44100, Some(SampleRepr::I16)).unwrap()
}

#[test]
fn canonical_sample_carries_f32_bits_faithfully() {
    for value in [0.0f32, 1.0, -1.0, 0.5, -0.25] {
        let s = CanonicalSample::from_bits(value.to_bits());
        assert_eq!(f32::from_bits(s.to_bits()), value);
    }
}

#[test]
fn track_yields_samples_in_order() {
    let samples = vec![
        CanonicalSample::from_bits(5),
        CanonicalSample::from_bits(6),
        CanonicalSample::from_bits(7),
    ];
    let mut t = AudioTrack::new(samples, stereo_44k());
    assert_eq!(t.current_frame_len(), Some(3));
    assert_eq!(t.next(), Some(CanonicalSample::from_bits(5)));
    assert_eq!(t.current_frame_len(), Some(2));
    assert_eq!(t.next(), Some(CanonicalSample::from_bits(6)));
    assert_eq!(t.next(), Some(CanonicalSample::from_bits(7)));
    assert_eq!(t.next(), None);
    assert_eq!(t.current_frame_len(), Some(0));
}

#[test]
fn track_reports_its_config_and_no_duration() {
    let t = AudioTrack::new(Vec::new(), stereo_44k());
    assert_eq!(t.channels(), 2);
    assert_eq!(t.sample_rate(), 44100);
    assert_eq!(t.total_duration(), None);
    assert_eq!(t.current_frame_len(), Some(0));
}

#[test]
fn from_batches_concatenates_in_order() {
    let batches = vec![
        vec![CanonicalSample::from_bits(1), CanonicalSample::from_bits(2)],
        vec![],
        vec![CanonicalSample::from_bits(3)],
    ];
    let mut t = AudioTrack::from_batches(&batches, stereo_44k());
    assert_eq!(t.current_frame_len(), Some(3));
    assert_eq!(t.next(), Some(CanonicalSample::from_bits(1)));
    assert_eq!(t.next(), Some(CanonicalSample::from_bits(2)));
    assert_eq!(t.next(), Some(CanonicalSample::from_bits(3)));
    assert_eq!(t.next(), None);
}

#[test]
fn from_no_batches_gives_an_empty_track() {
    let t = AudioTrack::from_batches(&Vec::new(), stereo_44k());
    assert_eq!(t.current_frame_len(), Some(0));
}

#[test]
fn unsupported_representation_is_rejected_at_open() {
    assert_eq!(
        StreamConfig::try_new(1, 48000, None),
        Err(OpenError::UnsupportedFormat)
    );
}

#[test]
fn zero_channels_or_rate_is_rejected_at_open() {
    assert_eq!(
        StreamConfig::try_new(0, 48000, Some(SampleRepr::U8)),
        Err(OpenError::InvalidConfig)
    );
    assert_eq!(
        StreamConfig::try_new(1, 0, Some(SampleRepr::F64)),
        Err(OpenError::InvalidConfig)
    );
}

#[test]
fn valid_open_keeps_the_negotiated_parameters() {
    let c = StreamConfig::try_new(1, 48000, Some(SampleRepr::I32)).unwrap();
    assert_eq!(c.channels, 1);
    assert_eq!(c.sample_rate, 48000);
    assert_eq!(c.repr, SampleRepr::I32);
}
