use tui_wav::playback::{clamp_frame_index, playback_format, validate_stream};

#[test]
fn empty_track_is_refused() {
    assert_eq!(validate_stream(0, 2), Err("file contains no audio samples".to_string()));
    assert_eq!(validate_stream(0, 0), Err("file contains no audio samples".to_string()));
}

#[test]
fn zero_channels_are_refused() {
    assert_eq!(validate_stream(10, 0), Err("invalid channel count".to_string()));
}

#[test]
fn frames_of_interleaved_samples() {
    assert_eq!(validate_stream(10, 2), Ok(5));
    assert_eq!(validate_stream(11, 2), Ok(5));
    assert_eq!(validate_stream(7, 1), Ok(7));
    assert_eq!(validate_stream(1, 2), Ok(0));
}

#[test]
fn output_format_checks() {
    assert_eq!(playback_format(2, 44_100), Ok((2, 44_100)));
    assert_eq!(playback_format(0, 44_100), Err("invalid channel count".to_string()));
    assert_eq!(playback_format(65_536, 44_100), Err("invalid channel count".to_string()));
    assert_eq!(playback_format(65_537, 48_000), Ok((1, 48_000)));
    assert_eq!(playback_format(2, 0), Err("invalid sample rate".to_string()));
}

#[test]
fn frame_index_stays_in_track() {
    assert_eq!(clamp_frame_index(10, 100), 10);
    assert_eq!(clamp_frame_index(99, 100), 99);
    assert_eq!(clamp_frame_index(100, 100), 99);
    assert_eq!(clamp_frame_index(5_000, 100), 99);
    assert_eq!(clamp_frame_index(5, 0), 0);
}
