use tui_wav::spectrum::{
    analysis_end, analysis_window, band_bins, effective_bands, resized_band_count, AnalysisWindow,
    FFT_SIZE, MIN_BANDS,
};

#[test]
fn bands_never_below_eight() {
    assert_eq!(MIN_BANDS, 8);
    assert_eq!(effective_bands(0), 8);
    assert_eq!(effective_bands(7), 8);
    assert_eq!(effective_bands(8), 8);
    assert_eq!(effective_bands(64), 64);
}

#[test]
fn resize_only_when_count_changes() {
    assert_eq!(resized_band_count(64, 64), None);
    assert_eq!(resized_band_count(64, 48), Some(48));
    assert_eq!(resized_band_count(8, 3), None);
    assert_eq!(resized_band_count(24, 3), Some(8));
    let first = resized_band_count(64, 30).unwrap();
    assert_eq!(resized_band_count(first, 30), None);
}

#[test]
fn window_ends_at_playhead() {
    assert_eq!(
        analysis_window(10_000, 5_000, FFT_SIZE),
        AnalysisWindow { start: 5_000 - 2048, available: 2048, bins: 1024 }
    );
}

#[test]
fn window_at_track_start_is_short() {
    assert_eq!(
        analysis_window(10_000, 100, FFT_SIZE),
        AnalysisWindow { start: 0, available: 100, bins: 1024 }
    );
    assert_eq!(analysis_window(10_000, 0, FFT_SIZE), AnalysisWindow { start: 0, available: 0, bins: 1024 });
}

#[test]
fn window_stops_at_track_end() {
    assert_eq!(
        analysis_window(3_000, 4_000, FFT_SIZE),
        AnalysisWindow { start: 4_000 - 2048, available: 3_000 - (4_000 - 2048), bins: 1024 }
    );
    assert_eq!(
        analysis_window(1_000, 5_000, FFT_SIZE),
        AnalysisWindow { start: 5_000 - 2048, available: 0, bins: 1024 }
    );
}

#[test]
fn window_never_reads_past_samples() {
    for len in [0usize, 1, 100, 2047, 2048, 2049, 10_000] {
        for end in [0usize, 1, 50, 2047, 2048, 2049, 9_999, 10_000, 20_000] {
            let w = analysis_window(len, end, FFT_SIZE);
            assert!(w.available <= FFT_SIZE);
            assert!(w.start + w.available <= end);
            assert!(w.available == 0 || w.start + w.available <= len);
        }
    }
}

#[test]
fn playhead_at_least_one() {
    assert_eq!(analysis_end(0), 1);
    assert_eq!(analysis_end(1), 1);
    assert_eq!(analysis_end(4410), 4410);
}

#[test]
fn band_bins_hold_at_least_one_bin() {
    assert_eq!(band_bins(3, 3, 1024), (3, 4));
    assert_eq!(band_bins(3, 1, 1024), (3, 4));
    assert_eq!(band_bins(3, 10, 1024), (3, 10));
    assert_eq!(band_bins(1000, 2000, 1024), (1000, 1024));
    assert_eq!(band_bins(1023, 1023, 1024), (1023, 1024));
    assert_eq!(band_bins(1024, 1024, 1024), (1024, 1024));
}
