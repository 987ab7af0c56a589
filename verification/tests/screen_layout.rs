use tui_wav::screen::{
    band_count, playback_status, screen_areas, spectrum_grid, Area, PlaybackStatus, SpectrumGrid,
};

fn area(x: u16, y: u16, width: u16, height: u16) -> Area {
    Area { x, y, width, height }
}

#[test]
fn band_count_for_widths() {
    assert_eq!(band_count(0), 24);
    assert_eq!(band_count(40), 24);
    assert_eq!(band_count(52), 24);
    assert_eq!(band_count(54), 25);
    assert_eq!(band_count(80), 38);
    assert_eq!(band_count(81), 38);
    assert_eq!(band_count(196), 96);
    assert_eq!(band_count(300), 96);
    assert_eq!(band_count(u16::MAX), 96);
}

#[test]
fn band_count_grows_with_width() {
    let mut last = band_count(0);
    for w in 0..=u16::MAX {
        let b = band_count(w);
        assert!((24..=96).contains(&b));
        assert!(b >= last);
        last = b;
    }
}

#[test]
fn status_words() {
    assert_eq!(playback_status(false, false), PlaybackStatus::Playing);
    assert_eq!(playback_status(true, false), PlaybackStatus::Paused);
    assert_eq!(playback_status(false, true), PlaybackStatus::Finished);
    assert_eq!(playback_status(true, true), PlaybackStatus::Finished);
    assert_eq!(PlaybackStatus::Playing.label(), "PLAYING");
    assert_eq!(PlaybackStatus::Paused.label(), "PAUSED");
    assert_eq!(PlaybackStatus::Finished.label(), "FINISHED");
}

#[test]
fn screen_rows_stack_top_to_bottom() {
    let parts = screen_areas(area(0, 0, 80, 24));
    assert_eq!(parts.header, area(0, 0, 80, 3));
    assert_eq!(parts.spectrum, area(0, 3, 80, 17));
    assert_eq!(parts.progress, area(0, 20, 80, 3));
    assert_eq!(parts.help, area(0, 23, 80, 1));
}

#[test]
fn spectrum_grid_inside_frame() {
    assert_eq!(
        spectrum_grid(area(0, 3, 80, 17), 38),
        Some(SpectrumGrid { inner: area(1, 4, 78, 15), rows: 15, gap: true })
    );
    assert_eq!(
        spectrum_grid(area(0, 3, 60, 10), 38),
        Some(SpectrumGrid { inner: area(1, 4, 58, 8), rows: 8, gap: false })
    );
}

#[test]
fn spectrum_grid_needs_room() {
    assert_eq!(spectrum_grid(area(0, 0, 2, 10), 24), None);
    assert_eq!(spectrum_grid(area(0, 0, 10, 2), 24), None);
    assert_eq!(spectrum_grid(area(0, 0, 10, 10), 0), None);
    assert_eq!(spectrum_grid(area(0, 0, 0, 0), 24), None);
}
