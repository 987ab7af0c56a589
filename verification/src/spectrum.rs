//! Index arithmetic of the spectrum analyzer: band counts, the slice of
//! samples that feeds one transform, and the bins that make up one band.
use vstd::prelude::*;

verus! {

/// Samples per transform.
pub const FFT_SIZE: usize = 2048;

/// Smallest number of bands the analyzer works with.
pub const MIN_BANDS: usize = 8;

/// The band count used for a requested one: never fewer than `MIN_BANDS`.
pub open spec fn bands_for(requested: nat) -> nat {
    if requested < MIN_BANDS {
        MIN_BANDS as nat
    } else {
        requested
    }
}

/// The number of bands an analyzer made or resized with `requested` uses.
pub fn effective_bands(requested: usize) -> (bands: usize)
    ensures
        bands == bands_for(requested as nat),
        requested >= MIN_BANDS ==> bands == requested,
        requested < MIN_BANDS ==> bands == MIN_BANDS,
{
    if requested < MIN_BANDS {
        MIN_BANDS
    } else {
        requested
    }
}

/// The outcome of resizing an analyzer that has `current` bands to
/// `requested`: the new count when it changes, `None` when it stays.
pub open spec fn resize_outcome(current: nat, requested: nat) -> Option<nat> {
    if bands_for(requested) != current {
        Some(bands_for(requested))
    } else {
        None
    }
}

/// Resizing an analyzer that has `current` bands to `requested`: `Some` with the
/// new count when it changes, `None` when the bands stay as they are.
pub fn resized_band_count(current: usize, requested: usize) -> (resized: Option<usize>)
    ensures
        match resized {
            Some(b) => resize_outcome(current as nat, requested as nat) == Some(b as nat),
            None => resize_outcome(current as nat, requested as nat) == None::<nat>,
        },
        requested >= MIN_BANDS ==> (resized == if requested != current {
            Some(requested)
        } else {
            None
        }),
        requested < MIN_BANDS ==> (resized == if current != MIN_BANDS {
            Some(MIN_BANDS)
        } else {
            None
        }),
{
    let bands = effective_bands(requested);
    if bands != current {
        Some(bands)
    } else {
        None
    }
}

/// The band count is the request raised to `MIN_BANDS`, never lowered: a
/// request of at least `MIN_BANDS` is taken as it is, a smaller one becomes
/// `MIN_BANDS`; a resize changes the count exactly when that differs from the
/// current one.
pub proof fn lemma_bands_are_request_raised(current: nat, requested: nat)
    ensures
        requested >= MIN_BANDS ==> bands_for(requested) == requested,
        requested < MIN_BANDS ==> bands_for(requested) == MIN_BANDS,
        bands_for(requested) >= requested,
        requested >= MIN_BANDS && requested != current ==> resize_outcome(current, requested)
            == Some(requested),
        requested == current && current >= MIN_BANDS ==> resize_outcome(current, requested)
            == None::<nat>,
{
}

/// An analyzer always has at least `MIN_BANDS` bands; after a resize it has
/// the count asked for (raised to `MIN_BANDS`) whether or not anything
/// changed, and resizing it again to the same request changes nothing.
pub proof fn lemma_resize_settles(current: nat, requested: nat)
    ensures
        bands_for(requested) >= MIN_BANDS,
        ({
            let after = match resize_outcome(current, requested) {
                Some(b) => b,
                None => current,
            };
            &&& after == bands_for(requested)
            &&& resize_outcome(after, requested) == None::<nat>
        }),
{
}

/// The samples that feed one transform: `available` samples from `start`; the
/// rest of the transform's input is zero.
#[derive(Debug, Clone, Copy, PartialEq, Eq, Structural)]
pub struct AnalysisWindow {
    pub start: usize,
    pub available: usize,
    /// Magnitude bins kept from the transform (up to the Nyquist frequency).
    pub bins: usize,
}

/// First sample of the window that ends at `end_frame`.
pub open spec fn window_start(end_frame: nat, fft_size: nat) -> nat {
    if end_frame >= fft_size {
        (end_frame - fft_size) as nat
    } else {
        0
    }
}

/// Samples of the window that exist: up to the playhead, and no further than
/// the end of the track.
pub open spec fn window_available(mono_len: nat, end_frame: nat, fft_size: nat) -> nat {
    let start = window_start(end_frame, fft_size);
    let before_playhead = (end_frame - start) as nat;
    let in_track = if mono_len >= start {
        (mono_len - start) as nat
    } else {
        0
    };
    if before_playhead <= in_track {
        before_playhead
    } else {
        in_track
    }
}

/// The window of mono samples that ends at `end_frame` (exclusive), at most
/// `fft_size` long.
pub fn analysis_window(mono_len: usize, end_frame: usize, fft_size: usize) -> (window:
    AnalysisWindow)
    ensures
        window.start == window_start(end_frame as nat, fft_size as nat),
        window.available == window_available(mono_len as nat, end_frame as nat, fft_size as nat),
        window.bins == fft_size / 2,
        end_frame >= fft_size ==> window.start + fft_size == end_frame,
        end_frame < fft_size ==> window.start == 0,
        end_frame <= mono_len ==> window.start + window.available == end_frame,
        window.start <= mono_len < end_frame ==> window.start + window.available == mono_len,
        mono_len < window.start ==> window.available == 0,
{
    let start = end_frame.saturating_sub(fft_size);
    let before_playhead = end_frame - start;
    let in_track = mono_len.saturating_sub(start);
    let available = if before_playhead <= in_track {
        before_playhead
    } else {
        in_track
    };
    AnalysisWindow { start, available, bins: fft_size / 2 }
}

/// The playhead handed to the analyzer: the current frame, at least 1.
pub fn analysis_end(frame_index: usize) -> (end_frame: usize)
    ensures
        end_frame == if frame_index < 1 {
            1
        } else {
            frame_index
        },
{
    if frame_index < 1 {
        1
    } else {
        frame_index
    }
}

/// The window never reads past the track or past the playhead and is never
/// longer than a transform; when a whole transform's worth of samples lies
/// before the playhead inside the track, the window is exactly the
/// `fft_size` samples that end at the playhead.
pub proof fn lemma_window_in_bounds(mono_len: nat, end_frame: nat, fft_size: nat)
    ensures
        window_start(end_frame, fft_size) + window_available(mono_len, end_frame, fft_size)
            <= end_frame,
        window_available(mono_len, end_frame, fft_size) == 0 || window_start(end_frame, fft_size)
            + window_available(mono_len, end_frame, fft_size) <= mono_len,
        window_available(mono_len, end_frame, fft_size) <= fft_size,
        fft_size <= end_frame <= mono_len ==> window_start(end_frame, fft_size) + fft_size
            == end_frame && window_available(mono_len, end_frame, fft_size) == fft_size,
        end_frame >= fft_size ==> window_start(end_frame, fft_size) + fft_size == end_frame,
        end_frame < fft_size ==> window_start(end_frame, fft_size) == 0,
        end_frame <= mono_len ==> window_start(end_frame, fft_size) + window_available(
            mono_len,
            end_frame,
            fft_size,
        ) == end_frame,
        window_start(end_frame, fft_size) <= mono_len < end_frame ==> window_start(
            end_frame,
            fft_size,
        ) + window_available(mono_len, end_frame, fft_size) == mono_len,
        mono_len < window_start(end_frame, fft_size) ==> window_available(
            mono_len,
            end_frame,
            fft_size,
        ) == 0,
{
}

/// Where a band that starts at bin `start` and would end at `end` stops: one
/// bin past its start at least, and not past the `n` bins there are.
pub open spec fn band_stop(start: nat, end: nat, n: nat) -> nat {
    let wide = if end > start + 1 {
        end
    } else {
        start + 1
    };
    if wide < n {
        wide
    } else {
        n
    }
}

/// A band stops where it would end when that lies within the bins and past its
/// start; it is widened to one bin when it would be empty, and cut at the last
/// bin when it would run past it.
pub proof fn lemma_band_stop(start: nat, end: nat, n: nat)
    requires
        start <= n,
    ensures
        start + 1 <= end <= n ==> band_stop(start, end, n) == end,
        end <= start < n ==> band_stop(start, end, n) == start + 1,
        end >= n ==> band_stop(start, end, n) == n,
        start <= band_stop(start, end, n) <= n,
        start < n ==> start < band_stop(start, end, n),
{
}

/// The bins `[start, end)` that make up one band, out of `n` magnitude bins:
/// at least one bin, and none past the last.
pub fn band_bins(start: usize, end: usize, n: usize) -> (range: (usize, usize))
    requires
        start <= n,
        start < usize::MAX,
    ensures
        range.0 == start,
        range.1 == band_stop(start as nat, end as nat, n as nat),
        range.0 <= range.1 <= n,
        start < n ==> range.0 < range.1,
        start + 1 <= end <= n ==> range.1 == end,
        end <= start < n ==> range.1 == start + 1,
        end >= n ==> range.1 == n,
{
    let wide = if end > start + 1 {
        end
    } else {
        start + 1
    };
    let stop = if wide < n {
        wide
    } else {
        n
    };
    (start, stop)
}

} // verus!
