//! Checks on a decoded track and the frame arithmetic of its playhead.
use vstd::prelude::*;

verus! {

/// The error for a decoded track without samples.
pub open spec fn no_samples_error() -> Seq<char> {
    "file contains no audio samples"@
}

/// The error for a channel count of zero.
pub open spec fn channel_count_error() -> Seq<char> {
    "invalid channel count"@
}

/// The error for a sample rate of zero.
pub open spec fn sample_rate_error() -> Seq<char> {
    "invalid sample rate"@
}

/// Checks what the decoder produced: `sample_count` interleaved samples over
/// `channels` channels. On success, the number of whole frames, which is the
/// length of the mono mix (a trailing partial frame is dropped).
pub fn validate_stream(sample_count: usize, channels: usize) -> (frames: Result<usize, String>)
    ensures
        sample_count == 0 <==> (frames matches Err(e) && e@ == "file contains no audio samples"@),
        sample_count != 0 && channels == 0 <==> (frames matches Err(e) && e@
            == "invalid channel count"@),
        sample_count != 0 && channels != 0 <==> (frames matches Ok(n) && n == sample_count
            / channels),
{
    proof {
        reveal_strlit("file contains no audio samples");
        reveal_strlit("invalid channel count");
        assert(no_samples_error().len() != channel_count_error().len());
    }
    if sample_count == 0 {
        return Err(String::from_str("file contains no audio samples"));
    }
    if channels == 0 {
        return Err(String::from_str("invalid channel count"));
    }
    Ok(sample_count / channels)
}

/// Checks the format handed to the audio output: the channel count as a
/// 16-bit number and the sample rate must both be nonzero. On success, the
/// channel count as a 16-bit number and the sample rate.
pub fn playback_format(channels: usize, sample_rate: u32) -> (format: Result<(u16, u32), String>)
    ensures
        (#[verifier::truncate] (channels as u16)) == 0 <==> (format matches Err(e) && e@ == "invalid channel count"@),
        (#[verifier::truncate] (channels as u16)) != 0 && sample_rate == 0 <==> (format matches Err(e) && e@
            == "invalid sample rate"@),
        (#[verifier::truncate] (channels as u16)) != 0 && sample_rate != 0 <==> (format matches Ok(f) && f.0 == (
        #[verifier::truncate] (channels as u16)) && f.1 == sample_rate),
{
    proof {
        reveal_strlit("invalid channel count");
        reveal_strlit("invalid sample rate");
        assert(channel_count_error().len() != sample_rate_error().len());
    }
    let narrow = #[verifier::truncate] (#[verifier::truncate] (channels as u16));
    if narrow == 0 {
        return Err(String::from_str("invalid channel count"));
    }
    if sample_rate == 0 {
        return Err(String::from_str("invalid sample rate"));
    }
    Ok((narrow, sample_rate))
}

/// The playhead's frame, kept on the last frame of the mono mix.
pub open spec fn clamped_frame(frames: nat, mono_len: nat) -> nat {
    let last = if mono_len >= 1 {
        (mono_len - 1) as nat
    } else {
        0
    };
    if frames < last {
        frames
    } else {
        last
    }
}

/// Keeps a frame index computed from the playhead inside the mono mix.
pub fn clamp_frame_index(frames: usize, mono_len: usize) -> (index: usize)
    ensures
        index == clamped_frame(frames as nat, mono_len as nat),
        frames < mono_len ==> index == frames,
        mono_len > 0 && frames >= mono_len ==> index == mono_len - 1,
        mono_len == 0 ==> index == 0,
{
    let last = mono_len.saturating_sub(1);
    if frames < last {
        frames
    } else {
        last
    }
}

/// A clamped frame index always points into a nonempty mono mix, and a frame
/// already inside it is left where it is.
pub proof fn lemma_clamped_frame_in_track(frames: nat, mono_len: nat)
    ensures
        mono_len > 0 ==> clamped_frame(frames, mono_len) < mono_len,
        frames < mono_len ==> clamped_frame(frames, mono_len) == frames,
        clamped_frame(frames, mono_len) <= frames,
        mono_len > 0 && frames >= mono_len ==> clamped_frame(frames, mono_len) == mono_len - 1,
        mono_len == 0 ==> clamped_frame(frames, mono_len) == 0,
{
}

} // verus!
