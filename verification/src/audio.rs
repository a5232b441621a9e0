use vstd::prelude::*;

verus! {

/// Stereo frames produced by the VDP for each 60 Hz video frame at 48 kHz.
pub const AUDIO_FRAMES_PER_VIDEO_FRAME: usize = 48_000 / 60;

/// The signed 16-bit sample for one unsigned 8-bit VDP sample: the sample is
/// centred on 127 and scaled by 256, in 16-bit two's complement (so that 255,
/// whose scaled value 32768 does not fit, wraps to -32768).
pub open spec fn spec_sample_to_i16(sample: u8) -> i16 {
    (((sample as int) - 127) * 256) as i16
}

/// Converts one unsigned 8-bit VDP sample to a signed 16-bit sample.
pub fn sample_to_i16(sample: u8) -> (r: i16)
    ensures
        r == spec_sample_to_i16(sample),
    no_unwind
{
    let centred: i16 = (sample as i16) - 127;
    let r: i16 = centred << 8u32;
    assert(r == (((sample as int) - 127) * 256) as i16) by (bit_vector)
        requires
            centred == (sample as i16) - 127,
            r == centred << 8u32,
    ;
    r
}

/// Law: the conversion is a linear scale around 127 for every sample but 255:
/// 127 is silence, each step of the 8-bit sample is 256 in the 16-bit one, and
/// 255, one step past the largest value the 16-bit range holds, wraps to its
/// most negative value.
pub proof fn law_sample_scale(sample: u8)
    ensures
        sample != 255 ==> spec_sample_to_i16(sample) as int == (sample as int - 127) * 256,
        sample == 255 ==> spec_sample_to_i16(sample) == i16::MIN,
        sample == 127 ==> spec_sample_to_i16(sample) == 0,
{
    let v: i16 = spec_sample_to_i16(sample);
    assert(sample != 255 ==> v as int == (sample as int - 127) * 256) by (bit_vector)
        requires
            v == (((sample as int) - 127) * 256) as i16,
    ;
    assert(sample == 255 ==> v == -32768i16) by (bit_vector)
        requires
            v == (((sample as int) - 127) * 256) as i16,
    ;
}

/// Law: below the wrapping sample 255 the conversion keeps order: a louder
/// 8-bit sample gives a larger 16-bit sample.
pub proof fn law_sample_monotone(a: u8, b: u8)
    requires
        a < b < 255,
    ensures
        spec_sample_to_i16(a) < spec_sample_to_i16(b),
{
    law_sample_scale(a);
    law_sample_scale(b);
}

/// Converts a block of mono 8-bit VDP samples into interleaved stereo 16-bit
/// samples: frame `i` is written to positions `2 * i` (left) and `2 * i + 1`
/// (right), both holding the converted sample. The rest of `out` is untouched.
pub fn convert_audio(samples: &Vec<u8>, out: &mut Vec<i16>)
    requires
        2 * samples@.len() <= old(out)@.len(),
    ensures
        final(out)@.len() == old(out)@.len(),
        forall|i: int|
            0 <= i < samples@.len() ==> {
                &&& #[trigger] final(out)@[2 * i] == spec_sample_to_i16(samples@[i])
                &&& final(out)@[2 * i + 1] == spec_sample_to_i16(samples@[i])
            },
        forall|j: int|
            2 * samples@.len() <= j < old(out)@.len() ==> #[trigger] final(out)@[j] == old(out)@[j],
    no_unwind
{
    let n = samples.len();
    let mut frame: usize = 0;
    while frame < n
        invariant
            n == samples@.len(),
            frame <= n,
            2 * n <= out@.len(),
            out.len() == old(out)@.len(),
            forall|i: int|
                0 <= i < frame ==> {
                    &&& #[trigger] out@[2 * i] == spec_sample_to_i16(samples@[i])
                    &&& out@[2 * i + 1] == spec_sample_to_i16(samples@[i])
                },
            forall|j: int| 2 * frame <= j < old(out)@.len() ==> #[trigger] out@[j] == old(out)@[j],
        decreases n - frame,
    {
        let sample = sample_to_i16(samples[frame]);
        out[2 * frame] = sample;
        out[2 * frame + 1] = sample;
        frame = frame + 1;
    }
}

} // verus!
