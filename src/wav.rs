use vstd::prelude::*;

verus! {

/// hound's sample encoding tag; a unit-only enum, read by its variants.
#[verifier::external_type_specification]
pub struct ExSampleFormat(hound::SampleFormat);

/// hound's container header description; all of its fields are public.
#[verifier::external_type_specification]
pub struct ExWavSpec(hound::WavSpec);

/// The bit depth of every recorded sample.
pub const BITS_PER_SAMPLE: u16 = 16;

/// The container header for a recording from a device whose default input
/// configuration has `channels` channels at `sample_rate` samples per second:
/// 16-bit signed integer PCM.
pub fn wav_spec(channels: u16, sample_rate: u32) -> (r: hound::WavSpec)
    ensures
        r.channels == channels,
        r.sample_rate == sample_rate,
        r.bits_per_sample == BITS_PER_SAMPLE,
        r.sample_format == hound::SampleFormat::Int,
{
    hound::WavSpec {
        channels,
        sample_rate,
        bits_per_sample: BITS_PER_SAMPLE,
        sample_format: hound::SampleFormat::Int,
    }
}

} // verus!
