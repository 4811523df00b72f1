//! Format adapter: translates the output device's sample element kind into
//! the decoding engine's sample descriptor. Pure and stateless; the one
//! unsupported kind is rejected deterministically, before any playback.

use vstd::prelude::*;

verus! {

/// A sample element kind as the output device declares it.
#[derive(Clone, Copy, Debug, PartialEq, Eq, Structural)]
pub enum SampleFormat {
    /// Signed 16-bit integer samples.
    I16,
    /// Unsigned 16-bit integer samples; the decoding engine's resampler has
    /// no equivalent for these.
    U16,
    /// 32-bit floating point samples.
    F32,
}

/// How a frame stores its channels: alternating per sample, or one
/// contiguous region per channel.
#[derive(Clone, Copy, Debug, PartialEq, Eq, Structural)]
pub enum SampleLayout {
    /// Channels alternate sample by sample (L,R,L,R,...).
    Packed,
    /// Each channel occupies its own contiguous region.
    Planar,
}

/// A sample descriptor in the decoding engine's vocabulary: element kind
/// plus channel interleaving.
#[derive(Clone, Copy, Debug, PartialEq, Eq, Structural)]
pub enum EngineSample {
    /// Signed 16-bit integer samples in the given layout.
    I16(SampleLayout),
    /// 32-bit floating point samples in the given layout.
    F32(SampleLayout),
}

/// A bare sample element kind on the engine's side, with the layout
/// stripped off.
#[derive(Clone, Copy, Debug, PartialEq, Eq, Structural)]
pub enum SampleElement {
    /// Signed 16-bit integer.
    I16,
    /// 32-bit floating point.
    F32,
}

impl EngineSample {
    /// The element kind this descriptor declares, ignoring the layout.
    pub open spec fn spec_element(self) -> SampleElement {
        match self {
            EngineSample::I16(_) => SampleElement::I16,
            EngineSample::F32(_) => SampleElement::F32,
        }
    }

    /// Whether this descriptor declares packed (interleaved) channels.
    pub open spec fn spec_is_packed(self) -> bool {
        match self {
            EngineSample::I16(layout) => layout == SampleLayout::Packed,
            EngineSample::F32(layout) => layout == SampleLayout::Packed,
        }
    }

    /// The element kind, with the layout stripped off.
    pub fn element(&self) -> (e: SampleElement)
        ensures
            e == self.spec_element(),
    {
        match self {
            EngineSample::I16(_) => SampleElement::I16,
            EngineSample::F32(_) => SampleElement::F32,
        }
    }

    /// Whether the descriptor's channels alternate sample by sample.
    pub fn is_packed(&self) -> (r: bool)
        ensures
            r == self.spec_is_packed(),
    {
        match self {
            EngineSample::I16(layout) => *layout == SampleLayout::Packed,
            EngineSample::F32(layout) => *layout == SampleLayout::Packed,
        }
    }
}

/// A fatal configuration error: the device's sample element kind has no
/// equivalent on the decoding engine's side.
#[derive(Clone, Copy, Debug, PartialEq, Eq, Structural)]
pub enum FormatError {
    /// The device asked for unsigned 16-bit samples, which the engine's
    /// resampler cannot produce.
    UnsupportedSampleFormat,
}

impl SampleFormat {
    /// Maps this device-side element kind to the engine's descriptor.
    /// Playback always interleaves, so the layout is always packed.
    /// Succeeds exactly on the two kinds the engine supports as resampling
    /// targets; unsigned 16-bit is rejected.
    pub fn as_ffmpeg_sample(&self) -> (r: Result<EngineSample, FormatError>)
        ensures
            *self == SampleFormat::I16 ==> r == Ok::<EngineSample, FormatError>(
                EngineSample::I16(SampleLayout::Packed),
            ),
            *self == SampleFormat::F32 ==> r == Ok::<EngineSample, FormatError>(
                EngineSample::F32(SampleLayout::Packed),
            ),
            *self == SampleFormat::U16 ==> r == Err::<EngineSample, FormatError>(
                FormatError::UnsupportedSampleFormat,
            ),
            r is Ok <==> *self != SampleFormat::U16,
    {
        match self {
            SampleFormat::I16 => Ok(EngineSample::I16(SampleLayout::Packed)),
            SampleFormat::U16 => Err(FormatError::UnsupportedSampleFormat),
            SampleFormat::F32 => Ok(EngineSample::F32(SampleLayout::Packed)),
        }
    }
}

} // verus!
