//! Resample stage parameterization: the conversion settings negotiated
//! once per playback session, from the decoder's native output format to
//! the format the output device accepts. The conversion engine itself is
//! an external collaborator; this module fixes, and validates, the exact
//! parameters it is constructed with.

use vstd::prelude::*;
use crate::format::{EngineSample, FormatError, SampleFormat, SampleLayout};

verus! {

/// The parameters a resampling context is created from: source and target
/// sample descriptors, the shared channel layout (as the engine's layout
/// bit mask), and the two rates. Playback keeps the decoder's channel
/// layout on both sides; only element kind and rate change.
#[derive(Clone, Copy, Debug, PartialEq, Eq, Structural)]
pub struct ResamplePlan {
    /// The decoder's native sample descriptor.
    pub src_format: EngineSample,
    /// Channel layout bit mask, identical on both sides.
    pub channel_layout: u64,
    /// The decoder's sample rate, in Hz.
    pub src_rate: u32,
    /// The descriptor the device's element kind maps to; always packed.
    pub dst_format: EngineSample,
    /// The device's sample rate, in Hz.
    pub dst_rate: u32,
}

impl ResamplePlan {
    /// Negotiates the conversion parameters for one playback session:
    /// keeps the decoder's side as it is, and maps the device's element
    /// kind through the format adapter. Fails exactly when the device
    /// asks for the one element kind the engine cannot produce — before
    /// any playback is attempted, with no partial result.
    pub fn new(
        src_format: EngineSample,
        channel_layout: u64,
        src_rate: u32,
        device_format: SampleFormat,
        dst_rate: u32,
    ) -> (r: Result<ResamplePlan, FormatError>)
        ensures
            match r {
                Ok(p) => {
                    &&& device_format != SampleFormat::U16
                    &&& p.src_format == src_format
                    &&& p.channel_layout == channel_layout
                    &&& p.src_rate == src_rate
                    &&& p.dst_rate == dst_rate
                    &&& device_format == SampleFormat::I16 ==> p.dst_format == EngineSample::I16(
                        SampleLayout::Packed,
                    )
                    &&& device_format == SampleFormat::F32 ==> p.dst_format == EngineSample::F32(
                        SampleLayout::Packed,
                    )
                    &&& p.dst_format.spec_is_packed()
                },
                Err(e) => {
                    &&& device_format == SampleFormat::U16
                    &&& e == FormatError::UnsupportedSampleFormat
                },
            },
    {
        let dst_format = match device_format.as_ffmpeg_sample() {
            Ok(f) => f,
            Err(e) => {
                return Err(e);
            },
        };
        Ok(ResamplePlan { src_format, channel_layout, src_rate, dst_format, dst_rate })
    }
}

} // verus!
