//! Frame layout reader: exposes a decoded or resampled audio frame's
//! buffer as a flat, read-only run of interleaved samples. The view is
//! handed out only after checking that the frame really is packed and that
//! its declared element kind is the one asked for, and its length is the
//! populated extent (sample count times channel count) — never the larger
//! allocated capacity, which may hold stale or uninitialized slots.

use vstd::prelude::*;
use vstd::slice::slice_subrange;
use crate::format::{EngineSample, SampleElement};

verus! {

/// Why a flat view of a frame was refused.
#[derive(Clone, Copy, Debug, PartialEq, Eq, Structural)]
pub enum FrameError {
    /// The frame stores its channels planar, not interleaved, so no single
    /// contiguous run of alternating channels exists.
    NotPacked,
    /// The frame's declared element kind is not the one the view was
    /// requested at.
    UnsupportedType,
}

/// An audio frame: a buffer of samples plus the metadata that tells how to
/// read it. The buffer may be larger than the populated extent.
pub struct AudioFrame<T> {
    data: Vec<T>,
    format: EngineSample,
    channels: u16,
    samples: usize,
}

impl<T> AudioFrame<T> {
    /// The populated extent never exceeds the allocated buffer.
    #[verifier::type_invariant]
    spec fn extent_fits(self) -> bool {
        self.samples * self.channels <= self.data@.len()
    }

    /// The whole allocated buffer, populated or not.
    pub closed spec fn spec_data(self) -> Seq<T> {
        self.data@
    }

    /// The declared sample descriptor: element kind and layout.
    pub closed spec fn spec_format(self) -> EngineSample {
        self.format
    }

    /// The declared channel count.
    pub closed spec fn spec_channels(self) -> u16 {
        self.channels
    }

    /// The populated sample count, per channel.
    pub closed spec fn spec_samples(self) -> nat {
        self.samples as nat
    }

    /// The populated extent: sample count times channel count, in elements.
    pub open spec fn spec_extent(self) -> nat {
        self.spec_samples() * (self.spec_channels() as nat)
    }
}

impl<T: Copy> AudioFrame<T> {
    /// Assembles a frame from a buffer and its metadata. Refused when the
    /// declared extent (`samples * channels`) does not fit in the buffer:
    /// a flat view of such a frame would read beyond what was populated.
    pub fn from_raw(data: Vec<T>, format: EngineSample, channels: u16, samples: usize) -> (r:
        Option<Self>)
        ensures
            match r {
                Some(f) => {
                    &&& samples * channels <= data@.len()
                    &&& f.spec_data() == data@
                    &&& f.spec_format() == format
                    &&& f.spec_channels() == channels
                    &&& f.spec_samples() == samples
                },
                None => samples * channels > data@.len(),
            },
    {
        let n = data.len();
        match samples.checked_mul(channels as usize) {
            Some(extent) => if extent <= n {
                Some(AudioFrame { data, format, channels, samples })
            } else {
                None
            },
            None => {
                proof {
                    assert(samples * channels > usize::MAX);
                    assert(data@.len() <= usize::MAX);
                }
                None
            },
        }
    }

    /// The declared sample descriptor.
    pub fn format(&self) -> (f: EngineSample)
        ensures
            f == self.spec_format(),
    {
        self.format
    }

    /// The declared channel count.
    pub fn channels(&self) -> (c: u16)
        ensures
            c == self.spec_channels(),
    {
        self.channels
    }

    /// The populated sample count, per channel.
    pub fn samples(&self) -> (s: usize)
        ensures
            s == self.spec_samples(),
    {
        self.samples
    }

    /// Whether the frame's channels are stored interleaved.
    pub fn is_packed(&self) -> (r: bool)
        ensures
            r == self.spec_format().spec_is_packed(),
    {
        self.format.is_packed()
    }

    /// The flat, read-only view of the frame's samples as alternating
    /// channels, exactly `samples * channels` elements long. Handed out
    /// only for a packed frame whose declared element kind is `want`;
    /// otherwise the frame is refused and nothing is read.
    pub fn packed(&self, want: SampleElement) -> (r: Result<&[T], FrameError>)
        ensures
            match r {
                Ok(v) => {
                    &&& self.spec_format().spec_is_packed()
                    &&& self.spec_format().spec_element() == want
                    &&& v@ == self.spec_data().subrange(0, self.spec_extent() as int)
                    &&& v@.len() == self.spec_extent()
                },
                Err(FrameError::NotPacked) => !self.spec_format().spec_is_packed(),
                Err(FrameError::UnsupportedType) => {
                    &&& self.spec_format().spec_is_packed()
                    &&& self.spec_format().spec_element() != want
                },
            },
    {
        proof {
            use_type_invariant(self);
        }
        if !self.format.is_packed() {
            return Err(FrameError::NotPacked);
        }
        if self.format.element() != want {
            return Err(FrameError::UnsupportedType);
        }
        let n = self.data.len();
        assert(self.samples * (self.channels as usize) <= n);
        let extent = self.samples * (self.channels as usize);
        Ok(slice_subrange(self.data.as_slice(), 0, extent))
    }
}

} // verus!
