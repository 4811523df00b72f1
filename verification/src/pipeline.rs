//! The two halves of the streaming core that meet at the bounded sample
//! queue: the decode side, which turns a resampled frame into queued
//! samples without ever pushing a partial frame, and the playback side,
//! which fills the device's buffer and substitutes silence on underrun.

use vstd::prelude::*;
use vstd::pervasive::VecAdditionalExecFns;
use crate::format::SampleElement;
use crate::frame::{AudioFrame, FrameError};
use crate::queue::SampleQueue;

verus! {

/// What became of a frame handed to the decode side.
#[derive(Clone, Copy, Debug, PartialEq, Eq, Structural)]
pub enum EnqueueStatus {
    /// Every sample of the frame's flat view was queued, in order.
    Queued,
    /// The queue lacks room for the whole frame; nothing was queued. The
    /// producer must wait for the consumer to drain and try again: pushing
    /// a partial frame would desynchronize channel interleaving.
    MustWait,
}

/// Queues the whole flat view of a resampled frame, or nothing at all.
///
/// The frame must be packed and of the expected element kind; a frame
/// that is not is refused as a fatal error, with the queue untouched.
/// A valid frame is queued only when its full extent fits in the free
/// capacity, so no unread sample is overwritten and no partial frame is
/// ever visible to the consumer.
pub fn enqueue_frame<T: Copy>(
    queue: &mut SampleQueue<T>,
    frame: &AudioFrame<T>,
    want: SampleElement,
) -> (r: Result<EnqueueStatus, FrameError>)
    requires
        old(queue).inv(),
    ensures
        final(queue).inv(),
        final(queue).spec_capacity() == old(queue).spec_capacity(),
        match r {
            Ok(EnqueueStatus::Queued) => {
                &&& frame.spec_format().spec_is_packed()
                &&& frame.spec_format().spec_element() == want
                &&& frame.spec_extent() <= old(queue).spec_remaining()
                &&& final(queue)@ == old(queue)@ + frame.spec_data().subrange(
                    0,
                    frame.spec_extent() as int,
                )
            },
            Ok(EnqueueStatus::MustWait) => {
                &&& frame.spec_format().spec_is_packed()
                &&& frame.spec_format().spec_element() == want
                &&& frame.spec_extent() > old(queue).spec_remaining()
                &&& final(queue)@ == old(queue)@
            },
            Err(FrameError::NotPacked) => {
                &&& !frame.spec_format().spec_is_packed()
                &&& final(queue)@ == old(queue)@
            },
            Err(FrameError::UnsupportedType) => {
                &&& frame.spec_format().spec_is_packed()
                &&& frame.spec_format().spec_element() != want
                &&& final(queue)@ == old(queue)@
            },
        },
{
    let view = match frame.packed(want) {
        Ok(v) => v,
        Err(e) => {
            return Err(e);
        },
    };
    if queue.has_room(view.len()) {
        queue.push_many(view);
        Ok(EnqueueStatus::Queued)
    } else {
        Ok(EnqueueStatus::MustWait)
    }
}

/// Fills the device's output buffer from the queue: one popped sample per
/// slot, oldest first, and the given silence value for every slot the
/// queue cannot cover. Pops exactly as many samples as it writes, never
/// more than the buffer holds, and never blocks.
pub fn write_audio<T: Copy>(data: &mut Vec<T>, samples: &mut SampleQueue<T>, silence: T)
    requires
        old(samples).inv(),
    ensures
        final(samples).inv(),
        final(samples).spec_capacity() == old(samples).spec_capacity(),
        final(data)@.len() == old(data)@.len(),
        forall|i: int|
            0 <= i < final(data)@.len() ==> final(data)@[i] == (if i < old(samples)@.len() {
                old(samples)@[i]
            } else {
                silence
            }),
        final(samples)@ == old(samples)@.skip(
            vstd::math::min(old(data)@.len() as int, old(samples)@.len() as int),
        ),
{
    let mut i: usize = 0;
    let n = data.len();
    while i < n
        invariant
            old(samples).inv(),
            samples.inv(),
            samples.spec_capacity() == old(samples).spec_capacity(),
            i <= n,
            data@.len() == n,
            n == old(data)@.len(),
            samples@ == old(samples)@.skip(
                vstd::math::min(i as int, old(samples)@.len() as int),
            ),
            forall|j: int|
                0 <= j < i ==> data@[j] == (if j < old(samples)@.len() {
                    old(samples)@[j]
                } else {
                    silence
                }),
        decreases n - i,
    {
        match samples.pop_one() {
            Some(sample) => {
                data.set(i, sample);
            },
            None => {
                data.set(i, silence);
            },
        }
        i = i + 1;
    }
}

} // verus!
