use audio_pipeline::format::{EngineSample, FormatError, SampleElement, SampleFormat, SampleLayout};
use audio_pipeline::frame::{AudioFrame, FrameError};
use audio_pipeline::pipeline::{enqueue_frame, write_audio, EnqueueStatus};
use audio_pipeline::queue::SampleQueue;
use audio_pipeline::resample::ResamplePlan;

fn ramp(from: usize, len: usize) -> Vec<f32> {
    let mut v = Vec::new();
    for i in 0..len {
        v.push((from + i) as f32);
    }
    v
}

#[test]
fn format_adapter_maps_i16() {
    assert_eq!(
        SampleFormat::I16.as_ffmpeg_sample(),
        Ok(EngineSample::I16(SampleLayout::Packed))
    );
}

#[test]
fn format_adapter_maps_f32() {
    assert_eq!(
        SampleFormat::F32.as_ffmpeg_sample(),
        Ok(EngineSample::F32(SampleLayout::Packed))
    );
}

#[test]
fn format_adapter_rejects_u16() {
    assert_eq!(
        SampleFormat::U16.as_ffmpeg_sample(),
        Err(FormatError::UnsupportedSampleFormat)
    );
}

#[test]
fn resample_plan_keeps_decoder_side_and_maps_device_kind() {
    let plan = ResamplePlan::new(
        EngineSample::F32(SampleLayout::Planar),
        0x3,
        48000,
        SampleFormat::F32,
        44100,
    )
    .unwrap();
    assert_eq!(plan.src_format, EngineSample::F32(SampleLayout::Planar));
    assert_eq!(plan.channel_layout, 0x3);
    assert_eq!(plan.src_rate, 48000);
    assert_eq!(plan.dst_format, EngineSample::F32(SampleLayout::Packed));
    assert_eq!(plan.dst_rate, 44100);
}

#[test]
fn resample_plan_rejects_u16_before_playback() {
    let r = ResamplePlan::new(
        EngineSample::I16(SampleLayout::Packed),
        0x3,
        44100,
        SampleFormat::U16,
        44100,
    );
    assert_eq!(r, Err(FormatError::UnsupportedSampleFormat));
}

#[test]
fn frame_rejects_extent_beyond_buffer() {
    let data = ramp(0, 5);
    let r = AudioFrame::from_raw(data, EngineSample::F32(SampleLayout::Packed), 2, 3);
    assert!(r.is_none());
}

#[test]
fn packed_view_length_is_extent_not_capacity() {
    // Allocated buffer of 10 samples, of which only 2 x 2 are populated.
    let data = ramp(0, 10);
    let frame = AudioFrame::from_raw(data, EngineSample::F32(SampleLayout::Packed), 2, 2).unwrap();
    let view = frame.packed(SampleElement::F32).unwrap();
    assert_eq!(view.len(), 4);
    assert_eq!(view, &[0.0, 1.0, 2.0, 3.0]);
}

#[test]
fn packed_rejects_planar_frame() {
    let data = ramp(0, 4);
    let frame = AudioFrame::from_raw(data, EngineSample::F32(SampleLayout::Planar), 2, 2).unwrap();
    assert_eq!(frame.packed(SampleElement::F32), Err(FrameError::NotPacked));
}

#[test]
fn packed_rejects_wrong_element_kind() {
    let data = ramp(0, 4);
    let frame = AudioFrame::from_raw(data, EngineSample::F32(SampleLayout::Packed), 2, 2).unwrap();
    assert_eq!(
        frame.packed(SampleElement::I16),
        Err(FrameError::UnsupportedType)
    );
}

#[test]
fn queue_pops_in_push_order() {
    let mut q: SampleQueue<f32> = SampleQueue::new(8, 0.0);
    q.push_many(&[1.0, 2.0, 3.0]);
    q.push_many(&[4.0]);
    assert_eq!(q.pop_one(), Some(1.0));
    assert_eq!(q.pop_one(), Some(2.0));
    q.push_many(&[5.0, 6.0]);
    assert_eq!(q.pop_one(), Some(3.0));
    assert_eq!(q.pop_one(), Some(4.0));
    assert_eq!(q.pop_one(), Some(5.0));
    assert_eq!(q.pop_one(), Some(6.0));
    assert_eq!(q.pop_one(), None);
}

#[test]
fn queue_wraps_around_its_storage() {
    let mut q: SampleQueue<f32> = SampleQueue::new(4, 0.0);
    q.push_many(&[1.0, 2.0, 3.0]);
    assert_eq!(q.pop_one(), Some(1.0));
    assert_eq!(q.pop_one(), Some(2.0));
    // The next push crosses the end of the ring's storage.
    q.push_many(&[4.0, 5.0, 6.0]);
    assert_eq!(q.remaining_capacity(), 0);
    assert_eq!(q.pop_one(), Some(3.0));
    assert_eq!(q.pop_one(), Some(4.0));
    assert_eq!(q.pop_one(), Some(5.0));
    assert_eq!(q.pop_one(), Some(6.0));
    assert_eq!(q.pop_one(), None);
}

#[test]
fn remaining_capacity_decreases_by_push_length() {
    let mut q: SampleQueue<f32> = SampleQueue::new(10, 0.0);
    assert_eq!(q.remaining_capacity(), 10);
    q.push_many(&[1.0, 2.0, 3.0, 4.0]);
    assert_eq!(q.remaining_capacity(), 6);
    q.push_many(&[5.0]);
    assert_eq!(q.remaining_capacity(), 5);
    // A pop frees exactly one slot.
    assert_eq!(q.pop_one(), Some(1.0));
    assert_eq!(q.remaining_capacity(), 6);
}

#[test]
fn popping_empty_queue_signals_emptiness() {
    let mut q: SampleQueue<f32> = SampleQueue::new(4, 0.0);
    assert_eq!(q.pop_one(), None);
    assert_eq!(q.remaining_capacity(), 4);
}

#[test]
fn underrun_fills_buffer_with_silence() {
    let mut q: SampleQueue<f32> = SampleQueue::new(8, 7.0);
    let mut buffer: Vec<f32> = vec![9.0; 5];
    write_audio(&mut buffer, &mut q, 0.0);
    assert_eq!(buffer, vec![0.0, 0.0, 0.0, 0.0, 0.0]);
}

#[test]
fn underrun_after_partial_fill_pads_with_silence() {
    let mut q: SampleQueue<f32> = SampleQueue::new(8, 0.0);
    q.push_many(&[1.0, 2.0, 3.0]);
    let mut buffer: Vec<f32> = vec![9.0; 5];
    write_audio(&mut buffer, &mut q, 0.0);
    assert_eq!(buffer, vec![1.0, 2.0, 3.0, 0.0, 0.0]);
    assert_eq!(q.pop_one(), None);
}

#[test]
fn write_audio_pops_only_what_it_writes() {
    let mut q: SampleQueue<f32> = SampleQueue::new(8, 0.0);
    q.push_many(&[1.0, 2.0, 3.0, 4.0]);
    let mut buffer: Vec<f32> = vec![0.0; 2];
    write_audio(&mut buffer, &mut q, 0.0);
    assert_eq!(buffer, vec![1.0, 2.0]);
    assert_eq!(q.len(), 2);
    assert_eq!(q.pop_one(), Some(3.0));
    assert_eq!(q.pop_one(), Some(4.0));
}

#[test]
fn enqueue_refuses_planar_frame_and_leaves_queue_alone() {
    let mut q: SampleQueue<f32> = SampleQueue::new(8, 0.0);
    let frame =
        AudioFrame::from_raw(ramp(0, 4), EngineSample::F32(SampleLayout::Planar), 2, 2).unwrap();
    assert_eq!(
        enqueue_frame(&mut q, &frame, SampleElement::F32),
        Err(FrameError::NotPacked)
    );
    assert_eq!(q.len(), 0);
}

#[test]
fn enqueue_queues_only_the_populated_extent() {
    let mut q: SampleQueue<f32> = SampleQueue::new(8, 0.0);
    // 6 allocated slots, only 2 x 2 populated.
    let frame =
        AudioFrame::from_raw(ramp(1, 6), EngineSample::F32(SampleLayout::Packed), 2, 2).unwrap();
    assert_eq!(
        enqueue_frame(&mut q, &frame, SampleElement::F32),
        Ok(EnqueueStatus::Queued)
    );
    assert_eq!(q.len(), 4);
    assert_eq!(q.pop_one(), Some(1.0));
    assert_eq!(q.pop_one(), Some(2.0));
    assert_eq!(q.pop_one(), Some(3.0));
    assert_eq!(q.pop_one(), Some(4.0));
    assert_eq!(q.pop_one(), None);
}

#[test]
fn backpressure_scenario_preserves_order_across_three_frames() {
    // A queue of 8192 samples; frames of 3000, 2000 and 4000 samples.
    let mut q: SampleQueue<f32> = SampleQueue::new(8192, 0.0);
    let frame1 =
        AudioFrame::from_raw(ramp(0, 3000), EngineSample::F32(SampleLayout::Packed), 2, 1500)
            .unwrap();
    let frame2 =
        AudioFrame::from_raw(ramp(3000, 2000), EngineSample::F32(SampleLayout::Packed), 2, 1000)
            .unwrap();
    let frame3 =
        AudioFrame::from_raw(ramp(5000, 4000), EngineSample::F32(SampleLayout::Packed), 2, 2000)
            .unwrap();

    // The first two frames fit without waiting.
    assert_eq!(
        enqueue_frame(&mut q, &frame1, SampleElement::F32),
        Ok(EnqueueStatus::Queued)
    );
    assert_eq!(
        enqueue_frame(&mut q, &frame2, SampleElement::F32),
        Ok(EnqueueStatus::Queued)
    );
    assert_eq!(q.remaining_capacity(), 8192 - 5000);

    // The third does not: the producer must wait, and nothing is queued.
    assert_eq!(
        enqueue_frame(&mut q, &frame3, SampleElement::F32),
        Ok(EnqueueStatus::MustWait)
    );
    assert_eq!(q.len(), 5000);

    // Once the consumer has drained 1192 samples there is room, and the
    // push completes exactly once.
    for i in 0..1192 {
        assert_eq!(q.pop_one(), Some(i as f32));
    }
    assert!(q.has_room(4000));
    assert_eq!(
        enqueue_frame(&mut q, &frame3, SampleElement::F32),
        Ok(EnqueueStatus::Queued)
    );

    // Every remaining sample comes out in the order it was pushed,
    // across all three frames.
    for i in 1192..9000 {
        assert_eq!(q.pop_one(), Some(i as f32));
    }
    assert_eq!(q.pop_one(), None);
}

#[test]
fn capacity_is_fixed_at_construction() {
    let mut q: SampleQueue<f32> = SampleQueue::new(3, 0.0);
    assert_eq!(q.capacity(), 3);
    q.push_many(&[1.0, 2.0, 3.0]);
    assert_eq!(q.capacity(), 3);
    assert_eq!(q.remaining_capacity(), 0);
    q.pop_one();
    assert_eq!(q.capacity(), 3);
}

#[test]
fn pushing_nothing_changes_nothing() {
    let mut q: SampleQueue<f32> = SampleQueue::new(4, 0.0);
    q.push_many(&[]);
    assert_eq!(q.remaining_capacity(), 4);
    assert_eq!(q.pop_one(), None);
}

#[test]
fn zero_sample_frame_yields_empty_view() {
    let data = ramp(0, 4);
    let frame = AudioFrame::from_raw(data, EngineSample::F32(SampleLayout::Packed), 2, 0).unwrap();
    let view = frame.packed(SampleElement::F32).unwrap();
    assert_eq!(view.len(), 0);
}
