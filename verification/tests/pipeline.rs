use whisper_wrapper::coletor::CaptureFormat;
use whisper_wrapper::pipeline::Pipeline;
use whisper_wrapper::sample_ring::SampleRing;

fn stereo_48k(min_batch_ms: u32) -> Pipeline {
    Pipeline::new(CaptureFormat::new(48000, 2).unwrap(), min_batch_ms)
}

#[test]
fn threshold_is_the_batch_length_in_samples() {
    assert_eq!(stereo_48k(300).batch_threshold(), 14400);
    assert_eq!(stereo_48k(2000).batch_threshold(), 96000);
    assert_eq!(stereo_48k(0).batch_threshold(), 0);
    let odd = Pipeline::new(CaptureFormat::new(44100, 1).unwrap(), 1);
    assert_eq!(odd.batch_threshold(), 44);
}

#[test]
fn threshold_saturates() {
    let huge = Pipeline::new(CaptureFormat::new(usize::MAX, 1).unwrap(), u32::MAX);
    assert_eq!(huge.batch_threshold(), usize::MAX);
}

#[test]
fn first_batch_waits_for_the_threshold() {
    let mut pipeline = stereo_48k(300);
    assert!(!pipeline.poll(0, 0));
    assert!(!pipeline.poll(100, 10));
    assert!(!pipeline.poll(14399, 100_000));
    assert!(pipeline.poll(14400, 100_001));
}

#[test]
fn later_batches_are_due_at_the_threshold() {
    let mut pipeline = stereo_48k(300);
    assert!(pipeline.poll(14400, 0));
    assert!(!pipeline.poll(0, 1));
    assert!(!pipeline.poll(14399, 2));
    assert!(pipeline.poll(20000, 3));
}

#[test]
fn stalled_residue_is_flushed_after_the_timeout() {
    let mut pipeline = stereo_48k(300);
    assert!(pipeline.poll(14400, 1000));
    assert!(!pipeline.poll(0, 1100));
    assert!(!pipeline.poll(0, 5000));
    assert!(!pipeline.poll(10, 5000));
    assert!(!pipeline.poll(10, 5299));
    assert!(!pipeline.poll(12, 5300));
    assert!(pipeline.poll(12, 5301));
    assert!(!pipeline.poll(0, 5302));
    assert!(!pipeline.poll(3, 6000));
    assert!(!pipeline.poll(3, 6300));
    assert!(pipeline.poll(3, 6301));
}

#[test]
fn empty_ring_is_never_flushed() {
    let mut pipeline = stereo_48k(300);
    assert!(pipeline.poll(14400, 0));
    assert!(!pipeline.poll(0, 10));
    assert!(!pipeline.poll(0, 1_000_000));
}

#[test]
fn clock_running_backwards_does_not_flush() {
    let mut pipeline = stereo_48k(300);
    assert!(pipeline.poll(14400, 0));
    assert!(!pipeline.poll(5, 1000));
    assert!(!pipeline.poll(5, 0));
    assert!(!pipeline.poll(5, 1300));
    assert!(pipeline.poll(5, 1301));
}

#[test]
fn zero_threshold_is_always_due() {
    let mut pipeline = stereo_48k(0);
    assert!(pipeline.poll(0, 0));
    assert!(pipeline.poll(0, 1));
}

#[test]
fn transform_downmixes_then_decimates() {
    let pipeline = stereo_48k(300);
    assert_eq!(pipeline.transform(&[100, -100, 200, -200, 300, -300]), vec![100]);
    let batch: Vec<i16> = (0..24).collect();
    assert_eq!(pipeline.transform(&batch), vec![0, 6, 12, 18]);
}

#[test]
fn transform_at_the_target_rate_only_downmixes() {
    let pipeline = Pipeline::new(CaptureFormat::new(16000, 1).unwrap(), 300);
    assert_eq!(pipeline.transform(&[1, 2, 3]), vec![1, 2, 3]);
    let surround = Pipeline::new(CaptureFormat::new(16000, 6).unwrap(), 300);
    let batch: Vec<i16> = (0..13).collect();
    assert_eq!(surround.transform(&batch), vec![0, 6, 12]);
}

#[test]
fn transform_at_44100_keeps_every_second_frame() {
    let pipeline = Pipeline::new(CaptureFormat::new(44100, 2).unwrap(), 300);
    let batch: Vec<i16> = (0..10).collect();
    assert_eq!(pipeline.transform(&batch), vec![0, 4, 8]);
}

#[test]
fn step_leaves_the_ring_alone_until_a_batch_is_due() {
    let format = CaptureFormat::new(48000, 2).unwrap();
    let mut pipeline = Pipeline::new(format, 1);
    assert_eq!(pipeline.batch_threshold(), 48);
    let mut ring = SampleRing::new(1000);
    let first: Vec<i16> = (0..47).collect();
    ring.push_all(&first);
    assert_eq!(pipeline.step(&mut ring, 0), None);
    assert_eq!(ring.occupancy(), 47);
    ring.push(47);
    let batch = pipeline.step(&mut ring, 1);
    assert_eq!(batch, Some(vec![0, 6, 12, 18, 24, 30, 36, 42]));
    assert_eq!(ring.occupancy(), 0);
    assert_eq!(pipeline.step(&mut ring, 2), None);
}

#[test]
fn step_flushes_a_stalled_residue() {
    let format = CaptureFormat::new(48000, 2).unwrap();
    let mut pipeline = Pipeline::new(format, 300);
    let mut ring = SampleRing::new(20000);
    let first: Vec<i16> = vec![7; 14400];
    ring.push_all(&first);
    let batch = pipeline.step(&mut ring, 0).unwrap();
    assert_eq!(batch.len(), 2400);
    ring.push_all(&[1, 2, 3, 4, 5, 6, 7, 8]);
    assert_eq!(pipeline.step(&mut ring, 10), None);
    assert_eq!(pipeline.step(&mut ring, 310), None);
    assert_eq!(ring.occupancy(), 8);
    assert_eq!(pipeline.step(&mut ring, 311), Some(vec![1, 7]));
    assert_eq!(ring.occupancy(), 0);
}
