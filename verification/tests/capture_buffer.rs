use rolling_sampler::capture_buffer::{CaptureBuffer, Mode};
use rolling_sampler::error::BufferError;

fn amplitudes(values: &[f32]) -> Vec<u32> {
    values.iter().map(|v| v.to_bits()).collect()
}

#[test]
fn freeze_keeps_window_and_appends_later_input() {
    let mut buffer = CaptureBuffer::new(5).unwrap();
    buffer.add_samples(&amplitudes(&[1.0, 2.0, 3.0, 4.0, 5.0]));
    assert_eq!(buffer.begin_freeze(), Ok(()));
    buffer.add_samples(&amplitudes(&[6.0, 7.0]));
    assert_eq!(
        buffer.drain_for_persistence(),
        Ok(amplitudes(&[1.0, 2.0, 3.0, 4.0, 5.0, 6.0, 7.0]))
    );
}

#[test]
fn freeze_after_wrap_starts_with_oldest_kept() {
    let mut buffer = CaptureBuffer::new(3).unwrap();
    buffer.add_samples(&[1, 2, 3, 4, 5]);
    buffer.begin_freeze().unwrap();
    buffer.add_samples(&[6]);
    buffer.add_samples(&[]);
    buffer.add_samples(&[7, 8]);
    assert_eq!(buffer.samples_for_plot(), vec![3, 4, 5, 6, 7, 8]);
    assert_eq!(buffer.len(), 6);
    assert_eq!(buffer.drain_for_persistence(), Ok(vec![3, 4, 5, 6, 7, 8]));
}

#[test]
fn freeze_of_partly_filled_window_has_no_padding() {
    let mut buffer = CaptureBuffer::new(4).unwrap();
    buffer.add_samples(&[1, 2]);
    buffer.begin_freeze().unwrap();
    buffer.add_samples(&[3]);
    assert_eq!(buffer.drain_for_persistence(), Ok(vec![1, 2, 3]));
}

#[test]
fn second_freeze_is_reported_and_copies_nothing() {
    let mut buffer = CaptureBuffer::new(3).unwrap();
    buffer.add_samples(&[1, 2, 3]);
    assert_eq!(buffer.begin_freeze(), Ok(()));
    buffer.add_samples(&[4]);
    assert_eq!(buffer.begin_freeze(), Err(BufferError::AlreadyFrozen));
    assert_eq!(buffer.samples_for_plot(), vec![1, 2, 3, 4]);
    assert_eq!(buffer.mode(), Mode::Frozen);
}

#[test]
fn drain_of_rolling_buffer_is_reported() {
    let mut buffer = CaptureBuffer::new(3).unwrap();
    buffer.add_samples(&[1, 2]);
    assert_eq!(buffer.drain_for_persistence(), Err(BufferError::NotFrozen));
    assert_eq!(buffer.samples_for_plot(), vec![1, 2]);
    assert_eq!(buffer.mode(), Mode::Rolling);
    assert!(!buffer.is_frozen());
}

#[test]
fn drain_forgets_the_recording() {
    let mut buffer = CaptureBuffer::new(2).unwrap();
    buffer.add_samples(&[1, 2, 3]);
    buffer.begin_freeze().unwrap();
    assert_eq!(buffer.drain_for_persistence(), Ok(vec![2, 3]));
    assert!(buffer.is_frozen());
    assert_eq!(buffer.samples_for_plot(), Vec::<u32>::new());
    assert_eq!(buffer.drain_for_persistence(), Ok(vec![]));
    buffer.add_samples(&[9]);
    assert_eq!(buffer.drain_for_persistence(), Ok(vec![9]));
}

#[test]
fn rolling_plot_is_the_window() {
    let mut buffer = CaptureBuffer::new(3).unwrap();
    assert_eq!(buffer.samples_for_plot(), Vec::<u32>::new());
    buffer.add_samples(&[1, 2]);
    assert_eq!(buffer.samples_for_plot(), vec![1, 2]);
    buffer.add_samples(&[3, 4]);
    assert_eq!(buffer.samples_for_plot(), vec![2, 3, 4]);
    assert_eq!(buffer.len(), 3);
    assert_eq!(buffer.capacity(), 3);
}

#[test]
fn capture_buffer_needs_room() {
    assert!(matches!(CaptureBuffer::new(0), Err(BufferError::ZeroCapacity)));
}

#[test]
fn empty_capture_changes_nothing_in_either_mode() {
    let mut buffer = CaptureBuffer::new(3).unwrap();
    buffer.add_samples(&[1, 2, 3, 4]);
    buffer.add_samples(&[]);
    assert_eq!(buffer.samples_for_plot(), vec![2, 3, 4]);
    buffer.begin_freeze().unwrap();
    buffer.add_samples(&[]);
    assert_eq!(buffer.samples_for_plot(), vec![2, 3, 4]);
}
