use voice_input::capture::{find_device, validate_samples, BatchOutcome, CaptureState, CaptureFormat};
use voice_input::error::AudioError;
use voice_input::queue::{enqueue_result, processing_channel, queue_for_processing, stop_recording_inner, SendOutcome};

fn recording_state(rate: u32, channels: u16) -> CaptureState<f32> {
    let mut state = CaptureState::new();
    assert_eq!(state.begin_session(rate, channels, Some(CaptureFormat::I16), 7), Ok(CaptureFormat::I16));
    state
}

#[test]
fn fresh_state_is_idle_with_default_shape() {
    let state: CaptureState<f32> = CaptureState::new();
    assert!(!state.is_recording());
    assert_eq!(state.buffer_len(), 0);
    assert_eq!(state.sample_rate(), 48000);
    assert_eq!(state.channels(), 1);
    assert_eq!(state.started_at(), None);
    assert_eq!(state.capacity(), 48000 * 30);
}

#[test]
fn start_while_recording_is_refused_and_keeps_the_buffer() {
    let mut state = recording_state(16000, 2);
    assert_eq!(state.append_batch(vec![0.25; 10]), BatchOutcome::Appended);
    assert_eq!(state.begin_session(44100, 1, Some(CaptureFormat::F32), 99), Err(AudioError::AlreadyRecording));
    assert!(state.is_recording());
    assert_eq!(state.samples(), &[0.25f32; 10][..]);
    assert_eq!(state.sample_rate(), 16000);
    assert_eq!(state.channels(), 2);
    assert_eq!(state.started_at(), Some(7));
}

#[test]
fn unsupported_format_is_refused_before_recording() {
    let mut state: CaptureState<f32> = CaptureState::new();
    assert_eq!(state.begin_session(8000, 1, None, 1), Err(AudioError::UnsupportedFormat));
    assert!(!state.is_recording());
    assert_eq!(state.sample_rate(), 48000);
}

#[test]
fn start_clears_the_previous_buffer() {
    let mut state = recording_state(10, 1);
    state.append_batch(vec![0.5; 4]);
    state.abandon_session();
    assert!(!state.is_recording());
    assert_eq!(state.begin_session(10, 1, Some(CaptureFormat::U16), 8), Ok(CaptureFormat::U16));
    assert_eq!(state.buffer_len(), 0);
    assert!(!state.auto_stopped());
}

#[test]
fn overflowing_batch_stops_the_session_once() {
    let mut state = recording_state(10, 1);
    assert_eq!(state.capacity(), 300);
    assert_eq!(state.append_batch(vec![0.1; 290]), BatchOutcome::Appended);
    assert_eq!(state.append_batch(vec![0.2; 20]), BatchOutcome::AutoStopped);
    assert_eq!(state.buffer_len(), 300);
    assert!(!state.is_recording());
    assert!(state.auto_stopped());
    assert_eq!(state.started_at(), None);
    assert_eq!(state.samples()[289], 0.1);
    assert_eq!(state.samples()[299], 0.2);
    assert_eq!(state.append_batch(vec![0.3; 5]), BatchOutcome::Ignored);
    assert_eq!(state.buffer_len(), 300);
}

#[test]
fn batch_that_fills_exactly_is_appended() {
    let mut state = recording_state(1, 2);
    assert_eq!(state.append_batch(vec![0.0; 60]), BatchOutcome::Appended);
    assert!(state.is_recording());
    assert_eq!(state.append_batch(vec![0.0; 1]), BatchOutcome::AutoStopped);
    assert_eq!(state.buffer_len(), 60);
}

#[test]
fn batches_are_ignored_when_idle() {
    let mut state: CaptureState<f32> = CaptureState::new();
    assert_eq!(state.append_batch(vec![0.5; 3]), BatchOutcome::Ignored);
    assert_eq!(state.buffer_len(), 0);
}

#[test]
fn extraction_hands_over_the_buffer() {
    let mut state = recording_state(100, 1);
    state.append_batch(vec![0.5, -0.5]);
    assert_eq!(state.extract_audio_samples(), Ok(vec![0.5, -0.5]));
    assert!(!state.is_recording());
    assert_eq!(state.buffer_len(), 0);
    assert_eq!(state.started_at(), None);
    assert_eq!(state.extract_audio_samples(), Err(AudioError::NotRecording));
}

#[test]
fn stop_on_empty_buffer_fails_but_stops() {
    let (sender, _receiver) = processing_channel::<Vec<f32>>();
    let mut state = recording_state(100, 1);
    assert_eq!(stop_recording_inner(&mut state, &sender), Err(AudioError::EmptyRecording));
    assert!(!state.is_recording());
    assert_eq!(state.started_at(), None);
}

#[test]
fn stop_without_session_is_refused() {
    let (sender, _receiver) = processing_channel::<Vec<f32>>();
    let mut state: CaptureState<f32> = CaptureState::new();
    assert_eq!(stop_recording_inner(&mut state, &sender), Err(AudioError::NotRecording));
}

#[test]
fn stop_queues_the_recording() {
    let (sender, mut receiver) = processing_channel::<Vec<f32>>();
    let mut state = recording_state(100, 1);
    state.append_batch(vec![0.125; 3]);
    assert_eq!(stop_recording_inner(&mut state, &sender), Ok(()));
    assert_eq!(receiver.try_recv().ok(), Some(vec![0.125; 3]));
    assert_eq!(state.buffer_len(), 0);
}

#[test]
fn fifth_pending_job_is_refused() {
    let (sender, mut receiver) = processing_channel::<Vec<f32>>();
    for i in 0..4 {
        assert_eq!(queue_for_processing(&sender, vec![i as f32]), Ok(()));
    }
    assert_eq!(queue_for_processing(&sender, vec![9.0]), Err(AudioError::QueueFull));
    assert_eq!(receiver.try_recv().ok(), Some(vec![0.0]));
    assert_eq!(queue_for_processing(&sender, vec![5.0]), Ok(()));
}

#[test]
fn queue_without_worker_refuses_jobs() {
    let (sender, receiver) = processing_channel::<Vec<f32>>();
    drop(receiver);
    assert_eq!(queue_for_processing(&sender, vec![1.0]), Err(AudioError::QueueFull));
}

#[test]
fn send_outcomes_map_to_answers() {
    assert_eq!(enqueue_result(SendOutcome::Queued), Ok(()));
    assert_eq!(enqueue_result(SendOutcome::Full), Err(AudioError::QueueFull));
    assert_eq!(enqueue_result(SendOutcome::Closed), Err(AudioError::QueueFull));
}

#[test]
fn empty_recordings_fail_validation() {
    let empty: [f32; 0] = [];
    assert_eq!(validate_samples(&empty), Err(AudioError::EmptyRecording));
    assert_eq!(validate_samples(&[0.0f32]), Ok(()));
}

#[test]
fn devices_are_found_by_exact_name() {
    let names = vec!["Built-in".to_string(), "USB Mic".to_string(), "USB Mic".to_string()];
    assert_eq!(find_device(&names, "USB Mic"), Ok(1));
    assert_eq!(find_device(&names, "usb mic"), Err(AudioError::DeviceNotFound));
    assert_eq!(find_device(&Vec::new(), ""), Err(AudioError::DeviceNotFound));
}
