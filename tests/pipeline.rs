use voice_input::buffer::{manage_buffer, pad_audio_min_len};
use voice_input::cache::{cache_dir_name, snapshot_spec, AudioCache};
use voice_input::error::{AppError, AudioError};
use voice_input::models::{init, initialize_model, ModelSize, ModelStore};
use voice_input::worker::{SnapshotStage, WorkerAction, WorkerEvent, WorkerPhase};

const MAX_SAMPLES: usize = 44100 * 10;

#[test]
fn test_manage_buffer() {
    let mut buffer = vec![0.0f32; MAX_SAMPLES - 100];
    manage_buffer(&mut buffer, 44100, 10);
    assert!(buffer.len() <= MAX_SAMPLES);

    buffer.extend(vec![0.1; 200]);
    manage_buffer(&mut buffer, 44100, 10);
    assert_eq!(buffer.len(), MAX_SAMPLES);
}

#[test]
fn trimming_keeps_the_newest_samples() {
    let mut buffer = vec![1, 2, 3, 4, 5];
    manage_buffer(&mut buffer, 3, 1);
    assert_eq!(buffer, vec![3, 4, 5]);
    manage_buffer(&mut buffer, usize::MAX, 2);
    assert_eq!(buffer, vec![3, 4, 5]);
    manage_buffer(&mut buffer, 0, 10);
    assert!(buffer.is_empty());
}

#[test]
fn short_audio_is_padded_with_silence() {
    assert_eq!(pad_audio_min_len(vec![0.5f32, 0.25], 4, 0.0), vec![0.5, 0.25, 0.0, 0.0]);
    assert_eq!(pad_audio_min_len(vec![0.5f32; 5], 4, 0.0), vec![0.5; 5]);
    assert!(pad_audio_min_len(Vec::<f32>::new(), 4, 0.0).is_empty());
}

fn run_job(pre_ok: bool, post_ok: bool) -> (WorkerPhase, Vec<WorkerAction>) {
    let mut actions = Vec::new();
    let phase = WorkerPhase::new();
    let (phase, a) = phase.step(WorkerEvent::JobReady { pre_path: "p.wav".to_string(), post_path: "q.wav".to_string() });
    actions.push(a);
    let (phase, a) = phase.step(WorkerEvent::SnapshotWritten { ok: pre_ok });
    actions.push(a);
    let (phase, a) = phase.step(WorkerEvent::Conditioned);
    actions.push(a);
    let (phase, a) = phase.step(WorkerEvent::SnapshotWritten { ok: post_ok });
    actions.push(a);
    (phase, actions)
}

#[test]
fn worker_runs_a_job_in_order() {
    let (phase, actions) = run_job(true, true);
    assert!(matches!(phase, WorkerPhase::Idle));
    assert!(matches!(&actions[0], WorkerAction::WriteSnapshot { path, stage: SnapshotStage::Pre } if path == "p.wav"));
    assert!(matches!(&actions[1], WorkerAction::RunConditioner));
    assert!(matches!(&actions[2], WorkerAction::WriteSnapshot { path, stage: SnapshotStage::Post } if path == "q.wav"));
    match &actions[3] {
        WorkerAction::Emit { completion } => {
            assert_eq!(completion.pre_path.as_deref(), Some("p.wav"));
            assert_eq!(completion.post_path.as_deref(), Some("q.wav"));
        }
        other => panic!("unexpected action {:?}", other),
    }
}

#[test]
fn failed_snapshot_is_left_out_of_the_completion() {
    let (_, actions) = run_job(false, true);
    match &actions[3] {
        WorkerAction::Emit { completion } => {
            assert_eq!(completion.pre_path, None);
            assert_eq!(completion.post_path.as_deref(), Some("q.wav"));
        }
        other => panic!("unexpected action {:?}", other),
    }
    let (_, actions) = run_job(true, false);
    match &actions[3] {
        WorkerAction::Emit { completion } => {
            assert_eq!(completion.pre_path.as_deref(), Some("p.wav"));
            assert_eq!(completion.post_path, None);
        }
        other => panic!("unexpected action {:?}", other),
    }
}

#[test]
fn closed_queue_ends_only_an_idle_worker() {
    let (phase, action) = WorkerPhase::new().step(WorkerEvent::QueueClosed);
    assert!(matches!(phase, WorkerPhase::Finished));
    assert!(matches!(action, WorkerAction::Exit));
    let (phase, _) = WorkerPhase::new().step(WorkerEvent::JobReady { pre_path: "a".to_string(), post_path: "b".to_string() });
    let (phase, action) = phase.step(WorkerEvent::QueueClosed);
    assert!(matches!(phase, WorkerPhase::WritingPre { .. }));
    assert!(matches!(action, WorkerAction::WriteSnapshot { stage: SnapshotStage::Pre, .. }));
    assert!(matches!(phase.pending(), WorkerAction::WriteSnapshot { stage: SnapshotStage::Pre, .. }));
}

#[test]
fn cache_paths_are_numbered_and_distinct() {
    assert_eq!(cache_dir_name(4242), "voice-input-app-4242");
    assert_eq!(cache_dir_name(0), "voice-input-app-0");
    let mut cache = AudioCache::new("/tmp/cache".to_string());
    assert_eq!(cache.dir(), "/tmp/cache");
    assert_eq!(cache.wav_path_at("pre", 1700000000123), "/tmp/cache/pre_1700000000123_0.wav");
    let first = cache.generate_wav_path("pre");
    let second = cache.generate_wav_path("pre");
    assert_ne!(first, second);
    assert!(first.starts_with("/tmp/cache/pre_"));
    assert!(first.ends_with("_0.wav"));
    assert!(second.ends_with("_1.wav"));
    assert_eq!(cache.wav_path_at("post", 5), "/tmp/cache/post_5_2.wav");
}

#[test]
fn models_are_loaded_once() {
    let mut store: ModelStore<String> = ModelStore::new();
    assert!(!store.is_loaded());
    assert_eq!(initialize_model(&mut store, ModelSize::Tiny, |m: ModelSize| Ok(m.filename().to_string())), Ok(()));
    assert_eq!(store.context(), Some(&"ggml-tiny.bin".to_string()));
    assert_eq!(init(&mut store, ModelSize::Large, |_m: ModelSize| -> Result<String, String> { panic!("loaded twice") }), Ok(()));
    assert_eq!(store.context(), Some(&"ggml-tiny.bin".to_string()));
}

#[test]
fn failed_load_leaves_the_store_empty() {
    let mut store: ModelStore<String> = ModelStore::new();
    assert_eq!(init(&mut store, ModelSize::Base, |_m: ModelSize| Err("missing".to_string())), Err("missing".to_string()));
    assert!(!store.is_loaded());
    assert_eq!(store.context(), None);
}

#[test]
fn errors_describe_themselves() {
    assert_eq!(AudioError::AlreadyRecording.message(), "Already recording");
    assert_eq!(AudioError::QueueFull.message(), "Processing queue is full");
    assert_eq!(AppError::IoError("disk".to_string()).message(), "IO error: disk");
    assert_eq!(AppError::InvalidModel("x".to_string()).message(), "Invalid model: x");
}

#[test]
fn snapshots_are_16_bit_pcm_in_the_session_shape() {
    let spec = snapshot_spec(44100, 2);
    assert_eq!(spec.sample_rate, 44100);
    assert_eq!(spec.channels, 2);
    assert_eq!(spec.bits_per_sample, 16);
    assert_eq!(spec.sample_format, hound::SampleFormat::Int);
}
