use voice_input::models::{get_available_models, model_file_name, model_url, ModelSize, DEFAULT_MODEL};
use voice_input::setup::{available_model_names, default_model_file, installed_models};

#[test]
fn test_model_urls() {
    assert!(!get_available_models().is_empty());
    assert_eq!(DEFAULT_MODEL, "base");
}

#[test]
fn test_available_models() {
    let models = get_available_models();
    assert!(models.len() >= 3);
    assert!(models.iter().any(|(name, _)| *name == "tiny"));
    assert!(models.iter().any(|(name, _)| *name == "base"));
}

#[test]
fn model_urls_are_looked_up_by_name() {
    assert_eq!(
        model_url("small"),
        Some("https://huggingface.co/ggerganov/whisper.cpp/resolve/main/ggml-small.bin")
    );
    assert_eq!(model_url("large"), None);
    assert_eq!(model_url("Tiny"), None);
}

#[test]
fn model_files_are_named_after_models() {
    assert_eq!(model_file_name("tiny"), "ggml-tiny.bin");
    assert_eq!(default_model_file(), "ggml-base.bin");
    assert_eq!(ModelSize::Large.filename(), "ggml-large-v3.bin");
    assert_eq!(ModelSize::Base.filename(), "ggml-base.bin");
}

#[test]
fn model_sizes_parse_in_any_case() {
    assert_eq!(ModelSize::from_str("TINY"), Some(ModelSize::Tiny));
    assert_eq!(ModelSize::from_str("Medium"), Some(ModelSize::Medium));
    assert_eq!(ModelSize::from_str("huge"), None);
    assert_eq!(ModelSize::from_lowercase("large"), Some(ModelSize::Large));
    assert_eq!(ModelSize::from_lowercase("LARGE"), None);
}

#[test]
fn available_names_follow_the_catalog() {
    assert_eq!(available_model_names(), vec!["tiny".to_string(), "base".to_string(), "small".to_string()]);
}

#[test]
fn installed_models_are_listed_once() {
    let project = vec!["ggml-base".to_string()];
    let found = vec!["ggml-tiny".to_string(), "ggml-base".to_string(), "ggml-tiny".to_string()];
    assert_eq!(
        installed_models(project, &found),
        vec!["ggml-base".to_string(), "ggml-tiny".to_string()]
    );
    assert!(installed_models(Vec::new(), &Vec::new()).is_empty());
}
