use voice_input::postprocess::{
    is_non_speech_marker, process_text, remove_non_speech_markers, remove_repetitions,
};

#[test]
fn test_process_text_basic() {
    assert_eq!(process_text("  hello   world  "), "Hello world");
}

#[test]
fn test_remove_repetitions() {
    let text = "это тест это тест и еще текст";
    let result = remove_repetitions(text);
    assert_eq!(result, "это тест и еще текст");
}

#[test]
fn test_remove_non_speech_markers() {
    let text = "[музыка] привет [music]";
    let result = remove_non_speech_markers(text);
    assert_eq!(result, "привет");
}

#[test]
fn markers_match_after_stripping_punctuation_and_case() {
    assert_eq!(remove_non_speech_markers("[MUSIC], hello. [Смех]!"), "hello.");
    assert_eq!(remove_non_speech_markers(""), "");
    assert_eq!(remove_non_speech_markers("   "), "");
}

#[test]
fn marker_check_takes_lowercased_words() {
    assert!(is_non_speech_marker("[music]"));
    assert!(is_non_speech_marker("[тишина]"));
    assert!(!is_non_speech_marker("[MUSIC]"));
    assert!(!is_non_speech_marker("music"));
}

#[test]
fn short_text_is_kept_verbatim() {
    assert_eq!(remove_repetitions("  a  a b "), "  a  a b ");
}

#[test]
fn longest_repeated_run_is_kept_once() {
    assert_eq!(remove_repetitions("a b c a b c d"), "a b c d");
    assert_eq!(remove_repetitions("one two one two one two"), "one two one two");
    assert_eq!(remove_repetitions("x y z w"), "x y z w");
}

#[test]
fn process_text_capitalises_and_cleans() {
    assert_eq!(process_text("привет мир [шум]"), "Привет мир");
    assert_eq!(process_text("Already upper"), "Already upper");
    assert_eq!(process_text("  "), "");
    assert_eq!(process_text("ß test"), "SS test");
}
