use moshi_asr::aggregator::TranscriptWord;
use moshi_asr::text::is_space_char;
use moshi_asr::text::str_is_blank;
use moshi_asr::tokens::text_or_empty;
use moshi_asr::transcript::DecodeFailure;
use moshi_asr::transcript::failure_text;
use moshi_asr::transcript::join_words;

fn tw(text: &str) -> TranscriptWord {
    TranscriptWord { text: text.to_string(), start_time: 0 }
}

#[test]
fn join_words_with_single_spaces() {
    let words = vec![tw("hello"), tw("streaming"), tw("world")];
    let joined = join_words(&words);
    assert_eq!(joined, "hello streaming world");
}

#[test]
fn join_of_one_word_adds_no_space() {
    let words = vec![tw("alone")];
    assert_eq!(join_words(&words), "alone");
}

#[test]
fn join_of_nothing_is_empty() {
    let words: Vec<TranscriptWord> = Vec::new();
    assert_eq!(join_words(&words), "");
}

#[test]
fn failure_texts_match_the_legacy_envelope() {
    assert_eq!(failure_text(&DecodeFailure::ModelNotLoaded), "Model not loaded");
    assert_eq!(failure_text(&DecodeFailure::AudioFormat), "Audio format error");
    assert_eq!(failure_text(&DecodeFailure::Transcription), "Transcription failed");
}

#[test]
fn text_or_empty_applies_the_failure_policy() {
    assert_eq!(text_or_empty(Some("kept".to_string())), "kept");
    assert_eq!(text_or_empty(None), "");
}

#[test]
fn blank_detection() {
    assert!(str_is_blank(""));
    assert!(str_is_blank("   "));
    assert!(str_is_blank(" \t\r\n"));
    assert!(str_is_blank("\u{a0}\u{2003}"));
    assert!(!str_is_blank("a"));
    assert!(!str_is_blank("  a  "));
    assert!(!str_is_blank("_"));
}

#[test]
fn space_characters() {
    assert!(is_space_char(' '));
    assert!(is_space_char('\t'));
    assert!(is_space_char('\u{3000}'));
    assert!(!is_space_char('x'));
    assert!(!is_space_char('\u{200b}'));
}
