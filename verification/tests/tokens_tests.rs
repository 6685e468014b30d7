use moshi_asr::aggregator::Aggregator;
use moshi_asr::tokens::RawStepMessage;
use moshi_asr::tokens::push_raw;

fn word_level_tokenizer() -> tokenizers::Tokenizer {
    let json = r#"{
        "version": "1.0",
        "truncation": null,
        "padding": null,
        "added_tokens": [],
        "normalizer": null,
        "pre_tokenizer": null,
        "post_processor": null,
        "decoder": null,
        "model": {
            "type": "WordLevel",
            "vocab": {"hello": 0, "world": 1, "<unk>": 2},
            "unk_token": "<unk>"
        }
    }"#;
    tokenizers::Tokenizer::from_bytes(json.as_bytes()).expect("tokenizer")
}

#[test]
fn raw_word_is_decoded_and_aggregated() {
    let tok = word_level_tokenizer();
    let mut agg = Aggregator::new(true);
    let first = push_raw(&mut agg, &tok, RawStepMessage::Word { tokens: vec![0], start_time: 4 });
    assert!(first.is_none());
    let second = push_raw(&mut agg, &tok, RawStepMessage::EndWord { stop_time: 8 });
    let word = second.expect("closed word emitted");
    assert_eq!(word.text, "hello");
    assert_eq!(word.start_time, 4);
}

#[test]
fn raw_words_join_across_messages() {
    let tok = word_level_tokenizer();
    let mut agg = Aggregator::new(true);
    let mut out: Vec<String> = Vec::new();
    let msgs = vec![
        RawStepMessage::Step,
        RawStepMessage::Word { tokens: vec![0], start_time: 1 },
        RawStepMessage::Word { tokens: vec![1], start_time: 2 },
        RawStepMessage::EndWord { stop_time: 3 },
    ];
    for m in msgs {
        if let Some(w) = push_raw(&mut agg, &tok, m) {
            out.push(w.text);
        }
    }
    if let Some(w) = agg.finish() {
        out.push(w.text);
    }
    assert_eq!(out, vec!["hello".to_string(), "world".to_string()]);
}

#[test]
fn unknown_tokens_decode_to_nothing_and_are_dropped() {
    let tok = word_level_tokenizer();
    let mut agg = Aggregator::new(true);
    let first = push_raw(&mut agg, &tok, RawStepMessage::Word { tokens: vec![99], start_time: 1 });
    assert!(first.is_none());
    let second = push_raw(&mut agg, &tok, RawStepMessage::EndWord { stop_time: 2 });
    assert!(second.is_none(), "a word with no decodable text must not be emitted");
    assert!(agg.finish().is_none());
}
