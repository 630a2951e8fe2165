use std::str::FromStr;

use meta_gpt::stream::TokenOutputStream;
use tokenizers::Tokenizer;

fn word_tokenizer() -> Tokenizer {
    let json = r#"{
        "version": "1.0",
        "truncation": null,
        "padding": null,
        "added_tokens": [
            {"id": 4, "content": "<|im_end|>", "single_word": false, "lstrip": false,
             "rstrip": false, "normalized": false, "special": true}
        ],
        "normalizer": null,
        "pre_tokenizer": {"type": "Whitespace"},
        "post_processor": null,
        "decoder": null,
        "model": {
            "type": "WordLevel",
            "vocab": {"hello": 0, "world": 1, ",": 2, "!": 3, "<|im_end|>": 4, "Hello": 5, "[UNK]": 6},
            "unk_token": "[UNK]"
        }
    }"#;
    Tokenizer::from_str(json).unwrap()
}

#[test]
fn stream_emits_when_text_ends_in_a_letter() {
    let mut tos = TokenOutputStream::new(word_tokenizer());
    assert_eq!(tos.next_token(0).unwrap(), Some("hello".to_string()));
}

#[test]
fn stream_holds_back_punctuation_until_a_word_follows() {
    let mut tos = TokenOutputStream::new(word_tokenizer());
    assert_eq!(tos.next_token(0).unwrap(), Some("hello".to_string()));
    assert_eq!(tos.next_token(2).unwrap(), None);
    assert_eq!(tos.next_token(1).unwrap(), Some(" , world".to_string()));
    assert_eq!(tos.next_token(3).unwrap(), None);
    assert_eq!(tos.decode_rest().unwrap(), Some(" !".to_string()));
}

#[test]
fn stream_fragments_and_flush_spell_the_whole_decode() {
    let ids = [0u32, 2, 1, 3, 1, 0];
    let mut tos = TokenOutputStream::new(word_tokenizer());
    let mut text = String::new();
    for id in ids {
        if let Some(f) = tos.next_token(id).unwrap() {
            text.push_str(&f);
        }
    }
    if let Some(rest) = tos.decode_rest().unwrap() {
        text.push_str(&rest);
    }
    let whole = word_tokenizer().decode(&ids, true).unwrap();
    assert_eq!(text, whole);
    assert_eq!(tos.decode_all().unwrap(), whole);
}

#[test]
fn stream_fragments_do_not_change_when_tokens_follow() {
    let ids = [0u32, 2, 1, 3];
    let mut first = Vec::new();
    let mut tos = TokenOutputStream::new(word_tokenizer());
    for id in &ids[..3] {
        if let Some(f) = tos.next_token(*id).unwrap() {
            first.push(f);
        }
    }
    let mut longer = Vec::new();
    let mut tos = TokenOutputStream::new(word_tokenizer());
    for id in ids.iter().chain([1u32, 0].iter()) {
        if let Some(f) = tos.next_token(*id).unwrap() {
            longer.push(f);
        }
    }
    assert!(longer.len() >= first.len());
    assert_eq!(&longer[..first.len()], &first[..]);
}

#[test]
fn stream_flush_of_empty_stream_is_nothing() {
    let tos = TokenOutputStream::new(word_tokenizer());
    assert_eq!(tos.decode_rest().unwrap(), None);
    assert_eq!(tos.decode_all().unwrap(), "");
}

#[test]
fn stream_special_token_decodes_to_nothing() {
    let mut tos = TokenOutputStream::new(word_tokenizer());
    assert_eq!(tos.next_token(4).unwrap(), None);
    assert_eq!(tos.decode_rest().unwrap(), None);
}

#[test]
fn stream_get_token_and_clear() {
    let mut tos = TokenOutputStream::new(word_tokenizer());
    assert_eq!(tos.get_token("world"), Some(1));
    assert_eq!(tos.get_token("<|im_end|>"), Some(4));
    assert_eq!(tos.get_token("absent"), None);
    tos.next_token(0).unwrap();
    tos.clear();
    assert_eq!(tos.decode_all().unwrap(), "");
    assert_eq!(tos.next_token(1).unwrap(), Some("world".to_string()));
    let tokenizer = tos.into_inner();
    assert_eq!(tokenizer.token_to_id("hello"), Some(0));
}
