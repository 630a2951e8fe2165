use std::str::FromStr;

use meta_gpt::engine::{
    fit_context, fit_prompt, prompt_input, prompt_tokens, sampling_kind, Generation, SamplingKind,
};
use meta_gpt::error::GptError;
use meta_gpt::model::GeneratorModel;
use meta_gpt::stream::TokenOutputStream;
use tokenizers::Tokenizer;

fn word_tokenizer() -> Tokenizer {
    let json = r#"{
        "version": "1.0",
        "truncation": null,
        "padding": null,
        "added_tokens": [
            {"id": 4, "content": "<|im_end|>", "single_word": false, "lstrip": false,
             "rstrip": false, "normalized": false, "special": true}
        ],
        "normalizer": null,
        "pre_tokenizer": {"type": "Whitespace"},
        "post_processor": null,
        "decoder": null,
        "model": {
            "type": "WordLevel",
            "vocab": {"hello": 0, "world": 1, ",": 2, "!": 3, "<|im_end|>": 4, "Hello": 5,
                      "[UNK]": 6, "</think>": 7, "<": 8},
            "unk_token": "[UNK]"
        }
    }"#;
    Tokenizer::from_str(json).unwrap()
}

/// Answers every pass with the next of `samples` and returns the requests seen.
fn run(gen: &mut Generation, samples: &[u32]) -> Vec<(Vec<u32>, usize, Option<Vec<u32>>)> {
    let mut seen = Vec::new();
    let mut next = samples.iter();
    while let Some(req) = gen.next_request().unwrap() {
        seen.push((req.input.clone(), req.position, req.recent.clone()));
        gen.accept(*next.next().unwrap()).unwrap();
    }
    seen
}

#[test]
fn zero_budget_generates_exactly_one_token() {
    let mut gen = Generation::new(vec![5, 1], 1, 64, 4, false, word_tokenizer());
    let seen = run(&mut gen, &[0]);
    assert_eq!(seen, vec![(vec![5, 1], 0, None)]);
    assert_eq!(gen.generated(), 1);
    assert_eq!(gen.sampled(), 0);
    assert_eq!(gen.finish().unwrap(), (String::new(), "hello".to_string()));
}

#[test]
fn eos_as_first_token_ends_the_run() {
    let tokenizer = word_tokenizer();
    let prompt = prompt_tokens(GeneratorModel::Qwen4bQ80, &tokenizer, "Hello", false, true, 100).unwrap();
    assert_eq!(prompt, vec![5]);
    let eos = GeneratorModel::Qwen4bQ80
        .get_eos_token(&TokenOutputStream::new(tokenizer.clone()))
        .unwrap();
    assert_eq!(eos, 4);
    let mut gen = Generation::new(prompt, 100, 64, eos, false, tokenizer);
    let seen = run(&mut gen, &[eos, 0, 1]);
    assert_eq!(seen.len(), 1);
    assert_eq!(gen.tokens(), &vec![4]);
    assert_eq!(gen.finish().unwrap(), (String::new(), String::new()));
}

#[test]
fn eos_in_the_loop_ends_the_run() {
    let mut gen = Generation::new(vec![5], 10, 64, 3, false, word_tokenizer());
    let seen = run(&mut gen, &[0, 2, 1, 3, 0, 0]);
    assert_eq!(seen.len(), 4);
    assert_eq!(gen.tokens(), &vec![0, 2, 1, 3]);
    assert_eq!(gen.sampled(), 3);
    assert_eq!(gen.finish().unwrap(), (String::new(), "hello , world !".to_string()));
}

#[test]
fn budget_bounds_the_sampling_loop() {
    let mut gen = Generation::new(vec![5], 3, 64, 4, false, word_tokenizer());
    let seen = run(&mut gen, &[0, 1, 0, 1, 0]);
    assert_eq!(seen.len(), 3);
    assert_eq!(seen[1], (vec![0], 1, Some(vec![0])));
    assert_eq!(seen[2], (vec![1], 2, Some(vec![0, 1])));
    assert_eq!(gen.generated(), 3);
    assert_eq!(gen.finish().unwrap().1, "hello world hello");
}

#[test]
fn split_prompt_feeds_one_token_per_pass() {
    let mut gen = Generation::new(vec![5, 2, 1], 2, 64, 4, true, word_tokenizer());
    let seen = run(&mut gen, &[1, 3, 0, 1]);
    assert_eq!(
        seen,
        vec![
            (vec![5], 0, None),
            (vec![2], 1, None),
            (vec![1], 2, None),
            (vec![0], 3, Some(vec![0])),
        ]
    );
    assert_eq!(gen.tokens(), &vec![0, 1]);
}

#[test]
fn repeat_penalty_window_holds_the_latest_tokens() {
    let mut gen = Generation::new(vec![5], 6, 2, 4, false, word_tokenizer());
    let seen = run(&mut gen, &[0, 1, 2, 3, 0, 1]);
    assert_eq!(seen[1].2, Some(vec![0]));
    assert_eq!(seen[2].2, Some(vec![0, 1]));
    assert_eq!(seen[3].2, Some(vec![1, 2]));
    assert_eq!(seen[5].2, Some(vec![3, 0]));
    let mut gen = Generation::new(vec![5], 3, 0, 4, false, word_tokenizer());
    let seen = run(&mut gen, &[0, 1, 2]);
    assert_eq!(seen[1].2, Some(vec![]));
}

#[test]
fn run_is_deterministic() {
    let go = || {
        let mut gen = Generation::new(vec![5, 1], 8, 4, 4, false, word_tokenizer());
        run(&mut gen, &[0, 7, 1, 2, 0, 3, 1, 4]);
        gen.finish().unwrap()
    };
    let first = go();
    assert_eq!(first, go());
    assert_eq!(first, ("hello ".to_string(), " world , hello ! world".to_string()));
}

#[test]
fn thinking_is_split_from_answer() {
    let mut gen = Generation::new(vec![5], 4, 64, 4, false, word_tokenizer());
    run(&mut gen, &[0, 7, 1, 4]);
    assert_eq!(gen.text(), "hello </think> world");
    assert_eq!(gen.finish().unwrap(), ("hello ".to_string(), " world".to_string()));
}

#[test]
fn prompt_is_formatted_and_fitted() {
    let tokenizer = word_tokenizer();
    let ids = prompt_tokens(GeneratorModel::Qwen4bQ80, &tokenizer, "hello world", false, true, 10).unwrap();
    assert_eq!(ids, vec![0, 1]);
    let ids = prompt_tokens(GeneratorModel::Qwen4bQ80, &tokenizer, "hello", false, false, 10).unwrap();
    assert_eq!(ids, vec![6, 6, 6, 6, 0, 4, 6, 6, 6, 6]);
    let ids = prompt_tokens(GeneratorModel::DeepseekR1Llama8bQ4KM, &tokenizer, "hello world", false, true, 4090).unwrap();
    assert_eq!(ids, Vec::<u32>::new());
}

#[test]
fn unknown_word_without_unk_token_is_a_tokenizer_error() {
    let json = r#"{"version": "1.0", "truncation": null, "padding": null, "added_tokens": [],
        "normalizer": null, "pre_tokenizer": {"type": "Whitespace"}, "post_processor": null,
        "decoder": null, "model": {"type": "WordLevel", "vocab": {"hello": 0}, "unk_token": "[UNK]"}}"#;
    let tokenizer = Tokenizer::from_str(json).unwrap();
    let r = prompt_tokens(GeneratorModel::Qwen4bQ80, &tokenizer, "goodbye", false, true, 10);
    assert!(matches!(r, Err(GptError::Tokenizer(_))));
}

#[test]
fn missing_eos_marker_is_reported() {
    let tos = TokenOutputStream::new(word_tokenizer());
    let r = GeneratorModel::Gemma34bQ80.get_eos_token(&tos);
    assert_eq!(r, Err(GptError::EosTokenNotInVocabulary("<end_of_turn>".to_string())));
}

#[test]
fn fit_context_drops_oldest_prompt_tokens() {
    let tokens: Vec<u32> = (0..8).collect();
    assert_eq!(fit_context(tokens.clone(), 5, Some(20)), vec![3, 4, 5, 6, 7]);
    assert_eq!(fit_context(tokens.clone(), 2, Some(20)), tokens);
    assert_eq!(fit_context(tokens.clone(), 10, Some(20)), Vec::<u32>::new());
    assert_eq!(fit_context(tokens.clone(), 100000, None), tokens);
    let long: Vec<u32> = (0..4096).collect();
    let fitted = fit_context(long, 999, Some(4096));
    assert_eq!(fitted.len(), 4096 - 999 - 10);
    assert_eq!(fitted[0], 999 + 10);
}

#[test]
fn sampling_rule() {
    assert_eq!(sampling_kind(false, Some(3), true), SamplingKind::ArgMax);
    assert_eq!(sampling_kind(true, None, false), SamplingKind::All);
    assert_eq!(sampling_kind(true, Some(3), false), SamplingKind::TopK(3));
    assert_eq!(sampling_kind(true, None, true), SamplingKind::TopP);
    assert_eq!(sampling_kind(true, Some(3), true), SamplingKind::TopKThenTopP(3));
}

#[test]
fn prompt_input_is_raw_or_templated() {
    assert_eq!(prompt_input(GeneratorModel::Gemma34bQ80, "Hi", false, true), "Hi");
    assert_eq!(
        prompt_input(GeneratorModel::Gemma34bQ80, "Hi", false, false),
        "<start_of_turn>user\nHi<end_of_turn>\n<start_of_turn>model\n"
    );
}

#[test]
fn fit_prompt_uses_the_model_window() {
    let ids: Vec<u32> = (0..4096).collect();
    let fitted = fit_prompt(GeneratorModel::DeepseekR1Llama8bQ4KM, ids.clone(), 1000);
    assert_eq!(fitted.len(), 4096 - 999 - 10);
    assert_eq!(fitted[0], 999 + 10);
    assert_eq!(fit_prompt(GeneratorModel::Qwen8bQ80, ids.clone(), 1000), ids);
    let short: Vec<u32> = vec![1, 2, 3];
    assert_eq!(fit_prompt(GeneratorModel::DeepseekR1Llama8bQ4KM, short.clone(), 0), short);
}
