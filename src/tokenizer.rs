use vstd::prelude::*;

use tokenizers::Tokenizer;

verus! {

#[verifier::external_type_specification]
#[verifier::external_body]
pub struct ExTokenizer(tokenizers::Tokenizer);

/// What `Tokenizer::decode` gives for these ids, special tokens skipped; `None` where it fails.
pub uninterp spec fn decoding(tokenizer: Tokenizer, ids: Seq<u32>) -> Option<Seq<char>>;

/// The id that the vocabulary, added tokens included, gives this token.
pub uninterp spec fn vocab_id(tokenizer: Tokenizer, token: Seq<char>) -> Option<u32>;

/// Relies on `tokenizers::Tokenizer::decode` with special tokens skipped: its text depends
/// on the tokenizer and the ids alone.
#[verifier::external_body]
pub(crate) fn decode_ids(tokenizer: &Tokenizer, ids: &[u32]) -> (r: Result<String, String>)
    ensures
        match r {
            Ok(s) => decoding(*tokenizer, ids@) == Some(s@),
            Err(_) => decoding(*tokenizer, ids@) is None,
        },
{
    match tokenizer.decode(ids, true) {
        Ok(s) => Ok(s),
        Err(e) => Err(e.to_string()),
    }
}

/// Relies on `tokenizers::Tokenizer::encode` with special tokens added, of which only the
/// ids are kept. Nothing is stated of them: a BPE model with dropout draws its merges at
/// random.
#[verifier::external_body]
pub(crate) fn encode_text(tokenizer: &Tokenizer, text: &str) -> (r: Result<Vec<u32>, String>) {
    match tokenizer.encode(text, true) {
        Ok(enc) => Ok(enc.get_ids().to_vec()),
        Err(e) => Err(e.to_string()),
    }
}

/// Relies on `tokenizers::Tokenizer::token_to_id`, which looks the token up among the added
/// tokens and then in the model's vocabulary.
#[verifier::external_body]
pub(crate) fn token_id(tokenizer: &Tokenizer, token: &str) -> (r: Option<u32>)
    ensures
        r == vocab_id(*tokenizer, token@),
{
    tokenizer.token_to_id(token)
}

} // verus!
