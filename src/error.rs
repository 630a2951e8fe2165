use vstd::prelude::*;

verus! {

/// Failures of a generation run. None is retried: each aborts the run.
#[derive(Debug, PartialEq, Eq)]
pub enum GptError {
    /// The tokenizer could not encode or decode; its message.
    Tokenizer(String),
    /// The end-of-sequence marker of the selected model is not in the vocabulary.
    EosTokenNotInVocabulary(String),
    /// A forward pass could not complete; its message.
    Backend(String),
    /// A file or stream could not be read or written; its message.
    Io(String),
}

} // verus!
