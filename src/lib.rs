//! Local text generation with quantized language models: the decode loop that feeds a
//! prompt and samples one token at a time, a streaming detokenizer that hands out only
//! text that will not change, the split of the output into reasoning and answer, and
//! the properties of each selectable model.

pub mod engine;
pub mod error;
pub mod model;
pub mod segment;
pub mod stream;
pub mod terminal;
pub mod tokenizer;
pub mod utils;
