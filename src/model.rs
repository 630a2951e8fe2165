use vstd::prelude::*;
use vstd::string::*;

use crate::error::GptError;
use crate::stream::TokenOutputStream;
use crate::tokenizer::vocab_id;
use crate::utils::{extension_of, file_extension};

verus! {

/// Model family: decides the prompt template and the end-of-sequence marker.
#[derive(Clone, Copy, Debug, PartialEq, Eq, Structural)]
pub enum Family {
    Gemma,
    DeepseekLlama,
    DeepseekQwen,
    Qwen,
}

/// The network whose weights a model file holds.
#[derive(Clone, Copy, Debug, PartialEq, Eq, Structural)]
pub enum Architecture {
    Llama,
    Qwen2,
    Qwen3,
    Gemma3,
}

/// Named groups of models.
#[derive(Clone, Copy, Debug, PartialEq, Eq, Structural)]
pub enum ModelGroup {
    Qwen,
    NativeQwen,
    Deepseek,
    DeepseekQwen,
    DeepseekLlama,
}

/// The quantized checkpoints that can be run; each name on the command line is given
/// with its variant.
#[derive(Clone, Copy, Debug, PartialEq, Eq, Structural)]
pub enum GeneratorModel {
    /// `gemma-3-27b-it-q8-0`
    Gemma327bQ80,
    /// `gemma-3-12b-it-q8-0`
    Gemma312bQ80,
    /// `gemma-3-4b-it-q8-0`
    Gemma34bQ80,
    /// `deepseekr1-llama8b-q4-km`
    DeepseekR1Llama8bQ4KM,
    /// `deepseekr1-0528-qwen3-8b-bf16`
    DeepseekR10528Qwen38bBf16,
    /// `deepseekr1-0528-qwen3-8b-q8-kxl`
    DeepseekR10528Qwen38bQ8KXL,
    /// `deepseekr1-0528-qwen3-8b-q8-0`
    DeepseekR10528Qwen38bQ80,
    /// `deepseekr1-qwen7b-q2-kl`
    DeepseekR1Qwen7bQ2KL,
    /// `deepseekr1-qwen14b-q2-kl`
    DeepseekR1Qwen14bQ2KL,
    /// `deepseekr1-qwen32b-q2-kl`
    DeepseekR1Qwen32bQ2KL,
    /// `deepseekr1-qwen7b-q4-km`
    DeepseekR1Qwen7bQ4KM,
    /// `deepseekr1-qwen14b-q4-km`
    DeepseekR1Qwen14bQ4KM,
    /// `deepseekr1-qwen32b-q4-km`
    DeepseekR1Qwen32bQ4KM,
    /// `deepseekr1-qwen7b-q8-0`
    DeepseekR1Qwen7bQ80,
    /// `deepseekr1-qwen14b-q8-0`
    DeepseekR1Qwen14bQ80,
    /// `deepseekr1-qwen32b-q8-0`
    DeepseekR1Qwen32bQ80,
    /// `qwen3-4b-q2-kl`
    Qwen4bQ2KL,
    /// `qwen3-8b-q2-kl`
    Qwen8bQ2KL,
    /// `qwen3-14b-q2-kl`
    Qwen14bQ2KL,
    /// `qwen3-32b-q2-kl`
    Qwen32bQ2KL,
    /// `qwen3-4b-q4-km`
    Qwen4bQ4KM,
    /// `qwen3-8b-q4-km`
    Qwen8bQ4KM,
    /// `qwen3-14b-q4-km`
    Qwen14bQ4KM,
    /// `qwen3-32b-q4-km`
    Qwen32bQ4KM,
    /// `qwen3-4b-q8-0`
    Qwen4bQ80,
    /// `qwen3-8b-q8-0`
    Qwen8bQ80,
    /// `qwen3-14b-q8-0`
    Qwen14bQ80,
    /// `qwen3-32b-q8-0`
    Qwen32bQ80,
}

/// Every model, in the order of declaration.
pub open spec fn all_models() -> Seq<GeneratorModel> {
    seq![
        GeneratorModel::Gemma327bQ80,
        GeneratorModel::Gemma312bQ80,
        GeneratorModel::Gemma34bQ80,
        GeneratorModel::DeepseekR1Llama8bQ4KM,
        GeneratorModel::DeepseekR10528Qwen38bBf16,
        GeneratorModel::DeepseekR10528Qwen38bQ8KXL,
        GeneratorModel::DeepseekR10528Qwen38bQ80,
        GeneratorModel::DeepseekR1Qwen7bQ2KL,
        GeneratorModel::DeepseekR1Qwen14bQ2KL,
        GeneratorModel::DeepseekR1Qwen32bQ2KL,
        GeneratorModel::DeepseekR1Qwen7bQ4KM,
        GeneratorModel::DeepseekR1Qwen14bQ4KM,
        GeneratorModel::DeepseekR1Qwen32bQ4KM,
        GeneratorModel::DeepseekR1Qwen7bQ80,
        GeneratorModel::DeepseekR1Qwen14bQ80,
        GeneratorModel::DeepseekR1Qwen32bQ80,
        GeneratorModel::Qwen4bQ2KL,
        GeneratorModel::Qwen8bQ2KL,
        GeneratorModel::Qwen14bQ2KL,
        GeneratorModel::Qwen32bQ2KL,
        GeneratorModel::Qwen4bQ4KM,
        GeneratorModel::Qwen8bQ4KM,
        GeneratorModel::Qwen14bQ4KM,
        GeneratorModel::Qwen32bQ4KM,
        GeneratorModel::Qwen4bQ80,
        GeneratorModel::Qwen8bQ80,
        GeneratorModel::Qwen14bQ80,
        GeneratorModel::Qwen32bQ80,
    ]
}

/// Whether a model of `family` belongs to `group`.
pub open spec fn group_has(group: ModelGroup, family: Family) -> bool {
    match group {
        ModelGroup::Qwen => family == Family::Qwen || family == Family::DeepseekQwen,
        ModelGroup::NativeQwen => family == Family::Qwen,
        ModelGroup::Deepseek => family == Family::DeepseekQwen || family == Family::DeepseekLlama,
        ModelGroup::DeepseekQwen => family == Family::DeepseekQwen,
        ModelGroup::DeepseekLlama => family == Family::DeepseekLlama,
    }
}

/// The models, in the order of declaration, whose family is one of those selected.
pub open spec fn models_of(qwen: bool, deepseek_qwen: bool, deepseek_llama: bool, gemma: bool) -> Seq<GeneratorModel> {
    all_models().filter(selector(qwen, deepseek_qwen, deepseek_llama, gemma))
}

/// Holds of the models whose family is one of those selected.
pub open spec fn selector(qwen: bool, deepseek_qwen: bool, deepseek_llama: bool, gemma: bool) -> spec_fn(GeneratorModel) -> bool {
    |m: GeneratorModel|
        match m.family() {
            Family::Qwen => qwen,
            Family::DeepseekQwen => deepseek_qwen,
            Family::DeepseekLlama => deepseek_llama,
            Family::Gemma => gemma,
        }
}

/// Holds of the models of a group.
pub open spec fn group_selector(group: ModelGroup) -> spec_fn(GeneratorModel) -> bool {
    |m: GeneratorModel| group_has(group, m.family())
}

/// The prompt wrapped in the turn markers of its model family.
pub open spec fn prompt_template(family: Family, prompt: Seq<char>, disable_thinking: bool) -> Seq<char> {
    match family {
        Family::DeepseekQwen => if disable_thinking {
            "<｜User｜>"@ + prompt + "<｜Assistant｜>\n<think>\n\n</think>\n\n"@
        } else {
            "<｜User｜>"@ + prompt + "<｜Assistant｜>"@
        },
        Family::DeepseekLlama => "<｜user｜>"@ + prompt + "<｜assistant｜>"@,
        Family::Gemma => "<start_of_turn>user\n"@ + prompt + "<end_of_turn>\n<start_of_turn>model\n"@,
        Family::Qwen => if disable_thinking {
            "<|im_start|>user\n"@ + prompt + "<|im_end|>\n<|im_start|>assistant\n<think>\n\n</think>\n\n"@
        } else {
            "<|im_start|>user\n"@ + prompt + "<|im_end|>\n<|im_start|>assistant\n"@
        },
    }
}

/// The end-of-sequence marker of a model family.
pub open spec fn eos_marker_of(family: Family) -> Seq<char> {
    match family {
        Family::Gemma => "<end_of_turn>"@,
        Family::DeepseekLlama | Family::DeepseekQwen => "<｜end▁of▁sentence｜>"@,
        Family::Qwen => "<|im_end|>"@,
    }
}

impl GeneratorModel {
    /// Repository that holds the tokenizer.
    pub open spec fn spec_tokenizer_repository(self) -> Seq<char> {
        match self {
            GeneratorModel::Gemma327bQ80 => "google/gemma-3-27b-it"@,
            GeneratorModel::Gemma312bQ80 => "google/gemma-3-12b-it"@,
            GeneratorModel::Gemma34bQ80 => "google/gemma-3-4b-it"@,
            GeneratorModel::DeepseekR1Llama8bQ4KM => "deepseek-ai/DeepSeek-R1-Distill-Llama-8B"@,
            GeneratorModel::DeepseekR10528Qwen38bBf16 => "deepseek-ai/DeepSeek-R1-0528-Qwen3-8B"@,
            GeneratorModel::DeepseekR10528Qwen38bQ8KXL => "deepseek-ai/DeepSeek-R1-0528-Qwen3-8B"@,
            GeneratorModel::DeepseekR10528Qwen38bQ80 => "deepseek-ai/DeepSeek-R1-0528-Qwen3-8B"@,
            GeneratorModel::DeepseekR1Qwen7bQ2KL => "deepseek-ai/DeepSeek-R1-Distill-Qwen-7B"@,
            GeneratorModel::DeepseekR1Qwen14bQ2KL => "deepseek-ai/DeepSeek-R1-Distill-Qwen-14B"@,
            GeneratorModel::DeepseekR1Qwen32bQ2KL => "deepseek-ai/DeepSeek-R1-Distill-Qwen-32B"@,
            GeneratorModel::DeepseekR1Qwen7bQ4KM => "deepseek-ai/DeepSeek-R1-Distill-Qwen-7B"@,
            GeneratorModel::DeepseekR1Qwen14bQ4KM => "deepseek-ai/DeepSeek-R1-Distill-Qwen-14B"@,
            GeneratorModel::DeepseekR1Qwen32bQ4KM => "deepseek-ai/DeepSeek-R1-Distill-Qwen-32B"@,
            GeneratorModel::DeepseekR1Qwen7bQ80 => "deepseek-ai/DeepSeek-R1-Distill-Qwen-7B"@,
            GeneratorModel::DeepseekR1Qwen14bQ80 => "deepseek-ai/DeepSeek-R1-Distill-Qwen-14B"@,
            GeneratorModel::DeepseekR1Qwen32bQ80 => "deepseek-ai/DeepSeek-R1-Distill-Qwen-32B"@,
            GeneratorModel::Qwen4bQ2KL => "Qwen/Qwen3-4B"@,
            GeneratorModel::Qwen8bQ2KL => "Qwen/Qwen3-8B"@,
            GeneratorModel::Qwen14bQ2KL => "Qwen/Qwen3-14B"@,
            GeneratorModel::Qwen32bQ2KL => "Qwen/Qwen3-32B"@,
            GeneratorModel::Qwen4bQ4KM => "Qwen/Qwen3-4B"@,
            GeneratorModel::Qwen8bQ4KM => "Qwen/Qwen3-8B"@,
            GeneratorModel::Qwen14bQ4KM => "Qwen/Qwen3-14B"@,
            GeneratorModel::Qwen32bQ4KM => "Qwen/Qwen3-32B"@,
            GeneratorModel::Qwen4bQ80 => "Qwen/Qwen3-4B"@,
            GeneratorModel::Qwen8bQ80 => "Qwen/Qwen3-8B"@,
            GeneratorModel::Qwen14bQ80 => "Qwen/Qwen3-14B"@,
            GeneratorModel::Qwen32bQ80 => "Qwen/Qwen3-32B"@,
        }
    }

    /// Repository that holds the weights.
    pub open spec fn spec_model_repository(self) -> Seq<char> {
        match self {
            GeneratorModel::Gemma327bQ80 => "unsloth/gemma-3-27b-it-GGUF"@,
            GeneratorModel::Gemma312bQ80 => "unsloth/gemma-3-12b-it-GGUF"@,
            GeneratorModel::Gemma34bQ80 => "unsloth/gemma-3-4b-it-GGUF"@,
            GeneratorModel::DeepseekR1Llama8bQ4KM => "unsloth/DeepSeek-R1-Distill-Llama-8B-GGUF"@,
            GeneratorModel::DeepseekR10528Qwen38bBf16 => "unsloth/DeepSeek-R1-0528-Qwen3-8B-GGUF"@,
            GeneratorModel::DeepseekR10528Qwen38bQ8KXL => "unsloth/DeepSeek-R1-0528-Qwen3-8B-GGUF"@,
            GeneratorModel::DeepseekR10528Qwen38bQ80 => "unsloth/DeepSeek-R1-0528-Qwen3-8B-GGUF"@,
            GeneratorModel::DeepseekR1Qwen7bQ2KL => "unsloth/DeepSeek-R1-Distill-Qwen-7B-GGUF"@,
            GeneratorModel::DeepseekR1Qwen14bQ2KL => "unsloth/DeepSeek-R1-Distill-Qwen-14B-GGUF"@,
            GeneratorModel::DeepseekR1Qwen32bQ2KL => "unsloth/DeepSeek-R1-Distill-Qwen-32B-GGUF"@,
            GeneratorModel::DeepseekR1Qwen7bQ4KM => "unsloth/DeepSeek-R1-Distill-Qwen-7B-GGUF"@,
            GeneratorModel::DeepseekR1Qwen14bQ4KM => "unsloth/DeepSeek-R1-Distill-Qwen-14B-GGUF"@,
            GeneratorModel::DeepseekR1Qwen32bQ4KM => "unsloth/DeepSeek-R1-Distill-Qwen-32B-GGUF"@,
            GeneratorModel::DeepseekR1Qwen7bQ80 => "unsloth/DeepSeek-R1-Distill-Qwen-7B-GGUF"@,
            GeneratorModel::DeepseekR1Qwen14bQ80 => "unsloth/DeepSeek-R1-Distill-Qwen-14B-GGUF"@,
            GeneratorModel::DeepseekR1Qwen32bQ80 => "unsloth/DeepSeek-R1-Distill-Qwen-32B-GGUF"@,
            GeneratorModel::Qwen4bQ2KL => "unsloth/Qwen3-4B-GGUF"@,
            GeneratorModel::Qwen8bQ2KL => "unsloth/Qwen3-8B-GGUF"@,
            GeneratorModel::Qwen14bQ2KL => "unsloth/Qwen3-14B-GGUF"@,
            GeneratorModel::Qwen32bQ2KL => "unsloth/Qwen3-32B-GGUF"@,
            GeneratorModel::Qwen4bQ4KM => "unsloth/Qwen3-4B-GGUF"@,
            GeneratorModel::Qwen8bQ4KM => "unsloth/Qwen3-8B-GGUF"@,
            GeneratorModel::Qwen14bQ4KM => "unsloth/Qwen3-14B-GGUF"@,
            GeneratorModel::Qwen32bQ4KM => "unsloth/Qwen3-32B-GGUF"@,
            GeneratorModel::Qwen4bQ80 => "unsloth/Qwen3-4B-GGUF"@,
            GeneratorModel::Qwen8bQ80 => "unsloth/Qwen3-8B-GGUF"@,
            GeneratorModel::Qwen14bQ80 => "unsloth/Qwen3-14B-GGUF"@,
            GeneratorModel::Qwen32bQ80 => "unsloth/Qwen3-32B-GGUF"@,
        }
    }

    /// File of the weights in that repository.
    pub open spec fn spec_model_config(self) -> Seq<char> {
        match self {
            GeneratorModel::Gemma327bQ80 => "gemma-3-27b-it-Q8_0.gguf"@,
            GeneratorModel::Gemma312bQ80 => "gemma-3-12b-it-Q8_0.gguf"@,
            GeneratorModel::Gemma34bQ80 => "gemma-3-4b-it-Q8_0.gguf"@,
            GeneratorModel::DeepseekR1Llama8bQ4KM => "DeepSeek-R1-Distill-Llama-8B-Q4_K_M.gguf"@,
            GeneratorModel::DeepseekR10528Qwen38bBf16 => "DeepSeek-R1-0528-Qwen3-8B-BF16.gguf"@,
            GeneratorModel::DeepseekR10528Qwen38bQ8KXL => "DeepSeek-R1-0528-Qwen3-8B-UD-Q8_K_XL.gguf"@,
            GeneratorModel::DeepseekR10528Qwen38bQ80 => "DeepSeek-R1-0528-Qwen3-8B-Q8_0.gguf"@,
            GeneratorModel::DeepseekR1Qwen7bQ2KL => "DeepSeek-R1-Distill-Qwen-7B-Q2_K_L.gguf"@,
            GeneratorModel::DeepseekR1Qwen14bQ2KL => "DeepSeek-R1-Distill-Qwen-14B-Q2_K_L.gguf"@,
            GeneratorModel::DeepseekR1Qwen32bQ2KL => "DeepSeek-R1-Distill-Qwen-32B-Q2_K_L.gguf"@,
            GeneratorModel::DeepseekR1Qwen7bQ4KM => "DeepSeek-R1-Distill-Qwen-7B-Q4_K_M.gguf"@,
            GeneratorModel::DeepseekR1Qwen14bQ4KM => "DeepSeek-R1-Distill-Qwen-14B-Q4_K_M.gguf"@,
            GeneratorModel::DeepseekR1Qwen32bQ4KM => "DeepSeek-R1-Distill-Qwen-32B-Q4_K_M.gguf"@,
            GeneratorModel::DeepseekR1Qwen7bQ80 => "DeepSeek-R1-Distill-Qwen-7B-Q8_0.gguf"@,
            GeneratorModel::DeepseekR1Qwen14bQ80 => "DeepSeek-R1-Distill-Qwen-14B-Q8_0.gguf"@,
            GeneratorModel::DeepseekR1Qwen32bQ80 => "DeepSeek-R1-Distill-Qwen-32B-Q8_0.gguf"@,
            GeneratorModel::Qwen4bQ2KL => "Qwen3-4B-Q2_K_L.gguf"@,
            GeneratorModel::Qwen8bQ2KL => "Qwen3-8B-Q2_K_L.gguf"@,
            GeneratorModel::Qwen14bQ2KL => "Qwen3-14B-Q2_K_L.gguf"@,
            GeneratorModel::Qwen32bQ2KL => "Qwen3-32B-Q2_K_L.gguf"@,
            GeneratorModel::Qwen4bQ4KM => "Qwen3-4B-UD-Q4_K_XL.gguf"@,
            GeneratorModel::Qwen8bQ4KM => "Qwen3-8B-UD-Q4_K_XL.gguf"@,
            GeneratorModel::Qwen14bQ4KM => "Qwen3-14B-Q4_0.gguf"@,
            GeneratorModel::Qwen32bQ4KM => "Qwen3-32B-Q4_0.gguf"@,
            GeneratorModel::Qwen4bQ80 => "Qwen3-4B-Q8_0.gguf"@,
            GeneratorModel::Qwen8bQ80 => "Qwen3-8B-Q8_0.gguf"@,
            GeneratorModel::Qwen14bQ80 => "Qwen3-14B-Q8_0.gguf"@,
            GeneratorModel::Qwen32bQ80 => "Qwen3-32B-Q8_0.gguf"@,
        }
    }

    /// Name under which the files are written to disk.
    pub open spec fn spec_model_name(self) -> Seq<char> {
        match self {
            GeneratorModel::Gemma327bQ80 => "gemma-3-27b-q8-0"@,
            GeneratorModel::Gemma312bQ80 => "gemma-3-12b-q8-0"@,
            GeneratorModel::Gemma34bQ80 => "gemma-3-4b-q8-0"@,
            GeneratorModel::DeepseekR1Llama8bQ4KM => "deepseekr1-llama8b-q4-km"@,
            GeneratorModel::DeepseekR10528Qwen38bBf16 => "deepseekr1-0528-qwen3-8b-bf16"@,
            GeneratorModel::DeepseekR10528Qwen38bQ8KXL => "deepseekr1-0528-qwen3-8b-q8-kxl"@,
            GeneratorModel::DeepseekR10528Qwen38bQ80 => "deepseekr1-0528-qwen3-8b-q8-0"@,
            GeneratorModel::DeepseekR1Qwen7bQ2KL => "deepseekr1-qwen7b-q2-kl"@,
            GeneratorModel::DeepseekR1Qwen14bQ2KL => "deepseekr1-qwen14b-q2-kl"@,
            GeneratorModel::DeepseekR1Qwen32bQ2KL => "deepseekr1-qwen32b-q2-kl"@,
            GeneratorModel::DeepseekR1Qwen7bQ4KM => "deepseekr1-qwen7b-q4-km"@,
            GeneratorModel::DeepseekR1Qwen14bQ4KM => "deepseekr1-qwen14b-q4-km"@,
            GeneratorModel::DeepseekR1Qwen32bQ4KM => "deepseekr1-qwen32b-q4-km"@,
            GeneratorModel::DeepseekR1Qwen7bQ80 => "deepseekr1-qwen7b-q8-0"@,
            GeneratorModel::DeepseekR1Qwen14bQ80 => "deepseekr1-qwen14b-q8-0"@,
            GeneratorModel::DeepseekR1Qwen32bQ80 => "deepseekr1-qwen32b-q8-0"@,
            GeneratorModel::Qwen4bQ2KL => "qwen3-4b-q2-kl"@,
            GeneratorModel::Qwen8bQ2KL => "qwen3-8b-q2-kl"@,
            GeneratorModel::Qwen14bQ2KL => "qwen3-14b-q2-kl"@,
            GeneratorModel::Qwen32bQ2KL => "qwen3-32b-q2-kl"@,
            GeneratorModel::Qwen4bQ4KM => "qwen3-4b-q4-km"@,
            GeneratorModel::Qwen8bQ4KM => "qwen3-8b-q4-km"@,
            GeneratorModel::Qwen14bQ4KM => "qwen3-14b-q4-km"@,
            GeneratorModel::Qwen32bQ4KM => "qwen3-32b-q4-km"@,
            GeneratorModel::Qwen4bQ80 => "qwen3-4b-q8-0"@,
            GeneratorModel::Qwen8bQ80 => "qwen3-8b-q8-0"@,
            GeneratorModel::Qwen14bQ80 => "qwen3-14b-q8-0"@,
            GeneratorModel::Qwen32bQ80 => "qwen3-32b-q8-0"@,
        }
    }

    /// The architecture whose weights the model's file holds.
    pub open spec fn spec_architecture(self) -> Architecture {
        match self {
            GeneratorModel::Gemma327bQ80 | GeneratorModel::Gemma312bQ80 | GeneratorModel::Gemma34bQ80 => Architecture::Gemma3,
            GeneratorModel::DeepseekR1Llama8bQ4KM => Architecture::Llama,
            GeneratorModel::DeepseekR10528Qwen38bBf16 | GeneratorModel::DeepseekR10528Qwen38bQ8KXL | GeneratorModel::DeepseekR10528Qwen38bQ80 | GeneratorModel::Qwen4bQ2KL | GeneratorModel::Qwen8bQ2KL | GeneratorModel::Qwen14bQ2KL | GeneratorModel::Qwen32bQ2KL | GeneratorModel::Qwen4bQ4KM | GeneratorModel::Qwen8bQ4KM | GeneratorModel::Qwen14bQ4KM | GeneratorModel::Qwen32bQ4KM | GeneratorModel::Qwen4bQ80 | GeneratorModel::Qwen8bQ80 | GeneratorModel::Qwen14bQ80 | GeneratorModel::Qwen32bQ80 => Architecture::Qwen3,
            GeneratorModel::DeepseekR1Qwen7bQ2KL | GeneratorModel::DeepseekR1Qwen14bQ2KL | GeneratorModel::DeepseekR1Qwen32bQ2KL | GeneratorModel::DeepseekR1Qwen7bQ4KM | GeneratorModel::DeepseekR1Qwen14bQ4KM | GeneratorModel::DeepseekR1Qwen32bQ4KM | GeneratorModel::DeepseekR1Qwen7bQ80 | GeneratorModel::DeepseekR1Qwen14bQ80 | GeneratorModel::DeepseekR1Qwen32bQ80 => Architecture::Qwen2,
        }
    }

    pub open spec fn family(self) -> Family {
        match self {
            GeneratorModel::Gemma327bQ80 | GeneratorModel::Gemma312bQ80 | GeneratorModel::Gemma34bQ80 => Family::Gemma,
            GeneratorModel::DeepseekR1Llama8bQ4KM => Family::DeepseekLlama,
            GeneratorModel::DeepseekR10528Qwen38bBf16 | GeneratorModel::DeepseekR10528Qwen38bQ8KXL | GeneratorModel::DeepseekR10528Qwen38bQ80 | GeneratorModel::DeepseekR1Qwen7bQ2KL | GeneratorModel::DeepseekR1Qwen14bQ2KL | GeneratorModel::DeepseekR1Qwen32bQ2KL | GeneratorModel::DeepseekR1Qwen7bQ4KM | GeneratorModel::DeepseekR1Qwen14bQ4KM | GeneratorModel::DeepseekR1Qwen32bQ4KM | GeneratorModel::DeepseekR1Qwen7bQ80 | GeneratorModel::DeepseekR1Qwen14bQ80 | GeneratorModel::DeepseekR1Qwen32bQ80 => Family::DeepseekQwen,
            GeneratorModel::Qwen4bQ2KL | GeneratorModel::Qwen8bQ2KL | GeneratorModel::Qwen14bQ2KL | GeneratorModel::Qwen32bQ2KL | GeneratorModel::Qwen4bQ4KM | GeneratorModel::Qwen8bQ4KM | GeneratorModel::Qwen14bQ4KM | GeneratorModel::Qwen32bQ4KM | GeneratorModel::Qwen4bQ80 | GeneratorModel::Qwen8bQ80 | GeneratorModel::Qwen14bQ80 | GeneratorModel::Qwen32bQ80 => Family::Qwen,
        }
    }

    /// Repository that holds the tokenizer.
    pub fn tokenizer_repository(&self) -> (r: &'static str)
        ensures
            r@ == self.spec_tokenizer_repository(),
    {
        match self {
            GeneratorModel::Gemma327bQ80 => "google/gemma-3-27b-it",
            GeneratorModel::Gemma312bQ80 => "google/gemma-3-12b-it",
            GeneratorModel::Gemma34bQ80 => "google/gemma-3-4b-it",
            GeneratorModel::DeepseekR1Llama8bQ4KM => "deepseek-ai/DeepSeek-R1-Distill-Llama-8B",
            GeneratorModel::DeepseekR10528Qwen38bBf16 => "deepseek-ai/DeepSeek-R1-0528-Qwen3-8B",
            GeneratorModel::DeepseekR10528Qwen38bQ8KXL => "deepseek-ai/DeepSeek-R1-0528-Qwen3-8B",
            GeneratorModel::DeepseekR10528Qwen38bQ80 => "deepseek-ai/DeepSeek-R1-0528-Qwen3-8B",
            GeneratorModel::DeepseekR1Qwen7bQ2KL => "deepseek-ai/DeepSeek-R1-Distill-Qwen-7B",
            GeneratorModel::DeepseekR1Qwen14bQ2KL => "deepseek-ai/DeepSeek-R1-Distill-Qwen-14B",
            GeneratorModel::DeepseekR1Qwen32bQ2KL => "deepseek-ai/DeepSeek-R1-Distill-Qwen-32B",
            GeneratorModel::DeepseekR1Qwen7bQ4KM => "deepseek-ai/DeepSeek-R1-Distill-Qwen-7B",
            GeneratorModel::DeepseekR1Qwen14bQ4KM => "deepseek-ai/DeepSeek-R1-Distill-Qwen-14B",
            GeneratorModel::DeepseekR1Qwen32bQ4KM => "deepseek-ai/DeepSeek-R1-Distill-Qwen-32B",
            GeneratorModel::DeepseekR1Qwen7bQ80 => "deepseek-ai/DeepSeek-R1-Distill-Qwen-7B",
            GeneratorModel::DeepseekR1Qwen14bQ80 => "deepseek-ai/DeepSeek-R1-Distill-Qwen-14B",
            GeneratorModel::DeepseekR1Qwen32bQ80 => "deepseek-ai/DeepSeek-R1-Distill-Qwen-32B",
            GeneratorModel::Qwen4bQ2KL => "Qwen/Qwen3-4B",
            GeneratorModel::Qwen8bQ2KL => "Qwen/Qwen3-8B",
            GeneratorModel::Qwen14bQ2KL => "Qwen/Qwen3-14B",
            GeneratorModel::Qwen32bQ2KL => "Qwen/Qwen3-32B",
            GeneratorModel::Qwen4bQ4KM => "Qwen/Qwen3-4B",
            GeneratorModel::Qwen8bQ4KM => "Qwen/Qwen3-8B",
            GeneratorModel::Qwen14bQ4KM => "Qwen/Qwen3-14B",
            GeneratorModel::Qwen32bQ4KM => "Qwen/Qwen3-32B",
            GeneratorModel::Qwen4bQ80 => "Qwen/Qwen3-4B",
            GeneratorModel::Qwen8bQ80 => "Qwen/Qwen3-8B",
            GeneratorModel::Qwen14bQ80 => "Qwen/Qwen3-14B",
            GeneratorModel::Qwen32bQ80 => "Qwen/Qwen3-32B",
        }
    }

    /// Repository that holds the weights.
    pub fn model_repository(&self) -> (r: &'static str)
        ensures
            r@ == self.spec_model_repository(),
    {
        match self {
            GeneratorModel::Gemma327bQ80 => "unsloth/gemma-3-27b-it-GGUF",
            GeneratorModel::Gemma312bQ80 => "unsloth/gemma-3-12b-it-GGUF",
            GeneratorModel::Gemma34bQ80 => "unsloth/gemma-3-4b-it-GGUF",
            GeneratorModel::DeepseekR1Llama8bQ4KM => "unsloth/DeepSeek-R1-Distill-Llama-8B-GGUF",
            GeneratorModel::DeepseekR10528Qwen38bBf16 => "unsloth/DeepSeek-R1-0528-Qwen3-8B-GGUF",
            GeneratorModel::DeepseekR10528Qwen38bQ8KXL => "unsloth/DeepSeek-R1-0528-Qwen3-8B-GGUF",
            GeneratorModel::DeepseekR10528Qwen38bQ80 => "unsloth/DeepSeek-R1-0528-Qwen3-8B-GGUF",
            GeneratorModel::DeepseekR1Qwen7bQ2KL => "unsloth/DeepSeek-R1-Distill-Qwen-7B-GGUF",
            GeneratorModel::DeepseekR1Qwen14bQ2KL => "unsloth/DeepSeek-R1-Distill-Qwen-14B-GGUF",
            GeneratorModel::DeepseekR1Qwen32bQ2KL => "unsloth/DeepSeek-R1-Distill-Qwen-32B-GGUF",
            GeneratorModel::DeepseekR1Qwen7bQ4KM => "unsloth/DeepSeek-R1-Distill-Qwen-7B-GGUF",
            GeneratorModel::DeepseekR1Qwen14bQ4KM => "unsloth/DeepSeek-R1-Distill-Qwen-14B-GGUF",
            GeneratorModel::DeepseekR1Qwen32bQ4KM => "unsloth/DeepSeek-R1-Distill-Qwen-32B-GGUF",
            GeneratorModel::DeepseekR1Qwen7bQ80 => "unsloth/DeepSeek-R1-Distill-Qwen-7B-GGUF",
            GeneratorModel::DeepseekR1Qwen14bQ80 => "unsloth/DeepSeek-R1-Distill-Qwen-14B-GGUF",
            GeneratorModel::DeepseekR1Qwen32bQ80 => "unsloth/DeepSeek-R1-Distill-Qwen-32B-GGUF",
            GeneratorModel::Qwen4bQ2KL => "unsloth/Qwen3-4B-GGUF",
            GeneratorModel::Qwen8bQ2KL => "unsloth/Qwen3-8B-GGUF",
            GeneratorModel::Qwen14bQ2KL => "unsloth/Qwen3-14B-GGUF",
            GeneratorModel::Qwen32bQ2KL => "unsloth/Qwen3-32B-GGUF",
            GeneratorModel::Qwen4bQ4KM => "unsloth/Qwen3-4B-GGUF",
            GeneratorModel::Qwen8bQ4KM => "unsloth/Qwen3-8B-GGUF",
            GeneratorModel::Qwen14bQ4KM => "unsloth/Qwen3-14B-GGUF",
            GeneratorModel::Qwen32bQ4KM => "unsloth/Qwen3-32B-GGUF",
            GeneratorModel::Qwen4bQ80 => "unsloth/Qwen3-4B-GGUF",
            GeneratorModel::Qwen8bQ80 => "unsloth/Qwen3-8B-GGUF",
            GeneratorModel::Qwen14bQ80 => "unsloth/Qwen3-14B-GGUF",
            GeneratorModel::Qwen32bQ80 => "unsloth/Qwen3-32B-GGUF",
        }
    }

    /// File of the weights in that repository.
    pub fn model_config(&self) -> (r: &'static str)
        ensures
            r@ == self.spec_model_config(),
    {
        match self {
            GeneratorModel::Gemma327bQ80 => "gemma-3-27b-it-Q8_0.gguf",
            GeneratorModel::Gemma312bQ80 => "gemma-3-12b-it-Q8_0.gguf",
            GeneratorModel::Gemma34bQ80 => "gemma-3-4b-it-Q8_0.gguf",
            GeneratorModel::DeepseekR1Llama8bQ4KM => "DeepSeek-R1-Distill-Llama-8B-Q4_K_M.gguf",
            GeneratorModel::DeepseekR10528Qwen38bBf16 => "DeepSeek-R1-0528-Qwen3-8B-BF16.gguf",
            GeneratorModel::DeepseekR10528Qwen38bQ8KXL => "DeepSeek-R1-0528-Qwen3-8B-UD-Q8_K_XL.gguf",
            GeneratorModel::DeepseekR10528Qwen38bQ80 => "DeepSeek-R1-0528-Qwen3-8B-Q8_0.gguf",
            GeneratorModel::DeepseekR1Qwen7bQ2KL => "DeepSeek-R1-Distill-Qwen-7B-Q2_K_L.gguf",
            GeneratorModel::DeepseekR1Qwen14bQ2KL => "DeepSeek-R1-Distill-Qwen-14B-Q2_K_L.gguf",
            GeneratorModel::DeepseekR1Qwen32bQ2KL => "DeepSeek-R1-Distill-Qwen-32B-Q2_K_L.gguf",
            GeneratorModel::DeepseekR1Qwen7bQ4KM => "DeepSeek-R1-Distill-Qwen-7B-Q4_K_M.gguf",
            GeneratorModel::DeepseekR1Qwen14bQ4KM => "DeepSeek-R1-Distill-Qwen-14B-Q4_K_M.gguf",
            GeneratorModel::DeepseekR1Qwen32bQ4KM => "DeepSeek-R1-Distill-Qwen-32B-Q4_K_M.gguf",
            GeneratorModel::DeepseekR1Qwen7bQ80 => "DeepSeek-R1-Distill-Qwen-7B-Q8_0.gguf",
            GeneratorModel::DeepseekR1Qwen14bQ80 => "DeepSeek-R1-Distill-Qwen-14B-Q8_0.gguf",
            GeneratorModel::DeepseekR1Qwen32bQ80 => "DeepSeek-R1-Distill-Qwen-32B-Q8_0.gguf",
            GeneratorModel::Qwen4bQ2KL => "Qwen3-4B-Q2_K_L.gguf",
            GeneratorModel::Qwen8bQ2KL => "Qwen3-8B-Q2_K_L.gguf",
            GeneratorModel::Qwen14bQ2KL => "Qwen3-14B-Q2_K_L.gguf",
            GeneratorModel::Qwen32bQ2KL => "Qwen3-32B-Q2_K_L.gguf",
            GeneratorModel::Qwen4bQ4KM => "Qwen3-4B-UD-Q4_K_XL.gguf",
            GeneratorModel::Qwen8bQ4KM => "Qwen3-8B-UD-Q4_K_XL.gguf",
            GeneratorModel::Qwen14bQ4KM => "Qwen3-14B-Q4_0.gguf",
            GeneratorModel::Qwen32bQ4KM => "Qwen3-32B-Q4_0.gguf",
            GeneratorModel::Qwen4bQ80 => "Qwen3-4B-Q8_0.gguf",
            GeneratorModel::Qwen8bQ80 => "Qwen3-8B-Q8_0.gguf",
            GeneratorModel::Qwen14bQ80 => "Qwen3-14B-Q8_0.gguf",
            GeneratorModel::Qwen32bQ80 => "Qwen3-32B-Q8_0.gguf",
        }
    }

    /// Name under which the files are written to disk.
    pub fn model_name(&self) -> (r: &'static str)
        ensures
            r@ == self.spec_model_name(),
    {
        match self {
            GeneratorModel::Gemma327bQ80 => "gemma-3-27b-q8-0",
            GeneratorModel::Gemma312bQ80 => "gemma-3-12b-q8-0",
            GeneratorModel::Gemma34bQ80 => "gemma-3-4b-q8-0",
            GeneratorModel::DeepseekR1Llama8bQ4KM => "deepseekr1-llama8b-q4-km",
            GeneratorModel::DeepseekR10528Qwen38bBf16 => "deepseekr1-0528-qwen3-8b-bf16",
            GeneratorModel::DeepseekR10528Qwen38bQ8KXL => "deepseekr1-0528-qwen3-8b-q8-kxl",
            GeneratorModel::DeepseekR10528Qwen38bQ80 => "deepseekr1-0528-qwen3-8b-q8-0",
            GeneratorModel::DeepseekR1Qwen7bQ2KL => "deepseekr1-qwen7b-q2-kl",
            GeneratorModel::DeepseekR1Qwen14bQ2KL => "deepseekr1-qwen14b-q2-kl",
            GeneratorModel::DeepseekR1Qwen32bQ2KL => "deepseekr1-qwen32b-q2-kl",
            GeneratorModel::DeepseekR1Qwen7bQ4KM => "deepseekr1-qwen7b-q4-km",
            GeneratorModel::DeepseekR1Qwen14bQ4KM => "deepseekr1-qwen14b-q4-km",
            GeneratorModel::DeepseekR1Qwen32bQ4KM => "deepseekr1-qwen32b-q4-km",
            GeneratorModel::DeepseekR1Qwen7bQ80 => "deepseekr1-qwen7b-q8-0",
            GeneratorModel::DeepseekR1Qwen14bQ80 => "deepseekr1-qwen14b-q8-0",
            GeneratorModel::DeepseekR1Qwen32bQ80 => "deepseekr1-qwen32b-q8-0",
            GeneratorModel::Qwen4bQ2KL => "qwen3-4b-q2-kl",
            GeneratorModel::Qwen8bQ2KL => "qwen3-8b-q2-kl",
            GeneratorModel::Qwen14bQ2KL => "qwen3-14b-q2-kl",
            GeneratorModel::Qwen32bQ2KL => "qwen3-32b-q2-kl",
            GeneratorModel::Qwen4bQ4KM => "qwen3-4b-q4-km",
            GeneratorModel::Qwen8bQ4KM => "qwen3-8b-q4-km",
            GeneratorModel::Qwen14bQ4KM => "qwen3-14b-q4-km",
            GeneratorModel::Qwen32bQ4KM => "qwen3-32b-q4-km",
            GeneratorModel::Qwen4bQ80 => "qwen3-4b-q8-0",
            GeneratorModel::Qwen8bQ80 => "qwen3-8b-q8-0",
            GeneratorModel::Qwen14bQ80 => "qwen3-14b-q8-0",
            GeneratorModel::Qwen32bQ80 => "qwen3-32b-q8-0",
        }
    }

    pub fn is_deepseek_qwen(&self) -> (r: bool)
        ensures
            r == (self.family() == Family::DeepseekQwen),
    {
        match self {
            GeneratorModel::DeepseekR10528Qwen38bBf16 | GeneratorModel::DeepseekR10528Qwen38bQ8KXL | GeneratorModel::DeepseekR10528Qwen38bQ80 | GeneratorModel::DeepseekR1Qwen7bQ2KL | GeneratorModel::DeepseekR1Qwen14bQ2KL | GeneratorModel::DeepseekR1Qwen32bQ2KL | GeneratorModel::DeepseekR1Qwen7bQ4KM | GeneratorModel::DeepseekR1Qwen14bQ4KM | GeneratorModel::DeepseekR1Qwen32bQ4KM | GeneratorModel::DeepseekR1Qwen7bQ80 | GeneratorModel::DeepseekR1Qwen14bQ80 | GeneratorModel::DeepseekR1Qwen32bQ80 => true,
            _ => false,
        }
    }

    pub fn is_deepseek_llama(&self) -> (r: bool)
        ensures
            r == (self.family() == Family::DeepseekLlama),
    {
        match self {
            GeneratorModel::DeepseekR1Llama8bQ4KM => true,
            _ => false,
        }
    }

    pub fn is_qwen(&self) -> (r: bool)
        ensures
            r == (self.family() == Family::Qwen),
    {
        match self {
            GeneratorModel::Qwen4bQ2KL | GeneratorModel::Qwen8bQ2KL | GeneratorModel::Qwen14bQ2KL | GeneratorModel::Qwen32bQ2KL | GeneratorModel::Qwen4bQ4KM | GeneratorModel::Qwen8bQ4KM | GeneratorModel::Qwen14bQ4KM | GeneratorModel::Qwen32bQ4KM | GeneratorModel::Qwen4bQ80 | GeneratorModel::Qwen8bQ80 | GeneratorModel::Qwen14bQ80 | GeneratorModel::Qwen32bQ80 => true,
            _ => false,
        }
    }

    pub fn is_gemma(&self) -> (r: bool)
        ensures
            r == (self.family() == Family::Gemma),
    {
        match self {
            GeneratorModel::Gemma327bQ80 | GeneratorModel::Gemma312bQ80 | GeneratorModel::Gemma34bQ80 => true,
            _ => false,
        }
    }

    /// The architecture whose weights the model's file holds.
    pub fn architecture(&self) -> (r: Architecture)
        ensures
            r == self.spec_architecture(),
    {
        match self {
            GeneratorModel::Gemma327bQ80 | GeneratorModel::Gemma312bQ80 | GeneratorModel::Gemma34bQ80 => Architecture::Gemma3,
            GeneratorModel::DeepseekR1Llama8bQ4KM => Architecture::Llama,
            GeneratorModel::DeepseekR10528Qwen38bBf16 | GeneratorModel::DeepseekR10528Qwen38bQ8KXL | GeneratorModel::DeepseekR10528Qwen38bQ80 | GeneratorModel::Qwen4bQ2KL | GeneratorModel::Qwen8bQ2KL | GeneratorModel::Qwen14bQ2KL | GeneratorModel::Qwen32bQ2KL | GeneratorModel::Qwen4bQ4KM | GeneratorModel::Qwen8bQ4KM | GeneratorModel::Qwen14bQ4KM | GeneratorModel::Qwen32bQ4KM | GeneratorModel::Qwen4bQ80 | GeneratorModel::Qwen8bQ80 | GeneratorModel::Qwen14bQ80 | GeneratorModel::Qwen32bQ80 => Architecture::Qwen3,
            GeneratorModel::DeepseekR1Qwen7bQ2KL | GeneratorModel::DeepseekR1Qwen14bQ2KL | GeneratorModel::DeepseekR1Qwen32bQ2KL | GeneratorModel::DeepseekR1Qwen7bQ4KM | GeneratorModel::DeepseekR1Qwen14bQ4KM | GeneratorModel::DeepseekR1Qwen32bQ4KM | GeneratorModel::DeepseekR1Qwen7bQ80 | GeneratorModel::DeepseekR1Qwen14bQ80 | GeneratorModel::DeepseekR1Qwen32bQ80 => Architecture::Qwen2,
        }
    }

    /// Every model, in the order of declaration.
    pub fn variants() -> (r: Vec<GeneratorModel>)
        ensures
            r@ == all_models(),
    {
        let mut r: Vec<GeneratorModel> = Vec::new();
        r.push(GeneratorModel::Gemma327bQ80);
        r.push(GeneratorModel::Gemma312bQ80);
        r.push(GeneratorModel::Gemma34bQ80);
        r.push(GeneratorModel::DeepseekR1Llama8bQ4KM);
        r.push(GeneratorModel::DeepseekR10528Qwen38bBf16);
        r.push(GeneratorModel::DeepseekR10528Qwen38bQ8KXL);
        r.push(GeneratorModel::DeepseekR10528Qwen38bQ80);
        r.push(GeneratorModel::DeepseekR1Qwen7bQ2KL);
        r.push(GeneratorModel::DeepseekR1Qwen14bQ2KL);
        r.push(GeneratorModel::DeepseekR1Qwen32bQ2KL);
        r.push(GeneratorModel::DeepseekR1Qwen7bQ4KM);
        r.push(GeneratorModel::DeepseekR1Qwen14bQ4KM);
        r.push(GeneratorModel::DeepseekR1Qwen32bQ4KM);
        r.push(GeneratorModel::DeepseekR1Qwen7bQ80);
        r.push(GeneratorModel::DeepseekR1Qwen14bQ80);
        r.push(GeneratorModel::DeepseekR1Qwen32bQ80);
        r.push(GeneratorModel::Qwen4bQ2KL);
        r.push(GeneratorModel::Qwen8bQ2KL);
        r.push(GeneratorModel::Qwen14bQ2KL);
        r.push(GeneratorModel::Qwen32bQ2KL);
        r.push(GeneratorModel::Qwen4bQ4KM);
        r.push(GeneratorModel::Qwen8bQ4KM);
        r.push(GeneratorModel::Qwen14bQ4KM);
        r.push(GeneratorModel::Qwen32bQ4KM);
        r.push(GeneratorModel::Qwen4bQ80);
        r.push(GeneratorModel::Qwen8bQ80);
        r.push(GeneratorModel::Qwen14bQ80);
        r.push(GeneratorModel::Qwen32bQ80);
        assert(r@ =~= all_models());
        r
    }

}

/// Relies on `candle_transformers::models::quantized_llama::MAX_SEQ_LEN`, the context
/// length of the quantized Llama weights, which that module sets to 4096.
#[verifier::external_body]
fn llama_max_seq_len() -> (r: usize)
    ensures
        r == 4096,
{
    candle_transformers::models::quantized_llama::MAX_SEQ_LEN
}

/// The models, in the order of declaration, whose family is one of those selected.
fn models_with(qwen: bool, deepseek_qwen: bool, deepseek_llama: bool, gemma: bool) -> (r: Vec<
    GeneratorModel,
>)
    ensures
        r@ == models_of(qwen, deepseek_qwen, deepseek_llama, gemma),
{
    let all = GeneratorModel::variants();
    let ghost pred = selector(qwen, deepseek_qwen, deepseek_llama, gemma);
    let mut r: Vec<GeneratorModel> = Vec::new();
    let mut i: usize = 0;
    while i < all.len()
        invariant
            i <= all@.len(),
            all@ == all_models(),
            pred == selector(qwen, deepseek_qwen, deepseek_llama, gemma),
            r@ == all@.take(i as int).filter(pred),
        decreases all@.len() - i,
    {
        let m = all[i];
        let keep = if m.is_qwen() {
            qwen
        } else if m.is_deepseek_qwen() {
            deepseek_qwen
        } else if m.is_deepseek_llama() {
            deepseek_llama
        } else {
            gemma
        };
        proof {
            reveal(Seq::filter);
            let next = all@.take(i + 1);
            assert(next.drop_last() =~= all@.take(i as int));
            assert(next.last() == m);
            assert(keep == pred(m));
            assert(next.filter(pred) == if pred(m) {
                all@.take(i as int).filter(pred).push(m)
            } else {
                all@.take(i as int).filter(pred)
            });
        }
        if keep {
            r.push(m);
        }
        i = i + 1;
    }
    assert(all@.take(all@.len() as int) =~= all@);
    r
}

impl GeneratorModel {
    /// Revision of the weights repository.
    pub fn model_revision(&self) -> (r: &'static str)
        ensures
            r@ == "main"@,
    {
        "main"
    }

    /// File name of the weights on disk: the model's name with the extension of its
    /// weights file, or `config` where that has none.
    pub fn model_file(&self) -> (r: String)
        ensures
            r@ == self.spec_model_name() + "."@ + match extension_of(self.spec_model_config()) {
                Some(e) => e,
                None => "config"@,
            },
    {
        let ext = match file_extension(self.model_config()) {
            Some(e) => e,
            None => "config".to_owned(),
        };
        let mut r = self.model_name().to_owned();
        r.append(".");
        r.append(ext.as_str());
        r
    }

    /// File name of the tokenizer on disk.
    pub fn tokenizer_file(&self) -> (r: String)
        ensures
            r@ == self.spec_model_name() + ".tokenizer.json"@,
    {
        let mut r = self.model_name().to_owned();
        r.append(".tokenizer.json");
        r
    }

    /// The token that ends a turn of this model family.
    pub fn eos_marker(&self) -> (r: &'static str)
        ensures
            r@ == eos_marker_of(self.family()),
    {
        if self.is_gemma() {
            "<end_of_turn>"
        } else if self.is_qwen() {
            "<|im_end|>"
        } else {
            "<｜end▁of▁sentence｜>"
        }
    }

    /// The id of the end-of-sequence token in the stream's vocabulary.
    pub fn get_eos_token(&self, tos: &TokenOutputStream) -> (r: Result<u32, GptError>)
        ensures
            match vocab_id(tos.spec_tokenizer(), eos_marker_of(self.family())) {
                Some(id) => r == Ok::<u32, GptError>(id),
                None => r matches Err(GptError::EosTokenNotInVocabulary(s)) && s@ == eos_marker_of(
                    self.family(),
                ),
            },
    {
        let marker = self.eos_marker();
        match tos.get_token(marker) {
            Some(id) => Ok(id),
            None => Err(GptError::EosTokenNotInVocabulary(marker.to_owned())),
        }
    }

    /// The context length of the weights, where it is fixed.
    pub fn context_window(&self) -> (r: Option<usize>)
        ensures
            r == (if self.family() == Family::DeepseekLlama {
                Some(4096usize)
            } else {
                None
            }),
    {
        if self.is_deepseek_llama() {
            Some(llama_max_seq_len())
        } else {
            None
        }
    }

    /// All Qwen-based models: Deepseek-Qwen and Qwen3.
    pub fn qwen() -> (r: Vec<GeneratorModel>)
        ensures
            r@ == models_of(true, true, false, false),
    {
        models_with(true, true, false, false)
    }

    /// All Deepseek models: Qwen and Llama.
    pub fn deepseek() -> (r: Vec<GeneratorModel>)
        ensures
            r@ == models_of(false, true, true, false),
    {
        models_with(false, true, true, false)
    }

    /// The Qwen3 models alone.
    pub fn native_qwen() -> (r: Vec<GeneratorModel>)
        ensures
            r@ == models_of(true, false, false, false),
    {
        models_with(true, false, false, false)
    }

    /// The Deepseek-Qwen models.
    pub fn deepseek_qwen() -> (r: Vec<GeneratorModel>)
        ensures
            r@ == models_of(false, true, false, false),
    {
        models_with(false, true, false, false)
    }

    /// The Deepseek-Llama models.
    pub fn deepseek_llama() -> (r: Vec<GeneratorModel>)
        ensures
            r@ == models_of(false, false, true, false),
    {
        models_with(false, false, true, false)
    }

    /// The Gemma models.
    pub fn gemma() -> (r: Vec<GeneratorModel>)
        ensures
            r@ == models_of(false, false, false, true),
    {
        models_with(false, false, false, true)
    }

    /// Wraps a user prompt in the turn markers that the model family expects; with
    /// `disable_thinking`, models that reason are handed an empty reasoning block.
    pub fn format_prompt(&self, prompt: &str, disable_thinking: bool) -> (r: String)
        ensures
            r@ == prompt_template(self.family(), prompt@, disable_thinking),
    {
        let (head, foot) = if self.is_deepseek_qwen() {
            if disable_thinking {
                ("<｜User｜>", "<｜Assistant｜>\n<think>\n\n</think>\n\n")
            } else {
                ("<｜User｜>", "<｜Assistant｜>")
            }
        } else if self.is_deepseek_llama() {
            ("<｜user｜>", "<｜assistant｜>")
        } else if self.is_gemma() {
            ("<start_of_turn>user\n", "<end_of_turn>\n<start_of_turn>model\n")
        } else if disable_thinking {
            ("<|im_start|>user\n", "<|im_end|>\n<|im_start|>assistant\n<think>\n\n</think>\n\n")
        } else {
            ("<|im_start|>user\n", "<|im_end|>\n<|im_start|>assistant\n")
        };
        let mut r = head.to_owned();
        r.append(prompt);
        r.append(foot);
        r
    }
}

impl ModelGroup {
    /// The models of the group, in the order of declaration.
    pub fn to_models(self) -> (r: Vec<GeneratorModel>)
        ensures
            r@ == all_models().filter(group_selector(self)),
    {
        let r = match self {
            ModelGroup::Qwen => GeneratorModel::qwen(),
            ModelGroup::NativeQwen => GeneratorModel::native_qwen(),
            ModelGroup::Deepseek => GeneratorModel::deepseek(),
            ModelGroup::DeepseekQwen => GeneratorModel::deepseek_qwen(),
            ModelGroup::DeepseekLlama => GeneratorModel::deepseek_llama(),
        };
        proof {
            let sel = match self {
                ModelGroup::Qwen => selector(true, true, false, false),
                ModelGroup::NativeQwen => selector(true, false, false, false),
                ModelGroup::Deepseek => selector(false, true, true, false),
                ModelGroup::DeepseekQwen => selector(false, true, false, false),
                ModelGroup::DeepseekLlama => selector(false, false, true, false),
            };
            assert(sel =~= group_selector(self));
        }
        r
    }
}

} // verus!
