use meta_gpt::model::{GeneratorModel, ModelGroup};
use meta_gpt::terminal::DownloadArgs;
use meta_gpt::utils::{compression_of, file_extension, Compression, StringUtils, UuidUtils};

#[test]
fn model_repositories_and_files() {
    let m = GeneratorModel::Qwen8bQ4KM;
    assert_eq!(m.tokenizer_repository(), "Qwen/Qwen3-8B");
    assert_eq!(m.model_repository(), "unsloth/Qwen3-8B-GGUF");
    assert_eq!(m.model_config(), "Qwen3-8B-UD-Q4_K_XL.gguf");
    assert_eq!(m.model_revision(), "main");
    assert_eq!(m.model_name(), "qwen3-8b-q4-km");
    assert_eq!(m.model_file(), "qwen3-8b-q4-km.gguf");
    assert_eq!(m.tokenizer_file(), "qwen3-8b-q4-km.tokenizer.json");
    let g = GeneratorModel::Gemma34bQ80;
    assert_eq!(g.tokenizer_repository(), "google/gemma-3-4b-it");
    assert_eq!(g.model_file(), "gemma-3-4b-q8-0.gguf");
    let d = GeneratorModel::DeepseekR10528Qwen38bQ8KXL;
    assert_eq!(d.model_config(), "DeepSeek-R1-0528-Qwen3-8B-UD-Q8_K_XL.gguf");
    assert_eq!(d.model_name(), "deepseekr1-0528-qwen3-8b-q8-kxl");
}

#[test]
fn model_families() {
    assert!(GeneratorModel::DeepseekR1Qwen7bQ4KM.is_deepseek_qwen());
    assert!(!GeneratorModel::DeepseekR1Qwen7bQ4KM.is_qwen());
    assert!(GeneratorModel::DeepseekR1Llama8bQ4KM.is_deepseek_llama());
    assert!(GeneratorModel::Qwen32bQ2KL.is_qwen());
    assert!(GeneratorModel::Gemma327bQ80.is_gemma());
    assert!(!GeneratorModel::Gemma327bQ80.is_deepseek_qwen());
}

#[test]
fn model_groups() {
    assert_eq!(GeneratorModel::variants().len(), 28);
    assert_eq!(GeneratorModel::qwen().len(), 24);
    assert_eq!(GeneratorModel::qwen()[0], GeneratorModel::DeepseekR10528Qwen38bBf16);
    assert_eq!(GeneratorModel::deepseek().len(), 13);
    assert_eq!(GeneratorModel::deepseek()[0], GeneratorModel::DeepseekR1Llama8bQ4KM);
    assert_eq!(GeneratorModel::native_qwen().len(), 12);
    assert_eq!(GeneratorModel::native_qwen()[0], GeneratorModel::Qwen4bQ2KL);
    assert_eq!(GeneratorModel::deepseek_qwen().len(), 12);
    assert_eq!(GeneratorModel::deepseek_llama(), vec![GeneratorModel::DeepseekR1Llama8bQ4KM]);
    assert_eq!(
        GeneratorModel::gemma(),
        vec![GeneratorModel::Gemma327bQ80, GeneratorModel::Gemma312bQ80, GeneratorModel::Gemma34bQ80]
    );
    assert_eq!(ModelGroup::Qwen.to_models(), GeneratorModel::qwen());
    assert_eq!(ModelGroup::NativeQwen.to_models(), GeneratorModel::native_qwen());
    assert_eq!(ModelGroup::Deepseek.to_models(), GeneratorModel::deepseek());
    assert_eq!(ModelGroup::DeepseekQwen.to_models(), GeneratorModel::deepseek_qwen());
    assert_eq!(ModelGroup::DeepseekLlama.to_models(), GeneratorModel::deepseek_llama());
}

#[test]
fn format_prompt_templates() {
    assert_eq!(
        GeneratorModel::DeepseekR1Qwen7bQ80.format_prompt("Hi", false),
        "<｜User｜>Hi<｜Assistant｜>"
    );
    assert_eq!(
        GeneratorModel::DeepseekR1Qwen7bQ80.format_prompt("Hi", true),
        "<｜User｜>Hi<｜Assistant｜>\n<think>\n\n</think>\n\n"
    );
    assert_eq!(
        GeneratorModel::DeepseekR1Llama8bQ4KM.format_prompt("Hi", true),
        "<｜user｜>Hi<｜assistant｜>"
    );
    assert_eq!(
        GeneratorModel::Gemma312bQ80.format_prompt("Hi", false),
        "<start_of_turn>user\nHi<end_of_turn>\n<start_of_turn>model\n"
    );
    assert_eq!(
        GeneratorModel::Qwen4bQ80.format_prompt("Hi", false),
        "<|im_start|>user\nHi<|im_end|>\n<|im_start|>assistant\n"
    );
    assert_eq!(
        GeneratorModel::Qwen4bQ80.format_prompt("Hi", true),
        "<|im_start|>user\nHi<|im_end|>\n<|im_start|>assistant\n<think>\n\n</think>\n\n"
    );
}

#[test]
fn eos_markers_and_windows() {
    assert_eq!(GeneratorModel::Gemma34bQ80.eos_marker(), "<end_of_turn>");
    assert_eq!(GeneratorModel::Qwen14bQ80.eos_marker(), "<|im_end|>");
    assert_eq!(GeneratorModel::DeepseekR1Qwen14bQ80.eos_marker(), "<｜end▁of▁sentence｜>");
    assert_eq!(GeneratorModel::DeepseekR1Llama8bQ4KM.context_window(), Some(4096));
    assert_eq!(GeneratorModel::Qwen14bQ80.context_window(), None);
}

#[test]
fn file_extensions() {
    assert_eq!(file_extension("model.Q8_0.gguf"), Some("gguf".to_string()));
    assert_eq!(file_extension("archive"), None);
    assert_eq!(file_extension(".hidden"), None);
    assert_eq!(file_extension("a."), Some(String::new()));
    assert_eq!(compression_of("table.tsv.gz"), Compression::Gzip);
    assert_eq!(compression_of("table.tsv.bz2"), Compression::Bzip);
    assert_eq!(compression_of("table.bz"), Compression::Bzip);
    assert_eq!(compression_of("table.lzma"), Compression::Lzma);
    assert_eq!(compression_of("table.tsv"), Compression::No);
}

#[test]
fn substring_by_characters() {
    let s = "héllo wörld".to_string();
    assert_eq!(s.substring(1, 4), "éllo");
    assert_eq!(s.substring(6, 100), "wörld");
    assert_eq!(s.substring(50, 2), "");
    assert_eq!(s.substring(0, 0), "");
}

#[test]
fn uuid_shortened() {
    let u = uuid::Uuid::from_u128(0x67e5504410b1426f9247bb680e5fe0c8);
    assert_eq!(u.shorten(8), "67e55044");
    assert_eq!(u.shorten(13), "67e55044-10b1");
    assert_eq!(u.shorten(100), "67e55044-10b1-426f-9247-bb680e5fe0c8");
}

#[test]
fn download_selection_extends_and_dedups() {
    let args = DownloadArgs {
        models: vec![GeneratorModel::Qwen4bQ80, GeneratorModel::Qwen4bQ80, GeneratorModel::DeepseekR1Qwen7bQ80],
        group: Some(ModelGroup::DeepseekLlama),
        outdir: std::path::PathBuf::from("."),
    };
    assert_eq!(
        args.selection(),
        vec![GeneratorModel::Qwen4bQ80, GeneratorModel::DeepseekR1Qwen7bQ80, GeneratorModel::DeepseekR1Llama8bQ4KM]
    );
    let args = DownloadArgs {
        models: vec![GeneratorModel::Qwen4bQ80, GeneratorModel::Qwen4bQ80],
        group: None,
        outdir: std::path::PathBuf::from("."),
    };
    assert_eq!(args.selection(), vec![GeneratorModel::Qwen4bQ80, GeneratorModel::Qwen4bQ80]);
}
