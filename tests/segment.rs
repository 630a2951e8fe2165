use meta_gpt::segment::split_think;

#[test]
fn split_think_on_delimiter() {
    assert_eq!(split_think("abc</think>def"), ("abc".to_string(), "def".to_string()));
}

#[test]
fn split_think_without_delimiter_is_all_answer() {
    assert_eq!(split_think("just an answer"), (String::new(), "just an answer".to_string()));
    assert_eq!(split_think(""), (String::new(), String::new()));
}

#[test]
fn split_think_at_first_occurrence() {
    assert_eq!(
        split_think("a</think>b</think>c"),
        ("a".to_string(), "b</think>c".to_string())
    );
}

#[test]
fn split_think_restores_text_with_one_delimiter() {
    let text = "<think>\nweighing é and ü\n</think>\n\nThe answer.";
    let (thinking, answer) = split_think(text);
    assert_eq!(format!("{thinking}</think>{answer}"), text);
    assert_eq!(answer, "\n\nThe answer.");
}

#[test]
fn split_think_delimiter_at_edges() {
    assert_eq!(split_think("</think>"), (String::new(), String::new()));
    assert_eq!(split_think("x</think"), (String::new(), "x</think".to_string()));
}

