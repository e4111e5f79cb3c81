use dictator::text_processing::{punctuation, TextProcessor, PUNCTUATION_COUNT};

#[test]
fn test_punctuation_commands() {
    let processor = TextProcessor::new(Vec::new());

    assert_eq!(processor.process("hello period"), "hello .");
    assert_eq!(processor.process("hello comma world"), "hello , world");
    assert_eq!(
        processor.process("question mark at end question mark"),
        "? at end ?"
    );
}

#[test]
fn test_word_overrides() {
    let mut overrides = Vec::new();
    overrides.push(("dictator".to_string(), "dctr".to_string()));

    let processor = TextProcessor::new(overrides);

    assert_eq!(
        processor.process("dictator is cool"),
        "dctr is cool"
    );
    assert_eq!(
        processor.process("Dictator is cool"),
        "dctr is cool"
    );
}

#[test]
fn test_combined() {
    let mut overrides = Vec::new();
    overrides.push(("dictator".to_string(), "Dictator".to_string()));

    let processor = TextProcessor::new(overrides);

    assert_eq!(
        processor.process("dictator is great period"),
        "Dictator is great ."
    );
}

#[test]
fn punctuation_table_in_order() {
    assert_eq!(PUNCTUATION_COUNT, 34);
    assert_eq!(punctuation(0), ("period", "."));
    assert_eq!(punctuation(1), ("comma", ","));
    assert_eq!(punctuation(6), ("new line", "\n"));
    assert_eq!(punctuation(7), ("tab", "\t"));
    assert_eq!(punctuation(24), ("backslash", "\\"));
    assert_eq!(punctuation(25), ("slash", "/"));
    assert_eq!(punctuation(30), ("quote", "\""));
    assert_eq!(punctuation(31), ("single quote", "'"));
    assert_eq!(punctuation(33), ("greater than", ">"));
}

#[test]
fn every_command_is_replaced_by_its_sign() {
    let processor = TextProcessor::new(Vec::new());
    for i in 0..PUNCTUATION_COUNT {
        let (words, sign) = punctuation(i);
        if words == "single quote" {
            continue;
        }
        let text = format!("a {} b", words);
        assert_eq!(processor.process(&text), format!("a {} b", sign));
    }
    assert_eq!(processor.process("single quote"), "single \"");
}

#[test]
fn commands_match_whole_words_in_lower_case() {
    let processor = TextProcessor::new(Vec::new());
    assert_eq!(processor.process("periodic comma-less Period"), "periodic ,-less Period");
    assert_eq!(processor.process("backslash slash"), "\\ /");
    assert_eq!(processor.process("  hello  "), "hello");
    assert_eq!(processor.process("hello new line"), "hello");
    assert_eq!(processor.process(""), "");
}

#[test]
fn overrides_are_escaped_and_applied_in_order() {
    let processor = TextProcessor::new(vec![
        ("c++".to_string(), "cpp".to_string()),
        ("a.b".to_string(), "dot".to_string()),
        ("one".to_string(), "two".to_string()),
        ("two".to_string(), "three".to_string()),
    ]);
    assert_eq!(processor.process("axb a.b"), "axb dot");
    assert_eq!(processor.process("ONE two"), "three three");
    assert_eq!(processor.process("c++ x"), "c++ x");
}

#[test]
fn override_runs_before_punctuation() {
    let processor = TextProcessor::new(vec![("stop".to_string(), "period".to_string())]);
    assert_eq!(processor.process("full stop"), "full .");
}

#[test]
fn every_meta_character_in_an_override_is_taken_literally() {
    for c in ['\\', '.', '+', '*', '?', '(', ')', '|', '[', ']', '{', '}', '^', '$', '#', '&', '-', '~'] {
        let word = format!("a{}b", c);
        let processor = TextProcessor::new(vec![(word.clone(), "hit".to_string())]);
        assert_eq!(processor.process(&format!("x {} y", word)), "x hit y");
        assert_eq!(processor.process("x ab y"), "x ab y");
        assert_eq!(processor.process("x aab y"), "x aab y");
    }
}
