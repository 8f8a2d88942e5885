use pi_kernel::command::{Command, ParseError};

fn args_of(c: &Command) -> Vec<String> {
    (0..c.len()).map(|i| c.arg(i).to_string()).collect()
}

#[test]
fn empty_line_is_empty() {
    assert!(matches!(Command::parse("", vec![""; 3]), Err(ParseError::Empty)));
}

#[test]
fn blank_line_is_empty() {
    assert!(matches!(Command::parse("   ", vec![""; 3]), Err(ParseError::Empty)));
}

#[test]
fn three_args_fit_three_slots() {
    let c = Command::parse("a b c", vec![""; 3]).unwrap();
    assert_eq!(args_of(&c), vec!["a", "b", "c"]);
    assert_eq!(c.path(), "a");
}

#[test]
fn three_args_overflow_two_slots() {
    assert!(matches!(Command::parse("a b c", vec![""; 2]), Err(ParseError::TooManyArgs)));
}

#[test]
fn irregular_spacing_collapses() {
    let c = Command::parse("  foo   bar  ", vec![""; 4]).unwrap();
    assert_eq!(args_of(&c), vec!["foo", "bar"]);
    assert_eq!(c.path(), "foo");
}

#[test]
fn words_with_non_ascii_text() {
    let c = Command::parse("écho  ünï", vec![""; 2]).unwrap();
    assert_eq!(args_of(&c), vec!["écho", "ünï"]);
}

#[test]
fn blank_line_with_no_slots_is_empty() {
    assert!(matches!(Command::parse("  ", Vec::new()), Err(ParseError::Empty)));
    assert!(matches!(Command::parse("x", Vec::new()), Err(ParseError::TooManyArgs)));
}
