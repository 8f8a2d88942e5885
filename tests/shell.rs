use pi_kernel::shell::{error_reply, parse_line, LineEditor, LineError, BELL};
use pi_kernel::command::ParseError;

fn type_bytes(ed: &mut LineEditor, bytes: &[u8]) -> (Vec<u8>, bool) {
    let mut echo = Vec::new();
    let mut done = false;
    for &b in bytes {
        let f = ed.feed(b);
        echo.extend_from_slice(&f.echo);
        done = f.line_done;
    }
    (echo, done)
}

#[test]
fn backspace_edits_the_line() {
    let mut ed = LineEditor::new(vec![0u8; 512]);
    let (echo, done) = type_bytes(&mut ed, b"ab\x08c\r");
    assert!(done);
    assert_eq!(ed.line(), b"ac".to_vec());
    assert_eq!(echo, b"ab\x08 \x08c\n".to_vec());
}

#[test]
fn delete_edits_like_backspace() {
    let mut ed = LineEditor::new(vec![0u8; 8]);
    type_bytes(&mut ed, b"xy\x7f");
    assert_eq!(ed.line(), b"x".to_vec());
}

#[test]
fn backspace_on_empty_line_echoes_nothing() {
    let mut ed = LineEditor::new(vec![0u8; 8]);
    let (echo, done) = type_bytes(&mut ed, b"\x08");
    assert!(!done);
    assert!(echo.is_empty());
    assert_eq!(ed.len(), 0);
}

#[test]
fn overflow_rings_bell_per_excess_byte() {
    let mut ed = LineEditor::new(vec![0u8; 3]);
    let (echo, _) = type_bytes(&mut ed, b"abcde");
    assert_eq!(ed.line(), b"abc".to_vec());
    assert_eq!(echo, vec![b'a', b'b', b'c', BELL, BELL]);
}

#[test]
fn control_byte_rings_bell() {
    let mut ed = LineEditor::new(vec![0u8; 3]);
    let (echo, done) = type_bytes(&mut ed, b"\x01");
    assert_eq!(echo, vec![BELL]);
    assert!(!done);
    assert_eq!(ed.len(), 0);
}

#[test]
fn line_feed_ends_line_and_high_bytes_are_kept() {
    let mut ed = LineEditor::new(vec![0u8; 4]);
    let (echo, done) = type_bytes(&mut ed, &[0xc3, 0xa9, b'\n']);
    assert!(done);
    assert_eq!(echo, vec![0xc3, 0xa9, b'\n']);
    assert_eq!(ed.line(), vec![0xc3, 0xa9]);
}

#[test]
fn completed_line_parses() {
    let line = b" ls  -l ".to_vec();
    let c = parse_line(&line, vec![""; 4]).unwrap();
    assert_eq!(c.len(), 2);
    assert_eq!(c.path(), "ls");
    assert_eq!(c.arg(1), "-l");
}

#[test]
fn completed_line_errors() {
    assert!(matches!(parse_line(&[0xff, b'a'], vec![""; 4]), Err(LineError::NotText)));
    assert!(matches!(parse_line(b"  ", vec![""; 4]), Err(LineError::Parse(ParseError::Empty))));
    assert!(matches!(
        parse_line(b"a b", vec![""; 1]),
        Err(LineError::Parse(ParseError::TooManyArgs))
    ));
}

#[test]
fn error_replies() {
    assert_eq!(error_reply(LineError::Parse(ParseError::Empty)), "");
    assert_eq!(error_reply(LineError::Parse(ParseError::TooManyArgs)), "error: too many arguments\n");
    assert_eq!(error_reply(LineError::NotText), "error: line is not UTF-8 text\n");
}

#[test]
fn excess_byte_rings_bell_then_line_ends() {
    let mut ed = LineEditor::new(vec![0u8; 2]);
    let (echo, done) = type_bytes(&mut ed, b"xyz\r");
    assert!(done);
    assert_eq!(ed.line(), b"xy".to_vec());
    assert_eq!(echo, vec![b'x', b'y', BELL, b'\n']);
}
