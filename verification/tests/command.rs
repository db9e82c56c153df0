use buj::command::{command_from_words, parse_command};
use buj::error::{JobStartError, ParseError};

fn words(line: &str) -> Vec<String> {
    let command = parse_command(line).unwrap();
    let mut all = vec![command.program];
    all.extend(command.args);
    all
}

#[test]
fn quoted_words_keep_their_boundaries() {
    assert_eq!(words("echo \"a b\" c"), vec!["echo", "a b", "c"]);
}

#[test]
fn program_is_the_first_word() {
    let command = parse_command("ls -l  /tmp").unwrap();
    assert_eq!(command.program, "ls");
    assert_eq!(command.args, vec!["-l", "/tmp"]);
    let alone = parse_command("top").unwrap();
    assert_eq!(alone.program, "top");
    assert!(alone.args.is_empty());
}

#[test]
fn single_quotes_and_escapes() {
    assert_eq!(words("sh -c 'sleep 1; exit 0'"), vec!["sh", "-c", "sleep 1; exit 0"]);
    assert_eq!(words(r#"echo a\ b "q\"x""#), vec!["echo", "a b", "q\"x"]);
    assert_eq!(words(r#"printf tab\there"#), vec!["printf", "tab\there"]);
}

#[test]
fn unterminated_quote_is_a_parse_error() {
    for line in ["echo \"a b", "echo 'a b", "\"", "run 'x' \"y"] {
        match parse_command(line) {
            Err(JobStartError::Parse(ParseError::DanglingString)) => {}
            other => panic!("{line:?} gave {other:?}"),
        }
    }
}

#[test]
fn dangling_backslash_is_a_parse_error() {
    assert!(matches!(
        parse_command("echo a\\"),
        Err(JobStartError::Parse(ParseError::DanglingBackslash))
    ));
}

#[test]
fn unknown_escape_is_a_parse_error() {
    match parse_command(r#"echo a\mb"#) {
        Err(JobStartError::Parse(ParseError::UnrecognizedEscape(seq))) => assert_eq!(seq, "\\m"),
        other => panic!("gave {other:?}"),
    }
}

#[test]
fn blank_line_is_no_command() {
    for line in ["", " ", "   \t\n ", "\n"] {
        assert!(matches!(parse_command(line), Err(JobStartError::NoCommand)), "{line:?}");
    }
}

#[test]
fn comment_only_line_is_no_command() {
    assert!(matches!(parse_command("# nothing here"), Err(JobStartError::NoCommand)));
}

#[test]
fn command_from_words_splits_head_and_tail() {
    let command =
        command_from_words(Ok(vec!["a".to_string(), "b".to_string(), "c".to_string()])).unwrap();
    assert_eq!(command.program, "a");
    assert_eq!(command.args, vec!["b", "c"]);
    assert!(matches!(command_from_words(Ok(vec![])), Err(JobStartError::NoCommand)));
    assert!(matches!(
        command_from_words(Err(ParseError::DanglingString)),
        Err(JobStartError::Parse(ParseError::DanglingString))
    ));
}
