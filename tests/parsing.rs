use shell::redirect::{process_redirections, redirect_op, RedirectOp};
use shell::tokenizer::{append_input_line, ends_with_continuation, parse_shell_input};
use shell::ShellError;

fn strings(v: &[&str]) -> Vec<String> {
    v.iter().map(|s| s.to_string()).collect()
}

#[test]
fn tokenize_double_quoted_group() {
    assert_eq!(parse_shell_input("echo \"a b\" c"), strings(&["echo", "a b", "c"]));
}

#[test]
fn tokenize_escaped_space() {
    assert_eq!(parse_shell_input("foo\\ bar baz"), strings(&["foo bar", "baz"]));
}

#[test]
fn tokenize_whitespace_only_is_empty() {
    assert!(parse_shell_input("   \t  ").is_empty());
    assert!(parse_shell_input("").is_empty());
}

#[test]
fn tokenize_collapses_blank_runs() {
    assert_eq!(parse_shell_input("  ls \t -l   /tmp  "), strings(&["ls", "-l", "/tmp"]));
}

#[test]
fn tokenize_single_quotes_keep_double_quotes() {
    assert_eq!(parse_shell_input("echo 'say \"hi\"'"), strings(&["echo", "say \"hi\""]));
    assert_eq!(parse_shell_input("echo \"it's\""), strings(&["echo", "it's"]));
}

#[test]
fn tokenize_escape_inside_quotes_and_trailing_backslash() {
    assert_eq!(parse_shell_input("a\"b\\\"c\"d"), strings(&["ab\"cd"]));
    assert_eq!(parse_shell_input("abc\\"), strings(&["abc"]));
}

#[test]
fn tokenize_empty_quotes_give_no_token() {
    assert_eq!(parse_shell_input("a '' b"), strings(&["a", "b"]));
    assert_eq!(parse_shell_input("a'b c'd"), strings(&["ab cd"]));
}

#[test]
fn continuation_single_and_double_backslash() {
    assert!(ends_with_continuation("echo a \\"));
    assert!(!ends_with_continuation("echo a \\\\"));
    assert!(!ends_with_continuation("echo a"));
    assert!(!ends_with_continuation(""));
    assert!(ends_with_continuation("\\"));
}

#[test]
fn append_input_line_joins_continued_lines() {
    let mut line = String::new();
    assert!(append_input_line(&mut line, "echo one \\\n"));
    assert_eq!(line, "echo one  ");
    assert!(!append_input_line(&mut line, "two\n"));
    assert_eq!(line, "echo one  two");
}

#[test]
fn append_input_line_keeps_double_backslash() {
    let mut line = "x ".to_string();
    assert!(!append_input_line(&mut line, "a\\\\\n\n"));
    assert_eq!(line, "x a\\\\");
}

#[test]
fn redirect_operators_are_recognised() {
    assert_eq!(redirect_op(">"), Some(RedirectOp::Stdout));
    assert_eq!(redirect_op("1>"), Some(RedirectOp::Stdout));
    assert_eq!(redirect_op("2>"), Some(RedirectOp::Stderr));
    assert_eq!(redirect_op("&>"), Some(RedirectOp::Both));
    assert_eq!(redirect_op(">>"), None);
    assert_eq!(redirect_op("3>"), None);
    assert_eq!(redirect_op("a"), None);
}

#[test]
fn redirect_stderr_target() {
    let (cmd, out, err) = process_redirections(strings(&["cmd", "arg", "2>", "err.log"])).unwrap();
    assert_eq!(cmd, strings(&["cmd", "arg"]));
    assert_eq!(out, None);
    assert_eq!(err, Some("err.log".to_string()));
}

#[test]
fn redirect_missing_target_fails() {
    match process_redirections(strings(&["cmd", ">"])) {
        Err(ShellError::ParsingFail(m)) => {
            assert_eq!(m, "no file specified for output redirection")
        }
        other => panic!("unexpected result: {:?}", other),
    }
    match process_redirections(strings(&["cmd", "2>"])) {
        Err(ShellError::ParsingFail(m)) => {
            assert_eq!(m, "no file specified for error output redirection")
        }
        other => panic!("unexpected result: {:?}", other),
    }
}

#[test]
fn redirect_both_and_last_wins() {
    let (cmd, out, err) =
        process_redirections(strings(&["a", "&>", "all.txt", "b", "> ", "1>", "o2", "2>", "e"]))
            .unwrap();
    assert_eq!(cmd, strings(&["a", "b", "> "]));
    assert_eq!(out, Some("o2".to_string()));
    assert_eq!(err, Some("e".to_string()));
}

#[test]
fn redirect_target_may_look_like_operator() {
    let (cmd, out, err) = process_redirections(strings(&["x", ">", "2>"])).unwrap();
    assert_eq!(cmd, strings(&["x"]));
    assert_eq!(out, Some("2>".to_string()));
    assert_eq!(err, None);
}
