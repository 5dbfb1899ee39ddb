use pipeshell::dispatch::{parse_line, Builtin, ParsedLine};
use pipeshell::parse::{parse_stage, split_pipe, tokenize};

fn views(v: &[String]) -> Vec<&str> {
    v.iter().map(|s| s.as_str()).collect()
}

#[test]
fn tokenize_simple() {
    assert_eq!(views(&tokenize("echo hello")), ["echo", "hello"]);
}

#[test]
fn tokenize_collapses_whitespace() {
    assert_eq!(views(&tokenize("  ls \t -l  \n")), ["ls", "-l"]);
}

#[test]
fn tokenize_empty_and_blank() {
    assert!(tokenize("").is_empty());
    assert!(tokenize(" \t \r\n").is_empty());
}

#[test]
fn split_pipe_plain() {
    assert_eq!(views(&split_pipe("echo hello | cat")), ["echo hello ", " cat"]);
}

#[test]
fn split_pipe_no_delimiter_is_whole_line() {
    assert_eq!(views(&split_pipe("ls -l")), ["ls -l"]);
}

#[test]
fn split_pipe_keeps_empty_parts() {
    assert_eq!(views(&split_pipe("a||b")), ["a", "", "b"]);
    assert_eq!(views(&split_pipe("")), [""]);
    assert_eq!(views(&split_pipe("|")), ["", ""]);
}

#[test]
fn parse_stage_program_and_args() {
    let st = parse_stage("cat -n file").expect("stage should parse");
    assert_eq!(st.program, "cat");
    assert_eq!(views(&st.args), ["-n", "file"]);
}

#[test]
fn parse_stage_rejects_blank() {
    assert!(parse_stage("").is_none());
    assert!(parse_stage("   \t").is_none());
}

#[test]
fn single_command_is_not_a_pipeline() {
    // A one-stage line never reaches the pipeline executor.
    match parse_line("ls -l") {
        ParsedLine::Single { stage } => {
            assert_eq!(stage.program, "ls");
            assert_eq!(views(&stage.args), ["-l"]);
        }
        _ => panic!("expected the single-command path"),
    }
}

#[test]
fn two_stage_line_routes_to_pipeline() {
    match parse_line("echo hello | cat") {
        ParsedLine::Pipeline { stages } => {
            assert_eq!(stages.len(), 2);
            assert_eq!(stages[0].program, "echo");
            assert_eq!(views(&stages[0].args), ["hello"]);
            assert_eq!(stages[1].program, "cat");
            assert!(stages[1].args.is_empty());
        }
        _ => panic!("expected the pipeline path"),
    }
}

#[test]
fn three_stage_line_routes_to_pipeline() {
    match parse_line("cat a|grep b |wc -l") {
        ParsedLine::Pipeline { stages } => {
            assert_eq!(stages.len(), 3);
            assert_eq!(stages[0].program, "cat");
            assert_eq!(stages[1].program, "grep");
            assert_eq!(views(&stages[2].args), ["-l"]);
        }
        _ => panic!("expected the pipeline path"),
    }
}

#[test]
fn empty_stage_in_pipeline_is_rejected() {
    match parse_line("echo hi | | cat") {
        ParsedLine::EmptyStage { index } => assert_eq!(index, 1),
        _ => panic!("an empty stage must reject the pipeline"),
    }
}

#[test]
fn leading_empty_stage_is_rejected() {
    match parse_line("| cat") {
        ParsedLine::EmptyStage { index } => assert_eq!(index, 0),
        _ => panic!("an empty stage must reject the pipeline"),
    }
}

#[test]
fn blank_line_does_nothing() {
    assert!(matches!(parse_line(""), ParsedLine::Blank));
    assert!(matches!(parse_line("   \n"), ParsedLine::Blank));
}

#[test]
fn quit_ends_the_session() {
    assert!(matches!(parse_line("quit"), ParsedLine::Quit));
    assert!(matches!(parse_line("  quit \n"), ParsedLine::Quit));
}

#[test]
fn quit_with_arguments_is_an_ordinary_program() {
    match parse_line("quit now") {
        ParsedLine::Single { stage } => assert_eq!(stage.program, "quit"),
        _ => panic!("expected the single-command path"),
    }
}

#[test]
fn builtins_are_recognized() {
    match parse_line("cd /tmp") {
        ParsedLine::Builtin { which, args } => {
            assert_eq!(which, Builtin::Cd);
            assert_eq!(views(&args), ["/tmp"]);
        }
        _ => panic!("expected a built-in"),
    }
    assert!(matches!(
        parse_line("pwd"),
        ParsedLine::Builtin { which: Builtin::Pwd, .. }
    ));
    match parse_line("echo a b") {
        ParsedLine::Builtin { which, args } => {
            assert_eq!(which, Builtin::Echo);
            assert_eq!(views(&args), ["a", "b"]);
        }
        _ => panic!("expected a built-in"),
    }
    assert!(matches!(
        parse_line("kill 42"),
        ParsedLine::Builtin { which: Builtin::Kill, .. }
    ));
    assert!(matches!(
        parse_line("ps"),
        ParsedLine::Builtin { which: Builtin::Ps, .. }
    ));
}

#[test]
fn non_ascii_lines_parse_by_characters() {
    match parse_line("привет мир | cat") {
        ParsedLine::Pipeline { stages } => {
            assert_eq!(stages[0].program, "привет");
            assert_eq!(views(&stages[0].args), ["мир"]);
            assert_eq!(stages[1].program, "cat");
        }
        _ => panic!("expected the pipeline path"),
    }
}

#[test]
fn builtin_name_mid_pipeline_is_an_ordinary_stage() {
    match parse_line("ps | cat") {
        ParsedLine::Pipeline { stages } => {
            assert_eq!(stages[0].program, "ps");
            assert_eq!(stages[1].program, "cat");
        }
        _ => panic!("expected the pipeline path"),
    }
}
