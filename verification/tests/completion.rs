use shellce::engine::completion::{is_word_break, ShellFlowCompleter, ShellFlowHelper};

fn completer() -> ShellFlowCompleter {
    ShellFlowCompleter {
        commands: vec!["greet".to_string(), "echo".to_string(), "exit".to_string()],
        variables: vec!["x".to_string(), "xy".to_string(), "name".to_string()],
    }
}

#[test]
fn candidates_are_the_commands_with_the_prefix() {
    let completer = completer();
    assert_eq!(completer.candidates("gr"), vec!["greet".to_string()]);
    assert_eq!(completer.candidates("e"), vec!["echo".to_string(), "exit".to_string()]);
    assert_eq!(
        completer.candidates(""),
        vec!["greet".to_string(), "echo".to_string(), "exit".to_string()],
    );
    assert!(completer.candidates("z").is_empty());
    assert!(completer.candidates("x").is_empty());
}

#[test]
fn candidates_for_a_reference_are_written_in_braces() {
    let completer = completer();
    assert_eq!(completer.candidates("{x"), vec!["{x}".to_string(), "{xy}".to_string()]);
    assert_eq!(completer.candidates("{xy}"), vec!["{xy}".to_string()]);
    assert_eq!(
        completer.candidates("{"),
        vec!["{x}".to_string(), "{xy}".to_string(), "{name}".to_string()],
    );
    assert!(completer.candidates("{q").is_empty());
}

#[test]
fn complete_finds_the_word_before_the_cursor() {
    let completer = completer();
    assert_eq!(completer.complete("echo gr", 7), (5, vec!["greet".to_string()]));
    assert_eq!(completer.complete("echo gr", 6), (5, vec!["greet".to_string()]));
    assert_eq!(completer.complete("ec", 2), (0, vec!["echo".to_string()]));
    assert_eq!(completer.complete("ping |e", 7).0, 6);
    assert_eq!(completer.complete("echo \"{n", 8), (6, vec!["{name}".to_string()]));
    assert_eq!(completer.complete("echo ", 5).0, 5);
    assert_eq!(completer.complete("\u{e9}\u{e9} ex", 7), (5, vec!["exit".to_string()]));
    assert_eq!(completer.complete("", 0).0, 0);
}

#[test]
fn helper_completes_as_its_completer() {
    let helper = ShellFlowHelper { completer: completer() };
    assert_eq!(helper.complete("a\tgre", 5), (2, vec!["greet".to_string()]));
}

#[test]
fn word_breaks() {
    for c in [' ', '\t', '|', '"'] {
        assert!(is_word_break(c));
    }
    for c in ['a', '{', '}', '\n', '=', '\u{a0}'] {
        assert!(!is_word_break(c));
    }
}
