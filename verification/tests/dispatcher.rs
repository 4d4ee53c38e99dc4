use shellce::commands::command::HostRequest;
use shellce::commands::sleep::SleepCommand;
use shellce::commands::{get_command_registry, BuiltinCommand, CommandRegistry};
use shellce::engine::config::{
    default_error_color, default_history_file, default_prompt, default_prompt_color,
    default_success_color, ShellConfig, ThemeConfig,
};
use shellce::engine::dispatcher::{CommandDispatcher, DispatchStep};
use shellce::engine::types::{CommandResult, PipelineCommand};
use shellce::engine::variables::VariableManager;

fn json(text: &str) -> serde_json::Value {
    serde_json::from_str(text).unwrap()
}

fn dispatcher() -> CommandDispatcher {
    CommandDispatcher::new(get_command_registry())
}

fn finished(step: DispatchStep) -> CommandResult {
    match step {
        DispatchStep::Finished(result) => result,
        DispatchStep::Suspended { request, .. } => panic!("suspended: {:?}", request),
    }
}

fn dispatch(line: &str, store: &mut VariableManager) -> CommandResult {
    finished(dispatcher().dispatch_command(line, store, &ShellConfig::default()))
}

fn message(result: &CommandResult) -> &str {
    result.output.as_ref().unwrap().message.as_deref().unwrap()
}

fn payload(result: &CommandResult) -> Option<serde_json::Value> {
    result.output.as_ref().unwrap().data.clone()
}

fn error(result: &CommandResult) -> &str {
    assert!(!result.success);
    assert!(result.output.is_none());
    result.error_message.as_deref().unwrap()
}

#[test]
fn remember_then_echo_in_two_calls() {
    let mut store = VariableManager::new();
    let first = dispatch("remember x = 5", &mut store);
    assert!(first.success);
    let second = dispatch("echo {x}", &mut store);
    assert!(second.success);
    assert_eq!(message(&second), "5");
    assert_eq!(payload(&second), Some(json("{\"output_text\":\"5\"}")));
}

#[test]
fn count_with_input_data_on_the_line() {
    let mut store = VariableManager::new();
    let result = dispatch("count --input-data [1,2,3]", &mut store);
    assert!(result.success);
    assert_eq!(payload(&result), Some(json("{\"count\":3}")));
    assert_eq!(message(&result), "Counted 3 items.");
}

#[test]
fn help_through_the_dispatcher() {
    let mut store = VariableManager::new();
    let result = dispatch("help ls", &mut store);
    assert!(result.success);
    assert!(message(&result).contains("ls <directory>"));
    let result = dispatch("help bogus", &mut store);
    assert_eq!(error(&result), "Command 'bogus' not found.");
}

#[test]
fn failing_second_stage_stops_the_pipeline() {
    let mut store = VariableManager::new();
    let result = dispatch("remember a = 1 | count oops | remember b = 2", &mut store);
    assert_eq!(
        error(&result),
        "Unknown argument: 'oops'. Usage: count [--input-data <json_string>]",
    );
    assert_eq!(store.get("a"), Some("1".to_string()));
    assert_eq!(store.get("b"), None);
}

#[test]
fn failure_is_the_same_with_and_without_later_stages() {
    let mut short_store = VariableManager::new();
    let short = dispatch("echo x | help nothing", &mut short_store);
    let mut long_store = VariableManager::new();
    let long = dispatch("echo x | help nothing | remember b = 2 | ping", &mut long_store);
    assert_eq!(error(&short), "Command 'nothing' not found.");
    assert_eq!(error(&long), error(&short));
    assert_eq!(long_store.get_all(), short_store.get_all());
    assert!(long_store.get_all().is_empty());
}

#[test]
fn payload_is_handed_to_the_next_stage() {
    let mut store = VariableManager::new();
    let result = dispatch("ping | echo got", &mut store);
    assert_eq!(message(&result), "got --input-data {\"response\":\"pong\"}");
    let result = dispatch("echo hi | count", &mut store);
    assert_eq!(payload(&result), Some(json("{\"count\":1}")));
    let result = dispatch("greet Ann | ping | count", &mut store);
    assert_eq!(payload(&result), Some(json("{\"count\":1}")));
}

#[test]
fn stage_without_payload_hands_nothing_on() {
    let mut store = VariableManager::new();
    let result = dispatch("ping | exit | echo after", &mut store);
    assert_eq!(message(&result), "after");
    let result = dispatch("exit", &mut store);
    assert_eq!(message(&result), "Exiting Shellce. Goodbye!");
    assert_eq!(payload(&result), None);
}

#[test]
fn later_stage_sees_the_bindings_of_an_earlier_one() {
    let mut store = VariableManager::new();
    let result = dispatch("remember k = v | list-vars", &mut store);
    assert_eq!(message(&result), "Remembered variables:\n  k = v\n");
    assert_eq!(payload(&result), Some(json("{\"k\":\"v\"}")));
}

#[test]
fn unknown_command_fails_at_once() {
    let mut store = VariableManager::new();
    let result = dispatch("remember a = 1 | nope x | remember b = 2", &mut store);
    assert_eq!(error(&result), "Unknown command in pipeline: 'nope'.");
    assert_eq!(store.get("a"), Some("1".to_string()));
    assert_eq!(store.get("b"), None);
    let result = dispatch("vars", &mut store);
    assert_eq!(error(&result), "Unknown command in pipeline: 'vars'.");
}

#[test]
fn command_that_is_not_registered_is_unknown() {
    let mut registry = CommandRegistry::new();
    registry.register(BuiltinCommand::Echo);
    let dispatcher = CommandDispatcher::new(registry);
    assert_eq!(dispatcher.registry().commands(), vec![BuiltinCommand::Echo]);
    let mut store = VariableManager::new();
    let config = ShellConfig::default();
    let result = finished(dispatcher.dispatch_command("echo a", &mut store, &config));
    assert_eq!(message(&result), "a");
    let result = finished(dispatcher.dispatch_command("ping", &mut store, &config));
    assert_eq!(error(&result), "Unknown command in pipeline: 'ping'.");
}

#[test]
fn disabled_command_fails_at_once() {
    let mut config = ShellConfig::default();
    config.enabled_commands = vec!["echo".to_string(), "remember".to_string()];
    let mut store = VariableManager::new();
    let dispatcher = dispatcher();
    let result = finished(dispatcher.dispatch_command("echo a", &mut store, &config));
    assert_eq!(message(&result), "a");
    let result =
        finished(dispatcher.dispatch_command("echo a | ping | remember x = 1", &mut store, &config));
    assert_eq!(error(&result), "Command 'ping' is disabled.");
    assert_eq!(store.get("x"), None);
    let result = finished(dispatcher.dispatch_command("nope", &mut store, &config));
    assert_eq!(error(&result), "Unknown command in pipeline: 'nope'.");
}

#[test]
fn parse_failures_become_failed_results() {
    let mut store = VariableManager::new();
    assert_eq!(error(&dispatch("", &mut store)), "Parsing error: No command entered.");
    assert_eq!(error(&dispatch("  | ", &mut store)), "Parsing error: No command entered.");
    assert_eq!(
        error(&dispatch("echo a | \"\"", &mut store)),
        "Parsing error: Empty command in pipeline.",
    );
    assert_eq!(
        error(&dispatch("remember a = 1 | echo {missing}", &mut store)),
        "Parsing error: Variable not found: {missing}",
    );
    assert_eq!(store.get("a"), None);
}

#[test]
fn alias_replaces_the_start_of_the_line_once() {
    let mut config = ShellConfig::default();
    config.aliases = vec![
        ("hi".to_string(), "greet".to_string()),
        ("h".to_string(), "help".to_string()),
        ("e".to_string(), "echo e".to_string()),
    ];
    let dispatcher = dispatcher();
    let mut store = VariableManager::new();
    let result = finished(dispatcher.dispatch_command("hi Bob", &mut store, &config));
    assert_eq!(message(&result), "Hello, Bob! Welcome to Shellce.");
    let result = finished(dispatcher.dispatch_command("h ping", &mut store, &config));
    assert!(message(&result).starts_with("Help for 'ping':"));
    let result = finished(dispatcher.dispatch_command("e x", &mut store, &config));
    assert_eq!(message(&result), "e x");
    let result = finished(dispatcher.dispatch_command("ping hi", &mut store, &config));
    assert_eq!(message(&result), "pong");
}

#[test]
fn resolve_alias_takes_the_first_that_fits() {
    let aliases = vec![
        ("l".to_string(), "ls".to_string()),
        ("ll".to_string(), "ls -l".to_string()),
    ];
    assert_eq!(CommandDispatcher::resolve_alias("ll /tmp", &aliases), "lsl /tmp");
    assert_eq!(CommandDispatcher::resolve_alias("echo ll", &aliases), "echo ll");
    assert_eq!(CommandDispatcher::resolve_alias("", &aliases), "");
    assert_eq!(CommandDispatcher::resolve_alias("x", &Vec::new()), "x");
    let any = vec![("".to_string(), "echo ".to_string())];
    assert_eq!(CommandDispatcher::resolve_alias("word", &any), "echo word");
}

#[test]
fn stage_arguments_append_the_payload() {
    let args = vec!["a".to_string()];
    assert_eq!(CommandDispatcher::stage_arguments(args.clone(), &None), args);
    let carried = Some(json("{\"b\": [1, \"two\"], \"a\": null}"));
    assert_eq!(
        CommandDispatcher::stage_arguments(args, &carried),
        vec![
            "a".to_string(),
            "--input-data".to_string(),
            "{\"a\":null,\"b\":[1,\"two\"]}".to_string(),
        ],
    );
}

#[test]
fn host_stage_suspends_the_pipeline() {
    let dispatcher = dispatcher();
    let config = ShellConfig::default();
    let mut store = VariableManager::new();
    let step = dispatcher.dispatch_command("remember a = 1 | sleep 2 | echo done", &mut store, &config);
    let remaining = match step {
        DispatchStep::Suspended { request: HostRequest::Sleep { seconds }, remaining } => {
            assert_eq!(seconds, 2);
            remaining
        },
        other => panic!("{:?}", other),
    };
    assert_eq!(store.get("a"), Some("1".to_string()));
    assert_eq!(remaining.len(), 1);
    assert_eq!(remaining[0].name, "echo");
    let result = finished(dispatcher.resume(remaining, SleepCommand::finish(2), &mut store, &config));
    assert_eq!(message(&result), "done --input-data {\"duration_seconds\":2}");
}

#[test]
fn sleep_gets_the_payload_as_its_first_argument() {
    let mut store = VariableManager::new();
    let result = dispatch("ping | sleep", &mut store);
    assert_eq!(
        error(&result),
        "Invalid duration: '--input-data'. Please provide a number of seconds.",
    );
}

#[test]
fn resume_after_the_last_stage_returns_its_result() {
    let dispatcher = dispatcher();
    let config = ShellConfig::default();
    let mut store = VariableManager::new();
    let step = dispatcher.dispatch_command("sleep 1", &mut store, &config);
    let remaining = match step {
        DispatchStep::Suspended { remaining, .. } => remaining,
        other => panic!("{:?}", other),
    };
    assert!(remaining.is_empty());
    let result = finished(dispatcher.resume(remaining, SleepCommand::finish(1), &mut store, &config));
    assert_eq!(message(&result), "Slept for 1 seconds.");
    assert_eq!(payload(&result), Some(json("{\"duration_seconds\":1}")));
}

#[test]
fn resume_with_a_failure_ends_the_pipeline() {
    let dispatcher = dispatcher();
    let config = ShellConfig::default();
    let mut store = VariableManager::new();
    let remaining = vec![
        PipelineCommand {
            name: "remember".to_string(),
            args: vec!["b".to_string(), "=".to_string(), "2".to_string()],
        },
    ];
    let failure = CommandResult::error("disk full".to_string());
    let result = finished(dispatcher.resume(remaining, failure, &mut store, &config));
    assert_eq!(error(&result), "disk full");
    assert_eq!(store.get("b"), None);
}

#[test]
fn walk_of_no_stages_reports_a_plain_success() {
    let dispatcher = dispatcher();
    let config = ShellConfig::default();
    let mut store = VariableManager::new();
    let result = finished(dispatcher.walk(Vec::new(), Some(json("[1]")), &mut store, &config));
    assert!(result.success);
    assert_eq!(message(&result), "Pipeline executed successfully.");
    assert_eq!(payload(&result), Some(json("[1]")));
}

#[test]
fn permit_checks_registry_and_configuration() {
    let dispatcher = dispatcher();
    let mut config = ShellConfig::default();
    assert_eq!(dispatcher.permit("echo", &config).unwrap(), BuiltinCommand::Echo);
    assert_eq!(
        error(&dispatcher.permit("nope", &config).unwrap_err()),
        "Unknown command in pipeline: 'nope'.",
    );
    config.enabled_commands = vec!["ping".to_string()];
    assert_eq!(dispatcher.permit("ping", &config).unwrap(), BuiltinCommand::Ping);
    assert_eq!(
        error(&dispatcher.permit("echo", &config).unwrap_err()),
        "Command 'echo' is disabled.",
    );
}

#[test]
fn configuration_defaults() {
    let config = ShellConfig::default();
    assert_eq!(config.prompt, "shellflow> ");
    assert!(config.aliases.is_empty());
    assert!(config.enabled_commands.is_empty());
    assert_eq!(config.history_file, "shellflow_history.txt");
    assert_eq!(config.theme.prompt_color, "green");
    assert_eq!(config.theme.success_color, "cyan");
    assert_eq!(config.theme.error_color, "red");
    let theme = ThemeConfig::default();
    assert_eq!(theme.prompt_color, default_prompt_color());
    assert_eq!(theme.success_color, default_success_color());
    assert_eq!(theme.error_color, default_error_color());
    assert_eq!(default_prompt(), "shellflow> ");
    assert_eq!(default_history_file(), "shellflow_history.txt");
}
