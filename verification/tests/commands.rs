use shellce::commands::command::{Command, Execution, HostRequest};
use shellce::commands::count::CountCommand;
use shellce::commands::echo::EchoCommand;
use shellce::commands::exit::ExitCommand;
use shellce::commands::fs::FsCommand;
use shellce::commands::greet::GreetCommand;
use shellce::commands::help::HelpCommand;
use shellce::commands::list_vars::ListVarsCommand;
use shellce::commands::ping::PingCommand;
use shellce::commands::remember::RememberCommand;
use shellce::commands::save_load::{memory_path, LoadMemoryCommand, SaveMemoryCommand};
use shellce::commands::sleep::SleepCommand;
use shellce::commands::source::{ScriptStep, ScriptTally, SourceCommand};
use shellce::commands::{get_command_registry, BuiltinCommand, CommandRegistry};
use shellce::engine::config::ShellConfig;
use shellce::engine::dispatcher::CommandDispatcher;
use shellce::engine::types::CommandResult;
use shellce::engine::variables::VariableManager;

fn args(words: &[&str]) -> Vec<String> {
    words.iter().map(|word| word.to_string()).collect()
}

fn json(text: &str) -> serde_json::Value {
    serde_json::from_str(text).unwrap()
}

fn run(command: &dyn Command, words: &[&str], store: &mut VariableManager) -> Execution {
    command.execute(args(words), store, &ShellConfig::default(), &get_command_registry())
}

fn finished(execution: Execution) -> CommandResult {
    match execution {
        Execution::Finished(result) => result,
        Execution::Deferred(request) => panic!("deferred: {:?}", request),
    }
}

fn deferred(execution: Execution) -> HostRequest {
    match execution {
        Execution::Deferred(request) => request,
        Execution::Finished(result) => panic!("finished: {:?}", result),
    }
}

fn expect_success(result: &CommandResult, message: &str, data: Option<serde_json::Value>) {
    assert!(result.success);
    assert_eq!(result.error_message, None);
    let output = result.output.as_ref().unwrap();
    assert_eq!(output.message.as_deref(), Some(message));
    assert_eq!(output.data, data);
}

fn expect_failure(result: &CommandResult, message: &str) {
    assert!(!result.success);
    assert!(result.output.is_none());
    assert_eq!(result.error_message.as_deref(), Some(message));
}

#[test]
fn result_constructors_fill_one_side() {
    let ok = CommandResult::success(Some("done".to_string()), Some(json("[1]")));
    expect_success(&ok, "done", Some(json("[1]")));
    let bare = CommandResult::success(None, None);
    assert!(bare.success);
    assert!(bare.output.as_ref().unwrap().message.is_none());
    assert!(bare.output.as_ref().unwrap().data.is_none());
    expect_failure(&CommandResult::error("bad".to_string()), "bad");
}

#[test]
fn count_of_array_input() {
    let mut store = VariableManager::new();
    let result = finished(run(&CountCommand, &["--input-data", "[1,2,3]"], &mut store));
    expect_success(&result, "Counted 3 items.", Some(json("{\"count\":3}")));
}

#[test]
fn count_without_input_is_zero() {
    let mut store = VariableManager::new();
    let result = finished(run(&CountCommand, &[], &mut store));
    expect_success(&result, "Counted 0 items.", Some(json("{\"count\":0}")));
}

#[test]
fn count_of_other_values_is_one() {
    let mut store = VariableManager::new();
    for input in ["{\"a\":[1,2]}", "\"text\"", "17", "null", "true", "1.5"] {
        let result = finished(run(&CountCommand, &["--input-data", input], &mut store));
        expect_success(&result, "Counted 1 items.", Some(json("{\"count\":1}")));
    }
    let result = finished(run(&CountCommand, &["--input-data", "[]"], &mut store));
    expect_success(&result, "Counted 0 items.", Some(json("{\"count\":0}")));
}

#[test]
fn count_takes_the_last_input() {
    let mut store = VariableManager::new();
    let result = finished(
        run(&CountCommand, &["--input-data", "[1]", "--input-data", "[1,2,3,4]"], &mut store),
    );
    expect_success(&result, "Counted 4 items.", Some(json("{\"count\":4}")));
}

#[test]
fn count_rejects_what_it_does_not_know() {
    let mut store = VariableManager::new();
    let result = finished(run(&CountCommand, &["extra"], &mut store));
    expect_failure(
        &result,
        "Unknown argument: 'extra'. Usage: count [--input-data <json_string>]",
    );
    let result = finished(run(&CountCommand, &["--input-data"], &mut store));
    expect_failure(&result, "Missing JSON string after --input-data.");
    let result = finished(run(&CountCommand, &["--input-data", "[1,"], &mut store));
    let reason = serde_json::from_str::<serde_json::Value>("[1,").unwrap_err().to_string();
    expect_failure(&result, &format!("Invalid input data: {}", reason));
}

#[test]
fn count_parts_agree_with_the_whole() {
    let read = CountCommand::read_input(&args(&["--input-data", "[true,false]"])).unwrap();
    assert_eq!(read, Some(json("[true,false]")));
    assert_eq!(CountCommand::item_count(&read), 2);
    assert_eq!(CountCommand::item_count(&None), 0);
    assert_eq!(CountCommand::item_count(&Some(json("{}"))), 1);
    let report = CountCommand::report(12);
    expect_success(&report, "Counted 12 items.", Some(json("{\"count\":12}")));
}

#[test]
fn echo_joins_its_arguments() {
    let mut store = VariableManager::new();
    let result = finished(run(&EchoCommand, &["a", "b c", "d"], &mut store));
    expect_success(&result, "a b c d", Some(json("{\"output_text\":\"a b c d\"}")));
    let result = finished(run(&EchoCommand, &[], &mut store));
    expect_success(&result, "", Some(json("{\"output_text\":\"\"}")));
}

#[test]
fn greet_with_and_without_a_name() {
    let mut store = VariableManager::new();
    let result = finished(run(&GreetCommand, &[], &mut store));
    expect_success(
        &result,
        "Hello, World! Welcome to Shellce.",
        Some(json("{\"greeting\":\"Hello, World! Welcome to Shellce.\",\"name\":\"World\"}")),
    );
    let result = finished(run(&GreetCommand, &["Ada", "Lovelace"], &mut store));
    expect_success(
        &result,
        "Hello, Ada Lovelace! Welcome to Shellce.",
        Some(
            json(
                "{\"greeting\":\"Hello, Ada Lovelace! Welcome to Shellce.\",\"name\":\"Ada Lovelace\"}",
            ),
        ),
    );
}

#[test]
fn ping_answers_pong() {
    let mut store = VariableManager::new();
    let result = finished(run(&PingCommand, &["ignored"], &mut store));
    expect_success(&result, "pong", Some(json("{\"response\":\"pong\"}")));
}

#[test]
fn exit_says_goodbye_without_payload() {
    let mut store = VariableManager::new();
    let result = finished(run(&ExitCommand, &[], &mut store));
    expect_success(&result, "Exiting Shellce. Goodbye!", None);
}

#[test]
fn remember_binds_key_to_value() {
    let mut store = VariableManager::new();
    let result = finished(run(&RememberCommand, &["x", "=", "5"], &mut store));
    expect_success(&result, "Remembered: x = 5", Some(json("{\"key\":\"x\",\"value\":\"5\"}")));
    assert_eq!(store.get("x"), Some("5".to_string()));
}

#[test]
fn remember_joins_the_words_of_key_and_value() {
    let mut store = VariableManager::new();
    let result = finished(
        run(&RememberCommand, &["my", "key", "=", "hello", "big", "=", "world"], &mut store),
    );
    expect_success(
        &result,
        "Remembered: mykey = hello big world",
        Some(json("{\"key\":\"mykey\",\"value\":\"hello big world\"}")),
    );
    assert_eq!(store.get("mykey"), Some("hello big world".to_string()));
}

#[test]
fn remember_needs_key_equals_and_value() {
    for words in [&["x"][..], &["x", "="][..], &["=", "5"][..], &["x", "5"][..], &[][..], &["="][..]] {
        let mut store = VariableManager::new();
        let result = finished(run(&RememberCommand, words, &mut store));
        expect_failure(&result, "Invalid usage. remember <key> = <value>");
        assert!(store.get_all().is_empty());
    }
}

#[test]
fn list_vars_of_an_empty_store() {
    let mut store = VariableManager::new();
    let result = finished(run(&ListVarsCommand, &[], &mut store));
    expect_success(&result, "No variables currently remembered.", Some(json("{}")));
}

#[test]
fn list_vars_lists_in_store_order() {
    let mut store = VariableManager::new();
    store.set("y".to_string(), "2".to_string());
    store.set("x".to_string(), "one two".to_string());
    let result = finished(run(&ListVarsCommand, &[], &mut store));
    expect_success(
        &result,
        "Remembered variables:\n  y = 2\n  x = one two\n",
        Some(json("{\"x\":\"one two\",\"y\":\"2\"}")),
    );
    assert_eq!(store.keys(), vec!["y".to_string(), "x".to_string()]);
}

#[test]
fn sleep_asks_the_host_to_wait() {
    let mut store = VariableManager::new();
    match deferred(run(&SleepCommand, &["3"], &mut store)) {
        HostRequest::Sleep { seconds } => assert_eq!(seconds, 3),
        other => panic!("{:?}", other),
    }
    let result = SleepCommand::finish(3);
    expect_success(&result, "Slept for 3 seconds.", Some(json("{\"duration_seconds\":3}")));
}

#[test]
fn sleep_rejects_bad_durations() {
    let mut store = VariableManager::new();
    let result = finished(run(&SleepCommand, &[], &mut store));
    expect_failure(&result, "Invalid usage. sleep <seconds>");
    let result = finished(run(&SleepCommand, &["soon"], &mut store));
    expect_failure(&result, "Invalid duration: 'soon'. Please provide a number of seconds.");
    let result = finished(run(&SleepCommand, &["-1"], &mut store));
    expect_failure(&result, "Invalid duration: '-1'. Please provide a number of seconds.");
}

#[test]
fn ls_asks_the_host_for_the_directory() {
    let mut store = VariableManager::new();
    let result = finished(run(&FsCommand, &[], &mut store));
    expect_failure(&result, "No directory specified");
    match deferred(run(&FsCommand, &["/tmp", "more"], &mut store)) {
        HostRequest::ListDirectory { path } => assert_eq!(path, "/tmp"),
        other => panic!("{:?}", other),
    }
    expect_success(&FsCommand::finish(true), "Listed files", None);
    expect_failure(&FsCommand::finish(false), "Failed to read directory");
    assert_eq!(
        FsCommand::listing("/tmp", &args(&["a.txt", "b"])),
        "Contents of /tmp:\n - a.txt\n - b\n",
    );
    assert_eq!(FsCommand::listing(".", &Vec::new()), "Contents of .:\n");
}

#[test]
fn memory_path_defaults() {
    assert_eq!(memory_path(&Vec::new()), "shellce_memory.json");
    assert_eq!(memory_path(&args(&["vars.json", "x"])), "vars.json");
}

#[test]
fn save_memory_hands_the_text_to_the_host() {
    let mut store = VariableManager::new();
    store.set("b".to_string(), "2".to_string());
    store.set("a".to_string(), "1".to_string());
    match deferred(run(&SaveMemoryCommand, &["out.json"], &mut store)) {
        HostRequest::SaveMemory { path, contents } => {
            assert_eq!(path, "out.json");
            assert_eq!(contents, "{\n  \"a\": \"1\",\n  \"b\": \"2\"\n}");
        },
        other => panic!("{:?}", other),
    }
    expect_success(
        &SaveMemoryCommand::finish("out dir/v.json", true),
        "Variables saved to \"out dir/v.json\"",
        None,
    );
    expect_failure(
        &SaveMemoryCommand::finish("a\"b", false),
        "Failed to save memory: Failed to write memory file: \"a\\\"b\"",
    );
}

#[test]
fn save_memory_request_for_a_failed_encoding() {
    let execution = SaveMemoryCommand::request("p".to_string(), Err("reason".to_string()));
    expect_failure(
        &finished(execution),
        "Failed to save memory: Failed to serialize variable store to JSON",
    );
    match deferred(SaveMemoryCommand::request("p".to_string(), Ok("{}".to_string()))) {
        HostRequest::SaveMemory { path, contents } => {
            assert_eq!(path, "p");
            assert_eq!(contents, "{}");
        },
        other => panic!("{:?}", other),
    }
}

#[test]
fn load_memory_replaces_the_store() {
    let mut store = VariableManager::new();
    store.set("old".to_string(), "1".to_string());
    match deferred(run(&LoadMemoryCommand, &[], &mut store)) {
        HostRequest::LoadMemory { path } => assert_eq!(path, "shellce_memory.json"),
        other => panic!("{:?}", other),
    }
    let text = "{\"x\": \"1\", \"a\": \"two\"}".to_string();
    let result = LoadMemoryCommand::finish("m.json", Some(text), &mut store);
    expect_success(&result, "Variables loaded from \"m.json\"", None);
    assert_eq!(store.get("old"), None);
    assert_eq!(store.get("x"), Some("1".to_string()));
    assert_eq!(store.get("a"), Some("two".to_string()));
    assert_eq!(store.keys().len(), 2);
}

#[test]
fn load_memory_failures_leave_the_store_alone() {
    let mut store = VariableManager::new();
    store.set("keep".to_string(), "1".to_string());
    let result = LoadMemoryCommand::finish("m.json", None, &mut store);
    expect_failure(&result, "Failed to load memory: Failed to read memory file: \"m.json\"");
    let result = LoadMemoryCommand::finish("m.json", Some("[1,2]".to_string()), &mut store);
    expect_failure(&result, "Failed to load memory: Failed to parse memory file: \"m.json\"");
    let result = LoadMemoryCommand::install("m.json", Some(Err("no".to_string())), &mut store);
    expect_failure(&result, "Failed to load memory: Failed to parse memory file: \"m.json\"");
    assert_eq!(store.get("keep"), Some("1".to_string()));
    assert_eq!(store.keys().len(), 1);
}

#[test]
fn save_then_load_restores_the_bindings() {
    let mut store = VariableManager::new();
    for (name, value) in [("x", "5"), ("quote", "a \"b\" c"), ("empty", ""), ("uni", "\u{e9}\n\t{x}")] {
        store.set(name.to_string(), value.to_string());
    }
    let contents = match deferred(run(&SaveMemoryCommand, &[], &mut store)) {
        HostRequest::SaveMemory { contents, .. } => contents,
        other => panic!("{:?}", other),
    };
    let mut restored = VariableManager::new();
    restored.set("stale".to_string(), "1".to_string());
    let result = LoadMemoryCommand::finish("m.json", Some(contents), &mut restored);
    assert!(result.success);
    let mut expected = store.get_all();
    expected.sort();
    let mut found = restored.get_all();
    found.sort();
    assert_eq!(found, expected);
}

#[test]
fn source_asks_the_host_to_run_the_script() {
    let mut store = VariableManager::new();
    let result = finished(run(&SourceCommand, &[], &mut store));
    expect_failure(&result, "Invalid usage. source <file_path>");
    match deferred(run(&SourceCommand, &["setup.sf"], &mut store)) {
        HostRequest::RunScript { path } => assert_eq!(path, "setup.sf"),
        other => panic!("{:?}", other),
    }
}

#[test]
fn script_lines_skip_blanks_and_comments() {
    assert_eq!(SourceCommand::script_line("  echo hi  "), Some("echo hi".to_string()));
    assert_eq!(SourceCommand::script_line(""), None);
    assert_eq!(SourceCommand::script_line("   \t"), None);
    assert_eq!(SourceCommand::script_line("# comment"), None);
    assert_eq!(SourceCommand::script_line("   #indented"), None);
    assert_eq!(SourceCommand::script_line("echo # not a comment"), Some("echo # not a comment".to_string()));
}

#[test]
fn script_tally_counts_both_outcomes() {
    let mut tally = ScriptTally::new();
    assert_eq!((tally.succeeded(), tally.failed()), (0, 0));
    for success in [true, false, true] {
        assert!(tally.has_room());
        tally.record(success);
    }
    assert_eq!((tally.succeeded(), tally.failed()), (2, 1));
    let result = SourceCommand::finish("a.sf", &tally);
    expect_failure(
        &result,
        "Script \"a.sf\" finished. Executed 3 commands: 2 successful, 1 failed.",
    );
}

#[test]
fn script_without_failure_succeeds() {
    let mut tally = ScriptTally::new();
    tally.record(true);
    let result = SourceCommand::finish("dir/a b.sf", &tally);
    expect_success(
        &result,
        "Script \"dir/a b.sf\" finished. Executed 1 commands: 1 successful, 0 failed.",
        None,
    );
    let none = SourceCommand::finish("e", &ScriptTally::new());
    expect_success(&none, "Script \"e\" finished. Executed 0 commands: 0 successful, 0 failed.", None);
    let failed = SourceCommand::open_failed("No such file or directory (os error 2)");
    expect_failure(&failed, "Failed to open script file: No such file or directory (os error 2)");
}

#[test]
fn help_for_one_command() {
    let mut store = VariableManager::new();
    let result = finished(run(&HelpCommand, &["ls"], &mut store));
    assert!(result.success);
    let output = result.output.as_ref().unwrap();
    assert!(output.message.as_ref().unwrap().contains(FsCommand.usage()));
    assert_eq!(
        output.message.as_deref(),
        Some("Help for 'ls':\n  Description: Lists files in a directory.\n  Usage:       ls <directory>\n"),
    );
    assert_eq!(
        output.data,
        Some(json("{\"ls\":{\"description\":\"Lists files in a directory.\",\"usage\":\"ls <directory>\"}}")),
    );
}

#[test]
fn help_for_an_unknown_command_fails() {
    let mut store = VariableManager::new();
    let result = finished(run(&HelpCommand, &["bogus"], &mut store));
    expect_failure(&result, "Command 'bogus' not found.");
}

#[test]
fn help_for_a_command_that_is_not_registered_fails() {
    let mut registry = CommandRegistry::new();
    registry.register(BuiltinCommand::Help);
    let mut store = VariableManager::new();
    let execution =
        HelpCommand.execute(args(&["ls"]), &mut store, &ShellConfig::default(), &registry);
    expect_failure(&finished(execution), "Command 'ls' not found.");
}

#[test]
fn help_overview_is_sorted_by_name() {
    let mut registry = CommandRegistry::new();
    registry.register(BuiltinCommand::Ping);
    registry.register(BuiltinCommand::Echo);
    registry.register(BuiltinCommand::LoadMemory);
    registry.register(BuiltinCommand::Echo);
    let result = HelpCommand::list_all(&registry);
    expect_success(
        &result,
        "Available commands:\n  echo            - Prints the given text to the console, resolving variables.\n  load-memory     - Loads variables from a file, overwriting current ones.\n  ping            - Responds with 'pong'.\n\nType 'help <command_name>' for more details.",
        Some(
            json(
                "{\"echo\":{\"description\":\"Prints the given text to the console, resolving variables.\",\"usage\":\"echo [text with {variables}]\"},\"load-memory\":{\"description\":\"Loads variables from a file, overwriting current ones.\",\"usage\":\"load-memory [path]\"},\"ping\":{\"description\":\"Responds with 'pong'.\",\"usage\":\"ping\"}}",
            ),
        ),
    );
}

#[test]
fn help_overview_of_the_full_registry() {
    let mut store = VariableManager::new();
    let result = finished(run(&HelpCommand, &[], &mut store));
    let message = result.output.as_ref().unwrap().message.clone().unwrap();
    let lines: Vec<&str> = message.lines().collect();
    assert_eq!(lines.len(), 16);
    assert_eq!(lines[0], "Available commands:");
    let mut names: Vec<String> = Vec::new();
    for line in &lines[1..14] {
        assert!(line.starts_with("  "));
        assert_eq!(&line[17..20], " - ");
        names.push(line[2..17].trim_end().to_string());
    }
    let mut sorted = names.clone();
    sorted.sort();
    assert_eq!(names, sorted);
    assert_eq!(lines[14], "");
    assert_eq!(lines[15], "Type 'help <command_name>' for more details.");
    let data = result.output.as_ref().unwrap().data.clone().unwrap();
    assert_eq!(data.as_object().unwrap().len(), 13);
}

#[test]
fn registry_holds_every_command_under_its_name() {
    let registry = get_command_registry();
    let listed = registry.commands();
    assert_eq!(listed, BuiltinCommand::every());
    assert_eq!(listed.len(), 13);
    for command in listed {
        assert!(registry.contains(command));
        assert_eq!(registry.get(command.name()), Some(command));
        assert_eq!(BuiltinCommand::from_name(command.name()), Some(command));
        assert!(!command.description().is_empty());
        assert!(command.usage().starts_with(command.name()));
    }
    assert_eq!(registry.get("vars"), None);
    assert_eq!(registry.get(""), None);
    assert_eq!(registry.get("Echo"), None);
}

#[test]
fn registry_registers_each_command_once() {
    let mut registry = CommandRegistry::new();
    assert_eq!(registry.get("echo"), None);
    assert!(registry.commands().is_empty());
    registry.register(BuiltinCommand::Echo);
    registry.register(BuiltinCommand::Count);
    registry.register(BuiltinCommand::Echo);
    assert_eq!(registry.commands(), vec![BuiltinCommand::Count, BuiltinCommand::Echo]);
    assert_eq!(registry.get("echo"), Some(BuiltinCommand::Echo));
    assert_eq!(registry.get("ping"), None);
}

#[test]
fn command_names() {
    assert_eq!(CountCommand.name(), "count");
    assert_eq!(EchoCommand.name(), "echo");
    assert_eq!(ExitCommand.name(), "exit");
    assert_eq!(FsCommand.name(), "ls");
    assert_eq!(GreetCommand.name(), "greet");
    assert_eq!(HelpCommand.name(), "help");
    assert_eq!(ListVarsCommand.name(), "list-vars");
    assert_eq!(LoadMemoryCommand.name(), "load-memory");
    assert_eq!(PingCommand.name(), "ping");
    assert_eq!(RememberCommand.name(), "remember");
    assert_eq!(SaveMemoryCommand.name(), "save-memory");
    assert_eq!(SleepCommand.name(), "sleep");
    assert_eq!(SourceCommand.name(), "source");
    assert_eq!(RememberCommand.usage(), "remember <key> = <value>");
    assert_eq!(HelpCommand.usage(), "help [command_name]");
    assert_eq!(PingCommand.description(), "Responds with 'pong'.");
}

#[test]
fn builtin_runs_as_its_command() {
    let mut store = VariableManager::new();
    let result = finished(run(&BuiltinCommand::Remember, &["k", "=", "v"], &mut store));
    expect_success(&result, "Remembered: k = v", Some(json("{\"key\":\"k\",\"value\":\"v\"}")));
    assert_eq!(store.get("k"), Some("v".to_string()));
    let result = finished(run(&BuiltinCommand::Echo, &["{k}"], &mut store));
    expect_success(&result, "{k}", Some(json("{\"output_text\":\"{k}\"}")));
}

fn script(lines: &[Option<&str>]) -> Vec<Option<String>> {
    lines.iter().map(|line| line.map(|text| text.to_string())).collect()
}

fn script_result(step: ScriptStep) -> CommandResult {
    match step {
        ScriptStep::Finished(result) => result,
        ScriptStep::Suspended { request, .. } => panic!("suspended: {:?}", request),
    }
}

#[test]
fn script_runs_every_line_whatever_fails() {
    let dispatcher = CommandDispatcher::new(get_command_registry());
    let config = ShellConfig::default();
    let mut store = VariableManager::new();
    let lines = script(&[
        Some("# set up"),
        Some(""),
        Some("  remember a = 1  "),
        Some("nope"),
        Some("echo {a} | count oops | remember never = 1"),
        Some("   # another comment"),
        Some("remember b = {a}{a}"),
        None,
    ]);
    let step = SourceCommand::run("s.sf".to_string(), lines, &dispatcher, &mut store, &config);
    expect_failure(
        &script_result(step),
        "Script \"s.sf\" finished. Executed 5 commands: 2 successful, 3 failed.",
    );
    assert_eq!(store.get("a"), Some("1".to_string()));
    assert_eq!(store.get("b"), Some("11".to_string()));
    assert_eq!(store.get("never"), None);
}

#[test]
fn script_without_commands_succeeds() {
    let dispatcher = CommandDispatcher::new(get_command_registry());
    let config = ShellConfig::default();
    let mut store = VariableManager::new();
    let step = SourceCommand::run(
        "empty.sf".to_string(),
        script(&[Some("# nothing"), Some("  ")]),
        &dispatcher,
        &mut store,
        &config,
    );
    expect_success(
        &script_result(step),
        "Script \"empty.sf\" finished. Executed 0 commands: 0 successful, 0 failed.",
        None,
    );
}

#[test]
fn script_suspends_where_a_line_needs_the_host() {
    let dispatcher = CommandDispatcher::new(get_command_registry());
    let config = ShellConfig::default();
    let mut store = VariableManager::new();
    let lines = script(&[
        Some("remember a = 1"),
        Some("sleep 2 | remember b = 2"),
        Some("ls"),
        Some("ls /tmp"),
        Some("ping"),
    ]);
    let step = SourceCommand::run("s.sf".to_string(), lines, &dispatcher, &mut store, &config);
    let (remaining, run) = match step {
        ScriptStep::Suspended { request: HostRequest::Sleep { seconds }, remaining, run } => {
            assert_eq!(seconds, 2);
            (remaining, run)
        },
        other => panic!("{:?}", other),
    };
    assert_eq!(remaining.len(), 1);
    assert_eq!(store.get("b"), None);
    let step = SourceCommand::resume(
        run,
        remaining,
        SleepCommand::finish(2),
        &dispatcher,
        &mut store,
        &config,
    );
    assert_eq!(store.get("b"), Some("2 --input-data {\"duration_seconds\":2}".to_string()));
    let (remaining, run) = match step {
        ScriptStep::Suspended { request, remaining, run } => {
            assert!(matches!(request, HostRequest::ListDirectory { .. }));
            (remaining, run)
        },
        other => panic!("{:?}", other),
    };
    assert!(remaining.is_empty());
    let step = SourceCommand::resume(
        run,
        remaining,
        FsCommand::finish(true),
        &dispatcher,
        &mut store,
        &config,
    );
    expect_failure(
        &script_result(step),
        "Script \"s.sf\" finished. Executed 5 commands: 4 successful, 1 failed.",
    );
}
