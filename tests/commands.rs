use shell::commands::builtins::{
    AllCommand, BagagaCommand, BuiltinCommand, CdCommand, EchoCommand, ExitCommand, HelpCommand, HelpOutcome,
    TypeCommand, DebugPrintCommand,
};
use shell::commands::external::ExternalCommand;
use shell::commands::registry::{path_directories, CommandsRegistry};
use shell::commands::{Command, RegisteredCommand};
use shell::dispatch::{error_report, plan_command, suggest, suggestion_threshold};
use shell::text::decimal;
use shell::ShellError;

fn strings(v: &[&str]) -> Vec<String> {
    v.iter().map(|s| s.to_string()).collect()
}

fn sample_registry() -> CommandsRegistry {
    let mut reg = CommandsRegistry::with_builtins(false);
    assert!(reg.register_external("ls".to_string(), "/bin/ls".to_string()));
    assert!(reg.register_external("man".to_string(), "/usr/bin/man".to_string()));
    assert!(!reg.register_external("ls".to_string(), "/usr/bin/ls".to_string()));
    assert!(reg.register_external("echo".to_string(), "/bin/echo".to_string()));
    reg.populate_registered_names();
    reg
}

#[test]
fn registered_names_are_sorted_and_distinct() {
    let reg = sample_registry();
    assert_eq!(
        reg.registered_names().to_vec(),
        strings(&["cd", "echo", "exit", "help", "ls", "man", "pwd", "type"])
    );
}

#[test]
fn lookup_prefers_builtins() {
    let reg = sample_registry();
    match reg.get_command("echo") {
        Some(RegisteredCommand::Builtin(b)) => assert_eq!(b, BuiltinCommand::Echo(EchoCommand)),
        other => panic!("unexpected lookup: {:?}", other),
    }
    match reg.get_command("ls") {
        Some(RegisteredCommand::External(e)) => {
            assert_eq!(e.name(), "ls");
            assert_eq!(e.path(), "/bin/ls");
        }
        other => panic!("unexpected lookup: {:?}", other),
    }
    assert!(reg.get_command("nope").is_none());
}

#[test]
fn debug_builtins_are_optional() {
    let reg = CommandsRegistry::with_builtins(true);
    assert!(reg.get_command("dprint").is_some());
    assert!(reg.get_command("bagaga").is_some());
    let reg = CommandsRegistry::with_builtins(false);
    assert!(reg.get_command("dprint").is_none());
}

#[test]
fn suggestion_for_mistyped_echo() {
    let mut reg = CommandsRegistry::new();
    reg.register_builtin(BuiltinCommand::Echo(EchoCommand));
    reg.populate_registered_names();
    assert_eq!(suggestion_threshold("ehco"), 2);
    assert_eq!(suggest("ehco", reg.registered_names()), Some("echo"));
}

#[test]
fn suggestion_threshold_depends_on_length() {
    assert_eq!(suggestion_threshold("cdx"), 1);
    assert_eq!(suggestion_threshold("abcd"), 2);
    let names = strings(&["pwd"]);
    assert_eq!(suggest("pdw", &names), None);
    assert_eq!(suggest("pwx", &names), Some("pwd"));
}

#[test]
fn plan_resolves_command_and_redirections() {
    let reg = sample_registry();
    let inv = plan_command(&reg, "ls -l 'my dir' > out.txt").unwrap();
    match &inv.command {
        RegisteredCommand::External(e) => assert_eq!(e.path(), "/bin/ls"),
        other => panic!("unexpected command: {:?}", other),
    }
    assert_eq!(inv.args, strings(&["-l", "my dir"]));
    assert_eq!(inv.stdout, Some("out.txt".to_string()));
    assert_eq!(inv.stderr, None);
}

#[test]
fn plan_reports_each_failure() {
    let reg = sample_registry();
    assert!(matches!(plan_command(&reg, "   "), Err(ShellError::EmptyInput)));
    assert!(matches!(plan_command(&reg, "> out"), Err(ShellError::EmptyInput)));
    assert!(matches!(plan_command(&reg, "ls 2>"), Err(ShellError::ParsingFail(_))));
    match plan_command(&reg, "ehco hi") {
        Err(ShellError::CommandNotFound { command_name }) => assert_eq!(command_name, "ehco"),
        other => panic!("unexpected plan: {:?}", other),
    }
}

#[test]
fn error_report_lines() {
    let reg = sample_registry();
    let names = reg.registered_names();
    let err = ShellError::CommandNotFound { command_name: "ehco".to_string() };
    assert_eq!(
        error_report(&err, names),
        strings(&["ehco: command not found", "did you mean \"echo\"?"])
    );
    let err = ShellError::CommandNotFound { command_name: "zzzzzz".to_string() };
    assert_eq!(error_report(&err, names), strings(&["zzzzzz: command not found"]));
    assert!(error_report(&ShellError::EmptyInput, names).is_empty());
    let err = ShellError::ParsingFail("bad".to_string());
    assert_eq!(error_report(&err, names), strings(&["\x1b[31mbad\x1b[0m"]));
}

#[test]
fn error_messages() {
    assert_eq!(ShellError::EmptyInput.message(), "empty input");
    assert_eq!(
        ShellError::CommandExecutionFail("boom".to_string()).message(),
        "\x1b[31mboom\x1b[0m"
    );
}

#[test]
fn command_names_and_type_messages() {
    assert_eq!(CdCommand.get_name(), "cd");
    assert_eq!(TypeCommand.get_type_message(), "type is a shell builtin");
    let e = ExternalCommand::new("ls".to_string(), "/bin/ls".to_string());
    assert_eq!(e.get_type_message(), "ls is /bin/ls");
}

#[test]
fn echo_joins_arguments() {
    assert_eq!(EchoCommand::text(&strings(&["a", "b c", "d"])), "a b c d");
    assert_eq!(EchoCommand::text(&[]), "");
}

#[test]
fn cd_target_choice() {
    assert_eq!(CdCommand::target(&strings(&["/tmp"]), Some("/home/u".to_string())), "/tmp");
    assert_eq!(CdCommand::target(&[], Some("/home/u".to_string())), "/home/u");
    assert_eq!(CdCommand::target(&[], None), "/");
}

#[test]
fn exit_status_parsing() {
    assert_eq!(ExitCommand::status(&[]).unwrap(), 0);
    assert_eq!(ExitCommand::status(&strings(&["42"])).unwrap(), 42);
    assert_eq!(ExitCommand::status(&strings(&["-7"])).unwrap(), -7);
    assert_eq!(ExitCommand::status(&strings(&["+3"])).unwrap(), 3);
    match ExitCommand::status(&strings(&["abc"])) {
        Err(ShellError::CommandExecutionFail(m)) => assert_eq!(m, "invalid digit found in string"),
        other => panic!("unexpected status: {:?}", other),
    }
    assert!(ExitCommand::status(&strings(&["99999999999"])).is_err());
}

#[test]
fn type_reports() {
    let reg = sample_registry();
    assert_eq!(TypeCommand::report(&reg, &strings(&["cd"])).unwrap(), "cd is a shell builtin");
    assert_eq!(TypeCommand::report(&reg, &strings(&["ls"])).unwrap(), "ls is /bin/ls");
    assert_eq!(TypeCommand::report(&reg, &strings(&["qq"])).unwrap(), "qq: not found");
    assert!(matches!(
        TypeCommand::report(&reg, &[]),
        Err(ShellError::CommandExecutionFail(_))
    ));
}

#[test]
fn help_outcomes() {
    let reg = sample_registry();
    match HelpCommand::outcome(&reg, &strings(&["pwd"])) {
        Ok(HelpOutcome::Text(t)) => assert_eq!(t, "usage: pwd\nprints the current working directory."),
        other => panic!("unexpected help: {:?}", other),
    }
    match HelpCommand::outcome(&reg, &strings(&["ls"])) {
        Ok(HelpOutcome::Manual(RegisteredCommand::External(m), topic)) => {
            assert_eq!(m.path(), "/usr/bin/man");
            assert_eq!(topic, "ls");
        }
        other => panic!("unexpected help: {:?}", other),
    }
    assert!(matches!(
        HelpCommand::outcome(&reg, &strings(&["qq"])),
        Err(ShellError::CommandNotFound { .. })
    ));
    let mut bare = CommandsRegistry::new();
    bare.register_external("ls".to_string(), "/bin/ls".to_string());
    assert!(matches!(
        HelpCommand::outcome(&bare, &strings(&["ls"])),
        Err(ShellError::CommandExecutionFail(_))
    ));
}

#[test]
fn dprint_target_lookup() {
    let reg = sample_registry();
    assert!(DebugPrintCommand::target(&reg, &strings(&["man"])).is_ok());
    assert!(DebugPrintCommand::target(&reg, &[]).is_err());
}

#[test]
fn bagaga_answers_with_a_saying() {
    let sayings: Vec<&str> = (0..4).map(BagagaCommand::saying_at).collect();
    for _ in 0..20 {
        assert!(sayings.contains(&BagagaCommand::response()));
    }
}

#[test]
fn path_directories_split_on_colons() {
    assert_eq!(path_directories("/bin:/usr/bin"), strings(&["/bin", "/usr/bin"]));
    assert_eq!(path_directories(""), strings(&[""]));
    assert_eq!(path_directories("a::b:"), strings(&["a", "", "b", ""]));
}

#[test]
fn all_lists_each_kind_sorted_with_counts() {
    let reg = sample_registry();
    assert_eq!(
        AllCommand::listing(&reg),
        strings(&[
            "builtin commands (6):",
            "  cd, echo, exit, help, pwd, type",
            "external commands (3):",
            "  echo, ls, man",
        ])
    );
    let empty = CommandsRegistry::new();
    assert_eq!(
        AllCommand::listing(&empty),
        strings(&["builtin commands (0):", "  ", "external commands (0):", "  "])
    );
}

#[test]
fn decimal_numerals() {
    assert_eq!(decimal(0), "0");
    assert_eq!(decimal(7), "7");
    assert_eq!(decimal(10), "10");
    assert_eq!(decimal(1234567890), "1234567890");
}
