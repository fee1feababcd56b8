use aish::ai::llm::{FunctionCall, ToolCall};
use aish::config::{Config, ConfigManager};
use aish::dispatch::{authorize, ArgumentError, Completion, Operation, ToolKind};
use aish::json::JsonValue;
use aish::security::{SecurityError, SecurityValidator};

fn manager_at(home: &str) -> ConfigManager {
    let dir = std::path::Path::new(home).join(".aish");
    let file = |name: &str| dir.join(name).to_string_lossy().into_owned();
    ConfigManager::new(
        dir.to_string_lossy().into_owned(),
        file("config.toml"),
        file("tokens.env"),
        file(".aishignore"),
        file("system_prompt.txt"),
    )
}

fn call(name: &str, arguments: &str) -> ToolCall {
    ToolCall {
        id: "call_1".to_string(),
        tool_type: "function".to_string(),
        function: FunctionCall { name: name.to_string(), arguments: arguments.to_string() },
    }
}

fn gate(config: Config) -> SecurityValidator {
    SecurityValidator::new(config, manager_at("/home/operator"), &Vec::new())
}

#[test]
fn tool_kinds_have_fixed_names() {
    let kinds = [
        (ToolKind::ExecuteShell, "execute_shell", "shell"),
        (ToolKind::ReadFile, "fs_readfile", "fs.readfile"),
        (ToolKind::WriteFile, "fs_writefile", "fs.writefile"),
        (ToolKind::MakeDir, "fs_makedir", "fs.makedir"),
        (ToolKind::ListDir, "fs_listdir", "fs.listdir"),
    ];
    for (kind, name, operation) in kinds {
        assert_eq!(kind.name(), name);
        assert_eq!(kind.operation(), operation);
        assert_eq!(ToolKind::from_name(name), Some(kind));
    }
    assert_eq!(ToolKind::from_name("fs_deletefile"), None);
    assert_eq!(ToolKind::from_name("Execute_Shell"), None);
    assert_eq!(ToolKind::from_name("shell"), None);
    assert_eq!(ToolKind::from_name(""), None);
}

#[test]
fn plan_reads_a_shell_command() {
    match Operation::plan(&call("execute_shell", "{\"command\": \"ls -la\"}")) {
        Ok(Some(Operation::Shell { command })) => assert_eq!(command, "ls -la"),
        other => panic!("{:?}", other),
    }
}

#[test]
fn plan_reads_the_file_operations() {
    assert!(matches!(
        Operation::plan(&call("fs_readfile", "{\"path\": \"a.txt\"}")),
        Ok(Some(Operation::ReadFile { path })) if path == "a.txt"
    ));
    assert!(matches!(
        Operation::plan(&call("fs_makedir", "{\"path\": \"a/b\"}")),
        Ok(Some(Operation::MakeDir { path })) if path == "a/b"
    ));
    assert!(matches!(
        Operation::plan(&call("fs_listdir", "{\"path\": \".\"}")),
        Ok(Some(Operation::ListDir { path })) if path == "."
    ));
    assert!(matches!(
        Operation::plan(&call("fs_writefile", "{\"path\": \"a.txt\", \"content\": \"hi\"}")),
        Ok(Some(Operation::WriteFile { path, content })) if path == "a.txt" && content == "hi"
    ));
}

#[test]
fn plan_hands_the_content_on_as_it_is() {
    let arguments = "{\"content\": \"a\\n\\tb \\\"q\\\" \\\\ é\\n\", \"path\": \"x\"}";
    match Operation::plan(&call("fs_writefile", arguments)) {
        Ok(Some(Operation::WriteFile { content, .. })) => {
            assert_eq!(content, "a\n\tb \"q\" \\ é\n")
        }
        other => panic!("{:?}", other),
    }
}

#[test]
fn plan_fails_on_malformed_arguments() {
    assert!(matches!(
        Operation::plan(&call("execute_shell", "{\"command\": ")),
        Err(ArgumentError::Malformed { .. })
    ));
    assert!(matches!(
        Operation::plan(&call("fs_readfile", "")),
        Err(ArgumentError::Malformed { .. })
    ));
}

#[test]
fn plan_reads_the_arguments_before_the_name() {
    assert!(matches!(
        Operation::plan(&call("no_such_tool", "not json")),
        Err(ArgumentError::Malformed { .. })
    ));
}

#[test]
fn plan_passes_over_an_unknown_tool() {
    assert!(matches!(Operation::plan(&call("no_such_tool", "{}")), Ok(None)));
    assert!(matches!(Operation::plan(&call("", "{\"command\": \"ls\"}")), Ok(None)));
}

#[test]
fn plan_fails_on_a_missing_field() {
    match Operation::plan(&call("execute_shell", "{}")) {
        Err(ArgumentError::Missing { tool, field }) => {
            assert_eq!(tool, ToolKind::ExecuteShell);
            assert_eq!(field, "command");
        }
        other => panic!("{:?}", other),
    }
    match Operation::plan(&call("fs_writefile", "{\"path\": \"a.txt\"}")) {
        Err(ArgumentError::Missing { tool, field }) => {
            assert_eq!(tool, ToolKind::WriteFile);
            assert_eq!(field, "content");
        }
        other => panic!("{:?}", other),
    }
    match Operation::plan(&call("fs_writefile", "{\"content\": \"x\"}")) {
        Err(ArgumentError::Missing { field, .. }) => assert_eq!(field, "path"),
        other => panic!("{:?}", other),
    }
    match Operation::plan(&call("fs_writefile", "{}")) {
        Err(ArgumentError::Missing { field, .. }) => assert_eq!(field, "path"),
        other => panic!("{:?}", other),
    }
    for tool in ["fs_readfile", "fs_makedir", "fs_listdir"] {
        assert!(matches!(
            Operation::plan(&call(tool, "{\"file\": \"a\"}")),
            Err(ArgumentError::Missing { field, .. }) if field == "path"
        ));
    }
}

#[test]
fn plan_fails_on_a_field_that_is_no_string() {
    assert!(matches!(
        Operation::plan(&call("fs_readfile", "{\"path\": 5}")),
        Err(ArgumentError::Missing { field, .. }) if field == "path"
    ));
    assert!(matches!(
        Operation::plan(&call("execute_shell", "{\"command\": [\"ls\"]}")),
        Err(ArgumentError::Missing { field, .. }) if field == "command"
    ));
    assert!(matches!(
        Operation::plan(&call("execute_shell", "[\"command\"]")),
        Err(ArgumentError::Missing { .. })
    ));
    assert!(matches!(
        Operation::plan(&call("execute_shell", "{\"command\": null}")),
        Err(ArgumentError::Missing { .. })
    ));
}

#[test]
fn missing_argument_has_a_message() {
    let error = Operation::plan(&call("fs_readfile", "{}")).unwrap_err();
    assert_eq!(error.message(), "Missing required argument 'path' for tool fs_readfile");
    let error = Operation::plan(&call("fs_readfile", "{")).unwrap_err();
    assert!(error.message().starts_with("Invalid tool arguments: "));
}

#[test]
fn from_arguments_reads_the_fields_of_the_tool() {
    let args = JsonValue::parse("{\"command\": \"pwd\", \"path\": \"p\"}").unwrap();
    assert!(matches!(
        Operation::from_arguments(ToolKind::ExecuteShell, &args),
        Ok(Operation::Shell { command }) if command == "pwd"
    ));
    assert!(matches!(
        Operation::from_arguments(ToolKind::ListDir, &args),
        Ok(Operation::ListDir { path }) if path == "p"
    ));
    assert!(matches!(
        Operation::from_arguments(ToolKind::WriteFile, &args),
        Err(ArgumentError::Missing { field, .. }) if field == "content"
    ));
}

#[test]
fn operations_are_described_to_the_operator() {
    let shell = Operation::Shell { command: "cargo build".to_string() };
    assert_eq!(shell.format_operation(), "cargo build");
    let read = Operation::ReadFile { path: "a.txt".to_string() };
    assert_eq!(read.format_operation(), "Read file: a.txt");
    let write = Operation::WriteFile { path: "b.txt".to_string(), content: "x".to_string() };
    assert_eq!(write.format_operation(), "Write file: b.txt");
    let make = Operation::MakeDir { path: "d".to_string() };
    assert_eq!(make.format_operation(), "Create directory: d");
    let list = Operation::ListDir { path: ".".to_string() };
    assert_eq!(list.format_operation(), "List directory: .");
    assert_eq!(shell.kind(), ToolKind::ExecuteShell);
    assert_eq!(write.kind(), ToolKind::WriteFile);
    assert_eq!(shell.path(), None);
    assert_eq!(write.path(), Some("b.txt"));
    assert_eq!(list.path(), Some("."));
}

#[test]
fn authorize_judges_the_kind_before_the_path() {
    let mut config = Config::default();
    config.security.allowed_operations.fs_readfile = false;
    let validator = gate(config);
    let read = Operation::ReadFile { path: "/etc/secrets.env".to_string() };
    assert!(matches!(
        authorize(&validator, &read),
        Err(SecurityError::OperationNotAllowed(kind)) if kind == "fs.readfile"
    ));
}

#[test]
fn authorize_judges_the_path_of_a_file_operation() {
    let validator = gate(Config::default());
    let read = Operation::ReadFile { path: "secrets.env".to_string() };
    assert!(matches!(
        authorize(&validator, &read),
        Err(SecurityError::BlockedExtension(ext)) if ext == ".env"
    ));
    let write = Operation::WriteFile { path: "/tmp/x".to_string(), content: "".to_string() };
    assert!(matches!(authorize(&validator, &write), Err(SecurityError::AbsolutePath)));
    let list = Operation::ListDir { path: "src".to_string() };
    assert!(authorize(&validator, &list).is_ok());
}

#[test]
fn authorize_does_not_judge_a_command_as_a_path() {
    let validator = gate(Config::default());
    let shell = Operation::Shell { command: "/bin/cat secrets.env".to_string() };
    assert!(authorize(&validator, &shell).is_ok());
}

#[test]
fn completion_becomes_the_text_for_the_model() {
    assert_eq!(Completion::Output("a\nb\n".to_string()).into_result_text(), "a\nb\n");
    assert_eq!(Completion::Contents("exact  text\n".to_string()).into_result_text(), "exact  text\n");
    assert_eq!(Completion::Written.into_result_text(), "File written successfully");
    assert_eq!(Completion::Created.into_result_text(), "Directory created successfully");
    let names = vec!["b.txt".to_string(), "a".to_string()];
    assert_eq!(Completion::Entries(names).into_result_text(), "b.txt\na");
    assert_eq!(Completion::Entries(Vec::new()).into_result_text(), "");
}

#[test]
fn completion_answers_the_tool_it_belongs_to() {
    assert!(Completion::Output(String::new()).answers(ToolKind::ExecuteShell));
    assert!(!Completion::Output(String::new()).answers(ToolKind::ReadFile));
    assert!(Completion::Contents(String::new()).answers(ToolKind::ReadFile));
    assert!(Completion::Written.answers(ToolKind::WriteFile));
    assert!(!Completion::Written.answers(ToolKind::MakeDir));
    assert!(Completion::Created.answers(ToolKind::MakeDir));
    assert!(Completion::Entries(Vec::new()).answers(ToolKind::ListDir));
    assert!(!Completion::Entries(Vec::new()).answers(ToolKind::ExecuteShell));
}
