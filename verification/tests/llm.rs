use aish::ai::llm::{
    error_message, tool_declaration, ChatMessage, ChatResponse, Choice, LlmClient, LlmError,
};
use aish::config::Config;
use aish::dispatch::ToolKind;
use aish::json::JsonValue;

fn message(role: &str, content: &str) -> ChatMessage {
    ChatMessage {
        role: role.to_string(),
        content: Some(content.to_string()),
        tool_calls: None,
        tool_call_id: None,
        name: None,
    }
}

fn client() -> LlmClient {
    LlmClient::new(&Config::default(), "sk-test".to_string())
}

#[test]
fn message_builders_set_the_role() {
    let system = ChatMessage::system("be helpful".to_string());
    assert_eq!(system.role, "system");
    assert_eq!(system.content.as_deref(), Some("be helpful"));
    let user = ChatMessage::user("hi".to_string());
    assert_eq!(user.role, "user");
    assert!(user.tool_calls.is_none() && user.tool_call_id.is_none() && user.name.is_none());
    let result = ChatMessage::tool_result("call_1", "fs_listdir", "a\nb".to_string());
    assert_eq!(result.role, "tool");
    assert_eq!(result.tool_call_id.as_deref(), Some("call_1"));
    assert_eq!(result.name.as_deref(), Some("fs_listdir"));
    assert_eq!(result.content.as_deref(), Some("a\nb"));
}

#[test]
fn first_message_is_that_of_the_first_choice() {
    let response = ChatResponse {
        choices: vec![
            Choice { message: message("assistant", "first") },
            Choice { message: message("assistant", "second") },
        ],
    };
    let first = response.first_message().unwrap();
    assert_eq!(first.content.as_deref(), Some("first"));
    assert_eq!(first.role, "assistant");
}

#[test]
fn response_without_choices_is_an_error() {
    let response = ChatResponse { choices: Vec::new() };
    let error = response.first_message().unwrap_err();
    assert!(matches!(error, LlmError::EmptyChoices));
    assert_eq!(error.message(), "API returned empty choices array");
}

#[test]
fn client_knows_where_and_how_to_ask() {
    let client = client();
    assert_eq!(client.endpoint(), "https://api.openai.com/v1/chat/completions");
    assert_eq!(client.authorization(), "Bearer sk-test");
    assert_eq!(client.model(), "gpt-4");
    assert_eq!(client.max_tokens(), 4096);
}

#[test]
fn api_error_takes_the_message_of_the_body() {
    let body = "{\"error\": {\"message\": \"Incorrect API key\", \"code\": 401}}";
    match LlmClient::api_error("401 Unauthorized", body) {
        LlmError::Api { status, message } => {
            assert_eq!(status, "401 Unauthorized");
            assert_eq!(message, "Incorrect API key");
        }
        other => panic!("{:?}", other),
    }
    assert_eq!(
        LlmClient::api_error("401 Unauthorized", body).message(),
        "API error (401 Unauthorized): Incorrect API key"
    );
}

#[test]
fn api_error_takes_the_whole_body_where_there_is_no_message() {
    for body in [
        "Bad Gateway",
        "",
        "{\"error\": \"plain\"}",
        "{\"error\": {\"message\": 5}}",
        "{\"message\": \"not under error\"}",
        "[1, 2]",
    ] {
        match LlmClient::api_error("502 Bad Gateway", body) {
            LlmError::Api { message, .. } => assert_eq!(message, body),
            other => panic!("{:?}", other),
        }
    }
}

#[test]
fn error_message_reads_the_document() {
    let document = JsonValue::parse("{\"error\": {\"message\": \"quota\"}}").unwrap();
    assert_eq!(error_message(&document), Some("quota"));
    let document = JsonValue::parse("{\"error\": {}}").unwrap();
    assert_eq!(error_message(&document), None);
}

#[test]
fn unreadable_answer_has_a_message_with_the_body() {
    let error = LlmError::Unreadable { detail: "EOF".to_string(), body: "{".to_string() };
    assert_eq!(error.message(), "Failed to parse API response: EOF\nResponse body: {");
    assert_eq!(LlmError::Transport("timed out".to_string()).message(), "timed out");
}

fn required_of(declaration: &JsonValue) -> Vec<String> {
    let parameters = declaration.get("function").unwrap().get("parameters").unwrap();
    match parameters.get("required").unwrap() {
        JsonValue::Array(items) => items.iter().map(|i| i.as_str().unwrap().to_string()).collect(),
        _ => panic!("required is no array"),
    }
}

#[test]
fn five_tools_are_declared() {
    let tools = client().get_tools();
    let names: Vec<&str> = tools
        .iter()
        .map(|tool| tool.get("function").unwrap().get_str("name").unwrap())
        .collect();
    assert_eq!(
        names,
        vec!["execute_shell", "fs_readfile", "fs_writefile", "fs_makedir", "fs_listdir"]
    );
    for tool in &tools {
        assert_eq!(tool.get_str("type"), Some("function"));
    }
}

#[test]
fn every_parameter_is_a_required_string() {
    for tool in client().get_tools() {
        let function = tool.get("function").unwrap();
        assert!(function.get_str("description").is_some());
        let parameters = function.get("parameters").unwrap();
        assert_eq!(parameters.get_str("type"), Some("object"));
        let properties = parameters.get("properties").unwrap();
        let required = required_of(&tool);
        match properties {
            JsonValue::Object(members) => assert_eq!(members.len(), required.len()),
            _ => panic!("properties is no object"),
        }
        for name in &required {
            let parameter = properties.get(name).unwrap();
            assert_eq!(parameter.get_str("type"), Some("string"));
            assert!(parameter.get_str("description").is_some());
        }
    }
}

#[test]
fn tools_take_the_fields_they_need() {
    assert_eq!(required_of(&tool_declaration(ToolKind::ExecuteShell)), vec!["command"]);
    assert_eq!(required_of(&tool_declaration(ToolKind::ReadFile)), vec!["path"]);
    assert_eq!(required_of(&tool_declaration(ToolKind::WriteFile)), vec!["path", "content"]);
    assert_eq!(required_of(&tool_declaration(ToolKind::MakeDir)), vec!["path"]);
    assert_eq!(required_of(&tool_declaration(ToolKind::ListDir)), vec!["path"]);
}

#[test]
fn tools_are_described_to_the_model() {
    let shell = tool_declaration(ToolKind::ExecuteShell);
    let function = shell.get("function").unwrap();
    assert_eq!(
        function.get_str("description"),
        Some("Execute a shell command and return its output")
    );
    let command = function
        .get("parameters")
        .unwrap()
        .get("properties")
        .unwrap()
        .get("command")
        .unwrap();
    assert_eq!(command.get_str("description"), Some("The shell command to execute"));
}
