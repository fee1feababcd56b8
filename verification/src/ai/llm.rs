//! The messages of a conversation with the model.
use crate::config::Config;
use crate::dispatch::ToolKind;
use crate::json::{json_document, JsonValue};
use vstd::prelude::*;
use vstd::string::*;

verus! {

/// A request of the model to run one tool.
#[derive(Debug, Clone)]
pub struct ToolCall {
    /// The identifier that the result must carry.
    pub id: String,
    pub tool_type: String,
    pub function: FunctionCall,
}

/// The tool that a [`ToolCall`] names and its arguments, a JSON text.
#[derive(Debug, Clone)]
pub struct FunctionCall {
    pub name: String,
    pub arguments: String,
}

/// One turn of the conversation.
#[derive(Debug, Clone)]
pub struct ChatMessage {
    /// `system`, `user`, `assistant` or `tool`.
    pub role: String,
    pub content: Option<String>,
    /// The tools that an assistant turn asks for, in the order in which the
    /// model gave them.
    pub tool_calls: Option<Vec<ToolCall>>,
    /// On the result of a tool: the identifier of the call that it answers.
    pub tool_call_id: Option<String>,
    /// On the result of a tool: the name of the tool.
    pub name: Option<String>,
}

/// What the model's service sends back.
#[derive(Debug)]
pub struct ChatResponse {
    pub choices: Vec<Choice>,
}

/// One of the answers in a [`ChatResponse`].
#[derive(Debug)]
pub struct Choice {
    pub message: ChatMessage,
}

/// A [`ToolCall`] with its texts as sequences of characters.
pub struct ToolCallView {
    pub id: Seq<char>,
    pub tool_type: Seq<char>,
    pub name: Seq<char>,
    pub arguments: Seq<char>,
}

/// A [`ChatMessage`] with its texts as sequences of characters.
pub struct ChatMessageView {
    pub role: Seq<char>,
    pub content: Option<Seq<char>>,
    pub tool_calls: Option<Seq<ToolCallView>>,
    pub tool_call_id: Option<Seq<char>>,
    pub name: Option<Seq<char>>,
}

/// The text of an optional string.
pub open spec fn optional_text(text: Option<String>) -> Option<Seq<char>> {
    match text {
        Some(s) => Some(s@),
        None => None,
    }
}

/// The views of a row of tool calls.
pub open spec fn calls_view(calls: Seq<ToolCall>) -> Seq<ToolCallView> {
    calls.map_values(|call: ToolCall| call@)
}

/// The views of a row of messages.
pub open spec fn messages_view(messages: Seq<ChatMessage>) -> Seq<ChatMessageView> {
    messages.map_values(|message: ChatMessage| message@)
}

impl View for ToolCall {
    type V = ToolCallView;

    open spec fn view(&self) -> ToolCallView {
        ToolCallView {
            id: self.id@,
            tool_type: self.tool_type@,
            name: self.function.name@,
            arguments: self.function.arguments@,
        }
    }
}

impl View for ChatMessage {
    type V = ChatMessageView;

    open spec fn view(&self) -> ChatMessageView {
        ChatMessageView {
            role: self.role@,
            content: optional_text(self.content),
            tool_calls: match self.tool_calls {
                Some(calls) => Some(calls_view(calls@)),
                None => None,
            },
            tool_call_id: optional_text(self.tool_call_id),
            name: optional_text(self.name),
        }
    }
}

impl ChatMessageView {
    /// A message of `role` that holds `content` and nothing else.
    pub open spec fn plain(role: Seq<char>, content: Seq<char>) -> ChatMessageView {
        ChatMessageView {
            role,
            content: Some(content),
            tool_calls: None,
            tool_call_id: None,
            name: None,
        }
    }

    /// The result `content` of the tool `name`, in answer to the call `id`.
    pub open spec fn tool_result(id: Seq<char>, name: Seq<char>, content: Seq<char>) -> ChatMessageView {
        ChatMessageView {
            role: "tool"@,
            content: Some(content),
            tool_calls: None,
            tool_call_id: Some(id),
            name: Some(name),
        }
    }
}

impl ChatMessage {
    /// The system message `content`.
    pub fn system(content: String) -> (message: ChatMessage)
        ensures
            message@ == ChatMessageView::plain("system"@, content@),
    {
        ChatMessage {
            role: String::from_str("system"),
            content: Some(content),
            tool_calls: None,
            tool_call_id: None,
            name: None,
        }
    }

    /// The user's message `content`.
    pub fn user(content: String) -> (message: ChatMessage)
        ensures
            message@ == ChatMessageView::plain("user"@, content@),
    {
        ChatMessage {
            role: String::from_str("user"),
            content: Some(content),
            tool_calls: None,
            tool_call_id: None,
            name: None,
        }
    }

    /// The result `content` of the tool `name`, in answer to the call `id`.
    pub fn tool_result(id: &str, name: &str, content: String) -> (message: ChatMessage)
        ensures
            message@ == ChatMessageView::tool_result(id@, name@, content@),
    {
        ChatMessage {
            role: String::from_str("tool"),
            content: Some(content),
            tool_calls: None,
            tool_call_id: Some(String::from_str(id)),
            name: Some(String::from_str(name)),
        }
    }
}

/// Why the model gave no message.
#[derive(Debug)]
pub enum LlmError {
    /// The service could not be reached; the text says why.
    Transport(String),
    /// The service answered with a status other than success.
    Api { status: String, message: String },
    /// The answer of the service could not be read. The detail is the
    /// parser's message.
    Unreadable { detail: String, body: String },
    /// The answer of the service holds no choice.
    EmptyChoices,
}

/// An [`LlmError`] with its texts as sequences of characters.
pub enum LlmFailure {
    Transport(Seq<char>),
    Api { status: Seq<char>, message: Seq<char> },
    Unreadable { detail: Seq<char>, body: Seq<char> },
    EmptyChoices,
}

impl View for LlmError {
    type V = LlmFailure;

    open spec fn view(&self) -> LlmFailure {
        match self {
            LlmError::Transport(text) => LlmFailure::Transport(text@),
            LlmError::Api { status, message } => LlmFailure::Api {
                status: status@,
                message: message@,
            },
            LlmError::Unreadable { detail, body } => LlmFailure::Unreadable {
                detail: detail@,
                body: body@,
            },
            LlmError::EmptyChoices => LlmFailure::EmptyChoices,
        }
    }
}

impl LlmFailure {
    /// The message shown to the operator.
    pub open spec fn message(self) -> Seq<char> {
        match self {
            LlmFailure::Transport(text) => text,
            LlmFailure::Api { status, message } => "API error ("@ + status + "): "@ + message,
            LlmFailure::Unreadable { detail, body } => "Failed to parse API response: "@ + detail
                + "\nResponse body: "@ + body,
            LlmFailure::EmptyChoices => "API returned empty choices array"@,
        }
    }
}

impl LlmError {
    /// The message shown to the operator.
    pub fn message(&self) -> (text: String)
        ensures
            text@ == self@.message(),
    {
        match self {
            LlmError::Transport(text) => text.clone(),
            LlmError::Api { status, message } => {
                let mut text = String::from_str("API error (");
                text.append(status.as_str());
                text.append("): ");
                text.append(message.as_str());
                text
            },
            LlmError::Unreadable { detail, body } => {
                let mut text = String::from_str("Failed to parse API response: ");
                text.append(detail.as_str());
                text.append("\nResponse body: ");
                text.append(body.as_str());
                text
            },
            LlmError::EmptyChoices => String::from_str("API returned empty choices array"),
        }
    }
}

impl ChatResponse {
    /// The message of the first choice, as it stands. An answer without a
    /// choice is an error.
    pub fn first_message(self) -> (r: Result<ChatMessage, LlmError>)
        ensures
            match r {
                Ok(message) => self.choices@.len() > 0 && message == self.choices@[0].message,
                Err(error) => self.choices@.len() == 0 && error@ == LlmFailure::EmptyChoices,
            },
    {
        let mut choices = self.choices;
        if choices.len() == 0 {
            Err(LlmError::EmptyChoices)
        } else {
            let first = choices.remove(0);
            Ok(first.message)
        }
    }
}

/// What the service says went wrong, read from the body of its answer: the
/// text of `error.message` if the body is a JSON document that holds one, and
/// the whole body otherwise.
pub open spec fn error_detail(body: Seq<char>) -> Seq<char> {
    match json_document(body) {
        Some(document) => match document.member("error"@) {
            Some(error) => match error.text_member("message"@) {
                Some(message) => message,
                None => body,
            },
            None => body,
        },
        None => body,
    }
}

/// What the service says went wrong, read from the document `document` that
/// its answer holds, if it holds one: the text of `error.message`, if there is
/// one.
pub fn error_message(document: &JsonValue) -> (message: Option<&str>)
    ensures
        match message {
            Some(text) => document.member("error"@) matches Some(error) && error.text_member(
                "message"@,
            ) == Some(text@),
            None => document.member("error"@) matches Some(error) ==> error.text_member(
                "message"@,
            ) is None,
        },
{
    match document.get("error") {
        Some(error) => error.get_str("message"),
        None => None,
    }
}

/// What the model is told that the tool `kind` does.
pub open spec fn tool_summary(kind: ToolKind) -> Seq<char> {
    match kind {
        ToolKind::ExecuteShell => "Execute a shell command and return its output"@,
        ToolKind::ReadFile => "Read the contents of a file"@,
        ToolKind::WriteFile => "Write content to a file"@,
        ToolKind::MakeDir => "Create a directory"@,
        ToolKind::ListDir => "List contents of a directory"@,
    }
}

/// What the model is told of field `i` of the tool `kind`.
pub open spec fn field_summary(kind: ToolKind, i: int) -> Seq<char> {
    match kind {
        ToolKind::ExecuteShell => "The shell command to execute"@,
        ToolKind::WriteFile => if i == 0 {
            "Relative path to the file"@
        } else {
            "Content to write"@
        },
        ToolKind::ReadFile => "Relative path to the file"@,
        _ => "Relative path to the directory"@,
    }
}

/// Whether `declaration` declares a parameter that is a string and is
/// described by `summary`.
pub open spec fn is_string_parameter(declaration: JsonValue, summary: Seq<char>) -> bool {
    &&& declaration.text_member("type"@) == Some("string"@)
    &&& declaration.text_member("description"@) == Some(summary)
}

/// Whether `declaration` declares the tool `kind` to the model: a function of
/// the tool's name, with one parameter for each field of the tool, each a
/// string, each required, and no other parameter.
pub open spec fn declares(declaration: JsonValue, kind: ToolKind) -> bool {
    &&& declaration.text_member("type"@) == Some("function"@)
    &&& declaration.member("function"@) matches Some(function)
    &&& function.text_member("name"@) == Some(kind.name_text())
    &&& function.text_member("description"@) == Some(tool_summary(kind))
    &&& function.member("parameters"@) matches Some(parameters)
    &&& parameters.text_member("type"@) == Some("object"@)
    &&& parameters.member("properties"@) matches Some(properties)
    &&& properties.size() == kind.fields().len()
    &&& forall|i: int|
        0 <= i < kind.fields().len() ==> (properties.member(#[trigger] kind.fields()[i]) matches Some(
            parameter,
        ) && is_string_parameter(parameter, field_summary(kind, i)))
    &&& parameters.member("required"@) matches Some(JsonValue::Array(required))
    &&& JsonValue::texts_of(required@) == kind.fields()
}

fn string_parameter(description: &str) -> (declaration: JsonValue)
    ensures
        is_string_parameter(declaration, description@),
{
    proof {
        reveal_strlit("type");
        reveal_strlit("description");
        assert("type"@.len() == 4);
        assert("description"@.len() == 11);
    }
    JsonValue::object().with("type", JsonValue::string("string")).with(
        "description",
        JsonValue::string(description),
    )
}

fn tool_description(kind: ToolKind) -> (summary: &'static str)
    ensures
        summary@ == tool_summary(kind),
{
    match kind {
        ToolKind::ExecuteShell => "Execute a shell command and return its output",
        ToolKind::ReadFile => "Read the contents of a file",
        ToolKind::WriteFile => "Write content to a file",
        ToolKind::MakeDir => "Create a directory",
        ToolKind::ListDir => "List contents of a directory",
    }
}

fn path_description(kind: ToolKind) -> (summary: &'static str)
    requires
        kind != ToolKind::ExecuteShell,
    ensures
        summary@ == field_summary(kind, 0),
{
    match kind {
        ToolKind::MakeDir | ToolKind::ListDir => "Relative path to the directory",
        _ => "Relative path to the file",
    }
}

/// The parameters of the tool `kind`: their declarations and their names.
fn tool_parameters(kind: ToolKind) -> (r: (JsonValue, Vec<JsonValue>))
    ensures
        r.0.size() == kind.fields().len(),
        forall|i: int|
            0 <= i < kind.fields().len() ==> (r.0.member(#[trigger] kind.fields()[i]) matches Some(
                parameter,
            ) && is_string_parameter(parameter, field_summary(kind, i))),
        JsonValue::texts_of(r.1@) == kind.fields(),
{
    proof {
        reveal_strlit("path");
        reveal_strlit("content");
        assert("path"@.len() == 4);
        assert("content"@.len() == 7);
    }
    let mut required: Vec<JsonValue> = Vec::new();
    match kind {
        ToolKind::ExecuteShell => {
            let properties = JsonValue::object().with(
                "command",
                string_parameter("The shell command to execute"),
            );
            required.push(JsonValue::string("command"));
            (properties, required)
        },
        ToolKind::WriteFile => {
            let properties = JsonValue::object().with(
                "path",
                string_parameter(path_description(kind)),
            ).with("content", string_parameter("Content to write"));
            required.push(JsonValue::string("path"));
            required.push(JsonValue::string("content"));
            (properties, required)
        },
        _ => {
            let properties = JsonValue::object().with(
                "path",
                string_parameter(path_description(kind)),
            );
            required.push(JsonValue::string("path"));
            (properties, required)
        },
    }
}

/// The declaration of the tool `kind`, as it is sent to the model.
pub fn tool_declaration(kind: ToolKind) -> (declaration: JsonValue)
    ensures
        declares(declaration, kind),
{
    proof {
        reveal_strlit("type");
        reveal_strlit("function");
        reveal_strlit("name");
        reveal_strlit("description");
        reveal_strlit("parameters");
        reveal_strlit("properties");
        reveal_strlit("required");
        assert("type"@.len() == 4);
        assert("function"@.len() == 8);
        assert("name"@.len() == 4);
        assert("description"@.len() == 11);
        assert("parameters"@.len() == 10);
        assert("properties"@.len() == 10);
        assert("required"@.len() == 8);
    }
    let (properties, required) = tool_parameters(kind);
    let parameters = JsonValue::object().with("type", JsonValue::string("object")).with(
        "properties",
        properties,
    ).with("required", JsonValue::Array(required));
    let function = JsonValue::object().with("name", JsonValue::string(kind.name())).with(
        "description",
        JsonValue::string(tool_description(kind)),
    ).with("parameters", parameters);
    JsonValue::object().with("type", JsonValue::string("function")).with("function", function)
}

/// What is needed to ask the model: where it is, the key that opens it, and
/// what is asked for.
#[derive(Debug)]
pub struct LlmClient {
    api_url: String,
    api_key: String,
    model: String,
    max_tokens: u32,
}

impl LlmClient {
    /// The address of the service, as the configuration gives it.
    pub closed spec fn api_url(self) -> Seq<char> {
        self.api_url@
    }

    /// The key that opens the service.
    pub closed spec fn api_key(self) -> Seq<char> {
        self.api_key@
    }

    /// The name of the model that is asked.
    pub closed spec fn model_name(self) -> Seq<char> {
        self.model@
    }

    /// The largest number of tokens that an answer may have.
    pub closed spec fn token_limit(self) -> u32 {
        self.max_tokens
    }

    /// A client for the model that `config` names, with the key `api_key`.
    pub fn new(config: &Config, api_key: String) -> (client: LlmClient)
        ensures
            client.api_url() == config.llm.api_url@,
            client.api_key() == api_key@,
            client.model_name() == config.llm.model@,
            client.token_limit() == config.llm.max_tokens,
    {
        LlmClient {
            api_url: config.llm.api_url.clone(),
            api_key,
            model: config.llm.model.clone(),
            max_tokens: config.llm.max_tokens,
        }
    }

    /// The address that a conversation is sent to.
    pub fn endpoint(&self) -> (url: String)
        ensures
            url@ == self.api_url() + "/chat/completions"@,
    {
        let mut url = self.api_url.clone();
        url.append("/chat/completions");
        url
    }

    /// The value of the header that carries the key.
    pub fn authorization(&self) -> (value: String)
        ensures
            value@ == "Bearer "@ + self.api_key(),
    {
        let mut value = String::from_str("Bearer ");
        value.append(self.api_key.as_str());
        value
    }

    /// The name of the model that is asked.
    pub fn model(&self) -> (name: &str)
        ensures
            name@ == self.model_name(),
    {
        self.model.as_str()
    }

    /// The largest number of tokens that an answer may have.
    pub fn max_tokens(&self) -> (limit: u32)
        ensures
            limit == self.token_limit(),
    {
        self.max_tokens
    }

    /// The tools that the model is told of: the five tools, in a fixed order,
    /// each with all its parameters required.
    pub fn get_tools(&self) -> (tools: Vec<JsonValue>)
        ensures
            tools@.len() == 5,
            declares(tools@[0], ToolKind::ExecuteShell),
            declares(tools@[1], ToolKind::ReadFile),
            declares(tools@[2], ToolKind::WriteFile),
            declares(tools@[3], ToolKind::MakeDir),
            declares(tools@[4], ToolKind::ListDir),
    {
        let mut tools: Vec<JsonValue> = Vec::new();
        tools.push(tool_declaration(ToolKind::ExecuteShell));
        tools.push(tool_declaration(ToolKind::ReadFile));
        tools.push(tool_declaration(ToolKind::WriteFile));
        tools.push(tool_declaration(ToolKind::MakeDir));
        tools.push(tool_declaration(ToolKind::ListDir));
        tools
    }

    /// The error for an answer of the service with the status `status`, which
    /// is not success, and the body `body`. The error carries what the body
    /// says went wrong, or the whole body where it does not say.
    pub fn api_error(status: &str, body: &str) -> (error: LlmError)
        ensures
            error@ == (LlmFailure::Api { status: status@, message: error_detail(body@) }),
    {
        let message = match JsonValue::parse(body) {
            Ok(document) => match error_message(&document) {
                Some(text) => String::from_str(text),
                None => String::from_str(body),
            },
            Err(_) => String::from_str(body),
        };
        LlmError::Api { status: String::from_str(status), message }
    }
}

} // verus!
