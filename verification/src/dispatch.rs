//! The tool dispatcher: from what the model asks for to an operation that can
//! be judged, approved and carried out, and from what the operation gave back
//! to the text that the model is told.
use crate::ai::llm::{ToolCall, ToolCallView};
use crate::json::{json_document, JsonValue};
use crate::security::{
    denial_of, PathFactsView, SecurityDenial, SecurityError, SecurityValidator,
};
use crate::text::{concat, join, joined, str_eq, texts};
use vstd::prelude::*;
use vstd::string::*;

verus! {

/// The tools that the model may ask for.
#[derive(Debug, Clone, Copy, PartialEq, Eq, Structural)]
pub enum ToolKind {
    ExecuteShell,
    ReadFile,
    WriteFile,
    MakeDir,
    ListDir,
}

impl ToolKind {
    /// The tool called `name`, if there is one.
    pub open spec fn named(name: Seq<char>) -> Option<ToolKind> {
        if name == "execute_shell"@ {
            Some(ToolKind::ExecuteShell)
        } else if name == "fs_readfile"@ {
            Some(ToolKind::ReadFile)
        } else if name == "fs_writefile"@ {
            Some(ToolKind::WriteFile)
        } else if name == "fs_makedir"@ {
            Some(ToolKind::MakeDir)
        } else if name == "fs_listdir"@ {
            Some(ToolKind::ListDir)
        } else {
            None
        }
    }

    /// The name under which the model knows the tool.
    pub open spec fn name_text(self) -> Seq<char> {
        match self {
            ToolKind::ExecuteShell => "execute_shell"@,
            ToolKind::ReadFile => "fs_readfile"@,
            ToolKind::WriteFile => "fs_writefile"@,
            ToolKind::MakeDir => "fs_makedir"@,
            ToolKind::ListDir => "fs_listdir"@,
        }
    }

    /// The kind of operation that the tool performs, as the permissions of
    /// the configuration name it.
    pub open spec fn operation_text(self) -> Seq<char> {
        match self {
            ToolKind::ExecuteShell => "shell"@,
            ToolKind::ReadFile => "fs.readfile"@,
            ToolKind::WriteFile => "fs.writefile"@,
            ToolKind::MakeDir => "fs.makedir"@,
            ToolKind::ListDir => "fs.listdir"@,
        }
    }

    /// The fields that the arguments of the tool must hold, each as a string,
    /// in the order in which they are read.
    pub open spec fn fields(self) -> Seq<Seq<char>> {
        match self {
            ToolKind::ExecuteShell => seq!["command"@],
            ToolKind::WriteFile => seq!["path"@, "content"@],
            _ => seq!["path"@],
        }
    }

    /// Finds the tool called `name`.
    pub fn from_name(name: &str) -> (kind: Option<ToolKind>)
        ensures
            kind == ToolKind::named(name@),
    {
        if str_eq(name, "execute_shell") {
            Some(ToolKind::ExecuteShell)
        } else if str_eq(name, "fs_readfile") {
            Some(ToolKind::ReadFile)
        } else if str_eq(name, "fs_writefile") {
            Some(ToolKind::WriteFile)
        } else if str_eq(name, "fs_makedir") {
            Some(ToolKind::MakeDir)
        } else if str_eq(name, "fs_listdir") {
            Some(ToolKind::ListDir)
        } else {
            None
        }
    }

    /// The name under which the model knows the tool.
    pub fn name(&self) -> (name: &'static str)
        ensures
            name@ == self.name_text(),
    {
        match self {
            ToolKind::ExecuteShell => "execute_shell",
            ToolKind::ReadFile => "fs_readfile",
            ToolKind::WriteFile => "fs_writefile",
            ToolKind::MakeDir => "fs_makedir",
            ToolKind::ListDir => "fs_listdir",
        }
    }

    /// The kind of operation that the tool performs.
    pub fn operation(&self) -> (kind: &'static str)
        ensures
            kind@ == self.operation_text(),
    {
        match self {
            ToolKind::ExecuteShell => "shell",
            ToolKind::ReadFile => "fs.readfile",
            ToolKind::WriteFile => "fs.writefile",
            ToolKind::MakeDir => "fs.makedir",
            ToolKind::ListDir => "fs.listdir",
        }
    }
}

/// What is to be done on the machine.
#[derive(Debug)]
pub enum Operation {
    /// Run a command in the shell.
    Shell { command: String },
    /// Read a whole file as text.
    ReadFile { path: String },
    /// Write a text to a file, making the directories above it.
    WriteFile { path: String, content: String },
    /// Make a directory and those above it.
    MakeDir { path: String },
    /// List the names of the entries of a directory.
    ListDir { path: String },
}

/// An [`Operation`] with its texts as sequences of characters.
pub enum OperationView {
    Shell { command: Seq<char> },
    ReadFile { path: Seq<char> },
    WriteFile { path: Seq<char>, content: Seq<char> },
    MakeDir { path: Seq<char> },
    ListDir { path: Seq<char> },
}

impl View for Operation {
    type V = OperationView;

    open spec fn view(&self) -> OperationView {
        match self {
            Operation::Shell { command } => OperationView::Shell { command: command@ },
            Operation::ReadFile { path } => OperationView::ReadFile { path: path@ },
            Operation::WriteFile { path, content } => OperationView::WriteFile {
                path: path@,
                content: content@,
            },
            Operation::MakeDir { path } => OperationView::MakeDir { path: path@ },
            Operation::ListDir { path } => OperationView::ListDir { path: path@ },
        }
    }
}

impl OperationView {
    /// The tool that performs the operation.
    pub open spec fn kind(self) -> ToolKind {
        match self {
            OperationView::Shell { .. } => ToolKind::ExecuteShell,
            OperationView::ReadFile { .. } => ToolKind::ReadFile,
            OperationView::WriteFile { .. } => ToolKind::WriteFile,
            OperationView::MakeDir { .. } => ToolKind::MakeDir,
            OperationView::ListDir { .. } => ToolKind::ListDir,
        }
    }

    /// The path that the operation touches; a shell command has none.
    pub open spec fn path(self) -> Option<Seq<char>> {
        match self {
            OperationView::Shell { .. } => None,
            OperationView::ReadFile { path } => Some(path),
            OperationView::WriteFile { path, .. } => Some(path),
            OperationView::MakeDir { path } => Some(path),
            OperationView::ListDir { path } => Some(path),
        }
    }

    /// What the operator is shown: the command itself, or a sentence that
    /// names the path.
    pub open spec fn description(self) -> Seq<char> {
        match self {
            OperationView::Shell { command } => command,
            OperationView::ReadFile { path } => "Read file: "@ + path,
            OperationView::WriteFile { path, .. } => "Write file: "@ + path,
            OperationView::MakeDir { path } => "Create directory: "@ + path,
            OperationView::ListDir { path } => "List directory: "@ + path,
        }
    }
}

/// Why a tool call is no operation.
#[derive(Debug)]
pub enum ArgumentError {
    /// The arguments are no JSON document. The detail is the parser's message
    /// and is kept for display only.
    Malformed { detail: String },
    /// The arguments lack a field that the tool requires, or hold something
    /// other than a string there.
    Missing { tool: ToolKind, field: String },
}

/// An [`ArgumentError`] without the parser's message and with the field as a
/// sequence of characters.
pub enum ArgumentFault {
    Malformed,
    Missing { tool: ToolKind, field: Seq<char> },
}

impl View for ArgumentError {
    type V = ArgumentFault;

    open spec fn view(&self) -> ArgumentFault {
        match self {
            ArgumentError::Malformed { .. } => ArgumentFault::Malformed,
            ArgumentError::Missing { tool, field } => ArgumentFault::Missing {
                tool: *tool,
                field: field@,
            },
        }
    }
}

impl ArgumentError {
    /// The message shown to the operator.
    pub fn message(&self) -> (text: String)
        ensures
            self matches ArgumentError::Missing { tool, field } ==> text@
                == "Missing required argument '"@ + field@ + "' for tool "@ + tool.name_text(),
    {
        match self {
            ArgumentError::Malformed { detail } => concat(
                "Invalid tool arguments: ",
                detail.as_str(),
            ),
            ArgumentError::Missing { tool, field } => {
                let mut text = String::from_str("Missing required argument '");
                text.append(field.as_str());
                text.append("' for tool ");
                text.append(tool.name());
                text
            },
        }
    }
}

/// The operation that the tool `kind` performs with the arguments `args`, or
/// the first required field that `args` lacks.
pub open spec fn operation_from(kind: ToolKind, args: JsonValue) -> Result<
    OperationView,
    ArgumentFault,
> {
    match kind {
        ToolKind::ExecuteShell => match args.text_member("command"@) {
            Some(command) => Ok(OperationView::Shell { command }),
            None => Err(ArgumentFault::Missing { tool: kind, field: "command"@ }),
        },
        ToolKind::WriteFile => match args.text_member("path"@) {
            Some(path) => match args.text_member("content"@) {
                Some(content) => Ok(OperationView::WriteFile { path, content }),
                None => Err(ArgumentFault::Missing { tool: kind, field: "content"@ }),
            },
            None => Err(ArgumentFault::Missing { tool: kind, field: "path"@ }),
        },
        _ => match args.text_member("path"@) {
            Some(path) => Ok(
                match kind {
                    ToolKind::ReadFile => OperationView::ReadFile { path },
                    ToolKind::MakeDir => OperationView::MakeDir { path },
                    _ => OperationView::ListDir { path },
                },
            ),
            None => Err(ArgumentFault::Missing { tool: kind, field: "path"@ }),
        },
    }
}

/// The arguments of a tool make an operation exactly if they hold every field
/// of the tool as a string; if not, the error names the first field that is
/// missing.
pub proof fn law_required_fields(kind: ToolKind, args: JsonValue)
    ensures
        operation_from(kind, args) is Ok <==> forall|i: int|
            0 <= i < kind.fields().len() ==> args.text_member(#[trigger] kind.fields()[i]) is Some,
        operation_from(kind, args) matches Err(fault) ==> exists|i: int|
            0 <= i < kind.fields().len() && fault == (ArgumentFault::Missing {
                tool: kind,
                field: kind.fields()[i],
            }) && args.text_member(#[trigger] kind.fields()[i]) is None,
{
    if operation_from(kind, args) is Err {
        // The first field is missing, or, for a tool with two, the second.
        assert(args.text_member(kind.fields()[0]) is None || args.text_member(kind.fields()[1])
            is None);
    }
}

/// What a tool call asks for. The arguments are read first: a call whose
/// arguments are no JSON document is an error whatever tool it names. A call
/// that names no known tool asks for nothing. Otherwise the call is the
/// operation of its tool, if the arguments hold every required field as a
/// string.
pub open spec fn planned(call: ToolCallView) -> Result<Option<OperationView>, ArgumentFault> {
    match json_document(call.arguments) {
        None => Err(ArgumentFault::Malformed),
        Some(args) => match ToolKind::named(call.name) {
            None => Ok(None),
            Some(kind) => match operation_from(kind, args) {
                Ok(operation) => Ok(Some(operation)),
                Err(fault) => Err(fault),
            },
        },
    }
}

/// The view of what [`Operation::plan`] returns.
pub open spec fn plan_view(plan: Result<Option<Operation>, ArgumentError>) -> Result<
    Option<OperationView>,
    ArgumentFault,
> {
    match plan {
        Ok(Some(operation)) => Ok(Some(operation@)),
        Ok(None) => Ok(None),
        Err(error) => Err(error@),
    }
}

fn required(kind: ToolKind, args: &JsonValue, field: &str) -> (r: Result<String, ArgumentError>)
    ensures
        match r {
            Ok(value) => args.text_member(field@) == Some(value@),
            Err(error) => args.text_member(field@) is None && error@ == (ArgumentFault::Missing {
                tool: kind,
                field: field@,
            }),
        },
{
    match args.get_str(field) {
        Some(value) => Ok(String::from_str(value)),
        None => Err(ArgumentError::Missing { tool: kind, field: String::from_str(field) }),
    }
}

impl Operation {
    /// The operation that the tool `kind` performs with the arguments `args`.
    /// Fails exactly where a required field is missing or no string, and
    /// names the first such field.
    pub fn from_arguments(kind: ToolKind, args: &JsonValue) -> (r: Result<Operation, ArgumentError>)
        ensures
            match r {
                Ok(operation) => operation_from(kind, *args) == Ok::<
                    OperationView,
                    ArgumentFault,
                >(operation@),
                Err(error) => operation_from(kind, *args) == Err::<OperationView, ArgumentFault>(
                    error@,
                ),
            },
    {
        match kind {
            ToolKind::ExecuteShell => {
                let command = required(kind, args, "command")?;
                Ok(Operation::Shell { command })
            },
            ToolKind::ReadFile => {
                let path = required(kind, args, "path")?;
                Ok(Operation::ReadFile { path })
            },
            ToolKind::WriteFile => {
                let path = required(kind, args, "path")?;
                let content = required(kind, args, "content")?;
                Ok(Operation::WriteFile { path, content })
            },
            ToolKind::MakeDir => {
                let path = required(kind, args, "path")?;
                Ok(Operation::MakeDir { path })
            },
            ToolKind::ListDir => {
                let path = required(kind, args, "path")?;
                Ok(Operation::ListDir { path })
            },
        }
    }

    /// What the tool call `call` asks for: an operation, nothing (the call
    /// names no known tool), or an error in its arguments.
    pub fn plan(call: &ToolCall) -> (r: Result<Option<Operation>, ArgumentError>)
        ensures
            plan_view(r) == planned(call@),
    {
        let args = match JsonValue::parse(call.function.arguments.as_str()) {
            Ok(args) => args,
            Err(error) => {
                return Err(ArgumentError::Malformed { detail: error.detail });
            },
        };
        match ToolKind::from_name(call.function.name.as_str()) {
            None => Ok(None),
            Some(kind) => match Operation::from_arguments(kind, &args) {
                Ok(operation) => Ok(Some(operation)),
                Err(error) => Err(error),
            },
        }
    }

    /// The tool that performs the operation.
    pub fn kind(&self) -> (kind: ToolKind)
        ensures
            kind == self@.kind(),
    {
        match self {
            Operation::Shell { .. } => ToolKind::ExecuteShell,
            Operation::ReadFile { .. } => ToolKind::ReadFile,
            Operation::WriteFile { .. } => ToolKind::WriteFile,
            Operation::MakeDir { .. } => ToolKind::MakeDir,
            Operation::ListDir { .. } => ToolKind::ListDir,
        }
    }

    /// The path that the operation touches; a shell command has none.
    pub fn path(&self) -> (path: Option<&str>)
        ensures
            match path {
                Some(p) => self@.path() == Some(p@),
                None => self@.path() is None,
            },
    {
        match self {
            Operation::Shell { .. } => None,
            Operation::ReadFile { path } => Some(path.as_str()),
            Operation::WriteFile { path, .. } => Some(path.as_str()),
            Operation::MakeDir { path } => Some(path.as_str()),
            Operation::ListDir { path } => Some(path.as_str()),
        }
    }

    /// What the operator is shown: the command itself, or a sentence that
    /// names the path.
    pub fn format_operation(&self) -> (description: String)
        ensures
            description@ == self@.description(),
    {
        match self {
            Operation::Shell { command } => command.clone(),
            Operation::ReadFile { path } => concat("Read file: ", path.as_str()),
            Operation::WriteFile { path, .. } => concat("Write file: ", path.as_str()),
            Operation::MakeDir { path } => concat("Create directory: ", path.as_str()),
            Operation::ListDir { path } => concat("List directory: ", path.as_str()),
        }
    }
}

/// The verdict of the validator on an operation, given what the platform says of
/// its path: the kind of operation is judged first, then the path.
pub open spec fn gate_verdict(gate: SecurityValidator, operation: OperationView, facts: PathFactsView) -> Option<
    SecurityDenial,
> {
    match gate.operation_verdict(operation.kind().operation_text()) {
        Some(denial) => Some(denial),
        None => match operation.path() {
            Some(path) => gate.path_verdict(path, facts),
            None => None,
        },
    }
}

/// Puts `operation` before the validator: first its kind, then, for an operation
/// on a file or a directory, its path. The verdict is that of
/// [`gate_verdict`] on what the platform says of the path. Whatever the
/// platform says, an operation of a kind that is not permitted is refused for
/// its kind, and a permitted shell command passes.
pub fn authorize(gate: &SecurityValidator, operation: &Operation) -> (verdict: Result<
    (),
    SecurityError,
>)
    ensures
        exists|facts: PathFactsView|
            denial_of(verdict) == #[trigger] gate_verdict(*gate, operation@, facts),
        gate.operation_verdict(operation@.kind().operation_text()) matches Some(denial)
            ==> denial_of(verdict) == Some(denial),
        gate.operation_verdict(operation@.kind().operation_text()) is None && operation@.path()
            is None ==> verdict is Ok,
{
    let kind = operation.kind();
    match gate.validate_operation(kind.operation()) {
        Err(error) => {
            Err(error)
        },
        Ok(()) => match operation.path() {
            Some(path) => {
                let facts = gate.inspect_path(path);
                let verdict = gate.check_path(path, &facts);
                assert(denial_of(verdict) == gate_verdict(*gate, operation@, facts@));
                verdict
            },
            None => {
                Ok(())
            },
        },
    }
}

/// What an operation gave back.
#[derive(Debug)]
pub enum Completion {
    /// A shell command ran and this is what it printed.
    Output(String),
    /// A file was read and this is its text.
    Contents(String),
    /// A file was written.
    Written,
    /// A directory was made.
    Created,
    /// A directory was listed and these are the names of its entries.
    Entries(Vec<String>),
}

/// A [`Completion`] with its texts as sequences of characters.
pub enum CompletionView {
    Output(Seq<char>),
    Contents(Seq<char>),
    Written,
    Created,
    Entries(Seq<Seq<char>>),
}

impl View for Completion {
    type V = CompletionView;

    open spec fn view(&self) -> CompletionView {
        match self {
            Completion::Output(text) => CompletionView::Output(text@),
            Completion::Contents(text) => CompletionView::Contents(text@),
            Completion::Written => CompletionView::Written,
            Completion::Created => CompletionView::Created,
            Completion::Entries(names) => CompletionView::Entries(texts(names@)),
        }
    }
}

impl CompletionView {
    /// Whether this is what an operation of the tool `kind` gives back.
    pub open spec fn answers(self, kind: ToolKind) -> bool {
        match self {
            CompletionView::Output(_) => kind == ToolKind::ExecuteShell,
            CompletionView::Contents(_) => kind == ToolKind::ReadFile,
            CompletionView::Written => kind == ToolKind::WriteFile,
            CompletionView::Created => kind == ToolKind::MakeDir,
            CompletionView::Entries(_) => kind == ToolKind::ListDir,
        }
    }

    /// The text that the model is told: what the command printed, the text of
    /// the file, a confirmation, or the names of the entries, one to a line.
    pub open spec fn result_text(self) -> Seq<char> {
        match self {
            CompletionView::Output(text) => text,
            CompletionView::Contents(text) => text,
            CompletionView::Written => "File written successfully"@,
            CompletionView::Created => "Directory created successfully"@,
            CompletionView::Entries(names) => joined(names, "\n"@),
        }
    }
}

impl Completion {
    /// Whether this is what an operation of the tool `kind` gives back.
    pub fn answers(&self, kind: ToolKind) -> (fits: bool)
        ensures
            fits == self@.answers(kind),
    {
        match self {
            Completion::Output(_) => kind == ToolKind::ExecuteShell,
            Completion::Contents(_) => kind == ToolKind::ReadFile,
            Completion::Written => kind == ToolKind::WriteFile,
            Completion::Created => kind == ToolKind::MakeDir,
            Completion::Entries(_) => kind == ToolKind::ListDir,
        }
    }

    /// The text that the model is told.
    pub fn into_result_text(self) -> (text: String)
        ensures
            text@ == self@.result_text(),
    {
        match self {
            Completion::Output(text) => text,
            Completion::Contents(text) => text,
            Completion::Written => String::from_str("File written successfully"),
            Completion::Created => String::from_str("Directory created successfully"),
            Completion::Entries(names) => join(&names, "\n"),
        }
    }
}

/// Nothing is changed on the way between the model and the machine: what is
/// written to a file is the text that the model gave as `content`, the path
/// is the text that it gave as `path`, and what the model is told of a file
/// that was read is the text of the file.
pub proof fn law_content_is_handed_on(args: JsonValue, path: Seq<char>, content: Seq<char>)
    requires
        args.text_member("path"@) == Some(path),
        args.text_member("content"@) == Some(content),
    ensures
        operation_from(ToolKind::WriteFile, args) == Ok::<OperationView, ArgumentFault>(
            OperationView::WriteFile { path, content },
        ),
        operation_from(ToolKind::ReadFile, args) == Ok::<OperationView, ArgumentFault>(
            OperationView::ReadFile { path },
        ),
        CompletionView::Contents(content).result_text() == content,
        CompletionView::Contents(content).answers(ToolKind::ReadFile),
{
}

} // verus!
