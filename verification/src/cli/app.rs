//! The conversation loop.
//!
//! The loop alternates between asking the model for the next step and
//! carrying out the tools that the model asked for. Everything that has to
//! happen outside (reading the environment, calling the model, asking the
//! operator, running an operation) is handed to the caller as an [`Action`];
//! the caller reports what came of it as an [`Event`]. All decisions are taken
//! here, by [`App::run`], and are stated by the function [`step`].
use crate::ai::llm::{
    calls_view, messages_view, optional_text, ChatMessage, ChatMessageView, ToolCall, ToolCallView,
};
use crate::approval::{approval_label, whitelisted, Answer, Approval, ApprovalPolicy};
use crate::dispatch::{
    authorize, gate_verdict, planned, ArgumentError, ArgumentFault, Completion,
    CompletionView, Operation, OperationView, ToolKind,
};
use crate::security::{denial_of, PathFactsView, SecurityDenial, SecurityError, SecurityValidator};
use crate::text::{replace, replaced};
use vstd::prelude::*;
use vstd::string::*;

verus! {

/// Where the loop stands.
#[derive(Debug, Clone, Copy, PartialEq, Eq, Structural)]
pub enum Phase {
    /// The loop is not running: it has not been started yet, or it has ended.
    Idle,
    /// The loop is about to ask the model and waits to be told the state of
    /// the environment.
    AwaitingEnvironment,
    /// The model has been asked.
    AwaitingModel,
    /// The operator has been asked about call `cursor` of message `turn`.
    AwaitingApproval { turn: usize, cursor: usize },
    /// Call `cursor` of message `turn` is being carried out.
    AwaitingExecution { turn: usize, cursor: usize },
}

/// What the caller reports.
#[derive(Debug)]
pub enum Event {
    /// The loop is to begin.
    Start,
    /// The state of the environment: the working directory, if it could be
    /// read, and the description of the workspace.
    Environment { cwd: Option<String>, flags: String },
    /// The model answered.
    ModelReplied(ChatMessage),
    /// The model could not be reached or did not answer properly.
    ModelFailed(String),
    /// The operator answered.
    Answered(Answer),
    /// The operation was carried out.
    Executed(Completion),
    /// The operation could not be carried out.
    ExecutionFailed(String),
}

/// An [`Event`] with its texts as sequences of characters.
pub enum EventView {
    Start,
    Environment { cwd: Option<Seq<char>>, flags: Seq<char> },
    ModelReplied(ChatMessageView),
    ModelFailed(Seq<char>),
    Answered(Answer),
    Executed(CompletionView),
    ExecutionFailed(Seq<char>),
}

impl View for Event {
    type V = EventView;

    open spec fn view(&self) -> EventView {
        match self {
            Event::Start => EventView::Start,
            Event::Environment { cwd, flags } => EventView::Environment {
                cwd: optional_text(*cwd),
                flags: flags@,
            },
            Event::ModelReplied(message) => EventView::ModelReplied(message@),
            Event::ModelFailed(text) => EventView::ModelFailed(text@),
            Event::Answered(answer) => EventView::Answered(*answer),
            Event::Executed(completion) => EventView::Executed(completion@),
            Event::ExecutionFailed(text) => EventView::ExecutionFailed(text@),
        }
    }
}

/// How a run of the loop ended without an error.
#[derive(Debug)]
pub enum Outcome {
    /// The model gave its answer, in plain text.
    Answered(String),
    /// The operator rejected an operation of this tool.
    Rejected(ToolKind),
}

/// An [`Outcome`] with its text as a sequence of characters.
pub enum OutcomeView {
    Answered(Seq<char>),
    Rejected(ToolKind),
}

impl View for Outcome {
    type V = OutcomeView;

    open spec fn view(&self) -> OutcomeView {
        match self {
            Outcome::Answered(text) => OutcomeView::Answered(text@),
            Outcome::Rejected(kind) => OutcomeView::Rejected(*kind),
        }
    }
}

/// Why a run of the loop failed.
#[derive(Debug)]
pub enum AgentError {
    /// The model could not be reached or did not answer properly.
    Transport(String),
    /// The arguments of a tool call could not be used.
    Argument(ArgumentError),
    /// The security gate turned an approved operation down.
    Security(SecurityError),
    /// An operation could not be carried out.
    Execution(String),
    /// The operator left a question unanswered.
    InputCancelled,
    /// The caller reported something that the loop was not waiting for.
    OutOfTurn,
}

/// An [`AgentError`] with its texts as sequences of characters.
pub enum Failure {
    Transport(Seq<char>),
    Argument(ArgumentFault),
    Security(SecurityDenial),
    Execution(Seq<char>),
    InputCancelled,
    OutOfTurn,
}

impl View for AgentError {
    type V = Failure;

    open spec fn view(&self) -> Failure {
        match self {
            AgentError::Transport(text) => Failure::Transport(text@),
            AgentError::Argument(error) => Failure::Argument(error@),
            AgentError::Security(error) => Failure::Security(error@),
            AgentError::Execution(text) => Failure::Execution(text@),
            AgentError::InputCancelled => Failure::InputCancelled,
            AgentError::OutOfTurn => Failure::OutOfTurn,
        }
    }
}

impl Failure {
    /// The message shown to the operator. What is said of arguments that are
    /// no JSON document includes the parser's own words and is not fixed
    /// here.
    pub open spec fn message(self) -> Option<Seq<char>> {
        match self {
            Failure::Transport(text) => Some(text),
            Failure::Argument(ArgumentFault::Malformed) => None,
            Failure::Argument(ArgumentFault::Missing { tool, field }) => Some(
                "Missing required argument '"@ + field + "' for tool "@ + tool.name_text(),
            ),
            Failure::Security(denial) => Some(denial.message()),
            Failure::Execution(text) => Some(text),
            Failure::InputCancelled => Some("Operation was cancelled by the operator"@),
            Failure::OutOfTurn => Some("Unexpected event for the conversation loop"@),
        }
    }
}

impl AgentError {
    /// The message shown to the operator.
    pub fn message(&self) -> (text: String)
        ensures
            self@.message() matches Some(fixed) ==> text@ == fixed,
    {
        match self {
            AgentError::Transport(text) => text.clone(),
            AgentError::Argument(error) => error.message(),
            AgentError::Security(error) => error.message(),
            AgentError::Execution(text) => text.clone(),
            AgentError::InputCancelled => String::from_str("Operation was cancelled by the operator"),
            AgentError::OutOfTurn => String::from_str("Unexpected event for the conversation loop"),
        }
    }
}

/// What the caller is to do next.
#[derive(Debug)]
pub enum Action {
    /// Read the working directory and describe the workspace, then report
    /// [`Event::Environment`].
    ReadEnvironment,
    /// Send the conversation to the model, then report what it answered.
    QueryModel,
    /// Show the operator the kind of operation and its description, then
    /// report the answer.
    AskOperator { kind: String, description: String },
    /// Carry out the operation, which has been approved and has passed the
    /// security gate, then report what it gave back.
    Execute { operation: Operation, approval: Approval },
    /// The run has ended.
    Finish(Outcome),
    /// The run has failed.
    Fail(AgentError),
}

/// An [`Action`] with its texts as sequences of characters.
pub enum ActionView {
    ReadEnvironment,
    QueryModel,
    AskOperator { kind: Seq<char>, description: Seq<char> },
    Execute { operation: OperationView, approval: Approval },
    Finish(OutcomeView),
    Fail(Failure),
}

impl View for Action {
    type V = ActionView;

    open spec fn view(&self) -> ActionView {
        match self {
            Action::ReadEnvironment => ActionView::ReadEnvironment,
            Action::QueryModel => ActionView::QueryModel,
            Action::AskOperator { kind, description } => ActionView::AskOperator {
                kind: kind@,
                description: description@,
            },
            Action::Execute { operation, approval } => ActionView::Execute {
                operation: operation@,
                approval: *approval,
            },
            Action::Finish(outcome) => ActionView::Finish(outcome@),
            Action::Fail(error) => ActionView::Fail(error@),
        }
    }
}

/// The state of the conversation, as the contracts see it.
pub struct AppView {
    /// The transcript. The first message is the system message.
    pub messages: Seq<ChatMessageView>,
    /// The system prompt as it was given, with its placeholders.
    pub template: Seq<char>,
    /// Whether every operation is approved without asking.
    pub accept_all: bool,
    pub phase: Phase,
}

/// The system prompt for the working directory `cwd` and the workspace
/// description `flags`: the template with both placeholders filled in. A
/// working directory that could not be read is shown as `unknown`.
pub open spec fn rendered(template: Seq<char>, cwd: Option<Seq<char>>, flags: Seq<char>) -> Seq<char> {
    let shown = match cwd {
        Some(dir) => dir,
        None => "unknown"@,
    };
    replaced(replaced(template, "{{CWD}}"@, shown), "{{FLAGS}}"@, flags)
}

impl AppView {
    /// The same conversation in another phase.
    pub open spec fn at(self, phase: Phase) -> AppView {
        AppView { phase, ..self }
    }

    /// The conversation with `message` added at its end.
    pub open spec fn appended(self, message: ChatMessageView) -> AppView {
        AppView { messages: self.messages.push(message), ..self }
    }

    /// The conversation with its system message brought up to date: the
    /// content of the first message, if it has one, becomes the template
    /// rendered for `cwd` and `flags`. Nothing else changes.
    pub open spec fn refreshed(self, cwd: Option<Seq<char>>, flags: Seq<char>) -> AppView {
        if self.messages.len() > 0 && self.messages[0].content is Some {
            let system = ChatMessageView {
                content: Some(rendered(self.template, cwd, flags)),
                ..self.messages[0]
            };
            AppView { messages: self.messages.update(0, system), ..self }
        } else {
            self
        }
    }

    /// The run fails: the loop stops and the transcript stays as it is.
    pub open spec fn failed(self, failure: Failure) -> (AppView, ActionView) {
        (self.at(Phase::Idle), ActionView::Fail(failure))
    }

    /// The tool calls of message `turn`; none if there is no such message or
    /// it asks for no tools.
    pub open spec fn calls(self, turn: int) -> Seq<ToolCallView> {
        if 0 <= turn < self.messages.len() {
            match self.messages[turn].tool_calls {
                Some(calls) => calls,
                None => Seq::empty(),
            }
        } else {
            Seq::empty()
        }
    }

    /// The operation that call `cursor` of message `turn` asks for, if there
    /// is such a call and it asks for one.
    pub open spec fn pending(self, turn: int, cursor: int) -> Option<OperationView> {
        if 0 <= cursor < self.calls(turn).len() {
            match planned(self.calls(turn)[cursor]) {
                Ok(Some(operation)) => Some(operation),
                _ => None,
            }
        } else {
            None
        }
    }
}

/// An approved operation goes before the validator. If it passes, the caller is
/// told to carry it out; if not, the run fails with the denial.
pub open spec fn approve(
    gate: SecurityValidator,
    app: AppView,
    turn: usize,
    cursor: usize,
    operation: OperationView,
    facts: PathFactsView,
) -> (AppView, ActionView) {
    match gate_verdict(gate, operation, facts) {
        Some(denial) => app.failed(Failure::Security(denial)),
        None => (
            app.at(Phase::AwaitingExecution { turn, cursor }),
            ActionView::Execute {
                operation,
                approval: approval_label(app.accept_all, whitelisted(gate, operation)),
            },
        ),
    }
}

/// The loop takes up the calls of message `turn` from call `cursor` on, in
/// the order in which the model gave them. A call that names no known tool is
/// passed over. A call whose arguments cannot be used fails the run. The
/// first call that asks for an operation is approved at once when everything
/// is accepted, and put to the operator otherwise. When no call is left the
/// model is asked again.
pub open spec fn advance(
    gate: SecurityValidator,
    app: AppView,
    turn: usize,
    cursor: usize,
    facts: PathFactsView,
) -> (AppView, ActionView)
    decreases app.calls(turn as int).len() - cursor,
{
    let calls = app.calls(turn as int);
    if cursor >= calls.len() || cursor >= usize::MAX {
        (app.at(Phase::AwaitingEnvironment), ActionView::ReadEnvironment)
    } else {
        match planned(calls[cursor as int]) {
            Err(fault) => app.failed(Failure::Argument(fault)),
            Ok(None) => advance(gate, app, turn, (cursor + 1) as usize, facts),
            Ok(Some(operation)) => if app.accept_all {
                approve(gate, app, turn, cursor, operation, facts)
            } else {
                (
                    app.at(Phase::AwaitingApproval { turn, cursor }),
                    ActionView::AskOperator {
                        kind: operation.kind().operation_text(),
                        description: operation.description(),
                    },
                )
            },
        }
    }
}

/// What the loop does with the model's answer, which is already the last
/// message of the transcript: it takes up the tool calls if the answer has
/// any; else it ends the run with the answer's text if it has one; else it
/// asks the model again.
pub open spec fn after_reply(gate: SecurityValidator, app: AppView, facts: PathFactsView) -> (
    AppView,
    ActionView,
) {
    let last = app.messages.len() - 1;
    if last < 0 || last > usize::MAX {
        app.failed(Failure::OutOfTurn)
    } else if app.messages[last].tool_calls is Some {
        advance(gate, app, last as usize, 0, facts)
    } else {
        match app.messages[last].content {
            Some(text) => (app.at(Phase::Idle), ActionView::Finish(OutcomeView::Answered(text))),
            None => (app.at(Phase::AwaitingEnvironment), ActionView::ReadEnvironment),
        }
    }
}

/// What the loop does with the operator's answer about call `cursor` of
/// message `turn`.
pub open spec fn after_answer(
    gate: SecurityValidator,
    app: AppView,
    turn: usize,
    cursor: usize,
    answer: Answer,
    facts: PathFactsView,
) -> (AppView, ActionView) {
    match app.pending(turn as int, cursor as int) {
        None => app.failed(Failure::OutOfTurn),
        Some(operation) => match answer {
            Answer::Accept => approve(gate, app, turn, cursor, operation, facts),
            Answer::Reject => (
                app.at(Phase::Idle),
                ActionView::Finish(OutcomeView::Rejected(operation.kind())),
            ),
            Answer::Cancelled => app.failed(Failure::InputCancelled),
        },
    }
}

/// What the loop does when call `cursor` of message `turn` has been carried
/// out: the result is added to the transcript, under the identifier of the
/// call and the name of its tool, and the loop goes on to the next call.
pub open spec fn after_execution(
    gate: SecurityValidator,
    app: AppView,
    turn: usize,
    cursor: usize,
    completion: CompletionView,
    facts: PathFactsView,
) -> (AppView, ActionView) {
    match app.pending(turn as int, cursor as int) {
        None => app.failed(Failure::OutOfTurn),
        Some(operation) => if completion.answers(operation.kind()) && cursor < usize::MAX {
            let call = app.calls(turn as int)[cursor as int];
            advance(
                gate,
                app.appended(
                    ChatMessageView::tool_result(call.id, call.name, completion.result_text()),
                ),
                turn,
                (cursor + 1) as usize,
                facts,
            )
        } else {
            app.failed(Failure::OutOfTurn)
        },
    }
}

/// One step of the loop: the conversation after `event`, and what the caller
/// is to do next. `facts` is what the platform says of the path of the
/// operation that goes before the validator in this step, if one does.
pub open spec fn step(gate: SecurityValidator, app: AppView, event: EventView, facts: PathFactsView) -> (
    AppView,
    ActionView,
) {
    match (app.phase, event) {
        (Phase::Idle, EventView::Start) => (
            app.at(Phase::AwaitingEnvironment),
            ActionView::ReadEnvironment,
        ),
        (Phase::AwaitingEnvironment, EventView::Environment { cwd, flags }) => (
            app.refreshed(cwd, flags).at(Phase::AwaitingModel),
            ActionView::QueryModel,
        ),
        (Phase::AwaitingModel, EventView::ModelReplied(message)) => after_reply(
            gate,
            app.appended(message),
            facts,
        ),
        (Phase::AwaitingModel, EventView::ModelFailed(text)) => app.failed(
            Failure::Transport(text),
        ),
        (Phase::AwaitingApproval { turn, cursor }, EventView::Answered(answer)) => after_answer(
            gate,
            app,
            turn,
            cursor,
            answer,
            facts,
        ),
        (Phase::AwaitingExecution { turn, cursor }, EventView::Executed(completion)) => after_execution(
            gate,
            app,
            turn,
            cursor,
            completion,
            facts,
        ),
        (Phase::AwaitingExecution { .. }, EventView::ExecutionFailed(text)) => app.failed(
            Failure::Execution(text),
        ),
        _ => app.failed(Failure::OutOfTurn),
    }
}

/// The conversation and the loop that drives it.
pub struct App {
    security: SecurityValidator,
    policy: ApprovalPolicy,
    messages: Vec<ChatMessage>,
    template: String,
    phase: Phase,
}

impl View for App {
    type V = AppView;

    closed spec fn view(&self) -> AppView {
        AppView {
            messages: messages_view(self.messages@),
            template: self.template@,
            accept_all: self.policy.accepts_all(),
            phase: self.phase,
        }
    }
}

impl App {
    /// The security gate of the conversation.
    pub closed spec fn gate(self) -> SecurityValidator {
        self.security
    }

    /// A conversation that begins with the system prompt and the user's
    /// first request. The loop is not running yet.
    pub fn new(
        security: SecurityValidator,
        system_prompt: String,
        initial_prompt: String,
        accept_all: bool,
    ) -> (app: App)
        ensures
            app.gate() == security,
            app@ == (AppView {
                messages: seq![
                    ChatMessageView::plain("system"@, system_prompt@),
                    ChatMessageView::plain("user"@, initial_prompt@),
                ],
                template: system_prompt@,
                accept_all,
                phase: Phase::Idle,
            }),
    {
        let template = system_prompt.clone();
        let mut messages: Vec<ChatMessage> = Vec::new();
        messages.push(ChatMessage::system(system_prompt));
        messages.push(ChatMessage::user(initial_prompt));
        let app = App {
            security,
            policy: ApprovalPolicy::new(accept_all),
            messages,
            template,
            phase: Phase::Idle,
        };
        assert(app@.messages =~= seq![
            ChatMessageView::plain("system"@, system_prompt@),
            ChatMessageView::plain("user"@, initial_prompt@),
        ]);
        app
    }

    /// A conversation that holds the system prompt only.
    pub fn new_empty(security: SecurityValidator, system_prompt: String, accept_all: bool) -> (app:
        App)
        ensures
            app.gate() == security,
            app@ == (AppView {
                messages: seq![ChatMessageView::plain("system"@, system_prompt@)],
                template: system_prompt@,
                accept_all,
                phase: Phase::Idle,
            }),
    {
        let template = system_prompt.clone();
        let mut messages: Vec<ChatMessage> = Vec::new();
        messages.push(ChatMessage::system(system_prompt));
        let app = App {
            security,
            policy: ApprovalPolicy::new(accept_all),
            messages,
            template,
            phase: Phase::Idle,
        };
        assert(app@.messages =~= seq![ChatMessageView::plain("system"@, system_prompt@)]);
        app
    }

    /// Adds a request of the user to the end of the transcript.
    pub fn add_user_message(&mut self, prompt: String)
        ensures
            final(self).gate() == old(self).gate(),
            final(self)@ == old(self)@.appended(ChatMessageView::plain("user"@, prompt@)),
    {
        let ghost before = self@.messages;
        self.messages.push(ChatMessage::user(prompt));
        assert(self@.messages =~= before.push(ChatMessageView::plain("user"@, prompt@)));
    }

    /// The transcript.
    pub fn messages(&self) -> (messages: &Vec<ChatMessage>)
        ensures
            messages_view(messages@) == self@.messages,
    {
        &self.messages
    }

    /// Where the loop stands.
    pub fn phase(&self) -> (phase: Phase)
        ensures
            phase == self@.phase,
    {
        self.phase
    }

    /// Call `cursor` of message `turn`, if there is one.
    fn call_at(&self, turn: usize, cursor: usize) -> (call: Option<&ToolCall>)
        ensures
            match call {
                Some(c) => cursor < self@.calls(turn as int).len() && c@ == self@.calls(
                    turn as int,
                )[cursor as int],
                None => cursor >= self@.calls(turn as int).len(),
            },
    {
        if turn < self.messages.len() {
            match &self.messages[turn].tool_calls {
                Some(calls) => {
                    if cursor < calls.len() {
                        Some(&calls[cursor])
                    } else {
                        None
                    }
                },
                None => None,
            }
        } else {
            None
        }
    }

    /// The operation that call `cursor` of message `turn` asks for.
    fn pending(&self, turn: usize, cursor: usize) -> (operation: Option<Operation>)
        ensures
            match operation {
                Some(op) => self@.pending(turn as int, cursor as int) == Some(op@),
                None => self@.pending(turn as int, cursor as int) is None,
            },
    {
        match self.call_at(turn, cursor) {
            Some(call) => match Operation::plan(call) {
                Ok(Some(operation)) => Some(operation),
                _ => None,
            },
            None => None,
        }
    }

    fn fail(&mut self, error: AgentError) -> (action: Action)
        ensures
            final(self).gate() == old(self).gate(),
            (final(self)@, action@) == old(self)@.failed(error@),
    {
        self.phase = Phase::Idle;
        Action::Fail(error)
    }

    fn approve(&mut self, turn: usize, cursor: usize, operation: Operation) -> (action: Action)
        ensures
            final(self).gate() == old(self).gate(),
            exists|facts: PathFactsView|
                (final(self)@, action@) == #[trigger] approve(
                    old(self).gate(),
                    old(self)@,
                    turn,
                    cursor,
                    operation@,
                    facts,
                ),
    {
        let verdict = authorize(&self.security, &operation);
        let ghost facts = choose|facts: PathFactsView|
            denial_of(verdict) == #[trigger] gate_verdict(self.security, operation@, facts);
        match verdict {
            Err(error) => {
                let action = self.fail(AgentError::Security(error));
                assert((self@, action@) == approve(
                    old(self).gate(),
                    old(self)@,
                    turn,
                    cursor,
                    operation@,
                    facts,
                ));
                action
            },
            Ok(()) => {
                let approval = self.policy.label(&self.security, &operation);
                self.phase = Phase::AwaitingExecution { turn, cursor };
                let action = Action::Execute { operation, approval };
                assert((self@, action@) == approve(
                    old(self).gate(),
                    old(self)@,
                    turn,
                    cursor,
                    operation@,
                    facts,
                ));
                action
            },
        }
    }

    fn advance(&mut self, turn: usize, start: usize) -> (action: Action)
        ensures
            final(self).gate() == old(self).gate(),
            exists|facts: PathFactsView|
                (final(self)@, action@) == #[trigger] advance(
                    old(self).gate(),
                    old(self)@,
                    turn,
                    start,
                    facts,
                ),
    {
        let ghost unread = PathFactsView { absolute: false, in_config_dir: false, extension: None };
        let mut cursor = start;
        loop
            invariant
                *self == *old(self),
                forall|facts: PathFactsView|
                    #[trigger] advance(self.gate(), self@, turn, cursor, facts) == advance(
                        self.gate(),
                        self@,
                        turn,
                        start,
                        facts,
                    ),
            decreases self@.calls(turn as int).len() - cursor,
        {
            let plan = match self.call_at(turn, cursor) {
                Some(call) => {
                    if cursor == usize::MAX {
                        None
                    } else {
                        Some(Operation::plan(call))
                    }
                },
                None => None,
            };
            match plan {
                None => {
                    self.phase = Phase::AwaitingEnvironment;
                    let action = Action::ReadEnvironment;
                    assert((self@, action@) == advance(
                        old(self).gate(),
                        old(self)@,
                        turn,
                        cursor,
                        unread,
                    ));
                    return action;
                },
                Some(Err(error)) => {
                    let action = self.fail(AgentError::Argument(error));
                    assert((self@, action@) == advance(
                        old(self).gate(),
                        old(self)@,
                        turn,
                        cursor,
                        unread,
                    ));
                    return action;
                },
                Some(Ok(None)) => {
                    assert forall|facts: PathFactsView|
                        #[trigger] advance(
                            self.gate(),
                            self@,
                            turn,
                            (cursor + 1) as usize,
                            facts,
                        ) == advance(self.gate(), self@, turn, start, facts) by {
                        assert(advance(self.gate(), self@, turn, cursor, facts) == advance(
                            self.gate(),
                            self@,
                            turn,
                            (cursor + 1) as usize,
                            facts,
                        ));
                    }
                    cursor = cursor + 1;
                },
                Some(Ok(Some(operation))) => {
                    if self.policy.is_accept_all() {
                        let action = self.approve(turn, cursor, operation);
                        let ghost facts = choose|facts: PathFactsView|
                            (self@, action@) == #[trigger] approve(
                                old(self).gate(),
                                old(self)@,
                                turn,
                                cursor,
                                operation@,
                                facts,
                            );
                        assert((self@, action@) == advance(
                            old(self).gate(),
                            old(self)@,
                            turn,
                            cursor,
                            facts,
                        ));
                        return action;
                    } else {
                        let kind = String::from_str(operation.kind().operation());
                        let description = operation.format_operation();
                        self.phase = Phase::AwaitingApproval { turn, cursor };
                        let action = Action::AskOperator { kind, description };
                        assert((self@, action@) == advance(
                            old(self).gate(),
                            old(self)@,
                            turn,
                            cursor,
                            unread,
                        ));
                        return action;
                    }
                },
            }
        }
    }

    /// Brings the system message up to date.
    fn refresh(&mut self, cwd: &Option<String>, flags: &str)
        ensures
            final(self).gate() == old(self).gate(),
            final(self)@ == old(self)@.refreshed(optional_text(*cwd), flags@),
    {
        if self.messages.len() > 0 && self.messages[0].content.is_some() {
            let shown = match cwd {
                Some(dir) => replace(self.template.as_str(), "{{CWD}}", dir.as_str()),
                None => replace(self.template.as_str(), "{{CWD}}", "unknown"),
            };
            let text = replace(shown.as_str(), "{{FLAGS}}", flags);
            let ghost before = self@.messages;
            let mut system = self.messages.remove(0);
            system.content = Some(text);
            self.messages.insert(0, system);
            assert(self@.messages =~= before.update(0, system@));
        }
    }

    /// Resumes the loop with what the caller reports and runs it until it
    /// needs the caller again. The result is that of [`step`]: the
    /// conversation moves as `step` says, and the action returned is the one
    /// that `step` gives, for what the platform said of the path of the
    /// operation that went before the validator, if one did. The security gate
    /// stays as it is.
    pub fn run(&mut self, event: Event) -> (action: Action)
        ensures
            final(self).gate() == old(self).gate(),
            exists|facts: PathFactsView|
                (final(self)@, action@) == #[trigger] step(
                    old(self).gate(),
                    old(self)@,
                    event@,
                    facts,
                ),
    {
        let ghost unread = PathFactsView { absolute: false, in_config_dir: false, extension: None };
        let ghost gate = self.gate();
        let ghost before = self@;
        match (self.phase, event) {
            (Phase::Idle, Event::Start) => {
                self.phase = Phase::AwaitingEnvironment;
                let action = Action::ReadEnvironment;
                assert((self@, action@) == step(gate, before, event@, unread));
                action
            },
            (Phase::AwaitingEnvironment, Event::Environment { cwd, flags }) => {
                self.refresh(&cwd, flags.as_str());
                self.phase = Phase::AwaitingModel;
                let action = Action::QueryModel;
                assert((self@, action@) == step(gate, before, event@, unread));
                action
            },
            (Phase::AwaitingModel, Event::ModelReplied(message)) => {
                let ghost reply = message@;
                self.messages.push(message);
                assert(self@.messages =~= before.messages.push(reply));
                let ghost appended = self@;
                let last = self.messages.len() - 1;
                if self.messages[last].tool_calls.is_some() {
                    let action = self.advance(last, 0);
                    let ghost facts = choose|facts: PathFactsView|
                        (self@, action@) == #[trigger] advance(gate, appended, last, 0, facts);
                    assert((self@, action@) == step(gate, before, event@, facts));
                    action
                } else {
                    let answer = match &self.messages[last].content {
                        Some(text) => Some(text.clone()),
                        None => None,
                    };
                    match answer {
                        Some(text) => {
                            self.phase = Phase::Idle;
                            let action = Action::Finish(Outcome::Answered(text));
                            assert((self@, action@) == step(gate, before, event@, unread));
                            action
                        },
                        None => {
                            self.phase = Phase::AwaitingEnvironment;
                            let action = Action::ReadEnvironment;
                            assert((self@, action@) == step(gate, before, event@, unread));
                            action
                        },
                    }
                }
            },
            (Phase::AwaitingModel, Event::ModelFailed(text)) => {
                let action = self.fail(AgentError::Transport(text));
                assert((self@, action@) == step(gate, before, event@, unread));
                action
            },
            (Phase::AwaitingApproval { turn, cursor }, Event::Answered(answer)) => {
                match self.pending(turn, cursor) {
                    None => {
                        let action = self.fail(AgentError::OutOfTurn);
                        assert((self@, action@) == step(gate, before, event@, unread));
                        action
                    },
                    Some(operation) => match answer {
                        Answer::Accept => {
                            let action = self.approve(turn, cursor, operation);
                            let ghost facts = choose|facts: PathFactsView|
                                (self@, action@) == #[trigger] approve(
                                    gate,
                                    before,
                                    turn,
                                    cursor,
                                    operation@,
                                    facts,
                                );
                            assert((self@, action@) == step(gate, before, event@, facts));
                            action
                        },
                        Answer::Reject => {
                            self.phase = Phase::Idle;
                            let action = Action::Finish(Outcome::Rejected(operation.kind()));
                            assert((self@, action@) == step(gate, before, event@, unread));
                            action
                        },
                        Answer::Cancelled => {
                            let action = self.fail(AgentError::InputCancelled);
                            assert((self@, action@) == step(gate, before, event@, unread));
                            action
                        },
                    },
                }
            },
            (Phase::AwaitingExecution { turn, cursor }, Event::Executed(completion)) => {
                let fits = match self.pending(turn, cursor) {
                    Some(operation) => completion.answers(operation.kind()) && cursor < usize::MAX,
                    None => false,
                };
                let tag = if fits {
                    match self.call_at(turn, cursor) {
                        Some(call) => Some((call.id.clone(), call.function.name.clone())),
                        None => None,
                    }
                } else {
                    None
                };
                match tag {
                    Some((id, name)) => {
                        let ghost result = ChatMessageView::tool_result(
                            id@,
                            name@,
                            completion@.result_text(),
                        );
                        let message = ChatMessage::tool_result(
                            id.as_str(),
                            name.as_str(),
                            completion.into_result_text(),
                        );
                        self.messages.push(message);
                        assert(self@.messages =~= before.messages.push(result));
                        let ghost appended = self@;
                        let action = self.advance(turn, cursor + 1);
                        let ghost facts = choose|facts: PathFactsView|
                            (self@, action@) == #[trigger] advance(
                                gate,
                                appended,
                                turn,
                                (cursor + 1) as usize,
                                facts,
                            );
                        assert((self@, action@) == step(gate, before, event@, facts));
                        action
                    },
                    None => {
                        let action = self.fail(AgentError::OutOfTurn);
                        assert((self@, action@) == step(gate, before, event@, unread));
                        action
                    },
                }
            },
            (Phase::AwaitingExecution { .. }, Event::ExecutionFailed(text)) => {
                let action = self.fail(AgentError::Execution(text));
                assert((self@, action@) == step(gate, before, event@, unread));
                action
            },
            (_, _) => {
                let action = self.fail(AgentError::OutOfTurn);
                assert((self@, action@) == step(gate, before, event@, unread));
                action
            },
        }
    }

    /// The security gate of the conversation.
    pub fn security(&self) -> (gate: &SecurityValidator)
        ensures
            *gate == self.gate(),
    {
        &self.security
    }
}

/// Whether `later` is `earlier` grown: nothing was taken away, nothing after
/// the system message was changed, and the system message changed in its
/// content at most.
pub open spec fn grown_from(later: Seq<ChatMessageView>, earlier: Seq<ChatMessageView>) -> bool {
    &&& earlier.len() <= later.len()
    &&& forall|k: int| 1 <= k < earlier.len() ==> later[k] == earlier[k]
    &&& earlier.len() > 0 ==> later[0] == (ChatMessageView {
        content: later[0].content,
        ..earlier[0]
    })
}

/// Whether a step that ends in `action`, in the conversation `app`, is the
/// carrying out of an operation that is pending in `app`, that has passed the
/// security gate and that bears the label of its approval.
pub open spec fn execution_is_sound(
    gate: SecurityValidator,
    app: AppView,
    action: ActionView,
    facts: PathFactsView,
) -> bool {
    action matches ActionView::Execute { operation, approval } ==> {
        &&& app.phase matches Phase::AwaitingExecution { turn, cursor }
        &&& app.pending(turn as int, cursor as int) == Some(operation)
        &&& gate_verdict(gate, operation, facts) is None
        &&& gate.config().security.allowed_operations.permits(operation.kind().operation_text())
        &&& operation.path() matches Some(path) ==> !gate.ignores(path)
        &&& approval == approval_label(app.accept_all, whitelisted(gate, operation))
    }
}

/// Whether a step that ends in `action`, in the conversation `app`, is a
/// question about an operation that is pending in `app`.
pub open spec fn question_is_sound(app: AppView, action: ActionView) -> bool {
    action matches ActionView::AskOperator { kind, description } ==> {
        &&& !app.accept_all
        &&& app.phase matches Phase::AwaitingApproval { turn, cursor }
        &&& app.pending(turn as int, cursor as int) matches Some(operation)
        &&& kind == operation.kind().operation_text()
        &&& description == operation.description()
    }
}

/// Taking up the calls of a message leaves the transcript alone, asks only
/// about pending operations and hands out only operations that passed the
/// security gate.
pub proof fn lemma_advance(
    gate: SecurityValidator,
    app: AppView,
    turn: usize,
    cursor: usize,
    facts: PathFactsView,
)
    ensures
        ({
            let (next, action) = advance(gate, app, turn, cursor, facts);
            &&& next == app.at(next.phase)
            &&& execution_is_sound(gate, next, action, facts)
            &&& question_is_sound(next, action)
            &&& app.accept_all ==> !(action is AskOperator)
            &&& !app.accept_all ==> !(action is Execute)
            &&& !(action is QueryModel) && !(action is Finish)
            &&& (action is Fail || action is Finish) <==> next.phase == Phase::Idle
            &&& next.phase matches Phase::AwaitingApproval { turn: t, cursor: c } ==> t == turn
                && c >= cursor
            &&& next.phase matches Phase::AwaitingExecution { turn: t, cursor: c } ==> t == turn
                && c >= cursor
        }),
    decreases app.calls(turn as int).len() - cursor,
{
    let calls = app.calls(turn as int);
    if cursor < calls.len() && cursor < usize::MAX {
        match planned(calls[cursor as int]) {
            Ok(None) => {
                lemma_advance(gate, app, turn, (cursor + 1) as usize, facts);
            },
            _ => {},
        }
    }
}

/// Every step leaves the transcript grown: messages are added at the end and
/// never removed or changed, but for the content of the system message, and
/// the prompt template and the mode stay as they are.
pub proof fn law_transcript_grows(
    gate: SecurityValidator,
    app: AppView,
    event: EventView,
    facts: PathFactsView,
)
    ensures
        grown_from(step(gate, app, event, facts).0.messages, app.messages),
        step(gate, app, event, facts).0.template == app.template,
        step(gate, app, event, facts).0.accept_all == app.accept_all,
{
    match (app.phase, event) {
        (Phase::AwaitingModel, EventView::ModelReplied(message)) => {
            let grown = app.appended(message);
            let last = grown.messages.len() - 1;
            if 0 <= last <= usize::MAX {
                lemma_advance(gate, grown, last as usize, 0, facts);
            }
        },
        (Phase::AwaitingExecution { turn, cursor }, EventView::Executed(completion)) => {
            if app.pending(turn as int, cursor as int) is Some && cursor < usize::MAX {
                let call = app.calls(turn as int)[cursor as int];
                let grown = app.appended(
                    ChatMessageView::tool_result(call.id, call.name, completion.result_text()),
                );
                lemma_advance(gate, grown, turn, (cursor + 1) as usize, facts);
            }
        },
        _ => {},
    }
}

/// What the model answers is added to the transcript before anything is done
/// with it: whatever the step leads to, the transcript after it is the
/// transcript before it with the answer at its end.
pub proof fn law_reply_is_recorded(
    gate: SecurityValidator,
    app: AppView,
    message: ChatMessageView,
    facts: PathFactsView,
)
    requires
        app.phase == Phase::AwaitingModel,
    ensures
        step(gate, app, EventView::ModelReplied(message), facts).0.messages == app.messages.push(
            message,
        ),
{
    let grown = app.appended(message);
    let last = grown.messages.len() - 1;
    if 0 <= last <= usize::MAX {
        lemma_advance(gate, grown, last as usize, 0, facts);
    }
}

/// An answer of the model that asks for no tools and holds a text ends the
/// run with that text; nothing else ends a run with an answer. (The
/// transcript is one that fits into the machine.)
pub proof fn law_plain_answer_ends_the_run(
    gate: SecurityValidator,
    app: AppView,
    event: EventView,
    text: Seq<char>,
    facts: PathFactsView,
)
    requires
        app.messages.len() < usize::MAX,
    ensures
        step(gate, app, event, facts).1 == ActionView::Finish(OutcomeView::Answered(text)) <==> app.phase
            == Phase::AwaitingModel && (event matches EventView::ModelReplied(message)
            && message.tool_calls is None && message.content == Some(text)),
        step(gate, app, event, facts).1 == ActionView::Finish(OutcomeView::Answered(text)) ==> step(
            gate,
            app,
            event,
            facts,
        ).0.phase == Phase::Idle,
{
    match (app.phase, event) {
        (Phase::AwaitingModel, EventView::ModelReplied(message)) => {
            let grown = app.appended(message);
            let last = grown.messages.len() - 1;
            if 0 <= last <= usize::MAX {
                lemma_advance(gate, grown, last as usize, 0, facts);
            }
        },
        (Phase::AwaitingExecution { turn, cursor }, EventView::Executed(completion)) => {
            if app.pending(turn as int, cursor as int) is Some && cursor < usize::MAX {
                let call = app.calls(turn as int)[cursor as int];
                let grown = app.appended(
                    ChatMessageView::tool_result(call.id, call.name, completion.result_text()),
                );
                lemma_advance(gate, grown, turn, (cursor + 1) as usize, facts);
            }
        },
        _ => {},
    }
}

/// When the operator rejects an operation the run ends there, without an
/// error: the transcript stays as it is, nothing is carried out and the model
/// is not asked again.
pub proof fn law_rejection_stops(
    gate: SecurityValidator,
    app: AppView,
    turn: usize,
    cursor: usize,
    facts: PathFactsView,
)
    requires
        app.phase == (Phase::AwaitingApproval { turn, cursor }),
        app.pending(turn as int, cursor as int) is Some,
    ensures
        step(gate, app, EventView::Answered(Answer::Reject), facts) == (
            app.at(Phase::Idle),
            ActionView::Finish(
                OutcomeView::Rejected(app.pending(turn as int, cursor as int).unwrap().kind()),
            ),
        ),
{
}

/// A loop that is not running does nothing until it is started: any other
/// report is refused and changes nothing.
pub proof fn law_idle_waits_for_start(
    gate: SecurityValidator,
    app: AppView,
    event: EventView,
    facts: PathFactsView,
)
    requires
        app.phase == Phase::Idle,
        !(event is Start),
    ensures
        step(gate, app, event, facts) == (app, ActionView::Fail(Failure::OutOfTurn)),
{
}

/// Nothing is carried out that has not passed the security gate, whatever the
/// mode and whatever the operator said: an operation that is handed out is
/// the pending one, its kind is permitted, no ignore pattern matches its
/// path, and the validator's verdict on it is to let it pass.
pub proof fn law_execution_passed_gate(
    gate: SecurityValidator,
    app: AppView,
    event: EventView,
    facts: PathFactsView,
)
    ensures
        execution_is_sound(
            gate,
            step(gate, app, event, facts).0,
            step(gate, app, event, facts).1,
            facts,
        ),
{
    match (app.phase, event) {
        (Phase::AwaitingModel, EventView::ModelReplied(message)) => {
            let grown = app.appended(message);
            let last = grown.messages.len() - 1;
            if 0 <= last <= usize::MAX {
                lemma_advance(gate, grown, last as usize, 0, facts);
            }
        },
        (Phase::AwaitingExecution { turn, cursor }, EventView::Executed(completion)) => {
            if app.pending(turn as int, cursor as int) is Some && cursor < usize::MAX {
                let call = app.calls(turn as int)[cursor as int];
                let grown = app.appended(
                    ChatMessageView::tool_result(call.id, call.name, completion.result_text()),
                );
                lemma_advance(gate, grown, turn, (cursor + 1) as usize, facts);
            }
        },
        _ => {},
    }
}

/// The two modes: when everything is accepted the operator is never asked;
/// otherwise an operation is handed out only in answer to the operator's
/// acceptance, and is labelled so.
pub proof fn law_modes(gate: SecurityValidator, app: AppView, event: EventView, facts: PathFactsView)
    ensures
        app.accept_all ==> !(step(gate, app, event, facts).1 is AskOperator),
        !app.accept_all && step(gate, app, event, facts).1 is Execute ==> event == EventView::Answered(
            Answer::Accept,
        ) && step(gate, app, event, facts).1->Execute_approval == Approval::Operator,
{
    match (app.phase, event) {
        (Phase::AwaitingModel, EventView::ModelReplied(message)) => {
            let grown = app.appended(message);
            let last = grown.messages.len() - 1;
            if 0 <= last <= usize::MAX {
                lemma_advance(gate, grown, last as usize, 0, facts);
            }
        },
        (Phase::AwaitingExecution { turn, cursor }, EventView::Executed(completion)) => {
            if app.pending(turn as int, cursor as int) is Some && cursor < usize::MAX {
                let call = app.calls(turn as int)[cursor as int];
                let grown = app.appended(
                    ChatMessageView::tool_result(call.id, call.name, completion.result_text()),
                );
                lemma_advance(gate, grown, turn, (cursor + 1) as usize, facts);
            }
        },
        _ => {},
    }
}

/// An approved operation of a kind that the configuration does not permit is
/// not carried out: the run fails with the validator's denial, in either mode.
pub proof fn law_forbidden_kind_fails(
    gate: SecurityValidator,
    app: AppView,
    turn: usize,
    cursor: usize,
    operation: OperationView,
    facts: PathFactsView,
)
    requires
        !gate.config().security.allowed_operations.permits(operation.kind().operation_text()),
    ensures
        approve(gate, app, turn, cursor, operation, facts) == app.failed(
            Failure::Security(
                SecurityDenial::OperationNotAllowed(operation.kind().operation_text()),
            ),
        ),
{
}

/// The result of a tool is recorded under the identifier of the call that it
/// answers and the name of that call's tool, right after the messages that
/// were there, and its content is the text that the operation gave back.
pub proof fn law_result_answers_call(
    gate: SecurityValidator,
    app: AppView,
    turn: usize,
    cursor: usize,
    completion: CompletionView,
    facts: PathFactsView,
)
    requires
        app.phase == (Phase::AwaitingExecution { turn, cursor }),
        app.pending(turn as int, cursor as int) matches Some(operation) && completion.answers(
            operation.kind(),
        ),
        cursor < usize::MAX,
    ensures
        ({
            let call = app.calls(turn as int)[cursor as int];
            step(gate, app, EventView::Executed(completion), facts).0.messages
                == app.messages.push(
                ChatMessageView::tool_result(call.id, call.name, completion.result_text()),
            )
        }),
{
    let call = app.calls(turn as int)[cursor as int];
    let grown = app.appended(
        ChatMessageView::tool_result(call.id, call.name, completion.result_text()),
    );
    lemma_advance(gate, grown, turn, (cursor + 1) as usize, facts);
}

/// Whether message `k` is the result of one of the first `cursor` calls of
/// message `turn`.
pub open spec fn answers_turn(messages: Seq<ChatMessageView>, turn: int, cursor: int, k: int) -> bool {
    let calls = messages[turn].tool_calls.unwrap();
    &&& messages[k].role == "tool"@
    &&& messages[turn].tool_calls is Some
    &&& exists|i: int|
        0 <= i < cursor && i < calls.len() && messages[k].tool_call_id == Some(
            #[trigger] calls[i].id,
        )
}

/// The message whose calls are being taken up, and the call that the loop
/// has come to, while it is taking up calls.
pub open spec fn taking_up(phase: Phase) -> Option<(int, int)> {
    match phase {
        Phase::AwaitingApproval { turn, cursor } => Some((turn as int, cursor as int)),
        Phase::AwaitingExecution { turn, cursor } => Some((turn as int, cursor as int)),
        _ => None,
    }
}

/// Whether, while the calls of a message are taken up, everything that
/// follows that message in the transcript is the result of one of its calls
/// that have been taken up already.
pub open spec fn results_follow_their_turn(app: AppView) -> bool {
    match taking_up(app.phase) {
        Some(at) => results_follow(app.messages, at.0, at.1),
        None => true,
    }
}

/// Whether everything that follows message `turn` is the result of one of
/// its first `cursor` calls.
pub open spec fn results_follow(messages: Seq<ChatMessageView>, turn: int, cursor: int) -> bool {
    &&& 0 <= turn < messages.len()
    &&& forall|k: int|
        turn < k < messages.len() ==> #[trigger] answers_turn(messages, turn, cursor, k)
}

/// The result of a tool names a call of the message that asked for it, and
/// nothing but results of that message stands between the two: a step of the
/// loop keeps this so, from any conversation in which it is so.
pub proof fn law_results_follow_their_turn(
    gate: SecurityValidator,
    app: AppView,
    event: EventView,
    facts: PathFactsView,
)
    requires
        results_follow_their_turn(app),
    ensures
        results_follow_their_turn(step(gate, app, event, facts).0),
{
    let (next, action) = step(gate, app, event, facts);
    match (app.phase, event) {
        (Phase::AwaitingModel, EventView::ModelReplied(message)) => {
            let grown = app.appended(message);
            let last = grown.messages.len() - 1;
            if 0 <= last <= usize::MAX {
                lemma_advance(gate, grown, last as usize, 0, facts);
            }
        },
        (Phase::AwaitingExecution { turn, cursor }, EventView::Executed(completion)) => {
            if app.pending(turn as int, cursor as int) is Some && cursor < usize::MAX {
                let calls = app.calls(turn as int);
                let call = calls[cursor as int];
                let grown = app.appended(
                    ChatMessageView::tool_result(call.id, call.name, completion.result_text()),
                );
                lemma_advance(gate, grown, turn, (cursor + 1) as usize, facts);
                if taking_up(next.phase) is Some {
                    let (t, c) = taking_up(next.phase).unwrap();
                    assert forall|k: int| turn < k < next.messages.len() implies #[trigger] answers_turn(
                        next.messages,
                        t,
                        c,
                        k,
                    ) by {
                        if k < app.messages.len() {
                            assert(answers_turn(app.messages, turn as int, cursor as int, k));
                        }
                    }
                }
            }
        },
        _ => {},
    }
}

/// The conversation after a row of reports, each answered by a step of the
/// loop. `facts` holds, for each step, what the platform says of the path
/// that is judged in it.
pub open spec fn after_events(
    gate: SecurityValidator,
    app: AppView,
    events: Seq<EventView>,
    facts: Seq<PathFactsView>,
) -> AppView
    decreases events.len(),
{
    if events.len() == 0 {
        app
    } else {
        after_events(gate, step(gate, app, events[0], facts[0]).0, events.skip(1), facts.skip(1))
    }
}

/// What the caller is told to do in answer to a row of reports, one action
/// for each.
pub open spec fn actions_for(
    gate: SecurityValidator,
    app: AppView,
    events: Seq<EventView>,
    facts: Seq<PathFactsView>,
) -> Seq<ActionView>
    decreases events.len(),
{
    if events.len() == 0 {
        Seq::empty()
    } else {
        seq![step(gate, app, events[0], facts[0]).1] + actions_for(
            gate,
            step(gate, app, events[0], facts[0]).0,
            events.skip(1),
            facts.skip(1),
        )
    }
}

/// As long as a loop that is not running is not started, whatever is
/// reported to it is refused: nothing is carried out, the model is not
/// asked, and the conversation stays as it is.
pub proof fn lemma_idle_stays_idle(
    gate: SecurityValidator,
    app: AppView,
    events: Seq<EventView>,
    facts: Seq<PathFactsView>,
)
    requires
        app.phase == Phase::Idle,
        forall|i: int| 0 <= i < events.len() ==> !(#[trigger] events[i] is Start),
    ensures
        after_events(gate, app, events, facts) == app,
        actions_for(gate, app, events, facts).len() == events.len(),
        forall|i: int|
            0 <= i < events.len() ==> #[trigger] actions_for(gate, app, events, facts)[i]
                == ActionView::Fail(Failure::OutOfTurn),
    decreases events.len(),
{
    if events.len() > 0 {
        lemma_idle_stays_idle(gate, app, events.skip(1), facts.skip(1));
    }
}

/// Once the operator has rejected an operation, nothing more happens in that
/// run: whatever is reported afterwards, short of starting the loop again,
/// no operation is carried out, the model is not asked, and the transcript
/// stays as it was when the operation was put to the operator. In
/// particular the calls that follow the rejected one in the same message are
/// never taken up.
pub proof fn law_nothing_runs_after_rejection(
    gate: SecurityValidator,
    app: AppView,
    turn: usize,
    cursor: usize,
    later: Seq<EventView>,
    facts: Seq<PathFactsView>,
)
    requires
        app.phase == (Phase::AwaitingApproval { turn, cursor }),
        app.pending(turn as int, cursor as int) is Some,
        forall|i: int| 0 <= i < later.len() ==> !(#[trigger] later[i] is Start),
    ensures
        ({
            let events = seq![EventView::Answered(Answer::Reject)] + later;
            &&& after_events(gate, app, events, facts) == app.at(Phase::Idle)
            &&& actions_for(gate, app, events, facts).len() == events.len()
            &&& actions_for(gate, app, events, facts)[0] is Finish
            &&& forall|i: int|
                1 <= i < events.len() ==> #[trigger] actions_for(gate, app, events, facts)[i]
                    == ActionView::Fail(Failure::OutOfTurn)
        }),
{
    let events = seq![EventView::Answered(Answer::Reject)] + later;
    let stopped = app.at(Phase::Idle);
    assert(events.skip(1) =~= later);
    lemma_idle_stays_idle(gate, stopped, later, facts.skip(1));
}

} // verus!
