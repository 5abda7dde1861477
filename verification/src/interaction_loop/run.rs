//! The task as a state machine.
//!
//! A [`Session`] decides; it never performs. Each call hands back a [`Turn`]:
//! either a [`Request`] for the outside world (ask a model, run a script, read
//! or write a file) or the news that the action has ended. The caller performs
//! the request and hands the [`Reply`] to [`Session::step`].

use crate::actions::markdown::{strip_fences, strip_wrapping_markdown_code_fences};
use crate::container::{Output, OutputView, ReadFileError, ReadFileErrorView};
use crate::interaction_loop::history::{History, HistoryView};
use crate::interaction_loop::prompts::{
    ACTION_BASH, ACTION_COMPLETE_TASK_DESCRIPTION, ACTION_EDITED, ACTION_EDIT_CREATE,
    ACTION_EDIT_DISCUSS, ACTION_EDIT_FILEPATH, ACTION_EDIT_REPLACE, ACTION_END_TASK_DISCUSS,
    ACTION_END_TASK_SELECT, ACTION_FAIL_TASK_DESCRIPTION, ACTION_FAIL_TASK_REASON_DISCUSS,
    ACTION_FAIL_TASK_REASON_SELECT, ACTION_READ_FILEPATH, DISCUSS_ACTION, DISCUSS_BASH,
    DISCUSS_EDIT_FILE, DISCUSS_FIRST, DISCUSS_READ_FILE, INTRO_1, INTRO_2, SELECT_ACTION,
};
use crate::interaction_loop::resources::Resources;
use crate::llm::{
    clone_items, Content, ContentItemView, Prompt, PromptItem, PromptItemView,
};
use crate::text::{decimal, push_decimal, push_signed_decimal, signed_decimal};
use vstd::prelude::*;
use vstd::string::*;

verus! {

/// The name of the model that plans, writes and explains.
pub const SMART_MODEL: &'static str = "o1-mini";

/// The name of the model that picks one of a few names and summarizes.
pub const BASIC_MODEL: &'static str = "gpt-4o-mini";

/// Which of the two models a prompt goes to.
#[derive(Clone, Copy, Debug, PartialEq, Eq, Structural)]
pub enum Model {
    /// The capable model: plans, code, file contents, closing summaries.
    Reasoning,
    /// The cheap model: short selections and the summary of an action.
    Basic,
}

impl Model {
    /// The default name of the model.
    pub open spec fn spec_name(self) -> Seq<char> {
        match self {
            Model::Reasoning => SMART_MODEL@,
            Model::Basic => BASIC_MODEL@,
        }
    }

    /// The default name of the model.
    pub fn name(self) -> (name: &'static str)
        ensures
            name@ == self.spec_name(),
    {
        match self {
            Model::Reasoning => SMART_MODEL,
            Model::Basic => BASIC_MODEL,
        }
    }
}

/// The names of the two models. Any pair can be set; the default pair is
/// [`SMART_MODEL`] and [`BASIC_MODEL`].
#[derive(Debug, PartialEq, Eq)]
pub struct Models {
    pub reasoning: String,
    pub basic: String,
}

impl Default for Models {
    fn default() -> (models: Models)
        ensures
            models.reasoning@ == SMART_MODEL@,
            models.basic@ == BASIC_MODEL@,
    {
        Models { reasoning: SMART_MODEL.to_owned(), basic: BASIC_MODEL.to_owned() }
    }
}

impl Models {
    /// The name of the given model.
    pub fn name(&self, model: Model) -> (name: &str)
        ensures
            name@ == (match model {
                Model::Reasoning => self.reasoning@,
                Model::Basic => self.basic@,
            }),
    {
        match model {
            Model::Reasoning => self.reasoning.as_str(),
            Model::Basic => self.basic.as_str(),
        }
    }
}

/// Where a task stands.
#[derive(Clone, Copy, Debug, PartialEq, Eq, Structural)]
pub enum TaskStatus {
    Running,
    Complete,
    Failure,
}

/// A task as it is handed to the agent.
#[derive(Debug, PartialEq, Eq)]
pub struct Task {
    /// What is to be done, in words.
    pub description: String,
    /// The address of the repository to work on.
    pub git_repo_url: String,
    /// The branch to work on.
    pub git_branch: String,
    /// The name under which the agent commits.
    pub git_user_name: String,
    /// The address under which the agent commits.
    pub git_user_email: String,
    /// Where the task stands.
    pub status: TaskStatus,
}

/// The four actions that the model can choose from.
#[derive(Clone, Copy, Debug, PartialEq, Eq, Structural)]
pub enum ActionKind {
    Bash,
    ReadFile,
    EditFile,
    EndTask,
}

/// Why a task failed, as the model classified it.
#[derive(Clone, Copy, Debug, PartialEq, Eq, Structural)]
pub enum TaskFailureReason {
    TechnicalIssues,
    TaskIssues,
    ProblemSolving,
    /// The model named no known reason.
    Unknown,
}

/// How the task ended.
#[derive(Debug, PartialEq, Eq)]
pub enum TaskOutcome {
    Complete { description: String },
    Failure { reason: TaskFailureReason, description: String },
}

/// What a [`TaskOutcome`] holds, as mathematical values.
pub enum TaskOutcomeView {
    Complete { description: Seq<char> },
    Failure { reason: TaskFailureReason, description: Seq<char> },
}

impl View for TaskOutcome {
    type V = TaskOutcomeView;

    open spec fn view(&self) -> TaskOutcomeView {
        match self {
            TaskOutcome::Complete { description } => TaskOutcomeView::Complete {
                description: description@,
            },
            TaskOutcome::Failure { reason, description } => TaskOutcomeView::Failure {
                reason: *reason,
                description: description@,
            },
        }
    }
}

/// How an action ended.
#[derive(Debug, PartialEq, Eq)]
pub enum ActionResult {
    /// The task is over.
    EndTask(TaskOutcome),
    /// The action is recorded; the next one can begin.
    Continue,
}

/// What an [`ActionResult`] holds, as mathematical values.
pub enum ActionResultView {
    EndTask(TaskOutcomeView),
    Continue,
}

impl View for ActionResult {
    type V = ActionResultView;

    open spec fn view(&self) -> ActionResultView {
        match self {
            ActionResult::EndTask(outcome) => ActionResultView::EndTask(outcome@),
            ActionResult::Continue => ActionResultView::Continue,
        }
    }
}

/// What the session wants done before it can go on.
#[derive(Debug, PartialEq, Eq)]
pub enum Request {
    /// Send the prompt to the model and hand back its completion.
    Prompt { model: Model, prompt: Prompt },
    /// Run the script in the container and hand back what it left behind.
    RunScript { code: String },
    /// Read the file from the container.
    ReadFile { path: String },
    /// Write the file into the container.
    WriteFile { path: String, content: String },
}

/// What a [`Request`] holds, as mathematical values.
pub enum RequestView {
    Prompt { model: Model, prompt: Seq<PromptItemView> },
    RunScript { code: Seq<char> },
    ReadFile { path: Seq<char> },
    WriteFile { path: Seq<char>, content: Seq<char> },
}

impl View for Request {
    type V = RequestView;

    open spec fn view(&self) -> RequestView {
        match self {
            Request::Prompt { model, prompt } => RequestView::Prompt {
                model: *model,
                prompt: prompt@,
            },
            Request::RunScript { code } => RequestView::RunScript { code: code@ },
            Request::ReadFile { path } => RequestView::ReadFile { path: path@ },
            Request::WriteFile { path, content } => RequestView::WriteFile {
                path: path@,
                content: content@,
            },
        }
    }
}

/// What the outside world answered.
#[derive(Debug, PartialEq, Eq)]
pub enum Reply {
    /// The model's completion.
    Completion(String),
    /// What the script left behind.
    ScriptOutput(Output),
    /// The content of the file, or why it could not be read.
    FileContent(Result<String, ReadFileError>),
    /// The file was written.
    FileWritten,
}

/// What a [`Reply`] holds, as mathematical values.
pub enum ReplyView {
    Completion(Seq<char>),
    ScriptOutput(OutputView),
    FileContent(Result<Seq<char>, ReadFileErrorView>),
    FileWritten,
}

impl View for Reply {
    type V = ReplyView;

    open spec fn view(&self) -> ReplyView {
        match self {
            Reply::Completion(text) => ReplyView::Completion(text@),
            Reply::ScriptOutput(output) => ReplyView::ScriptOutput(output@),
            Reply::FileContent(content) => ReplyView::FileContent(file_content_view(*content)),
            Reply::FileWritten => ReplyView::FileWritten,
        }
    }
}

/// What came back for a file, as mathematical values.
pub open spec fn file_content_view(content: Result<String, ReadFileError>) -> Result<
    Seq<char>,
    ReadFileErrorView,
> {
    match content {
        Ok(text) => Ok(text@),
        Err(error) => Err(error@),
    }
}

/// What the caller does next.
#[derive(Debug, PartialEq, Eq)]
pub enum Turn {
    /// Perform the request and hand the reply to [`Session::step`].
    Ask(Request),
    /// The action has ended.
    Ended(ActionResult),
}

/// What a [`Turn`] holds, as mathematical values.
pub enum TurnView {
    Ask(RequestView),
    Ended(ActionResultView),
}

impl View for Turn {
    type V = TurnView;

    open spec fn view(&self) -> TurnView {
        match self {
            Turn::Ask(request) => TurnView::Ask(request@),
            Turn::Ended(result) => TurnView::Ended(result@),
        }
    }
}

/// Why the session refused a call. A refused call changes nothing.
#[derive(Clone, Copy, Debug, PartialEq, Eq, Structural)]
pub enum StepError {
    /// The model named an action that does not exist.
    UnknownActionName,
    /// The model named an exit status that does not exist.
    UnknownTaskEnding,
    /// The reply does not answer the request that is open.
    UnexpectedReply,
    /// No request is open: an action has to begin first.
    NoActionInProgress,
    /// An action is under way: it has to end before the next begins.
    ActionInProgress,
    /// The task has ended.
    TaskEnded,
}

/// Where the session stands: between actions, waiting for one particular
/// reply, or finished.
#[derive(Clone, Copy, Debug, PartialEq, Eq, Structural)]
pub enum Phase {
    /// Between two actions.
    Idle,
    /// Waiting for the plan that precedes the first action.
    FirstDiscussion,
    /// Waiting for the discussion of which action to take.
    ActionDiscussion,
    /// Waiting for the name of the action.
    ActionSelection,
    /// Waiting for the script.
    BashCode,
    /// Waiting for what the script left behind.
    BashOutput,
    /// Waiting for the path of the file to read.
    ReadPath,
    /// Waiting for the content of the file to read.
    ReadContent,
    /// Waiting for the path of the file to edit.
    EditPath,
    /// Waiting for the content of the file to edit.
    EditContent,
    /// Waiting for the content of a new file.
    EditCreate,
    /// Waiting for the discussion of the changes.
    EditDiscussion,
    /// Waiting for the new content of an existing file.
    EditReplace,
    /// Waiting for the file to be written.
    EditWrite,
    /// Waiting for the discussion that closes an action.
    FollowUp,
    /// Waiting for the summary of the action.
    Summary,
    /// Waiting for the discussion of how the task ends.
    EndDiscussion,
    /// Waiting for the name of the exit status.
    EndSelection,
    /// Waiting for the closing summary of a completed task.
    CompleteDescription,
    /// Waiting for the closing summary of a failed task.
    FailDescription,
    /// Waiting for the discussion of the kind of failure.
    FailReasonDiscussion,
    /// Waiting for the name of the kind of failure.
    FailReasonSelection,
    /// The task has ended.
    Finished,
}

/// A message of the system with the given text.
pub open spec fn system(text: Seq<char>) -> PromptItemView {
    PromptItemView::System { text }
}

/// A message of the model with the given text.
pub open spec fn assistant(text: Seq<char>) -> PromptItemView {
    PromptItemView::Assistant { text }
}

/// The messages that every prompt of a task starts with: the role, the task
/// and the list of actions.
pub open spec fn initial_prefix(description: Seq<char>) -> Seq<PromptItemView> {
    seq![
        system(INTRO_1@),
        PromptItemView::User { content: seq![ContentItemView::Text { text: description }] },
        system(INTRO_2@),
    ]
}

/// The text that opens action `n`.
pub open spec fn begin_text(n: nat) -> Seq<char> {
    "BEGIN ACTION "@ + decimal(n)
}

/// The text that closes action `n`.
pub open spec fn end_text(n: nat) -> Seq<char> {
    "END ACTION "@ + decimal(n)
}

/// The text that asks for the summary of action `n`.
pub open spec fn summarize_text(n: nat) -> Seq<char> {
    "Summarize what you have done in action "@ + decimal(n) + "."@
}

/// The text that shows the model what a script left behind.
pub open spec fn script_report(output: OutputView) -> Seq<char> {
    "Stdout: \n```\n"@ + output.stdout + "\n```\nStderr: \n```\n"@ + output.stderr
        + "\n```\nExit status: "@ + signed_decimal(output.exit_code as int) + "\n"@
}

/// The text that tells the model that reading a file failed.
pub open spec fn read_error_text(message: Seq<char>) -> Seq<char> {
    "An error occured while reading the file: "@ + message
}

/// The text that precedes the content of a file.
pub open spec fn file_content_text(path: Seq<char>) -> Seq<char> {
    "The content of `"@ + path + "` is:"@
}

/// The action that a name stands for. Names are matched as they are: no
/// trimming, no folding of case.
pub open spec fn parse_action(name: Seq<char>) -> Option<ActionKind> {
    if name == "bash"@ {
        Some(ActionKind::Bash)
    } else if name == "read-file"@ {
        Some(ActionKind::ReadFile)
    } else if name == "edit-file"@ {
        Some(ActionKind::EditFile)
    } else if name == "end-task"@ {
        Some(ActionKind::EndTask)
    } else {
        None
    }
}

/// The kind of failure that a name stands for; any other name is `Unknown`.
pub open spec fn parse_failure_reason(name: Seq<char>) -> TaskFailureReason {
    if name == "technical-issues"@ {
        TaskFailureReason::TechnicalIssues
    } else if name == "task-issues"@ {
        TaskFailureReason::TaskIssues
    } else if name == "problem-solving"@ {
        TaskFailureReason::ProblemSolving
    } else {
        TaskFailureReason::Unknown
    }
}

/// What a [`Session`] holds, as mathematical values.
pub struct SessionView {
    /// Where the session stands.
    pub phase: Phase,
    /// The actions that are finished and recorded.
    pub history: HistoryView,
    /// The files touched so far.
    pub resources: Set<Seq<char>>,
    /// The messages of the action under way.
    pub messages: Seq<PromptItemView>,
    /// The path that the action under way works on.
    pub path: Seq<char>,
    /// The closing summary of a failed task, once the model gave it.
    pub description: Seq<char>,
}

impl SessionView {
    /// A session that has taken no action yet.
    pub open spec fn start(description: Seq<char>) -> SessionView {
        SessionView {
            phase: Phase::Idle,
            history: HistoryView::new(initial_prefix(description)),
            resources: Set::empty(),
            messages: Seq::empty(),
            path: Seq::empty(),
            description: Seq::empty(),
        }
    }

    /// The number of the action under way.
    pub open spec fn action_number(self) -> nat {
        self.history.actions.len()
    }

    /// The prompt as the model sees it: the compressed history, then the
    /// messages of the action under way.
    pub open spec fn prompt(self) -> Seq<PromptItemView> {
        self.history.compressed() + self.messages
    }

    /// The session with one more message in the action under way.
    pub open spec fn add(self, item: PromptItemView) -> SessionView {
        SessionView { messages: self.messages.push(item), ..self }
    }

    /// The session with one more file in the ledger.
    pub open spec fn touch(self, path: Seq<char>) -> SessionView {
        SessionView { resources: self.resources.insert(path), ..self }
    }

    /// The session in another phase.
    pub open spec fn at(self, phase: Phase) -> SessionView {
        SessionView { phase, ..self }
    }

    /// Moves to `phase` and sends the whole prompt to `model`.
    pub open spec fn ask(self, phase: Phase, model: Model) -> (SessionView, TurnView) {
        (self.at(phase), TurnView::Ask(RequestView::Prompt { model, prompt: self.prompt() }))
    }

    /// Moves to `phase` and hands out `request`.
    pub open spec fn request(self, phase: Phase, request: RequestView) -> (SessionView, TurnView) {
        (self.at(phase), TurnView::Ask(request))
    }

    /// Begins the next action: the opening message, then the first question.
    /// Before the very first action the model is asked for a plan; later
    /// actions start with the discussion of which action to take.
    pub open spec fn begin_action(self) -> Result<(SessionView, TurnView), StepError> {
        if self.phase == Phase::Finished {
            Err(StepError::TaskEnded)
        } else if self.phase != Phase::Idle {
            Err(StepError::ActionInProgress)
        } else {
            let opened = self.add(system(begin_text(self.action_number())));
            if self.action_number() == 0 {
                Ok(opened.add(system(DISCUSS_FIRST@)).ask(Phase::FirstDiscussion, Model::Reasoning))
            } else {
                Ok(opened.add(system(DISCUSS_ACTION@)).ask(Phase::ActionDiscussion, Model::Basic))
            }
        }
    }

    /// Closes the action: the closing message, then the request for a summary.
    /// The request for the summary is sent with the prompt but is not part of
    /// the action's messages.
    pub open spec fn close_action(self, discussion: Seq<char>) -> (SessionView, TurnView) {
        let closed = self.add(assistant(discussion)).add(system(end_text(self.action_number())));
        closed.request(
            Phase::Summary,
            RequestView::Prompt {
                model: Model::Basic,
                prompt: closed.prompt().push(system(summarize_text(self.action_number()))),
            },
        )
    }

    /// Records the action under way with its summary.
    pub open spec fn commit(self, summary: Seq<char>) -> (SessionView, TurnView) {
        (
            SessionView {
                phase: Phase::Idle,
                history: self.history.append(self.messages, summary),
                messages: Seq::empty(),
                ..self
            },
            TurnView::Ended(ActionResultView::Continue),
        )
    }

    /// Ends the task.
    pub open spec fn finish(self, outcome: TaskOutcomeView) -> (SessionView, TurnView) {
        (self.at(Phase::Finished), TurnView::Ended(ActionResultView::EndTask(outcome)))
    }

    /// The session once the model has been shown the file: the path is in the
    /// ledger, and the content follows a line that names the path.
    pub open spec fn shown(self, content: Seq<char>) -> SessionView {
        self.touch(self.path).add(system(file_content_text(self.path))).add(system(content))
    }

    /// Choosing the action. The model discusses which action to take (after
    /// a plan, before the very first action), then names it. The name itself
    /// is not recorded; a name that stands for no action is refused.
    pub open spec fn select_action(self, reply: ReplyView) -> Result<
        (SessionView, TurnView),
        StepError,
    > {
        match (self.phase, reply) {
            (Phase::FirstDiscussion, ReplyView::Completion(plan)) => Ok(
                self.add(assistant(plan)).add(system(DISCUSS_ACTION@)).ask(
                    Phase::ActionDiscussion,
                    Model::Basic,
                ),
            ),
            (Phase::ActionDiscussion, ReplyView::Completion(discussion)) => Ok(
                self.add(assistant(discussion)).add(system(SELECT_ACTION@)).ask(
                    Phase::ActionSelection,
                    Model::Basic,
                ),
            ),
            (Phase::ActionSelection, ReplyView::Completion(name)) => match parse_action(name) {
                Some(ActionKind::Bash) => Ok(
                    self.add(system(ACTION_BASH@)).ask(Phase::BashCode, Model::Reasoning),
                ),
                Some(ActionKind::ReadFile) => Ok(
                    self.add(system(ACTION_READ_FILEPATH@)).ask(Phase::ReadPath, Model::Basic),
                ),
                Some(ActionKind::EditFile) => Ok(
                    self.add(system(ACTION_EDIT_FILEPATH@)).ask(Phase::EditPath, Model::Basic),
                ),
                Some(ActionKind::EndTask) => Ok(
                    self.add(system(ACTION_END_TASK_DISCUSS@)).ask(
                        Phase::EndDiscussion,
                        Model::Reasoning,
                    ),
                ),
                None => Err(StepError::UnknownActionName),
            },
            _ => Err(StepError::UnexpectedReply),
        }
    }

    /// The action `bash`. The model writes a script; the script runs without
    /// its wrapping fences; the model is shown what it left behind.
    pub open spec fn action_bash(self, reply: ReplyView) -> Result<
        (SessionView, TurnView),
        StepError,
    > {
        match (self.phase, reply) {
            (Phase::BashCode, ReplyView::Completion(code)) => Ok(
                self.add(assistant(code)).request(
                    Phase::BashOutput,
                    RequestView::RunScript { code: strip_fences(code) },
                ),
            ),
            (Phase::BashOutput, ReplyView::ScriptOutput(output)) => Ok(
                self.add(system(script_report(output))).add(system(DISCUSS_BASH@)).ask(
                    Phase::FollowUp,
                    Model::Reasoning,
                ),
            ),
            _ => Err(StepError::UnexpectedReply),
        }
    }

    /// The action `read-file`. The model names a path; the file is read; the
    /// model is shown the content, or told why there is none. Only a file that
    /// was read goes into the ledger.
    pub open spec fn action_read_file(self, reply: ReplyView) -> Result<
        (SessionView, TurnView),
        StepError,
    > {
        match (self.phase, reply) {
            (Phase::ReadPath, ReplyView::Completion(path)) => Ok(
                (SessionView { path, ..self.add(assistant(path)) }).request(
                    Phase::ReadContent,
                    RequestView::ReadFile { path },
                ),
            ),
            (Phase::ReadContent, ReplyView::FileContent(content)) => {
                let told = match content {
                    Ok(text) => self.shown(text),
                    Err(ReadFileErrorView::NotFound) => self.add(
                        system("The file does not exist."@),
                    ),
                    Err(ReadFileErrorView::Other(message)) => self.add(
                        system(read_error_text(message)),
                    ),
                };
                Ok(told.add(system(DISCUSS_READ_FILE@)).ask(Phase::FollowUp, Model::Reasoning))
            },
            _ => Err(StepError::UnexpectedReply),
        }
    }

    /// The action `edit-file`. The model names a path and the file is read. A
    /// file that exists is shown, discussed and replaced; a file that does not
    /// exist is created; a file that cannot be read is left alone. What is
    /// written is what the model gave, without its wrapping fences.
    pub open spec fn action_edit_file(self, reply: ReplyView) -> Result<
        (SessionView, TurnView),
        StepError,
    > {
        match (self.phase, reply) {
            (Phase::EditPath, ReplyView::Completion(path)) => Ok(
                (SessionView { path, ..self.add(assistant(path)) }).request(
                    Phase::EditContent,
                    RequestView::ReadFile { path },
                ),
            ),
            (Phase::EditContent, ReplyView::FileContent(Ok(text))) => Ok(
                self.shown(text).add(system(ACTION_EDIT_DISCUSS@)).ask(
                    Phase::EditDiscussion,
                    Model::Reasoning,
                ),
            ),
            (Phase::EditContent, ReplyView::FileContent(Err(ReadFileErrorView::NotFound))) => Ok(
                self.add(system("The file does not exist. It will be created."@)).add(
                    system(ACTION_EDIT_CREATE@),
                ).ask(Phase::EditCreate, Model::Reasoning),
            ),
            (
                Phase::EditContent,
                ReplyView::FileContent(Err(ReadFileErrorView::Other(message))),
            ) => Ok(
                self.add(system(read_error_text(message))).add(system(DISCUSS_EDIT_FILE@)).ask(
                    Phase::FollowUp,
                    Model::Reasoning,
                ),
            ),
            (Phase::EditCreate, ReplyView::Completion(contents)) => Ok(
                self.add(assistant(contents)).touch(self.path).request(
                    Phase::EditWrite,
                    RequestView::WriteFile { path: self.path, content: strip_fences(contents) },
                ),
            ),
            (Phase::EditDiscussion, ReplyView::Completion(discussion)) => Ok(
                self.add(assistant(discussion)).add(system(ACTION_EDIT_REPLACE@)).ask(
                    Phase::EditReplace,
                    Model::Reasoning,
                ),
            ),
            (Phase::EditReplace, ReplyView::Completion(contents)) => Ok(
                self.add(assistant(contents)).request(
                    Phase::EditWrite,
                    RequestView::WriteFile { path: self.path, content: strip_fences(contents) },
                ),
            ),
            (Phase::EditWrite, ReplyView::FileWritten) => Ok(
                self.add(system(ACTION_EDITED@)).add(system(DISCUSS_EDIT_FILE@)).ask(
                    Phase::FollowUp,
                    Model::Reasoning,
                ),
            ),
            _ => Err(StepError::UnexpectedReply),
        }
    }

    /// The action `end-task`. The model discusses how the task ends and names
    /// the exit status. A completed task ends with a closing summary. A failed
    /// task ends with a closing summary and the kind of failure, which counts
    /// as unknown where the model names none that exists. Nothing of this is
    /// recorded in the history.
    pub open spec fn action_end_task(self, reply: ReplyView) -> Result<
        (SessionView, TurnView),
        StepError,
    > {
        match (self.phase, reply) {
            (Phase::EndDiscussion, ReplyView::Completion(discussion)) => Ok(
                self.add(assistant(discussion)).add(system(ACTION_END_TASK_SELECT@)).ask(
                    Phase::EndSelection,
                    Model::Basic,
                ),
            ),
            (Phase::EndSelection, ReplyView::Completion(name)) => if name == "complete"@ {
                Ok(
                    self.add(assistant(name)).add(system(ACTION_COMPLETE_TASK_DESCRIPTION@)).ask(
                        Phase::CompleteDescription,
                        Model::Reasoning,
                    ),
                )
            } else if name == "failure"@ {
                Ok(
                    self.add(assistant(name)).add(system(ACTION_FAIL_TASK_DESCRIPTION@)).ask(
                        Phase::FailDescription,
                        Model::Reasoning,
                    ),
                )
            } else {
                Err(StepError::UnknownTaskEnding)
            },
            (Phase::CompleteDescription, ReplyView::Completion(description)) => Ok(
                self.finish(TaskOutcomeView::Complete { description }),
            ),
            (Phase::FailDescription, ReplyView::Completion(description)) => Ok(
                (SessionView { description, ..self.add(assistant(description)) }).add(
                    system(ACTION_FAIL_TASK_REASON_DISCUSS@),
                ).ask(Phase::FailReasonDiscussion, Model::Reasoning),
            ),
            (Phase::FailReasonDiscussion, ReplyView::Completion(discussion)) => Ok(
                self.add(assistant(discussion)).add(system(ACTION_FAIL_TASK_REASON_SELECT@)).ask(
                    Phase::FailReasonSelection,
                    Model::Basic,
                ),
            ),
            (Phase::FailReasonSelection, ReplyView::Completion(name)) => Ok(
                self.finish(
                    TaskOutcomeView::Failure {
                        reason: parse_failure_reason(name),
                        description: self.description,
                    },
                ),
            ),
            _ => Err(StepError::UnexpectedReply),
        }
    }

    /// The end of an action that does not end the task: the model looks back,
    /// the action is closed, summarized and recorded.
    pub open spec fn summarize_action(self, reply: ReplyView) -> Result<
        (SessionView, TurnView),
        StepError,
    > {
        match (self.phase, reply) {
            (Phase::FollowUp, ReplyView::Completion(discussion)) => Ok(
                self.close_action(discussion),
            ),
            (Phase::Summary, ReplyView::Completion(summary)) => Ok(self.commit(summary)),
            _ => Err(StepError::UnexpectedReply),
        }
    }

    /// The transition: where a reply leads from here, and what to do next.
    pub open spec fn step(self, reply: ReplyView) -> Result<(SessionView, TurnView), StepError> {
        match self.phase {
            Phase::Finished => Err(StepError::TaskEnded),
            Phase::Idle => Err(StepError::NoActionInProgress),
            Phase::FirstDiscussion | Phase::ActionDiscussion | Phase::ActionSelection => {
                self.select_action(reply)
            },
            Phase::BashCode | Phase::BashOutput => self.action_bash(reply),
            Phase::ReadPath | Phase::ReadContent => self.action_read_file(reply),
            Phase::EditPath
            | Phase::EditContent
            | Phase::EditCreate
            | Phase::EditDiscussion
            | Phase::EditReplace
            | Phase::EditWrite => self.action_edit_file(reply),
            Phase::EndDiscussion
            | Phase::EndSelection
            | Phase::CompleteDescription
            | Phase::FailDescription
            | Phase::FailReasonDiscussion
            | Phase::FailReasonSelection => self.action_end_task(reply),
            Phase::FollowUp | Phase::Summary => self.summarize_action(reply),
        }
    }
}

/// Once the task has ended nothing more happens: the step that reports the
/// outcome leaves the session finished, and a finished session refuses every
/// reply and every new action.
pub proof fn lemma_end_task_is_final(session: SessionView, reply: ReplyView, later: ReplyView)
    ensures
        session.step(reply) matches Ok((next, TurnView::Ended(ActionResultView::EndTask(_))))
            ==> next.phase == Phase::Finished && next.step(later) == Err::<
            (SessionView, TurnView),
            StepError,
        >(StepError::TaskEnded) && next.begin_action() == Err::<
            (SessionView, TurnView),
            StepError,
        >(StepError::TaskEnded),
        session.phase == Phase::Finished ==> session.step(reply) == Err::<
            (SessionView, TurnView),
            StepError,
        >(StepError::TaskEnded) && session.begin_action() == Err::<
            (SessionView, TurnView),
            StepError,
        >(StepError::TaskEnded),
{
}

/// A step never rewrites the record. The ledger of files only grows. The
/// history stays as it is, except that the step which takes the summary
/// appends the action under way, with exactly its messages, under the next
/// number. Ending the task appends nothing.
pub proof fn lemma_step_keeps_record(session: SessionView, reply: ReplyView)
    ensures
        session.step(reply) matches Ok((next, turn)) ==> {
            &&& session.resources.subset_of(next.resources)
            &&& next.history.prefix == session.history.prefix
            &&& if session.phase == Phase::Summary {
                &&& reply matches ReplyView::Completion(summary)
                &&& next.history == session.history.append(session.messages, summary)
                &&& turn == TurnView::Ended(ActionResultView::Continue)
                &&& next.phase == Phase::Idle
            } else {
                &&& next.history == session.history
                &&& turn != TurnView::Ended(ActionResultView::Continue)
            }
            &&& session.history.numbered() ==> next.history.numbered()
        },
{
}

/// Within an action the messages only grow: unless the step records the
/// action, what was said stays said, in order.
pub proof fn lemma_step_extends_messages(session: SessionView, reply: ReplyView)
    ensures
        session.step(reply) matches Ok((next, _)) ==> session.phase != Phase::Summary ==> {
            &&& session.messages.len() <= next.messages.len()
            &&& next.messages.subrange(0, session.messages.len() as int) == session.messages
        },
{
    if let Ok((next, _)) = session.step(reply) {
        if session.phase != Phase::Summary {
            assert(next.messages.subrange(0, session.messages.len() as int)
                =~= session.messages);
        }
    }
}

/// Beginning an action changes neither the history nor the ledger, and opens
/// the action with the message that carries its number.
pub proof fn lemma_begin_action_keeps_record(session: SessionView)
    ensures
        session.begin_action() matches Ok((next, turn)) ==> {
            &&& session.phase == Phase::Idle
            &&& next.history == session.history
            &&& next.resources == session.resources
            &&& next.messages.len() == session.messages.len() + 2
            &&& next.messages[session.messages.len() as int] == system(
                begin_text(session.history.actions.len()),
            )
            &&& turn is Ask
        },
{
}

/// The session one reply on (unchanged, where the reply is refused).
pub open spec fn next(session: SessionView, reply: ReplyView) -> SessionView {
    match session.step(reply) {
        Ok((next, _)) => next,
        Err(_) => session,
    }
}

/// The session once the next action has begun (unchanged, where none can).
pub open spec fn begun(session: SessionView) -> SessionView {
    match session.begin_action() {
        Ok((next, _)) => next,
        Err(_) => session,
    }
}

/// The messages that open the action with the given number, up to the
/// question of which action to take. Before the very first action the model is
/// asked for a plan.
pub open spec fn opening_transcript(number: nat, plan: Seq<char>) -> Seq<PromptItemView> {
    if number == 0 {
        seq![
            system(begin_text(number)),
            system(DISCUSS_FIRST@),
            assistant(plan),
            system(DISCUSS_ACTION@),
        ]
    } else {
        seq![system(begin_text(number)), system(DISCUSS_ACTION@)]
    }
}

/// The messages of a `bash` action with the given number, from the discussion
/// of which action to take to the end: the script, what it left behind, and
/// the look back.
pub open spec fn bash_transcript(
    number: nat,
    discussion: Seq<char>,
    code: Seq<char>,
    output: OutputView,
    follow_up: Seq<char>,
) -> Seq<PromptItemView> {
    seq![
        assistant(discussion),
        system(SELECT_ACTION@),
        system(ACTION_BASH@),
        assistant(code),
        system(script_report(output)),
        system(DISCUSS_BASH@),
        assistant(follow_up),
        system(end_text(number)),
    ]
}

/// How an action opens, from any session that stands between two actions:
/// the model is asked which action to take, after a plan if the action is the
/// very first.
pub proof fn lemma_action_opens(session: SessionView, plan: Seq<char>)
    requires
        session.phase == Phase::Idle,
        session.messages.len() == 0,
    ensures
        ({
            let opened = if session.action_number() == 0 {
                next(begun(session), ReplyView::Completion(plan))
            } else {
                begun(session)
            };
            &&& opened.phase == Phase::ActionDiscussion
            &&& opened.messages == opening_transcript(session.action_number(), plan)
            &&& opened.history == session.history
            &&& opened.resources == session.resources
        }),
{
}

/// A whole `bash` action, from any session in which the model is about to
/// discuss its action: once the model has discussed, named `bash`, written
/// the script, seen what it left behind, looked back and summarized, the
/// history holds one more action, with exactly the messages of the action and
/// the summary, and the session stands between two actions again.
pub proof fn lemma_bash_action_is_recorded(
    session: SessionView,
    discussion: Seq<char>,
    code: Seq<char>,
    output: OutputView,
    follow_up: Seq<char>,
    summary: Seq<char>,
)
    requires
        session.phase == Phase::ActionDiscussion,
    ensures
        ({
            let named = next(
                next(session, ReplyView::Completion(discussion)),
                ReplyView::Completion("bash"@),
            );
            let ran = next(
                next(named, ReplyView::Completion(code)),
                ReplyView::ScriptOutput(output),
            );
            let end = next(
                next(ran, ReplyView::Completion(follow_up)),
                ReplyView::Completion(summary),
            );
            &&& end.phase == Phase::Idle
            &&& end.messages.len() == 0
            &&& end.resources == session.resources
            &&& end.history == session.history.append(
                session.messages + bash_transcript(
                    session.action_number(),
                    discussion,
                    code,
                    output,
                    follow_up,
                ),
                summary,
            )
        }),
{
    let number = session.action_number();
    let s1 = next(session, ReplyView::Completion(discussion));
    assert(s1.messages =~= session.messages + seq![
        assistant(discussion),
        system(SELECT_ACTION@),
    ]);
    let s2 = next(s1, ReplyView::Completion("bash"@));
    let s3 = next(s2, ReplyView::Completion(code));
    let s4 = next(s3, ReplyView::ScriptOutput(output));
    assert(s4.messages =~= s3.messages + seq![
        system(script_report(output)),
        system(DISCUSS_BASH@),
    ]);
    let s5 = next(s4, ReplyView::Completion(follow_up));
    assert(s5.messages =~= session.messages + bash_transcript(
        number,
        discussion,
        code,
        output,
        follow_up,
    ));
}

/// A whole `end-task` action that completes the task, from any session in
/// which the model is about to name its action: once it has named `end-task`,
/// discussed, named `complete` and given its closing summary, the task has
/// ended with that summary, and neither the history nor the ledger has
/// changed.
pub proof fn lemma_complete_ends_the_task(
    session: SessionView,
    discussion: Seq<char>,
    description: Seq<char>,
)
    requires
        session.phase == Phase::ActionSelection,
    ensures
        ({
            let asked = next(
                next(
                    next(session, ReplyView::Completion("end-task"@)),
                    ReplyView::Completion(discussion),
                ),
                ReplyView::Completion("complete"@),
            );
            &&& asked.phase == Phase::CompleteDescription
            &&& asked.step(ReplyView::Completion(description)) matches Ok((end, turn))
            &&& turn == TurnView::Ended(
                ActionResultView::EndTask(TaskOutcomeView::Complete { description }),
            )
            &&& end.phase == Phase::Finished
            &&& end.history == session.history
            &&& end.resources == session.resources
        }),
{
    reveal_strlit("bash");
    reveal_strlit("read-file");
    reveal_strlit("edit-file");
    reveal_strlit("end-task");
}

/// Reading a file, from any session that has asked for a path: the file is
/// asked for under the path that the model gave, and once its content is
/// there, the path is in the ledger and the model is shown the content. A
/// file that could not be read leaves the ledger as it was.
pub proof fn lemma_read_file_touches_the_ledger(
    session: SessionView,
    path: Seq<char>,
    content: Result<Seq<char>, ReadFileErrorView>,
)
    requires
        session.phase == Phase::ReadPath,
    ensures
        session.step(ReplyView::Completion(path)) matches Ok((asked, turn)) && {
            &&& turn == TurnView::Ask(RequestView::ReadFile { path })
            &&& asked.step(ReplyView::FileContent(content)) matches Ok((told, _)) && {
                &&& told.phase == Phase::FollowUp
                &&& told.history == session.history
                &&& match content {
                    Ok(text) => {
                        &&& told.resources == session.resources.insert(path)
                        &&& told.messages == session.messages + seq![
                            assistant(path),
                            system(file_content_text(path)),
                            system(text),
                            system(DISCUSS_READ_FILE@),
                        ]
                    },
                    Err(_) => told.resources == session.resources,
                }
            }
        },
{
    let asked = next(session, ReplyView::Completion(path));
    let told = next(asked, ReplyView::FileContent(content));
    if let Ok(text) = content {
        assert(told.messages =~= session.messages + seq![
            assistant(path),
            system(file_content_text(path)),
            system(text),
            system(DISCUSS_READ_FILE@),
        ]);
    }
}

/// Creating a file, from any session that has asked for the path of a file to
/// edit: where there is no such file, the model is asked for its content, and
/// what is written under the path is that content without its wrapping
/// fences; the path is in the ledger from then on.
pub proof fn lemma_edit_creates_a_missing_file(
    session: SessionView,
    path: Seq<char>,
    contents: Seq<char>,
)
    requires
        session.phase == Phase::EditPath,
    ensures
        ({
            let asked = next(
                next(session, ReplyView::Completion(path)),
                ReplyView::FileContent(Err(ReadFileErrorView::NotFound)),
            );
            &&& asked.phase == Phase::EditCreate
            &&& asked.resources == session.resources
            &&& asked.step(ReplyView::Completion(contents)) matches Ok((written, turn))
            &&& turn == TurnView::Ask(
                RequestView::WriteFile { path, content: strip_fences(contents) },
            )
            &&& written.phase == Phase::EditWrite
            &&& written.resources == session.resources.insert(path)
            &&& written.history == session.history
        }),
{
}

/// Failing, from any session that has asked for the exit status: once the
/// model has named `failure`, given its closing summary, discussed the kind
/// of failure and named it, the task has ended with that summary and that
/// kind, which is unknown where the name stands for none. The history is as
/// it was.
pub proof fn lemma_failure_ends_the_task(
    session: SessionView,
    description: Seq<char>,
    discussion: Seq<char>,
    reason: Seq<char>,
)
    requires
        session.phase == Phase::EndSelection,
    ensures
        ({
            let asked = next(
                next(
                    next(session, ReplyView::Completion("failure"@)),
                    ReplyView::Completion(description),
                ),
                ReplyView::Completion(discussion),
            );
            &&& asked.phase == Phase::FailReasonSelection
            &&& asked.step(ReplyView::Completion(reason)) matches Ok((end, turn))
            &&& turn == TurnView::Ended(
                ActionResultView::EndTask(
                    TaskOutcomeView::Failure {
                        reason: parse_failure_reason(reason),
                        description,
                    },
                ),
            )
            &&& end.phase == Phase::Finished
            &&& end.history == session.history
            &&& end.resources == session.resources
        }),
{
    reveal_strlit("complete");
    reveal_strlit("failure");
}

/// Whether a call did what the transition says: on `Ok` the session is the
/// next one and the turn is the one described; on `Err` the error is the one
/// described and the session is as it was.
pub open spec fn follows(
    expected: Result<(SessionView, TurnView), StepError>,
    before: SessionView,
    after: SessionView,
    result: Result<Turn, StepError>,
) -> bool {
    match expected {
        Ok((next, turn)) => after == next && result is Ok && result->Ok_0@ == turn,
        Err(error) => after == before && result == Err::<Turn, StepError>(error),
    }
}

/// The action that `name` stands for, if it stands for one.
pub fn action_named(name: &str) -> (kind: Option<ActionKind>)
    ensures
        kind == parse_action(name@),
{
    let name = name.to_owned();
    if name == "bash".to_owned() {
        Some(ActionKind::Bash)
    } else if name == "read-file".to_owned() {
        Some(ActionKind::ReadFile)
    } else if name == "edit-file".to_owned() {
        Some(ActionKind::EditFile)
    } else if name == "end-task".to_owned() {
        Some(ActionKind::EndTask)
    } else {
        None
    }
}

/// The kind of failure that `name` stands for.
pub fn failure_reason_named(name: &str) -> (reason: TaskFailureReason)
    ensures
        reason == parse_failure_reason(name@),
{
    let name = name.to_owned();
    if name == "technical-issues".to_owned() {
        TaskFailureReason::TechnicalIssues
    } else if name == "task-issues".to_owned() {
        TaskFailureReason::TaskIssues
    } else if name == "problem-solving".to_owned() {
        TaskFailureReason::ProblemSolving
    } else {
        TaskFailureReason::Unknown
    }
}

/// The message that shows the model what a script left behind.
pub fn script_report_text(output: &Output) -> (text: String)
    ensures
        text@ == script_report(output@),
{
    let mut text = "Stdout: \n```\n".to_owned();
    text.append(output.stdout.as_str());
    text.append("\n```\nStderr: \n```\n");
    text.append(output.stderr.as_str());
    text.append("\n```\nExit status: ");
    push_signed_decimal(&mut text, output.exit_code);
    text.append("\n");
    text
}

fn numbered_text(before: &str, n: usize, after: &str) -> (text: String)
    ensures
        text@ == before@ + decimal(n as nat) + after@,
{
    let mut text = before.to_owned();
    push_decimal(&mut text, n as u64);
    text.append(after);
    text
}

fn joined(before: &str, middle: &str, after: &str) -> (text: String)
    ensures
        text@ == before@ + middle@ + after@,
{
    let mut text = before.to_owned();
    text.append(middle);
    text.append(after);
    text
}

/// Starts the run of a task that is running: the session that the caller
/// drives until it reports how the task ended.
pub fn run(task: &Task) -> (session: Session)
    requires
        task.status == TaskStatus::Running,
    ensures
        session@ == SessionView::start(task.description@),
{
    Session::new(task.description.clone())
}

/// One task, from its description to its outcome.
pub struct Session {
    phase: Phase,
    history: History,
    resources: Resources,
    messages: Vec<PromptItem>,
    path: String,
    description: String,
}

impl View for Session {
    type V = SessionView;

    closed spec fn view(&self) -> SessionView {
        SessionView {
            phase: self.phase,
            history: self.history@,
            resources: self.resources@,
            messages: self.messages.deep_view(),
            path: self.path@,
            description: self.description@,
        }
    }
}

impl Session {
    /// A session for the task with the given description. Its history starts
    /// with the role, the task and the list of actions.
    pub fn new(description: String) -> (session: Session)
        ensures
            session@ == SessionView::start(description@),
    {
        let mut prefix: Vec<PromptItem> = Vec::new();
        prefix.push(PromptItem::System { text: INTRO_1.to_owned() });
        prefix.push(PromptItem::User { content: Content::from(description) });
        prefix.push(PromptItem::System { text: INTRO_2.to_owned() });
        assert(prefix.deep_view() =~= initial_prefix(description@));
        let session = Session {
            phase: Phase::Idle,
            history: History::new(prefix),
            resources: Resources::default(),
            messages: Vec::new(),
            path: String::new(),
            description: String::new(),
        };
        assert(session.messages.deep_view() =~= Seq::<PromptItemView>::empty());
        session
    }

    /// Where the session stands.
    pub fn phase(&self) -> (phase: Phase)
        ensures
            phase == self@.phase,
    {
        self.phase
    }

    /// Whether the task has ended.
    pub fn is_finished(&self) -> (finished: bool)
        ensures
            finished == (self@.phase == Phase::Finished),
    {
        self.phase == Phase::Finished
    }

    /// The actions that are finished and recorded.
    pub fn history(&self) -> (history: &History)
        ensures
            history@ == self@.history,
    {
        &self.history
    }

    /// The files touched so far.
    pub fn resources(&self) -> (resources: &Resources)
        ensures
            resources@ == self@.resources,
    {
        &self.resources
    }

    /// The messages of the action under way.
    pub fn messages(&self) -> (messages: &Vec<PromptItem>)
        ensures
            messages.deep_view() == self@.messages,
    {
        &self.messages
    }

    fn whole_prompt(&self) -> (prompt: Prompt)
        ensures
            prompt@ == self@.prompt(),
    {
        let mut prompt = self.history.compressed_prompt();
        let mut block = clone_items(&self.messages);
        prompt.items.append(&mut block);
        prompt
    }

    fn push(&mut self, item: PromptItem)
        ensures
            final(self)@ == old(self)@.add(item@),
    {
        self.messages.push(item);
        assert(self.messages.deep_view() =~= old(self).messages.deep_view().push(item@));
    }

    fn push_system(&mut self, text: &str)
        ensures
            final(self)@ == old(self)@.add(system(text@)),
    {
        self.push(PromptItem::System { text: text.to_owned() });
    }

    fn push_assistant(&mut self, text: &String)
        ensures
            final(self)@ == old(self)@.add(assistant(text@)),
    {
        self.push(PromptItem::Assistant { text: text.clone() });
    }

    fn touch(&mut self)
        ensures
            final(self)@ == old(self)@.touch(old(self)@.path),
    {
        self.resources.add_file(self.path.as_str());
    }

    fn ask(&mut self, phase: Phase, model: Model) -> (turn: Turn)
        ensures
            (final(self)@, turn@) == old(self)@.ask(phase, model),
    {
        self.phase = phase;
        Turn::Ask(Request::Prompt { model, prompt: self.whole_prompt() })
    }

    fn request(&mut self, phase: Phase, request: Request) -> (turn: Turn)
        ensures
            (final(self)@, turn@) == old(self)@.request(phase, request@),
    {
        self.phase = phase;
        Turn::Ask(request)
    }

    /// Begins the next action and hands out its first request. Refused while
    /// an action is under way and once the task has ended.
    pub fn begin_action(&mut self) -> (result: Result<Turn, StepError>)
        ensures
            follows(old(self)@.begin_action(), old(self)@, final(self)@, result),
    {
        if self.phase == Phase::Finished {
            return Err(StepError::TaskEnded);
        }
        if self.phase != Phase::Idle {
            return Err(StepError::ActionInProgress);
        }
        let number = self.history.len();
        let opening = numbered_text("BEGIN ACTION ", number, "");
        proof {
            reveal_strlit("");
        }
        self.push(PromptItem::System { text: opening });
        if number == 0 {
            self.push_system(DISCUSS_FIRST);
            Ok(self.ask(Phase::FirstDiscussion, Model::Reasoning))
        } else {
            self.push_system(DISCUSS_ACTION);
            Ok(self.ask(Phase::ActionDiscussion, Model::Basic))
        }
    }

    fn close_action(&mut self, discussion: String) -> (turn: Turn)
        ensures
            (final(self)@, turn@) == old(self)@.close_action(discussion@),
    {
        let number = self.history.len();
        self.push_assistant(&discussion);
        let closing = numbered_text("END ACTION ", number, "");
        proof {
            reveal_strlit("");
        }
        self.push(PromptItem::System { text: closing });
        let mut prompt = self.whole_prompt();
        let ghost before = prompt.items.deep_view();
        let ask = numbered_text("Summarize what you have done in action ", number, ".");
        prompt.items.push(PromptItem::System { text: ask });
        assert(prompt.items.deep_view() =~= before.push(system(summarize_text(number as nat))));
        self.request(Phase::Summary, Request::Prompt { model: Model::Basic, prompt })
    }

    fn commit(&mut self, summary: String) -> (turn: Turn)
        ensures
            (final(self)@, turn@) == old(self)@.commit(summary@),
    {
        let mut messages: Vec<PromptItem> = Vec::new();
        core::mem::swap(&mut self.messages, &mut messages);
        self.history.append(messages, summary);
        self.phase = Phase::Idle;
        assert(self.messages.deep_view() =~= Seq::<PromptItemView>::empty());
        Turn::Ended(ActionResult::Continue)
    }

    fn finish(&mut self, outcome: TaskOutcome) -> (turn: Turn)
        ensures
            (final(self)@, turn@) == old(self)@.finish(outcome@),
    {
        self.phase = Phase::Finished;
        Turn::Ended(ActionResult::EndTask(outcome))
    }

    fn show(&mut self, content: String)
        ensures
            final(self)@ == old(self)@.shown(content@),
    {
        self.touch();
        let heading = joined("The content of `", self.path.as_str(), "` is:");
        self.push(PromptItem::System { text: heading });
        self.push(PromptItem::System { text: content });
    }

    fn tell_read_error(&mut self, message: String)
        ensures
            final(self)@ == old(self)@.add(system(read_error_text(message@))),
    {
        let note = joined("An error occured while reading the file: ", message.as_str(), "");
        proof {
            reveal_strlit("");
        }
        self.push(PromptItem::System { text: note });
    }

    fn select_action(&mut self, reply: Reply) -> (result: Result<Turn, StepError>)
        ensures
            follows(old(self)@.select_action(reply@), old(self)@, final(self)@, result),
    {
        match (self.phase, reply) {
            (Phase::FirstDiscussion, Reply::Completion(plan)) => {
                self.push_assistant(&plan);
                self.push_system(DISCUSS_ACTION);
                Ok(self.ask(Phase::ActionDiscussion, Model::Basic))
            },
            (Phase::ActionDiscussion, Reply::Completion(discussion)) => {
                self.push_assistant(&discussion);
                self.push_system(SELECT_ACTION);
                Ok(self.ask(Phase::ActionSelection, Model::Basic))
            },
            (Phase::ActionSelection, Reply::Completion(name)) => {
                match action_named(name.as_str()) {
                    Some(ActionKind::Bash) => {
                        self.push_system(ACTION_BASH);
                        Ok(self.ask(Phase::BashCode, Model::Reasoning))
                    },
                    Some(ActionKind::ReadFile) => {
                        self.push_system(ACTION_READ_FILEPATH);
                        Ok(self.ask(Phase::ReadPath, Model::Basic))
                    },
                    Some(ActionKind::EditFile) => {
                        self.push_system(ACTION_EDIT_FILEPATH);
                        Ok(self.ask(Phase::EditPath, Model::Basic))
                    },
                    Some(ActionKind::EndTask) => {
                        self.push_system(ACTION_END_TASK_DISCUSS);
                        Ok(self.ask(Phase::EndDiscussion, Model::Reasoning))
                    },
                    None => Err(StepError::UnknownActionName),
                }
            },
            _ => Err(StepError::UnexpectedReply),
        }
    }

    fn action_bash(&mut self, reply: Reply) -> (result: Result<Turn, StepError>)
        ensures
            follows(old(self)@.action_bash(reply@), old(self)@, final(self)@, result),
    {
        match (self.phase, reply) {
            (Phase::BashCode, Reply::Completion(code)) => {
                self.push_assistant(&code);
                let code = strip_wrapping_markdown_code_fences(code.as_str());
                Ok(self.request(Phase::BashOutput, Request::RunScript { code }))
            },
            (Phase::BashOutput, Reply::ScriptOutput(output)) => {
                let report = script_report_text(&output);
                self.push(PromptItem::System { text: report });
                self.push_system(DISCUSS_BASH);
                Ok(self.ask(Phase::FollowUp, Model::Reasoning))
            },
            _ => Err(StepError::UnexpectedReply),
        }
    }

    fn action_read_file(&mut self, reply: Reply) -> (result: Result<Turn, StepError>)
        ensures
            follows(old(self)@.action_read_file(reply@), old(self)@, final(self)@, result),
    {
        match (self.phase, reply) {
            (Phase::ReadPath, Reply::Completion(path)) => {
                self.push_assistant(&path);
                self.path = path.clone();
                Ok(self.request(Phase::ReadContent, Request::ReadFile { path }))
            },
            (Phase::ReadContent, Reply::FileContent(content)) => {
                match content {
                    Ok(text) => {
                        self.show(text);
                    },
                    Err(ReadFileError::NotFound) => {
                        self.push_system("The file does not exist.");
                    },
                    Err(ReadFileError::Other(message)) => {
                        self.tell_read_error(message);
                    },
                }
                self.push_system(DISCUSS_READ_FILE);
                Ok(self.ask(Phase::FollowUp, Model::Reasoning))
            },
            _ => Err(StepError::UnexpectedReply),
        }
    }

    fn action_edit_file(&mut self, reply: Reply) -> (result: Result<Turn, StepError>)
        ensures
            follows(old(self)@.action_edit_file(reply@), old(self)@, final(self)@, result),
    {
        match (self.phase, reply) {
            (Phase::EditPath, Reply::Completion(path)) => {
                self.push_assistant(&path);
                self.path = path.clone();
                Ok(self.request(Phase::EditContent, Request::ReadFile { path }))
            },
            (Phase::EditContent, Reply::FileContent(Ok(text))) => {
                self.show(text);
                self.push_system(ACTION_EDIT_DISCUSS);
                Ok(self.ask(Phase::EditDiscussion, Model::Reasoning))
            },
            (Phase::EditContent, Reply::FileContent(Err(ReadFileError::NotFound))) => {
                self.push_system("The file does not exist. It will be created.");
                self.push_system(ACTION_EDIT_CREATE);
                Ok(self.ask(Phase::EditCreate, Model::Reasoning))
            },
            (Phase::EditContent, Reply::FileContent(Err(ReadFileError::Other(message)))) => {
                self.tell_read_error(message);
                self.push_system(DISCUSS_EDIT_FILE);
                Ok(self.ask(Phase::FollowUp, Model::Reasoning))
            },
            (Phase::EditCreate, Reply::Completion(contents)) => {
                self.push_assistant(&contents);
                self.touch();
                let content = strip_wrapping_markdown_code_fences(contents.as_str());
                let path = self.path.clone();
                Ok(self.request(Phase::EditWrite, Request::WriteFile { path, content }))
            },
            (Phase::EditDiscussion, Reply::Completion(discussion)) => {
                self.push_assistant(&discussion);
                self.push_system(ACTION_EDIT_REPLACE);
                Ok(self.ask(Phase::EditReplace, Model::Reasoning))
            },
            (Phase::EditReplace, Reply::Completion(contents)) => {
                self.push_assistant(&contents);
                let content = strip_wrapping_markdown_code_fences(contents.as_str());
                let path = self.path.clone();
                Ok(self.request(Phase::EditWrite, Request::WriteFile { path, content }))
            },
            (Phase::EditWrite, Reply::FileWritten) => {
                self.push_system(ACTION_EDITED);
                self.push_system(DISCUSS_EDIT_FILE);
                Ok(self.ask(Phase::FollowUp, Model::Reasoning))
            },
            _ => Err(StepError::UnexpectedReply),
        }
    }

    fn action_end_task(&mut self, reply: Reply) -> (result: Result<Turn, StepError>)
        ensures
            follows(old(self)@.action_end_task(reply@), old(self)@, final(self)@, result),
    {
        match (self.phase, reply) {
            (Phase::EndDiscussion, Reply::Completion(discussion)) => {
                self.push_assistant(&discussion);
                self.push_system(ACTION_END_TASK_SELECT);
                Ok(self.ask(Phase::EndSelection, Model::Basic))
            },
            (Phase::EndSelection, Reply::Completion(name)) => {
                if name == "complete".to_owned() {
                    self.push_assistant(&name);
                    self.push_system(ACTION_COMPLETE_TASK_DESCRIPTION);
                    Ok(self.ask(Phase::CompleteDescription, Model::Reasoning))
                } else if name == "failure".to_owned() {
                    self.push_assistant(&name);
                    self.push_system(ACTION_FAIL_TASK_DESCRIPTION);
                    Ok(self.ask(Phase::FailDescription, Model::Reasoning))
                } else {
                    Err(StepError::UnknownTaskEnding)
                }
            },
            (Phase::CompleteDescription, Reply::Completion(description)) => Ok(
                self.finish(TaskOutcome::Complete { description }),
            ),
            (Phase::FailDescription, Reply::Completion(description)) => {
                self.push_assistant(&description);
                self.description = description;
                self.push_system(ACTION_FAIL_TASK_REASON_DISCUSS);
                Ok(self.ask(Phase::FailReasonDiscussion, Model::Reasoning))
            },
            (Phase::FailReasonDiscussion, Reply::Completion(discussion)) => {
                self.push_assistant(&discussion);
                self.push_system(ACTION_FAIL_TASK_REASON_SELECT);
                Ok(self.ask(Phase::FailReasonSelection, Model::Basic))
            },
            (Phase::FailReasonSelection, Reply::Completion(name)) => {
                let reason = failure_reason_named(name.as_str());
                let description = self.description.clone();
                Ok(self.finish(TaskOutcome::Failure { reason, description }))
            },
            _ => Err(StepError::UnexpectedReply),
        }
    }

    fn summarize_action(&mut self, reply: Reply) -> (result: Result<Turn, StepError>)
        ensures
            follows(old(self)@.summarize_action(reply@), old(self)@, final(self)@, result),
    {
        match (self.phase, reply) {
            (Phase::FollowUp, Reply::Completion(discussion)) => Ok(self.close_action(discussion)),
            (Phase::Summary, Reply::Completion(summary)) => Ok(self.commit(summary)),
            _ => Err(StepError::UnexpectedReply),
        }
    }

    /// Takes the reply to the open request and says what to do next.
    ///
    /// A reply that does not answer the open request is refused, and so is a
    /// name that the model made up where it had to pick an action or an exit
    /// status. A refused call leaves the session as it was.
    pub fn step(&mut self, reply: Reply) -> (result: Result<Turn, StepError>)
        ensures
            follows(old(self)@.step(reply@), old(self)@, final(self)@, result),
    {
        match self.phase {
            Phase::Finished => Err(StepError::TaskEnded),
            Phase::Idle => Err(StepError::NoActionInProgress),
            Phase::FirstDiscussion | Phase::ActionDiscussion | Phase::ActionSelection => {
                self.select_action(reply)
            },
            Phase::BashCode | Phase::BashOutput => self.action_bash(reply),
            Phase::ReadPath | Phase::ReadContent => self.action_read_file(reply),
            Phase::EditPath
            | Phase::EditContent
            | Phase::EditCreate
            | Phase::EditDiscussion
            | Phase::EditReplace
            | Phase::EditWrite => self.action_edit_file(reply),
            Phase::EndDiscussion
            | Phase::EndSelection
            | Phase::CompleteDescription
            | Phase::FailDescription
            | Phase::FailReasonDiscussion
            | Phase::FailReasonSelection => self.action_end_task(reply),
            Phase::FollowUp | Phase::Summary => self.summarize_action(reply),
        }
    }
}

} // verus!
