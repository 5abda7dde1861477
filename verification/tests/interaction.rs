use std::collections::VecDeque;

use minion::container::{Output, ReadFileError};
use minion::interaction_loop::prompts::{
    ACTION_BASH, ACTION_EDITED, ACTION_EDIT_CREATE, ACTION_EDIT_DISCUSS, ACTION_EDIT_FILEPATH,
    ACTION_EDIT_REPLACE, ACTION_END_TASK_DISCUSS, ACTION_END_TASK_SELECT,
    ACTION_FAIL_TASK_DESCRIPTION, ACTION_FAIL_TASK_REASON_DISCUSS, ACTION_FAIL_TASK_REASON_SELECT,
    ACTION_COMPLETE_TASK_DESCRIPTION, ACTION_READ_FILEPATH, DISCUSS_ACTION, DISCUSS_BASH,
    DISCUSS_EDIT_FILE, DISCUSS_FIRST, DISCUSS_READ_FILE, INTRO_1, INTRO_2, SELECT_ACTION,
};
use minion::interaction_loop::run::{
    action_named, failure_reason_named, run, script_report_text, ActionKind, ActionResult,
    Model, Models, Phase, Reply, Request, Session, StepError, Task, TaskFailureReason,
    TaskOutcome, TaskStatus, Turn,
};
use minion::llm::{Content, ContentItem, Prompt, PromptItem};

/// A scripted model and a scripted container.
struct World {
    completions: VecDeque<String>,
    prompts: Vec<(Model, Prompt)>,
    file: Option<Result<String, ReadFileError>>,
    reads: Vec<String>,
    writes: Vec<(String, String)>,
    scripts: Vec<String>,
    stdout: String,
    stderr: String,
    exit_code: i64,
}

impl World {
    fn new(completions: &[&str]) -> World {
        World {
            completions: completions.iter().map(|c| c.to_string()).collect(),
            prompts: Vec::new(),
            file: None,
            reads: Vec::new(),
            writes: Vec::new(),
            scripts: Vec::new(),
            stdout: String::new(),
            stderr: String::new(),
            exit_code: 0,
        }
    }

    fn answer(&mut self, request: Request) -> Reply {
        match request {
            Request::Prompt { model, prompt } => {
                self.prompts.push((model, prompt));
                Reply::Completion(self.completions.pop_front().expect("a scripted completion"))
            }
            Request::RunScript { code } => {
                self.scripts.push(code);
                Reply::ScriptOutput(Output {
                    exit_code: self.exit_code,
                    stdout: self.stdout.clone(),
                    stderr: self.stderr.clone(),
                })
            }
            Request::ReadFile { path } => {
                self.reads.push(path);
                Reply::FileContent(self.file.take().expect("a scripted file"))
            }
            Request::WriteFile { path, content } => {
                self.writes.push((path, content));
                Reply::FileWritten
            }
        }
    }
}

fn run_action(session: &mut Session, world: &mut World) -> ActionResult {
    let mut turn = session.begin_action().expect("an action can begin");
    loop {
        match turn {
            Turn::Ask(request) => {
                let reply = world.answer(request);
                turn = session.step(reply).expect("the reply fits");
            }
            Turn::Ended(result) => return result,
        }
    }
}

fn system(text: &str) -> PromptItem {
    PromptItem::System { text: text.to_string() }
}

fn assistant(text: &str) -> PromptItem {
    PromptItem::Assistant { text: text.to_string() }
}

fn prefix(description: &str) -> Vec<PromptItem> {
    vec![
        system(INTRO_1),
        PromptItem::User {
            content: Content { items: vec![ContentItem::Text { text: description.to_string() }] },
        },
        system(INTRO_2),
    ]
}

#[test]
fn first_action_runs_a_script_and_is_recorded() {
    let mut session = Session::new("fix the bug".to_string());
    let mut world =
        World::new(&["a plan", "bash it is", "bash", "echo hi", "it printed hi", "ran echo"]);
    world.stdout = "hi\n".to_string();

    let result = run_action(&mut session, &mut world);

    assert_eq!(result, ActionResult::Continue);
    assert_eq!(session.phase(), Phase::Idle);
    assert_eq!(world.scripts, vec!["echo hi".to_string()]);
    let actions = session.history().actions();
    assert_eq!(actions.len(), 1);
    assert_eq!(actions[0].number, 0);
    assert_eq!(actions[0].summary, "ran echo");
    let report = "Stdout: \n```\nhi\n\n```\nStderr: \n```\n\n```\nExit status: 0\n";
    assert_eq!(
        actions[0].messages,
        vec![
            system("BEGIN ACTION 0"),
            system(DISCUSS_FIRST),
            assistant("a plan"),
            system(DISCUSS_ACTION),
            assistant("bash it is"),
            system(SELECT_ACTION),
            system(ACTION_BASH),
            assistant("echo hi"),
            system(report),
            system(DISCUSS_BASH),
            assistant("it printed hi"),
            system("END ACTION 0"),
        ]
    );
    assert_eq!(session.history().prefix(), &prefix("fix the bug"));
    assert!(session.messages().is_empty());
}

#[test]
fn each_prompt_goes_to_the_model_that_the_protocol_names() {
    let mut session = Session::new("task".to_string());
    let mut world = World::new(&["plan", "discussion", "bash", "true", "fine", "summary"]);
    run_action(&mut session, &mut world);

    let models: Vec<Model> = world.prompts.iter().map(|(model, _)| *model).collect();
    assert_eq!(
        models,
        vec![
            Model::Reasoning,
            Model::Basic,
            Model::Basic,
            Model::Reasoning,
            Model::Reasoning,
            Model::Basic,
        ]
    );
    assert_eq!(Model::Reasoning.name(), "o1-mini");
    assert_eq!(Model::Basic.name(), "gpt-4o-mini");

    // Every prompt starts with the prefix, and each one holds all of the one before.
    let head = prefix("task");
    for (_, prompt) in &world.prompts {
        assert_eq!(&prompt.items[..3], &head[..]);
    }
    for pair in world.prompts.windows(2).take(4) {
        let shorter = &pair[0].1.items;
        assert_eq!(&pair[1].1.items[..shorter.len()], &shorter[..]);
    }

    // The request for a summary is sent but not recorded.
    let (_, last) = world.prompts.last().unwrap();
    assert_eq!(last.items.last().unwrap(), &system("Summarize what you have done in action 0."));
    let recorded = &session.history().actions()[0].messages;
    assert_eq!(recorded.last().unwrap(), &system("END ACTION 0"));
    assert_eq!(last.items.len(), 3 + recorded.len() + 1);
}

#[test]
fn the_script_is_run_without_its_wrapping_fences() {
    let mut session = Session::new("task".to_string());
    let mut world =
        World::new(&["plan", "discussion", "bash", "```bash\nls -la\n```", "fine", "summary"]);
    run_action(&mut session, &mut world);
    assert_eq!(world.scripts, vec!["ls -la\n".to_string()]);
    // What the model said is recorded as it said it.
    assert_eq!(session.history().actions()[0].messages[7], assistant("```bash\nls -la\n```"));
}

#[test]
fn read_file_puts_the_path_into_the_ledger() {
    let mut session = Session::new("task".to_string());
    let mut world =
        World::new(&["plan", "discussion", "read-file", "README.md", "it says X", "read it"]);
    world.file = Some(Ok("X".to_string()));

    let result = run_action(&mut session, &mut world);

    assert_eq!(result, ActionResult::Continue);
    assert_eq!(world.reads, vec!["README.md".to_string()]);
    assert!(session.resources().contains("README.md"));
    assert_eq!(session.resources().len(), 1);
    let messages = &session.history().actions()[0].messages;
    assert_eq!(
        &messages[6..],
        &[
            system(ACTION_READ_FILEPATH),
            assistant("README.md"),
            system("The content of `README.md` is:"),
            system("X"),
            system(DISCUSS_READ_FILE),
            assistant("it says X"),
            system("END ACTION 0"),
        ]
    );
}

#[test]
fn a_file_that_is_missing_is_reported_and_left_out_of_the_ledger() {
    let mut session = Session::new("task".to_string());
    let mut world =
        World::new(&["plan", "discussion", "read-file", "nope.txt", "too bad", "missing"]);
    world.file = Some(Err(ReadFileError::NotFound));
    assert_eq!(run_action(&mut session, &mut world), ActionResult::Continue);
    assert!(!session.resources().contains("nope.txt"));
    assert_eq!(session.resources().len(), 0);
    let messages = &session.history().actions()[0].messages;
    assert_eq!(
        &messages[8..],
        &[
            system("The file does not exist."),
            system(DISCUSS_READ_FILE),
            assistant("too bad"),
            system("END ACTION 0"),
        ]
    );
}

#[test]
fn a_failed_read_is_reported_with_its_message() {
    let mut session = Session::new("task".to_string());
    let mut world = World::new(&["plan", "discussion", "read-file", "a.txt", "hm", "failed"]);
    world.file = Some(Err(ReadFileError::Other("disk on fire".to_string())));
    assert_eq!(run_action(&mut session, &mut world), ActionResult::Continue);
    assert!(!session.resources().contains("a.txt"));
    let messages = &session.history().actions()[0].messages;
    assert_eq!(
        messages[8],
        system("An error occured while reading the file: disk on fire")
    );
    assert_eq!(messages[9], system(DISCUSS_READ_FILE));

    let mut world = World::new(&["discussion", "edit-file", "a.txt", "hm", "failed"]);
    world.file = Some(Err(ReadFileError::Other("still burning".to_string())));
    assert_eq!(run_action(&mut session, &mut world), ActionResult::Continue);
    assert!(world.writes.is_empty());
    assert!(!session.resources().contains("a.txt"));
    let messages = &session.history().actions()[1].messages;
    assert_eq!(
        &messages[4..],
        &[
            system(ACTION_EDIT_FILEPATH),
            assistant("a.txt"),
            system("An error occured while reading the file: still burning"),
            system(DISCUSS_EDIT_FILE),
            assistant("hm"),
            system("END ACTION 1"),
        ]
    );
}

#[test]
fn edit_creates_a_file_that_does_not_exist() {
    let mut session = Session::new("task".to_string());
    let mut world = World::new(&[
        "plan",
        "discussion",
        "edit-file",
        "new.txt",
        "hello\n",
        "created it",
        "made new.txt",
    ]);
    world.file = Some(Err(ReadFileError::NotFound));

    let result = run_action(&mut session, &mut world);

    assert_eq!(result, ActionResult::Continue);
    assert_eq!(world.writes, vec![("new.txt".to_string(), "hello\n".to_string())]);
    assert!(session.resources().contains("new.txt"));
    let messages = &session.history().actions()[0].messages;
    assert_eq!(
        &messages[6..],
        &[
            system(ACTION_EDIT_FILEPATH),
            assistant("new.txt"),
            system("The file does not exist. It will be created."),
            system(ACTION_EDIT_CREATE),
            assistant("hello\n"),
            system(ACTION_EDITED),
            system(DISCUSS_EDIT_FILE),
            assistant("created it"),
            system("END ACTION 0"),
        ]
    );
}

#[test]
fn edit_replaces_a_file_that_exists() {
    let mut session = Session::new("task".to_string());
    let mut world = World::new(&[
        "plan",
        "discussion",
        "edit-file",
        "src/lib.rs",
        "add a line",
        "```rust\nfn main() {}\n```",
        "edited",
        "changed lib",
    ]);
    world.file = Some(Ok("old".to_string()));
    assert_eq!(run_action(&mut session, &mut world), ActionResult::Continue);
    assert_eq!(world.writes, vec![("src/lib.rs".to_string(), "fn main() {}\n".to_string())]);
    assert!(session.resources().contains("src/lib.rs"));
    let messages = &session.history().actions()[0].messages;
    assert_eq!(
        &messages[6..],
        &[
            system(ACTION_EDIT_FILEPATH),
            assistant("src/lib.rs"),
            system("The content of `src/lib.rs` is:"),
            system("old"),
            system(ACTION_EDIT_DISCUSS),
            assistant("add a line"),
            system(ACTION_EDIT_REPLACE),
            assistant("```rust\nfn main() {}\n```"),
            system(ACTION_EDITED),
            system(DISCUSS_EDIT_FILE),
            assistant("edited"),
            system("END ACTION 0"),
        ]
    );
}

#[test]
fn end_task_complete_returns_the_description() {
    let mut session = Session::new("task".to_string());
    let mut world = World::new(&["plan", "discussion", "end-task", "all done", "complete", "done"]);

    let result = run_action(&mut session, &mut world);

    assert_eq!(
        result,
        ActionResult::EndTask(TaskOutcome::Complete { description: "done".to_string() })
    );
    assert!(world.completions.is_empty());
    assert!(session.is_finished());
    // Nothing was recorded, and nothing more can happen.
    assert_eq!(session.history().len(), 0);
    assert_eq!(session.begin_action(), Err(StepError::TaskEnded));
    assert_eq!(session.step(Reply::Completion("more".to_string())), Err(StepError::TaskEnded));
    assert_eq!(session.step(Reply::FileWritten), Err(StepError::TaskEnded));
    assert!(session.is_finished());
    assert_eq!(
        &session.messages()[6..],
        &[
            system(ACTION_END_TASK_DISCUSS),
            assistant("all done"),
            system(ACTION_END_TASK_SELECT),
            assistant("complete"),
            system(ACTION_COMPLETE_TASK_DESCRIPTION),
        ]
    );
}

#[test]
fn end_task_failure_classifies_the_reason() {
    let mut session = Session::new("task".to_string());
    let mut world = World::new(&[
        "plan",
        "discussion",
        "end-task",
        "cannot do it",
        "failure",
        "it was too hard",
        "my own fault",
        "problem-solving",
    ]);

    let result = run_action(&mut session, &mut world);

    assert_eq!(
        result,
        ActionResult::EndTask(TaskOutcome::Failure {
            reason: TaskFailureReason::ProblemSolving,
            description: "it was too hard".to_string(),
        })
    );
    assert!(session.is_finished());
    assert_eq!(session.history().len(), 0);
    assert_eq!(
        &session.messages()[8..],
        &[
            system(ACTION_END_TASK_SELECT),
            assistant("failure"),
            system(ACTION_FAIL_TASK_DESCRIPTION),
            assistant("it was too hard"),
            system(ACTION_FAIL_TASK_REASON_DISCUSS),
            assistant("my own fault"),
            system(ACTION_FAIL_TASK_REASON_SELECT),
        ]
    );
    let models: Vec<Model> = world.prompts.iter().skip(3).map(|(model, _)| *model).collect();
    assert_eq!(
        models,
        vec![Model::Reasoning, Model::Basic, Model::Reasoning, Model::Reasoning, Model::Basic]
    );
}

#[test]
fn an_unknown_failure_reason_is_not_fatal() {
    let mut session = Session::new("task".to_string());
    let mut world = World::new(&[
        "plan",
        "discussion",
        "end-task",
        "cannot",
        "failure",
        "gave up",
        "who knows",
        "bad luck",
    ]);
    assert_eq!(
        run_action(&mut session, &mut world),
        ActionResult::EndTask(TaskOutcome::Failure {
            reason: TaskFailureReason::Unknown,
            description: "gave up".to_string(),
        })
    );
}

#[test]
fn names_are_matched_as_they_are() {
    assert_eq!(action_named("bash"), Some(ActionKind::Bash));
    assert_eq!(action_named("read-file"), Some(ActionKind::ReadFile));
    assert_eq!(action_named("edit-file"), Some(ActionKind::EditFile));
    assert_eq!(action_named("end-task"), Some(ActionKind::EndTask));
    assert_eq!(action_named("bash\n"), None);
    assert_eq!(action_named(" bash"), None);
    assert_eq!(action_named("Bash"), None);
    assert_eq!(action_named(""), None);
    assert_eq!(failure_reason_named("technical-issues"), TaskFailureReason::TechnicalIssues);
    assert_eq!(failure_reason_named("task-issues"), TaskFailureReason::TaskIssues);
    assert_eq!(failure_reason_named("problem-solving"), TaskFailureReason::ProblemSolving);
    assert_eq!(failure_reason_named("problem-solving."), TaskFailureReason::Unknown);
}

#[test]
fn an_unknown_action_name_is_refused_and_changes_nothing() {
    let mut session = Session::new("task".to_string());
    let mut world = World::new(&["plan", "discussion"]);
    let mut turn = session.begin_action().unwrap();
    for _ in 0..2 {
        match turn {
            Turn::Ask(request) => turn = session.step(world.answer(request)).unwrap(),
            Turn::Ended(_) => panic!("the action ended early"),
        }
    }
    assert_eq!(session.phase(), Phase::ActionSelection);
    let said = session.messages().len();
    assert_eq!(
        session.step(Reply::Completion("deploy".to_string())),
        Err(StepError::UnknownActionName)
    );
    assert_eq!(session.phase(), Phase::ActionSelection);
    assert_eq!(session.messages().len(), said);
    // The session is still usable with a name that exists.
    assert!(matches!(
        session.step(Reply::Completion("bash".to_string())),
        Ok(Turn::Ask(Request::Prompt { model: Model::Reasoning, .. }))
    ));
}

#[test]
fn an_unknown_exit_status_is_refused() {
    let mut session = Session::new("task".to_string());
    let mut world = World::new(&["plan", "discussion", "end-task", "hm"]);
    let mut turn = session.begin_action().unwrap();
    for _ in 0..4 {
        match turn {
            Turn::Ask(request) => turn = session.step(world.answer(request)).unwrap(),
            Turn::Ended(_) => panic!("the action ended early"),
        }
    }
    assert_eq!(session.phase(), Phase::EndSelection);
    assert_eq!(
        session.step(Reply::Completion("success".to_string())),
        Err(StepError::UnknownTaskEnding)
    );
    assert_eq!(session.phase(), Phase::EndSelection);
}

#[test]
fn replies_that_do_not_fit_are_refused() {
    let mut session = Session::new("task".to_string());
    assert_eq!(
        session.step(Reply::Completion("hello".to_string())),
        Err(StepError::NoActionInProgress)
    );
    assert_eq!(session.step(Reply::FileWritten), Err(StepError::NoActionInProgress));
    assert!(session.begin_action().is_ok());
    assert_eq!(session.begin_action(), Err(StepError::ActionInProgress));
    assert_eq!(session.step(Reply::FileWritten), Err(StepError::UnexpectedReply));
    assert_eq!(
        session.step(Reply::FileContent(Ok("x".to_string()))),
        Err(StepError::UnexpectedReply)
    );
    assert_eq!(
        session.step(Reply::ScriptOutput(Output {
            exit_code: 0,
            stdout: String::new(),
            stderr: String::new(),
        })),
        Err(StepError::UnexpectedReply)
    );
    assert_eq!(session.phase(), Phase::FirstDiscussion);
    assert_eq!(session.messages().len(), 2);
}

#[test]
fn later_actions_skip_the_first_plan() {
    let mut session = Session::new("task".to_string());
    let mut world = World::new(&["plan", "d0", "bash", "true", "f0", "s0"]);
    run_action(&mut session, &mut world);
    let mut world = World::new(&["d1", "bash", "false", "f1", "s1"]);
    world.exit_code = -3;
    world.stderr = "oops".to_string();
    assert_eq!(run_action(&mut session, &mut world), ActionResult::Continue);
    let actions = session.history().actions();
    assert_eq!(actions.len(), 2);
    assert_eq!(actions[1].number, 1);
    assert_eq!(
        actions[1].messages,
        vec![
            system("BEGIN ACTION 1"),
            system(DISCUSS_ACTION),
            assistant("d1"),
            system(SELECT_ACTION),
            system(ACTION_BASH),
            assistant("false"),
            system("Stdout: \n```\n\n```\nStderr: \n```\noops\n```\nExit status: -3\n"),
            system(DISCUSS_BASH),
            assistant("f1"),
            system("END ACTION 1"),
        ]
    );
    assert_eq!(world.prompts[0].0, Model::Basic);
}

#[test]
fn six_actions_compress_the_oldest() {
    let mut session = Session::new("task".to_string());
    let mut blocks = Vec::new();
    for n in 0..6 {
        let summary = format!("summary {}", n);
        let script: Vec<&str> = if n == 0 {
            vec!["plan", "d", "bash", "true", "f", &summary]
        } else {
            vec!["d", "bash", "true", "f", &summary]
        };
        let mut world = World::new(&script);
        // Before action n begins, the prompt holds a summary for each action but
        // the last five, and those five in full.
        let before = session.history().compressed_prompt();
        let summaries = if n > 5 { n - 5 } else { 0 };
        let full: usize = blocks.iter().skip(summaries).sum();
        assert_eq!(before.items.len(), 3 + summaries + full);
        assert_eq!(run_action(&mut session, &mut world), ActionResult::Continue);
        assert_eq!(world.prompts[0].1.items.len(), before.items.len() + 2);
        blocks.push(session.history().actions()[n].messages.len());
    }
    assert_eq!(blocks, vec![12, 10, 10, 10, 10, 10]);
    for (i, action) in session.history().actions().iter().enumerate() {
        assert_eq!(action.number, i);
    }

    let prompt = session.history().compressed_prompt();
    assert_eq!(prompt.items.len(), 3 + 1 + 5 * 10);
    assert_eq!(&prompt.items[..3], &prefix("task")[..]);
    assert_eq!(prompt.items[3], system("Summary for action 0: summary 0"));
    assert_eq!(prompt.items[4], system("BEGIN ACTION 1"));
    assert_eq!(prompt.items[53], system("END ACTION 5"));
}

#[test]
fn the_report_of_a_script_shows_both_streams_and_the_status() {
    let report = script_report_text(&Output {
        exit_code: i64::MIN,
        stdout: "out".to_string(),
        stderr: "err".to_string(),
    });
    assert_eq!(
        report,
        "Stdout: \n```\nout\n```\nStderr: \n```\nerr\n```\nExit status: -9223372036854775808\n"
    );
    let report = script_report_text(&Output {
        exit_code: 127,
        stdout: String::new(),
        stderr: String::new(),
    });
    assert_eq!(report, "Stdout: \n```\n\n```\nStderr: \n```\n\n```\nExit status: 127\n");
}

#[test]
fn the_ledger_only_grows_across_actions() {
    let mut session = Session::new("task".to_string());
    let mut world = World::new(&["plan", "d", "read-file", "a.txt", "f", "s"]);
    world.file = Some(Ok("A".to_string()));
    run_action(&mut session, &mut world);
    let mut world = World::new(&["d", "read-file", "b.txt", "f", "s"]);
    world.file = Some(Ok("B".to_string()));
    run_action(&mut session, &mut world);
    let mut world = World::new(&["d", "read-file", "a.txt", "f", "s"]);
    world.file = Some(Ok("A".to_string()));
    run_action(&mut session, &mut world);
    assert!(session.resources().contains("a.txt"));
    assert!(session.resources().contains("b.txt"));
    assert_eq!(session.resources().len(), 2);
}

#[test]
fn a_running_task_starts_a_session_with_its_description() {
    let task = Task {
        description: "add a test".to_string(),
        git_repo_url: "https://example.com/org/repo.git".to_string(),
        git_branch: "main".to_string(),
        git_user_name: "minion".to_string(),
        git_user_email: "minion@example.com".to_string(),
        status: TaskStatus::Running,
    };
    let session = run(&task);
    assert_eq!(session.phase(), Phase::Idle);
    assert_eq!(session.history().prefix(), &prefix("add a test"));
    assert_eq!(session.history().len(), 0);
    assert_eq!(session.resources().len(), 0);
    assert!(session.messages().is_empty());
}

#[test]
fn the_models_have_default_names_and_can_be_renamed() {
    let models = Models::default();
    assert_eq!(models.name(Model::Reasoning), "o1-mini");
    assert_eq!(models.name(Model::Basic), "gpt-4o-mini");
    let models = Models { reasoning: "big".to_string(), basic: "small".to_string() };
    assert_eq!(models.name(Model::Reasoning), "big");
    assert_eq!(models.name(Model::Basic), "small");
}
