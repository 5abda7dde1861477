//! The fixed texts that guide the model through an action.
//!
//! Texts that ask for a plan forbid code; texts that ask for a choice demand a
//! single name and no prose. The wording is part of the protocol.

use vstd::prelude::*;

verus! {

/// Opens every prompt: the role of the model. The task follows it.
pub const INTRO_1: &'static str = "You are an autonomous agent that solves coding tasks.
You keep your explanations as concise as possible.
You are connected to a Linux-based development environment. You are in the project directory.
Your current task is as follows:";

/// Follows the task: the actions that the model can choose from.
pub const INTRO_2: &'static str = "In order to complete the task, the system will guide you through a series of actions.
In each action, you will be able to interact with the environment using the following actions:

* `bash`: Execute bash code
* `read-file`: Read the contents of a file
* `edit-file`: Read, and optionally replace the contents of a file
* `end-task`: End your task because it is completed, or because there is an insurmountable issue preventing you from completing it.

You will be instructed when to choose an action.
You can use the `bash` action to install and execute arbitrary command line tools that are helpful for your task.
You can use `ls` or `tree` to explore the file system, or `curl` to download files.
You do not need to use `sudo` as you are already running as a privileged user.
";

/// Asks for a plan before the very first action.
pub const DISCUSS_FIRST: &'static str = "Plan the first step of your approach without writing any code, yet.
Let's think step by step.";

/// Asks what the output of a script means.
pub const DISCUSS_BASH: &'static str = "Discuss what the output means.
Then, plan what you want to do next without writing any code, yet.
Let's think step by step.";

/// Asks what the content of a file means.
pub const DISCUSS_READ_FILE: &'static str = "Discuss the file content.
Then, plan what you want to do next without writing any code, yet.
Let's think step by step.";

/// Asks for a look back at an edit.
pub const DISCUSS_EDIT_FILE: &'static str = "Discuss your edits.
Then, plan what you want to do next without writing any code, yet.
Let's think step by step.";

/// Asks which action to take next, with reasons.
pub const DISCUSS_ACTION: &'static str = "To realize the first step of your plan, you must now choose one of the following actions:

* `bash`: Execute bash code
* `read-file`: Read the contents of a file
* `edit-file`: Read, and optionally replace the contents of a file
* `end-task`: End your task because it is completed, or because there is an insurmountable issue preventing you from completing it.

To write code, you must use the `edit-file` action.
Discuss which action you choose. Let's think step by step.
";

/// Asks for the name of the chosen action and nothing else.
pub const SELECT_ACTION: &'static str = "Give the name of the action you chose above.
No prose, your message must consist solely of the action name.
For instance, if you chose the bash action, you would write:

bash
";

/// Asks for the script to run.
pub const ACTION_BASH: &'static str = "Provide the bash script you want to run.
No prose. Your message should only consist of bash code:
";

/// Asks for the path of the file to edit.
pub const ACTION_EDIT_FILEPATH: &'static str = "Provide the path of the file you want to edit.
No prose. Your message should only consist of the filepath.
For instance, to read `foo/bar/example.txt`, write:

foo/bar/example.txt
";

/// Asks whether and how to change the file.
pub const ACTION_EDIT_DISCUSS: &'static str = "Discuss whether you want to edit the file and if so, which changes you want to make.";

/// Asks for the whole new content of an existing file.
pub const ACTION_EDIT_REPLACE: &'static str = "Provide the file content with your edits applied.
If you do not want to edit the file, restate the current file contents.
No prose. Your message must list the whole updated file, because the file will be overwritten with your new content:
";

/// Asks for the content of a new file.
pub const ACTION_EDIT_CREATE: &'static str = "Provide the new file contents.
No prose. Do not wrap the file contents in markdown code fences that are not part of the file contents themselves.
Your message must only consist of the new file contents:
";

/// Tells the model that the file was saved.
pub const ACTION_EDITED: &'static str = "The edited file has been saved.";

/// Asks for the path of the file to read.
pub const ACTION_READ_FILEPATH: &'static str = "Provide the path of the file you want to read.
No prose. Your message must only consist of the filepath.
For instance, to read `foo/bar/example.txt`, write:

foo/bar/example.txt
";

/// Asks whether the task is complete or has failed, with reasons.
pub const ACTION_END_TASK_DISCUSS: &'static str = "You have decided to end the task.
Discuss whether you have completed the task or if there is an issue preventing you from completing it.
Afterwards, you will be able to select one of the following exit statuses:

* `complete`: The task is completed.
* `failure`: The task is failed.

";

/// Asks for the name of the chosen exit status and nothing else.
pub const ACTION_END_TASK_SELECT: &'static str = "Give the name of the exit status you chose above.
No prose, your message must consist solely of the action name.
For instance, if you chose to mark the task as complete, you would write:

complete
";

/// Asks for the closing summary of a completed task.
pub const ACTION_COMPLETE_TASK_DESCRIPTION: &'static str = "Give a final summary of the task which will be displayed to the user.

The summary should discuss the task, the steps you took to complete it, and the final result. Be concise.
";

/// Asks for the closing summary of a failed task.
pub const ACTION_FAIL_TASK_DESCRIPTION: &'static str = "Give a final summary on why the task failed. This summary will be displayed to the user.

The summary should discuss the task, the steps you took, and the reason for the failure. Finally, you can suggest possible solutions. Be concise.
";

/// Asks which kind of failure it was, with reasons.
pub const ACTION_FAIL_TASK_REASON_DISCUSS: &'static str = "Please categorize the reason for task failure.
You will be able to select one of the following categories:

* `technical-issues`: You failed to complete the task due to technical problems unrelated to the task itself
* `task-issues`: You failed to complete the task due to a problem with the task itself, e.g. because the task was unclear or impossible to complete
* `problem-solving`: There were no fundamental technical issues and the task was valid, but you still failed to complete the task because you did not succeed at task-specific problem-solving.

Discuss which category you choose. Let's think step by step.
";

/// Asks for the name of the kind of failure and nothing else.
pub const ACTION_FAIL_TASK_REASON_SELECT: &'static str = "Give the name of the reason category you chose above.
No prose, your message must consist solely of the reason category name.

For instance, if you chose the technical-issues category, you would write:

technical-issues
";

} // verus!
