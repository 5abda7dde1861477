//! What the agent tells the repository: what to push, and what the workspace
//! of a repository is called.

use crate::text::chars_of;
use vstd::prelude::*;
use vstd::string::*;

verus! {

/// The message of the commit that holds the agent's changes.
pub const COMMIT_MESSAGE: &'static str = "Commit from minionrt";

/// The remote that the commit is pushed to.
pub const REMOTE: &'static str = "origin";

/// The user name under which the access token is handed to the remote.
pub const ACCESS_TOKEN_USER: &'static str = "x-access-token";

/// What to push: the branch, to the branch of the same name.
pub open spec fn refspec(branch: Seq<char>) -> Seq<char> {
    "refs/heads/"@ + branch + ":refs/heads/"@ + branch
}

/// What to push: the branch, to the branch of the same name.
pub fn push_refspec(branch: &str) -> (spec: String)
    ensures
        spec@ == refspec(branch@),
{
    let mut spec = "refs/heads/".to_owned();
    spec.append(branch);
    spec.append(":refs/heads/");
    spec.append(branch);
    spec
}

/// The position just after the last separator before `n` (zero, if there is
/// none).
pub open spec fn last_segment_start(path: Seq<char>, n: int) -> int
    decreases n,
{
    if 0 < n <= path.len() && path[n - 1] != '/' {
        last_segment_start(path, n - 1)
    } else {
        n
    }
}

/// Whether a name ends with `.git`.
pub open spec fn has_git_suffix(name: Seq<char>) -> bool {
    name.len() >= 4 && name.subrange(name.len() - 4, name.len() as int) == seq!['.', 'g', 'i', 't']
}

/// The name of the folder that holds the workspace of a repository: the last
/// segment of the path of its address, without a trailing `.git`.
pub open spec fn folder_name(path: Seq<char>) -> Seq<char> {
    let name = path.subrange(last_segment_start(path, path.len() as int), path.len() as int);
    if has_git_suffix(name) {
        name.subrange(0, name.len() - 4)
    } else {
        name
    }
}

/// The name of the folder that holds the workspace of the repository whose
/// address has the given path.
pub fn workspace_folder_name(path: &str) -> (name: String)
    ensures
        name@ == folder_name(path@),
{
    let chars = chars_of(path);
    let len = chars.len();
    let mut start: usize = len;
    while start > 0 && chars[start - 1] != '/'
        invariant
            start <= len == chars@.len(),
            last_segment_start(chars@, len as int) == last_segment_start(chars@, start as int),
        decreases start,
    {
        start -= 1;
    }
    let suffixed = len - start >= 4 && chars[len - 4] == '.' && chars[len - 3] == 'g' && chars[len
        - 2] == 'i' && chars[len - 1] == 't';
    proof {
        let name = path@.subrange(start as int, len as int);
        if suffixed {
            assert(name.subrange(name.len() - 4, name.len() as int) =~= seq!['.', 'g', 'i', 't']);
        }
    }
    let end = if suffixed {
        len - 4
    } else {
        len
    };
    let kept = path.substring_char(start, end);
    kept.to_owned()
}

} // verus!
