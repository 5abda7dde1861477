//! The descriptor of a development container, and where it is looked for.

use crate::container::{join_path, join_paths};
use vstd::prelude::*;
use vstd::string::*;

verus! {

/// The contents of a descriptor, as far as the agent reads them.
#[derive(Debug, PartialEq, Eq)]
pub struct DevContainer {
    /// The image that the container runs.
    pub image: Option<String>,
}

/// What an image says of the container that it is meant for.
#[derive(Debug, PartialEq, Eq)]
pub struct ImageMetadata {
    pub devcontainer: DevContainer,
}

/// Where the descriptor lies in a subfolder of the descriptor directory.
pub open spec fn subfolder_candidate(directory: Seq<char>, folder: Seq<char>) -> Seq<char> {
    join_paths(join_paths(join_paths(directory, ".devcontainer"@), folder), "devcontainer.json"@)
}

/// The places where a descriptor is looked for, in order of precedence: the
/// descriptor directory, the directory itself, then each subfolder of the
/// descriptor directory, in the order given.
pub open spec fn candidates(directory: Seq<char>, folders: Seq<Seq<char>>) -> Seq<Seq<char>> {
    seq![
        join_paths(directory, ".devcontainer/devcontainer.json"@),
        join_paths(directory, ".devcontainer.json"@),
    ] + folders.map_values(|folder: Seq<char>| subfolder_candidate(directory, folder))
}

/// Whether `i` is the position of the first candidate that exists.
pub open spec fn is_first_existing(exists: Seq<bool>, i: int) -> bool {
    &&& 0 <= i < exists.len()
    &&& exists[i]
    &&& forall|j: int| 0 <= j < i ==> !exists[j]
}

/// The places where the descriptor of `directory` is looked for, in order of
/// precedence. `folders` names the subfolders of its descriptor directory.
pub fn candidate_paths(directory: &str, folders: &Vec<String>) -> (paths: Vec<String>)
    ensures
        paths.deep_view() == candidates(directory@, folders.deep_view()),
{
    let mut paths: Vec<String> = Vec::new();
    paths.push(join_path(directory, ".devcontainer/devcontainer.json"));
    paths.push(join_path(directory, ".devcontainer.json"));
    let base = join_path(directory, ".devcontainer");
    let mut i: usize = 0;
    while i < folders.len()
        invariant
            i <= folders@.len(),
            base@ == join_paths(directory@, ".devcontainer"@),
            paths@.len() == i + 2,
            paths@[0]@ == join_paths(directory@, ".devcontainer/devcontainer.json"@),
            paths@[1]@ == join_paths(directory@, ".devcontainer.json"@),
            forall|j: int|
                0 <= j < i ==> (#[trigger] paths@[j + 2])@ == subfolder_candidate(
                    directory@,
                    folders@[j]@,
                ),
        decreases folders@.len() - i,
    {
        let folder = join_path(base.as_str(), folders[i].as_str());
        paths.push(join_path(folder.as_str(), "devcontainer.json"));
        i += 1;
    }
    proof {
        let wanted = candidates(directory@, folders.deep_view());
        assert forall|j: int| 0 <= j < paths@.len() implies paths.deep_view()[j] == wanted[j] by {
            if j >= 2 {
                assert(paths@[(j - 2) + 2]@ == subfolder_candidate(directory@, folders@[j - 2]@));
                assert(wanted[j] == folders.deep_view().map_values(
                    |folder: Seq<char>| subfolder_candidate(directory@, folder),
                )[j - 2]);
            }
        }
    }
    paths
}

/// Finds the descriptor: the first candidate that exists wins. `exists` says
/// of each candidate, in order, whether there is a file at it; a candidate
/// without a flag counts as missing.
pub fn find_devcontainer_json(paths: &Vec<String>, exists: &Vec<bool>) -> (found: Option<String>)
    ensures
        found matches Some(path) ==> exists|i: int|
            #[trigger] is_first_existing(exists@, i) && i < paths@.len() && path@ == paths@[i]@,
        found is None ==> forall|i: int|
            0 <= i < paths@.len() && i < exists@.len() ==> !(#[trigger] exists@[i]),
{
    let mut i: usize = 0;
    while i < paths.len() && i < exists.len()
        invariant
            i <= paths@.len(),
            i <= exists@.len(),
            forall|j: int| 0 <= j < i ==> !exists@[j],
        decreases paths@.len() - i,
    {
        if exists[i] {
            assert(is_first_existing(exists@, i as int));
            return Some(paths[i].clone());
        }
        i += 1;
    }
    None
}

} // verus!
